//! The authentication handshake as a state machine.  The authenticator
//! prompts and the responder answers; both sides drive the same state graph.
//! A fatal error or a finish closes the machine: nothing is emitted after
//! either.

use crate::auth::{
    Authentication, Challenge, ChallengeResponse, Error, ErrorKind, Info, Initialization,
    InitializationResponse, StartMethod, Verification, VerificationResponse,
};
use crate::text::contains_string;
use vstd::prelude::*;

verus! {

/// Where the handshake stands.
#[derive(Clone, Debug, PartialEq, Eq)]
pub enum AuthState {
    /// Nothing sent yet.
    Idle,
    /// The available methods were announced; awaiting the responder's choice.
    Initializing,
    /// Working through the chosen methods; the index points into them.
    Method { index: usize },
    /// Authentication succeeded; nothing further is exchanged.
    Finished,
    /// A fatal error closed the session; nothing further is exchanged.
    Failed,
}

/// True in the two states from which nothing more may be emitted.
pub open spec fn is_terminal(s: AuthState) -> bool {
    s is Finished || s is Failed
}

/// Whether an authentication error is fatal.
pub open spec fn is_fatal_message(m: Authentication) -> bool {
    match m {
        Authentication::Error(e) => e.kind == ErrorKind::Fatal,
        _ => false,
    }
}

/// Whether a message closes the machine: a fatal error fails it and the
/// `Finished` marker finishes it.
pub open spec fn emission_closes(m: Authentication) -> bool {
    is_fatal_message(m) || m is Finished
}

/// A sequence of emitted messages is a valid trace from `s` when nothing is
/// emitted from a terminal state and every closing message moves the machine
/// to its terminal state.
pub open spec fn valid_trace(s: AuthState, msgs: Seq<Authentication>) -> bool
    decreases msgs.len(),
{
    msgs.len() == 0 || {
        &&& !is_terminal(s)
        &&& valid_trace(
            if is_fatal_message(msgs[0]) {
                AuthState::Failed
            } else if msgs[0] is Finished {
                AuthState::Finished
            } else {
                s
            },
            msgs.drop_first(),
        )
    }
}

/// A fatal error is the last message of any valid trace: after it the
/// machine is failed, and a failed machine emits nothing.
pub proof fn lemma_fatal_is_last(s: AuthState, msgs: Seq<Authentication>, i: int)
    requires
        valid_trace(s, msgs),
        0 <= i < msgs.len(),
        is_fatal_message(msgs[i]),
    ensures
        i == msgs.len() - 1,
    decreases msgs.len(),
{
    if i == 0 {
        if msgs.len() > 1 {
            assert(valid_trace(AuthState::Failed, msgs.drop_first()));
            assert(msgs.drop_first().len() > 0);
            assert(false);
        }
    } else {
        let rest = msgs.drop_first();
        assert(rest[i - 1] == msgs[i]);
        if is_fatal_message(msgs[0]) {
            lemma_fatal_is_last(AuthState::Failed, rest, i - 1);
        } else if msgs[0] is Finished {
            lemma_fatal_is_last(AuthState::Finished, rest, i - 1);
        } else {
            lemma_fatal_is_last(s, rest, i - 1);
        }
    }
}

/// No message follows `Finished` in a valid trace either: exactly one
/// `Finished` ends a successful handshake.
pub proof fn lemma_finished_is_last(s: AuthState, msgs: Seq<Authentication>, i: int)
    requires
        valid_trace(s, msgs),
        0 <= i < msgs.len(),
        msgs[i] is Finished,
    ensures
        i == msgs.len() - 1,
    decreases msgs.len(),
{
    if i == 0 {
        if msgs.len() > 1 {
            assert(valid_trace(AuthState::Finished, msgs.drop_first()));
            assert(msgs.drop_first().len() > 0);
        }
    } else {
        let rest = msgs.drop_first();
        assert(rest[i - 1] == msgs[i]);
        if is_fatal_message(msgs[0]) {
            lemma_fatal_is_last(s, msgs, 0);
        } else if msgs[0] is Finished {
            lemma_finished_is_last(AuthState::Finished, rest, i - 1);
        } else {
            lemma_finished_is_last(s, rest, i - 1);
        }
    }
}

/// A challenge response is well-formed exactly when it carries one answer
/// per question, in order.
pub open spec fn well_formed_challenge_response(c: Challenge, r: ChallengeResponse) -> bool {
    r.answers@.len() == c.questions@.len()
}

/// Accepts or rejects a challenge response: accepted exactly when the
/// response carries as many answers as the challenge has questions.
pub fn accepts_challenge_response(c: &Challenge, r: &ChallengeResponse) -> (ok: bool)
    ensures
        ok == well_formed_challenge_response(*c, *r),
{
    r.answers.len() == c.questions.len()
}

/// The methods of `desired` that `offered` contains, in `desired`'s order.
pub open spec fn chosen_methods(desired: Seq<Seq<char>>, offered: Seq<Seq<char>>) -> Seq<
    Seq<char>,
> {
    desired.filter(|m: Seq<char>| offered.contains(m))
}

/// Builds the responder's initialization answer: the desired methods that
/// were offered, preserving the responder's preference order.
pub fn respond_initialization(offered: &Initialization, desired: &Vec<String>) -> (r:
    InitializationResponse)
    ensures
        r.methods.deep_view() == chosen_methods(desired.deep_view(), offered.methods.deep_view()),
{
    let mut methods: Vec<String> = Vec::new();
    let ghost pred = |m: Seq<char>| offered.methods.deep_view().contains(m);
    let n: usize = desired.len();
    proof {
        assert(desired.deep_view().take(0) =~= Seq::<Seq<char>>::empty());
    }
    let mut i: usize = 0;
    while i < n
        invariant
            n == desired@.len(),
            desired@.len() == desired.deep_view().len(),
            i <= n,
            pred == (|m: Seq<char>| offered.methods.deep_view().contains(m)),
            forall|k: int| 0 <= k < desired@.len() ==> desired.deep_view()[k] == desired@[k]@,
            methods.deep_view() == desired.deep_view().take(i as int).filter(pred),
        decreases n - i,
    {
        let ghost pre = methods.deep_view();
        let ghost mpre = methods@;
        let m: &String = &desired[i];
        if contains_string(&offered.methods, m) {
            methods.push(m.clone());
        }
        proof {
            let t = desired.deep_view().take(i + 1);
            let prefix = desired.deep_view().take(i as int);
            let dvi = desired.deep_view()[i as int];
            assert(t =~= prefix.push(dvi));
            prefix.lemma_filter_push(dvi, pred);
            if pred(dvi) {
                assert(methods@.len() == mpre.len() + 1);
                assert forall|k: int| 0 <= k < methods@.len() implies methods.deep_view()[k]
                    == pre.push(dvi)[k] by {
                    assert(methods.deep_view()[k] == methods@[k].deep_view());
                    if k < mpre.len() {
                        assert(methods@[k] == mpre[k]);
                        assert(pre[k] == mpre[k].deep_view());
                    } else {
                        assert(methods@[k]@ == m@);
                    }
                }
                assert(methods.deep_view() =~= pre.push(dvi));
                assert(prefix.push(dvi).filter(pred) == prefix.filter(pred).push(dvi));
            } else {
                assert(methods.deep_view() =~= pre);
                assert(prefix.push(dvi).filter(pred) == prefix.filter(pred));
            }
            assert(methods.deep_view() == t.filter(pred));
        }
        i = i + 1;
    }
    proof {
        assert(desired.deep_view().take(n as int) =~= desired.deep_view());
    }
    InitializationResponse { methods }
}

/// The authenticator's side of the handshake: the methods it offered, the
/// ones the responder chose, and where it stands.
#[derive(Clone, Debug, PartialEq, Eq)]
pub struct Authenticator {
    pub offered: Vec<String>,
    pub chosen: Vec<String>,
    pub state: AuthState,
}

impl Authenticator {
    /// Opens the handshake: announces the available methods.
    pub fn start(methods: Vec<String>) -> (r: (Authenticator, Authentication))
        ensures
            r.0.state == AuthState::Initializing,
            r.0.offered@ == methods@,
            r.1 == Authentication::Initialization(Initialization { methods }),
            !is_terminal(r.0.state),
            !emission_closes(r.1),
    {
        let offered = methods.clone();
        let auth = Authenticator { offered, chosen: Vec::new(), state: AuthState::Initializing };
        (auth, Authentication::Initialization(Initialization { methods }))
    }

    /// Consumes the responder's choice of methods.  An empty choice, or a
    /// method that was never offered, is a fatal error and fails the
    /// machine; otherwise the first chosen method starts.
    pub fn on_initialization_response(&mut self, resp: InitializationResponse) -> (out:
        Authentication)
        requires
            old(self).state == AuthState::Initializing,
        ensures
            resp.methods@.len() == 0 ==> {
                &&& is_fatal_message(out)
                &&& final(self).state == AuthState::Failed
            },
            resp.methods@.len() > 0 && !(forall|k: int|
                0 <= k < resp.methods@.len() ==> old(self).offered.deep_view().contains(
                    resp.methods.deep_view()[k],
                )) ==> {
                &&& is_fatal_message(out)
                &&& final(self).state == AuthState::Failed
            },
            resp.methods@.len() > 0 && (forall|k: int|
                0 <= k < resp.methods@.len() ==> old(self).offered.deep_view().contains(
                    resp.methods.deep_view()[k],
                )) ==> {
                &&& out matches Authentication::StartMethod(sm) && sm.method@
                    == resp.methods@[0]@
                &&& final(self).state == (AuthState::Method { index: 0 })
                &&& final(self).chosen@ == resp.methods@
            },
            final(self).offered@ == old(self).offered@,
    {
        if resp.methods.len() == 0 {
            self.state = AuthState::Failed;
            return Authentication::Error(
                Error { kind: ErrorKind::Fatal, text: ("no methods chosen").to_owned() },
            );
        }
        let n: usize = resp.methods.len();
        let mut i: usize = 0;
        while i < n
            invariant
                n == resp.methods@.len(),
                resp.methods@.len() == resp.methods.deep_view().len(),
                i <= n,
                self == old(self),
                forall|k: int|
                    0 <= k < i ==> old(self).offered.deep_view().contains(
                        resp.methods.deep_view()[k],
                    ),
            decreases n - i,
        {
            proof {
                assert(resp.methods.deep_view()[i as int] == resp.methods@[i as int]@);
            }
            if !contains_string(&self.offered, &resp.methods[i]) {
                self.state = AuthState::Failed;
                return Authentication::Error(
                    Error {
                        kind: ErrorKind::Fatal,
                        text: ("method was not offered").to_owned(),
                    },
                );
            }
            proof {
                assert(resp.methods.deep_view()[i as int] == resp.methods@[i as int]@);
            }
            i = i + 1;
        }
        let first = resp.methods[0].clone();
        self.chosen = resp.methods;
        self.state = AuthState::Method { index: 0 };
        Authentication::StartMethod(StartMethod { method: first })
    }

    /// Issues a challenge while a method is active.
    pub fn challenge(&self, questions: Vec<crate::auth::Question>, options: std::collections::HashMap<String, String>) -> (out: Authentication)
        requires
            self.state is Method,
        ensures
            out == Authentication::Challenge(Challenge { questions, options }),
            !emission_closes(out),
    {
        Authentication::Challenge(Challenge { questions, options })
    }

    /// Consumes a challenge response: rejected unless it answers every
    /// question, exactly.
    pub fn on_challenge_response(&self, c: &Challenge, r: &ChallengeResponse) -> (ok: Result<
        (),
        Error,
    >)
        requires
            self.state is Method,
        ensures
            ok is Ok <==> well_formed_challenge_response(*c, *r),
            ok matches Result::Err(e) ==> e.kind == ErrorKind::Error,
    {
        if accepts_challenge_response(c, r) {
            Ok(())
        } else {
            Err(Error { kind: ErrorKind::Error, text: ("mismatched answer count").to_owned() })
        }
    }

    /// Moves on to the next chosen method, announcing it.
    pub fn next_method(&mut self) -> (out: Option<Authentication>)
        requires
            old(self).state is Method,
            old(self).state->Method_index < old(self).chosen@.len(),
        ensures
            old(self).state->Method_index + 1 < old(self).chosen@.len() ==> {
                &&& final(self).state == (AuthState::Method {
                    index: (old(self).state->Method_index + 1) as usize,
                })
                &&& out matches Option::Some(Authentication::StartMethod(sm)) && sm.method@
                    == old(self).chosen@[old(self).state->Method_index + 1]@
            },
            old(self).state->Method_index + 1 == old(self).chosen@.len() ==> {
                &&& final(self).state == AuthState::Finished
                &&& out == Option::Some(Authentication::Finished)
            },
            final(self).chosen@ == old(self).chosen@,
            final(self).offered@ == old(self).offered@,
    {
        let index: usize = match self.state {
            AuthState::Method { index } => index,
            _ => 0,
        };
        let clen: usize = self.chosen.len();
        if index < clen && index + 1 < clen {
            let next: usize = index + 1;
            self.state = AuthState::Method { index: next };
            Some(Authentication::StartMethod(StartMethod { method: self.chosen[next].clone() }))
        } else {
            self.state = AuthState::Finished;
            Some(Authentication::Finished)
        }
    }

    /// Emits an error: a fatal one fails the machine and is its last word; a
    /// recoverable one leaves the current method in place for a retry.
    pub fn emit_error(&mut self, e: Error) -> (out: Authentication)
        requires
            !is_terminal(old(self).state),
        ensures
            out == Authentication::Error(e),
            e.kind == ErrorKind::Fatal ==> final(self).state == AuthState::Failed,
            e.kind != ErrorKind::Fatal ==> final(self).state == old(self).state,
            is_fatal_message(out) <==> e.kind == ErrorKind::Fatal,
    {
        if e.kind.is_fatal() {
            self.state = AuthState::Failed;
        }
        Authentication::Error(e)
    }

    /// Reports information while a method is active; no response is
    /// expected.
    pub fn info(&self, text: String) -> (out: Authentication)
        requires
            self.state is Method,
        ensures
            out == Authentication::Info(Info { text }),
            !emission_closes(out),
    {
        Authentication::Info(Info { text })
    }

    /// Asks for a verification while a method is active.
    pub fn verification(&self, v: Verification) -> (out: Authentication)
        requires
            self.state is Method,
        ensures
            out == Authentication::Verification(v),
            !emission_closes(out),
    {
        Authentication::Verification(v)
    }

    /// Consumes a verification response.
    pub fn on_verification_response(&self, r: &VerificationResponse) -> (valid: bool)
        requires
            self.state is Method,
        ensures
            valid == r.valid,
    {
        r.valid
    }
}

} // verus!
