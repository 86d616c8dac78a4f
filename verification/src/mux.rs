//! Correlation of inbound envelopes with the requests that produced them:
//! a table from origin id to waiter, one-shot completion, subscription
//! streams with terminal markers, and the discard of late arrivals.

use vstd::prelude::*;

verus! {

/// What the table holds for a registered id.
#[derive(Copy, Clone, Debug, PartialEq, Eq, Structural)]
pub enum EntryState {
    /// A single response completes and removes the waiter.
    OneShot,
    /// A subscription whose initial response has not arrived yet.
    AwaitingFirst,
    /// A subscription whose initial response has been delivered.
    Streaming,
}

/// Where one inbound envelope goes.
#[derive(Copy, Clone, Debug, PartialEq, Eq, Structural)]
pub enum RouteDecision {
    /// Completes a one-shot waiter; the waiter is removed.
    CompleteOneShot,
    /// The initial response of a subscription.
    StreamFirst,
    /// A later element of a subscription's stream.
    StreamItem,
    /// The terminal marker of a subscription; the stream closes.
    StreamEnd,
    /// Nothing waits under this id; the envelope is dropped.
    Discard,
}

impl RouteDecision {
    /// True when the envelope is handed to a caller rather than dropped.
    pub open spec fn is_delivery(self) -> bool {
        !(self is Discard)
    }
}

/// One routing step: the decision for an envelope with the given origin and
/// terminal flag, and the table afterwards.
pub open spec fn route_step(
    t: Map<Seq<char>, EntryState>,
    origin: Seq<char>,
    terminal: bool,
) -> (RouteDecision, Map<Seq<char>, EntryState>) {
    if !t.contains_key(origin) {
        (RouteDecision::Discard, t)
    } else {
        match t[origin] {
            EntryState::OneShot => (RouteDecision::CompleteOneShot, t.remove(origin)),
            EntryState::AwaitingFirst => if terminal {
                (RouteDecision::StreamFirst, t.remove(origin))
            } else {
                (RouteDecision::StreamFirst, t.insert(origin, EntryState::Streaming))
            },
            EntryState::Streaming => if terminal {
                (RouteDecision::StreamEnd, t.remove(origin))
            } else {
                (RouteDecision::StreamItem, t)
            },
        }
    }
}

/// The decisions for a whole arrival sequence, processed in transport order.
/// An arrival is an origin id and whether the payload is a terminal marker.
pub open spec fn route_all(
    t: Map<Seq<char>, EntryState>,
    arr: Seq<(Seq<char>, bool)>,
) -> Seq<RouteDecision>
    decreases arr.len(),
{
    if arr.len() == 0 {
        Seq::empty()
    } else {
        let step = route_step(t, arr[0].0, arr[0].1);
        seq![step.0] + route_all(step.1, arr.drop_first())
    }
}

/// The decisions made for one id, in arrival order.
pub open spec fn decisions_for(
    arr: Seq<(Seq<char>, bool)>,
    ds: Seq<RouteDecision>,
    id: Seq<char>,
) -> Seq<RouteDecision>
    decreases arr.len(),
{
    if arr.len() == 0 || ds.len() == 0 {
        Seq::empty()
    } else {
        (if arr[0].0 == id {
            seq![ds[0]]
        } else {
            Seq::empty()
        }) + decisions_for(arr.drop_first(), ds.drop_first(), id)
    }
}

/// The terminal flags of one id's arrivals, in arrival order.
pub open spec fn terminals_for(arr: Seq<(Seq<char>, bool)>, id: Seq<char>) -> Seq<bool>
    decreases arr.len(),
{
    if arr.len() == 0 {
        Seq::empty()
    } else {
        (if arr[0].0 == id {
            seq![arr[0].1]
        } else {
            Seq::empty()
        }) + terminals_for(arr.drop_first(), id)
    }
}

/// What one id's waiter state dictates for its arrivals: a one-shot
/// completes once and the rest is discarded; a subscription's first arrival
/// is its initial response, the stream then follows the arrivals until the
/// first terminal marker, and everything after the terminal is discarded.
pub open spec fn expected_decisions(s: Option<EntryState>, terms: Seq<bool>) -> Seq<RouteDecision>
    decreases terms.len(),
{
    if terms.len() == 0 {
        Seq::empty()
    } else {
        match s {
            Option::None => seq![RouteDecision::Discard] + expected_decisions(
                Option::None,
                terms.drop_first(),
            ),
            Option::Some(EntryState::OneShot) => seq![RouteDecision::CompleteOneShot]
                + expected_decisions(Option::None, terms.drop_first()),
            Option::Some(EntryState::AwaitingFirst) => seq![RouteDecision::StreamFirst]
                + expected_decisions(
                if terms[0] {
                    Option::None
                } else {
                    Option::Some(EntryState::Streaming)
                },
                terms.drop_first(),
            ),
            Option::Some(EntryState::Streaming) => if terms[0] {
                seq![RouteDecision::StreamEnd] + expected_decisions(
                    Option::None,
                    terms.drop_first(),
                )
            } else {
                seq![RouteDecision::StreamItem] + expected_decisions(
                    Option::Some(EntryState::Streaming),
                    terms.drop_first(),
                )
            },
        }
    }
}

/// One decision is made per arrival of the id.
pub proof fn lemma_expected_len(s: Option<EntryState>, terms: Seq<bool>)
    ensures
        expected_decisions(s, terms).len() == terms.len(),
    decreases terms.len(),
{
    if terms.len() > 0 {
        match s {
            Option::None => lemma_expected_len(Option::None, terms.drop_first()),
            Option::Some(EntryState::OneShot) => lemma_expected_len(
                Option::None,
                terms.drop_first(),
            ),
            Option::Some(EntryState::AwaitingFirst) => lemma_expected_len(
                if terms[0] {
                    Option::None
                } else {
                    Option::Some(EntryState::Streaming)
                },
                terms.drop_first(),
            ),
            Option::Some(EntryState::Streaming) => lemma_expected_len(
                if terms[0] {
                    Option::None
                } else {
                    Option::Some(EntryState::Streaming)
                },
                terms.drop_first(),
            ),
        }
    }
}

/// The entry of `t` for `id`, if any.
pub open spec fn entry_of(t: Map<Seq<char>, EntryState>, id: Seq<char>) -> Option<EntryState> {
    if t.contains_key(id) {
        Option::Some(t[id])
    } else {
        Option::None
    }
}

/// The decisions an id receives depend only on that id's own arrivals, in
/// their transport order: envelopes of other ids never reorder or consume
/// them.  This is the keystone of the per-id stream guarantees.
pub proof fn lemma_per_id_routing(
    t: Map<Seq<char>, EntryState>,
    arr: Seq<(Seq<char>, bool)>,
    id: Seq<char>,
)
    ensures
        decisions_for(arr, route_all(t, arr), id) == expected_decisions(
            entry_of(t, id),
            terminals_for(arr, id),
        ),
    decreases arr.len(),
{
    if arr.len() == 0 {
    } else {
        let step = route_step(t, arr[0].0, arr[0].1);
        let ds = route_all(t, arr);
        let rest = arr.drop_first();
        assert(ds == seq![step.0] + route_all(step.1, rest));
        assert(ds.drop_first() =~= route_all(step.1, rest));
        assert(ds[0] == step.0);
        lemma_per_id_routing(step.1, rest, id);
        if arr[0].0 == id {
            assert(terminals_for(arr, id) == seq![arr[0].1] + terminals_for(rest, id));
            assert(terminals_for(arr, id).drop_first() =~= terminals_for(rest, id));
            assert(entry_of(step.1, id) == (match entry_of(t, id) {
                Option::None => Option::None,
                Option::Some(EntryState::OneShot) => Option::None,
                Option::Some(EntryState::AwaitingFirst) => if arr[0].1 {
                    Option::None
                } else {
                    Option::Some(EntryState::Streaming)
                },
                Option::Some(EntryState::Streaming) => if arr[0].1 {
                    Option::<EntryState>::None
                } else {
                    Option::Some(EntryState::Streaming)
                },
            }));
            assert(decisions_for(arr, ds, id) =~= seq![step.0] + decisions_for(
                rest,
                ds.drop_first(),
                id,
            ));
            assert(decisions_for(arr, ds, id) =~= expected_decisions(
                entry_of(t, id),
                terminals_for(arr, id),
            ));
        } else {
            assert(entry_of(step.1, id) == entry_of(t, id));
            assert(terminals_for(arr, id) == terminals_for(rest, id));
            assert(decisions_for(arr, ds, id) =~= decisions_for(rest, ds.drop_first(), id));
        }
    }
}

/// For every request sent, exactly one response completes its waiter: the
/// first envelope bearing its id completes it, every later one is
/// discarded, and none completes it at all only when no envelope with its
/// id ever arrives — that is, when the session ends first.
pub proof fn lemma_one_terminal_response(
    t: Map<Seq<char>, EntryState>,
    arr: Seq<(Seq<char>, bool)>,
    id: Seq<char>,
)
    requires
        entry_of(t, id) == Option::Some(EntryState::OneShot),
    ensures
        ({
            let ds = decisions_for(arr, route_all(t, arr), id);
            &&& ds.len() == terminals_for(arr, id).len()
            &&& ds.len() > 0 ==> ds[0] == RouteDecision::CompleteOneShot
            &&& forall|j: int| 1 <= j < ds.len() ==> ds[j] == RouteDecision::Discard
        }),
{
    lemma_per_id_routing(t, arr, id);
    let terms = terminals_for(arr, id);
    let s = Option::Some(EntryState::OneShot);
    lemma_expected_len(s, terms);
    let e = expected_decisions(s, terms);
    if terms.len() > 0 {
        assert(e == seq![RouteDecision::CompleteOneShot] + expected_decisions(
            Option::None,
            terms.drop_first(),
        ));
        assert(e[0] == RouteDecision::CompleteOneShot);
        lemma_expected_len(Option::None, terms.drop_first());
        assert forall|j: int| 1 <= j < e.len() implies e[j] == RouteDecision::Discard by {
            lemma_none_discards(terms.drop_first(), j - 1);
            assert(e.drop_first() =~= expected_decisions(Option::None, terms.drop_first()));
            assert(e[j] == e.drop_first()[j - 1]);
        }
    }
}

/// An unregistered id receives only discards.
pub proof fn lemma_none_discards(terms: Seq<bool>, i: int)
    requires
        0 <= i < terms.len(),
    ensures
        expected_decisions(Option::None, terms)[i] == RouteDecision::Discard,
    decreases terms.len(),
{
    lemma_expected_len(Option::None, terms);
    lemma_expected_len(Option::None, terms.drop_first());
    let e = expected_decisions(Option::None, terms);
    assert(e == seq![RouteDecision::Discard] + expected_decisions(
        Option::None,
        terms.drop_first(),
    ));
    if i > 0 {
        lemma_none_discards(terms.drop_first(), i - 1);
        assert(e.drop_first() =~= expected_decisions(Option::None, terms.drop_first()));
        assert(e[i] == e.drop_first()[i - 1]);
    } else {
        assert(e[0] == RouteDecision::Discard);
    }
}

/// The initial response of a subscription precedes every other delivery of
/// its id: only index zero of its decisions is `StreamFirst`.
pub proof fn lemma_first_precedes_stream(terms: Seq<bool>, i: int)
    requires
        0 <= i < terms.len(),
    ensures
        expected_decisions(Option::Some(EntryState::AwaitingFirst), terms)[0]
            == RouteDecision::StreamFirst,
        i > 0 ==> expected_decisions(Option::Some(EntryState::AwaitingFirst), terms)[i]
            != RouteDecision::StreamFirst,
    decreases terms.len(),
{
    let s2 = if terms[0] {
        Option::<EntryState>::None
    } else {
        Option::Some(EntryState::Streaming)
    };
    lemma_expected_len(Option::Some(EntryState::AwaitingFirst), terms);
    lemma_expected_len(s2, terms.drop_first());
    let e = expected_decisions(Option::Some(EntryState::AwaitingFirst), terms);
    assert(e == seq![RouteDecision::StreamFirst] + expected_decisions(s2, terms.drop_first()));
    assert(e[0] == RouteDecision::StreamFirst);
    if i > 0 {
        lemma_not_first_after_start(s2, terms.drop_first(), i - 1);
        assert(e.drop_first() =~= expected_decisions(s2, terms.drop_first()));
        assert(e[i] == e.drop_first()[i - 1]);
    }
}

/// After the initial response, a stream never sees another `StreamFirst`.
proof fn lemma_not_first_after_start(s: Option<EntryState>, terms: Seq<bool>, i: int)
    requires
        0 <= i < terms.len(),
        s != Option::Some(EntryState::AwaitingFirst),
        s != Option::Some(EntryState::OneShot),
    ensures
        expected_decisions(s, terms)[i] != RouteDecision::StreamFirst,
    decreases terms.len(),
{
    let e = expected_decisions(s, terms);
    let s2 = match s {
        Option::None => Option::<EntryState>::None,
        Option::Some(EntryState::Streaming) => if terms[0] {
            Option::<EntryState>::None
        } else {
            Option::Some(EntryState::Streaming)
        },
        _ => Option::<EntryState>::None,
    };
    lemma_expected_len(s, terms);
    lemma_expected_len(s2, terms.drop_first());
    if i > 0 {
        lemma_not_first_after_start(s2, terms.drop_first(), i - 1);
        assert(e.drop_first() =~= expected_decisions(s2, terms.drop_first()));
        assert(e[i] == e.drop_first()[i - 1]);
    }
}

/// Nothing is delivered for an id after its terminal marker: once a
/// decision is `StreamEnd`, every later decision for that id is a discard.
pub proof fn lemma_nothing_after_terminal(s: Option<EntryState>, terms: Seq<bool>, i: int, j: int)
    requires
        0 <= i < j < terms.len(),
        expected_decisions(s, terms)[i] == RouteDecision::StreamEnd,
    ensures
        expected_decisions(s, terms)[j] == RouteDecision::Discard,
    decreases terms.len(),
{
    let e = expected_decisions(s, terms);
    let s2 = match s {
        Option::None => Option::<EntryState>::None,
        Option::Some(EntryState::OneShot) => Option::<EntryState>::None,
        Option::Some(EntryState::AwaitingFirst) => if terms[0] {
            Option::<EntryState>::None
        } else {
            Option::Some(EntryState::Streaming)
        },
        Option::Some(EntryState::Streaming) => if terms[0] {
            Option::<EntryState>::None
        } else {
            Option::Some(EntryState::Streaming)
        },
    };
    let e2 = expected_decisions(s2, terms.drop_first());
    lemma_expected_len(s, terms);
    lemma_expected_len(s2, terms.drop_first());
    assert(e.drop_first() =~= e2);
    if i == 0 {
        match s {
            Option::Some(EntryState::Streaming) => {
                assert(terms[0]);
                lemma_none_discards(terms.drop_first(), j - 1);
                assert(e[j] == e.drop_first()[j - 1]);
            },
            _ => {
                assert(e[0] != RouteDecision::StreamEnd);
            },
        }
    } else {
        assert(e[i] == e.drop_first()[i - 1]);
        match s {
            Option::None => {
                lemma_none_discards(terms.drop_first(), i - 1);
            },
            Option::Some(EntryState::OneShot) => {
                lemma_none_discards(terms.drop_first(), i - 1);
            },
            _ => {
                lemma_nothing_after_terminal(s2, terms.drop_first(), i - 1, j - 1);
                assert(e[j] == e.drop_first()[j - 1]);
            },
        }
    }
}


/// Deliveries to one id form a prefix of its arrivals: if a later arrival of
/// the id is delivered, every earlier one was delivered too.  Together with
/// `lemma_per_id_routing`, which aligns the decisions with the id's arrivals
/// in transport order, this says the stream a subscriber sees is its
/// arrivals in arrival order, cut off at the terminal marker.
pub proof fn lemma_stream_is_prefix_of_arrivals(
    s: Option<EntryState>,
    terms: Seq<bool>,
    i: int,
    j: int,
)
    requires
        0 <= i < j < terms.len(),
        expected_decisions(s, terms)[j].is_delivery(),
    ensures
        expected_decisions(s, terms)[i].is_delivery(),
    decreases terms.len(),
{
    let e = expected_decisions(s, terms);
    let s2 = match s {
        Option::None => Option::<EntryState>::None,
        Option::Some(EntryState::OneShot) => Option::<EntryState>::None,
        Option::Some(EntryState::AwaitingFirst) => if terms[0] {
            Option::<EntryState>::None
        } else {
            Option::Some(EntryState::Streaming)
        },
        Option::Some(EntryState::Streaming) => if terms[0] {
            Option::<EntryState>::None
        } else {
            Option::Some(EntryState::Streaming)
        },
    };
    let e2 = expected_decisions(s2, terms.drop_first());
    lemma_expected_len(s, terms);
    lemma_expected_len(s2, terms.drop_first());
    assert(e.drop_first() =~= e2);
    assert(e[j] == e.drop_first()[j - 1]);
    if i == 0 {
        match s {
            Option::None => {
                lemma_none_discards(terms.drop_first(), j - 1);
            },
            Option::Some(EntryState::OneShot) => {
                lemma_none_discards(terms.drop_first(), j - 1);
            },
            _ => {
                assert(e[0].is_delivery());
            },
        }
    } else {
        assert(e[i] == e.drop_first()[i - 1]);
        match s {
            Option::None => {
                lemma_none_discards(terms.drop_first(), j - 1);
            },
            Option::Some(EntryState::OneShot) => {
                lemma_none_discards(terms.drop_first(), j - 1);
            },
            _ => {
                lemma_stream_is_prefix_of_arrivals(s2, terms.drop_first(), i - 1, j - 1);
            },
        }
    }
}


/// The id table of a multiplexer: origin ids mapped to their waiters.  The
/// table is consulted and pruned as envelopes arrive; late envelopes whose
/// waiter is gone are discarded.
pub struct Router {
    entries: Vec<(String, EntryState)>,
}

/// The association list as a map, later pairs shadowing earlier ones.
pub open spec fn entries_map(s: Seq<(String, EntryState)>) -> Map<Seq<char>, EntryState>
    decreases s.len(),
{
    if s.len() == 0 {
        Map::empty()
    } else {
        entries_map(s.drop_last()).insert(s.last().0@, s.last().1)
    }
}

/// Keys are distinct, so the list order never matters.
pub open spec fn unique_keys(s: Seq<(String, EntryState)>) -> bool {
    forall|i: int, j: int| 0 <= i < j < s.len() ==> s[i].0@ != s[j].0@
}

/// A key present in the list is in the map, with the listed state.
proof fn lemma_entries_map_index(s: Seq<(String, EntryState)>, i: int)
    requires
        unique_keys(s),
        0 <= i < s.len(),
    ensures
        entries_map(s).contains_key(s[i].0@),
        entries_map(s)[s[i].0@] == s[i].1,
    decreases s.len(),
{
    if i < s.len() - 1 {
        assert(s.drop_last()[i] == s[i]);
        lemma_entries_map_index(s.drop_last(), i);
        assert(s[i].0@ != s.last().0@);
    }
}

/// A key absent from the list is absent from the map.
proof fn lemma_entries_map_absent(s: Seq<(String, EntryState)>, k: Seq<char>)
    requires
        forall|i: int| 0 <= i < s.len() ==> s[i].0@ != k,
    ensures
        !entries_map(s).contains_key(k),
    decreases s.len(),
{
    if s.len() > 0 {
        assert(forall|i: int| 0 <= i < s.drop_last().len() ==> s.drop_last()[i].0@ != k);
        lemma_entries_map_absent(s.drop_last(), k);
    }
}

/// Removing the pair at `i` removes its key from the map.
proof fn lemma_entries_map_remove(s: Seq<(String, EntryState)>, i: int)
    requires
        unique_keys(s),
        0 <= i < s.len(),
    ensures
        entries_map(s.remove(i)) == entries_map(s).remove(s[i].0@),
    decreases s.len(),
{
    if i == s.len() - 1 {
        assert(s.remove(i) =~= s.drop_last());
        lemma_entries_map_absent_last(s);
    } else {
        assert(s.remove(i).drop_last() =~= s.drop_last().remove(i));
        assert(s.remove(i).last() == s.last());
        lemma_entries_map_remove(s.drop_last(), i);
        assert(s[i].0@ != s.last().0@);
        assert(entries_map(s.remove(i)) =~= entries_map(s).remove(s[i].0@)) by {
            assert(entries_map(s.remove(i)) == entries_map(s.drop_last().remove(i)).insert(
                s.last().0@,
                s.last().1,
            ));
            assert(entries_map(s.drop_last().remove(i)) == entries_map(s.drop_last()).remove(
                s[i].0@,
            ));
            assert(entries_map(s.drop_last()).remove(s[i].0@).insert(s.last().0@, s.last().1)
                =~= entries_map(s.drop_last()).insert(s.last().0@, s.last().1).remove(s[i].0@));
        }
    }
}

/// The last key appears nowhere earlier, so dropping it removes it.
proof fn lemma_entries_map_absent_last(s: Seq<(String, EntryState)>)
    requires
        unique_keys(s),
        s.len() > 0,
    ensures
        entries_map(s.drop_last()) == entries_map(s).remove(s.last().0@),
{
    assert(forall|i: int| 0 <= i < s.drop_last().len() ==> s.drop_last()[i].0@ != s.last().0@);
    lemma_entries_map_absent(s.drop_last(), s.last().0@);
    assert(entries_map(s.drop_last()) =~= entries_map(s).remove(s.last().0@));
}

impl Router {
    /// The table as a map from id to waiter state.
    pub closed spec fn table(self) -> Map<Seq<char>, EntryState> {
        entries_map(self.entries@)
    }

    /// The keys stay distinct.
    pub closed spec fn wf(self) -> bool {
        unique_keys(self.entries@)
    }

    /// An empty table.
    pub fn new() -> (r: Router)
        ensures
            r.wf(),
            r.table() == Map::<Seq<char>, EntryState>::empty(),
    {
        Router { entries: Vec::new() }
    }

    /// Finds the position of an id.
    fn position(&self, id: &String) -> (r: Option<usize>)
        ensures
            match r {
                Option::Some(i) => i < self.entries@.len() && self.entries@[i as int].0@ == id@,
                Option::None => forall|k: int|
                    0 <= k < self.entries@.len() ==> self.entries@[k].0@ != id@,
            },
    {
        let n: usize = self.entries.len();
        let mut i: usize = 0;
        while i < n
            invariant
                n == self.entries@.len(),
                i <= n,
                forall|k: int| 0 <= k < i ==> self.entries@[k].0@ != id@,
            decreases n - i,
        {
            if self.entries[i].0.eq(id) {
                return Some(i);
            }
            i = i + 1;
        }
        None
    }

    /// Registers a one-shot waiter under a fresh id.
    pub fn register_oneshot(&mut self, id: String) -> (ok: bool)
        requires
            old(self).wf(),
        ensures
            final(self).wf(),
            ok ==> final(self).table() == old(self).table().insert(id@, EntryState::OneShot),
            !ok ==> final(self).table() == old(self).table() && old(self).table().contains_key(
                id@,
            ),
    {
        self.register(id, EntryState::OneShot)
    }

    /// Registers a subscription waiter under a fresh id.
    pub fn register_subscription(&mut self, id: String) -> (ok: bool)
        requires
            old(self).wf(),
        ensures
            final(self).wf(),
            ok ==> final(self).table() == old(self).table().insert(id@, EntryState::AwaitingFirst),
            !ok ==> final(self).table() == old(self).table() && old(self).table().contains_key(
                id@,
            ),
    {
        self.register(id, EntryState::AwaitingFirst)
    }

    /// Registers a waiter; refused when the id is taken.
    fn register(&mut self, id: String, state: EntryState) -> (ok: bool)
        requires
            old(self).wf(),
        ensures
            final(self).wf(),
            ok ==> final(self).table() == old(self).table().insert(id@, state),
            !ok ==> final(self).table() == old(self).table() && old(self).table().contains_key(
                id@,
            ),
    {
        match self.position(&id) {
            Option::Some(i) => {
                proof {
                    lemma_entries_map_index(self.entries@, i as int);
                }
                false
            },
            Option::None => {
                let ghost pre = self.entries@;
                self.entries.push((id, state));
                proof {
                    assert(self.entries@.drop_last() =~= pre);
                    assert(final(self).wf());
                }
                true
            },
        }
    }

    /// Cancels a waiter: its id is removed and later envelopes for it are
    /// discarded.
    pub fn cancel(&mut self, id: &String)
        requires
            old(self).wf(),
        ensures
            final(self).wf(),
            final(self).table() == old(self).table().remove(id@),
    {
        match self.position(id) {
            Option::Some(i) => {
                proof {
                    lemma_entries_map_remove(self.entries@, i as int);
                }
                let ghost pre = self.entries@;
                self.entries.remove(i);
                proof {
                    assert(self.entries@ =~= pre.remove(i as int));
                    assert(final(self).wf());
                }
            },
            Option::None => {
                proof {
                    lemma_entries_map_absent(self.entries@, id@);
                    assert(old(self).table().remove(id@) =~= old(self).table());
                }
            },
        }
    }

    /// Routes one inbound envelope by its origin id, exactly as the routing
    /// model dictates.
    pub fn route(&mut self, origin: &String, terminal: bool) -> (d: RouteDecision)
        requires
            old(self).wf(),
        ensures
            final(self).wf(),
            (d, final(self).table()) == route_step(old(self).table(), origin@, terminal),
    {
        match self.position(origin) {
            Option::None => {
                proof {
                    lemma_entries_map_absent(self.entries@, origin@);
                }
                RouteDecision::Discard
            },
            Option::Some(i) => {
                proof {
                    lemma_entries_map_index(self.entries@, i as int);
                }
                let state: EntryState = self.entries[i].1;
                match state {
                    EntryState::OneShot => {
                        self.remove_at(i);
                        RouteDecision::CompleteOneShot
                    },
                    EntryState::AwaitingFirst => {
                        if terminal {
                            self.remove_at(i);
                        } else {
                            self.set_streaming(i);
                        }
                        RouteDecision::StreamFirst
                    },
                    EntryState::Streaming => {
                        if terminal {
                            self.remove_at(i);
                            RouteDecision::StreamEnd
                        } else {
                            RouteDecision::StreamItem
                        }
                    },
                }
            },
        }
    }

    /// Removes the pair at `i`.
    fn remove_at(&mut self, i: usize)
        requires
            old(self).wf(),
            i < old(self).entries@.len(),
        ensures
            final(self).wf(),
            final(self).table() == old(self).table().remove(old(self).entries@[i as int].0@),
    {
        proof {
            lemma_entries_map_remove(self.entries@, i as int);
        }
        let ghost pre = self.entries@;
        self.entries.remove(i);
        proof {
            assert(self.entries@ =~= pre.remove(i as int));
        }
    }

    /// Marks the subscription at `i` as streaming.
    fn set_streaming(&mut self, i: usize)
        requires
            old(self).wf(),
            i < old(self).entries@.len(),
        ensures
            final(self).wf(),
            final(self).table() == old(self).table().insert(
                old(self).entries@[i as int].0@,
                EntryState::Streaming,
            ),
    {
        proof {
            lemma_entries_map_remove(self.entries@, i as int);
        }
        let ghost pre = self.entries@;
        let pair = self.entries.remove(i);
        proof {
            assert(self.entries@ =~= pre.remove(i as int));
        }
        let ghost mid = self.entries@;
        self.entries.push((pair.0, EntryState::Streaming));
        proof {
            assert(self.entries@.drop_last() =~= mid);
            assert(final(self).wf()) by {
                assert(forall|k: int|
                    0 <= k < mid.len() ==> mid[k].0@ != pre[i as int].0@) by {
                    assert(forall|k: int|
                        0 <= k < mid.len() ==> #[trigger] mid[k] == (if k < i {
                            pre[k]
                        } else {
                            pre[k + 1]
                        }));
                }
            }
            assert(final(self).table() =~= old(self).table().insert(
                pre[i as int].0@,
                EntryState::Streaming,
            ));
        }
    }
}

} // verus!
