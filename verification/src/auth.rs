//! Messages exchanged during the authentication handshake: prompts issued by
//! the authenticator and the answers a responder sends back.

use std::collections::HashMap;
use vstd::prelude::*;

verus! {

/// Messages from an authenticator that act as initiators, such as providing
/// a challenge, verifying information, presenting information, or
/// highlighting an error.
#[derive(Clone, Debug, PartialEq, Eq)]
pub enum Authentication {
    /// Indicates the beginning of authentication, providing available methods.
    Initialization(Initialization),
    /// Indicates that authentication is starting for the specific method.
    StartMethod(StartMethod),
    /// Issues a challenge to be answered.
    Challenge(Challenge),
    /// Requests verification of some text.
    Verification(Verification),
    /// Reports some information associated with authentication.
    Info(Info),
    /// Reports an error that occurred during authentication.
    Error(Error),
    /// Indicates that the authentication of all methods is finished.
    Finished,
}

/// The beginning of the authentication procedure.
#[derive(Clone, Debug, PartialEq, Eq)]
pub struct Initialization {
    /// Available methods to use for authentication.
    pub methods: Vec<String>,
}

/// The start of authentication for some method.
#[derive(Clone, Debug, PartialEq, Eq)]
pub struct StartMethod {
    pub method: String,
}

/// A challenge comprising a series of questions to be presented.
#[derive(Clone, Debug, PartialEq, Eq)]
pub struct Challenge {
    pub questions: Vec<Question>,
    pub options: HashMap<String, String>,
}

/// An ask to verify some information.
#[derive(Clone, Debug, PartialEq, Eq)]
pub struct Verification {
    pub kind: VerificationKind,
    pub text: String,
}

/// Some information to be presented related to authentication.
#[derive(Clone, Debug, PartialEq, Eq)]
pub struct Info {
    pub text: String,
}

/// Authentication messages that are responses to authenticator requests, such
/// as answers to challenges or verifying information.
#[derive(Clone, Debug, PartialEq, Eq)]
pub enum AuthenticationResponse {
    /// Response to initialization, providing details about which methods to use.
    Initialization(InitializationResponse),
    /// Answers to a challenge request.
    Challenge(ChallengeResponse),
    /// Response to a verification request.
    Verification(VerificationResponse),
}

/// A response to initialization specifying which authentication methods to pursue.
#[derive(Clone, Debug, PartialEq, Eq)]
pub struct InitializationResponse {
    /// Methods to use (in order as provided).
    pub methods: Vec<String>,
}

/// The answers to a previously-asked challenge.
#[derive(Clone, Debug, PartialEq, Eq)]
pub struct ChallengeResponse {
    /// Answers to challenge questions (in order relative to questions).
    pub answers: Vec<String>,
}

/// The answer to a previously-asked verification.
#[derive(Clone, Debug, PartialEq, Eq)]
pub struct VerificationResponse {
    /// Whether or not the verification was deemed valid.
    pub valid: bool,
}

/// The type of verification being requested.
#[derive(Copy, Clone, Debug, PartialEq, Eq, Structural)]
pub enum VerificationKind {
    /// An ask to verify the host, such as with SSH.
    Host,
    /// When the verification is unknown (happens when the other side is
    /// unaware of the kind).
    Unknown,
}

impl VerificationKind {
    /// Returns all variants except `Unknown`.
    pub fn known_variants() -> (r: Vec<VerificationKind>)
        ensures
            r@ == seq![VerificationKind::Host],
    {
        let mut v: Vec<VerificationKind> = Vec::new();
        v.push(VerificationKind::Host);
        proof {
            assert(v@ =~= seq![VerificationKind::Host]);
        }
        v
    }
}

/// A single question in a challenge.
#[derive(Clone, Debug, PartialEq, Eq)]
pub struct Question {
    /// Label associated with the question for more programmatic usage.
    pub label: String,
    /// The text of the question (used for display purposes).
    pub text: String,
    /// Any options information specific to a particular auth domain, such as
    /// including a username and instructions for SSH authentication.
    pub options: HashMap<String, String>,
}

impl Question {
    /// Creates a new question without any options data, using `text` for both
    /// label and text.
    pub fn new(text: String) -> (q: Question)
        ensures
            q.label@ == text@,
            q.text@ == text@,
            q.options@ == Map::<String, String>::empty(),
    {
        let label = text.clone();
        Question { label, text, options: HashMap::new() }
    }
}

/// Declares [`std::io::Error`] so that it can stand in signatures; values of
/// the type are opaque to verification.
#[verifier::external_type_specification]
#[verifier::external_body]
pub struct ExIoError(std::io::Error);

/// Some error that occurred during authentication.
#[derive(Clone, Debug, PartialEq, Eq)]
pub struct Error {
    /// The kind of error.
    pub kind: ErrorKind,
    /// Description of the error.
    pub text: String,
}

impl Error {
    /// Creates a fatal error.
    pub fn fatal(text: String) -> (e: Error)
        ensures
            e.kind == ErrorKind::Fatal,
            e.text@ == text@,
    {
        Error { kind: ErrorKind::Fatal, text }
    }

    /// Creates a non-fatal error.
    pub fn non_fatal(text: String) -> (e: Error)
        ensures
            e.kind == ErrorKind::Error,
            e.text@ == text@,
    {
        Error { kind: ErrorKind::Error, text }
    }

    /// Returns true if the error is fatal, meaning that no recovery is
    /// possible from this error.
    pub fn is_fatal(&self) -> (r: bool)
        ensures
            r == (self.kind == ErrorKind::Fatal),
    {
        self.kind.is_fatal()
    }

    /// Renders the error as `<kind>: <text>` for human consumption.
    pub fn to_display_string(&self) -> (r: String)
        ensures
            r@ == self.kind.display_spec() + ": "@ + self.text@,
    {
        let mut s = String::new();
        s.append(self.kind.display_str());
        s.append(": ");
        s.append(self.text.as_str());
        s
    }

    /// Converts the error into a [`std::io::Error`] representing permission
    /// denied, carrying the error's rendered text as its message.
    pub fn into_io_permission_denied(self) -> std::io::Error {
        io_permission_denied(self.to_display_string())
    }
}

/// Relies on `std::io::Error::new`, which builds an error of the given kind
/// whose message is the supplied text.
#[verifier::external_body]
fn io_permission_denied(text: String) -> std::io::Error {
    std::io::Error::new(std::io::ErrorKind::PermissionDenied, text)
}

/// The type of error encountered during authentication.
#[derive(Copy, Clone, Debug, PartialEq, Eq, Structural)]
pub enum ErrorKind {
    /// Error is unrecoverable.
    Fatal,
    /// Error is recoverable.
    Error,
}

impl ErrorKind {
    /// Returns true if the kind represents a fatal error, meaning that no
    /// recovery is possible from this error.
    pub fn is_fatal(self) -> (r: bool)
        ensures
            r == (self == ErrorKind::Fatal),
    {
        matches!(self, ErrorKind::Fatal)
    }

    /// The human-readable name of the kind, as a sequence of characters.
    pub open spec fn display_spec(self) -> Seq<char> {
        match self {
            ErrorKind::Fatal => "Fatal"@,
            ErrorKind::Error => "Error"@,
        }
    }

    /// The human-readable name of the kind.
    pub fn display_str(self) -> (r: &'static str)
        ensures
            r@ == self.display_spec(),
    {
        match self {
            ErrorKind::Fatal => "Fatal",
            ErrorKind::Error => "Error",
        }
    }
}

} // verus!
