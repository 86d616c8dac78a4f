use distant::auth::{
    Authentication, Challenge, ChallengeResponse, Error, InitializationResponse, Question,
};
use distant::auth_machine::{
    accepts_challenge_response, respond_initialization, AuthState, Authenticator,
};
use std::collections::HashMap;

#[test]
fn challenge_response_arity_must_match() {
    let challenge = Challenge {
        questions: vec![Question::new(String::from("Key?"))],
        options: HashMap::new(),
    };
    let good = ChallengeResponse { answers: vec![String::from("s3cret")] };
    let missing = ChallengeResponse { answers: Vec::new() };
    let extra = ChallengeResponse {
        answers: vec![String::from("a"), String::from("b")],
    };
    assert!(accepts_challenge_response(&challenge, &good));
    assert!(!accepts_challenge_response(&challenge, &missing));
    assert!(!accepts_challenge_response(&challenge, &extra));
}

#[test]
fn initialization_response_preserves_desired_order() {
    let (_auth, first) =
        Authenticator::start(vec![String::from("none"), String::from("static_key")]);
    let offered = match first {
        Authentication::Initialization(init) => init,
        other => panic!("expected initialization, got {:?}", other),
    };
    let resp = respond_initialization(
        &offered,
        &vec![String::from("static_key"), String::from("kerberos")],
    );
    assert_eq!(resp.methods, vec![String::from("static_key")]);
}

#[test]
fn auth_happy_path_reaches_finished() {
    let (mut auth, _init) =
        Authenticator::start(vec![String::from("none"), String::from("static_key")]);
    let out = auth.on_initialization_response(InitializationResponse {
        methods: vec![String::from("static_key")],
    });
    match out {
        Authentication::StartMethod(sm) => assert_eq!(sm.method, "static_key"),
        other => panic!("expected start_method, got {:?}", other),
    }
    assert_eq!(auth.state, AuthState::Method { index: 0 });

    let challenge = Challenge {
        questions: vec![Question::new(String::from("Key?"))],
        options: HashMap::new(),
    };
    let resp = ChallengeResponse { answers: vec![String::from("s3cret")] };
    assert!(auth.on_challenge_response(&challenge, &resp).is_ok());

    let finished = auth.next_method();
    assert_eq!(finished, Some(Authentication::Finished));
    assert_eq!(auth.state, AuthState::Finished);
}

#[test]
fn empty_method_choice_is_fatal() {
    let (mut auth, _init) = Authenticator::start(vec![String::from("none")]);
    let out = auth.on_initialization_response(InitializationResponse { methods: Vec::new() });
    match out {
        Authentication::Error(e) => assert!(e.is_fatal()),
        other => panic!("expected a fatal error, got {:?}", other),
    }
    assert_eq!(auth.state, AuthState::Failed);
}

#[test]
fn unoffered_method_is_fatal() {
    let (mut auth, _init) = Authenticator::start(vec![String::from("none")]);
    let out = auth.on_initialization_response(InitializationResponse {
        methods: vec![String::from("kerberos")],
    });
    match out {
        Authentication::Error(e) => assert!(e.is_fatal()),
        other => panic!("expected a fatal error, got {:?}", other),
    }
    assert_eq!(auth.state, AuthState::Failed);
}

#[test]
fn fatal_error_closes_the_machine() {
    let (mut auth, _init) = Authenticator::start(vec![String::from("none")]);
    let out = auth.emit_error(Error::fatal(String::from("bad key")));
    match out {
        Authentication::Error(e) => assert!(e.is_fatal()),
        other => panic!("expected an error, got {:?}", other),
    }
    // The machine is failed: its authenticate() fails permission-denied and
    // nothing further is emitted from this peer.
    assert_eq!(auth.state, AuthState::Failed);
}

#[test]
fn recoverable_error_keeps_the_method() {
    let (mut auth, _init) = Authenticator::start(vec![String::from("none")]);
    let _start = auth.on_initialization_response(InitializationResponse {
        methods: vec![String::from("none")],
    });
    assert_eq!(auth.state, AuthState::Method { index: 0 });
    let _out = auth.emit_error(Error::non_fatal(String::from("try again")));
    assert_eq!(auth.state, AuthState::Method { index: 0 });
}
