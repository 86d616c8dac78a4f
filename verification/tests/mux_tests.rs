use distant::mux::{RouteDecision, Router};

#[test]
fn one_shot_completes_exactly_once() {
    let mut r = Router::new();
    assert!(r.register_oneshot(String::from("A")));
    assert_eq!(r.route(&String::from("A"), false), RouteDecision::CompleteOneShot);
    // The waiter is gone: a second response for the same id is discarded.
    assert_eq!(r.route(&String::from("A"), false), RouteDecision::Discard);
}

#[test]
fn duplicate_registration_is_refused() {
    let mut r = Router::new();
    assert!(r.register_oneshot(String::from("A")));
    assert!(!r.register_subscription(String::from("A")));
}

#[test]
fn subscription_first_then_stream_then_terminal() {
    let mut r = Router::new();
    assert!(r.register_subscription(String::from("W")));
    assert_eq!(r.route(&String::from("W"), false), RouteDecision::StreamFirst);
    assert_eq!(r.route(&String::from("W"), false), RouteDecision::StreamItem);
    assert_eq!(r.route(&String::from("W"), false), RouteDecision::StreamItem);
    assert_eq!(r.route(&String::from("W"), true), RouteDecision::StreamEnd);
    // Nothing with this id is delivered after the terminal marker.
    assert_eq!(r.route(&String::from("W"), false), RouteDecision::Discard);
}

#[test]
fn streams_of_different_ids_never_swap() {
    let mut r = Router::new();
    assert!(r.register_subscription(String::from("W1")));
    assert!(r.register_subscription(String::from("W2")));
    // Interleaved arrivals: each id sees its own envelopes in arrival order.
    assert_eq!(r.route(&String::from("W1"), false), RouteDecision::StreamFirst);
    assert_eq!(r.route(&String::from("W2"), false), RouteDecision::StreamFirst);
    assert_eq!(r.route(&String::from("W1"), false), RouteDecision::StreamItem);
    assert_eq!(r.route(&String::from("W2"), false), RouteDecision::StreamItem);
    assert_eq!(r.route(&String::from("W1"), true), RouteDecision::StreamEnd);
    // W1 closed; W2 still streams.
    assert_eq!(r.route(&String::from("W1"), false), RouteDecision::Discard);
    assert_eq!(r.route(&String::from("W2"), false), RouteDecision::StreamItem);
}

#[test]
fn cancel_discards_late_envelopes() {
    let mut r = Router::new();
    assert!(r.register_subscription(String::from("W")));
    assert_eq!(r.route(&String::from("W"), false), RouteDecision::StreamFirst);
    r.cancel(&String::from("W"));
    assert_eq!(r.route(&String::from("W"), false), RouteDecision::Discard);
}

#[test]
fn unknown_origin_is_discarded() {
    let mut r = Router::new();
    assert_eq!(r.route(&String::from("nobody"), false), RouteDecision::Discard);
}

#[test]
fn first_terminal_response_closes_a_subscription() {
    let mut r = Router::new();
    assert!(r.register_subscription(String::from("S")));
    // A subscription whose very first response is terminal delivers it and
    // closes.
    assert_eq!(r.route(&String::from("S"), true), RouteDecision::StreamFirst);
    assert_eq!(r.route(&String::from("S"), false), RouteDecision::Discard);
}
