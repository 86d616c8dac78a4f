use distant::auth::{Authentication, AuthenticationResponse, ChallengeResponse, Info, VerificationKind};
use distant::data::{Change, ChangeKind, Envelope, Msg, ResponseData};
use distant::format::{Format, Formatter, Output};
use distant::codec::{
    authentication_response_wire_tag, authentication_wire_tag, classify_auth_tag,
    decode_verification_kind, encode_frame, reencode_verification_tag, verification_kind_wire_tag,
    AuthMessageKind, DecodeError, FrameBuffer,
};

#[test]
fn frame_round_trip() {
    let payload: Vec<u8> = b"hello".to_vec();
    let framed = encode_frame(&payload);
    assert_eq!(framed, vec![0u8, 0, 0, 5, b'h', b'e', b'l', b'l', b'o']);

    let mut buf = FrameBuffer::new();
    buf.feed(&framed);
    let out = buf.try_next();
    assert_eq!(out, Some(payload));
    assert_eq!(buf.try_next(), None);
}

#[test]
fn partial_frames_are_buffered_until_complete() {
    let payload: Vec<u8> = b"stream".to_vec();
    let framed = encode_frame(&payload);
    let mut buf = FrameBuffer::new();
    buf.feed(&framed[..3]);
    assert_eq!(buf.try_next(), None);
    buf.feed(&framed[3..7]);
    assert_eq!(buf.try_next(), None);
    buf.feed(&framed[7..]);
    assert_eq!(buf.try_next(), Some(payload));
}

#[test]
fn two_frames_in_one_feed() {
    let a = encode_frame(&b"one".to_vec());
    let b = encode_frame(&b"two".to_vec());
    let mut both = a.clone();
    both.extend_from_slice(&b);
    let mut buf = FrameBuffer::new();
    buf.feed(&both);
    assert_eq!(buf.try_next(), Some(b"one".to_vec()));
    assert_eq!(buf.try_next(), Some(b"two".to_vec()));
    assert_eq!(buf.try_next(), None);
}

#[test]
fn unknown_verification_kind_falls_back_without_failing() {
    assert_eq!(decode_verification_kind("host"), VerificationKind::Host);
    assert_eq!(decode_verification_kind("fingerprint"), VerificationKind::Unknown);
    assert_eq!(decode_verification_kind(""), VerificationKind::Unknown);
}

#[test]
fn verification_tag_round_trip_lossless_or_canonical() {
    // A lossless receiver repeats the tag it received.
    assert_eq!(reencode_verification_tag("fingerprint", true), "fingerprint");
    // Any other writes the canonical tag of the decoded kind.
    assert_eq!(reencode_verification_tag("fingerprint", false), "unknown");
    assert_eq!(reencode_verification_tag("host", false), "host");
    assert_eq!(verification_kind_wire_tag(VerificationKind::Unknown), "unknown");
}

#[test]
fn authentication_wire_tags() {
    assert_eq!(
        authentication_wire_tag(&Authentication::Info(Info { text: String::new() })),
        "auth_info"
    );
    assert_eq!(authentication_wire_tag(&Authentication::Finished), "auth_finished");
    assert_eq!(
        authentication_response_wire_tag(&AuthenticationResponse::Challenge(ChallengeResponse {
            answers: Vec::new(),
        })),
        "auth_challenge_response"
    );
}

#[test]
fn unknown_envelope_tag_is_an_error() {
    assert_eq!(classify_auth_tag("auth_challenge"), Ok(AuthMessageKind::Challenge));
    assert_eq!(
        classify_auth_tag("auth_initialization_response"),
        Ok(AuthMessageKind::InitializationResponse)
    );
    assert_eq!(classify_auth_tag("auth_bogus"), Err(DecodeError::UnknownVariant));
}

#[test]
fn framed_json_envelope_round_trip() {
    let mut f = Formatter::new(Format::Json);
    let res = Envelope {
        id: String::from("server-9"),
        origin_id: Some(String::from("W1")),
        payload: Msg::Single(ResponseData::Changed(Change {
            kind: ChangeKind::Create,
            paths: vec![String::from("/tmp/x/file")],
        })),
    };
    let bytes = match f.render(res).unwrap() {
        Output::StdoutLine(b) => b,
        other => panic!("expected a stdout line, got {:?}", other),
    };

    // Send it framed, deliver it in two chunks, and read it back whole.
    let framed = encode_frame(&bytes);
    let mut buf = FrameBuffer::new();
    let (a, b) = framed.split_at(5);
    buf.feed(a);
    assert_eq!(buf.try_next(), None);
    buf.feed(b);
    let payload = buf.try_next().unwrap();
    let v: serde_json::Value = serde_json::from_slice(&payload).unwrap();
    assert_eq!(v["origin_id"].as_str(), Some("W1"));
    assert_eq!(v["payload"]["type"].as_str(), Some("changed"));
    assert_eq!(v["payload"]["paths"][0].as_str(), Some("/tmp/x/file"));
}
