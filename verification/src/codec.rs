//! The message codec: length-prefixed framing over bytes, the wire tags of
//! the authentication messages, the `unknown` fallback of the verification
//! kind, and the JSON rendering of response envelopes.

use crate::auth::{Authentication, AuthenticationResponse, VerificationKind};
use crate::data::{
    Capability, DirEntry, Envelope, Metadata, Msg, ResponseData, SearchQueryMatch, SystemInfo,
    UnixMetadata, WindowsMetadata,
};
use crate::text::{
    bool_rep, dec_rep, dec_rep_int, joined, json_string_array_rep, json_string_rep, json_u8_array_rep,
    lemma_joined_push, push_bool, push_i32_dec, push_json_string, push_json_string_array,
    push_json_u8_array, push_str_bytes, push_u64_dec, str_eq,
};
use vstd::prelude::*;
use vstd::string::StringSliceAdditionalSpecFns;
use vstd::utf8::encode_utf8;

verus! {

/// What a decoder reports when bytes cannot be turned into a message: an
/// incomplete frame, a well-framed payload that rejects the schema, or a
/// required discriminant nobody recognizes.
#[derive(Copy, Clone, Debug, PartialEq, Eq, Structural)]
pub enum DecodeError {
    Truncated,
    Malformed,
    UnknownVariant,
}

/// The four big-endian bytes of a 32-bit length.
pub open spec fn be32(n: nat) -> Seq<u8> {
    seq![
        ((n / 0x1000000) % 0x100) as u8,
        ((n / 0x10000) % 0x100) as u8,
        ((n / 0x100) % 0x100) as u8,
        (n % 0x100) as u8,
    ]
}

/// The length read back from four big-endian bytes.
pub open spec fn be32_val(s: Seq<u8>) -> nat {
    (s[0] as nat) * 0x1000000 + (s[1] as nat) * 0x10000 + (s[2] as nat) * 0x100 + (s[3] as nat)
}

/// A frame: the payload's length in four big-endian bytes, then the payload.
pub open spec fn frame_rep(payload: Seq<u8>) -> Seq<u8> {
    be32(payload.len()) + payload
}

/// Reading four big-endian bytes undoes writing them.
pub proof fn lemma_be32_round_trip(n: nat)
    requires
        n < 0x100000000,
    ensures
        be32_val(be32(n)) == n,
{
    assert(n == 0x1000000 * (n / 0x1000000) + n % 0x1000000);
    assert(n % 0x1000000 == 0x10000 * ((n % 0x1000000) / 0x10000) + (n % 0x1000000) % 0x10000);
    assert((n % 0x1000000) % 0x10000 == n % 0x10000);
    assert((n % 0x1000000) / 0x10000 == (n / 0x10000) % 0x100);
    assert(n % 0x10000 == 0x100 * ((n % 0x10000) / 0x100) + (n % 0x10000) % 0x100);
    assert((n % 0x10000) % 0x100 == n % 0x100);
    assert((n % 0x10000) / 0x100 == (n / 0x100) % 0x100);
    assert(n / 0x1000000 < 0x100);
    assert((n / 0x1000000) % 0x100 == n / 0x1000000);
}

/// Encodes one complete frame: four length bytes, then the payload.
pub fn encode_frame(payload: &Vec<u8>) -> (r: Vec<u8>)
    requires
        payload@.len() < 0x100000000,
    ensures
        r@ == frame_rep(payload@),
        be32_val(r@.take(4)) == payload@.len(),
{
    let n: u64 = payload.len() as u64;
    let mut r: Vec<u8> = Vec::new();
    r.push(((n / 0x1000000) % 0x100) as u8);
    r.push(((n / 0x10000) % 0x100) as u8);
    r.push(((n / 0x100) % 0x100) as u8);
    r.push((n % 0x100) as u8);
    proof {
        assert(r@ =~= be32(payload@.len() as nat));
    }
    let mut p = payload.clone();
    r.append(&mut p);
    proof {
        assert(r@ =~= frame_rep(payload@));
        assert(r@.take(4) =~= be32(payload@.len() as nat));
        lemma_be32_round_trip(payload@.len() as nat);
    }
    r
}

/// Decodes the first frame of `bytes`: the payload and the count of bytes it
/// spanned.  Reports `Truncated` while the frame is incomplete; a frame whose
/// declared length exceeds what a vector can hold never arrives whole, so it
/// too reads as `Truncated`.
pub fn decode_frame(bytes: &Vec<u8>) -> (r: Result<(Vec<u8>, usize), DecodeError>)
    ensures
        match r {
            Result::Ok(pc) => {
                &&& bytes@.len() >= 4
                &&& be32_val(bytes@.take(4)) == pc.0@.len()
                &&& pc.1 == 4 + pc.0@.len()
                &&& pc.1 <= bytes@.len()
                &&& pc.0@ == bytes@.subrange(4, pc.1 as int)
            },
            Result::Err(e) => {
                &&& e == DecodeError::Truncated
                &&& (bytes@.len() < 4 || bytes@.len() < 4 + be32_val(bytes@.take(4)))
            },
        },
{
    if bytes.len() < 4 {
        return Err(DecodeError::Truncated);
    }
    let n: u64 = (bytes[0] as u64) * 0x1000000 + (bytes[1] as u64) * 0x10000 + (bytes[2] as u64)
        * 0x100 + (bytes[3] as u64);
    proof {
        assert(be32_val(bytes@.take(4)) == n as nat);
    }
    if bytes.len() < 4 || (((bytes.len() - 4) as u64) < n) {
        return Err(DecodeError::Truncated);
    }
    let len: usize = n as usize;
    let total: usize = bytes.len();
    let mut payload: Vec<u8> = Vec::new();
    let mut i: usize = 0;
    while i < len
        invariant
            len as nat == be32_val(bytes@.take(4)),
            total == bytes@.len(),
            4 + len <= total,
            i <= len,
            payload@ == bytes@.subrange(4, 4 + i as int),
        decreases len - i,
    {
        let idx: usize = 4 + i;
        let b: u8 = bytes[idx];
        payload.push(b);
        proof {
            assert(bytes@.subrange(4, 4 + (i + 1)) =~= bytes@.subrange(4, 4 + i as int).push(
                bytes@[4 + i as int],
            ));
        }
        i = i + 1;
    }
    Ok((payload, 4 + len))
}

/// A frame followed by anything decodes to exactly its payload.
pub proof fn lemma_frame_parts(payload: Seq<u8>, rest: Seq<u8>)
    requires
        payload.len() < 0x100000000,
    ensures
        (frame_rep(payload) + rest).len() >= 4 + be32_val((frame_rep(payload) + rest).take(4)),
        be32_val((frame_rep(payload) + rest).take(4)) == payload.len(),
        (frame_rep(payload) + rest).subrange(4, 4 + payload.len() as int) == payload,
{
    let whole = frame_rep(payload) + rest;
    assert(whole.take(4) =~= be32(payload.len()));
    lemma_be32_round_trip(payload.len());
    assert(whole.subrange(4, 4 + payload.len() as int) =~= payload);
}

/// A buffer over a byte stream that hands out one complete frame at a time,
/// holding partial frames until the rest arrives.
pub struct FrameBuffer {
    buf: Vec<u8>,
}

impl FrameBuffer {
    /// The bytes received and not yet handed out.
    pub closed spec fn pending(self) -> Seq<u8> {
        self.buf@
    }

    /// An empty buffer.
    pub fn new() -> (r: FrameBuffer)
        ensures
            r.pending() == Seq::<u8>::empty(),
    {
        FrameBuffer { buf: Vec::new() }
    }

    /// Appends bytes read from the transport.
    pub fn feed(&mut self, chunk: &[u8])
        ensures
            final(self).pending() == old(self).pending() + chunk@,
    {
        self.buf.extend_from_slice(chunk);
    }

    /// Takes the first complete frame's payload out of the buffer, or
    /// reports that the buffered bytes still form no complete frame.
    pub fn try_next(&mut self) -> (r: Option<Vec<u8>>)
        ensures
            match r {
                Option::Some(p) => {
                    &&& old(self).pending().len() >= 4
                    &&& be32_val(old(self).pending().take(4)) == p@.len()
                    &&& 4 + p@.len() <= old(self).pending().len()
                    &&& p@ == old(self).pending().subrange(4, 4 + p@.len() as int)
                    &&& final(self).pending() == old(self).pending().skip(4 + p@.len() as int)
                },
                Option::None => {
                    &&& final(self).pending() == old(self).pending()
                    &&& (old(self).pending().len() < 4 || old(self).pending().len() < 4
                        + be32_val(old(self).pending().take(4)))
                },
            },
{
    let decoded = decode_frame(&self.buf);
    match decoded {
        Result::Ok((payload, consumed)) => {
            let mut rest: Vec<u8> = Vec::new();
            let total: usize = self.buf.len();
            let mut i: usize = consumed;
            while i < total
                invariant
                    consumed <= i <= total,
                    total == self.buf@.len(),
                    self.buf@ == old(self).pending(),
                    rest@ == self.buf@.subrange(consumed as int, i as int),
                decreases total - i,
            {
                let b: u8 = self.buf[i];
                rest.push(b);
                proof {
                    assert(self.buf@.subrange(consumed as int, i + 1) =~= self.buf@.subrange(
                        consumed as int,
                        i as int,
                    ).push(self.buf@[i as int]));
                }
                i = i + 1;
            }
            proof {
                assert(rest@ =~= old(self).pending().skip(consumed as int));
            }
            self.buf = rest;
            Some(payload)
        },
        Result::Err(_) => None,
    }
}
}

/// The wire tag of an authenticator-initiated message.
pub open spec fn authentication_tag(m: Authentication) -> Seq<char> {
    match m {
        Authentication::Initialization(_) => "auth_initialization"@,
        Authentication::StartMethod(_) => "auth_start_method"@,
        Authentication::Challenge(_) => "auth_challenge"@,
        Authentication::Verification(_) => "auth_verification"@,
        Authentication::Info(_) => "auth_info"@,
        Authentication::Error(_) => "auth_error"@,
        Authentication::Finished => "auth_finished"@,
    }
}

/// The wire tag of an authenticator-initiated message.
pub fn authentication_wire_tag(m: &Authentication) -> (r: &'static str)
    ensures
        r@ == authentication_tag(*m),
{
    match m {
        Authentication::Initialization(_) => "auth_initialization",
        Authentication::StartMethod(_) => "auth_start_method",
        Authentication::Challenge(_) => "auth_challenge",
        Authentication::Verification(_) => "auth_verification",
        Authentication::Info(_) => "auth_info",
        Authentication::Error(_) => "auth_error",
        Authentication::Finished => "auth_finished",
    }
}

/// The wire tag of a responder message.
pub open spec fn authentication_response_tag(m: AuthenticationResponse) -> Seq<char> {
    match m {
        AuthenticationResponse::Initialization(_) => "auth_initialization_response"@,
        AuthenticationResponse::Challenge(_) => "auth_challenge_response"@,
        AuthenticationResponse::Verification(_) => "auth_verification_response"@,
    }
}

/// The wire tag of a responder message.
pub fn authentication_response_wire_tag(m: &AuthenticationResponse) -> (r: &'static str)
    ensures
        r@ == authentication_response_tag(*m),
{
    match m {
        AuthenticationResponse::Initialization(_) => "auth_initialization_response",
        AuthenticationResponse::Challenge(_) => "auth_challenge_response",
        AuthenticationResponse::Verification(_) => "auth_verification_response",
    }
}

/// The discriminant an authentication wire tag selects.
#[derive(Copy, Clone, Debug, PartialEq, Eq, Structural)]
pub enum AuthMessageKind {
    Initialization,
    StartMethod,
    Challenge,
    Verification,
    Info,
    Error,
    Finished,
    InitializationResponse,
    ChallengeResponse,
    VerificationResponse,
}

impl AuthMessageKind {
    /// The wire tag of the discriminant.
    pub open spec fn tag_spec(self) -> Seq<char> {
        match self {
            AuthMessageKind::Initialization => "auth_initialization"@,
            AuthMessageKind::StartMethod => "auth_start_method"@,
            AuthMessageKind::Challenge => "auth_challenge"@,
            AuthMessageKind::Verification => "auth_verification"@,
            AuthMessageKind::Info => "auth_info"@,
            AuthMessageKind::Error => "auth_error"@,
            AuthMessageKind::Finished => "auth_finished"@,
            AuthMessageKind::InitializationResponse => "auth_initialization_response"@,
            AuthMessageKind::ChallengeResponse => "auth_challenge_response"@,
            AuthMessageKind::VerificationResponse => "auth_verification_response"@,
        }
    }
}

/// Classifies an authentication wire tag.  Unlike the verification kind,
/// the envelope discriminant has no fallback: an unrecognized tag is an
/// `UnknownVariant` error.
pub fn classify_auth_tag(tag: &str) -> (r: Result<AuthMessageKind, DecodeError>)
    ensures
        match r {
            Result::Ok(k) => tag@ == k.tag_spec(),
            Result::Err(e) => {
                &&& e == DecodeError::UnknownVariant
                &&& forall|k: AuthMessageKind| tag@ != k.tag_spec()
            },
        },
{
    if str_eq(tag, "auth_initialization") {
        Ok(AuthMessageKind::Initialization)
    } else if str_eq(tag, "auth_start_method") {
        Ok(AuthMessageKind::StartMethod)
    } else if str_eq(tag, "auth_challenge") {
        Ok(AuthMessageKind::Challenge)
    } else if str_eq(tag, "auth_verification") {
        Ok(AuthMessageKind::Verification)
    } else if str_eq(tag, "auth_info") {
        Ok(AuthMessageKind::Info)
    } else if str_eq(tag, "auth_error") {
        Ok(AuthMessageKind::Error)
    } else if str_eq(tag, "auth_finished") {
        Ok(AuthMessageKind::Finished)
    } else if str_eq(tag, "auth_initialization_response") {
        Ok(AuthMessageKind::InitializationResponse)
    } else if str_eq(tag, "auth_challenge_response") {
        Ok(AuthMessageKind::ChallengeResponse)
    } else if str_eq(tag, "auth_verification_response") {
        Ok(AuthMessageKind::VerificationResponse)
    } else {
        proof {
            assert forall|k: AuthMessageKind| tag@ != k.tag_spec() by {
                match k {
                    AuthMessageKind::Initialization => {},
                    AuthMessageKind::StartMethod => {},
                    AuthMessageKind::Challenge => {},
                    AuthMessageKind::Verification => {},
                    AuthMessageKind::Info => {},
                    AuthMessageKind::Error => {},
                    AuthMessageKind::Finished => {},
                    AuthMessageKind::InitializationResponse => {},
                    AuthMessageKind::ChallengeResponse => {},
                    AuthMessageKind::VerificationResponse => {},
                }
            }
        }
        Err(DecodeError::UnknownVariant)
    }
}

/// The wire tag of a verification kind.
pub open spec fn verification_kind_tag(k: VerificationKind) -> Seq<char> {
    match k {
        VerificationKind::Host => "host"@,
        VerificationKind::Unknown => "unknown"@,
    }
}

/// The wire tag of a verification kind.
pub fn verification_kind_wire_tag(k: VerificationKind) -> (r: &'static str)
    ensures
        r@ == verification_kind_tag(k),
{
    match k {
        VerificationKind::Host => "host",
        VerificationKind::Unknown => "unknown",
    }
}

/// The kind a received verification tag decodes to: every tag this peer does
/// not recognize falls back to `Unknown`; decoding never fails.
pub open spec fn decoded_verification_kind(tag: Seq<char>) -> VerificationKind {
    if tag == "host"@ {
        VerificationKind::Host
    } else {
        VerificationKind::Unknown
    }
}

/// Decodes a verification kind tag, total by construction.
pub fn decode_verification_kind(tag: &str) -> (k: VerificationKind)
    ensures
        k == decoded_verification_kind(tag@),
{
    if str_eq(tag, "host") {
        VerificationKind::Host
    } else {
        VerificationKind::Unknown
    }
}

/// The tag written when a decoded verification kind is encoded again: a
/// lossless peer repeats the tag it received; any other writes the canonical
/// tag of the decoded kind.
pub open spec fn reencoded_verification_tag(tag: Seq<char>, lossless: bool) -> Seq<char> {
    if lossless {
        tag
    } else {
        verification_kind_tag(decoded_verification_kind(tag))
    }
}

/// Encodes again the kind decoded from `tag`.
pub fn reencode_verification_tag(tag: &str, lossless: bool) -> (r: String)
    ensures
        r@ == reencoded_verification_tag(tag@, lossless),
{
    if lossless {
        tag.to_owned()
    } else {
        verification_kind_wire_tag(decode_verification_kind(tag)).to_owned()
    }
}

/// An unrecognized verification kind tag decodes to `Unknown` rather than
/// failing, and encoding it again gives back the received tag exactly when
/// the peer is lossless; otherwise the canonical `unknown` tag is written.
pub proof fn lemma_verification_kind_round_trip(tag: Seq<char>, lossless: bool)
    ensures
        tag != "host"@ ==> decoded_verification_kind(tag) == VerificationKind::Unknown,
        lossless ==> reencoded_verification_tag(tag, lossless) == tag,
        !lossless && tag != "host"@ ==> reencoded_verification_tag(tag, lossless) == "unknown"@,
        tag == "host"@ ==> reencoded_verification_tag(tag, false) == "host"@,
{
}

/// The wire tag of a change kind, in lower snake form.
pub open spec fn change_kind_tag(k: crate::data::ChangeKind) -> Seq<char> {
    match k {
        crate::data::ChangeKind::Create => "create"@,
        crate::data::ChangeKind::Remove => "remove"@,
        crate::data::ChangeKind::Access => "access"@,
        crate::data::ChangeKind::Modify => "modify"@,
        crate::data::ChangeKind::Rename => "rename"@,
        crate::data::ChangeKind::Other => "other"@,
    }
}

/// The wire tag of a change kind.
pub fn change_kind_wire_tag(k: crate::data::ChangeKind) -> (r: &'static str)
    ensures
        r@ == change_kind_tag(k),
{
    match k {
        crate::data::ChangeKind::Create => "create",
        crate::data::ChangeKind::Remove => "remove",
        crate::data::ChangeKind::Access => "access",
        crate::data::ChangeKind::Modify => "modify",
        crate::data::ChangeKind::Rename => "rename",
        crate::data::ChangeKind::Other => "other",
    }
}

/// The JSON object of one directory entry.
pub open spec fn dir_entry_json(e: DirEntry) -> Seq<u8> {
    ("{\"path\":").spec_bytes() + json_string_rep(e.path@) + (",\"file_type\":\"").spec_bytes()
        + encode_utf8(e.file_type.display_spec()) + ("\",\"depth\":").spec_bytes() + dec_rep(
        e.depth as nat,
    ) + ("}").spec_bytes()
}

/// The JSON object of one search match.
pub open spec fn search_match_json(m: SearchQueryMatch) -> Seq<u8> {
    match m {
        SearchQueryMatch::Path(p) => ("{\"type\":\"path\",\"path\":").spec_bytes()
            + json_string_rep(p.path@) + ("}").spec_bytes(),
        SearchQueryMatch::Contents(c) => ("{\"type\":\"contents\",\"path\":").spec_bytes()
            + json_string_rep(c.path@) + (",\"lines\":").spec_bytes() + json_string_rep(c.lines@)
            + (",\"line_number\":").spec_bytes() + dec_rep(c.line_number as nat) + (
        "}").spec_bytes()
    }
}

/// The JSON object of one capability.
pub open spec fn capability_json(c: Capability) -> Seq<u8> {
    ("{\"kind\":").spec_bytes() + json_string_rep(c.kind@) + (",\"description\":").spec_bytes()
        + json_string_rep(c.description@) + ("}").spec_bytes()
}

/// The optional canonicalized-path field of the metadata object.
pub open spec fn metadata_canon_json(m: Metadata) -> Seq<u8> {
    match m.canonicalized_path {
        Option::Some(p) => (",\"canonicalized_path\":").spec_bytes() + json_string_rep(p@),
        Option::None => Seq::empty(),
    }
}

/// An optional numeric field, written only when the value is present.
pub open spec fn opt_u64_json(label: Seq<char>, v: Option<u64>) -> Seq<u8> {
    match v {
        Option::Some(n) => encode_utf8(label) + dec_rep(n as nat),
        Option::None => Seq::empty(),
    }
}

/// The JSON object of the unix permission block.
pub open spec fn unix_json(u: UnixMetadata) -> Seq<u8> {
    ("{\"owner_read\":").spec_bytes() + bool_rep(u.owner_read) + (",\"owner_write\":").spec_bytes()
        + bool_rep(u.owner_write) + (",\"owner_exec\":").spec_bytes() + bool_rep(u.owner_exec) + (
    ",\"group_read\":").spec_bytes() + bool_rep(u.group_read) + (",\"group_write\":").spec_bytes()
        + bool_rep(u.group_write) + (",\"group_exec\":").spec_bytes() + bool_rep(u.group_exec) + (
    ",\"other_read\":").spec_bytes() + bool_rep(u.other_read) + (",\"other_write\":").spec_bytes()
        + bool_rep(u.other_write) + (",\"other_exec\":").spec_bytes() + bool_rep(u.other_exec) + (
    "}").spec_bytes()
}

/// The JSON object of the windows attribute block.
pub open spec fn windows_json(w: WindowsMetadata) -> Seq<u8> {
    ("{\"archive\":").spec_bytes() + bool_rep(w.archive) + (",\"compressed\":").spec_bytes()
        + bool_rep(w.compressed) + (",\"encrypted\":").spec_bytes() + bool_rep(w.encrypted) + (
    ",\"hidden\":").spec_bytes() + bool_rep(w.hidden) + (",\"integrity_stream\":").spec_bytes()
        + bool_rep(w.integrity_stream) + (",\"normal\":").spec_bytes() + bool_rep(w.normal) + (
    ",\"not_content_indexed\":").spec_bytes() + bool_rep(w.not_content_indexed) + (
    ",\"no_scrub_data\":").spec_bytes() + bool_rep(w.no_scrub_data) + (",\"offline\":").spec_bytes()
        + bool_rep(w.offline) + (",\"recall_on_data_access\":").spec_bytes() + bool_rep(
        w.recall_on_data_access,
    ) + (",\"recall_on_open\":").spec_bytes() + bool_rep(w.recall_on_open) + (
    ",\"reparse_point\":").spec_bytes() + bool_rep(w.reparse_point) + (
    ",\"sparse_file\":").spec_bytes() + bool_rep(w.sparse_file) + (",\"system\":").spec_bytes()
        + bool_rep(w.system) + (",\"temporary\":").spec_bytes() + bool_rep(w.temporary) + (
    "}").spec_bytes()
}

/// The optional unix field of the metadata object.
pub open spec fn metadata_unix_json(m: Metadata) -> Seq<u8> {
    match m.unix {
        Option::Some(u) => (",\"unix\":").spec_bytes() + unix_json(u),
        Option::None => Seq::empty(),
    }
}

/// The optional windows field of the metadata object.
pub open spec fn metadata_windows_json(m: Metadata) -> Seq<u8> {
    match m.windows {
        Option::Some(w) => (",\"windows\":").spec_bytes() + windows_json(w),
        Option::None => Seq::empty(),
    }
}

/// The optional exit-code field of a finished process.
pub open spec fn proc_code_json(code: Option<i32>) -> Seq<u8> {
    match code {
        Option::Some(c) => (",\"code\":").spec_bytes() + dec_rep_int(c as int),
        Option::None => Seq::empty(),
    }
}

/// The JSON object of one response payload.  The discriminant field `type`
/// selects the variant; field names use lower snake form.
pub open spec fn response_json(d: ResponseData) -> Seq<u8> {
    match d {
        ResponseData::Okay => ("{\"type\":\"ok\"}").spec_bytes(),
        ResponseData::Error { kind, description } => ("{\"type\":\"error\",\"kind\":\"").spec_bytes()
            + encode_utf8(kind.wire_tag_spec()) + ("\",\"description\":").spec_bytes()
            + json_string_rep(description@) + ("}").spec_bytes(),
        ResponseData::Blob { data } => ("{\"type\":\"blob\",\"data\":").spec_bytes()
            + json_u8_array_rep(data@) + ("}").spec_bytes(),
        ResponseData::Text { data } => ("{\"type\":\"text\",\"data\":").spec_bytes()
            + json_string_rep(data@) + ("}").spec_bytes(),
        ResponseData::DirEntries { entries, errors } => (
        "{\"type\":\"dir_entries\",\"entries\":[").spec_bytes() + joined(
            entries@.map_values(|e: DirEntry| dir_entry_json(e)),
            seq![0x2cu8],
        ) + ("],\"errors\":").spec_bytes() + json_string_array_rep(errors.deep_view()) + (
        "}").spec_bytes(),
        ResponseData::Changed(c) => ("{\"type\":\"changed\",\"kind\":\"").spec_bytes()
            + encode_utf8(change_kind_tag(c.kind)) + ("\",\"paths\":").spec_bytes()
            + json_string_array_rep(c.paths.deep_view()) + ("}").spec_bytes(),
        ResponseData::Exists { value } => ("{\"type\":\"exists\",\"value\":").spec_bytes()
            + bool_rep(value) + ("}").spec_bytes(),
        ResponseData::Metadata(m) => ("{\"type\":\"metadata\"").spec_bytes() + metadata_canon_json(
            m,
        ) + (",\"file_type\":\"").spec_bytes() + encode_utf8(m.file_type.display_spec()) + (
        "\",\"len\":").spec_bytes() + dec_rep(m.len as nat) + (",\"readonly\":").spec_bytes()
            + bool_rep(m.readonly) + opt_u64_json(",\"accessed\":"@, m.accessed) + opt_u64_json(
            ",\"created\":"@,
            m.created,
        ) + opt_u64_json(",\"modified\":"@, m.modified) + metadata_unix_json(m)
            + metadata_windows_json(m) + ("}").spec_bytes(),
        ResponseData::SearchStarted { id } => ("{\"type\":\"search_started\",\"id\":").spec_bytes()
            + dec_rep(id as nat) + ("}").spec_bytes(),
        ResponseData::SearchResults { id, matches } => (
        "{\"type\":\"search_results\",\"id\":").spec_bytes() + dec_rep(id as nat) + (
        ",\"matches\":[").spec_bytes() + joined(
            matches@.map_values(|m: SearchQueryMatch| search_match_json(m)),
            seq![0x2cu8],
        ) + ("]}").spec_bytes(),
        ResponseData::SearchDone { id } => ("{\"type\":\"search_done\",\"id\":").spec_bytes()
            + dec_rep(id as nat) + ("}").spec_bytes(),
        ResponseData::ProcSpawned { id } => ("{\"type\":\"proc_spawned\",\"id\":").spec_bytes()
            + dec_rep(id as nat) + ("}").spec_bytes(),
        ResponseData::ProcStdout { id, data } => ("{\"type\":\"proc_stdout\",\"id\":").spec_bytes()
            + dec_rep(id as nat) + (",\"data\":").spec_bytes() + json_u8_array_rep(data@) + (
        "}").spec_bytes(),
        ResponseData::ProcStderr { id, data } => ("{\"type\":\"proc_stderr\",\"id\":").spec_bytes()
            + dec_rep(id as nat) + (",\"data\":").spec_bytes() + json_u8_array_rep(data@) + (
        "}").spec_bytes(),
        ResponseData::ProcDone { id, success, code } => (
        "{\"type\":\"proc_done\",\"id\":").spec_bytes() + dec_rep(id as nat) + (
        ",\"success\":").spec_bytes() + bool_rep(success) + proc_code_json(code) + (
        "}").spec_bytes(),
        ResponseData::SystemInfo(si) => ("{\"type\":\"system_info\",\"family\":").spec_bytes()
            + json_string_rep(si.family@) + (",\"os\":").spec_bytes() + json_string_rep(si.os@) + (
        ",\"arch\":").spec_bytes() + json_string_rep(si.arch@) + (
        ",\"current_dir\":").spec_bytes() + json_string_rep(si.current_dir@) + (
        ",\"main_separator\":").spec_bytes() + json_string_rep(si.main_separator@) + (
        ",\"username\":").spec_bytes() + json_string_rep(si.username@) + (
        ",\"shell\":").spec_bytes() + json_string_rep(si.shell@) + ("}").spec_bytes(),
        ResponseData::Capabilities { supported } => (
        "{\"type\":\"capabilities\",\"supported\":[").spec_bytes() + joined(
            supported@.map_values(|c: Capability| capability_json(c)),
            seq![0x2cu8],
        ) + ("]}").spec_bytes(),
    }
}

/// The JSON of a payload that may be a batch: a single payload is its own
/// object; a batch is an array of them.
pub open spec fn msg_json(m: Msg<ResponseData>) -> Seq<u8> {
    match m {
        Msg::Single(d) => response_json(d),
        Msg::Batch(v) => seq![0x5bu8] + joined(
            v@.map_values(|d: ResponseData| response_json(d)),
            seq![0x2cu8],
        ) + seq![0x5du8],
    }
}

/// The optional origin field of an envelope.
pub open spec fn origin_json(o: Option<String>) -> Seq<u8> {
    match o {
        Option::Some(id) => (",\"origin_id\":").spec_bytes() + json_string_rep(id@),
        Option::None => Seq::empty(),
    }
}

/// The JSON of a whole response envelope.
pub open spec fn envelope_json(e: Envelope<Msg<ResponseData>>) -> Seq<u8> {
    ("{\"id\":").spec_bytes() + json_string_rep(e.id@) + origin_json(e.origin_id) + (
    ",\"payload\":").spec_bytes() + msg_json(e.payload) + ("}").spec_bytes()
}

/// Renders one directory entry as JSON.
fn render_dir_entry_json(e: &DirEntry) -> (v: Vec<u8>)
    ensures
        v@ == dir_entry_json(*e),
{
    let mut v: Vec<u8> = Vec::new();
    push_str_bytes(&mut v, "{\"path\":");
    proof {
        assert(v@ =~= ("{\"path\":").spec_bytes());
    }
    push_json_string(&mut v, e.path.as_str());
    push_str_bytes(&mut v, ",\"file_type\":\"");
    push_str_bytes(&mut v, e.file_type.display_str());
    push_str_bytes(&mut v, "\",\"depth\":");
    push_u64_dec(&mut v, e.depth);
    push_str_bytes(&mut v, "}");
    v
}

/// Renders one search match as JSON.
fn render_search_match_json(m: &SearchQueryMatch) -> (v: Vec<u8>)
    ensures
        v@ == search_match_json(*m),
{
    let mut v: Vec<u8> = Vec::new();
    match m {
        SearchQueryMatch::Path(p) => {
            push_str_bytes(&mut v, "{\"type\":\"path\",\"path\":");
            proof {
                assert(v@ =~= ("{\"type\":\"path\",\"path\":").spec_bytes());
            }
            push_json_string(&mut v, p.path.as_str());
            push_str_bytes(&mut v, "}");
        },
        SearchQueryMatch::Contents(c) => {
            push_str_bytes(&mut v, "{\"type\":\"contents\",\"path\":");
            proof {
                assert(v@ =~= ("{\"type\":\"contents\",\"path\":").spec_bytes());
            }
            push_json_string(&mut v, c.path.as_str());
            push_str_bytes(&mut v, ",\"lines\":");
            push_json_string(&mut v, c.lines.as_str());
            push_str_bytes(&mut v, ",\"line_number\":");
            push_u64_dec(&mut v, c.line_number);
            push_str_bytes(&mut v, "}");
        },
    }
    v
}

/// Renders one capability as JSON.
fn render_capability_json(c: &Capability) -> (v: Vec<u8>)
    ensures
        v@ == capability_json(*c),
{
    let mut v: Vec<u8> = Vec::new();
    push_str_bytes(&mut v, "{\"kind\":");
    proof {
        assert(v@ =~= ("{\"kind\":").spec_bytes());
    }
    push_json_string(&mut v, c.kind.as_str());
    push_str_bytes(&mut v, ",\"description\":");
    push_json_string(&mut v, c.description.as_str());
    push_str_bytes(&mut v, "}");
    v
}

/// Renders the unix permission block as JSON.
#[verifier::rlimit(30)]
fn render_unix_json(u: &UnixMetadata) -> (v: Vec<u8>)
    ensures
        v@ == unix_json(*u),
{
    let mut v: Vec<u8> = Vec::new();
    push_str_bytes(&mut v, "{\"owner_read\":");
    proof {
        assert(v@ =~= ("{\"owner_read\":").spec_bytes());
    }
    push_bool(&mut v, u.owner_read);
    push_str_bytes(&mut v, ",\"owner_write\":");
    push_bool(&mut v, u.owner_write);
    push_str_bytes(&mut v, ",\"owner_exec\":");
    push_bool(&mut v, u.owner_exec);
    push_str_bytes(&mut v, ",\"group_read\":");
    push_bool(&mut v, u.group_read);
    push_str_bytes(&mut v, ",\"group_write\":");
    push_bool(&mut v, u.group_write);
    push_str_bytes(&mut v, ",\"group_exec\":");
    push_bool(&mut v, u.group_exec);
    push_str_bytes(&mut v, ",\"other_read\":");
    push_bool(&mut v, u.other_read);
    push_str_bytes(&mut v, ",\"other_write\":");
    push_bool(&mut v, u.other_write);
    push_str_bytes(&mut v, ",\"other_exec\":");
    push_bool(&mut v, u.other_exec);
    push_str_bytes(&mut v, "}");
    v
}

/// Renders the windows attribute block as JSON.
#[verifier::rlimit(60)]
fn render_windows_json(w: &WindowsMetadata) -> (v: Vec<u8>)
    ensures
        v@ == windows_json(*w),
{
    let mut v: Vec<u8> = Vec::new();
    push_str_bytes(&mut v, "{\"archive\":");
    proof {
        assert(v@ =~= ("{\"archive\":").spec_bytes());
    }
    push_bool(&mut v, w.archive);
    push_str_bytes(&mut v, ",\"compressed\":");
    push_bool(&mut v, w.compressed);
    push_str_bytes(&mut v, ",\"encrypted\":");
    push_bool(&mut v, w.encrypted);
    push_str_bytes(&mut v, ",\"hidden\":");
    push_bool(&mut v, w.hidden);
    push_str_bytes(&mut v, ",\"integrity_stream\":");
    push_bool(&mut v, w.integrity_stream);
    push_str_bytes(&mut v, ",\"normal\":");
    push_bool(&mut v, w.normal);
    push_str_bytes(&mut v, ",\"not_content_indexed\":");
    push_bool(&mut v, w.not_content_indexed);
    push_str_bytes(&mut v, ",\"no_scrub_data\":");
    push_bool(&mut v, w.no_scrub_data);
    push_str_bytes(&mut v, ",\"offline\":");
    push_bool(&mut v, w.offline);
    push_str_bytes(&mut v, ",\"recall_on_data_access\":");
    push_bool(&mut v, w.recall_on_data_access);
    push_str_bytes(&mut v, ",\"recall_on_open\":");
    push_bool(&mut v, w.recall_on_open);
    push_str_bytes(&mut v, ",\"reparse_point\":");
    push_bool(&mut v, w.reparse_point);
    push_str_bytes(&mut v, ",\"sparse_file\":");
    push_bool(&mut v, w.sparse_file);
    push_str_bytes(&mut v, ",\"system\":");
    push_bool(&mut v, w.system);
    push_str_bytes(&mut v, ",\"temporary\":");
    push_bool(&mut v, w.temporary);
    push_str_bytes(&mut v, "}");
    v
}

/// Appends an optional numeric field.
fn push_opt_u64_json(v: &mut Vec<u8>, label: &str, value: &Option<u64>)
    ensures
        final(v)@ == old(v)@ + opt_u64_json(label@, *value),
{
    match value {
        Option::Some(n) => {
            push_str_bytes(v, label);
            push_u64_dec(v, *n);
            proof {
                assert(v@ =~= old(v)@ + opt_u64_json(label@, *value));
            }
        },
        Option::None => {
            proof {
                assert(v@ =~= old(v)@ + opt_u64_json(label@, *value));
            }
        },
    }
}

/// Renders the metadata object as JSON.
#[verifier::rlimit(60)]
fn render_metadata_json(m: &Metadata) -> (v: Vec<u8>)
    ensures
        v@ == response_json(ResponseData::Metadata(*m)),
{
    let mut v: Vec<u8> = Vec::new();
    push_str_bytes(&mut v, "{\"type\":\"metadata\"");
    proof {
        assert(v@ =~= ("{\"type\":\"metadata\"").spec_bytes());
    }
    let ghost base = v@;
    match &m.canonicalized_path {
        Option::Some(p) => {
            push_str_bytes(&mut v, ",\"canonicalized_path\":");
            push_json_string(&mut v, p.as_str());
        },
        Option::None => {},
    }
    proof {
        assert(v@ =~= base + metadata_canon_json(*m));
    }
    push_str_bytes(&mut v, ",\"file_type\":\"");
    push_str_bytes(&mut v, m.file_type.display_str());
    push_str_bytes(&mut v, "\",\"len\":");
    push_u64_dec(&mut v, m.len);
    push_str_bytes(&mut v, ",\"readonly\":");
    push_bool(&mut v, m.readonly);
    push_opt_u64_json(&mut v, ",\"accessed\":", &m.accessed);
    push_opt_u64_json(&mut v, ",\"created\":", &m.created);
    push_opt_u64_json(&mut v, ",\"modified\":", &m.modified);
    let ghost with_times = v@;
    match &m.unix {
        Option::Some(u) => {
            push_str_bytes(&mut v, ",\"unix\":");
            let mut b = render_unix_json(u);
            v.append(&mut b);
        },
        Option::None => {},
    }
    proof {
        assert(v@ =~= with_times + metadata_unix_json(*m));
    }
    let ghost with_unix = v@;
    match &m.windows {
        Option::Some(w) => {
            push_str_bytes(&mut v, ",\"windows\":");
            let mut b = render_windows_json(w);
            v.append(&mut b);
        },
        Option::None => {},
    }
    proof {
        assert(v@ =~= with_unix + metadata_windows_json(*m));
    }
    push_str_bytes(&mut v, "}");
    proof {
        assert(v@ =~= response_json(ResponseData::Metadata(*m)));
    }
    v
}

/// Renders one response payload as JSON.
#[verifier::rlimit(60)]
pub fn render_response_json(d: &ResponseData) -> (v: Vec<u8>)
    ensures
        v@ == response_json(*d),
{
    match d {
        ResponseData::Okay => {
            let mut v: Vec<u8> = Vec::new();
            push_str_bytes(&mut v, "{\"type\":\"ok\"}");
            proof {
                assert(v@ =~= response_json(*d));
            }
            v
        },
        ResponseData::Error { kind, description } => {
            let mut v: Vec<u8> = Vec::new();
            push_str_bytes(&mut v, "{\"type\":\"error\",\"kind\":\"");
            proof {
                assert(v@ =~= ("{\"type\":\"error\",\"kind\":\"").spec_bytes());
            }
            push_str_bytes(&mut v, kind.wire_tag());
            push_str_bytes(&mut v, "\",\"description\":");
            push_json_string(&mut v, description.as_str());
            push_str_bytes(&mut v, "}");
            v
        },
        ResponseData::Blob { data } => {
            let mut v: Vec<u8> = Vec::new();
            push_str_bytes(&mut v, "{\"type\":\"blob\",\"data\":");
            proof {
                assert(v@ =~= ("{\"type\":\"blob\",\"data\":").spec_bytes());
            }
            push_json_u8_array(&mut v, data);
            push_str_bytes(&mut v, "}");
            v
        },
        ResponseData::Text { data } => {
            let mut v: Vec<u8> = Vec::new();
            push_str_bytes(&mut v, "{\"type\":\"text\",\"data\":");
            proof {
                assert(v@ =~= ("{\"type\":\"text\",\"data\":").spec_bytes());
            }
            push_json_string(&mut v, data.as_str());
            push_str_bytes(&mut v, "}");
            v
        },
        ResponseData::DirEntries { entries, errors } => {
            let mut v: Vec<u8> = Vec::new();
            push_str_bytes(&mut v, "{\"type\":\"dir_entries\",\"entries\":[");
            proof {
                assert(v@ =~= ("{\"type\":\"dir_entries\",\"entries\":[").spec_bytes());
            }
            let ghost head = v@;
            let ghost reps = entries@.map_values(|e: DirEntry| dir_entry_json(e));
            let n: usize = entries.len();
            let mut i: usize = 0;
            while i < n
                invariant
                    n == entries@.len(),
                    i <= n,
                    reps == entries@.map_values(|e: DirEntry| dir_entry_json(e)),
                    v@ == head + joined(reps.take(i as int), seq![0x2cu8]),
                decreases n - i,
            {
                if i > 0 {
                    v.push(0x2c);
                }
                let mut b = render_dir_entry_json(&entries[i]);
                v.append(&mut b);
                proof {
                    assert(reps.take(i + 1) =~= reps.take(i as int).push(reps[i as int]));
                    lemma_joined_push(reps.take(i as int), seq![0x2cu8], reps[i as int]);
                    assert(v@ =~= head + joined(reps.take(i + 1), seq![0x2cu8]));
                }
                i = i + 1;
            }
            proof {
                assert(reps.take(n as int) =~= reps);
            }
            push_str_bytes(&mut v, "],\"errors\":");
            push_json_string_array(&mut v, errors);
            push_str_bytes(&mut v, "}");
            v
        },
        ResponseData::Changed(c) => {
            let mut v: Vec<u8> = Vec::new();
            push_str_bytes(&mut v, "{\"type\":\"changed\",\"kind\":\"");
            proof {
                assert(v@ =~= ("{\"type\":\"changed\",\"kind\":\"").spec_bytes());
            }
            push_str_bytes(&mut v, change_kind_wire_tag(c.kind));
            push_str_bytes(&mut v, "\",\"paths\":");
            push_json_string_array(&mut v, &c.paths);
            push_str_bytes(&mut v, "}");
            v
        },
        ResponseData::Exists { value } => {
            let mut v: Vec<u8> = Vec::new();
            push_str_bytes(&mut v, "{\"type\":\"exists\",\"value\":");
            proof {
                assert(v@ =~= ("{\"type\":\"exists\",\"value\":").spec_bytes());
            }
            push_bool(&mut v, *value);
            push_str_bytes(&mut v, "}");
            v
        },
        ResponseData::Metadata(m) => render_metadata_json(m),
        ResponseData::SearchStarted { id } => {
            let mut v: Vec<u8> = Vec::new();
            push_str_bytes(&mut v, "{\"type\":\"search_started\",\"id\":");
            proof {
                assert(v@ =~= ("{\"type\":\"search_started\",\"id\":").spec_bytes());
            }
            push_u64_dec(&mut v, *id);
            push_str_bytes(&mut v, "}");
            v
        },
        ResponseData::SearchResults { id, matches } => {
            let mut v: Vec<u8> = Vec::new();
            push_str_bytes(&mut v, "{\"type\":\"search_results\",\"id\":");
            proof {
                assert(v@ =~= ("{\"type\":\"search_results\",\"id\":").spec_bytes());
            }
            push_u64_dec(&mut v, *id);
            push_str_bytes(&mut v, ",\"matches\":[");
            let ghost head = v@;
            let ghost reps = matches@.map_values(|m: SearchQueryMatch| search_match_json(m));
            let n: usize = matches.len();
            let mut i: usize = 0;
            while i < n
                invariant
                    n == matches@.len(),
                    i <= n,
                    reps == matches@.map_values(|m: SearchQueryMatch| search_match_json(m)),
                    v@ == head + joined(reps.take(i as int), seq![0x2cu8]),
                decreases n - i,
            {
                if i > 0 {
                    v.push(0x2c);
                }
                let mut b = render_search_match_json(&matches[i]);
                v.append(&mut b);
                proof {
                    assert(reps.take(i + 1) =~= reps.take(i as int).push(reps[i as int]));
                    lemma_joined_push(reps.take(i as int), seq![0x2cu8], reps[i as int]);
                    assert(v@ =~= head + joined(reps.take(i + 1), seq![0x2cu8]));
                }
                i = i + 1;
            }
            proof {
                assert(reps.take(n as int) =~= reps);
            }
            push_str_bytes(&mut v, "]}");
            v
        },
        ResponseData::SearchDone { id } => {
            let mut v: Vec<u8> = Vec::new();
            push_str_bytes(&mut v, "{\"type\":\"search_done\",\"id\":");
            proof {
                assert(v@ =~= ("{\"type\":\"search_done\",\"id\":").spec_bytes());
            }
            push_u64_dec(&mut v, *id);
            push_str_bytes(&mut v, "}");
            v
        },
        ResponseData::ProcSpawned { id } => {
            let mut v: Vec<u8> = Vec::new();
            push_str_bytes(&mut v, "{\"type\":\"proc_spawned\",\"id\":");
            proof {
                assert(v@ =~= ("{\"type\":\"proc_spawned\",\"id\":").spec_bytes());
            }
            push_u64_dec(&mut v, *id);
            push_str_bytes(&mut v, "}");
            v
        },
        ResponseData::ProcStdout { id, data } => {
            let mut v: Vec<u8> = Vec::new();
            push_str_bytes(&mut v, "{\"type\":\"proc_stdout\",\"id\":");
            proof {
                assert(v@ =~= ("{\"type\":\"proc_stdout\",\"id\":").spec_bytes());
            }
            push_u64_dec(&mut v, *id);
            push_str_bytes(&mut v, ",\"data\":");
            push_json_u8_array(&mut v, data);
            push_str_bytes(&mut v, "}");
            v
        },
        ResponseData::ProcStderr { id, data } => {
            let mut v: Vec<u8> = Vec::new();
            push_str_bytes(&mut v, "{\"type\":\"proc_stderr\",\"id\":");
            proof {
                assert(v@ =~= ("{\"type\":\"proc_stderr\",\"id\":").spec_bytes());
            }
            push_u64_dec(&mut v, *id);
            push_str_bytes(&mut v, ",\"data\":");
            push_json_u8_array(&mut v, data);
            push_str_bytes(&mut v, "}");
            v
        },
        ResponseData::ProcDone { id, success, code } => {
            let mut v: Vec<u8> = Vec::new();
            push_str_bytes(&mut v, "{\"type\":\"proc_done\",\"id\":");
            proof {
                assert(v@ =~= ("{\"type\":\"proc_done\",\"id\":").spec_bytes());
            }
            push_u64_dec(&mut v, *id);
            push_str_bytes(&mut v, ",\"success\":");
            push_bool(&mut v, *success);
            let ghost before_code = v@;
            match code {
                Option::Some(c) => {
                    push_str_bytes(&mut v, ",\"code\":");
                    push_i32_dec(&mut v, *c);
                },
                Option::None => {},
            }
            proof {
                assert(v@ =~= before_code + proc_code_json(*code));
            }
            push_str_bytes(&mut v, "}");
            v
        },
        ResponseData::SystemInfo(si) => {
            let mut v: Vec<u8> = Vec::new();
            push_str_bytes(&mut v, "{\"type\":\"system_info\",\"family\":");
            proof {
                assert(v@ =~= ("{\"type\":\"system_info\",\"family\":").spec_bytes());
            }
            push_json_string(&mut v, si.family.as_str());
            push_str_bytes(&mut v, ",\"os\":");
            push_json_string(&mut v, si.os.as_str());
            push_str_bytes(&mut v, ",\"arch\":");
            push_json_string(&mut v, si.arch.as_str());
            push_str_bytes(&mut v, ",\"current_dir\":");
            push_json_string(&mut v, si.current_dir.as_str());
            push_str_bytes(&mut v, ",\"main_separator\":");
            push_json_string(&mut v, si.main_separator.as_str());
            push_str_bytes(&mut v, ",\"username\":");
            push_json_string(&mut v, si.username.as_str());
            push_str_bytes(&mut v, ",\"shell\":");
            push_json_string(&mut v, si.shell.as_str());
            push_str_bytes(&mut v, "}");
            v
        },
        ResponseData::Capabilities { supported } => {
            let mut v: Vec<u8> = Vec::new();
            push_str_bytes(&mut v, "{\"type\":\"capabilities\",\"supported\":[");
            proof {
                assert(v@ =~= ("{\"type\":\"capabilities\",\"supported\":[").spec_bytes());
            }
            let ghost head = v@;
            let ghost reps = supported@.map_values(|c: Capability| capability_json(c));
            let n: usize = supported.len();
            let mut i: usize = 0;
            while i < n
                invariant
                    n == supported@.len(),
                    i <= n,
                    reps == supported@.map_values(|c: Capability| capability_json(c)),
                    v@ == head + joined(reps.take(i as int), seq![0x2cu8]),
                decreases n - i,
            {
                if i > 0 {
                    v.push(0x2c);
                }
                let mut b = render_capability_json(&supported[i]);
                v.append(&mut b);
                proof {
                    assert(reps.take(i + 1) =~= reps.take(i as int).push(reps[i as int]));
                    lemma_joined_push(reps.take(i as int), seq![0x2cu8], reps[i as int]);
                    assert(v@ =~= head + joined(reps.take(i + 1), seq![0x2cu8]));
                }
                i = i + 1;
            }
            proof {
                assert(reps.take(n as int) =~= reps);
            }
            push_str_bytes(&mut v, "]}");
            v
        },
    }
}

/// Renders a single-or-batch payload as JSON.
pub fn render_msg_json(m: &Msg<ResponseData>) -> (v: Vec<u8>)
    ensures
        v@ == msg_json(*m),
{
    match m {
        Msg::Single(d) => render_response_json(d),
        Msg::Batch(items) => {
            let mut v: Vec<u8> = Vec::new();
            v.push(0x5b);
            proof {
                assert(v@ =~= seq![0x5bu8]);
            }
            let ghost head = v@;
            let ghost reps = items@.map_values(|d: ResponseData| response_json(d));
            let n: usize = items.len();
            let mut i: usize = 0;
            while i < n
                invariant
                    n == items@.len(),
                    i <= n,
                    reps == items@.map_values(|d: ResponseData| response_json(d)),
                    v@ == head + joined(reps.take(i as int), seq![0x2cu8]),
                decreases n - i,
            {
                if i > 0 {
                    v.push(0x2c);
                }
                let mut b = render_response_json(&items[i]);
                v.append(&mut b);
                proof {
                    assert(reps.take(i + 1) =~= reps.take(i as int).push(reps[i as int]));
                    lemma_joined_push(reps.take(i as int), seq![0x2cu8], reps[i as int]);
                    assert(v@ =~= head + joined(reps.take(i + 1), seq![0x2cu8]));
                }
                i = i + 1;
            }
            proof {
                assert(reps.take(n as int) =~= reps);
            }
            v.push(0x5d);
            proof {
                assert(v@ =~= msg_json(*m));
            }
            v
        },
    }
}

/// Renders a whole response envelope as JSON, one object per envelope.
pub fn render_envelope_json(e: &Envelope<Msg<ResponseData>>) -> (v: Vec<u8>)
    ensures
        v@ == envelope_json(*e),
{
    let mut v: Vec<u8> = Vec::new();
    push_str_bytes(&mut v, "{\"id\":");
    proof {
        assert(v@ =~= ("{\"id\":").spec_bytes());
    }
    push_json_string(&mut v, e.id.as_str());
    let ghost with_id = v@;
    match &e.origin_id {
        Option::Some(o) => {
            push_str_bytes(&mut v, ",\"origin_id\":");
            push_json_string(&mut v, o.as_str());
        },
        Option::None => {},
    }
    proof {
        assert(v@ =~= with_id + origin_json(e.origin_id));
    }
    push_str_bytes(&mut v, ",\"payload\":");
    let mut b = render_msg_json(&e.payload);
    v.append(&mut b);
    push_str_bytes(&mut v, "}");
    proof {
        assert(v@ =~= envelope_json(*e));
    }
    v
}

} // verus!
