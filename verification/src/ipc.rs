//! The synchronization protocol between the controller and its forked
//! child: length-prefixed messages.  A message is framed as a 4-byte
//! big-endian length followed by the payload; the channel between parent
//! and child carries JSON-encoded strings, the named rendezvous socket
//! carries raw words.  Moving the bytes over a socket is the embedding
//! program's part; this module builds and checks the bytes.

use vstd::prelude::*;
use vstd::string::StringExecFns;
use vstd::string::StringSliceAdditionalSpecFns;

verus! {

/// The four big-endian bytes of a 32-bit length.
pub open spec fn spec_be32(n: u32) -> Seq<u8> {
    seq![(n >> 24) as u8, (n >> 16) as u8, (n >> 8) as u8, n as u8]
}

/// The 32-bit value held by four big-endian bytes.
pub open spec fn spec_be32_val(b0: u8, b1: u8, b2: u8, b3: u8) -> u32 {
    (b3 as u32) | (b2 as u32) << 8 | (b1 as u32) << 16 | (b0 as u32) << 24
}

/// A framed message: the payload's length, big-endian, then the payload.
pub open spec fn frame_spec(payload: Seq<u8>) -> Seq<u8> {
    spec_be32(payload.len() as u32) + payload
}

/// The payload of a framed message, if the bytes are exactly one frame.
pub open spec fn parse_frame(buf: Seq<u8>) -> Option<Seq<u8>> {
    if buf.len() >= 4 && buf.len() - 4 == spec_be32_val(buf[0], buf[1], buf[2], buf[3]) as int {
        Some(buf.skip(4))
    } else {
        None
    }
}

/// Store a 32-bit value into the first four bytes of the buffer,
/// big-endian; the rest of the buffer keeps its bytes.
pub fn put_uint32(dst: &mut Vec<u8>, n: u32)
    requires
        old(dst).len() >= 4,
    ensures
        final(dst)@ == spec_be32(n) + old(dst)@.skip(4),
{
    proof {
        assert((n >> 24) < 256 && (n >> 16) < 65536 && (n >> 8) < 16777216) by (bit_vector);
    }
    dst[0] = (n >> 24) as u8;
    dst[1] = #[verifier::truncate] ((n >> 16) as u8);
    dst[2] = #[verifier::truncate] ((n >> 8) as u8);
    dst[3] = #[verifier::truncate] (n as u8);
    proof {
        assert(dst@ =~= spec_be32(n) + old(dst)@.skip(4));
    }
}

/// Read the 32-bit value held big-endian in the first four bytes.
pub fn read_u32(src: &[u8]) -> (n: u32)
    requires
        src@.len() >= 4,
    ensures
        n == spec_be32_val(src@[0], src@[1], src@[2], src@[3]),
{
    src[3] as u32 | (src[2] as u32) << 8 | (src[1] as u32) << 16 | (src[0] as u32) << 24
}

/// Reading back the four bytes that a value was stored as gives the value.
pub proof fn lemma_be32_roundtrip(n: u32)
    ensures
        spec_be32_val(
            (n >> 24) as u8,
            (n >> 16) as u8,
            (n >> 8) as u8,
            n as u8,
        ) == n,
{
    assert(((n as u8) as u32 | (((n >> 8) as u8) as u32) << 8 | (((n >> 16) as u8) as u32) << 16
        | (((n >> 24) as u8) as u32) << 24) == n) by (bit_vector);
}

/// Parsing a framed payload gives the payload back.
pub proof fn lemma_frame_roundtrip(payload: Seq<u8>)
    requires
        payload.len() <= u32::MAX,
    ensures
        parse_frame(frame_spec(payload)) == Some(payload),
{
    let buf = frame_spec(payload);
    let n = payload.len() as u32;
    lemma_be32_roundtrip(n);
    assert(buf[0] == (n >> 24) as u8 && buf[1] == (n >> 16) as u8 && buf[2] == (n >> 8) as u8
        && buf[3] == n as u8);
    assert(buf.skip(4) =~= payload);
}

/// Frame a payload: its length as four big-endian bytes, then its bytes.
pub fn encode_frame(payload: &[u8]) -> (r: Vec<u8>)
    requires
        payload@.len() <= u32::MAX,
    ensures
        r@ == frame_spec(payload@),
{
    let mut buf: Vec<u8> = vec![0u8, 0u8, 0u8, 0u8];
    put_uint32(&mut buf, payload.len() as u32);
    buf.extend_from_slice(payload);
    proof {
        assert(buf@ =~= frame_spec(payload@));
    }
    buf
}

/// Extract the payload of a buffer holding exactly one framed message.
pub fn decode_frame(buf: &[u8]) -> (r: Option<Vec<u8>>)
    ensures
        r matches Some(p) ==> parse_frame(buf@) == Some(p@),
        r is None ==> parse_frame(buf@) is None,
{
    if buf.len() < 4 {
        return None;
    }
    let size = read_u32(buf);
    if buf.len() - 4 != size as usize {
        return None;
    }
    let payload = vstd::slice::slice_to_vec(vstd::slice::slice_subrange(buf, 4, buf.len()));
    Some(payload)
}

/// The JSON text of a string value.  It depends on the characters alone;
/// its exact shape (quoting, escapes) is left to the encoder.
pub uninterp spec fn json_string_bytes(s: Seq<char>) -> Seq<u8>;

/// Relies on serde_json::Error being a plain (opaque) error type; the
/// declaration lets results carry it.
#[verifier::external_type_specification]
#[verifier::external_body]
pub struct ExSerdeJsonError(serde_json::Error);

/// Relies on serde_json::to_vec: the JSON text of a string depends on its
/// characters alone, and serializing a string into a byte vector cannot
/// fail (the only error sources are unserializable map keys and writer
/// failures, and a byte vector never fails to take bytes).
#[verifier::external_body]
fn json_encode_string(s: &String) -> (r: Vec<u8>)
    ensures
        r@ == json_string_bytes(s@),
{
    serde_json::to_vec(s).unwrap()
}

/// Relies on serde_json::from_slice: deserializing the JSON text that a
/// string was serialized to gives that string back.
#[verifier::external_body]
fn json_decode_string(b: &[u8]) -> (r: Result<String, serde_json::Error>)
    ensures
        r matches Ok(x) ==> forall|s: Seq<char>| b@ == json_string_bytes(s) ==> x@ == s,
        r is Err ==> forall|s: Seq<char>| b@ != json_string_bytes(s),
{
    serde_json::from_slice::<String>(b)
}

/// What went wrong while taking a message apart.
#[derive(Debug, PartialEq, Eq, Structural)]
pub enum IpcError {
    /// The bytes are not exactly one frame: short, or the length prefix
    /// disagrees with the payload.
    BadFrame,
    /// The frame's payload is not the JSON text of a string.
    BadPayload,
}

/// Build the bytes that send a string message over the channel: the
/// string's JSON text, framed.  `None` when the JSON text would not fit a
/// 32-bit length prefix.
pub fn write_message(msg: &String) -> (r: Option<Vec<u8>>)
    ensures
        r is Some <==> json_string_bytes(msg@).len() <= u32::MAX,
        r matches Some(b) ==> b@ == frame_spec(json_string_bytes(msg@)),
{
    let payload = json_encode_string(msg);
    if payload.len() > u32::MAX as usize {
        return None;
    }
    Some(encode_frame(payload.as_slice()))
}

/// Recover the string message held by one frame of channel bytes.
pub fn read_message(buf: &[u8]) -> (r: Result<String, IpcError>)
    ensures
        forall|s: Seq<char>|
            (json_string_bytes(s).len() <= u32::MAX && buf@ == frame_spec(json_string_bytes(s)))
                ==> (r matches Ok(m) && m@ == s),
        r == Err::<String, IpcError>(IpcError::BadFrame) <==> parse_frame(buf@) is None,
{
    let payload = match decode_frame(buf) {
        Some(p) => p,
        None => {
            proof {
                assert forall|s: Seq<char>|
                    !(json_string_bytes(s).len() <= u32::MAX && buf@ == frame_spec(
                        json_string_bytes(s),
                    )) by {
                    if json_string_bytes(s).len() <= u32::MAX && buf@ == frame_spec(
                        json_string_bytes(s),
                    ) {
                        lemma_frame_roundtrip(json_string_bytes(s));
                    }
                }
            }
            return Err(IpcError::BadFrame);
        },
    };
    proof {
        assert forall|s: Seq<char>|
            (json_string_bytes(s).len() <= u32::MAX && buf@ == frame_spec(
                json_string_bytes(s),
            )) implies payload@ == json_string_bytes(s) by {
            lemma_frame_roundtrip(json_string_bytes(s));
        }
    }
    match json_decode_string(payload.as_slice()) {
        Ok(m) => Ok(m),
        Err(_) => Err(IpcError::BadPayload),
    }
}

/// The word a child sends once its namespaces and root are in place.
pub open spec fn spec_ready() -> Seq<char> {
    "ready"@
}

/// The word that releases a created container into its payload.
pub open spec fn spec_start() -> Seq<char> {
    "start"@
}

/// The readiness word as a string.
pub fn ready_word() -> (r: String)
    ensures
        r@ == spec_ready(),
{
    String::from_str("ready")
}

/// Whether a channel message is the readiness word, and nothing else.
pub fn check_ready(msg: &String) -> (r: bool)
    ensures
        r == (msg@ == spec_ready()),
{
    crate::strutil::str_eq(msg.as_str(), "ready")
}

/// Build the bytes that signal a control word on the rendezvous socket:
/// the word's UTF-8 bytes, framed.  `None` when the word would not fit a
/// 32-bit length prefix.
pub fn notify_message(word: &str) -> (r: Option<Vec<u8>>)
    ensures
        r is Some <==> word.spec_bytes().len() <= u32::MAX,
        r matches Some(b) ==> b@ == frame_spec(word.spec_bytes()),
{
    let payload = word.as_bytes();
    if payload.len() > u32::MAX as usize {
        return None;
    }
    Some(encode_frame(payload))
}

/// Whether a rendezvous payload is exactly the expected control word.
pub fn accept_signal(payload: &Vec<u8>, expected: &str) -> (r: bool)
    ensures
        r == (payload@ == expected.spec_bytes()),
{
    crate::strutil::bytes_eq(payload.as_slice(), expected.as_bytes())
}

/// Round trip of the rendezvous protocol: a framed control word parses
/// back to its own bytes, and those bytes pass the check against an
/// expected word exactly when the words are equal.
pub proof fn lemma_rendezvous_roundtrip(word: Seq<char>, expected: Seq<char>)
    requires
        vstd::utf8::encode_utf8(word).len() <= u32::MAX,
    ensures
        parse_frame(frame_spec(vstd::utf8::encode_utf8(word))) == Some(
            vstd::utf8::encode_utf8(word),
        ),
        (vstd::utf8::encode_utf8(word) == vstd::utf8::encode_utf8(expected)) <==> word
            == expected,
{
    lemma_frame_roundtrip(vstd::utf8::encode_utf8(word));
    if vstd::utf8::encode_utf8(word) == vstd::utf8::encode_utf8(expected) {
        vstd::utf8::encode_utf8_decode_utf8(word);
        vstd::utf8::encode_utf8_decode_utf8(expected);
    }
}

/// Round trip of the channel protocol: a framed JSON string message
/// parses back to exactly the JSON bytes it was built from.
pub proof fn lemma_message_roundtrip(msg: Seq<char>)
    requires
        json_string_bytes(msg).len() <= u32::MAX,
    ensures
        parse_frame(frame_spec(json_string_bytes(msg))) == Some(json_string_bytes(msg)),
{
    lemma_frame_roundtrip(json_string_bytes(msg));
}

} // verus!
