//! UUIDs as 128-bit integers, and the calls into the `uuid` crate.

use vstd::prelude::*;

verus! {

/// A UUID, held as the big-endian integer value of its 16 bytes.
#[derive(Debug, Clone, Copy, PartialEq, Eq, Structural, Hash)]
pub struct Uuid(pub u128);

/// The integer that a big-endian byte string denotes.
pub open spec fn be_bytes_value(b: Seq<u8>) -> nat
    decreases b.len(),
{
    if b.len() == 0 {
        0
    } else {
        be_bytes_value(b.drop_last()) * 256 + b.last() as nat
    }
}

/// What `uuid::Uuid::parse_str` gives for a text: the UUID, or `None` when the
/// text is none of the accepted forms (simple, hyphenated, braced, URN).
pub uninterp spec fn uuid_text_parsed(s: Seq<char>) -> Option<Uuid>;

/// Parses the textual forms of a UUID.
///
/// Trusted: calls `uuid::Uuid::parse_str`; the contract only names its
/// result (`uuid_text_parsed`), which depends on the text alone.
#[verifier::external_body]
pub(crate) fn uuid_parse_str(s: &str) -> (r: Option<Uuid>)
    ensures
        r == uuid_text_parsed(s@),
{
    match ::uuid::Uuid::parse_str(s) {
        Ok(u) => Some(Uuid(u.as_u128())),
        Err(_) => None,
    }
}

/// Builds a UUID from exactly 16 bytes.
///
/// Trusted: calls `uuid::Uuid::from_slice`, which (in its source) fails
/// unless the slice holds 16 bytes and otherwise takes them in order as the
/// UUID's bytes; `as_u128` reads them big-endian.
#[verifier::external_body]
pub(crate) fn uuid_from_slice(b: &[u8]) -> (r: Option<Uuid>)
    ensures
        b@.len() == 16 ==> r == Some(Uuid(be_bytes_value(b@) as u128)),
        b@.len() != 16 ==> r is None,
{
    match ::uuid::Uuid::from_slice(b) {
        Ok(u) => Some(Uuid(u.as_u128())),
        Err(_) => None,
    }
}

/// What `data_encoding::BASE64URL_NOPAD.decode` gives for the bytes of a
/// text: the decoded bytes, or `None` when the text is not URL-safe base64
/// without padding.
pub uninterp spec fn base64url_nopad_decoded(s: Seq<char>) -> Option<Seq<u8>>;

/// Decodes URL-safe base64 without padding.
///
/// Trusted: calls `data_encoding::BASE64URL_NOPAD.decode` on the text's
/// bytes; the contract only names its result (`base64url_nopad_decoded`),
/// which depends on the text alone.
#[verifier::external_body]
pub(crate) fn decode_base64url_nopad(s: &str) -> (r: Option<Vec<u8>>)
    ensures
        match base64url_nopad_decoded(s@) {
            Some(b) => r matches Some(v) && v@ == b,
            None => r is None,
        },
{
    data_encoding::BASE64URL_NOPAD.decode(s.as_bytes()).ok()
}

/// What `data_encoding::BASE64URL_NOPAD.encode` gives for the 16 bytes of
/// the UUID with value `u`, most significant first.
pub uninterp spec fn uuid_base64url_text(u: u128) -> Seq<char>;

/// Encodes the 16 big-endian bytes of a UUID in URL-safe base64 without
/// padding.
///
/// Trusted: calls `data_encoding::BASE64URL_NOPAD.encode` on
/// `u128::to_be_bytes`. The contract names the text (`uuid_base64url_text`)
/// and states what data-encoding documents of its encodings ("encoding
/// followed by decoding gives the initial data"): decoding the text gives
/// back the 16 bytes, whose big-endian value is the UUID's.
#[verifier::external_body]
pub(crate) fn encode_base64url_nopad_uuid(u: Uuid) -> (r: String)
    ensures
        r@ == uuid_base64url_text(u.0),
        base64url_nopad_decoded(r@) is Some,
        base64url_nopad_decoded(r@)->0.len() == 16,
        be_bytes_value(base64url_nopad_decoded(r@)->0) == u.0,
{
    data_encoding::BASE64URL_NOPAD.encode(&u.0.to_be_bytes())
}

} // verus!
