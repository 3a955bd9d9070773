//! Base64 text, named but not modelled: byte strings travel through the
//! interchange layer as standard base64.

use vstd::prelude::*;

verus! {

use base64::Engine;
use vstd::utf8::is_ascii_chars;

/// The standard base64 text of the given bytes. A function of its argument
/// alone; its value is not restated here.
pub uninterp spec fn base64_of(b: Seq<u8>) -> Seq<char>;

/// What the standard base64 decoder makes of text: the bytes it denotes,
/// if it is valid base64.
pub uninterp spec fn base64_decode_of(s: Seq<char>) -> Option<Seq<u8>>;

/// Relies on the `base64` crate's standard engine: encoding is a
/// deterministic function of the bytes, empty bytes give empty text and
/// only they do, the text is ASCII, and the same engine's decoder reads
/// the text back to the original bytes.
#[verifier::external_body]
pub(crate) fn base64_encode(b: &[u8]) -> (r: String)
    ensures
        r@ == base64_of(b@),
        base64_decode_of(r@) == Some(b@),
        is_ascii_chars(r@),
        (b@.len() == 0) <==> (r@.len() == 0),
{
    base64::engine::general_purpose::STANDARD.encode(b)
}

/// Relies on the `base64` crate's standard engine: decoding is a
/// deterministic function of the text.
#[verifier::external_body]
pub(crate) fn base64_decode(s: &str) -> (r: Option<Vec<u8>>)
    ensures
        r is Some <==> base64_decode_of(s@) is Some,
        r is Some ==> r->0@ == base64_decode_of(s@)->0,
{
    base64::engine::general_purpose::STANDARD.decode(s).ok()
}

} // verus!
