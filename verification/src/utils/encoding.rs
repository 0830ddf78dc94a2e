//! Base64, as the `base64` crate's standard engine encodes it.
use vstd::prelude::*;
use base64::Engine;

verus! {

/// The standard base64 encoding, with padding, of a sequence of bytes.
pub uninterp spec fn base64_standard(input: Seq<u8>) -> Seq<char>;

/// The longest input that is handed to the encoder. The encoder computes the
/// length of its output, four characters for every three bytes, in a
/// `usize`, and does not return where that overflows.
pub const BASE64_MAX_INPUT: usize = 0x4000_0000;

/// `base64::engine::general_purpose::STANDARD.encode`. Taken on trust: the
/// result is the padded standard encoding of the input, which depends on the
/// input alone.
#[verifier::external_body]
pub(crate) fn base64_encode(input: &[u8]) -> (r: String)
    requires
        input@.len() <= BASE64_MAX_INPUT,
    ensures
        r@ == base64_standard(input@),
{
    base64::engine::general_purpose::STANDARD.encode(input)
}

/// The standard base64 encoding of `input`, or `None` where the input is
/// longer than [`BASE64_MAX_INPUT`].
pub fn encode_base64(input: &[u8]) -> (r: Option<String>)
    ensures
        r.deep_view() == if input@.len() <= BASE64_MAX_INPUT {
            Some(base64_standard(input@))
        } else {
            None
        },
{
    if input.len() <= BASE64_MAX_INPUT {
        Some(base64_encode(input))
    } else {
        None
    }
}

} // verus!
