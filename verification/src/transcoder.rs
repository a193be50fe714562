//! Turns the raw bytes of a source file, taken to be UTF-8, into the bytes of
//! a chosen target encoding.
//!
//! Decoding is lossy-tolerant: malformed byte sequences become the Unicode
//! replacement character, so transcoding as a whole is total and never fails.
//! No BOM handling, normalization, or line-ending conversion takes place.

use crate::catalog::{
    encode_text, round_trippable, spec_decode, spec_encode, EncodingSelector, MAX_CONTENT_LEN,
};
use vstd::prelude::*;
use vstd::utf8::{decode_utf8, valid_utf8};

verus! {

/// The text that the lossy UTF-8 decoder produces for the given bytes: the
/// decoded characters, with every malformed sequence replaced by U+FFFD.
pub uninterp spec fn lossy_utf8_text_of(bytes: Seq<u8>) -> Seq<char>;

/// Relies on encoding_rs::UTF_8.decode_without_bom_handling: it replaces
/// every malformed sequence with the replacement character instead of
/// failing, it returns valid UTF-8 input as exactly the text that input
/// encodes, and it consumes at least one input byte per character produced.
#[verifier::external_body]
fn decode_utf8_lossy(bytes: &Vec<u8>) -> (r: String)
    requires
        bytes@.len() <= MAX_CONTENT_LEN,
    ensures
        r@ == lossy_utf8_text_of(bytes@),
        r@.len() <= bytes@.len(),
        valid_utf8(bytes@) ==> r@ == decode_utf8(bytes@),
{
    let (text, _) = encoding_rs::UTF_8.decode_without_bom_handling(bytes.as_slice());
    text.into_owned()
}

/// What transcoding yields: the lossy UTF-8 decode of the source bytes,
/// re-encoded under the target.
pub open spec fn spec_transcode(bytes: Seq<u8>, target: EncodingSelector) -> Seq<u8> {
    spec_encode(lossy_utf8_text_of(bytes), target)
}

/// Transcodes source bytes into the target encoding and reports whether any
/// character had to be substituted because the target cannot represent it.
///
/// On valid UTF-8 input, transcoding to UTF-8 returns the input unchanged.
/// When nothing was substituted and the decoded text is round-trippable under
/// the target, decoding the result under the target gives that text back.
pub fn transcode_flagged(bytes: &Vec<u8>, target: EncodingSelector) -> (r: (Vec<u8>, bool))
    requires
        bytes@.len() <= MAX_CONTENT_LEN,
    ensures
        r.0@ == spec_transcode(bytes@, target),
        target == EncodingSelector::Utf8 && valid_utf8(bytes@) ==> r.0@ == bytes@,
        !r.1 && round_trippable(lossy_utf8_text_of(bytes@), target) ==> spec_decode(
            r.0@,
            target,
        ) == lossy_utf8_text_of(bytes@),
        target == EncodingSelector::Utf8 ==> !r.1,
{
    let text = decode_utf8_lossy(bytes);
    let r = encode_text(text.as_str(), target);
    proof {
        if target == EncodingSelector::Utf8 && valid_utf8(bytes@) {
            vstd::utf8::decode_utf8_encode_utf8(bytes@);
        }
    }
    r
}

/// Transcodes source bytes into the target encoding.
///
/// On valid UTF-8 input, transcoding to UTF-8 returns the input unchanged.
pub fn transcode(bytes: &Vec<u8>, target: EncodingSelector) -> (r: Vec<u8>)
    requires
        bytes@.len() <= MAX_CONTENT_LEN,
    ensures
        r@ == spec_transcode(bytes@, target),
        target == EncodingSelector::Utf8 && valid_utf8(bytes@) ==> r@ == bytes@,
{
    let (out, _) = transcode_flagged(bytes, target);
    out
}

} // verus!
