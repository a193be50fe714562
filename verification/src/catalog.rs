//! The closed set of supported target encodings, and the encoder each one
//! resolves to.
//!
//! Every selector maps to exactly one encoder; there is no "unknown encoding"
//! failure at this layer. Encoding is total: a character the target cannot
//! represent is substituted (and the substitution is flagged), never an error.

use vstd::prelude::*;
use vstd::utf8::{decode_utf8, encode_utf8};
use vstd::string::StrSliceExecFns;

verus! {

/// An upper bound on the size of content a single conversion handles, far
/// above any real file that fits in memory. It keeps every internal buffer
/// size computation of the encoders below `usize::MAX`.
pub const MAX_CONTENT_LEN: usize = usize::MAX / 16;

/// One of the supported target encodings for a conversion.
#[derive(Clone, Copy, Debug, PartialEq, Eq, Structural)]
pub enum EncodingSelector {
    /// UTF-8.
    Utf8,
    /// The single-byte encoding presented as "ISO8859-1"; it resolves to the
    /// ISO-8859-10 (Latin-6) table.
    Latin1,
    /// EUC-KR.
    EucKr,
    /// Shift_JIS.
    ShiftJis,
}

/// The bytes that the ISO-8859-10 encoder produces for the given text.
pub uninterp spec fn latin1_bytes_of(text: Seq<char>) -> Seq<u8>;

/// The text that the ISO-8859-10 decoder produces for the given bytes.
pub uninterp spec fn latin1_text_of(bytes: Seq<u8>) -> Seq<char>;

/// The bytes that the EUC-KR encoder produces for the given text.
pub uninterp spec fn euckr_bytes_of(text: Seq<char>) -> Seq<u8>;

/// The text that the EUC-KR decoder produces for the given bytes.
pub uninterp spec fn euckr_text_of(bytes: Seq<u8>) -> Seq<char>;

/// The bytes that the Shift_JIS encoder produces for the given text.
pub uninterp spec fn shiftjis_bytes_of(text: Seq<char>) -> Seq<u8>;

/// The text that the Shift_JIS decoder produces for the given bytes.
pub uninterp spec fn shiftjis_text_of(bytes: Seq<u8>) -> Seq<char>;

/// The bytes the given target encoding assigns to a text.
pub open spec fn spec_encode(text: Seq<char>, target: EncodingSelector) -> Seq<u8> {
    match target {
        EncodingSelector::Utf8 => encode_utf8(text),
        EncodingSelector::Latin1 => latin1_bytes_of(text),
        EncodingSelector::EucKr => euckr_bytes_of(text),
        EncodingSelector::ShiftJis => shiftjis_bytes_of(text),
    }
}

/// The text the given target encoding's decoder reads out of a byte sequence.
pub open spec fn spec_decode(bytes: Seq<u8>, target: EncodingSelector) -> Seq<char> {
    match target {
        EncodingSelector::Utf8 => decode_utf8(bytes),
        EncodingSelector::Latin1 => latin1_text_of(bytes),
        EncodingSelector::EucKr => euckr_text_of(bytes),
        EncodingSelector::ShiftJis => shiftjis_text_of(bytes),
    }
}

/// Text that survives an encode-then-decode round trip under the given
/// target, provided every character was representable. The Shift_JIS encoder
/// deliberately writes the yen sign and the overline as the ASCII bytes for
/// backslash and tilde, which decode back as those ASCII characters, so text
/// containing either is excluded for that target.
pub open spec fn round_trippable(text: Seq<char>, target: EncodingSelector) -> bool {
    target == EncodingSelector::ShiftJis ==> !text.contains('\u{00A5}') && !text.contains(
        '\u{203E}',
    )
}

/// Relies on encoding_rs::ISO_8859_10.encode: it writes each character's
/// single-byte position in the ISO-8859-10 table, substitutes a numeric
/// character reference for each character outside the table and reports in
/// the flag whether that happened, and the table is one-to-one, so when
/// nothing was substituted the ISO-8859-10 decoder reads the text back.
#[verifier::external_body]
fn encode_latin1(text: &str) -> (r: (Vec<u8>, bool))
    requires
        text@.len() <= MAX_CONTENT_LEN,
    ensures
        r.0@ == latin1_bytes_of(text@),
        !r.1 ==> latin1_text_of(r.0@) == text@,
{
    let (bytes, _, unmappable) = encoding_rs::ISO_8859_10.encode(text);
    (bytes.into_owned(), unmappable)
}

/// Relies on encoding_rs::EUC_KR.encode: it writes each character's position
/// in the EUC-KR index, substitutes a numeric character reference for each
/// character outside the index and reports in the flag whether that happened,
/// and the EUC-KR decoder maps every produced sequence back to the character
/// it was produced for, so when nothing was substituted the decoder reads the
/// text back.
#[verifier::external_body]
fn encode_euckr(text: &str) -> (r: (Vec<u8>, bool))
    requires
        text@.len() <= MAX_CONTENT_LEN,
    ensures
        r.0@ == euckr_bytes_of(text@),
        !r.1 ==> euckr_text_of(r.0@) == text@,
{
    let (bytes, _, unmappable) = encoding_rs::EUC_KR.encode(text);
    (bytes.into_owned(), unmappable)
}

/// Relies on encoding_rs::SHIFT_JIS.encode: it writes each character's
/// position in the Shift_JIS index, substitutes a numeric character reference
/// for each character outside the index and reports in the flag whether that
/// happened, and the decoder maps every produced sequence back to the
/// character it was produced for — except that the yen sign and the overline
/// are written as the ASCII bytes 0x5C and 0x7E, which decode as backslash
/// and tilde. So when nothing was substituted and neither of those two
/// characters occurs, the decoder reads the text back.
#[verifier::external_body]
fn encode_shiftjis(text: &str) -> (r: (Vec<u8>, bool))
    requires
        text@.len() <= MAX_CONTENT_LEN,
    ensures
        r.0@ == shiftjis_bytes_of(text@),
        !r.1 && !text@.contains('\u{00A5}') && !text@.contains('\u{203E}') ==> shiftjis_text_of(
            r.0@,
        ) == text@,
{
    let (bytes, _, unmappable) = encoding_rs::SHIFT_JIS.encode(text);
    (bytes.into_owned(), unmappable)
}

/// Encodes a text into the byte form of the chosen target encoding.
///
/// The boolean is true exactly when some character had no representation in
/// the target and a substitution was written in its place. When it is false
/// and the text is round-trippable under the target, decoding the produced
/// bytes under the target yields the text again. Encoding to UTF-8 never
/// substitutes: Rust text is always valid Unicode.
pub fn encode_text(text: &str, target: EncodingSelector) -> (r: (Vec<u8>, bool))
    requires
        text@.len() <= MAX_CONTENT_LEN,
    ensures
        r.0@ == spec_encode(text@, target),
        !r.1 && round_trippable(text@, target) ==> spec_decode(r.0@, target) == text@,
        target == EncodingSelector::Utf8 ==> !r.1,
{
    match target {
        EncodingSelector::Utf8 => {
            let bytes = text.as_bytes_vec();
            proof {
                vstd::utf8::encode_utf8_decode_utf8(text@);
            }
            (bytes, false)
        },
        EncodingSelector::Latin1 => encode_latin1(text),
        EncodingSelector::EucKr => encode_euckr(text),
        EncodingSelector::ShiftJis => encode_shiftjis(text),
    }
}

impl EncodingSelector {
    /// The human-readable label of the encoding.
    pub open spec fn spec_label(self) -> Seq<char> {
        match self {
            EncodingSelector::Utf8 => "UTF-8"@,
            EncodingSelector::Latin1 => "ISO8859-1"@,
            EncodingSelector::EucKr => "EUC-KR"@,
            EncodingSelector::ShiftJis => "SHIFT-JIS"@,
        }
    }

    /// Returns the human-readable label of the encoding.
    pub fn label(&self) -> (r: String)
        ensures
            r@ == self.spec_label(),
    {
        match self {
            EncodingSelector::Utf8 => "UTF-8".to_owned(),
            EncodingSelector::Latin1 => "ISO8859-1".to_owned(),
            EncodingSelector::EucKr => "EUC-KR".to_owned(),
            EncodingSelector::ShiftJis => "SHIFT-JIS".to_owned(),
        }
    }
}

} // verus!
