//! The character encoding of a document, chosen by its label.

use encoding_rs::Encoding;
use lol_html::AsciiCompatibleEncoding;
use vstd::prelude::*;
use vstd::string::StringSliceAdditionalSpecFns;

verus! {

/// `encoding_rs::Encoding`: a character encoding. Opaque.
#[verifier::external_type_specification]
#[verifier::external_body]
pub struct ExEncoding(Encoding);

/// `lol_html::AsciiCompatibleEncoding`: an encoding that the rewriter can
/// take. Opaque.
#[verifier::external_type_specification]
#[verifier::external_body]
pub struct ExAsciiCompatibleEncoding(AsciiCompatibleEncoding);

/// The encoding that the Encoding Standard gives a label, if it gives one.
pub uninterp spec fn labelled(label: Seq<u8>) -> Option<&'static Encoding>;

/// The encoding as one that the rewriter can take, if it is compatible
/// with ASCII.
pub uninterp spec fn ascii_compatible(encoding: &'static Encoding) -> Option<
    AsciiCompatibleEncoding,
>;

/// `Encoding::for_label`: looks a label up; the contract only gives the
/// result the name [`labelled`].
pub assume_specification[ Encoding::for_label ](label: &[u8]) -> (found: Option<&'static Encoding>)
    ensures
        found == labelled(label@),
;

/// `AsciiCompatibleEncoding::new`: `Some` for the encodings compatible with
/// ASCII; the contract only gives the result the name [`ascii_compatible`].
pub assume_specification[ AsciiCompatibleEncoding::new ](encoding: &'static Encoding) -> (taken:
    Option<AsciiCompatibleEncoding>)
    ensures
        taken == ascii_compatible(encoding),
;

/// The encoding that a label asks for, if the rewriter can take it.
pub open spec fn recognised(label: Seq<u8>) -> Option<AsciiCompatibleEncoding> {
    match labelled(label) {
        Some(encoding) => ascii_compatible(encoding),
        None => None,
    }
}

/// The label `utf-8`, byte by byte.
pub open spec fn utf_8_label() -> Seq<u8> {
    seq![0x75u8, 0x74u8, 0x66u8, 0x2du8, 0x38u8]
}

/// The encoding that a pass falls back on: UTF-8, which is the encoding
/// that the label `utf-8` asks for.
pub open spec fn fallback() -> AsciiCompatibleEncoding {
    recognised(utf_8_label())->Some_0
}

/// `AsciiCompatibleEncoding::utf_8`: UTF-8, which is the encoding that the
/// label `utf-8` names, and is compatible with ASCII.
pub assume_specification[ AsciiCompatibleEncoding::utf_8 ]() -> (encoding: AsciiCompatibleEncoding)
    ensures
        recognised(utf_8_label()) == Some(encoding),
;

/// The encoding of a pass: the one that was asked for, if the rewriter can
/// take it, and UTF-8 in its place if not.
pub open spec fn chosen(found: Option<AsciiCompatibleEncoding>) -> AsciiCompatibleEncoding {
    match found {
        Some(encoding) => encoding,
        None => fallback(),
    }
}

/// Finds the encoding that a label asks for. `None` for a label that the
/// Encoding Standard does not know, and for one of an encoding that is not
/// compatible with ASCII.
pub fn recognise(label: &str) -> (found: Option<AsciiCompatibleEncoding>)
    ensures
        found == recognised(label.spec_bytes()),
{
    match Encoding::for_label(label.as_bytes()) {
        Some(encoding) => AsciiCompatibleEncoding::new(encoding),
        None => None,
    }
}

/// The encoding of a pass: the recognised one, or UTF-8 in its place.
pub fn or_utf_8(found: Option<AsciiCompatibleEncoding>) -> (encoding: AsciiCompatibleEncoding)
    ensures
        encoding == chosen(found),
{
    match found {
        Some(encoding) => encoding,
        None => AsciiCompatibleEncoding::utf_8(),
    }
}

} // verus!
