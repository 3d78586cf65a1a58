use vstd::prelude::*;
use vstd::string::*;

verus! {

/// The bytes of a text in the encoding a label names, or `None` where the
/// label names no encoding.
pub uninterp spec fn encoded_as(label: Seq<u8>, text: Seq<char>) -> Option<Seq<u8>>;

/// Relies on encoding_rs: `Encoding::for_label` looks the label up, and the
/// encoding found encodes the text with `Encoding::encode`.
#[verifier::external_body]
fn encode_labelled(label: &[u8], text: &str) -> (r: Option<Vec<u8>>)
    ensures
        match encoded_as(label@, text@) {
            Some(v) => r matches Some(b) && b@ == v,
            None => r is None,
        },
{
    encoding_rs::Encoding::for_label(label).map(|e| e.encode(text).0.into_owned())
}

/// Relies on encoding_rs's `UTF_8.encode`, which hands back the text's own
/// UTF-8 bytes.
#[verifier::external_body]
fn encode_utf8(text: &str) -> (r: Vec<u8>)
    ensures
        r@ == text.spec_bytes(),
{
    encoding_rs::UTF_8.encode(text).0.into_owned()
}

/// The bytes sent to the printer for `text`: encoded as the label names, or
/// as UTF-8 where the label names no encoding.
pub open spec fn printer_bytes(label: Seq<u8>, text: &str) -> Seq<u8> {
    match encoded_as(label, text@) {
        Some(v) => v,
        None => text.spec_bytes(),
    }
}

/// Encodes the printable text for the printer, falling back to UTF-8 for an
/// unknown label.
pub fn encode_text(label: &str, text: &str) -> (r: Vec<u8>)
    ensures
        r@ == printer_bytes(label.spec_bytes(), text),
{
    match encode_labelled(label.as_bytes(), text) {
        Some(b) => b,
        None => encode_utf8(text),
    }
}

} // verus!
