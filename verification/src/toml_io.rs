//! Reading a TOML file's bytes into a document, and writing a document back
//! to bytes.

use vstd::prelude::*;
use vstd::string::StrSliceExecFns;
use vstd::utf8::{decode_utf8, encode_utf8, valid_utf8};
use toml_edit::DocumentMut;
use crate::findings::{Finding, FindingView, finding_view};
use crate::text::owned;
use crate::toml_doc::{empty_document, parse_document, render_document, toml_at, toml_keys, parsed_as, toml_parse, toml_text};

verus! {

/// `std::str::from_utf8`: the text `bytes` encode when they are valid UTF-8,
/// and nothing otherwise.
#[verifier::external_body]
fn decode_text(bytes: &[u8]) -> (r: Option<String>)
    ensures
        r is Some <==> valid_utf8(bytes@),
        r matches Some(s) ==> s@ == decode_utf8(bytes@),
{
    match std::str::from_utf8(bytes) {
        Ok(text) => Some(text.to_string()),
        Err(_) => None,
    }
}

/// A document with nothing in it.
pub open spec fn is_empty_document(d: DocumentMut) -> bool {
    &&& forall|p: Seq<Seq<char>>| p.len() > 0 ==> #[trigger] toml_at(d, p) is None
    &&& toml_keys(d, seq![]) == Some(Seq::<Seq<char>>::empty())
}

/// The parse error of a file's bytes, if reading them fails: bytes that are
/// not UTF-8, or text that is not TOML.
pub open spec fn read_error(bytes: Seq<u8>) -> Option<Seq<char>> {
    if !valid_utf8(bytes) {
        Some("invalid UTF-8"@)
    } else {
        match toml_parse(decode_utf8(bytes)) {
            Ok(_) => None,
            Err(e) => Some(e),
        }
    }
}

/// Whether `d` is the document that reading `bytes` gives: they are UTF-8
/// and `d` is what their text parses to.
pub open spec fn read_as(bytes: Seq<u8>, d: DocumentMut) -> bool {
    &&& valid_utf8(bytes)
    &&& toml_parse(decode_utf8(bytes)) matches Ok(p)
    &&& parsed_as(d, p)
}

/// The parse error finding for the file at `path`.
pub open spec fn parse_error_view(path: Seq<char>, message: Seq<char>) -> FindingView {
    (3, path, None, seq![], message, seq![], seq![])
}

/// Reads the current bytes of the file at `path`: no file is an empty
/// document; bytes that are not UTF-8 or not TOML give a parse error.
pub fn read_document(current: Option<&[u8]>, path: &str) -> (r: Result<DocumentMut, Finding>)
    ensures
        current is None ==> (r matches Ok(d) && is_empty_document(d)),
        current matches Some(b) ==> match read_error(b@) {
            Some(e) => r matches Err(f) && finding_view(f) == parse_error_view(path@, e),
            None => r matches Ok(d) && read_as(b@, d),
        },
{
    match current {
        None => Ok(empty_document()),
        Some(bytes) => {
            proof {
                reveal_strlit("invalid UTF-8");
            }
            match decode_text(bytes) {
                None => Err(Finding::ParseError { path: owned(path), message: owned("invalid UTF-8") }),
                Some(text) => match parse_document(text.as_str()) {
                    Ok(doc) => Ok(doc),
                    Err(message) => Err(Finding::ParseError { path: owned(path), message }),
                },
            }
        },
    }
}

/// The bytes of a document's text.
pub fn document_bytes(doc: &DocumentMut) -> (r: Vec<u8>)
    ensures
        r@ == encode_utf8(toml_text(*doc)),
{
    let text = render_document(doc);
    text.as_str().as_bytes_vec()
}

} // verus!
