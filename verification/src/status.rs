//! Status codes of HTTP responses: which of them mean success, and how one
//! is shown to a reader.

use vstd::prelude::*;
use vstd::string::*;
use crate::text::{decimal, decimal_text};

verus! {

/// Whether a status code reports success.
pub open spec fn is_success(status: u16) -> bool {
    200 <= status < 300
}

/// Tells a success status from any other.
pub fn status_is_success(status: u16) -> (ok: bool)
    ensures
        ok == is_success(status),
{
    200 <= status && status < 300
}

/// The reason phrase that `reqwest::StatusCode::canonical_reason` knows for
/// a status code, if it knows one.
pub uninterp spec fn canonical_reason(status: u16) -> Option<Seq<char>>;

/// Looks a status code up in the table of reason phrases that
/// `reqwest::StatusCode::canonical_reason` holds. The table is not restated
/// here: the result is taken to be what the table gives for the code, the
/// same on every call. Codes outside 100 to 999 are no status codes and are
/// not asked about.
#[verifier::external_body]
fn reason_phrase(status: u16) -> (phrase: Option<String>)
    requires
        100 <= status <= 999,
    ensures
        phrase.deep_view() == canonical_reason(status),
{
    match reqwest::StatusCode::from_u16(status) {
        Ok(code) => code.canonical_reason().map(String::from),
        Err(_) => None,
    }
}

/// The words that stand for a status code: its reason phrase where there is
/// one, and a fixed text where there is none.
pub open spec fn phrase_of(status: u16) -> Seq<char> {
    if 100 <= status <= 999 && canonical_reason(status) is Some {
        canonical_reason(status)->0
    } else {
        "<unknown status code>"@
    }
}

/// A status code as it is shown: the number, a space, and its words.
pub open spec fn status_line(status: u16) -> Seq<char> {
    decimal(status as nat) + " "@ + phrase_of(status)
}

/// Writes a status code out with its reason phrase, as in `404 Not Found`.
pub fn status_text(status: u16) -> (line: String)
    ensures
        line@ == status_line(status),
{
    let mut line = decimal_text(status);
    line.append(" ");
    if 100 <= status && status <= 999 {
        match reason_phrase(status) {
            Some(phrase) => {
                line.append(phrase.as_str());
            },
            None => {
                line.append("<unknown status code>");
            },
        }
    } else {
        line.append("<unknown status code>");
    }
    line
}

} // verus!
