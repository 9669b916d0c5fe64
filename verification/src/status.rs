//! HTTP status codes as the backend judges and reports them.
use vstd::prelude::*;

verus! {

/// A status code that `http::StatusCode` accepts (three digits).
pub open spec fn valid_status(code: u16) -> bool {
    100 <= code <= 999
}

/// `StatusCode::is_success`: the code lies in `200..300`.
pub open spec fn status_is_success(code: u16) -> bool {
    200 <= code < 300
}

/// The decimal digit `d` (for `0 <= d <= 9`).
pub open spec fn digit_char(d: int) -> char {
    (48 + d) as char
}

/// The three decimal digits of a status code.
pub open spec fn status_digits(code: u16) -> Seq<char> {
    let c = code as int;
    seq![digit_char(c / 100), digit_char((c / 10) % 10), digit_char(c % 10)]
}

/// The text that `http::StatusCode` displays for a code: its number, a
/// space, and its canonical reason phrase.
pub uninterp spec fn http_status_text(code: u16) -> Seq<char>;

/// Whether a response status counts as success (`StatusCode::is_success`,
/// whose source tests `(200..300).contains(..)`).
pub fn is_success(code: u16) -> (r: bool)
    ensures
        r == status_is_success(code),
{
    200 <= code && code < 300
}

/// `Display` of `reqwest::StatusCode` (that is `http::StatusCode`) for a valid
/// code. Its source writes `"{} {}"` with the code as a `u16` and the
/// canonical reason, so the text starts with the three digits and a space;
/// the reason phrase itself is left to the name `http_status_text`.
#[verifier::external_body]
pub(crate) fn status_display(code: u16) -> (s: String)
    requires
        valid_status(code),
    ensures
        s@ == http_status_text(code),
        s@.len() >= 4,
        s@.take(4) == status_digits(code).push(' '),
{
    match reqwest::StatusCode::from_u16(code) {
        Ok(status) => status.to_string(),
        Err(_) => String::new(),
    }
}

} // verus!
