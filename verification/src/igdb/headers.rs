//! Header values for IGDB requests, each kept with the text it holds.

use vstd::prelude::*;
use vstd::string::StringExecFns;

verus! {

#[verifier::external_type_specification]
#[verifier::external_body]
pub struct ExHeaderValue(reqwest::header::HeaderValue);

#[verifier::external_type_specification]
#[verifier::external_body]
pub struct ExInvalidHeaderValue(reqwest::header::InvalidHeaderValue);

/// A byte that a header value may hold: a tab, or any byte from 32 on
/// except DEL (127).
pub open spec fn valid_header_byte(b: u8) -> bool {
    (b >= 32 && b != 127) || b == 9
}

/// Whether text, encoded as UTF-8, can be a header value.
pub open spec fn valid_header_text(s: Seq<char>) -> bool {
    let bytes = vstd::utf8::encode_utf8(s);
    forall|i: int| 0 <= i < bytes.len() ==> valid_header_byte(#[trigger] bytes[i])
}

/// A header value together with the text it was made from. Only
/// `header_value` builds one, so the value always holds the UTF-8 bytes
/// of the text; the model of a `HeaderText` is that text.
pub struct HeaderText {
    text: String,
    value: reqwest::header::HeaderValue,
}

impl View for HeaderText {
    type V = Seq<char>;

    closed spec fn view(&self) -> Seq<char> {
        self.text@
    }
}

impl HeaderText {
    /// The text the value holds.
    pub fn text(&self) -> (t: &String)
        ensures
            t@ == self@,
    {
        &self.text
    }

    /// The header value, to hand to an HTTP client.
    pub fn into_value(self) -> reqwest::header::HeaderValue {
        self.value
    }
}

/// `HeaderValue::from_str` (reqwest, from the `http` crate). Its source
/// checks every byte of the text, fails exactly when one of them may not
/// stand in a header value, and otherwise makes a value holding a copy
/// of those bytes; the value comes back with a copy of the text. Claimed:
/// the failure condition, and that the text kept is the text given.
#[verifier::external_body]
pub(crate) fn header_value(text: &str) -> (r: Result<HeaderText, reqwest::header::InvalidHeaderValue>)
    ensures
        r is Ok <==> valid_header_text(text@),
        r matches Ok(h) ==> h@ == text@,
{
    match reqwest::header::HeaderValue::from_str(text) {
        Ok(value) => Ok(HeaderText { text: String::from_str(text), value }),
        Err(e) => Err(e),
    }
}

} // verus!
