use vstd::prelude::*;
use vstd::string::*;

use crate::document::{Document, Number, Value};
use crate::error::{ErrorKind, IslandError};

verus! {

/// Relies on `json::JsonValue` only as an opaque value: a parsed value is
/// handed straight to the conversion below.
#[verifier::external_type_specification]
#[verifier::external_body]
pub struct ExJsonValue(json::JsonValue);

/// The value that `json::parse` reads from a text, or `None` when it
/// rejects the text.
pub uninterp spec fn json_parse_of(text: Seq<char>) -> Option<Value>;

/// Relies on json's `JsonValue` variants and `Number::as_parts`: copies a
/// parsed value into a document, member for member and item for item.
#[verifier::external_body]
fn document_from_json(v: &json::JsonValue) -> Document {
    match v {
        json::JsonValue::Null => Document::Null,
        json::JsonValue::Short(s) => Document::Text(s.as_str().to_string()),
        json::JsonValue::String(s) => Document::Text(s.clone()),
        json::JsonValue::Number(n) => {
            let (positive, mantissa, exponent) = n.as_parts();
            Document::Number(Number { positive, mantissa, exponent })
        },
        json::JsonValue::Boolean(b) => Document::Bool(*b),
        json::JsonValue::Object(o) => Document::Object(o.iter().map(|(k, x)| (k.to_string(), document_from_json(x))).collect()),
        json::JsonValue::Array(a) => Document::Array(a.iter().map(document_from_json).collect()),
    }
}

/// The most fraction digits `json::parse` reads into one number without its
/// decimal exponent overflowing: the exponent is an `i16` that starts at
/// zero or above and drops by one for each digit after the decimal point.
pub const MAX_FRACTION_DIGITS: usize = 32768;

/// Where a left-to-right scan of JSON bytes stands: inside a string, just
/// after a backslash in one, and how many digits have followed a decimal
/// point outside strings (-1 when not in such a run).
pub open spec fn scan_step(st: (bool, bool, int), c: u8) -> (bool, bool, int) {
    if st.0 {
        if st.1 {
            (true, false, -1)
        } else if c == 92 {
            (true, true, -1)
        } else if c == 34 {
            (false, false, -1)
        } else {
            (true, false, -1)
        }
    } else if c == 34 {
        (true, false, -1)
    } else if c == 46 {
        (false, false, 0)
    } else if 48 <= c <= 57 {
        (false, false, if st.2 >= 0 { st.2 + 1 } else { -1 })
    } else {
        (false, false, -1)
    }
}

/// The scan state after the first `i` bytes.
pub open spec fn scan_state(b: Seq<u8>, i: int) -> (bool, bool, int)
    decreases i,
{
    if i <= 0 || i > b.len() {
        (false, false, -1)
    } else {
        scan_step(scan_state(b, i - 1), b[i - 1])
    }
}

/// No number in the JSON bytes has more than `MAX_FRACTION_DIGITS` digits
/// after its decimal point. Digits inside strings do not count.
pub open spec fn fractions_short(b: Seq<u8>) -> bool {
    forall|i: int| 0 <= i <= b.len() ==> #[trigger] scan_state(b, i).2 <= MAX_FRACTION_DIGITS
}

/// The document `parse_document` reads from a text: what `json::parse`
/// gives, on text whose fractions are short enough for it.
pub open spec fn parse_result(text: Seq<char>) -> Option<Value> {
    if fractions_short(vstd::utf8::encode_utf8(text)) {
        json_parse_of(text)
    } else {
        None
    }
}

/// Whether every fraction in the text is short enough for the parser.
/// Quotes, backslashes, points and digits are single bytes in UTF-8, so the
/// bytes are scanned.
pub fn fractions_fit(text: &str) -> (r: bool)
    ensures
        r == fractions_short(text.spec_bytes()),
{
    let b = text.as_bytes();
    let n = b.len();
    let mut in_str = false;
    let mut esc = false;
    let mut in_frac = false;
    let mut frac: usize = 0;
    let mut i: usize = 0;
    while i < n
        invariant
            n == b@.len(),
            b@ == text.spec_bytes(),
            i <= n,
            frac <= MAX_FRACTION_DIGITS,
            scan_state(b@, i as int) == (in_str, esc, if in_frac { frac as int } else { -1 }),
            forall|k: int| 0 <= k <= i ==> #[trigger] scan_state(b@, k).2 <= MAX_FRACTION_DIGITS,
        decreases n - i,
    {
        let c = b[i];
        if in_str {
            if esc {
                esc = false;
            } else if c == 92 {
                esc = true;
            } else if c == 34 {
                in_str = false;
            }
            in_frac = false;
            frac = 0;
        } else if c == 34 {
            in_str = true;
            in_frac = false;
            frac = 0;
        } else if c == 46 {
            in_frac = true;
            frac = 0;
        } else if 48 <= c && c <= 57 {
            if in_frac {
                if frac == MAX_FRACTION_DIGITS {
                    assert(scan_state(b@, i + 1).2 > MAX_FRACTION_DIGITS);
                    return false;
                }
                frac = frac + 1;
            }
        } else {
            in_frac = false;
            frac = 0;
        }
        i = i + 1;
    }
    true
}

/// Relies on `json::parse`: reads JSON text, or rejects it. A number with
/// more fraction digits than `MAX_FRACTION_DIGITS` can overflow the parser's
/// exponent, so such text is left out.
#[verifier::external_body]
fn parse_json(text: &str) -> (r: Option<Document>)
    requires
        fractions_short(text.spec_bytes()),
    ensures
        match r {
            Some(d) => json_parse_of(text@) == Some(d.model()),
            None => json_parse_of(text@) is None,
        },
{
    json::parse(text).ok().map(|v| document_from_json(&v))
}

/// Read a document from JSON text. Fails with a parse error exactly when
/// the text is not JSON, or holds a number with more fraction digits than
/// `MAX_FRACTION_DIGITS`.
pub fn parse_document(text: &str) -> (r: Result<Document, IslandError>)
    ensures
        match r {
            Ok(d) => parse_result(text@) == Some(d.model()),
            Err(e) => parse_result(text@) is None && e.kind == ErrorKind::Parse,
        },
{
    if !fractions_fit(text) {
        return Err(IslandError::new(ErrorKind::Parse, String::from_str("a number has too many fraction digits")));
    }
    match parse_json(text) {
        Some(d) => Ok(d),
        None => Err(IslandError::new(ErrorKind::Parse, String::from_str("malformed document text"))),
    }
}

} // verus!
