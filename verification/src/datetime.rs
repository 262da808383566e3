//! A point in time, carried in its textual wire form.
//!
//! The codec only moves the text and checks that it is a well-formed
//! date-time; the check itself is delegated to the date-time library.

use vstd::prelude::*;

verus! {

/// Whether the date-time parser accepts this text (a relaxed RFC 3339
/// timestamp). The answer depends on the text alone.
pub uninterp spec fn datetime_ok(s: Seq<char>) -> bool;

/// Relies on chrono's `DateTime::<Utc>::from_str`, which parses a relaxed
/// RFC 3339 timestamp and depends only on the input text.
#[verifier::external_body]
pub(crate) fn datetime_text_ok(s: &str) -> (r: bool)
    ensures
        r == datetime_ok(s@),
{
    s.parse::<chrono::DateTime<chrono::Utc>>().is_ok()
}

/// A UTC timestamp, held as the text it travels as. Values are only built
/// from texts the date-time parser accepts.
#[derive(Debug, Clone, PartialEq)]
pub struct UtcDateTime {
    text: String,
}

impl View for UtcDateTime {
    type V = Seq<char>;

    closed spec fn view(&self) -> Seq<char> {
        self.text@
    }
}

impl UtcDateTime {
    /// Accepts exactly the texts the date-time parser accepts.
    pub fn parse(s: &str) -> (r: Option<UtcDateTime>)
        ensures
            match r {
                Some(d) => d@ == s@ && datetime_ok(s@),
                None => !datetime_ok(s@),
            },
    {
        if datetime_text_ok(s) {
            Some(UtcDateTime { text: String::from_str(s) })
        } else {
            None
        }
    }

    pub fn as_str(&self) -> (r: &str)
        ensures
            r@ == self@,
    {
        self.text.as_str()
    }

    /// A copy holding the same text.
    pub fn duplicate(&self) -> (r: UtcDateTime)
        ensures
            r@ == self@,
    {
        UtcDateTime { text: self.text.clone() }
    }
}

} // verus!
