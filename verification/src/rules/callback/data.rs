use vstd::prelude::*;

use vstd::utf8::{decode_utf8, valid_utf8};

use crate::text::{same_text, utf8_text};

verus! {

/// Matches a callback query whose data is exactly the given text.
pub struct DataRule {
    data: String,
}

impl DataRule {
    /// The data a query must carry.
    pub closed spec fn expected(&self) -> Seq<char> {
        self.data@
    }

    /// A rule for the given data.
    pub fn new(data: &str) -> (r: Self)
        ensures
            r.expected() == data@,
    {
        DataRule { data: data.to_owned() }
    }

    /// Whether a query carrying these bytes matches: they must decode, as
    /// UTF-8, to the expected text. The bytes must be valid UTF-8 (a query
    /// whose data is not cannot be matched).
    pub fn matches_data(&self, data: &[u8]) -> (r: bool)
        requires
            valid_utf8(data@),
        ensures
            r == (decode_utf8(data@) == self.expected()),
    {
        match utf8_text(data) {
            Some(text) => same_text(text, self.data.as_str()),
            None => false,
        }
    }
}

} // verus!
