//! The answer an async lookup gives back.

use vstd::prelude::*;
use vstd::utf8::encode_utf8;

verus! {

/// The length in bytes of a text in UTF-8, as `str::len` gives it.
pub open spec fn byte_len(s: Seq<char>) -> usize {
    encode_utf8(s).len() as usize
}

/// A value that answers lookups by id: its own text `a`, and a borrowed
/// text `b` kept alongside.
#[derive(Debug)]
pub struct St<'a> {
    pub a: String,
    pub b: &'a str,
}

impl<'a> St<'a> {
    /// The answer to a lookup of `id`: nothing for an id longer than 7
    /// bytes; else the id itself if it is longer (in bytes) than `a`;
    /// else `a`.
    pub fn get(&self, id: &str) -> (r: Option<String>)
        ensures
            byte_len(id@) > 7 ==> r is None,
            byte_len(id@) <= 7 && byte_len(id@) > byte_len(self.a@) ==> (r matches Some(s) && s@
                == id@),
            byte_len(id@) <= 7 && byte_len(id@) <= byte_len(self.a@) ==> (r matches Some(s)
                && s@ == self.a@),
    {
        if id.len() > 7 {
            None
        } else if id.len() > self.a.as_str().len() {
            Some(id.to_owned())
        } else {
            Some(self.a.clone())
        }
    }
}

} // verus!
