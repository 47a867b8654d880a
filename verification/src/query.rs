//! The query editor: the in-progress search pattern, mutable only by
//! appending one character, removing the last one, or clearing.

use vstd::prelude::*;
use vstd::string::StrSliceExecFns;

verus! {

/// The user-edited search text. Its view is the sequence of its characters.
pub struct Query {
    text: String,
}

impl View for Query {
    type V = Seq<char>;

    closed spec fn view(&self) -> Seq<char> {
        self.text@
    }
}

impl Query {
    pub fn new() -> (q: Query)
        ensures
            q@.len() == 0,
    {
        Query { text: String::new() }
    }

    /// Appends one character at the end.
    pub fn push(&mut self, c: char)
        ensures
            final(self)@ == old(self)@.push(c),
    {
        self.text.push(c);
    }

    /// Removes the last character if there is one; on an empty query this is
    /// a no-op, never an error.
    pub fn pop(&mut self)
        ensures
            old(self)@.len() == 0 ==> final(self)@ == old(self)@,
            old(self)@.len() > 0 ==> final(self)@ == old(self)@.drop_last(),
    {
        let _ = self.text.pop();
    }

    /// Empties the query.
    pub fn clear(&mut self)
        ensures
            final(self)@.len() == 0,
    {
        self.text = String::new();
    }

    pub fn is_empty(&self) -> (r: bool)
        ensures
            r <==> self@.len() == 0,
    {
        self.text.as_str().unicode_len() == 0
    }

    pub fn len(&self) -> (n: usize)
        ensures
            n == self@.len(),
    {
        self.text.as_str().unicode_len()
    }

    /// The current characters joined, ready for pattern compilation.
    pub fn as_pattern_source(&self) -> (r: &str)
        ensures
            r@ == self@,
    {
        self.text.as_str()
    }
}

} // verus!
