//! Character-level string helpers: the two `String` editing operations the
//! crate needs, a padding sequence, and stripping of a line terminator.

use vstd::prelude::*;
use vstd::string::StrSliceExecFns;
use vstd::string::StringExecFns;

verus! {

/// Relies on `String::push`: appends the given character to the end of the
/// string.
pub assume_specification[ String::push ](s: &mut String, c: char)
    ensures
        final(s)@ == old(s)@.push(c),
;

/// Relies on `String::pop`: removes the last character and returns it, or
/// returns `None` and leaves the string as it was when it is empty.
pub assume_specification[ String::pop ](s: &mut String) -> (r: Option<char>)
    ensures
        old(s)@.len() == 0 ==> final(s)@ == old(s)@ && r is None,
        old(s)@.len() > 0 ==> final(s)@ == old(s)@.drop_last() && r == Some(old(s)@.last()),
;

/// `n` spaces in a row (empty when `n` is negative).
pub open spec fn spaces(n: int) -> Seq<char> {
    Seq::new(if n >= 0 { n as nat } else { 0 }, |i: int| ' ')
}

/// The line without its trailing terminator: a final `"\n"` or `"\r\n"` is
/// removed, anything else is kept as it is.
pub open spec fn strip_eol(s: Seq<char>) -> Seq<char> {
    if s.len() > 0 && s.last() == '\n' {
        let t = s.drop_last();
        if t.len() > 0 && t.last() == '\r' {
            t.drop_last()
        } else {
            t
        }
    } else {
        s
    }
}

pub fn strip_line_ending(line: &str) -> (r: String)
    ensures
        r@ == strip_eol(line@),
{
    let n = line.unicode_len();
    if n > 0 && line.get_char(n - 1) == '\n' {
        let t = line.substring_char(0, n - 1);
        proof {
            assert(t@ =~= line@.drop_last());
        }
        if n - 1 > 0 && t.get_char(n - 2) == '\r' {
            let u = t.substring_char(0, n - 2);
            proof {
                assert(u@ =~= t@.drop_last());
            }
            String::from_str(u)
        } else {
            String::from_str(t)
        }
    } else {
        String::from_str(line)
    }
}

} // verus!
