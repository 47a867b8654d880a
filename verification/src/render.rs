//! The screen image a redraw produces: one row per visible line, newest at
//! the bottom, and the footer line, clamped to the terminal width.

use vstd::prelude::*;
use vstd::string::StrSliceExecFns;
use vstd::string::StringExecFns;
use crate::keys::Mode;
use crate::keys::lemma_mode_name_len;
use crate::query::Query;
use crate::text::spaces;

verus! {

/// What one display row holds: the line verbatim, or its decomposition into
/// (prefix, matched, suffix) triples, one per match occurrence.
#[derive(Debug, PartialEq)]
pub enum RowContent {
    Verbatim(String),
    Matched(Vec<(String, String, String)>),
}

/// One display row: its 1-based terminal row (the bottom row equals the
/// terminal height) and its content.
#[derive(Debug, PartialEq)]
pub struct Row {
    pub row: u16,
    pub content: RowContent,
}

/// A full screen image: the visible rows, newest line first, and the footer.
#[derive(Debug, PartialEq)]
pub struct Frame {
    pub rows: Vec<Row>,
    pub footer: String,
}

/// The footer's characters: the query left-aligned, the mode name
/// right-aligned, one reserved separator column, and padding in between, so
/// that the line spans the width. When the terminal is too narrow for that,
/// the query followed by the mode name is cut off at the width instead.
pub open spec fn footer_spec(q: Seq<char>, m: Seq<char>, width: int) -> Seq<char> {
    if q.len() + m.len() + 1 <= width {
        q + spaces(width - q.len() - m.len() - 1) + m
    } else {
        (q + m).take(width)
    }
}

/// The footer never exceeds the width it was asked for.
pub proof fn lemma_footer_fits(q: Seq<char>, m: Seq<char>, width: int)
    requires
        width >= 0,
    ensures
        footer_spec(q, m, width).len() <= width,
{
}

/// Lays the footer out for the given mode and query. Never panics, whatever
/// the width: a terminal narrower than the footer's content truncates it.
pub fn footer(query: &Query, mode: Mode, width: usize) -> (r: String)
    ensures
        r@ == footer_spec(query@, mode.name_spec(), width as int),
        r@.len() <= width,
{
    proof {
        lemma_mode_name_len(mode);
    }
    let name = mode.name();
    let qlen = query.len();
    if qlen <= usize::MAX - 7 && qlen + 7 <= width {
        let mut r = String::from_str(query.as_pattern_source());
        let pad = width - qlen - 7;
        let mut i: usize = 0;
        while i < pad
            invariant
                r@ == query@ + spaces(i as int),
                i <= pad,
            decreases pad - i,
        {
            r.push(' ');
            proof {
                assert(r@ =~= query@ + spaces(i + 1));
            }
            i += 1;
        }
        r.append(name);
        proof {
            assert(r@ =~= footer_spec(query@, mode.name_spec(), width as int));
        }
        r
    } else {
        let full = String::from_str(query.as_pattern_source()).concat(name);
        let cut = full.as_str().substring_char(0, width);
        proof {
            assert(cut@ =~= footer_spec(query@, mode.name_spec(), width as int));
        }
        String::from_str(cut)
    }
}

} // verus!
