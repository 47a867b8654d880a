//! The viewer's core state — line buffer, query, mode — with the key-event
//! state machine and the pure renderer. The controller around it does the
//! terminal I/O: it feeds lines and key events in and draws frames out.

use vstd::prelude::*;
use crate::keys::Action;
use crate::keys::KeyEvent;
use crate::keys::Mode;
use crate::query::Query;
use crate::render::Frame;
use crate::render::Row;
use crate::render::RowContent;
use crate::render::footer;
use crate::render::footer_spec;
use crate::search::Matcher;
use crate::search::match_triples;
use crate::search::pattern_accepted;
use crate::search::triple_views;
use crate::text::strip_eol;
use crate::text::strip_line_ending;

verus! {

/// The mathematical value of the viewer: the ingested lines oldest first,
/// the query's characters, and the mode.
pub ghost struct ViewerView {
    pub lines: Seq<Seq<char>>,
    pub query: Seq<char>,
    pub mode: Mode,
}

/// The viewer core. Lines are appended during ingestion and never removed,
/// truncated or reordered; the query and mode move only under `handle_key`.
pub struct App {
    buffer: Vec<String>,
    query: Query,
    mode: Mode,
}

impl View for App {
    type V = ViewerView;

    closed spec fn view(&self) -> ViewerView {
        ViewerView {
            lines: self.buffer@.map_values(|s: String| s@),
            query: self.query@,
            mode: self.mode,
        }
    }
}

impl App {
    /// The query is only ever non-empty while in search mode: leaving it
    /// clears the query.
    pub open spec fn wf(self) -> bool {
        self@.mode is Normal ==> self@.query.len() == 0
    }

    /// How many lines a terminal of the given height shows.
    pub open spec fn visible(self, height: u16) -> int {
        if self@.lines.len() <= height {
            self@.lines.len() as int
        } else {
            height as int
        }
    }

    /// What the row of rank `k` (0 = newest line) must hold: the line
    /// verbatim when the query is empty, does not compile, or does not match
    /// the line; its match decomposition otherwise.
    pub open spec fn row_content_ok(self, k: int, c: RowContent) -> bool {
        let line = self@.lines[self@.lines.len() - 1 - k];
        let q = self@.query;
        if q.len() == 0 || !pattern_accepted(q) || match_triples(q, line).len() == 0 {
            c matches RowContent::Verbatim(s) && s@ == line
        } else {
            c matches RowContent::Matched(v) && triple_views(v@) == match_triples(q, line)
        }
    }

    pub fn new() -> (a: App)
        ensures
            a.wf(),
            a@.lines.len() == 0,
            a@.query.len() == 0,
            a@.mode is Normal,
    {
        let a = App { buffer: Vec::new(), query: Query::new(), mode: Mode::Normal };
        proof {
            assert(a@.lines =~= Seq::<Seq<char>>::empty());
        }
        a
    }

    /// Ingests one line at the end of the buffer, stripping its trailing
    /// line terminator. Every earlier line stays where it was: the buffer
    /// only ever grows, in arrival order.
    pub fn append_line(&mut self, line: &str)
        ensures
            final(self)@.lines == old(self)@.lines.push(strip_eol(line@)),
            final(self)@.lines.len() == old(self)@.lines.len() + 1,
            forall|i: int|
                0 <= i < old(self)@.lines.len() ==> final(self)@.lines[i] == old(self)@.lines[i],
            final(self)@.query == old(self)@.query,
            final(self)@.mode == old(self)@.mode,
            old(self).wf() ==> final(self).wf(),
    {
        let stripped = strip_line_ending(line);
        self.buffer.push(stripped);
        proof {
            assert(self@.lines =~= old(self)@.lines.push(strip_eol(line@)));
        }
    }

    /// Applies one key event: the mode state machine's transition table.
    /// The buffer never moves; unmatched (mode, key) pairs are no-ops, never
    /// errors. The returned action tells the controller whether to leave the
    /// loop, redraw, or do nothing.
    pub fn handle_key(&mut self, key: KeyEvent) -> (a: Action)
        ensures
            old(self).wf() ==> final(self).wf(),
            final(self)@.lines == old(self)@.lines,
            // The interrupt key leaves the loop in every mode, touching nothing.
            key is Interrupt ==> a is Quit && final(self)@ == old(self)@,
            !(key is Interrupt) ==> !(a is Quit),
            // In normal mode, `/` enters search mode; every other key is a no-op.
            old(self)@.mode is Normal && !(key is Interrupt) ==> a is Continue
                && final(self)@.query == old(self)@.query
                && (if key == KeyEvent::Char('/') {
                    final(self)@.mode is Search
                } else {
                    final(self)@.mode == old(self)@.mode
                }),
            // In search mode, characters edit the query, Enter is ignored,
            // and Escape clears the query and leaves search mode.
            old(self)@.mode is Search && !(key is Interrupt) ==> match key {
                KeyEvent::Char(c) => final(self)@.mode is Search && a is Redraw
                    && final(self)@.query == old(self)@.query.push(c),
                KeyEvent::Backspace => final(self)@.mode is Search && a is Redraw
                    && final(self)@.query == (if old(self)@.query.len() == 0 {
                        old(self)@.query
                    } else {
                        old(self)@.query.drop_last()
                    }),
                KeyEvent::Escape => final(self)@.mode is Normal && a is Redraw
                    && final(self)@.query.len() == 0,
                _ => final(self)@ == old(self)@ && a is Continue,
            },
            // Escape always lands in normal mode with an empty query.
            old(self).wf() && key is Escape ==> final(self)@.mode is Normal
                && final(self)@.query.len() == 0,
    {
        match (self.mode, key) {
            (_, KeyEvent::Interrupt) => Action::Quit,
            (Mode::Normal, KeyEvent::Char(c)) => {
                if c == '/' {
                    self.mode = Mode::Search;
                }
                Action::Continue
            },
            (Mode::Search, KeyEvent::Enter) => Action::Continue,
            (Mode::Search, KeyEvent::Backspace) => {
                self.query.pop();
                Action::Redraw
            },
            (Mode::Search, KeyEvent::Char(c)) => {
                self.query.push(c);
                Action::Redraw
            },
            (Mode::Search, KeyEvent::Escape) => {
                self.query.clear();
                self.mode = Mode::Normal;
                Action::Redraw
            },
            (_, _) => Action::Continue,
        }
    }

    /// Computes the screen image for the given geometry: walks the buffer
    /// from the newest line back, one row per line, the newest on the bottom
    /// row, stopping at the terminal height; lines beyond it are skipped
    /// entirely. Each shown line is either verbatim or decomposed around its
    /// matches, and the footer is laid out to the width.
    pub fn render(&self, width: u16, height: u16) -> (f: Frame)
        ensures
            f.rows@.len() == self.visible(height),
            f.rows@.len() <= height,
            forall|k: int|
                0 <= k < f.rows@.len() ==> (#[trigger] f.rows@[k]).row as int == height - k,
            forall|k: int|
                0 <= k < f.rows@.len() ==> self.row_content_ok(
                    k,
                    (#[trigger] f.rows@[k]).content,
                ),
            self@.lines.len() > 0 && height > 0 ==> f.rows@[0].row == height,
            f.footer@ == footer_spec(self@.query, self@.mode.name_spec(), width as int),
            f.footer@.len() <= width,
            // With an empty query, every visible line is rendered verbatim.
            self@.query.len() == 0 ==> forall|k: int|
                0 <= k < f.rows@.len() ==> ((#[trigger] f.rows@[k]).content matches
                    RowContent::Verbatim(s) && s@ == self@.lines[self@.lines.len() - 1 - k]),
    {
        let matcher: Option<Matcher> = if self.query.is_empty() {
            None
        } else {
            Matcher::new(self.query.as_pattern_source())
        };
        let mut rows: Vec<Row> = Vec::new();
        let n = self.buffer.len();
        let limit = if (height as usize) < n {
            height as usize
        } else {
            n
        };
        let mut k: usize = 0;
        while k < limit
            invariant
                k <= limit,
                limit == self.visible(height),
                limit <= n,
                n == self@.lines.len(),
                n == self.buffer@.len(),
                rows@.len() == k,
                matcher is None <==> self@.query.len() == 0 || !pattern_accepted(self@.query),
                matcher matches Some(m) ==> m.pattern() == self@.query,
                forall|j: int|
                    0 <= j < k ==> (#[trigger] rows@[j]).row as int == height - j,
                forall|j: int| 0 <= j < k ==> self.row_content_ok(j, (#[trigger] rows@[j]).content),
            decreases limit - k,
        {
            let idx = n - 1 - k;
            let line = &self.buffer[idx];
            proof {
                assert(self@.lines[idx as int] == line@);
            }
            let content = match &matcher {
                Option::None => RowContent::Verbatim(line.clone()),
                Option::Some(m) => {
                    let ts = m.find_triples(line.as_str());
                    if ts.len() == 0 {
                        proof {
                            assert(match_triples(self@.query, line@).len() == 0);
                        }
                        RowContent::Verbatim(line.clone())
                    } else {
                        proof {
                            assert(match_triples(self@.query, line@).len() != 0);
                        }
                        RowContent::Matched(ts)
                    }
                },
            };
            rows.push(Row { row: height - (k as u16), content });
            k += 1;
        }
        let foot = footer(&self.query, self.mode, width as usize);
        Frame { rows, footer: foot }
    }

    /// The ingested lines, oldest first.
    pub fn snapshot(&self) -> (r: &Vec<String>)
        ensures
            r@.len() == self@.lines.len(),
            forall|i: int| 0 <= i < r@.len() ==> (#[trigger] r@[i])@ == self@.lines[i],
    {
        &self.buffer
    }

    pub fn mode(&self) -> (m: Mode)
        ensures
            m == self@.mode,
    {
        self.mode
    }

    pub fn query_len(&self) -> (n: usize)
        ensures
            n == self@.query.len(),
    {
        self.query.len()
    }

    /// The query's characters joined, as shown on the footer's left.
    pub fn query_text(&self) -> (r: &str)
        ensures
            r@ == self@.query,
    {
        self.query.as_pattern_source()
    }
}

} // verus!
