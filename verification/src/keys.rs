//! Interaction mode, decoded key events, and the actions a key can demand.

use vstd::prelude::*;

verus! {

/// The interaction mode: `Normal` at start, `Search` while a pattern is being
/// edited. The mode decides which key events mutate the query.
#[derive(Clone, Copy, Debug, PartialEq, Eq, Structural)]
pub enum Mode {
    Normal,
    Search,
}

impl Mode {
    /// The mode's display name, as it appears on the footer.
    pub open spec fn name_spec(self) -> Seq<char> {
        match self {
            Mode::Normal => "Normal"@,
            Mode::Search => "Search"@,
        }
    }

    pub fn name(&self) -> (r: &'static str)
        ensures
            r@ == self.name_spec(),
            r@.len() == 6,
    {
        proof {
            reveal_strlit("Normal");
            reveal_strlit("Search");
        }
        match self {
            Mode::Normal => "Normal",
            Mode::Search => "Search",
        }
    }
}

/// Both mode names are six characters long; footer layout leans on this.
pub proof fn lemma_mode_name_len(m: Mode)
    ensures
        m.name_spec().len() == 6,
{
    reveal_strlit("Normal");
    reveal_strlit("Search");
}

/// A discrete key event, as handed over by an external key-event producer:
/// a literal character, one of the named editing keys, the interrupt key,
/// or anything else (ignored).
#[derive(Clone, Copy, Debug, PartialEq, Eq, Structural)]
pub enum KeyEvent {
    Char(char),
    Backspace,
    Escape,
    Enter,
    Interrupt,
    Other,
}

/// What the controller must do after a key was applied: leave the event
/// loop, redraw the screen, or nothing at all.
#[derive(Clone, Copy, Debug, PartialEq, Eq, Structural)]
pub enum Action {
    Quit,
    Redraw,
    Continue,
}

} // verus!
