//! An interactive terminal viewer: it ingests a finite text stream line by
//! line, shows the most recent lines filling the terminal height, and lets a
//! user incrementally type a pattern that is live-highlighted in the displayed
//! lines, with a status footer showing the current pattern and interaction
//! mode. This crate holds the verified core: the line buffer, the query
//! editor, the mode state machine, the search/highlight engine, and the
//! viewport and footer layout. Terminal I/O and key decoding are left to an
//! unverified shell around it.

pub mod errors;
pub mod keys;
pub mod query;
pub mod render;
pub mod search;
pub mod text;
pub mod viewer;
