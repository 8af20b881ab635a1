//! What is drawn: the text of the two panes and the place of the cursor.

use vstd::prelude::*;
use crate::chat::session::Session;
use crate::text::{join, joined};

verus! {

/// The title of the pane that shows the transcript.
pub const TRANSCRIPT_TITLE: &'static str = "Chat";

/// The title of the pane that shows the text being typed.
pub const INPUT_TITLE: &'static str = "Input";

/// What parts the lines of the transcript.
pub const LINE_BREAK: &'static str = "\n";

/// The empty rim around the two panes, in cells.
pub const MARGIN: u16 = 1;

/// The least height of the transcript pane, in rows.
pub const TRANSCRIPT_MIN_HEIGHT: u16 = 1;

/// The height of the input pane, in rows.
pub const INPUT_HEIGHT: u16 = 3;

/// The text of the transcript pane: the lines of the transcript, one below
/// the other.
pub fn transcript_text(lines: &Vec<String>) -> (text: String)
    ensures
        text@ == joined(lines.deep_view(), LINE_BREAK@),
{
    join(lines, LINE_BREAK)
}

/// What the two panes show.
#[derive(Debug, PartialEq, Eq)]
pub struct Frame {
    /// The text of the transcript pane.
    pub transcript: String,
    /// By how many lines the transcript pane is scrolled.
    pub scroll: u16,
    /// The text of the input pane.
    pub input: String,
}

/// What the two panes show for `session`: the whole transcript, scrolled as
/// the session is, and the text typed and not yet sent.
pub fn frame(session: &Session) -> (frame: Frame)
    ensures
        frame.transcript@ == joined(session@.log, LINE_BREAK@),
        frame.scroll == session@.scroll,
        frame.input@ == session@.input,
{
    Frame {
        transcript: transcript_text(session.messages()),
        scroll: session.scroll_offset(),
        input: session.input_buffer().to_owned(),
    }
}

/// The length of `typed` in bytes, as far as 16 bits count it.
pub open spec fn typed_width(typed: &str) -> nat {
    (typed.len() % 0x1_0000) as nat
}

/// Where the cursor stands for an input pane whose corner is at column `x`
/// and row `y`: inside the border, behind what was typed. The column counts
/// one cell for each byte typed.
///
/// Columns and rows are counted in 16 bits, so the place must be one that
/// can be counted.
pub fn cursor_position(x: u16, y: u16, typed: &str) -> (position: (u16, u16))
    requires
        x + typed_width(typed) + 1 <= u16::MAX,
        y + 1 <= u16::MAX,
    ensures
        position.0 == x + typed_width(typed) + 1,
        position.1 == y + 1,
{
    let width: u16 = (typed.len() % 0x1_0000) as u16;
    (x + width + 1, y + 1)
}

/// Whether [`cursor_position`] can count the place of the cursor.
pub fn cursor_fits(x: u16, y: u16, typed: &str) -> (fits: bool)
    ensures
        fits == (x + typed_width(typed) + 1 <= u16::MAX && y + 1 <= u16::MAX),
{
    let width: usize = typed.len() % 0x1_0000;
    y < u16::MAX && width < 0xffff && x as usize + width < 0xffff
}

} // verus!
