//! The screen and the drawing commands that one frame of the game produces.
//!
//! The simulation never draws. Each tick hands back a list of
//! [`RenderCommand`]s, in the order in which they are to be carried out, and
//! whoever owns the display carries them out.
use vstd::prelude::*;

verus! {

/// The width of the screen, in columns.
pub const SCREEN_WIDTH: i32 = 80;

/// The height of the screen, in rows.
pub const SCREEN_HEIGHT: i32 = 50;

/// The colors that the game draws with.
#[derive(Clone, Copy, Debug, PartialEq, Eq, Structural)]
pub enum Color {
    Black,
    Navy,
    Red,
    Yellow,
}

/// One instruction to the display.
#[derive(Debug, PartialEq, Eq)]
pub enum RenderCommand {
    /// Blank every cell of the screen to the given background.
    ClearScreen { background: Color },
    /// Put one glyph, given by its code in code page 437, into one cell.
    SetCell { col: i32, row: i32, fg: Color, bg: Color, glyph: u16 },
    /// Print a text that starts in the given cell.
    PrintText { col: i32, row: i32, text: String },
    /// Print a text centered in the given row.
    PrintCentered { row: i32, text: String },
    /// Ask the driver to end the program before the next tick.
    RequestQuit,
}

/// The mathematical model of a [`RenderCommand`]: cells are unbounded
/// integers and a text is the sequence of its characters.
pub enum CommandView {
    ClearScreen { background: Color },
    SetCell { col: int, row: int, fg: Color, bg: Color, glyph: u16 },
    PrintText { col: int, row: int, text: Seq<char> },
    PrintCentered { row: int, text: Seq<char> },
    RequestQuit,
}

impl View for RenderCommand {
    type V = CommandView;

    open spec fn view(&self) -> CommandView {
        match *self {
            RenderCommand::ClearScreen { background } => CommandView::ClearScreen { background },
            RenderCommand::SetCell { col, row, fg, bg, glyph } => CommandView::SetCell {
                col: col as int,
                row: row as int,
                fg,
                bg,
                glyph,
            },
            RenderCommand::PrintText { col, row, text } => CommandView::PrintText {
                col: col as int,
                row: row as int,
                text: text@,
            },
            RenderCommand::PrintCentered { row, text } => CommandView::PrintCentered {
                row: row as int,
                text: text@,
            },
            RenderCommand::RequestQuit => CommandView::RequestQuit,
        }
    }
}

/// The models of a list of commands, in the same order.
pub open spec fn views(commands: Seq<RenderCommand>) -> Seq<CommandView> {
    commands.map_values(|command: RenderCommand| command@)
}

/// Appending a command to a list appends its model to the list's models.
pub proof fn lemma_views_push(commands: Seq<RenderCommand>, command: RenderCommand)
    ensures
        views(commands.push(command)) == views(commands).push(command@),
{
    assert(views(commands.push(command)) =~= views(commands).push(command@));
}

/// The models of two lists joined are the models of the lists, joined.
pub proof fn lemma_views_add(first: Seq<RenderCommand>, second: Seq<RenderCommand>)
    ensures
        views(first + second) == views(first) + views(second),
{
    assert(views(first + second) =~= views(first) + views(second));
}

/// The code that code page 437 gives to a character, as
/// `bracket_lib::prelude::to_cp437` computes it from its table.
pub uninterp spec fn cp437_code(c: char) -> u16;

/// Looks a character up in code page 437.
///
/// Calls `bracket_lib::prelude::to_cp437`. The table is long and is not
/// repeated here: the contract only gives its result a name, which says that
/// the same character always yields the same code.
#[verifier::external_body]
pub(crate) fn to_glyph(c: char) -> (glyph: u16)
    ensures
        glyph == cp437_code(c),
{
    bracket_lib::prelude::to_cp437(c)
}

impl RenderCommand {
    /// The command that prints `text` from the cell at (`col`, `row`) on.
    pub fn print(col: i32, row: i32, text: &str) -> (command: RenderCommand)
        ensures
            command@ == (CommandView::PrintText { col: col as int, row: row as int, text: text@ }),
    {
        RenderCommand::PrintText { col, row, text: text.to_owned() }
    }

    /// The command that prints `text` centered in `row`.
    pub fn print_centered(row: i32, text: &str) -> (command: RenderCommand)
        ensures
            command@ == (CommandView::PrintCentered { row: row as int, text: text@ }),
    {
        RenderCommand::PrintCentered { row, text: text.to_owned() }
    }

    /// The command that puts the glyph of `symbol` into the cell at (`col`, `row`).
    pub fn set(col: i32, row: i32, fg: Color, bg: Color, symbol: char) -> (command: RenderCommand)
        ensures
            command@ == (CommandView::SetCell {
                col: col as int,
                row: row as int,
                fg,
                bg,
                glyph: cp437_code(symbol),
            }),
    {
        RenderCommand::SetCell { col, row, fg, bg, glyph: to_glyph(symbol) }
    }
}

} // verus!
