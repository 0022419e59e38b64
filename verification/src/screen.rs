//! Frame rendering for the editor core.
//!
//! A frame is computed as a sequence of drawing instructions for the
//! terminal driver: hide the cursor, draw either the shutdown line or one
//! line per screen row (the welcome banner a third of the way down, a `~`
//! marker everywhere else), reposition the cursor, show it again, and
//! flush.  The driver that performs the instructions lives outside the
//! library; everything about their order and content is stated here.

use vstd::prelude::*;

verus! {

use crate::editor::Editor;
use crate::editor::Position;
use crate::editor::Size;

/// One drawing instruction for the terminal driver.
#[derive(Clone, Debug, PartialEq, Eq)]
pub enum TermCommand {
    HideCursor,
    ShowCursor,
    ClearScreen,
    ClearLine,
    Print(String),
    MoveCursorTo(Position),
    Flush,
}

/// The mathematical shape of a drawing instruction: as [`TermCommand`], with
/// printed text as a sequence of characters.
pub enum CommandModel {
    HideCursor,
    ShowCursor,
    ClearScreen,
    ClearLine,
    Print(Seq<char>),
    MoveCursorTo(Position),
    Flush,
}

impl View for TermCommand {
    type V = CommandModel;

    open spec fn view(&self) -> CommandModel {
        match self {
            TermCommand::HideCursor => CommandModel::HideCursor,
            TermCommand::ShowCursor => CommandModel::ShowCursor,
            TermCommand::ClearScreen => CommandModel::ClearScreen,
            TermCommand::ClearLine => CommandModel::ClearLine,
            TermCommand::Print(s) => CommandModel::Print(s@),
            TermCommand::MoveCursorTo(p) => CommandModel::MoveCursorTo(*p),
            TermCommand::Flush => CommandModel::Flush,
        }
    }
}

/// The shapes of a whole instruction sequence.
pub open spec fn command_models(cmds: Seq<TermCommand>) -> Seq<CommandModel> {
    cmds.map_values(|c: TermCommand| c@)
}

/// The banner text: the crate's name and version.
pub open spec fn welcome_message() -> Seq<char> {
    "hecto editor -- version 0.1.0"@
}

/// A sequence of `n` spaces.
pub open spec fn blank(n: nat) -> Seq<char> {
    Seq::new(n, |i: int| ' ')
}

/// The padding that centers a message of length `msg_len` on a terminal
/// `width` wide: half the spare width, and zero once the message does not
/// fit.  Centering is approximate by design; the line may sit one cell left
/// of the exact middle.
pub open spec fn welcome_padding(msg_len: nat, width: nat) -> nat {
    if width > msg_len {
        (((width - msg_len) as nat) / 2) as nat
    } else {
        0
    }
}

/// The rendered welcome line for message `msg` on a terminal `width` wide:
/// a `~` marker, one space fewer than the centering padding, then the
/// message, the whole cut to at most `width` characters.
pub open spec fn welcome_line(msg: Seq<char>, width: nat) -> Seq<char> {
    let padding = welcome_padding(msg.len(), width);
    let gap = if padding > 0 {
        (padding - 1) as nat
    } else {
        0
    };
    let full = "~"@ + blank(gap) + msg;
    if full.len() <= width {
        full
    } else {
        full.take(width as int)
    }
}

/// What a row of a non-quitting frame shows: the welcome line at row index
/// `height / 3`, a single `~` marker on every other row.
pub open spec fn row_content(r: nat, size: Size) -> Seq<char> {
    if r == size.height / 3 {
        welcome_line(welcome_message(), size.width as nat)
    } else {
        "~"@
    }
}

/// The row separator: carriage return plus line feed.
pub open spec fn line_break() -> Seq<char> {
    "\r\n"@
}

/// The shutdown line, printed by the one frame rendered after a quit.
pub open spec fn goodbye_text() -> Seq<char> {
    "Goodbye.\r\n"@
}

/// The drawing instructions for row `r`: clear the line, print the row's
/// content, and, after every row except the last, print the separator.
pub open spec fn row_commands(r: nat, size: Size) -> Seq<CommandModel> {
    let base = seq![CommandModel::ClearLine, CommandModel::Print(row_content(r, size))];
    if r + 1 < size.height {
        base + seq![CommandModel::Print(line_break())]
    } else {
        base
    }
}

/// The drawing instructions for rows `0 .. n` of a frame, in row order.
pub open spec fn rows_commands(n: nat, size: Size) -> Seq<CommandModel>
    decreases n,
{
    if n == 0 {
        Seq::empty()
    } else {
        rows_commands((n - 1) as nat, size) + row_commands((n - 1) as nat, size)
    }
}

/// The full frame for editor state `e` on a terminal of size `size`: cursor
/// hidden first and shown again at the end, a flush last; in between either
/// the cleared screen with the shutdown line (when quitting) or every row
/// in order followed by a cursor move to `e.cursor_position`.
pub open spec fn frame_commands(e: Editor, size: Size) -> Seq<CommandModel> {
    if e.should_quit {
        seq![
            CommandModel::HideCursor,
            CommandModel::ClearScreen,
            CommandModel::Print(goodbye_text()),
            CommandModel::ShowCursor,
            CommandModel::Flush,
        ]
    } else {
        seq![CommandModel::HideCursor] + rows_commands(size.height as nat, size) + seq![
            CommandModel::MoveCursorTo(e.cursor_position),
            CommandModel::ShowCursor,
            CommandModel::Flush,
        ]
    }
}

/// Law: the welcome line never exceeds the terminal width, and a message at
/// least as wide as the terminal is cut to exactly the width.
pub proof fn lemma_welcome_line_fits(msg: Seq<char>, width: nat)
    ensures
        welcome_line(msg, width).len() <= width,
        msg.len() >= width ==> welcome_line(msg, width).len() == width,
{
    reveal_strlit("~");
    let padding = welcome_padding(msg.len(), width);
    if width > msg.len() && padding > 0 {
        assert(padding <= width - msg.len()) by {
            assert(((width - msg.len()) as nat) / 2 <= (width - msg.len()) as nat);
        }
    }
}

/// The index in a frame's row instruction sequence where row `r`'s
/// instructions begin: every earlier row contributed three of them.
pub open spec fn row_start(r: nat) -> int {
    3 * (r as int)
}

/// Law: the instructions for rows `0 .. n` of a frame on a terminal of
/// height at least `n` draw exactly `n` rows, each as a clear-line followed
/// by the row's content — the welcome line at row `height / 3`, a `~`
/// marker elsewhere — with the separator printed after every row except
/// the frame's last.
pub proof fn lemma_rows_shape(n: nat, size: Size)
    requires
        n <= size.height,
    ensures
        rows_commands(n, size).len() == if n < size.height || n == 0 {
            3 * (n as int)
        } else {
            3 * (n as int) - 1
        },
        forall|r: nat|
            r < n ==> rows_commands(n, size)[#[trigger] row_start(r)]
                == CommandModel::ClearLine,
        forall|r: nat|
            r < n ==> rows_commands(n, size)[#[trigger] row_start(r) + 1]
                == CommandModel::Print(row_content(r, size)),
        forall|r: nat|
            r < n && r + 1 < size.height ==> rows_commands(n, size)[#[trigger] row_start(r) + 2]
                == CommandModel::Print(line_break()),
    decreases n,
{
    if n > 0 {
        let prev = (n - 1) as nat;
        lemma_rows_shape(prev, size);
        assert(rows_commands(n, size) == rows_commands(prev, size) + row_commands(prev, size));
        assert(rows_commands(prev, size).len() == 3 * prev);
        assert forall|r: nat| r < n implies rows_commands(n, size)[#[trigger] row_start(r)]
            == CommandModel::ClearLine && rows_commands(n, size)[row_start(r) + 1]
            == CommandModel::Print(row_content(r, size)) by {
            if r < prev {
                assert(row_start(r) + 1 < 3 * prev);
            } else {
                assert(row_start(r) == 3 * prev);
            }
        }
        assert forall|r: nat| r < n && r + 1 < size.height implies rows_commands(n, size)[
            #[trigger] row_start(r) + 2
        ] == CommandModel::Print(line_break()) by {
            if r < prev {
                assert(row_start(r) + 2 < 3 * prev);
            } else {
                assert(row_start(r) == 3 * prev);
            }
        }
    }
}

/// Law: after the quit keystroke — control held with `q` — from any state,
/// any cursor position and any size in effect, the quit flag is set, the
/// cursor is unmoved, and the next rendered frame is the shutdown frame:
/// clear the whole screen and print the shutdown line, between the usual
/// cursor hide/show pair and final flush.  The control loop then stops at
/// its next iteration boundary.
pub proof fn lemma_quit_transition(e: Editor, s: Size, frame_size: Size)
    ensures
        ({
            let ev = crate::editor::InputEvent::Key(
                (crate::editor::KeyPress { code: crate::editor::KeyCode::Char('q'), control_only: true }),
            );
            let quit = crate::editor::evaluated(e, ev, s);
            quit.should_quit && quit.cursor_position == e.cursor_position && frame_commands(
                quit,
                frame_size,
            ) == seq![
                CommandModel::HideCursor,
                CommandModel::ClearScreen,
                CommandModel::Print(goodbye_text()),
                CommandModel::ShowCursor,
                CommandModel::Flush,
            ]
        }),
{
}

/// Build the welcome line for `message` on a terminal `width` wide, exactly
/// as [`welcome_line`] describes it.
pub fn welcome_row(message: &str, width: usize) -> (row: String)
    ensures
        row@ == welcome_line(message@, width as nat),
{
    let len = message.unicode_len();
    let padding: usize = if width > len {
        (width - len) / 2
    } else {
        0
    };
    let gap: usize = if padding > 0 {
        padding - 1
    } else {
        0
    };
    let mut row = String::from_str("~");
    let mut i: usize = 0;
    while i < gap
        invariant
            i <= gap,
            row@ =~= "~"@ + blank(i as nat),
        decreases gap - i,
    {
        row.append(" ");
        proof {
            reveal_strlit(" ");
            assert(row@ =~= "~"@ + blank((i + 1) as nat));
        }
        i = i + 1;
    }
    row.append(message);
    let rlen = row.unicode_len();
    if rlen > width {
        let cut = row.as_str().substring_char(0, width);
        let result = cut.to_owned();
        proof {
            assert(result@ =~= welcome_line(message@, width as nat));
        }
        result
    } else {
        proof {
            assert(row@ =~= welcome_line(message@, width as nat));
        }
        row
    }
}

impl Editor {
    /// The welcome line of this editor's banner for a terminal `width` wide.
    pub fn draw_welcome_message(width: usize) -> (row: String)
        ensures
            row@ == welcome_line(welcome_message(), width as nat),
    {
        welcome_row("hecto editor -- version 0.1.0", width)
    }

    /// The content of a row without the banner: a single `~` marker.
    pub fn draw_empty_row() -> (row: String)
        ensures
            row@ == "~"@,
    {
        String::from_str("~")
    }

    /// The drawing instructions for every row of a non-quitting frame, as
    /// [`rows_commands`] describes them.
    pub fn draw_rows(size: Size) -> (cmds: Vec<TermCommand>)
        ensures
            command_models(cmds@) == rows_commands(size.height as nat, size),
    {
        let mut cmds: Vec<TermCommand> = Vec::new();
        let mut r: usize = 0;
        while r < size.height
            invariant
                r <= size.height,
                command_models(cmds@) == rows_commands(r as nat, size),
            decreases size.height - r,
        {
            let ghost prev_models = command_models(cmds@);
            cmds.push(TermCommand::ClearLine);
            if r == size.height / 3 {
                cmds.push(TermCommand::Print(Self::draw_welcome_message(size.width)));
            } else {
                cmds.push(TermCommand::Print(Self::draw_empty_row()));
            }
            if r + 1 < size.height {
                cmds.push(TermCommand::Print(String::from_str("\r\n")));
            }
            proof {
                assert(command_models(cmds@) =~= prev_models + row_commands(r as nat, size));
                assert(rows_commands((r + 1) as nat, size) == rows_commands(r as nat, size)
                    + row_commands(r as nat, size));
            }
            r = r + 1;
        }
        cmds
    }

    /// The drawing instructions for one full frame in state `self`, as
    /// [`frame_commands`] describes them: the shutdown frame when quitting,
    /// the row field with the cursor repositioned otherwise.
    pub fn refresh_screen(&self, size: Size) -> (cmds: Vec<TermCommand>)
        ensures
            command_models(cmds@) == frame_commands(*self, size),
    {
        let mut cmds: Vec<TermCommand> = Vec::new();
        cmds.push(TermCommand::HideCursor);
        if self.should_quit {
            cmds.push(TermCommand::ClearScreen);
            cmds.push(TermCommand::Print(String::from_str("Goodbye.\r\n")));
        } else {
            let mut row_cmds = Self::draw_rows(size);
            cmds.append(&mut row_cmds);
            cmds.push(TermCommand::MoveCursorTo(self.cursor_position));
        }
        cmds.push(TermCommand::ShowCursor);
        cmds.push(TermCommand::Flush);
        proof {
            assert(command_models(cmds@) =~= frame_commands(*self, size));
        }
        cmds
    }
}

} // verus!
