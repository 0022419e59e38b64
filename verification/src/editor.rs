//! Cursor state and keystroke evaluation for the editor core.
//!
//! The editor owns a quit flag and a cursor coordinate.  Keystrokes either
//! set the quit flag (control + `q`), move the cursor one cell in a bounded
//! way (`h`, `j`, `k`, `l`), or do nothing.  The terminal size in effect is
//! passed in by the caller, so that the bounds track live resizes.

use vstd::prelude::*;

verus! {

/// A cursor coordinate on the visible grid, zero-based: `x` is the column,
/// `y` the row.
#[derive(Clone, Copy, Debug, PartialEq, Eq, Structural)]
pub struct Position {
    pub x: usize,
    pub y: usize,
}

/// Terminal dimensions, as most recently queried from the terminal driver.
#[derive(Clone, Copy, Debug, PartialEq, Eq, Structural)]
pub struct Size {
    pub width: usize,
    pub height: usize,
}

/// One of the four directions a cursor move can take.
#[derive(Clone, Copy, Debug, PartialEq, Eq, Structural)]
pub enum Direction {
    Up,
    Down,
    Left,
    Right,
}

/// What the editor reads out of a key press: the character for a character
/// key, or `NonChar` for every other key (arrows, function keys, ...).
#[derive(Clone, Copy, Debug)]
pub enum KeyCode {
    Char(char),
    NonChar,
}

/// A key press: its key code, and whether the modifier set held down with it
/// is exactly the control modifier.
#[derive(Clone, Copy, Debug)]
pub struct KeyPress {
    pub code: KeyCode,
    /// True when the modifier set is exactly control: control + shift + `q`
    /// does not quit, and this field is then false.
    pub control_only: bool,
}

/// One input event as the editor sees it: a key press, or anything else
/// (resize, mouse, focus, ...), which the editor ignores.
#[derive(Clone, Copy, Debug)]
pub enum InputEvent {
    Key(KeyPress),
    Other,
}

/// The editor state: a monotonic quit flag and the cursor coordinate.
pub struct Editor {
    pub should_quit: bool,
    pub cursor_position: Position,
}

/// Where a cursor at `p` ends up after one move in direction `d`, with the
/// terminal size `s` in effect: one step on one axis, floored at zero and
/// capped at the width or height (inclusive).
pub open spec fn moved_position(p: Position, d: Direction, s: Size) -> Position {
    match d {
        Direction::Left => Position {
            x: if p.x > 0 { (p.x - 1) as usize } else { 0 },
            y: p.y,
        },
        Direction::Right => Position {
            x: if p.x < s.width { (p.x + 1) as usize } else { p.x },
            y: p.y,
        },
        Direction::Up => Position {
            x: p.x,
            y: if p.y > 0 { (p.y - 1) as usize } else { 0 },
        },
        Direction::Down => Position {
            x: p.x,
            y: if p.y < s.height { (p.y + 1) as usize } else { p.y },
        },
    }
}

/// The editor state after one input event `ev` is evaluated with terminal
/// size `s` in effect: control + `q` sets the quit flag, `h`/`j`/`k`/`l`
/// (with any modifiers but exactly-control-with-`q`) move the cursor, and
/// every other event leaves the state unchanged.
pub open spec fn evaluated(e: Editor, ev: InputEvent, s: Size) -> Editor {
    match ev {
        InputEvent::Key(k) => match k.code {
            KeyCode::Char(c) => if c == 'q' && k.control_only {
                Editor { should_quit: true, cursor_position: e.cursor_position }
            } else if c == 'h' {
                Editor {
                    should_quit: e.should_quit,
                    cursor_position: moved_position(e.cursor_position, Direction::Left, s),
                }
            } else if c == 'j' {
                Editor {
                    should_quit: e.should_quit,
                    cursor_position: moved_position(e.cursor_position, Direction::Down, s),
                }
            } else if c == 'k' {
                Editor {
                    should_quit: e.should_quit,
                    cursor_position: moved_position(e.cursor_position, Direction::Up, s),
                }
            } else if c == 'l' {
                Editor {
                    should_quit: e.should_quit,
                    cursor_position: moved_position(e.cursor_position, Direction::Right, s),
                }
            } else {
                e
            },
            KeyCode::NonChar => e,
        },
        InputEvent::Other => e,
    }
}

/// Where a cursor at `p` ends up after a whole sequence of moves, all made
/// with terminal size `s` in effect.
pub open spec fn moves_applied(p: Position, moves: Seq<Direction>, s: Size) -> Position
    decreases moves.len(),
{
    if moves.len() == 0 {
        p
    } else {
        moves_applied(moved_position(p, moves[0], s), moves.drop_first(), s)
    }
}

/// Law: one move keeps each cursor axis within the bounds of the size in
/// effect at that move, provided the cursor was within those bounds before
/// it.  (A resize that shrinks the terminal below the cursor breaks the
/// bound until the driver reports the new size at the next move; the
/// premise rules that state out.)
pub proof fn lemma_move_in_bounds(p: Position, d: Direction, s: Size)
    requires
        p.x <= s.width,
        p.y <= s.height,
    ensures
        moved_position(p, d, s).x <= s.width,
        moved_position(p, d, s).y <= s.height,
{
}

/// Law: for every sequence of moves made with size `s` in effect, the
/// cursor stays within `[0, width]` and `[0, height]` after every prefix of
/// the sequence.
pub proof fn lemma_moves_in_bounds(p: Position, moves: Seq<Direction>, s: Size)
    requires
        p.x <= s.width,
        p.y <= s.height,
    ensures
        moves_applied(p, moves, s).x <= s.width,
        moves_applied(p, moves, s).y <= s.height,
        forall|k: int|
            0 <= k <= moves.len() ==> moves_applied(p, #[trigger] moves.take(k), s).x <= s.width
                && moves_applied(p, moves.take(k), s).y <= s.height,
    decreases moves.len(),
{
    if moves.len() > 0 {
        lemma_move_in_bounds(p, moves[0], s);
        lemma_moves_in_bounds(moved_position(p, moves[0], s), moves.drop_first(), s);
        assert forall|k: int|
            0 <= k <= moves.len() implies moves_applied(p, #[trigger] moves.take(k), s).x
            <= s.width && moves_applied(p, moves.take(k), s).y <= s.height by {
            if k == 0 {
                assert(moves.take(0).len() == 0);
            } else {
                let rest = moves.drop_first();
                assert(moves.take(k).drop_first() =~= rest.take(k - 1));
                assert(moves.take(k)[0] == moves[0]);
                assert(moves_applied(p, moves.take(k), s) == moves_applied(
                    moved_position(p, moves[0], s),
                    rest.take(k - 1),
                    s,
                ));
            }
        }
    } else {
        assert(moves.take(0) =~= moves);
    }
}

/// Law: the quit flag is monotonic.  Once it is set, no later event clears
/// it, whatever the event and whatever size is in effect.
pub proof fn lemma_quit_monotonic(e: Editor, ev: InputEvent, s: Size)
    requires
        e.should_quit,
    ensures
        evaluated(e, ev, s).should_quit,
{
}

impl Editor {
    /// The initial editor state: not quitting, cursor at the origin.
    pub fn default() -> (e: Editor)
        ensures
            !e.should_quit,
            e.cursor_position == (Position { x: 0usize, y: 0usize }),
    {
        Editor { should_quit: false, cursor_position: Position { x: 0, y: 0 } }
    }

    /// Move the cursor one cell in direction `direction`, bounded by the
    /// terminal size `size` in effect: each axis stays at or above zero and
    /// at or below the width or height.
    pub fn move_cursor(&mut self, direction: Direction, size: Size)
        ensures
            final(self).cursor_position == moved_position(
                old(self).cursor_position,
                direction,
                size,
            ),
            final(self).should_quit == old(self).should_quit,
    {
        match direction {
            Direction::Left => {
                if self.cursor_position.x > 0 {
                    self.cursor_position.x = self.cursor_position.x - 1;
                }
            },
            Direction::Down => {
                if self.cursor_position.y < size.height {
                    self.cursor_position.y = self.cursor_position.y + 1;
                }
            },
            Direction::Up => {
                if self.cursor_position.y > 0 {
                    self.cursor_position.y = self.cursor_position.y - 1;
                }
            },
            Direction::Right => {
                if self.cursor_position.x < size.width {
                    self.cursor_position.x = self.cursor_position.x + 1;
                }
            },
        }
    }

    /// Evaluate one input event with terminal size `size` in effect, as
    /// [`evaluated`] describes: quit on control + `q`, move on `h`/`j`/`k`/`l`,
    /// ignore everything else.
    pub fn evaluate_event(&mut self, event: &InputEvent, size: Size)
        ensures
            *final(self) == evaluated(*old(self), *event, size),
    {
        if let InputEvent::Key(KeyPress { code, control_only }) = event {
            match code {
                KeyCode::Char(c) => {
                    if *c == 'q' && *control_only {
                        self.should_quit = true;
                    } else if *c == 'h' {
                        self.move_cursor(Direction::Left, size);
                    } else if *c == 'j' {
                        self.move_cursor(Direction::Down, size);
                    } else if *c == 'k' {
                        self.move_cursor(Direction::Up, size);
                    } else if *c == 'l' {
                        self.move_cursor(Direction::Right, size);
                    }
                },
                KeyCode::NonChar => {},
            }
        }
    }
}

} // verus!
