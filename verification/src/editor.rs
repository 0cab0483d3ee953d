use vstd::prelude::*;

pub mod terminal;
pub mod view;

use crate::editor::terminal::{CommandView, Position, Size, Terminal};
use crate::editor::view::{render_commands, View as EditorView};
use crate::editor::view::buffer::initial_lines;

verus! {

/// A key, either a printable character or a named key, as the terminal driver
/// reports it.
#[derive(Clone, Copy, Debug, PartialEq, Eq, Structural)]
pub enum KeyCode {
    Char(char),
    Up,
    Down,
    Left,
    Right,
    PageUp,
    PageDown,
    Home,
    End,
}

/// The modifier set held while a key was hit.
#[derive(Clone, Copy, Debug, PartialEq, Eq, Structural)]
pub struct Modifiers {
    pub ctrl: bool,
    pub alt: bool,
    pub shift: bool,
}

/// Whether the driver reported the key going down, auto-repeating, or going
/// up. Only presses are acted on, so repeats and releases are never processed
/// twice.
#[derive(Clone, Copy, Debug, PartialEq, Eq, Structural)]
pub enum KeyEventKind {
    Press,
    Repeat,
    Release,
}

/// One keyboard record from the terminal driver.
#[derive(Clone, Copy, Debug, PartialEq, Eq, Structural)]
pub struct KeyEvent {
    pub code: KeyCode,
    pub modifiers: Modifiers,
    pub kind: KeyEventKind,
}

/// One input event: a keyboard record, or anything else the driver reports,
/// which the editor ignores.
#[derive(Clone, Copy, Debug, PartialEq, Eq, Structural)]
pub enum Event {
    Key(KeyEvent),
    Other,
}

/// A directional command, resolved once at classification time: four
/// one-cell steps, and four jumps to an edge of the screen.
#[derive(Clone, Copy, Debug, PartialEq, Eq, Structural)]
pub enum Direction {
    Up,
    Down,
    Left,
    Right,
    Top,
    Bottom,
    LineStart,
    LineEnd,
}

/// What one input event asks of the editor.
#[derive(Clone, Copy, Debug, PartialEq, Eq, Structural)]
pub enum EditorCommand {
    Move(Direction),
    Quit,
}

/// No modifier held.
pub open spec fn plain(m: Modifiers) -> bool {
    !m.ctrl && !m.alt && !m.shift
}

/// The quit chord: the character `c` with control held and no other modifier.
pub open spec fn is_quit_chord(k: KeyEvent) -> bool {
    &&& k.code == KeyCode::Char('c')
    &&& k.modifiers == (Modifiers { ctrl: true, alt: false, shift: false })
}

/// The movement a key asks for, if any: both the arrow keys and the
/// single-character mnemonics `h`, `j`, `k`, `l` map to the four one-cell
/// steps, and the four jump keys snap to an edge of the screen.
pub open spec fn direction_of(code: KeyCode) -> Option<Direction> {
    match code {
        KeyCode::Up | KeyCode::Char('k') => Some(Direction::Up),
        KeyCode::Down | KeyCode::Char('j') => Some(Direction::Down),
        KeyCode::Left | KeyCode::Char('h') => Some(Direction::Left),
        KeyCode::Right | KeyCode::Char('l') => Some(Direction::Right),
        KeyCode::PageUp => Some(Direction::Top),
        KeyCode::PageDown => Some(Direction::Bottom),
        KeyCode::Home => Some(Direction::LineStart),
        KeyCode::End => Some(Direction::LineEnd),
        _ => None,
    }
}

/// How one input event is classified: only key presses count; the quit chord
/// asks to quit, a plain movement key asks to move, everything else is
/// ignored with no state change.
pub open spec fn classify_spec(event: Event) -> Option<EditorCommand> {
    match event {
        Event::Key(k) => {
            if k.kind != KeyEventKind::Press {
                None
            } else if is_quit_chord(k) {
                Some(EditorCommand::Quit)
            } else if plain(k.modifiers) {
                match direction_of(k.code) {
                    Some(d) => Some(EditorCommand::Move(d)),
                    None => None,
                }
            } else {
                None
            }
        },
        Event::Other => None,
    }
}

/// Classifies one input event; the result is exactly [`classify_spec`].
pub fn classify(event: &Event) -> (command: Option<EditorCommand>)
    ensures
        command == classify_spec(*event),
{
    match event {
        Event::Key(k) => {
            if !matches!(k.kind, KeyEventKind::Press) {
                None
            } else if matches!(k.code, KeyCode::Char('c')) && k.modifiers.ctrl && !k.modifiers.alt
                && !k.modifiers.shift {
                Some(EditorCommand::Quit)
            } else if !k.modifiers.ctrl && !k.modifiers.alt && !k.modifiers.shift {
                match k.code {
                    KeyCode::Up | KeyCode::Char('k') => Some(
                        EditorCommand::Move(Direction::Up),
                    ),
                    KeyCode::Down | KeyCode::Char('j') => Some(
                        EditorCommand::Move(Direction::Down),
                    ),
                    KeyCode::Left | KeyCode::Char('h') => Some(
                        EditorCommand::Move(Direction::Left),
                    ),
                    KeyCode::Right | KeyCode::Char('l') => Some(
                        EditorCommand::Move(Direction::Right),
                    ),
                    KeyCode::PageUp => Some(EditorCommand::Move(Direction::Top)),
                    KeyCode::PageDown => Some(EditorCommand::Move(Direction::Bottom)),
                    KeyCode::Home => Some(EditorCommand::Move(Direction::LineStart)),
                    KeyCode::End => Some(EditorCommand::Move(Direction::LineEnd)),
                    _ => None,
                }
            } else {
                None
            }
        },
        Event::Other => None,
    }
}

/// A coordinate clamped into `[0, bound - 1]`, or 0 when the bound itself is 0.
pub open spec fn clamped(value: int, bound: int) -> int {
    if bound <= 0 {
        0
    } else if value < 0 {
        0
    } else if value >= bound {
        bound - 1
    } else {
        value
    }
}

/// The caret lies within `[0, width - 1] x [0, height - 1]`, with a zero
/// bound pinning the coordinate to 0.
pub open spec fn caret_in_bounds(p: Position, size: Size) -> bool {
    &&& p.col < size.width || (size.width == 0 && p.col == 0)
    &&& p.row < size.height || (size.height == 0 && p.row == 0)
}

/// Where one movement command takes the caret on a screen of the given size:
/// one-cell steps saturate at the edges, jumps land on them, and both
/// coordinates are clamped to the size in effect, so a caret left outside a
/// freshly shrunk terminal is pulled back in rather than kept out of range.
pub open spec fn move_caret_spec(p: Position, direction: Direction, size: Size) -> Position {
    let w = size.width as int;
    let h = size.height as int;
    let moved_col: int = match direction {
        Direction::Left => p.col - 1,
        Direction::Right => p.col + 1,
        Direction::LineStart => 0,
        Direction::LineEnd => w - 1,
        _ => p.col as int,
    };
    let moved_row: int = match direction {
        Direction::Up => p.row - 1,
        Direction::Down => p.row + 1,
        Direction::Top => 0,
        Direction::Bottom => h - 1,
        _ => p.row as int,
    };
    Position { col: clamped(moved_col, w) as usize, row: clamped(moved_row, h) as usize }
}

/// A coordinate clamped into `[0, bound - 1]`, or 0 when the bound is 0.
fn clamp(value: usize, bound: usize) -> (clamped_value: usize)
    ensures
        clamped_value as int == clamped(value as int, bound as int),
{
    if bound == 0 {
        0
    } else if value >= bound {
        bound - 1
    } else {
        value
    }
}

/// Applies one movement command to the caret; the result is exactly
/// [`move_caret_spec`], so it always lies within the given size.
pub fn move_caret(p: Position, direction: Direction, size: Size) -> (moved: Position)
    ensures
        moved == move_caret_spec(p, direction, size),
        caret_in_bounds(moved, size),
{
    let shifted_col: usize = match direction {
        Direction::Left => if p.col == 0 {
            0
        } else {
            p.col - 1
        },
        Direction::Right => if p.col == usize::MAX {
            usize::MAX
        } else {
            p.col + 1
        },
        Direction::LineStart => 0,
        Direction::LineEnd => usize::MAX,
        _ => p.col,
    };
    let shifted_row: usize = match direction {
        Direction::Up => if p.row == 0 {
            0
        } else {
            p.row - 1
        },
        Direction::Down => if p.row == usize::MAX {
            usize::MAX
        } else {
            p.row + 1
        },
        Direction::Top => 0,
        Direction::Bottom => usize::MAX,
        _ => p.row,
    };
    Position { col: clamp(shifted_col, size.width), row: clamp(shifted_row, size.height) }
}

/// The event loop's state: the quit flag, the caret location, and the
/// viewport that redraws the screen after every event.
pub struct Editor {
    pub should_quit: bool,
    pub caret: Position,
    pub viewport: EditorView,
}

/// The state one processed event leaves the editor in: the quit chord raises
/// the quit flag for good, a movement command moves the caret within the size
/// in effect, and everything else changes nothing.
pub open spec fn evaluate_spec(e: Editor, event: Event, size: Size) -> Editor {
    match classify_spec(event) {
        Some(EditorCommand::Quit) => Editor { should_quit: true, ..e },
        Some(EditorCommand::Move(d)) => Editor { caret: move_caret_spec(e.caret, d, size), ..e },
        None => e,
    }
}

impl Editor {
    /// A fresh editor: running, caret at the origin, viewport over the
    /// starting line source.
    pub fn default() -> (e: Editor)
        ensures
            !e.should_quit,
            e.caret == (Position { col: 0, row: 0 }),
            e.viewport@ == initial_lines(),
    {
        Editor {
            should_quit: false,
            caret: Position { col: 0, row: 0 },
            viewport: EditorView::default(),
        }
    }

    /// Classifies and dispatches one input event against the terminal size in
    /// effect; the new state is exactly [`evaluate_spec`]. The quit flag only
    /// ever rises, and the line source is untouched.
    pub fn evaluate_event(&mut self, event: &Event, size: Size)
        ensures
            *final(self) == evaluate_spec(*old(self), *event, size),
            final(self).should_quit == (old(self).should_quit || classify_spec(*event)
                == Some(EditorCommand::Quit)),
            final(self).viewport == old(self).viewport,
    {
        match classify(event) {
            Some(EditorCommand::Quit) => {
                self.should_quit = true;
            },
            Some(EditorCommand::Move(d)) => {
                self.caret = move_caret(self.caret, d, size);
            },
            None => {},
        }
    }

    /// Queues one full redraw for the current state: the farewell screen when
    /// quitting, else the whole viewport followed by a caret reset to the
    /// origin. Nothing reaches the real terminal until the queue is flushed.
    pub fn refresh_screen(&self, size: Size, terminal: &mut Terminal)
        ensures
            final(terminal)@ == old(terminal)@ + refresh_commands(*self, size),
    {
        if self.should_quit {
            terminal.clear_screen();
            terminal.print("Goodbye.\r\n");
            proof {
                assert(terminal@ =~= old(terminal)@ + refresh_commands(*self, size));
            }
        } else {
            self.viewport.render(size, terminal);
            terminal.move_caret_to(Position { col: 0, row: 0 });
            proof {
                assert(terminal@ =~= old(terminal)@ + refresh_commands(*self, size));
            }
        }
    }
}

/// What one redraw queues: a screen clear and the farewell text when
/// quitting, else the rendered viewport and a caret move to the origin.
pub open spec fn refresh_commands(e: Editor, size: Size) -> Seq<CommandView> {
    if e.should_quit {
        seq![CommandView::ClearScreen, CommandView::Print("Goodbye.\r\n"@)]
    } else {
        render_commands(e.viewport@, size).push(
            CommandView::MoveCaretTo(Position { col: 0, row: 0 }),
        )
    }
}

/// Every movement command lands the caret inside the screen.
pub proof fn lemma_move_caret_in_bounds(p: Position, direction: Direction, size: Size)
    ensures
        caret_in_bounds(move_caret_spec(p, direction, size), size),
{
}

/// The caret after a run of movement commands.
pub open spec fn apply_moves(p: Position, moves: Seq<(Direction, Size)>) -> Position
    decreases moves.len(),
{
    if moves.len() == 0 {
        p
    } else {
        apply_moves(move_caret_spec(p, moves.first().0, moves.first().1), moves.drop_first())
    }
}

/// Law: for every sequence of movement commands, each taken against the
/// terminal size in effect at its own step, the caret ends within
/// `[0, width - 1] x [0, height - 1]` of the size in effect at the last step.
pub proof fn lemma_moves_stay_in_bounds(p: Position, moves: Seq<(Direction, Size)>)
    requires
        moves.len() > 0,
    ensures
        caret_in_bounds(apply_moves(p, moves), moves.last().1),
    decreases moves.len(),
{
    let q = move_caret_spec(p, moves.first().0, moves.first().1);
    if moves.len() == 1 {
        lemma_move_caret_in_bounds(p, moves.first().0, moves.first().1);
        assert(moves.drop_first().len() == 0);
        assert(apply_moves(q, moves.drop_first()) == q);
        assert(moves.last() == moves.first());
    } else {
        lemma_moves_stay_in_bounds(q, moves.drop_first());
        assert(moves.drop_first().last() == moves.last());
    }
}

/// The editor state after a run of input events, each dispatched against the
/// terminal size in effect at its own step.
pub open spec fn run_events(e: Editor, events: Seq<(Event, Size)>) -> Editor
    decreases events.len(),
{
    if events.len() == 0 {
        e
    } else {
        run_events(evaluate_spec(e, events.first().0, events.first().1), events.drop_first())
    }
}

/// Law: the quit chord moves the editor to the quitting state from any state.
pub proof fn lemma_quit_chord_quits(e: Editor, event: Event, size: Size)
    requires
        classify_spec(event) == Some(EditorCommand::Quit),
    ensures
        evaluate_spec(e, event, size).should_quit,
{
}

/// Law: quitting is terminal. Once the quit flag is up, no run of further
/// events brings it down, so a loop that checks the flag before reading
/// stops reading input for good.
pub proof fn lemma_quitting_is_stable(e: Editor, events: Seq<(Event, Size)>)
    requires
        e.should_quit,
    ensures
        run_events(e, events).should_quit,
    decreases events.len(),
{
    if events.len() > 0 {
        lemma_quitting_is_stable(
            evaluate_spec(e, events.first().0, events.first().1),
            events.drop_first(),
        );
    }
}

} // verus!
