use vstd::prelude::*;
use vstd::string::StringExecFns;

verus! {

/// A coordinate pair into the terminal's character grid; `col` counts cells
/// from the left edge, `row` from the top, both starting at zero.
#[derive(Clone, Copy, Debug, PartialEq, Eq, Structural)]
pub struct Position {
    pub col: usize,
    pub row: usize,
}

impl Default for Position {
    fn default() -> (p: Position)
        ensures
            p.col == 0,
            p.row == 0,
    {
        Position { col: 0, row: 0 }
    }
}

/// The character-cell dimensions of the terminal. A size is queried fresh
/// before any movement or render calculation and never cached across events.
#[derive(Clone, Copy, Debug, PartialEq, Eq, Structural)]
pub struct Size {
    pub width: usize,
    pub height: usize,
}

/// One queued terminal instruction. Instructions are collected in a
/// [`Terminal`] and only leave the process when the caller flushes them.
#[derive(Clone, Debug, PartialEq, Eq)]
pub enum Command {
    MoveCaretTo(Position),
    ClearScreen,
    ClearLine,
    HideCaret,
    ShowCaret,
    Print(String),
}

/// The mathematical shape of a queued instruction: the same constructors as
/// [`Command`], with printed text as a character sequence.
pub enum CommandView {
    MoveCaretTo(Position),
    ClearScreen,
    ClearLine,
    HideCaret,
    ShowCaret,
    Print(Seq<char>),
}

impl View for Command {
    type V = CommandView;

    open spec fn view(&self) -> CommandView {
        match self {
            Command::MoveCaretTo(p) => CommandView::MoveCaretTo(*p),
            Command::ClearScreen => CommandView::ClearScreen,
            Command::ClearLine => CommandView::ClearLine,
            Command::HideCaret => CommandView::HideCaret,
            Command::ShowCaret => CommandView::ShowCaret,
            Command::Print(s) => CommandView::Print(s@),
        }
    }
}

/// The abstract content of a list of queued instructions.
pub open spec fn commands_view(commands: Seq<Command>) -> Seq<CommandView> {
    commands.map_values(|c: Command| c@)
}

/// A caret position with both coordinates truncated to the widest value the
/// terminal driver's narrower coordinate type can carry.
pub open spec fn truncated(p: Position) -> Position {
    Position {
        col: if p.col > u16::MAX as usize {
            u16::MAX as usize
        } else {
            p.col
        },
        row: if p.row > u16::MAX as usize {
            u16::MAX as usize
        } else {
            p.row
        },
    }
}

/// The deferred-output channel of the terminal session: every drawing
/// instruction is queued here, and nothing is guaranteed visible until the
/// whole queue is handed out at once by [`Terminal::execute`]. Batching a full
/// redraw into one flush is what keeps the screen from flickering.
///
/// Entering and leaving raw mode, and performing the queued instructions on
/// the real terminal, are platform I/O and live with the caller that owns the
/// process's standard output.
pub struct Terminal {
    queue: Vec<Command>,
}

impl View for Terminal {
    type V = Seq<CommandView>;

    closed spec fn view(&self) -> Seq<CommandView> {
        commands_view(self.queue@)
    }
}

impl Terminal {
    /// A session with an empty instruction queue.
    pub fn new() -> (t: Terminal)
        ensures
            t@ == Seq::<CommandView>::empty(),
    {
        let t = Terminal { queue: Vec::new() };
        proof {
            assert(t@ =~= Seq::<CommandView>::empty());
        }
        t
    }

    fn queue_command(&mut self, command: Command)
        ensures
            final(self)@ == old(self)@.push(command@),
    {
        let ghost cv = command@;
        self.queue.push(command);
        proof {
            assert(self@ =~= old(self)@.push(cv));
        }
    }

    /// Queues a caret repositioning. Coordinates exceeding the terminal
    /// driver's narrower maximum are truncated, not rejected.
    pub fn move_caret_to(&mut self, p: Position)
        ensures
            final(self)@ == old(self)@.push(CommandView::MoveCaretTo(truncated(p))),
    {
        let col = if p.col > u16::MAX as usize {
            u16::MAX as usize
        } else {
            p.col
        };
        let row = if p.row > u16::MAX as usize {
            u16::MAX as usize
        } else {
            p.row
        };
        self.queue_command(Command::MoveCaretTo(Position { col, row }));
    }

    /// Queues a full-screen erase.
    pub fn clear_screen(&mut self)
        ensures
            final(self)@ == old(self)@.push(CommandView::ClearScreen),
    {
        self.queue_command(Command::ClearScreen);
    }

    /// Queues an erase of the line the caret stands on.
    pub fn clear_line(&mut self)
        ensures
            final(self)@ == old(self)@.push(CommandView::ClearLine),
    {
        self.queue_command(Command::ClearLine);
    }

    /// Queues a caret-visibility toggle: hidden.
    pub fn hide_caret(&mut self)
        ensures
            final(self)@ == old(self)@.push(CommandView::HideCaret),
    {
        self.queue_command(Command::HideCaret);
    }

    /// Queues a caret-visibility toggle: shown.
    pub fn show_caret(&mut self)
        ensures
            final(self)@ == old(self)@.push(CommandView::ShowCaret),
    {
        self.queue_command(Command::ShowCaret);
    }

    /// Queues raw text output; no newline is appended.
    pub fn print(&mut self, text: &str)
        ensures
            final(self)@ == old(self)@.push(CommandView::Print(text@)),
    {
        self.queue_command(Command::Print(String::from_str(text)));
    }

    /// Hands the whole queue out in order and leaves the session empty: the
    /// one flush point of a redraw cycle. The caller performs the returned
    /// instructions on the real terminal in one write.
    pub fn execute(&mut self) -> (commands: Vec<Command>)
        ensures
            commands_view(commands@) == old(self)@,
            final(self)@ == Seq::<CommandView>::empty(),
    {
        let mut commands: Vec<Command> = Vec::new();
        core::mem::swap(&mut commands, &mut self.queue);
        proof {
            assert(self@ =~= Seq::<CommandView>::empty());
        }
        commands
    }
}

} // verus!
