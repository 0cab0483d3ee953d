use vstd::prelude::*;
use vstd::string::{StrSliceExecFns, StringExecFns};
use vstd::view::View as _;

pub mod buffer;

use crate::editor::terminal::{CommandView, Size, Terminal};
use crate::editor::view::buffer::{initial_lines, Buffer};

verus! {

/// The welcome banner's text.
pub open spec fn banner() -> Seq<char> {
    "hecto editor -- veresion 0.1.0"@
}

/// The full text of the welcome row for a terminal `width` cells wide: a
/// tilde, then left padding of `(width - banner length) / 2 - 1` spaces with
/// both subtractions saturating at zero, then the banner, the whole line
/// truncated to `width`. The padding only roughly centers the banner; a drift
/// of one cell to either side is deliberate.
pub open spec fn welcome_line(width: int) -> Seq<char> {
    let message = banner();
    let padding = if width >= message.len() {
        (width - message.len()) / 2
    } else {
        0
    };
    let spaces = if padding >= 1 {
        padding - 1
    } else {
        0
    };
    let full = "~"@ + Seq::new(spaces as nat, |i: int| ' ') + message;
    if width < full.len() {
        full.take(width)
    } else {
        full
    }
}

/// What row `r` of a `width` by `height` screen shows for the given line
/// source: the line at index `r` where the source has one, else the welcome
/// row at the vertical midpoint, else a bare tilde as empty-row filler.
pub open spec fn row_text(lines: Seq<Seq<char>>, width: int, height: int, r: int) -> Seq<char> {
    if 0 <= r && r < lines.len() {
        lines[r]
    } else if r == height / 2 {
        welcome_line(width)
    } else {
        "~"@
    }
}

/// The instructions a render pass queues for row `r`: erase the line, print
/// its text, and print a row terminator on every row but the last.
pub open spec fn row_commands(
    lines: Seq<Seq<char>>,
    width: int,
    height: int,
    r: int,
) -> Seq<CommandView> {
    let drawn = seq![
        CommandView::ClearLine,
        CommandView::Print(row_text(lines, width, height, r)),
    ];
    if r + 1 < height {
        drawn.push(CommandView::Print("\r\n"@))
    } else {
        drawn
    }
}

/// The instructions a render pass queues for the first `n` rows, in order.
pub open spec fn render_commands_up_to(
    lines: Seq<Seq<char>>,
    width: int,
    height: int,
    n: int,
) -> Seq<CommandView>
    decreases n,
{
    if n <= 0 {
        Seq::empty()
    } else {
        render_commands_up_to(lines, width, height, n - 1) + row_commands(
            lines,
            width,
            height,
            n - 1,
        )
    }
}

/// Everything one render pass queues: the rows of the whole screen, top to
/// bottom. Rendering is a pure function of the terminal size and the line
/// source, so the same inputs always queue the same instructions.
pub open spec fn render_commands(lines: Seq<Seq<char>>, size: Size) -> Seq<CommandView> {
    render_commands_up_to(lines, size.width as int, size.height as int, size.height as int)
}

/// The viewport renderer: maps the line source onto the screen, one output
/// line per terminal row. It never reads or writes the caret location.
pub struct View {
    pub buffer: Buffer,
}

impl vstd::view::View for View {
    type V = Seq<Seq<char>>;

    open spec fn view(&self) -> Seq<Seq<char>> {
        self.buffer@
    }
}

impl Default for View {
    fn default() -> (v: View)
        ensures
            v@ == initial_lines(),
    {
        View { buffer: Buffer::default() }
    }
}

impl View {
    /// Queues one full redraw of the screen: for every row of the given size,
    /// its text per [`row_text`], with a row terminator after every row except
    /// the final one (which would otherwise add a blank line at the bottom).
    pub fn render(&self, size: Size, terminal: &mut Terminal)
        ensures
            final(terminal)@ == old(terminal)@ + render_commands(self@, size),
    {
        let ghost start = terminal@;
        let ghost w = size.width as int;
        let ghost h = size.height as int;
        let height = size.height;
        let mut current: usize = 0;
        while current < height
            invariant
                current <= height,
                height == size.height,
                terminal@ == start + render_commands_up_to(self@, w, h, current as int),
                w == size.width as int,
                h == size.height as int,
            decreases height - current,
        {
            terminal.clear_line();
            if current < self.buffer.lines.len() {
                terminal.print(self.buffer.lines[current].as_str());
                proof {
                    assert(self@[current as int] == self.buffer.lines@[current as int]@);
                }
            } else if current == height / 2 {
                Self::draw_welcoome_message(size.width, terminal);
            } else {
                Self::draw_empty_row(terminal);
            }
            if current + 1 < height {
                terminal.print("\r\n");
            }
            proof {
                assert(terminal@ =~= start + render_commands_up_to(
                    self@,
                    w,
                    h,
                    current as int + 1,
                ));
            }
            current = current + 1;
        }
    }

    /// Queues the empty-row filler: a single tilde.
    pub fn draw_empty_row(terminal: &mut Terminal)
        ensures
            final(terminal)@ == old(terminal)@.push(CommandView::Print("~"@)),
    {
        terminal.print("~");
    }

    /// Queues the welcome row for a terminal `width` cells wide; the text is
    /// exactly [`welcome_line`]`(width)`.
    pub fn draw_welcoome_message(width: usize, terminal: &mut Terminal)
        ensures
            final(terminal)@ == old(terminal)@.push(
                CommandView::Print(welcome_line(width as int)),
            ),
    {
        let message = "hecto editor -- veresion 0.1.0";
        let message_len = message.unicode_len();
        let padding = if width >= message_len {
            (width - message_len) / 2
        } else {
            0
        };
        let spaces = if padding >= 1 {
            padding - 1
        } else {
            0
        };
        let mut line = String::from_str("~");
        let mut drawn: usize = 0;
        while drawn < spaces
            invariant
                drawn <= spaces,
                line@ == "~"@ + Seq::new(drawn as nat, |i: int| ' '),
            decreases spaces - drawn,
        {
            line.append(" ");
            proof {
                reveal_strlit(" ");
                assert(line@ =~= "~"@ + Seq::new(drawn as nat + 1, |i: int| ' '));
            }
            drawn = drawn + 1;
        }
        line.append(message);
        let ghost full = "~"@ + Seq::new(spaces as nat, |i: int| ' ') + banner();
        proof {
            assert(line@ =~= full);
        }
        let line_len = line.as_str().unicode_len();
        if width < line_len {
            let truncated_line = line.as_str().substring_char(0, width);
            proof {
                assert(truncated_line@ =~= welcome_line(width as int));
            }
            terminal.print(truncated_line);
        } else {
            terminal.print(line.as_str());
        }
    }
}

/// Row `r` is drawn at its slot of the command list `commands`: a line erase
/// at index `3 r`, the row's text at `3 r + 1`, and a row terminator at
/// `3 r + 2` whenever a further row follows on screen.
pub open spec fn row_drawn_at(
    commands: Seq<CommandView>,
    lines: Seq<Seq<char>>,
    width: int,
    height: int,
    r: int,
) -> bool {
    &&& commands[3 * r] == CommandView::ClearLine
    &&& commands[3 * r + 1] == CommandView::Print(row_text(lines, width, height, r))
    &&& (r + 1 < height ==> commands[3 * r + 2] == CommandView::Print("\r\n"@))
}

/// The command list of a render pass, row by row: each of the first `n` rows
/// sits at its own three-command slot, and the list is exactly as long as
/// those slots, the last row's terminator left off.
proof fn lemma_render_commands_structure(lines: Seq<Seq<char>>, width: int, height: int, n: int)
    requires
        0 <= n <= height,
    ensures
        render_commands_up_to(lines, width, height, n).len() == if n == height && height > 0 {
            3 * n - 1
        } else {
            3 * n
        },
        forall|r: int|
            0 <= r < n ==> #[trigger] row_drawn_at(
                render_commands_up_to(lines, width, height, n),
                lines,
                width,
                height,
                r,
            ),
    decreases n,
{
    if n > 0 {
        lemma_render_commands_structure(lines, width, height, n - 1);
        let prefix = render_commands_up_to(lines, width, height, n - 1);
        let row = row_commands(lines, width, height, n - 1);
        let whole = render_commands_up_to(lines, width, height, n);
        assert(whole == prefix + row);
        assert(row[0] == CommandView::ClearLine);
        assert(row[1] == CommandView::Print(row_text(lines, width, height, n - 1)));
        if n < height {
            assert(row.len() == 3);
            assert(row[2] == CommandView::Print("\r\n"@));
        } else {
            assert(row.len() == 2);
        }
        assert forall|r: int| 0 <= r < n implies #[trigger] row_drawn_at(
            whole,
            lines,
            width,
            height,
            r,
        ) by {
            if r < n - 1 {
                assert(row_drawn_at(prefix, lines, width, height, r));
                assert(whole[3 * r] == prefix[3 * r]);
                assert(whole[3 * r + 1] == prefix[3 * r + 1]);
                if r + 1 < height {
                    assert(whole[3 * r + 2] == prefix[3 * r + 2]);
                }
            } else {
                assert(whole[3 * r] == row[0]);
                assert(whole[3 * r + 1] == row[1]);
                if r + 1 < height {
                    assert(whole[3 * r + 2] == row[2]);
                }
            }
        }
    }
}

/// Law: rendering a screen of height `height` queues exactly `height` rows —
/// a line erase then the row's text for each — with a row terminator after
/// every row except the final one.
pub proof fn lemma_render_emits_height_rows(lines: Seq<Seq<char>>, size: Size)
    ensures
        render_commands(lines, size).len() == if size.height == 0 {
            0
        } else {
            3 * size.height - 1
        },
        forall|r: int|
            0 <= r < size.height ==> #[trigger] row_drawn_at(
                render_commands(lines, size),
                lines,
                size.width as int,
                size.height as int,
                r,
            ),
{
    lemma_render_commands_structure(
        lines,
        size.width as int,
        size.height as int,
        size.height as int,
    );
}

/// Law: when the line source has at least one line, row 0 shows that line —
/// never the welcome banner and never the filler tilde.
pub proof fn lemma_first_row_shows_first_line(lines: Seq<Seq<char>>, size: Size)
    requires
        lines.len() >= 1,
        size.height >= 1,
    ensures
        row_text(lines, size.width as int, size.height as int, 0) == lines[0],
        render_commands(lines, size)[1] == CommandView::Print(lines[0]),
{
    lemma_render_emits_height_rows(lines, size);
    assert(row_drawn_at(
        render_commands(lines, size),
        lines,
        size.width as int,
        size.height as int,
        0,
    ));
}

/// Law: the welcome row never overruns the terminal: its padding cannot be
/// negative, its text never exceeds `width` cells, and when the terminal is
/// narrower than the banner the row is cut to exactly `width` cells.
pub proof fn lemma_welcome_line_fits(width: int)
    requires
        0 <= width,
    ensures
        welcome_line(width).len() <= width,
        width <= banner().len() ==> welcome_line(width).len() == width,
{
    reveal_strlit("hecto editor -- veresion 0.1.0");
    reveal_strlit("~");
    let message = banner();
    let padding = if width >= message.len() {
        (width - message.len()) / 2
    } else {
        0
    };
    let spaces = if padding >= 1 {
        padding - 1
    } else {
        0
    };
    let full = "~"@ + Seq::new(spaces as nat, |i: int| ' ') + message;
    assert(full.len() == 1 + spaces + message.len());
    if width >= full.len() {
        assert(2 * padding <= width - message.len());
    }
}

/// Law: what a render pass queues depends on the line source and the size
/// alone. Whatever already sits in the queue, the newly appended block is the
/// same, so an unchanged source and size redraw identically every time.
pub proof fn lemma_render_idempotent(lines: Seq<Seq<char>>, size: Size, queued: Seq<CommandView>)
    ensures
        (queued + render_commands(lines, size)).skip(queued.len() as int) == render_commands(
            lines,
            size,
        ),
{
    assert((queued + render_commands(lines, size)).skip(queued.len() as int) =~= render_commands(
        lines,
        size,
    ));
}

} // verus!
