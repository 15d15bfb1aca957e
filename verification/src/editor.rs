//! The cursor/viewport state machine and the renderer. One navigation
//! command moves the buffer-absolute cursor; a scroll recompute then moves
//! the viewport offset by exactly the amount needed to keep the cursor
//! visible. The renderer turns the state into the exact lines to paint.

use vstd::prelude::*;

use crate::document::Document;
use crate::row::clip_chars;
use crate::row::expand_tabs;
use crate::terminal::Size;
use crate::terminal::Terminal;
use crate::text::dec_rep;
use crate::text::fmt_dec;
use crate::text::make_spaces;
use crate::text::spaces;
use crate::text::truncate_chars;

verus! {

/// A buffer-absolute coordinate: `x` is a character column, `y` a row
/// index. The cursor and the viewport offset share this shape.
#[derive(Clone, Copy)]
pub struct Position {
    pub x: usize,
    pub y: usize,
}

/// One navigation command; every other key input is a no-op to the core.
#[derive(Clone, Copy)]
pub enum NavKey {
    Up,
    Down,
    Left,
    Right,
    PageUp,
    PageDown,
    Home,
    End,
}

/// One decoded input event, as the terminal collaborator hands it over.
#[derive(Clone, Copy)]
pub enum Command {
    Quit,
    Move(NavKey),
    Other,
}

/// The length of the row at `y`, or zero when no such row exists.
pub open spec fn row_len_at(doc: Seq<Seq<char>>, y: int) -> int {
    if 0 <= y < doc.len() {
        doc[y].len() as int
    } else {
        0
    }
}

/// One transition of the cursor state machine: the command's own rule,
/// then the post-move clamp of the column to the new row's width. The
/// cursor row may legally sit one past the last content row. `page` is
/// the viewport height.
pub open spec fn nav_step(doc: Seq<Seq<char>>, x: int, y: int, page: int, key: NavKey) -> (
    int,
    int,
) {
    let height = doc.len() as int;
    let width = row_len_at(doc, y);
    let moved = match key {
        NavKey::Up => (x, if y > 0 { y - 1 } else { 0 }),
        NavKey::Down => (x, if y + 1 <= height { y + 1 } else { height }),
        NavKey::Left => if x > 0 {
            (x - 1, y)
        } else if y > 0 {
            (row_len_at(doc, y - 1), y - 1)
        } else {
            (x, y)
        },
        NavKey::Right => if x < width {
            (x + 1, y)
        } else if y < height {
            (0, y + 1)
        } else {
            (x, y)
        },
        NavKey::PageUp => (x, if y - page > 0 { y - page } else { 0 }),
        NavKey::PageDown => (x, if y + page <= height { y + page } else { height }),
        NavKey::Home => (0, y),
        NavKey::End => (width, y),
    };
    let clamp = row_len_at(doc, moved.1);
    (if moved.0 <= clamp { moved.0 } else { clamp }, moved.1)
}

/// The cursor state after `n` repetitions of one navigation command.
pub open spec fn nav_iter(
    doc: Seq<Seq<char>>,
    x: int,
    y: int,
    page: int,
    key: NavKey,
    n: nat,
) -> (int, int)
    decreases n,
{
    if n == 0 {
        (x, y)
    } else {
        let p = nav_iter(doc, x, y, page, key, (n - 1) as nat);
        nav_step(doc, p.0, p.1, page, key)
    }
}

/// One axis of the minimal-scroll rule: pull the offset back to the
/// cursor when the cursor is above the window, push it just far enough
/// when the cursor is at or past the window's far edge, leave it alone
/// otherwise. A viewport without extent pins the offset to the cursor.
pub open spec fn scroll_1d(cursor: int, offset: int, visible: int) -> int {
    if visible <= 0 {
        cursor
    } else if cursor < offset {
        cursor
    } else if cursor >= offset + visible {
        cursor - visible + 1
    } else {
        offset
    }
}

/// The welcome banner: a `~`, centering spaces, the banner text,
/// truncated to the viewport width.
pub open spec fn welcome_line_spec(width: int) -> Seq<char> {
    let msg = "Welcome to Kevin's Text Editor!"@;
    let padding = if width >= msg.len() {
        (width - msg.len()) / 2
    } else {
        0
    };
    let pad = if padding >= 1 {
        (padding - 1) as nat
    } else {
        0
    };
    truncate_chars(seq!['~'] + spaces(pad) + msg, width as nat)
}

/// The text shown on one visible terminal row `r`: the slice of the
/// document row it maps to, the centered welcome banner on the designated
/// row of an empty document, or the `~` placeholder.
pub open spec fn content_line_spec(
    doc: Seq<Seq<char>>,
    off_x: int,
    off_y: int,
    width: int,
    height: int,
    r: int,
) -> Seq<char> {
    if off_y + r < doc.len() {
        clip_chars(expand_tabs(doc[off_y + r]), off_x, off_x + width)
    } else if doc.len() == 0 && r == height / 3 {
        welcome_line_spec(width)
    } else {
        seq!['~']
    }
}

/// The status line: the file name (a fixed placeholder when absent)
/// truncated to 20 characters and the row count on the left, the
/// one-based cursor row over the row count on the right, joined with
/// exactly enough spaces to fill the width, then truncated to it.
pub open spec fn status_line_spec(
    name: Option<Seq<char>>,
    rows: nat,
    cursor_y: nat,
    width: nat,
) -> Seq<char> {
    let shown = match name {
        Some(n) => truncate_chars(n, 20),
        None => "[No Name]"@,
    };
    let left = shown + " - "@ + dec_rep(rows) + " lines"@;
    let right = dec_rep(cursor_y + 1) + "/"@ + dec_rep(rows);
    let padded = if left.len() + right.len() < width {
        left + spaces((width - left.len() - right.len()) as nat) + right
    } else {
        left + right
    };
    truncate_chars(padded, width)
}

/// The editor: quit flag, viewport dimensions, document, buffer-absolute
/// cursor, and the buffer-absolute coordinate of the top-left visible
/// cell.
pub struct Editor {
    should_quit: bool,
    terminal: Terminal,
    cursor_position: Position,
    offset: Position,
    document: Document,
}

impl Editor {
    /// The buffer-absolute cursor position.
    pub closed spec fn cursor(&self) -> Position {
        self.cursor_position
    }

    /// The buffer-absolute coordinate of the top-left visible cell.
    pub closed spec fn scroll_offset(&self) -> Position {
        self.offset
    }

    /// The document under edit.
    pub closed spec fn doc(&self) -> Document {
        self.document
    }

    /// Whether a quit command has been received.
    pub closed spec fn quitting(&self) -> bool {
        self.should_quit
    }

    /// The viewport dimensions.
    pub closed spec fn viewport(&self) -> Size {
        self.terminal.spec_size()
    }

    /// The text of each document row.
    pub open spec fn texts(&self) -> Seq<Seq<char>> {
        self.doc().texts()
    }

    /// The document's display name, if any.
    pub open spec fn spec_file_name(&self) -> Option<Seq<char>> {
        self.doc().spec_file_name()
    }

    /// Viewport width, as a mathematical integer.
    pub open spec fn vw(&self) -> int {
        self.viewport().width as int
    }

    /// Viewport height, as a mathematical integer.
    pub open spec fn vh(&self) -> int {
        self.viewport().height as int
    }

    /// Validity, re-established after every mutation: the rendering
    /// caches are in sync, the cursor row is at most one past the last
    /// content row, the cursor column is within the row it points at,
    /// and the vertical offset never points past the document's end.
    pub open spec fn wf(&self) -> bool {
        &&& self.doc().wf()
        &&& self.cursor().y <= self.texts().len()
        &&& self.cursor().x <= row_len_at(self.texts(), self.cursor().y as int)
        &&& self.scroll_offset().y <= self.texts().len()
    }

    /// An editor over `document` inside a viewport of the given size;
    /// cursor and offset start at the origin.
    pub fn new(document: Document, terminal: Terminal) -> (e: Editor)
        requires
            document.wf(),
        ensures
            e.wf(),
            !e.quitting(),
            e.cursor() == (Position { x: 0, y: 0 }),
            e.scroll_offset() == (Position { x: 0, y: 0 }),
            e.texts() == document.texts(),
            e.spec_file_name() == document.spec_file_name(),
            e.viewport() == terminal.spec_size(),
    {
        Editor {
            should_quit: false,
            terminal,
            cursor_position: Position { x: 0, y: 0 },
            offset: Position { x: 0, y: 0 },
            document,
        }
    }

    /// An editor over the empty document, with default viewport
    /// dimensions for callers that never query the real terminal.
    pub fn default() -> (e: Editor)
        ensures
            e.wf(),
            !e.quitting(),
            e.cursor() == (Position { x: 0, y: 0 }),
            e.scroll_offset() == (Position { x: 0, y: 0 }),
            e.texts() == Seq::<Seq<char>>::empty(),
            e.spec_file_name() is None,
            e.viewport().width == 80,
            e.viewport().height == 22,
    {
        Editor::new(Document::default(), Terminal::new(80, 24))
    }

    /// Whether a quit command has been received.
    pub fn should_quit(&self) -> (b: bool)
        ensures
            b == self.quitting(),
    {
        self.should_quit
    }

    /// The buffer-absolute cursor position.
    pub fn cursor_position(&self) -> (p: Position)
        ensures
            p == self.cursor(),
    {
        self.cursor_position
    }

    /// The buffer-absolute coordinate of the top-left visible cell.
    pub fn offset(&self) -> (p: Position)
        ensures
            p == self.scroll_offset(),
    {
        self.offset
    }

    /// The viewport-relative cell the terminal cursor is drawn at: the
    /// cursor position less the offset, floored at the window origin.
    pub fn screen_cursor(&self) -> (p: Position)
        ensures
            p.x as int == if self.cursor().x >= self.scroll_offset().x {
                self.cursor().x - self.scroll_offset().x
            } else {
                0
            },
            p.y as int == if self.cursor().y >= self.scroll_offset().y {
                self.cursor().y - self.scroll_offset().y
            } else {
                0
            },
    {
        let x = if self.cursor_position.x >= self.offset.x {
            self.cursor_position.x - self.offset.x
        } else {
            0
        };
        let y = if self.cursor_position.y >= self.offset.y {
            self.cursor_position.y - self.offset.y
        } else {
            0
        };
        Position { x, y }
    }

    /// The width of the document row at `y`, or zero past the end.
    fn row_width(&self, y: usize) -> (n: usize)
        ensures
            n as int == row_len_at(self.texts(), y as int),
    {
        match self.document.row(y) {
            Some(row) => row.len(),
            None => 0,
        }
    }

    /// Applies one navigation command to the cursor. The command's rule
    /// reads the width of the row the cursor leaves; the final clamp
    /// reads the width of the row it lands on, so that moving onto a
    /// shorter row never leaves the column past that row's end.
    pub fn move_cursor(&mut self, key: NavKey)
        requires
            old(self).wf(),
        ensures
            final(self).wf(),
            ({
                let step = nav_step(
                    old(self).texts(),
                    old(self).cursor().x as int,
                    old(self).cursor().y as int,
                    old(self).vh(),
                    key,
                );
                final(self).cursor().x == step.0 && final(self).cursor().y == step.1
            }),
            final(self).scroll_offset() == old(self).scroll_offset(),
            final(self).texts() == old(self).texts(),
            final(self).spec_file_name() == old(self).spec_file_name(),
            final(self).quitting() == old(self).quitting(),
            final(self).viewport() == old(self).viewport(),
    {
        let height = self.document.len();
        let page = self.terminal.size().height as usize;
        let mut x = self.cursor_position.x;
        let mut y = self.cursor_position.y;
        let width = self.row_width(y);
        match key {
            NavKey::Up => {
                if y > 0 {
                    y = y - 1;
                }
            },
            NavKey::Down => {
                if y < height {
                    y = y + 1;
                }
            },
            NavKey::Left => {
                if x > 0 {
                    x = x - 1;
                } else if y > 0 {
                    y = y - 1;
                    x = self.row_width(y);
                }
            },
            NavKey::Right => {
                if x < width {
                    x = x + 1;
                } else if y < height {
                    y = y + 1;
                    x = 0;
                }
            },
            NavKey::PageUp => {
                if y >= page {
                    y = y - page;
                } else {
                    y = 0;
                }
            },
            NavKey::PageDown => {
                let remaining = height - y;
                if remaining < page {
                    y = height;
                } else {
                    y = y + page;
                }
            },
            NavKey::Home => {
                x = 0;
            },
            NavKey::End => {
                x = width;
            },
        }
        let clamp = self.row_width(y);
        if x > clamp {
            x = clamp;
        }
        self.cursor_position = Position { x, y };
    }

    /// Recomputes the offset so the cursor stays inside the viewport,
    /// moving it by exactly the amount needed on each axis. When the
    /// viewport has extent, containment holds afterwards.
    pub fn scroll(&mut self)
        requires
            old(self).wf(),
        ensures
            final(self).wf(),
            final(self).scroll_offset().x as int == scroll_1d(
                old(self).cursor().x as int,
                old(self).scroll_offset().x as int,
                old(self).vw(),
            ),
            final(self).scroll_offset().y as int == scroll_1d(
                old(self).cursor().y as int,
                old(self).scroll_offset().y as int,
                old(self).vh(),
            ),
            old(self).vw() > 0 ==> final(self).scroll_offset().x <= old(self).cursor().x
                < final(self).scroll_offset().x + old(self).vw(),
            old(self).vh() > 0 ==> final(self).scroll_offset().y <= old(self).cursor().y
                < final(self).scroll_offset().y + old(self).vh(),
            final(self).cursor() == old(self).cursor(),
            final(self).texts() == old(self).texts(),
            final(self).spec_file_name() == old(self).spec_file_name(),
            final(self).quitting() == old(self).quitting(),
            final(self).viewport() == old(self).viewport(),
    {
        let w = self.terminal.size().width as usize;
        let h = self.terminal.size().height as usize;
        let ox = scroll_axis(self.cursor_position.x, self.offset.x, w);
        let oy = scroll_axis(self.cursor_position.y, self.offset.y, h);
        self.offset = Position { x: ox, y: oy };
    }

    /// Applies one decoded input: a quit request sets the quit flag, a
    /// navigation command moves the cursor and then rescrolls, anything
    /// else changes nothing.
    pub fn process_command(&mut self, command: Command)
        requires
            old(self).wf(),
        ensures
            final(self).wf(),
            final(self).texts() == old(self).texts(),
            final(self).spec_file_name() == old(self).spec_file_name(),
            final(self).viewport() == old(self).viewport(),
            command is Quit ==> final(self).quitting() && final(self).cursor() == old(
                self,
            ).cursor() && final(self).scroll_offset() == old(self).scroll_offset(),
            command is Other ==> *final(self) == *old(self),
            command matches Command::Move(key) ==> final(self).quitting() == old(self).quitting()
                && ({
                let step = nav_step(
                    old(self).texts(),
                    old(self).cursor().x as int,
                    old(self).cursor().y as int,
                    old(self).vh(),
                    key,
                );
                &&& final(self).cursor().x == step.0
                &&& final(self).cursor().y == step.1
                &&& final(self).scroll_offset().x as int == scroll_1d(
                    step.0,
                    old(self).scroll_offset().x as int,
                    old(self).vw(),
                )
                &&& final(self).scroll_offset().y as int == scroll_1d(
                    step.1,
                    old(self).scroll_offset().y as int,
                    old(self).vh(),
                )
            }),
            command is Move && old(self).vw() > 0 ==> final(self).scroll_offset().x <= final(
                self).cursor().x < final(self).scroll_offset().x + old(self).vw(),
            command is Move && old(self).vh() > 0 ==> final(self).scroll_offset().y <= final(
                self).cursor().y < final(self).scroll_offset().y + old(self).vh(),
    {
        match command {
            Command::Quit => {
                self.should_quit = true;
            },
            Command::Move(key) => {
                self.move_cursor(key);
                self.scroll();
            },
            Command::Other => {},
        }
    }
}

impl Editor {
    /// The status line for the current state: file name and row count on
    /// the left, one-based cursor row over row count on the right.
    pub fn status_line(&self) -> (s: String)
        ensures
            s@ == status_line_spec(
                self.spec_file_name(),
                self.texts().len(),
                self.cursor().y as nat,
                self.viewport().width as nat,
            ),
    {
        let w = self.terminal.size().width as usize;
        let rows = self.document.len();
        let rows_str = fmt_dec(rows as u128);
        let mut left = match self.document.file_name() {
            Some(name) => {
                let nlen = name.as_str().unicode_len();
                let cut = if nlen <= 20 {
                    nlen
                } else {
                    20
                };
                let shown = String::from_str(name.as_str().substring_char(0, cut));
                proof {
                    assert(shown@ =~= truncate_chars(name@, 20));
                }
                shown
            },
            None => String::from_str("[No Name]"),
        };
        left.append(" - ");
        left.append(rows_str.as_str());
        left.append(" lines");
        let mut right = fmt_dec((self.cursor_position.y as u128) + 1);
        right.append("/");
        right.append(rows_str.as_str());
        let llen = left.as_str().unicode_len();
        let rlen = right.as_str().unicode_len();
        let mut line = left;
        if llen < w && rlen < w - llen {
            let gap = make_spaces(w - llen - rlen);
            line.append(gap.as_str());
        }
        line.append(right.as_str());
        let total = line.as_str().unicode_len();
        let end = if w <= total {
            w
        } else {
            total
        };
        let out = String::from_str(line.as_str().substring_char(0, end));
        proof {
            assert(out@ =~= status_line_spec(
                self.spec_file_name(),
                self.texts().len(),
                self.cursor().y as nat,
                self.viewport().width as nat,
            ));
        }
        out
    }

    /// The line painted on visible terminal row `r`.
    fn content_line(&self, r: usize) -> (s: String)
        requires
            self.wf(),
            r < self.vh(),
        ensures
            s@ == content_line_spec(
                self.texts(),
                self.scroll_offset().x as int,
                self.scroll_offset().y as int,
                self.vw(),
                self.vh(),
                r as int,
            ),
    {
        let w = self.terminal.size().width as usize;
        let h = self.terminal.size().height as usize;
        let rows = self.document.len();
        if r < rows - self.offset.y {
            let doc_y = self.offset.y + r;
            let row = self.document.row(doc_y).unwrap();
            let rlen = row.rendered_len();
            let off_x = self.offset.x;
            let end = if off_x >= rlen {
                rlen
            } else if w >= rlen - off_x {
                rlen
            } else {
                off_x + w
            };
            let s = row.render(off_x, end);
            proof {
                assert(row.wf());
                assert(s@ =~= clip_chars(
                    expand_tabs(self.texts()[doc_y as int]),
                    off_x as int,
                    off_x as int + w,
                ));
            }
            s
        } else if rows == 0 && r == h / 3 {
            welcome_line(self.terminal.size().width)
        } else {
            let s = String::from_str("~");
            proof {
                reveal_strlit("~");
                assert(s@ =~= seq!['~']);
            }
            s
        }
    }

    /// Renders one full frame: one line per visible terminal row, then
    /// the status line, then the (empty) message-bar line.
    pub fn frame(&self) -> (lines: Vec<String>)
        requires
            self.wf(),
        ensures
            lines@.len() == self.vh() + 2,
            forall|r: int|
                0 <= r < self.vh() ==> (#[trigger] lines@[r])@ == content_line_spec(
                    self.texts(),
                    self.scroll_offset().x as int,
                    self.scroll_offset().y as int,
                    self.vw(),
                    self.vh(),
                    r,
                ),
            lines@[self.vh()]@ == status_line_spec(
                self.spec_file_name(),
                self.texts().len(),
                self.cursor().y as nat,
                self.viewport().width as nat,
            ),
            lines@[self.vh() + 1]@ == Seq::<char>::empty(),
    {
        let h = self.terminal.size().height as usize;
        let mut lines: Vec<String> = Vec::new();
        let mut r: usize = 0;
        while r < h
            invariant
                r <= h,
                h == self.vh(),
                self.wf(),
                lines@.len() == r,
                forall|j: int|
                    0 <= j < r ==> (#[trigger] lines@[j])@ == content_line_spec(
                        self.texts(),
                        self.scroll_offset().x as int,
                        self.scroll_offset().y as int,
                        self.vw(),
                        self.vh(),
                        j,
                    ),
            decreases h - r,
        {
            let line = self.content_line(r);
            lines.push(line);
            r = r + 1;
        }
        lines.push(self.status_line());
        lines.push(String::new());
        lines
    }
}

/// The centered welcome banner for a viewport `width` columns wide.
pub fn welcome_line(width: u16) -> (s: String)
    ensures
        s@ == welcome_line_spec(width as int),
{
    let msg = "Welcome to Kevin's Text Editor!";
    let w = width as usize;
    let len = msg.unicode_len();
    let padding = if w >= len {
        (w - len) / 2
    } else {
        0
    };
    let pad = if padding >= 1 {
        padding - 1
    } else {
        0
    };
    let mut line = String::from_str("~");
    let sp = make_spaces(pad);
    line.append(sp.as_str());
    line.append(msg);
    let total = line.as_str().unicode_len();
    let end = if w <= total {
        w
    } else {
        total
    };
    let out = String::from_str(line.as_str().substring_char(0, end));
    proof {
        reveal_strlit("~");
        assert(("~")@ =~= seq!['~']);
        assert(line@ == seq!['~'] + spaces(pad as nat) + msg@);
        assert(out@ =~= welcome_line_spec(width as int));
    }
    out
}

/// One axis of the minimal-scroll recompute.
fn scroll_axis(cursor: usize, offset: usize, visible: usize) -> (r: usize)
    ensures
        r as int == scroll_1d(cursor as int, offset as int, visible as int),
        r <= cursor,
{
    if visible == 0 {
        cursor
    } else if cursor < offset {
        cursor
    } else if cursor - offset >= visible {
        cursor - (visible - 1)
    } else {
        offset
    }
}

/// After any navigation command, the cursor column never exceeds the
/// length of the row the cursor lands on (zero when that row is absent).
pub proof fn lemma_nav_keeps_x_in_row(doc: Seq<Seq<char>>, x: int, y: int, page: int, key: NavKey)
    ensures
        nav_step(doc, x, y, page, key).0 <= row_len_at(doc, nav_step(doc, x, y, page, key).1),
{
}

/// Repeating `Down` never takes the cursor row past the end-of-document
/// position, and enough repetitions converge exactly onto it.
pub proof fn lemma_down_converges(doc: Seq<Seq<char>>, x: int, y: int, page: int, n: nat)
    requires
        0 <= y <= doc.len(),
    ensures
        nav_iter(doc, x, y, page, NavKey::Down, n).1 == vstd::math::min(
            y + n,
            doc.len() as int,
        ),
        n >= doc.len() - y ==> nav_iter(doc, x, y, page, NavKey::Down, n).1 == doc.len(),
    decreases n,
{
    if n > 0 {
        lemma_down_converges(doc, x, y, page, (n - 1) as nat);
    }
}

/// Repeating `Up` never takes the cursor row below zero, and enough
/// repetitions converge exactly onto row zero.
pub proof fn lemma_up_converges(doc: Seq<Seq<char>>, x: int, y: int, page: int, n: nat)
    requires
        0 <= y,
    ensures
        nav_iter(doc, x, y, page, NavKey::Up, n).1 == vstd::math::max(y - n, 0),
        n >= y ==> nav_iter(doc, x, y, page, NavKey::Up, n).1 == 0,
    decreases n,
{
    if n > 0 {
        lemma_up_converges(doc, x, y, page, (n - 1) as nat);
    }
}

/// `Home` is idempotent: pressing it twice yields the state one press
/// yields.
pub proof fn lemma_home_idempotent(doc: Seq<Seq<char>>, x: int, y: int, page: int)
    ensures
        ({
            let once = nav_step(doc, x, y, page, NavKey::Home);
            nav_step(doc, once.0, once.1, page, NavKey::Home) == once
        }),
{
}

/// `End` is idempotent: pressing it twice yields the state one press
/// yields.
pub proof fn lemma_end_idempotent(doc: Seq<Seq<char>>, x: int, y: int, page: int)
    ensures
        ({
            let once = nav_step(doc, x, y, page, NavKey::End);
            nav_step(doc, once.0, once.1, page, NavKey::End) == once
        }),
{
}

/// The minimal scroll restores containment on an axis whenever the
/// viewport has extent there; a document narrower or shorter than the
/// viewport keeps the offset at its minimal clamp.
pub proof fn lemma_scroll_containment(cursor: int, offset: int, visible: int)
    requires
        0 <= cursor,
        0 <= offset,
        1 <= visible,
    ensures
        scroll_1d(cursor, offset, visible) <= cursor < scroll_1d(cursor, offset, visible)
            + visible,
{
}

} // verus!
