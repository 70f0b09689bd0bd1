//! The text-mode console: an 80 by 25 grid of VGA cells with a cursor and a
//! colour theme. The grid is held here; showing it is a copy of the cells to
//! the VGA text buffer at the attached address.
use vstd::prelude::*;

verus! {

/// A VGA text cell: the colour attribute in the high byte, the character in
/// the low byte.
pub type VgaAttribute = u16;

pub const VGA_COLOR_BLACK: u8 = 0;
pub const VGA_COLOR_BLUE: u8 = 1;
pub const VGA_COLOR_GREEN: u8 = 2;
pub const VGA_COLOR_CYAN: u8 = 3;
pub const VGA_COLOR_RED: u8 = 4;
pub const VGA_COLOR_MAGENTA: u8 = 5;
pub const VGA_COLOR_BROWN: u8 = 6;
pub const VGA_COLOR_LIGHT_GREY: u8 = 7;
pub const VGA_COLOR_DARK_GREY: u8 = 8;
pub const VGA_COLOR_LIGHT_BLUE: u8 = 9;
pub const VGA_COLOR_LIGHT_GREEN: u8 = 10;
pub const VGA_COLOR_LIGHT_CYAN: u8 = 11;
pub const VGA_COLOR_LIGHT_RED: u8 = 12;
pub const VGA_COLOR_LIGHT_MAGENTA: u8 = 13;
pub const VGA_COLOR_LIGHT_BROWN: u8 = 14;
pub const VGA_COLOR_WHITE: u8 = 15;

/// Physical address of the VGA text buffer.
pub const VGA_BUFFER_PADDR: usize = 0xB8000;

/// Columns of the console.
pub const TTY_WIDTH: usize = 80;
/// Rows of the console.
pub const TTY_HEIGHT: usize = 25;
/// Cells of the console.
pub const TTY_CELLS: usize = 2000;

/// The console: the address of the VGA buffer it is attached to (0 when
/// none), its cells, its theme and its cursor. Nothing is drawn while no
/// buffer is attached.
pub struct TTYState {
    pub vga_buffer: usize,
    pub cells: Vec<VgaAttribute>,
    pub theme_color: VgaAttribute,
    pub x: usize,
    pub y: usize,
}

/// What a console holds.
pub struct TtyView {
    pub vga_buffer: usize,
    pub cells: Seq<VgaAttribute>,
    pub theme_color: VgaAttribute,
    pub x: int,
    pub y: int,
}

impl View for TTYState {
    type V = TtyView;

    open spec fn view(&self) -> TtyView {
        TtyView {
            vga_buffer: self.vga_buffer,
            cells: self.cells@,
            theme_color: self.theme_color,
            x: self.x as int,
            y: self.y as int,
        }
    }
}

impl TtyView {
    /// The grid has its size and the cursor lies on it.
    pub open spec fn wf(self) -> bool {
        &&& self.cells.len() == TTY_CELLS
        &&& 0 <= self.x < TTY_WIDTH
        &&& 0 <= self.y < TTY_HEIGHT
    }

    /// Whether a VGA buffer is attached.
    pub open spec fn attached(self) -> bool {
        self.vga_buffer != 0
    }
}

/// The cell showing `c` in colour attribute `theme`: only the low eight bits
/// of the character are kept.
pub open spec fn cell_of(theme: u16, c: char) -> u16 {
    theme | ((c as u32) % 256) as u16
}

/// `cells` moved up one row, with a blank last row in colour `theme`.
pub open spec fn scrolled(cells: Seq<u16>, theme: u16) -> Seq<u16> {
    cells.subrange(TTY_WIDTH as int, TTY_CELLS as int) + Seq::new(TTY_WIDTH as nat, |i: int| theme)
}

/// The console after scrolling up one row.
pub open spec fn scroll_up_spec(v: TtyView) -> TtyView {
    if v.attached() {
        TtyView {
            cells: scrolled(v.cells, v.theme_color),
            y: if v.y == 0 {
                0
            } else {
                TTY_HEIGHT - 1
            },
            ..v
        }
    } else {
        v
    }
}

/// The console after writing `c`: a tab moves four columns, a newline to
/// the start of the next row, a carriage return to the start of the row;
/// any other character is drawn at the cursor, which moves one column. A
/// cursor past the last column wraps to the next row, and a cursor past the
/// last row scrolls the console up.
pub open spec fn put_char_spec(v: TtyView, c: char) -> TtyView {
    if !v.attached() {
        v
    } else {
        let (cells, x, y) = if c == '\t' {
            (v.cells, v.x + 4, v.y)
        } else if c == '\n' {
            (v.cells, 0, v.y + 1)
        } else if c == '\r' {
            (v.cells, 0, v.y)
        } else {
            (v.cells.update(v.x + v.y * TTY_WIDTH, cell_of(v.theme_color, c)), v.x + 1, v.y)
        };
        let (x, y) = if x >= TTY_WIDTH {
            (0, y + 1)
        } else {
            (x, y)
        };
        let moved = TtyView { cells, x, y, ..v };
        if y >= TTY_HEIGHT {
            scroll_up_spec(moved)
        } else {
            moved
        }
    }
}

/// The console after writing the characters of `cs` in order.
pub open spec fn put_str_spec(v: TtyView, cs: Seq<char>) -> TtyView
    decreases cs.len(),
{
    if cs.len() == 0 {
        v
    } else {
        put_char_spec(put_str_spec(v, cs.drop_last()), cs.last())
    }
}

impl TTYState {
    /// A console attached to no buffer, with black on black and the cursor
    /// at the top left.
    pub fn new() -> (r: TTYState)
        ensures
            r@.wf(),
            !r@.attached(),
            r@.theme_color == 0,
            r@.x == 0 && r@.y == 0,
            r@.cells == Seq::new(TTY_CELLS as nat, |i: int| 0u16),
    {
        TTYState {
            vga_buffer: 0,
            cells: vec![0u16; TTY_CELLS],
            theme_color: (VGA_COLOR_BLACK as VgaAttribute) * 256,
            x: 0,
            y: 0,
        }
    }
}

/// Attaches the console to the VGA buffer at `vga_buf` and clears it.
pub fn tty_init(tty: &mut TTYState, vga_buf: usize)
    requires
        old(tty)@.wf(),
    ensures
        final(tty)@ == clear_spec(TtyView { vga_buffer: vga_buf, ..old(tty)@ }),
{
    tty_set_buffer(tty, vga_buf);
    tty_clear(tty);
}

/// Attaches the console to the VGA buffer at `vga_buf`; 0 detaches it.
pub fn tty_set_buffer(tty: &mut TTYState, vga_buf: usize)
    ensures
        final(tty)@ == (TtyView { vga_buffer: vga_buf, ..old(tty)@ }),
{
    tty.vga_buffer = vga_buf;
}

/// Sets the theme to foreground `fg` on background `bg`.
pub fn tty_set_theme(tty: &mut TTYState, fg: u8, bg: u8)
    ensures
        final(tty)@ == (TtyView { theme_color: ((bg << 4u8 | fg) as u16) << 8u16, ..old(tty)@ }),
{
    tty.theme_color = ((bg << 4 | fg) as VgaAttribute) << 8;
}

/// The console after clearing it.
pub open spec fn clear_spec(v: TtyView) -> TtyView {
    if v.attached() {
        TtyView {
            cells: Seq::new(TTY_CELLS as nat, |i: int| v.theme_color),
            x: 0,
            y: 0,
            ..v
        }
    } else {
        v
    }
}

/// Fills every cell with the theme colour and moves the cursor to the top
/// left.
pub fn tty_clear(tty: &mut TTYState)
    requires
        old(tty)@.wf(),
    ensures
        final(tty)@ == clear_spec(old(tty)@),
{
    if tty.vga_buffer != 0 {
        let mut i: usize = 0;
        while i < TTY_CELLS
            invariant
                i <= TTY_CELLS,
                tty.cells@.len() == TTY_CELLS,
                tty.vga_buffer == old(tty).vga_buffer,
                tty.theme_color == old(tty).theme_color,
                forall|k: int| 0 <= k < i ==> #[trigger] tty.cells@[k] == tty.theme_color,
            decreases TTY_CELLS - i,
        {
            tty.cells[i] = tty.theme_color;
            i = i + 1;
        }
        tty.x = 0;
        tty.y = 0;
        assert(tty.cells@ =~= Seq::new(TTY_CELLS as nat, |k: int| tty.theme_color));
    }
}

/// Fills row `y` with the theme colour.
pub fn tty_clear_line(tty: &mut TTYState, y: usize)
    requires
        old(tty)@.wf(),
        y < TTY_HEIGHT,
    ensures
        final(tty)@ == if old(tty)@.attached() {
            TtyView {
                cells: Seq::new(
                    TTY_CELLS as nat,
                    |k: int|
                        if y * TTY_WIDTH <= k < (y + 1) * TTY_WIDTH {
                            old(tty)@.theme_color
                        } else {
                            old(tty)@.cells[k]
                        },
                ),
                ..old(tty)@
            }
        } else {
            old(tty)@
        },
{
    if tty.vga_buffer != 0 {
        let ghost start = tty.cells@;
        let mut i: usize = 0;
        while i < TTY_WIDTH
            invariant
                i <= TTY_WIDTH,
                y < TTY_HEIGHT,
                tty.cells@.len() == TTY_CELLS,
                start == old(tty).cells@,
                tty.vga_buffer == old(tty).vga_buffer,
                tty.theme_color == old(tty).theme_color,
                tty.x == old(tty).x && tty.y == old(tty).y,
                forall|k: int|
                    0 <= k < TTY_CELLS ==> #[trigger] tty.cells@[k] == if y * TTY_WIDTH <= k < y
                        * TTY_WIDTH + i {
                        tty.theme_color
                    } else {
                        start[k]
                    },
            decreases TTY_WIDTH - i,
        {
            tty.cells[i + y * TTY_WIDTH] = tty.theme_color;
            i = i + 1;
        }
        assert(tty.cells@ =~= Seq::new(
            TTY_CELLS as nat,
            |k: int|
                if y * TTY_WIDTH <= k < (y + 1) * TTY_WIDTH {
                    old(tty)@.theme_color
                } else {
                    old(tty)@.cells[k]
                },
        ));
    }
}

/// Moves the cursor to column `x` and row `y`, each wrapped onto the grid.
pub fn tty_set_cpos(tty: &mut TTYState, x: usize, y: usize)
    ensures
        final(tty)@ == (TtyView {
            x: (x % TTY_WIDTH) as int,
            y: (y % TTY_HEIGHT) as int,
            ..old(tty)@
        }),
{
    tty.x = x % TTY_WIDTH;
    tty.y = y % TTY_HEIGHT;
}

/// The cursor's column and row.
pub fn tty_get_cpos(tty: &TTYState) -> (r: (usize, usize))
    ensures
        r == (tty.x, tty.y),
{
    (tty.x, tty.y)
}

/// The current colour attribute.
pub fn tty_get_theme(tty: &TTYState) -> (r: VgaAttribute)
    ensures
        r == tty.theme_color,
{
    tty.theme_color
}

/// Moves every row up by one and blanks the last row; the cursor goes to
/// the last row unless it was on the first.
pub fn tty_scroll_up(tty: &mut TTYState)
    requires
        old(tty)@.wf(),
    ensures
        final(tty)@ == scroll_up_spec(old(tty)@),
        final(tty)@.wf(),
{
    if tty.vga_buffer != 0 {
        let last_line = TTY_WIDTH * (TTY_HEIGHT - 1);
        let ghost start = tty.cells@;
        let mut i: usize = 0;
        while i < last_line
            invariant
                last_line == TTY_CELLS - TTY_WIDTH,
                i <= last_line,
                tty.cells@.len() == TTY_CELLS,
                start == old(tty).cells@,
                tty.vga_buffer == old(tty).vga_buffer,
                tty.theme_color == old(tty).theme_color,
                tty.x == old(tty).x && tty.y == old(tty).y,
                forall|k: int| 0 <= k < i ==> #[trigger] tty.cells@[k] == start[k + TTY_WIDTH],
                forall|k: int| i <= k < TTY_CELLS ==> #[trigger] tty.cells@[k] == start[k],
            decreases last_line - i,
        {
            let c = tty.cells[i + TTY_WIDTH];
            tty.cells[i] = c;
            i = i + 1;
        }
        let mut i: usize = 0;
        while i < TTY_WIDTH
            invariant
                last_line == TTY_CELLS - TTY_WIDTH,
                i <= TTY_WIDTH,
                tty.cells@.len() == TTY_CELLS,
                start == old(tty).cells@,
                tty.vga_buffer == old(tty).vga_buffer,
                tty.theme_color == old(tty).theme_color,
                tty.x == old(tty).x && tty.y == old(tty).y,
                forall|k: int| 0 <= k < last_line ==> #[trigger] tty.cells@[k] == start[k + TTY_WIDTH],
                forall|k: int|
                    last_line <= k < last_line + i ==> #[trigger] tty.cells@[k] == tty.theme_color,
            decreases TTY_WIDTH - i,
        {
            tty.cells[i + last_line] = tty.theme_color;
            i = i + 1;
        }
        tty.y = if tty.y == 0 {
            0
        } else {
            TTY_HEIGHT - 1
        };
        assert(tty.cells@ =~= scrolled(start, tty.theme_color));
    }
}

/// Writes `chr` at the cursor; see `put_char_spec`.
pub fn tty_put_char(tty: &mut TTYState, chr: char)
    requires
        old(tty)@.wf(),
    ensures
        final(tty)@ == put_char_spec(old(tty)@, chr),
        final(tty)@.wf(),
{
    if tty.vga_buffer != 0 {
        if chr == '\t' {
            tty.x = tty.x + 4;
        } else if chr == '\n' {
            tty.y = tty.y + 1;
            tty.x = 0;
        } else if chr == '\r' {
            tty.x = 0;
        } else {
            let offset = tty.x + tty.y * TTY_WIDTH;
            tty.cells[offset] = tty.theme_color | ((chr as u32) % 256) as VgaAttribute;
            tty.x = tty.x + 1;
        }
        if tty.x >= TTY_WIDTH {
            tty.x = 0;
            tty.y = tty.y + 1;
        }
        if tty.y >= TTY_HEIGHT {
            tty_scroll_up_from(tty);
        }
    }
}

/// Scrolls a console whose cursor has just moved one row past the grid.
fn tty_scroll_up_from(tty: &mut TTYState)
    requires
        old(tty)@.cells.len() == TTY_CELLS,
        0 <= old(tty)@.x < TTY_WIDTH,
        old(tty)@.y == TTY_HEIGHT,
        old(tty)@.attached(),
    ensures
        final(tty)@ == scroll_up_spec(old(tty)@),
        final(tty)@.wf(),
{
    tty.y = TTY_HEIGHT - 1;
    tty_scroll_up(tty);
    tty.y = TTY_HEIGHT - 1;
}

/// Writes the characters of `s` in order; see `put_char_spec`.
pub fn tty_put_str(tty: &mut TTYState, s: &str)
    requires
        old(tty)@.wf(),
    ensures
        final(tty)@ == put_str_spec(old(tty)@, s@),
        final(tty)@.wf(),
{
    broadcast use vstd::string::axiom_spec_iter;

    for chr in it: s.chars()
        invariant
            it.seq() == s@,
            tty@.wf(),
            tty@ == put_str_spec(old(tty)@, it.seq().take(it.index() as int)),
    {
        proof {
            assert(it.seq().take(it.index() + 1).drop_last() =~= it.seq().take(it.index() as int));
        }
        tty_put_char(tty, chr);
    }
    proof {
        assert(s@.take(s@.len() as int) =~= s@);
    }
}

} // verus!
