//! Reading a terminal screen: snapshots of it, and the codes that leave it.
use vstd::prelude::*;
use vstd::string::*;

use crate::text;

verus! {

/// The in-memory state of a terminal: a grid of cells, a cursor and modes.
#[verifier::external_type_specification]
#[verifier::external_body]
pub struct ExScreen(vt100_ctt::Screen);

/// The color of a cell.
#[derive(Clone, Copy, PartialEq, Eq, Structural, Debug)]
pub enum Color {
    /// The terminal's default.
    Default,
    /// An index into the palette of 256 colors.
    Idx(u8),
    /// Red, green and blue.
    Rgb(u8, u8, u8),
}

/// One cell of a terminal's grid.
#[derive(Debug, PartialEq, Eq)]
pub struct Cell {
    /// The characters in the cell; none in a blank one.
    pub contents: String,
    /// Whether the cell is the second half of a wide glyph.
    pub wide_continuation: bool,
    pub fg: Color,
    pub bg: Color,
    pub bold: bool,
    pub italic: bool,
    pub underline: bool,
    pub inverse: bool,
}

/// What a [`Cell`] holds.
pub ghost struct CellView {
    pub contents: Seq<char>,
    pub wide_continuation: bool,
    pub fg: Color,
    pub bg: Color,
    pub bold: bool,
    pub italic: bool,
    pub underline: bool,
    pub inverse: bool,
}

impl View for Cell {
    type V = CellView;

    open spec fn view(&self) -> CellView {
        CellView {
            contents: self.contents@,
            wide_continuation: self.wide_continuation,
            fg: self.fg,
            bg: self.bg,
            bold: self.bold,
            italic: self.italic,
            underline: self.underline,
            inverse: self.inverse,
        }
    }
}

/// What the terminal reports of the mouse.
#[derive(Clone, Copy, PartialEq, Eq, Structural, Debug)]
pub enum MouseMode {
    Off,
    Press,
    PressRelease,
    ButtonMotion,
    AnyMotion,
}

/// How the terminal encodes what it reports of the mouse.
#[derive(Clone, Copy, PartialEq, Eq, Structural, Debug)]
pub enum MouseEncoding {
    Default,
    Utf8,
    Sgr,
}

/// The modes that change what a terminal sends as input.
#[derive(Clone, Copy, PartialEq, Eq, Structural, Debug)]
pub struct InputModes {
    pub application_keypad: bool,
    pub application_cursor: bool,
    pub bracketed_paste: bool,
    pub mouse: MouseMode,
    pub encoding: MouseEncoding,
}

/// The number of rows and columns of a screen.
pub uninterp spec fn screen_size(screen: vt100_ctt::Screen) -> (u16, u16);

/// The cells of a screen, by row and column.
pub uninterp spec fn screen_cells(screen: vt100_ctt::Screen) -> Map<(u16, u16), CellView>;

/// The row and column of a screen's cursor.
pub uninterp spec fn screen_cursor(screen: vt100_ctt::Screen) -> (u16, u16);

/// Whether a screen's cursor is hidden.
pub uninterp spec fn screen_hides_cursor(screen: vt100_ctt::Screen) -> bool;

/// Whether the alternate screen is in use.
pub uninterp spec fn screen_is_alternate(screen: vt100_ctt::Screen) -> bool;

/// The input modes that a screen is in.
pub uninterp spec fn screen_modes(screen: vt100_ctt::Screen) -> InputModes;

/// `Screen::size` gives the number of rows and of columns.
#[verifier::external_body]
fn size_of_screen(screen: &vt100_ctt::Screen) -> (size: (u16, u16))
    ensures
        size == screen_size(*screen),
{
    screen.size()
}

/// `Screen::cell` gives the cell at a row and column, if there is one; its
/// colors have the three variants of [`Color`].
#[verifier::external_body]
fn cell_at(screen: &vt100_ctt::Screen, row: u16, col: u16) -> (cell: Option<Cell>)
    ensures
        match cell {
            Some(c) => screen_cells(*screen).contains_key((row, col)) && c@ == screen_cells(
                *screen,
            )[(row, col)],
            None => !screen_cells(*screen).contains_key((row, col)),
        },
{
    let color = |c| match c {
        vt100_ctt::Color::Default => Color::Default,
        vt100_ctt::Color::Idx(n) => Color::Idx(n),
        vt100_ctt::Color::Rgb(r, g, b) => Color::Rgb(r, g, b),
    };
    screen.cell(row, col).map(|c| Cell {
        contents: c.contents().to_string(), wide_continuation: c.is_wide_continuation(),
        fg: color(c.fgcolor()), bg: color(c.bgcolor()),
        bold: c.bold(), italic: c.italic(), underline: c.underline(), inverse: c.inverse(),
    })
}

/// `Screen::cursor_position` gives the cursor's row and column.
#[verifier::external_body]
fn cursor_of(screen: &vt100_ctt::Screen) -> (at: (u16, u16))
    ensures
        at == screen_cursor(*screen),
{
    screen.cursor_position()
}

/// `Screen::hide_cursor` says whether the cursor is hidden.
#[verifier::external_body]
fn hides_cursor(screen: &vt100_ctt::Screen) -> (yes: bool)
    ensures
        yes == screen_hides_cursor(*screen),
{
    screen.hide_cursor()
}

/// `Screen::alternate_screen` says whether the alternate screen is in use.
#[verifier::external_body]
fn is_alternate(screen: &vt100_ctt::Screen) -> (yes: bool)
    ensures
        yes == screen_is_alternate(*screen),
{
    screen.alternate_screen()
}

/// The modes of a terminal that nothing has been written to.
pub open spec fn initial_modes() -> InputModes {
    InputModes {
        application_keypad: false,
        application_cursor: false,
        bracketed_paste: false,
        mouse: MouseMode::Off,
        encoding: MouseEncoding::Default,
    }
}

/// `Parser::new` makes a terminal whose screen has every input mode off. It
/// counts the last row down from the number of rows, so there has to be one.
#[verifier::external_body]
fn blank_screen(rows: u16, cols: u16) -> (screen: vt100_ctt::Screen)
    requires
        rows > 0,
    ensures
        screen_modes(screen) == initial_modes(),
{
    vt100_ctt::Parser::new(rows, cols, 0).screen().clone()
}

/// The text of a string literal as ASCII bytes.
pub open spec fn ascii(s: Seq<char>) -> Seq<u8> {
    s.map_values(|c: char| c as u8)
}

/// The codes that switch off what `modes` has on.
pub open spec fn reset_codes(modes: InputModes) -> Seq<u8> {
    let keypad = if modes.application_keypad { ascii("\x1b>"@) } else { Seq::empty() };
    let cursor = if modes.application_cursor { ascii("\x1b[?1l"@) } else { Seq::empty() };
    let paste = if modes.bracketed_paste { ascii("\x1b[?2004l"@) } else { Seq::empty() };
    let mouse = match modes.mouse {
        MouseMode::Off => Seq::empty(),
        MouseMode::Press => ascii("\x1b[?9l"@),
        MouseMode::PressRelease => ascii("\x1b[?1000l"@),
        MouseMode::ButtonMotion => ascii("\x1b[?1002l"@),
        MouseMode::AnyMotion => ascii("\x1b[?1003l"@),
    };
    let encoding = match modes.encoding {
        MouseEncoding::Default => Seq::empty(),
        MouseEncoding::Utf8 => ascii("\x1b[?1005l"@),
        MouseEncoding::Sgr => ascii("\x1b[?1006l"@),
    };
    keypad + cursor + paste + mouse + encoding
}

/// `Screen::input_mode_diff` gives the codes that change the input modes of
/// `prev` to those of `screen`; for a `screen` with all modes off these are
/// the codes that switch off what `prev` has on.
#[verifier::external_body]
fn input_mode_diff(screen: &vt100_ctt::Screen, prev: &vt100_ctt::Screen) -> (codes: Vec<u8>)
    requires
        screen_modes(*screen) == initial_modes(),
    ensures
        codes@ == reset_codes(screen_modes(*prev)),
{
    screen.input_mode_diff(prev)
}

/// Appends the bytes of an ASCII text.
fn push_ascii(out: &mut Vec<u8>, s: &str)
    requires
        vstd::utf8::is_ascii_chars(s@),
    ensures
        final(out)@ == old(out)@ + ascii(s@),
{
    broadcast use is_ascii_spec_bytes;

    let bytes = s.as_bytes();
    assert(s.is_ascii());
    assert(bytes@ =~= ascii(s@));
    out.extend_from_slice(bytes);
}

/// The codes that return the outer terminal to normal: `resets` for the input
/// modes, leaving the alternate screen and showing the cursor where needed,
/// and always plain text and no focus reports.
pub open spec fn unwound(resets: Seq<u8>, alternate: bool, hidden: bool) -> Seq<u8> {
    resets + (if alternate { ascii("\x1b[?1049l"@) } else { Seq::empty() }) + (if hidden {
        ascii("\x1b[?25h"@)
    } else {
        Seq::empty()
    }) + ascii("\x1b[m"@) + ascii("\x1b[?1004l"@)
}

/// Completes the input mode resets to the codes that leave a terminal.
pub fn unwind_from(resets: Vec<u8>, alternate: bool, hidden: bool) -> (codes: Vec<u8>)
    ensures
        codes@ == unwound(resets@, alternate, hidden),
{
    let mut out = resets;
    proof {
        reveal_strlit("\x1b[?1049l");
        reveal_strlit("\x1b[?25h");
        reveal_strlit("\x1b[m");
        reveal_strlit("\x1b[?1004l");
    }
    if alternate {
        push_ascii(&mut out, "\x1b[?1049l");
    }
    if hidden {
        push_ascii(&mut out, "\x1b[?25h");
    }
    push_ascii(&mut out, "\x1b[m");
    push_ascii(&mut out, "\x1b[?1004l");
    out
}

/// The escape sequences that return the outer terminal to a normal state
/// when a client leaves the session behind `live`.
pub fn unwind_codes(live: &vt100_ctt::Screen) -> (codes: Vec<u8>)
    ensures
        codes@ == unwound(
            reset_codes(screen_modes(*live)),
            screen_is_alternate(*live),
            screen_hides_cursor(*live),
        ),
{
    let (rows, cols) = size_of_screen(live);
    // The modes of a blank screen do not depend on its size, so one row
    // stands in for a screen without any.
    let clean = blank_screen(if rows == 0 { 1 } else { rows }, cols);
    unwind_from(input_mode_diff(&clean, live), is_alternate(live), hides_cursor(live))
}

/// One cell of a snapshot.
#[derive(Debug, PartialEq, Eq)]
pub struct ScreenCell {
    pub ch: char,
    pub fg: Option<String>,
    pub bg: Option<String>,
    pub bold: bool,
    pub italic: bool,
    pub underline: bool,
    pub reverse: bool,
}

/// What a [`ScreenCell`] says.
pub ghost struct ScreenCellView {
    pub ch: char,
    pub fg: Option<Seq<char>>,
    pub bg: Option<Seq<char>>,
    pub bold: bool,
    pub italic: bool,
    pub underline: bool,
    pub reverse: bool,
}

impl View for ScreenCell {
    type V = ScreenCellView;

    open spec fn view(&self) -> ScreenCellView {
        ScreenCellView {
            ch: self.ch,
            fg: text::optional(self.fg),
            bg: text::optional(self.bg),
            bold: self.bold,
            italic: self.italic,
            underline: self.underline,
            reverse: self.reverse,
        }
    }
}

/// One row of a snapshot.
#[derive(Debug, PartialEq, Eq)]
pub struct ScreenRow {
    pub cells: Vec<ScreenCell>,
}

impl View for ScreenRow {
    type V = Seq<ScreenCellView>;

    open spec fn view(&self) -> Seq<ScreenCellView> {
        self.cells@.map_values(|c: ScreenCell| c@)
    }
}

/// A read-only picture of a terminal screen.
#[derive(Debug, PartialEq, Eq)]
pub struct ScreenSnapshot {
    pub rows: u16,
    pub cols: u16,
    pub cursor_row: Option<u16>,
    pub cursor_col: Option<u16>,
    pub lines: Vec<ScreenRow>,
}

impl ScreenSnapshot {
    /// The cells of the snapshot, row by row.
    pub open spec fn grid(&self) -> Seq<Seq<ScreenCellView>> {
        self.lines@.map_values(|r: ScreenRow| r@)
    }
}

/// The digits of a hexadecimal numeral.
pub open spec fn hex_char(d: nat) -> char {
    if d < 10 {
        (('0' as u32) + d) as char
    } else {
        (('a' as u32) + d - 10) as char
    }
}

/// A byte as two hexadecimal digits.
pub open spec fn hex_byte(b: u8) -> Seq<char> {
    seq![hex_char(b as nat / 16), hex_char(b as nat % 16)]
}

fn hex_digit(d: u8) -> (c: char)
    requires
        d < 16,
    ensures
        c == hex_char(d as nat),
{
    if d < 10 {
        (48u8 + d) as char
    } else {
        (97u8 + (d - 10)) as char
    }
}

fn push_hex(out: &mut String, b: u8)
    ensures
        final(out)@ == old(out)@ + hex_byte(b),
{
    out.push(hex_digit(b / 16));
    out.push(hex_digit(b % 16));
    assert(out@ =~= old(out)@ + hex_byte(b));
}

/// A color as snapshots spell it: `idx:<n>`, `#rrggbb`, or nothing for the
/// terminal's default.
pub open spec fn color_text(color: Color) -> Option<Seq<char>> {
    match color {
        Color::Default => None,
        Color::Idx(n) => Some("idx:"@ + text::decimal_text(n as nat)),
        Color::Rgb(r, g, b) => Some("#"@ + hex_byte(r) + hex_byte(g) + hex_byte(b)),
    }
}

/// Spells a color the way snapshots do.
pub fn wire_color(color: Color) -> (spelled: Option<String>)
    ensures
        text::optional(spelled) == color_text(color),
{
    match color {
        Color::Default => None,
        Color::Idx(n) => {
            let mut s = "idx:".to_owned();
            s.append(text::decimal(n as u128).as_str());
            Some(s)
        },
        Color::Rgb(r, g, b) => {
            let mut s = "#".to_owned();
            push_hex(&mut s, r);
            push_hex(&mut s, g);
            push_hex(&mut s, b);
            Some(s)
        },
    }
}

/// What a screen shows: its size, its cursor unless that is hidden, and its
/// cells row by row, with `None` where it has no cell.
pub struct Grid {
    pub rows: u16,
    pub cols: u16,
    pub cursor: Option<(u16, u16)>,
    pub cells: Vec<Vec<Option<Cell>>>,
}

/// What a cell of a [`Grid`] holds.
pub open spec fn cell_view(c: Option<Cell>) -> Option<CellView> {
    match c {
        Some(c) => Some(c@),
        None => None,
    }
}

impl Grid {
    /// The grid has a place for each row and column.
    pub open spec fn wf(&self) -> bool {
        &&& self.cells@.len() == self.rows
        &&& forall|r: int| 0 <= r < self.rows ==> (#[trigger] self.cells@[r])@.len() == self.cols
    }

    /// The cells, row by row.
    pub open spec fn rows_view(&self) -> Seq<Seq<Option<CellView>>> {
        self.cells@.map_values(
            |row: Vec<Option<Cell>>| row@.map_values(|c: Option<Cell>| cell_view(c)),
        )
    }
}

/// The cell of a snapshot that stands for a cell of the grid: the first of its
/// characters, or a space.
pub open spec fn shown(c: Option<CellView>) -> ScreenCellView {
    match c {
        Some(cell) => ScreenCellView {
            ch: if cell.contents.len() > 0 { cell.contents[0] } else { ' ' },
            fg: color_text(cell.fg),
            bg: color_text(cell.bg),
            bold: cell.bold,
            italic: cell.italic,
            underline: cell.underline,
            reverse: cell.inverse,
        },
        None => ScreenCellView {
            ch: ' ',
            fg: None,
            bg: None,
            bold: false,
            italic: false,
            underline: false,
            reverse: false,
        },
    }
}

/// Whether a cell is only the second half of the glyph before it.
pub open spec fn is_second_half(c: Option<CellView>) -> bool {
    c is Some && c->0.wide_continuation
}

/// The cells that a snapshot shows of a row: all but the second halves of wide
/// glyphs, so that the row keeps its display width.
pub open spec fn shown_row(row: Seq<Option<CellView>>) -> Seq<ScreenCellView> {
    row.filter(|c: Option<CellView>| !is_second_half(c)).map_values(
        |c: Option<CellView>| shown(c),
    )
}

/// The first character of a text, if it has one.
fn first_char(s: &str) -> (c: Option<char>)
    ensures
        s@.len() == 0 ==> c is None,
        s@.len() > 0 ==> c == Some(s@[0]),
{
    if s.is_empty() {
        None
    } else {
        Some(s.get_char(0))
    }
}

/// Shows one cell of the grid.
fn show(c: &Option<Cell>) -> (out: ScreenCell)
    ensures
        out@ == shown(cell_view(*c)),
{
    match c {
        Some(cell) => ScreenCell {
            ch: match first_char(cell.contents.as_str()) {
                Some(ch) => ch,
                None => ' ',
            },
            fg: wire_color(cell.fg),
            bg: wire_color(cell.bg),
            bold: cell.bold,
            italic: cell.italic,
            underline: cell.underline,
            reverse: cell.inverse,
        },
        None => ScreenCell {
            ch: ' ',
            fg: None,
            bg: None,
            bold: false,
            italic: false,
            underline: false,
            reverse: false,
        },
    }
}

/// Shows one row of the grid.
fn show_row(row: &Vec<Option<Cell>>) -> (out: ScreenRow)
    ensures
        out@ == shown_row(row@.map_values(|c: Option<Cell>| cell_view(c))),
{
    broadcast use vstd::seq_lib::group_filter_ensures;

    let ghost all = row@.map_values(|c: Option<Cell>| cell_view(c));
    let ghost keep = |c: Option<CellView>| !is_second_half(c);
    let mut cells: Vec<ScreenCell> = Vec::new();
    let mut i: usize = 0;
    while i < row.len()
        invariant
            i <= row@.len(),
            all == row@.map_values(|c: Option<Cell>| cell_view(c)),
            keep == (|c: Option<CellView>| !is_second_half(c)),
            cells@.map_values(|c: ScreenCell| c@) == shown_row(all.take(i as int)),
        decreases row@.len() - i,
    {
        let second_half = match &row[i] {
            Some(c) => c.wide_continuation,
            None => false,
        };
        proof {
            let now = all.take(i + 1);
            assert(now.drop_last() =~= all.take(i as int));
            assert(now.last() == all[i as int]);
            reveal(Seq::filter);
            assert(now.filter(keep) == if keep(now.last()) {
                now.drop_last().filter(keep).push(now.last())
            } else {
                now.drop_last().filter(keep)
            });
        }
        if !second_half {
            let ghost before = cells@;
            cells.push(show(&row[i]));
            proof {
                assert(cells@.map_values(|c: ScreenCell| c@) =~= before.map_values(
                    |c: ScreenCell| c@,
                ).push(shown(all[i as int])));
                assert(shown_row(all.take(i + 1)) =~= shown_row(all.take(i as int)).push(
                    shown(all[i as int]),
                ));
            }
        }
        i = i + 1;
    }
    assert(all.take(i as int) =~= all);
    ScreenRow { cells }
}

/// Takes a picture of what a screen shows. The cursor is left out where the
/// screen hides it.
pub fn snapshot_of(grid: &Grid) -> (snapshot: ScreenSnapshot)
    ensures
        snapshot.rows == grid.rows,
        snapshot.cols == grid.cols,
        match grid.cursor {
            Some((row, col)) => snapshot.cursor_row == Some(row) && snapshot.cursor_col == Some(
                col,
            ),
            None => snapshot.cursor_row is None && snapshot.cursor_col is None,
        },
        snapshot.grid() == grid.rows_view().map_values(
            |row: Seq<Option<CellView>>| shown_row(row),
        ),
{
    let mut lines: Vec<ScreenRow> = Vec::new();
    let mut i: usize = 0;
    while i < grid.cells.len()
        invariant
            i <= grid.cells@.len(),
            lines@.len() == i,
            forall|k: int| 0 <= k < i ==> (#[trigger] lines@[k])@ == shown_row(grid.rows_view()[k]),
        decreases grid.cells@.len() - i,
    {
        lines.push(show_row(&grid.cells[i]));
        i = i + 1;
    }
    let (cursor_row, cursor_col) = match grid.cursor {
        Some((row, col)) => (Some(row), Some(col)),
        None => (None, None),
    };
    let snapshot = ScreenSnapshot {
        rows: grid.rows,
        cols: grid.cols,
        cursor_row,
        cursor_col,
        lines,
    };
    assert(snapshot.grid() =~= grid.rows_view().map_values(
        |row: Seq<Option<CellView>>| shown_row(row),
    ));
    snapshot
}

/// The cell of a screen at a row and column, if it has one.
pub open spec fn cell_of_screen(screen: vt100_ctt::Screen, row: int, col: int) -> Option<CellView> {
    if screen_cells(screen).contains_key((row as u16, col as u16)) {
        Some(screen_cells(screen)[(row as u16, col as u16)])
    } else {
        None
    }
}

/// All cells of a screen, row by row.
pub open spec fn screen_rows(screen: vt100_ctt::Screen) -> Seq<Seq<Option<CellView>>> {
    Seq::new(
        screen_size(screen).0 as nat,
        |row: int|
            Seq::new(screen_size(screen).1 as nat, |col: int| cell_of_screen(screen, row, col)),
    )
}

/// Reads one row of a screen.
fn read_row(screen: &vt100_ctt::Screen, row: u16, cols: u16) -> (cells: Vec<Option<Cell>>)
    ensures
        cells@.map_values(|c: Option<Cell>| cell_view(c)) == Seq::new(
            cols as nat,
            |col: int| cell_of_screen(*screen, row as int, col),
        ),
{
    let mut cells: Vec<Option<Cell>> = Vec::new();
    let mut col: u16 = 0;
    while col < cols
        invariant
            col <= cols,
            cells@.len() == col,
            forall|k: int|
                0 <= k < col ==> cell_view(#[trigger] cells@[k]) == cell_of_screen(
                    *screen,
                    row as int,
                    k,
                ),
        decreases cols - col,
    {
        cells.push(cell_at(screen, row, col));
        col = col + 1;
    }
    assert(cells@.map_values(|c: Option<Cell>| cell_view(c)) =~= Seq::new(
        cols as nat,
        |col: int| cell_of_screen(*screen, row as int, col),
    ));
    cells
}

/// Reads what a screen shows.
pub fn read_grid(screen: &vt100_ctt::Screen) -> (grid: Grid)
    ensures
        grid.wf(),
        (grid.rows, grid.cols) == screen_size(*screen),
        grid.cursor == (if screen_hides_cursor(*screen) {
            None
        } else {
            Some(screen_cursor(*screen))
        }),
        grid.rows_view() == screen_rows(*screen),
{
    let (rows, cols) = size_of_screen(screen);
    let mut cells: Vec<Vec<Option<Cell>>> = Vec::new();
    let mut row: u16 = 0;
    while row < rows
        invariant
            row <= rows,
            (rows, cols) == screen_size(*screen),
            cells@.len() == row,
            forall|k: int|
                0 <= k < row ==> (#[trigger] cells@[k])@.map_values(
                    |c: Option<Cell>| cell_view(c),
                ) == screen_rows(*screen)[k],
        decreases rows - row,
    {
        cells.push(read_row(screen, row, cols));
        row = row + 1;
    }
    let cursor = if hides_cursor(screen) {
        None
    } else {
        Some(cursor_of(screen))
    };
    let grid = Grid { rows, cols, cursor, cells };
    assert(grid.rows_view() =~= screen_rows(*screen));
    assert forall|r: int| 0 <= r < grid.rows implies (#[trigger] grid.cells@[r])@.len()
        == grid.cols by {
        assert(grid.cells@[r]@.map_values(|c: Option<Cell>| cell_view(c)).len()
            == screen_rows(*screen)[r].len());
    }
    grid
}

/// Converts a terminal screen into a snapshot. The second halves of wide
/// glyphs are dropped: whoever flattens the cells into text counts a wide
/// glyph as two columns already.
pub fn screen_to_snapshot(screen: &vt100_ctt::Screen) -> (snapshot: ScreenSnapshot)
    ensures
        (snapshot.rows, snapshot.cols) == screen_size(*screen),
        snapshot.cursor_row is Some <==> !screen_hides_cursor(*screen),
        snapshot.cursor_col is Some <==> !screen_hides_cursor(*screen),
        !screen_hides_cursor(*screen) ==> (snapshot.cursor_row->0, snapshot.cursor_col->0)
            == screen_cursor(*screen),
        snapshot.grid() == screen_rows(*screen).map_values(
            |row: Seq<Option<CellView>>| shown_row(row),
        ),
{
    snapshot_of(&read_grid(screen))
}

/// A cell is shown with the first of its characters, in its own colors, and each
/// of its looks under its own name; a cell without a character, and a place
/// without a cell, are blank.
pub proof fn law_a_cell_is_shown_as_it_is(cell: CellView)
    ensures
        cell.contents.len() > 0 ==> shown(Some(cell)).ch == cell.contents[0],
        cell.contents.len() == 0 ==> shown(Some(cell)).ch == ' ',
        shown(Some(cell)).fg == color_text(cell.fg),
        shown(Some(cell)).bg == color_text(cell.bg),
        shown(Some(cell)).bold == cell.bold,
        shown(Some(cell)).italic == cell.italic,
        shown(Some(cell)).underline == cell.underline,
        shown(Some(cell)).reverse == cell.inverse,
        shown(None).ch == ' ',
        shown(None).fg is None && shown(None).bg is None,
        !shown(None).bold && !shown(None).italic && !shown(None).underline
            && !shown(None).reverse,
{
}

/// The number that a hexadecimal digit in lower case stands for.
pub open spec fn hex_value(c: char) -> int {
    if '0' <= c <= '9' {
        c as int - '0' as int
    } else {
        c as int - 'a' as int + 10
    }
}

/// The default color is not spelled. A color of the palette is spelled by its
/// number, and any other by its red, green and blue, in this order, each with
/// two digits that read back as what it was.
pub proof fn law_a_color_is_spelled_by_its_parts(n: u8, r: u8, g: u8, b: u8)
    ensures
        color_text(Color::Default) is None,
        color_text(Color::Idx(n)) == Some("idx:"@ + text::decimal_text(n as nat)),
        color_text(Color::Rgb(r, g, b)) is Some,
        ({
            let s = color_text(Color::Rgb(r, g, b))->0;
            &&& s.len() == 7
            &&& s[0] == '#'
            &&& hex_value(s[1]) * 16 + hex_value(s[2]) == r
            &&& hex_value(s[3]) * 16 + hex_value(s[4]) == g
            &&& hex_value(s[5]) * 16 + hex_value(s[6]) == b
            &&& forall|i: int|
                1 <= i < 7 ==> '0' <= #[trigger] s[i] <= '9' || 'a' <= s[i] <= 'f'
        }),
{
    reveal_strlit("#");
    lemma_hex_byte(r);
    lemma_hex_byte(g);
    lemma_hex_byte(b);
}

proof fn lemma_hex_byte(b: u8)
    ensures
        hex_byte(b).len() == 2,
        hex_value(hex_byte(b)[0]) * 16 + hex_value(hex_byte(b)[1]) == b,
        '0' <= hex_byte(b)[0] <= '9' || 'a' <= hex_byte(b)[0] <= 'f',
        '0' <= hex_byte(b)[1] <= '9' || 'a' <= hex_byte(b)[1] <= 'f',
{
    let high = b as nat / 16;
    let low = b as nat % 16;
    assert(high < 16 && low < 16);
    assert(hex_value(hex_char(high)) == high);
    assert(hex_value(hex_char(low)) == low);
}

/// A row is shown cell by cell, in order, and only the second half of a wide
/// glyph is left out.
pub proof fn law_a_row_is_shown_cell_by_cell(row: Seq<Option<CellView>>, c: Option<CellView>)
    ensures
        shown_row(Seq::empty()).len() == 0,
        c is Some && c->0.wide_continuation ==> shown_row(row.push(c)) == shown_row(row),
        c is None || !c->0.wide_continuation ==> shown_row(row.push(c)) == shown_row(row).push(
            shown(c),
        ),
{
    reveal(Seq::filter);
    let keep = |c: Option<CellView>| !is_second_half(c);
    let all = row.push(c);
    assert(all.drop_last() =~= row);
    assert(all.filter(keep) == if keep(all.last()) {
        all.drop_last().filter(keep).push(all.last())
    } else {
        all.drop_last().filter(keep)
    });
    if c is None || !c->0.wide_continuation {
        assert(shown_row(all) =~= shown_row(row).push(shown(c)));
    }
}

proof fn lemma_narrow_row(row: Seq<Option<CellView>>)
    requires
        forall|i: int| 0 <= i < row.len() ==> !is_second_half(#[trigger] row[i]),
    ensures
        shown_row(row) == row.map_values(|c: Option<CellView>| shown(c)),
    decreases row.len(),
{
    if row.len() > 0 {
        let before = row.drop_last();
        assert forall|i: int| 0 <= i < before.len() implies !is_second_half(
            #[trigger] before[i],
        ) by {
            assert(before[i] == row[i]);
        }
        lemma_narrow_row(before);
        assert(!is_second_half(row[row.len() - 1]));
        assert(before.push(row.last()) =~= row);
        law_a_row_is_shown_cell_by_cell(before, row.last());
    } else {
        assert(row =~= Seq::empty());
        law_a_row_is_shown_cell_by_cell(row, None);
    }
    assert(shown_row(row) =~= row.map_values(|c: Option<CellView>| shown(c)));
}

/// A snapshot has the screen's size, its cursor unless that is hidden, and a line
/// for each row; a row without wide glyphs is there column by column.
pub proof fn law_a_snapshot_shows_the_screen(
    screen: &vt100_ctt::Screen,
    snapshot: ScreenSnapshot,
    row: int,
    col: int,
)
    requires
        call_ensures(screen_to_snapshot, (screen,), snapshot),
        0 <= row < screen_size(*screen).0,
        0 <= col < screen_size(*screen).1,
        forall|c: u16|
            #![trigger screen_cells(*screen)[(row as u16, c)]]
            screen_cells(*screen).contains_key((row as u16, c)) ==> !screen_cells(*screen)[(
                row as u16,
                c,
            )].wide_continuation,
    ensures
        snapshot.rows == screen_size(*screen).0,
        snapshot.cols == screen_size(*screen).1,
        screen_hides_cursor(*screen) ==> snapshot.cursor_row is None && snapshot.cursor_col is None,
        !screen_hides_cursor(*screen) ==> snapshot.cursor_row == Some(screen_cursor(*screen).0)
            && snapshot.cursor_col == Some(screen_cursor(*screen).1),
        snapshot.lines@.len() == snapshot.rows,
        snapshot.lines@[row].cells@.len() == snapshot.cols,
        screen_cells(*screen).contains_key((row as u16, col as u16))
            ==> snapshot.lines@[row].cells@[col]@ == shown(
            Some(screen_cells(*screen)[(row as u16, col as u16)]),
        ),
        !screen_cells(*screen).contains_key((row as u16, col as u16))
            ==> snapshot.lines@[row].cells@[col]@ == shown(None),
{
    let all = screen_rows(*screen);
    let cells = all[row];
    assert(snapshot.grid().len() == snapshot.lines@.len());
    assert(snapshot.grid()[row] == snapshot.lines@[row]@);
    assert(snapshot.grid()[row] == shown_row(cells));
    assert forall|i: int| 0 <= i < cells.len() implies !is_second_half(#[trigger] cells[i]) by {
        assert(cells[i] == cell_of_screen(*screen, row, i));
    }
    lemma_narrow_row(cells);
    assert(snapshot.lines@[row]@.len() == snapshot.lines@[row].cells@.len());
    assert(snapshot.lines@[row]@[col] == snapshot.lines@[row].cells@[col]@);
    assert(cells[col] == cell_of_screen(*screen, row, col));
}

/// Leaving a terminal undoes the input modes first, then leaves the alternate
/// screen and shows the cursor where that is called for, and always ends with
/// plain text and without focus reports.
pub proof fn law_a_terminal_is_left_as_it_was(resets: Seq<u8>, alternate: bool, hidden: bool)
    ensures
        unwound(resets, alternate, hidden) == resets + (if alternate {
            seq![27u8, 91u8, 63u8, 49u8, 48u8, 52u8, 57u8, 108u8]
        } else {
            Seq::empty()
        }) + (if hidden {
            seq![27u8, 91u8, 63u8, 50u8, 53u8, 104u8]
        } else {
            Seq::empty()
        }) + seq![27u8, 91u8, 109u8] + seq![27u8, 91u8, 63u8, 49u8, 48u8, 48u8, 52u8, 108u8],
{
    reveal_strlit("\x1b[?1049l");
    reveal_strlit("\x1b[?25h");
    reveal_strlit("\x1b[m");
    reveal_strlit("\x1b[?1004l");
    assert(ascii("\x1b[?1049l"@) =~= seq![27u8, 91u8, 63u8, 49u8, 48u8, 52u8, 57u8, 108u8]);
    assert(ascii("\x1b[?25h"@) =~= seq![27u8, 91u8, 63u8, 50u8, 53u8, 104u8]);
    assert(ascii("\x1b[m"@) =~= seq![27u8, 91u8, 109u8]);
    assert(ascii("\x1b[?1004l"@) =~= seq![27u8, 91u8, 63u8, 49u8, 48u8, 48u8, 52u8, 108u8]);
}

/// A screen with every input mode off needs no code to be left, and each mode
/// that is on is switched off.
pub proof fn law_only_what_is_on_is_switched_off(modes: InputModes)
    ensures
        reset_codes(initial_modes()).len() == 0,
        reset_codes(modes).len() == 0 ==> modes == initial_modes(),
{
    reveal_strlit("\x1b>");
    reveal_strlit("\x1b[?1l");
    reveal_strlit("\x1b[?2004l");
    reveal_strlit("\x1b[?9l");
    reveal_strlit("\x1b[?1000l");
    reveal_strlit("\x1b[?1002l");
    reveal_strlit("\x1b[?1003l");
    reveal_strlit("\x1b[?1005l");
    reveal_strlit("\x1b[?1006l");
}

/// A terminal is left, a color spelled and a grid pictured as is said here.
pub proof fn law_a_screen_is_read_as_stated(
    resets: Vec<u8>,
    alternate: bool,
    hidden: bool,
    codes: Vec<u8>,
    live: &vt100_ctt::Screen,
    left: Vec<u8>,
    color: Color,
    spelled: Option<String>,
    grid: &Grid,
    snapshot: ScreenSnapshot,
    read: Grid,
)
    requires
        call_ensures(unwind_from, (resets, alternate, hidden), codes),
        call_ensures(unwind_codes, (live,), left),
        call_ensures(wire_color, (color,), spelled),
        call_ensures(snapshot_of, (grid,), snapshot),
        call_ensures(read_grid, (live,), read),
    ensures
        codes@ == unwound(resets@, alternate, hidden),
        left@ == unwound(
            reset_codes(screen_modes(*live)),
            screen_is_alternate(*live),
            screen_hides_cursor(*live),
        ),
        text::optional(spelled) == color_text(color),
        snapshot.rows == grid.rows,
        snapshot.cols == grid.cols,
        grid.cursor is None ==> snapshot.cursor_row is None && snapshot.cursor_col is None,
        grid.cursor is Some ==> snapshot.cursor_row == Some((grid.cursor->0).0)
            && snapshot.cursor_col == Some((grid.cursor->0).1),
        snapshot.lines@.len() == grid.cells@.len(),
        forall|r: int|
            0 <= r < grid.cells@.len() ==> (#[trigger] snapshot.lines@[r])@ == shown_row(
                grid.cells@[r]@.map_values(|c: Option<Cell>| cell_view(c)),
            ),
        read.rows == screen_size(*live).0 && read.cols == screen_size(*live).1,
        read.cursor is None <==> screen_hides_cursor(*live),
        read.cursor is Some ==> read.cursor->0 == screen_cursor(*live),
{
    let said = grid.rows_view().map_values(|row: Seq<Option<CellView>>| shown_row(row));
    assert(snapshot.grid().len() == snapshot.lines@.len());
    assert(said.len() == grid.cells@.len());
    assert forall|r: int| 0 <= r < grid.cells@.len() implies (#[trigger] snapshot.lines@[r])@
        == shown_row(grid.cells@[r]@.map_values(|c: Option<Cell>| cell_view(c))) by {
        assert(snapshot.grid()[r] == snapshot.lines@[r]@);
        assert(said[r] == shown_row(grid.rows_view()[r]));
    }
}

/// What a cell says is what it was made of.
pub proof fn law_a_cell_says_what_it_was_made_of(cell: Cell, told: ScreenCell, row: ScreenRow, i: int)
    ensures
        cell@.contents == cell.contents@,
        cell@.wide_continuation == cell.wide_continuation,
        cell@.fg == cell.fg && cell@.bg == cell.bg,
        cell@.bold == cell.bold && cell@.italic == cell.italic,
        cell@.underline == cell.underline && cell@.inverse == cell.inverse,
        told@.ch == told.ch,
        told@.fg == text::optional(told.fg) && told@.bg == text::optional(told.bg),
        told@.bold == told.bold && told@.italic == told.italic,
        told@.underline == told.underline && told@.reverse == told.reverse,
        row@.len() == row.cells@.len(),
        0 <= i < row.cells@.len() ==> row@[i] == row.cells@[i]@,
        cell_view(Some(cell)) == Some(cell@),
        cell_view(None) == None::<CellView>,
{
}

} // verus!
