//! The ImageWriter II protocol: the parser's state, as values, and how each
//! byte of input changes it.

use vstd::prelude::*;
use crate::digits::{parse_decimal, parse_decimal_bytes};
use crate::page::{Mark, PageBuffer, PageModel};
use crate::units::{
    add_sat, round_to_multiple, round_to_pixel, sat_add, CONTINUOUS_PAGE_HEIGHT,
    DEFAULT_PAGE_HEIGHT, DEFAULT_PAGE_WIDTH, HALF_INCH, PIXEL_X_UNITS, STEP_720, TENTH_INCH,
    X_UNITS_PER_INCH,
};

verus! {

/// Graphics density modes.
#[derive(Debug, Clone, Copy, PartialEq, Eq, Structural)]
pub enum GraphicsDensity {
    /// 72 DPI single density
    Single72,
    /// 80 DPI
    Dpi80,
    /// 96 DPI
    Dpi96,
    /// 107 DPI
    Dpi107,
    /// 120 DPI
    Dpi120,
    /// 136 DPI
    Dpi136,
    /// 144 DPI double density
    Double144,
    /// 160 DPI
    Dpi160,
}

impl GraphicsDensity {
    /// Dots per inch across the line in this density.
    pub open spec fn dpi(self) -> u64 {
        match self {
            GraphicsDensity::Single72 => 72,
            GraphicsDensity::Dpi80 => 80,
            GraphicsDensity::Dpi96 => 96,
            GraphicsDensity::Dpi107 => 107,
            GraphicsDensity::Dpi120 => 120,
            GraphicsDensity::Dpi136 => 136,
            GraphicsDensity::Double144 => 144,
            GraphicsDensity::Dpi160 => 160,
        }
    }

    /// The width of one dot, in horizontal units: exactly 1 / dpi inch
    /// (`dot_width() * dpi() == X_UNITS_PER_INCH`).
    pub open spec fn dot_width(self) -> u64 {
        match self {
            GraphicsDensity::Single72 => 36380,
            GraphicsDensity::Dpi80 => 32742,
            GraphicsDensity::Dpi96 => 27285,
            GraphicsDensity::Dpi107 => 24480,
            GraphicsDensity::Dpi120 => 21828,
            GraphicsDensity::Dpi136 => 19260,
            GraphicsDensity::Double144 => 18190,
            GraphicsDensity::Dpi160 => 16371,
        }
    }

    /// The density that the selector byte of the extended graphics command
    /// chooses: 0 to 7 in order of density, 72 DPI for any other byte.
    pub open spec fn from_selector(n: u8) -> GraphicsDensity {
        if n == 1 {
            GraphicsDensity::Dpi80
        } else if n == 2 {
            GraphicsDensity::Dpi96
        } else if n == 3 {
            GraphicsDensity::Dpi107
        } else if n == 4 {
            GraphicsDensity::Dpi120
        } else if n == 5 {
            GraphicsDensity::Dpi136
        } else if n == 6 {
            GraphicsDensity::Double144
        } else if n == 7 {
            GraphicsDensity::Dpi160
        } else {
            GraphicsDensity::Single72
        }
    }

    /// Get the horizontal DPI for this density mode.
    pub fn horizontal_dpi(self) -> (r: u64)
        ensures
            r == self.dpi(),
    {
        match self {
            GraphicsDensity::Single72 => 72,
            GraphicsDensity::Dpi80 => 80,
            GraphicsDensity::Dpi96 => 96,
            GraphicsDensity::Dpi107 => 107,
            GraphicsDensity::Dpi120 => 120,
            GraphicsDensity::Dpi136 => 136,
            GraphicsDensity::Double144 => 144,
            GraphicsDensity::Dpi160 => 160,
        }
    }

    /// The width of one dot in horizontal units.
    pub fn dot_units(self) -> (r: u64)
        ensures
            r == self.dot_width(),
            r * self.dpi() == X_UNITS_PER_INCH,
            0 < r <= 36380,
    {
        match self {
            GraphicsDensity::Single72 => 36380,
            GraphicsDensity::Dpi80 => 32742,
            GraphicsDensity::Dpi96 => 27285,
            GraphicsDensity::Dpi107 => 24480,
            GraphicsDensity::Dpi120 => 21828,
            GraphicsDensity::Dpi136 => 19260,
            GraphicsDensity::Double144 => 18190,
            GraphicsDensity::Dpi160 => 16371,
        }
    }
}

/// Cursor position on the page.
#[derive(Debug, Clone, Copy, PartialEq, Eq, Structural)]
pub struct Position {
    /// X position in horizontal units from the left edge
    pub x: u64,
    /// Y position in vertical units from the top edge
    pub y: u64,
}

impl Default for Position {
    fn default() -> (r: Position)
        ensures
            r == (Position { x: 0, y: 0 }),
    {
        Position { x: 0, y: 0 }
    }
}

/// Character rendering information.
#[derive(Debug, Clone, Copy, PartialEq, Eq, Structural)]
pub struct CharacterInfo {
    pub ch: u8,
    pub bold: bool,
    pub underline: bool,
    pub italic: bool,
    pub superscript: bool,
    pub subscript: bool,
    pub half_height: bool,
    pub double_strike: bool,
    pub cpi: u8,
    pub color: u8,
}

/// Graphics row data for rendering.
#[derive(Debug, Clone)]
pub struct GraphicsRow {
    /// Raw byte data for the row
    pub data: Vec<u8>,
    /// Horizontal density
    pub density: GraphicsDensity,
    /// X position where the row starts, in horizontal units
    pub x_start: u64,
    /// Y position of the row, in vertical units
    pub y_pos: u64,
}

/// Parser state machine states.
#[derive(Debug)]
pub enum ParserState {
    /// Normal text processing
    Normal,
    /// ESC character seen, waiting for command byte
    EscapeSeen,
    /// Collecting parameters for a command
    CollectingParams { cmd: u8, params: Vec<u8>, needed: usize },
    /// In graphics mode, collecting bitmap data
    GraphicsMode {
        density: GraphicsDensity,
        bytes_remaining: usize,
        /// Starting X position in horizontal units
        start_x: u64,
        /// Current column index (0-based)
        column: usize,
    },
}

impl Default for ParserState {
    fn default() -> (r: ParserState)
        ensures
            r@ == StateModel::Normal,
    {
        ParserState::Normal
    }
}

/// The parser's state machine state, as a value.
pub enum StateModel {
    Normal,
    EscapeSeen,
    CollectingParams { cmd: u8, params: Seq<u8>, needed: usize },
    GraphicsMode { density: GraphicsDensity, bytes_remaining: usize, start_x: u64, column: usize },
}

impl View for ParserState {
    type V = StateModel;

    open spec fn view(&self) -> StateModel {
        match self {
            ParserState::Normal => StateModel::Normal,
            ParserState::EscapeSeen => StateModel::EscapeSeen,
            ParserState::CollectingParams { cmd, params, needed } => StateModel::CollectingParams {
                cmd: *cmd,
                params: params@,
                needed: *needed,
            },
            ParserState::GraphicsMode { density, bytes_remaining, start_x, column } =>
                StateModel::GraphicsMode {
                density: *density,
                bytes_remaining: *bytes_remaining,
                start_x: *start_x,
                column: *column,
            },
        }
    }
}

/// The number of parameter bytes that the ESC command `cmd` takes, for the
/// commands that take any.
pub open spec fn param_count(cmd: u8) -> Option<usize> {
    if cmd == 0x6F || cmd == 0x48 || cmd == 0x46 || cmd == 0x47 || cmd == 0x56 || cmd == 0x67 { // 'o' 'H' 'F' 'G' 'V' 'g'
        Some(4)
    } else if cmd == 0x4C || cmd == 0x4D || cmd == 0x6C { // 'L' 'M' 'l'
        Some(3)
    } else if cmd == 0x54 { // 'T'
        Some(2)
    } else if cmd == 0x4B || cmd == 0x6E { // 'K' 'n'
        Some(1)
    } else if cmd == 0x73 { // 's'
        Some(5)
    } else {
        None
    }
}

/// The value of ASCII decimal parameter bytes, read as a `u32`.
pub open spec fn digits_u32(params: Seq<u8>) -> Option<nat> {
    parse_decimal(params, u32::MAX as nat)
}

/// The byte count of a graphics command: its first four parameter bytes read
/// as a decimal `usize`, where there are four.
pub open spec fn graphics_count(params: Seq<u8>) -> Option<nat> {
    if params.len() >= 4 {
        parse_decimal(params.take(4), usize::MAX as nat)
    } else {
        None
    }
}

/// The width of a character cell at `cpi` characters per inch, for the four
/// pitches the printer has (10, 12, 15 and 17): exactly 1 / cpi inch.
pub open spec fn pitch_width(cpi: u8) -> u64 {
    if cpi == 12 {
        218280
    } else if cpi == 15 {
        174624
    } else if cpi == 17 {
        154080
    } else {
        261936
    }
}

/// The width of a character cell at `cpi` characters per inch.
pub fn cell_width(cpi: u8) -> (w: u64)
    ensures
        w == pitch_width(cpi),
        (cpi == 10 || cpi == 12 || cpi == 15 || cpi == 17) ==> w * cpi == X_UNITS_PER_INCH,
{
    if cpi == 12 {
        218280
    } else if cpi == 15 {
        174624
    } else if cpi == 17 {
        154080
    } else {
        261936
    }
}

/// `v` held to the range of `u64`: `u64::MAX` where `v` is larger, 0 where it is negative.
pub open spec fn clamp_u64(v: int) -> u64 {
    if v > u64::MAX {
        u64::MAX
    } else if v < 0 {
        0
    } else {
        v as u64
    }
}

/// The horizontal position of graphics column `column` of a row that starts at
/// `start_x`: `start_x + column / dpi` inch.
pub open spec fn column_x(start_x: u64, column: int, density: GraphicsDensity) -> u64 {
    clamp_u64(start_x + column * density.dot_width())
}

/// The dots that graphics byte `byte` sets, pins `from` to 7 in order: bit `b`
/// set puts a dot `b / 72` inch below `y`.
pub open spec fn pin_dots(byte: u8, from: int, x: u64, y: u64, color: u8) -> Seq<Mark>
    decreases 8 - from,
{
    if from >= 8 || from < 0 {
        Seq::empty()
    } else {
        let rest = pin_dots(byte, from + 1, x, y, color);
        if byte & (1u8 << (from as u8)) != 0 {
            seq![Mark::Dot { x, y: (y + 2 * from) as u64, color }] + rest
        } else {
            rest
        }
    }
}

/// The first tab stop, in the order they are kept, that lies right of `x`.
pub open spec fn first_tab_after(tabs: Seq<u64>, x: u64) -> Option<u64>
    decreases tabs.len(),
{
    if tabs.len() == 0 {
        None
    } else if tabs[0] > x {
        Some(tabs[0])
    } else {
        first_tab_after(tabs.drop_first(), x)
    }
}

/// Tab stops every half inch, from 1/2 to 8 inches.
pub open spec fn default_tab_stops() -> Seq<u64> {
    Seq::new(16, |i: int| ((i + 1) * HALF_INCH) as u64)
}

/// A state machine state that collects no more parameters than its command
/// takes, and whose graphics row fits its column counter.
#[verifier::opaque]
pub open spec fn state_ok(state: StateModel) -> bool {
    match state {
        StateModel::CollectingParams { cmd, params, needed } => {
            &&& param_count(cmd) == Some(needed)
            &&& params.len() < needed
        },
        StateModel::GraphicsMode { bytes_remaining, column, .. } => {
            &&& column + bytes_remaining <= usize::MAX
            &&& bytes_remaining == 0 ==> column == 0
        },
        _ => true,
    }
}

/// The printer's whole state, as values.
pub struct ParserModel {
    pub state: StateModel,
    pub page: PageModel,
    pub cursor: Position,
    /// Characters per inch (10, 12, 15, 17)
    pub cpi: u8,
    /// Line spacing in vertical units
    pub line_spacing: u64,
    pub bold: bool,
    pub underline: bool,
    pub italic: bool,
    pub superscript: bool,
    pub subscript: bool,
    pub bidirectional: bool,
    pub half_height: bool,
    pub double_strike: bool,
    pub proportional: bool,
    /// The proportional setting to return to at the end of the line, where
    /// ESC o set proportional spacing for the current line only
    pub proportional_after_line: Option<bool>,
    /// Left margin in horizontal units
    pub left_margin: u64,
    /// Right margin in horizontal units
    pub right_margin: u64,
    /// Page width in horizontal units
    pub page_width: u64,
    /// Page height in vertical units
    pub page_height: u64,
    /// Top of form position in vertical units
    pub top_of_form: u64,
    pub skip_perf: u8,
    /// Current color (0 = black, 1-3 = colors for color ribbon)
    pub color: u8,
    pub graphics_density: GraphicsDensity,
    /// Tab stops in horizontal units, in the order they are searched
    pub tabs: Seq<u64>,
    /// Completed pages waiting to be output, oldest first
    pub completed_pages: Seq<PageModel>,
}

impl ParserModel {
    /// The state a new (or reset) printer is in: 10 CPI, 1/6 inch line spacing,
    /// an 8.5 by 11 inch page, margins at its edges, tab stops every half inch.
    pub open spec fn initial() -> ParserModel {
        ParserModel {
            state: StateModel::Normal,
            page: PageModel::blank(DEFAULT_PAGE_WIDTH, DEFAULT_PAGE_HEIGHT),
            cursor: Position { x: 0, y: 0 },
            cpi: 10,
            line_spacing: 24,
            bold: false,
            underline: false,
            italic: false,
            superscript: false,
            subscript: false,
            bidirectional: true,
            half_height: false,
            double_strike: false,
            proportional: false,
            proportional_after_line: None,
            left_margin: 0,
            right_margin: DEFAULT_PAGE_WIDTH,
            page_width: DEFAULT_PAGE_WIDTH,
            page_height: DEFAULT_PAGE_HEIGHT,
            top_of_form: 0,
            skip_perf: 0,
            color: 0,
            graphics_density: GraphicsDensity::Single72,
            tabs: default_tab_stops(),
            completed_pages: Seq::empty(),
        }
    }

    /// The bounds that every reachable state keeps, apart from the cursor's.
    pub open spec fn settings_ok(self) -> bool {
        &&& (self.cpi == 10 || self.cpi == 12 || self.cpi == 15 || self.cpi == 17)
        &&& self.color <= 3
        &&& self.line_spacing <= u32::MAX
        &&& self.page_height <= u32::MAX
        &&& self.top_of_form == 0
        &&& self.left_margin <= u32::MAX * TENTH_INCH
        &&& state_ok(self.state)
    }

    /// The bounds that every reachable state keeps.
    pub open spec fn wf(self) -> bool {
        &&& self.settings_ok()
        &&& self.cursor.y <= u32::MAX
    }

    /// This state with the state machine in `state`.
    pub open spec fn with_state(self, state: StateModel) -> ParserModel {
        ParserModel { state, ..self }
    }

    /// This state with the cursor at horizontal position `x`.
    pub open spec fn with_x(self, x: u64) -> ParserModel {
        ParserModel { cursor: Position { x, y: self.cursor.y }, ..self }
    }

    /// The width of a character cell at the current pitch: 1 / cpi inch.
    pub open spec fn char_width(self) -> u64 {
        pitch_width(self.cpi)
    }

    /// The character `ch` with the current print attributes.
    pub open spec fn char_info(self, ch: u8) -> CharacterInfo {
        CharacterInfo {
            ch,
            bold: self.bold,
            underline: self.underline,
            italic: self.italic,
            superscript: self.superscript,
            subscript: self.subscript,
            half_height: self.half_height,
            double_strike: self.double_strike,
            cpi: self.cpi,
            color: self.color,
        }
    }

    /// Eject the current page and start a new one: the page joins the completed
    /// pages, a blank page of the current size takes its place, and the cursor
    /// goes to the left margin at the top.
    #[verifier::opaque]
    pub open spec fn eject_page(self) -> ParserModel {
        ParserModel {
            page: PageModel::blank(self.page_width, self.page_height),
            completed_pages: self.completed_pages.push(self.page),
            cursor: Position { x: self.left_margin, y: 0 },
            ..self
        }
    }

    /// The end of a line: where ESC o turned proportional spacing on for this
    /// line only, the setting from before it applies again.
    pub open spec fn end_line(self) -> ParserModel {
        match self.proportional_after_line {
            Some(p) => ParserModel { proportional: p, proportional_after_line: None, ..self },
            None => self,
        }
    }

    /// Carriage return: the line ends and the cursor goes to the left margin.
    pub open spec fn carriage_return(self) -> ParserModel {
        self.end_line().with_x(self.left_margin)
    }

    /// Cancel line: the cursor goes back to the left margin, on the same line.
    pub open spec fn cancel_line(self) -> ParserModel {
        self.with_x(self.left_margin)
    }

    /// Line feed: the line ends and the cursor goes down one line; where that
    /// reaches the end of the form, the page is ejected.
    #[verifier::opaque]
    pub open spec fn line_feed(self) -> ParserModel {
        let s = self.end_line();
        let y = (s.cursor.y + s.line_spacing) as u64;
        let moved = ParserModel { cursor: Position { x: s.cursor.x, y }, ..s };
        if y + self.top_of_form >= self.page_height {
            moved.eject_page()
        } else {
            moved
        }
    }

    /// Backspace: the cursor goes back one character, but not past the left margin.
    #[verifier::opaque]
    pub open spec fn backspace(self) -> ParserModel {
        let back = self.cursor.x - self.char_width();
        self.with_x(if back > self.left_margin { back as u64 } else { self.left_margin })
    }

    /// Horizontal tab: the cursor goes to the first tab stop right of it, but
    /// not past the right margin; with no such stop it stays.
    #[verifier::opaque]
    pub open spec fn horizontal_tab(self) -> ParserModel {
        match first_tab_after(self.tabs, self.cursor.x) {
            Some(tab) => self.with_x(if tab < self.right_margin { tab } else { self.right_margin }),
            None => self,
        }
    }

    /// Print `ch` at the cursor and move the cursor one character on; where the
    /// character would end past the right margin, a carriage return and line
    /// feed come first.
    #[verifier::opaque]
    pub open spec fn print_char(self, ch: u8) -> ParserModel {
        let w = self.char_width();
        let s = if sat_add(self.cursor.x, w) > self.right_margin {
            self.carriage_return().line_feed()
        } else {
            self
        };
        ParserModel {
            page: s.page.with_mark(Mark::Character { at: s.cursor, info: s.char_info(ch) }),
            cursor: Position { x: sat_add(s.cursor.x, w), y: s.cursor.y },
            ..s
        }
    }

    /// A byte received outside any ESC sequence or graphics data.
    #[verifier::opaque]
    pub open spec fn normal(self, byte: u8) -> ParserModel {
        if byte == 0x08 {
            self.backspace()
        } else if byte == 0x09 {
            self.horizontal_tab()
        } else if byte == 0x0A || byte == 0x0B {
            self.line_feed()
        } else if byte == 0x0C {
            self.eject_page()
        } else if byte == 0x0D {
            self.carriage_return()
        } else if byte == 0x18 {
            self.cancel_line()
        } else if byte == 0x0E {
            ParserModel { half_height: false, ..self }
        } else if byte == 0x0F {
            ParserModel { half_height: true, ..self }
        } else if byte == 0x14 {
            ParserModel { cpi: 17, ..self }
        } else if byte == 0x1B {
            self.with_state(StateModel::EscapeSeen)
        } else if (0x20 <= byte && byte <= 0x7E) || byte >= 0x80 {
            self.print_char(byte)
        } else {
            self
        }
    }

    /// An ESC command that takes no parameters.
    #[verifier::opaque]
    pub open spec fn simple_command(self, cmd: u8) -> ParserModel {
        if cmd == 0x3C { // '<'
            ParserModel { bidirectional: false, ..self }
        } else if cmd == 0x3E { // '>'
            ParserModel { bidirectional: true, ..self }
        } else if cmd == 0x21 { // '!'
            ParserModel { bold: true, ..self }
        } else if cmd == 0x22 { // '"'
            ParserModel { bold: false, ..self }
        } else if cmd == 0x58 { // 'X'
            ParserModel { underline: true, ..self }
        } else if cmd == 0x59 { // 'Y'
            ParserModel { underline: false, ..self }
        } else if cmd == 0x78 { // 'x'
            ParserModel { superscript: true, ..self }
        } else if cmd == 0x79 { // 'y'
            ParserModel { superscript: false, ..self }
        } else if cmd == 0x77 { // 'w'
            ParserModel { subscript: true, ..self }
        } else if cmd == 0x76 { // 'v'
            ParserModel { subscript: false, ..self }
        } else if cmd == 0x41 { // 'A'
            ParserModel { line_spacing: 24, ..self }
        } else if cmd == 0x42 { // 'B'
            ParserModel { line_spacing: 18, ..self }
        } else if cmd == 0x4E { // 'N'
            ParserModel { cpi: 10, ..self }
        } else if cmd == 0x45 { // 'E'
            ParserModel { cpi: 12, ..self }
        } else if cmd == 0x71 { // 'q'
            ParserModel { cpi: 15, ..self }
        } else if cmd == 0x51 { // 'Q'
            ParserModel { cpi: 17, ..self }
        } else if cmd == 0x70 { // 'p'
            ParserModel { proportional: true, proportional_after_line: None, ..self }
        } else if cmd == 0x50 { // 'P'
            ParserModel { proportional: false, proportional_after_line: None, ..self }
        } else if cmd == 0x30 { // '0'
            ParserModel { tabs: Seq::empty(), ..self }
        } else if cmd == 0x39 { // '9'
            ParserModel { double_strike: true, ..self }
        } else if cmd == 0x61 { // 'a'
            ParserModel { italic: true, ..self }
        } else if cmd == 0x62 { // 'b'
            ParserModel { italic: false, ..self }
        } else if cmd == 0x63 { // 'c'
            ParserModel::initial()
        } else {
            self
        }
    }

    /// The byte after ESC: a command with parameters starts collecting them,
    /// any other command takes effect at once.
    #[verifier::opaque]
    pub open spec fn escape(self, cmd: u8) -> ParserModel {
        let s = self.with_state(StateModel::Normal);
        match param_count(cmd) {
            Some(needed) => s.with_state(
                StateModel::CollectingParams { cmd, params: Seq::empty(), needed },
            ),
            None => s.simple_command(cmd),
        }
    }

    /// Enter graphics mode at `density` for `count` bytes, the row starting at
    /// the cursor rounded to the nearest output pixel.
    #[verifier::opaque]
    pub open spec fn enter_graphics(self, density: GraphicsDensity, count: nat) -> ParserModel {
        self.with_state(
            StateModel::GraphicsMode {
                density,
                bytes_remaining: count as usize,
                start_x: round_to_multiple(self.cursor.x, PIXEL_X_UNITS),
                column: 0,
            },
        )
    }

    /// ESC L: left margin at the parameter's column (in 1/10 inch); a cursor
    /// left of the new margin moves to it.
    #[verifier::opaque]
    pub open spec fn set_left_margin(self, params: Seq<u8>) -> ParserModel {
        match digits_u32(params) {
            Some(cols) => {
                let lm = (cols * TENTH_INCH) as u64;
                let s = ParserModel { left_margin: lm, ..self };
                if s.cursor.x < lm {
                    s.with_x(lm)
                } else {
                    s
                }
            },
            None => self,
        }
    }

    /// ESC M: right margin at the parameter's column (in 1/10 inch).
    #[verifier::opaque]
    pub open spec fn set_right_margin(self, params: Seq<u8>) -> ParserModel {
        match digits_u32(params) {
            Some(cols) => ParserModel { right_margin: (cols * TENTH_INCH) as u64, ..self },
            None => self,
        }
    }

    /// ESC l: cursor at the parameter's column (in 1/10 inch) right of the left margin.
    #[verifier::opaque]
    pub open spec fn set_horizontal_position(self, params: Seq<u8>) -> ParserModel {
        match digits_u32(params) {
            Some(cols) => self.with_x((self.left_margin + cols * TENTH_INCH) as u64),
            None => self,
        }
    }

    /// ESC F: cursor at the parameter in 1/720 inch from the left edge.
    #[verifier::opaque]
    pub open spec fn set_horizontal_position_720(self, params: Seq<u8>) -> ParserModel {
        match digits_u32(params) {
            Some(units) => self.with_x((units * STEP_720) as u64),
            None => self,
        }
    }

    /// ESC T: line spacing of the parameter in 1/144 inch.
    #[verifier::opaque]
    pub open spec fn set_line_spacing_144(self, params: Seq<u8>) -> ParserModel {
        match digits_u32(params) {
            Some(n) => ParserModel { line_spacing: n as u64, ..self },
            None => self,
        }
    }

    /// ESC H: page length of the parameter in 1/144 inch, 0 meaning continuous
    /// paper (100 inches); it applies to the pages started from then on.
    #[verifier::opaque]
    pub open spec fn set_page_length(self, params: Seq<u8>) -> ParserModel {
        match digits_u32(params) {
            Some(units) => ParserModel {
                page_height: if units == 0 { CONTINUOUS_PAGE_HEIGHT } else { units as u64 },
                ..self
            },
            None => self,
        }
    }

    /// ESC K: ribbon color of the parameter byte, at most 3.
    #[verifier::opaque]
    pub open spec fn set_color(self, params: Seq<u8>) -> ParserModel {
        if params.len() > 0 {
            ParserModel { color: if params[0] < 3 { params[0] } else { 3 }, ..self }
        } else {
            self
        }
    }

    /// ESC n: print the parameter byte as a character, the cursor staying where it was
    /// across the line.
    #[verifier::opaque]
    pub open spec fn print_immediate(self, params: Seq<u8>) -> ParserModel {
        if params.len() > 0 {
            self.print_char(params[0]).with_x(self.cursor.x)
        } else {
            self
        }
    }

    /// ESC G and ESC g: 72 DPI graphics for the parameter's count of bytes.
    #[verifier::opaque]
    pub open spec fn enter_graphics_72(self, params: Seq<u8>) -> ParserModel {
        match graphics_count(params) {
            Some(count) => self.enter_graphics(GraphicsDensity::Single72, count),
            None => self,
        }
    }

    /// ESC V: 144 DPI graphics for the parameter's count of bytes.
    #[verifier::opaque]
    pub open spec fn enter_graphics_144(self, params: Seq<u8>) -> ParserModel {
        match graphics_count(params) {
            Some(count) => self.enter_graphics(GraphicsDensity::Double144, count),
            None => self,
        }
    }

    /// ESC s: graphics at the density the first parameter byte selects, for the
    /// count the next four give.
    #[verifier::opaque]
    pub open spec fn enter_graphics_extended(self, params: Seq<u8>) -> ParserModel {
        if params.len() >= 5 {
            match graphics_count(params.drop_first()) {
                Some(count) => self.enter_graphics(GraphicsDensity::from_selector(params[0]), count),
                None => self,
            }
        } else {
            self
        }
    }

    /// ESC o: proportional spacing for the current line only. Where the
    /// parameter reads as a number, proportional spacing goes on, and the setting
    /// from before (before the first ESC o of the line) applies again at the end
    /// of the line.
    #[verifier::opaque]
    pub open spec fn set_one_line_proportional(self, params: Seq<u8>) -> ParserModel {
        match digits_u32(params) {
            Some(_) => ParserModel {
                proportional: true,
                proportional_after_line: match self.proportional_after_line {
                    Some(p) => Some(p),
                    None => Some(self.proportional),
                },
                ..self
            },
            None => self,
        }
    }

    /// An ESC command whose parameter bytes `params` are all in.
    #[verifier::opaque]
    pub open spec fn execute(self, cmd: u8, params: Seq<u8>) -> ParserModel {
        if cmd == 0x4C { // 'L'
            self.set_left_margin(params)
        } else if cmd == 0x4D { // 'M'
            self.set_right_margin(params)
        } else if cmd == 0x6C { // 'l'
            self.set_horizontal_position(params)
        } else if cmd == 0x46 { // 'F'
            self.set_horizontal_position_720(params)
        } else if cmd == 0x54 { // 'T'
            self.set_line_spacing_144(params)
        } else if cmd == 0x4B { // 'K'
            self.set_color(params)
        } else if cmd == 0x6E { // 'n'
            self.print_immediate(params)
        } else if cmd == 0x47 || cmd == 0x67 { // 'G' 'g'
            self.enter_graphics_72(params)
        } else if cmd == 0x56 { // 'V'
            self.enter_graphics_144(params)
        } else if cmd == 0x73 { // 's'
            self.enter_graphics_extended(params)
        } else if cmd == 0x48 { // 'H'
            self.set_page_length(params)
        } else if cmd == 0x6F { // 'o'
            self.set_one_line_proportional(params)
        } else {
            self
        }
    }

    /// One byte of graphics data for column `column` of a row at `density` that
    /// starts at `start_x`: a dot for each set bit, in the current color.
    #[verifier::opaque]
    pub open spec fn graphics_byte(
        self,
        byte: u8,
        density: GraphicsDensity,
        start_x: u64,
        column: usize,
    ) -> ParserModel {
        ParserModel {
            page: self.page.with_marks(
                pin_dots(byte, 0, column_x(start_x, column as int, density), self.cursor.y, self.color),
            ),
            ..self
        }
    }

    /// A parameter byte for the ESC command `cmd`, which takes `needed` of them:
    /// with the last one in, the command takes effect.
    #[verifier::opaque]
    pub open spec fn parameter_byte(self, cmd: u8, params: Seq<u8>, needed: usize, byte: u8) -> ParserModel {
        let params = params.push(byte);
        if params.len() >= needed {
            self.with_state(StateModel::Normal).execute(cmd, params)
        } else {
            self.with_state(StateModel::CollectingParams { cmd, params, needed })
        }
    }

    /// A byte of graphics data for column `column` of a row that has
    /// `bytes_remaining` bytes to come: after the last (or only) one, the
    /// cursor moves to the end of the row and text processing resumes.
    #[verifier::opaque]
    pub open spec fn graphics_data(
        self,
        density: GraphicsDensity,
        bytes_remaining: usize,
        start_x: u64,
        column: usize,
        byte: u8,
    ) -> ParserModel {
        let s = self.graphics_byte(byte, density, start_x, column);
        if bytes_remaining <= 1 {
            s.with_x(column_x(start_x, column + 1, density)).with_state(StateModel::Normal)
        } else {
            s.with_state(
                StateModel::GraphicsMode {
                    density,
                    bytes_remaining: (bytes_remaining - 1) as usize,
                    start_x,
                    column: (column + 1) as usize,
                },
            )
        }
    }

    /// Process one byte of input.
    #[verifier::opaque]
    pub open spec fn step(self, byte: u8) -> ParserModel {
        match self.state {
            StateModel::Normal => self.normal(byte),
            StateModel::EscapeSeen => self.escape(byte),
            StateModel::CollectingParams { cmd, params, needed } => self.parameter_byte(
                cmd,
                params,
                needed,
                byte,
            ),
            StateModel::GraphicsMode { density, bytes_remaining, start_x, column } =>
                self.graphics_data(density, bytes_remaining, start_x, column, byte),
        }
    }

    /// Process the bytes `bytes`, first to last.
    pub open spec fn run(self, bytes: Seq<u8>) -> ParserModel
        decreases bytes.len(),
    {
        if bytes.len() == 0 {
            self
        } else {
            self.step(bytes[0]).run(bytes.drop_first())
        }
    }

    /// Eject the current page where anything has been marked on it.
    #[verifier::opaque]
    pub open spec fn force_eject(self) -> ParserModel {
        if self.page.is_blank() {
            self
        } else {
            self.eject_page()
        }
    }

    /// The state after the completed pages have been taken.
    pub open spec fn without_completed(self) -> ParserModel {
        ParserModel { completed_pages: Seq::empty(), ..self }
    }
}

/// ImageWriter printer parser and state.
pub struct ImageWriterParser {
    state: ParserState,
    page: PageBuffer,
    cursor: Position,
    cpi: u8,
    line_spacing: u64,
    bold: bool,
    underline: bool,
    italic: bool,
    superscript: bool,
    subscript: bool,
    bidirectional: bool,
    half_height: bool,
    double_strike: bool,
    proportional: bool,
    proportional_after_line: Option<bool>,
    left_margin: u64,
    right_margin: u64,
    page_width: u64,
    page_height: u64,
    top_of_form: u64,
    skip_perf: u8,
    color: u8,
    graphics_density: GraphicsDensity,
    tabs: Vec<u64>,
    completed_pages: Vec<PageBuffer>,
}

impl View for ImageWriterParser {
    type V = ParserModel;

    closed spec fn view(&self) -> ParserModel {
        ParserModel {
            state: self.state@,
            page: self.page@,
            cursor: self.cursor,
            cpi: self.cpi,
            line_spacing: self.line_spacing,
            bold: self.bold,
            underline: self.underline,
            italic: self.italic,
            superscript: self.superscript,
            subscript: self.subscript,
            bidirectional: self.bidirectional,
            half_height: self.half_height,
            double_strike: self.double_strike,
            proportional: self.proportional,
            proportional_after_line: self.proportional_after_line,
            left_margin: self.left_margin,
            right_margin: self.right_margin,
            page_width: self.page_width,
            page_height: self.page_height,
            top_of_form: self.top_of_form,
            skip_perf: self.skip_perf,
            color: self.color,
            graphics_density: self.graphics_density,
            tabs: self.tabs@,
            completed_pages: self.completed_pages@.map_values(|p: PageBuffer| p@),
        }
    }
}


/// The horizontal position of graphics column `column` of a row that starts at `start_x`.
pub fn column_position(start_x: u64, column: usize, density: GraphicsDensity) -> (r: u64)
    ensures
        r == column_x(start_x, column as int, density),
{
    let dw = density.dot_units();
    assert((column as u128) * (dw as u128) <= 0xffff_ffff_ffff_ffffu128 * 36380) by (nonlinear_arith)
        requires
            column <= 0xffff_ffff_ffff_ffffu128,
            dw <= 36380,
    ;
    let v: u128 = (start_x as u128) + (column as u128) * (dw as u128);
    if v > 0xffff_ffff_ffff_ffffu128 {
        u64::MAX
    } else {
        v as u64
    }
}

impl Default for ImageWriterParser {
    fn default() -> (p: ImageWriterParser)
        ensures
            p@ == ParserModel::initial(),
            p@.wf(),
    {
        ImageWriterParser::new()
    }
}

impl ImageWriterParser {
    /// Create a new parser with default settings.
    pub fn new() -> (p: ImageWriterParser)
        ensures
            p@ == ParserModel::initial(),
            p@.wf(),
    {
        reveal(state_ok);
        let p = ImageWriterParser {
            state: ParserState::Normal,
            page: PageBuffer::new(DEFAULT_PAGE_WIDTH, DEFAULT_PAGE_HEIGHT),
            cursor: Position { x: 0, y: 0 },
            cpi: 10,
            line_spacing: 24,
            bold: false,
            underline: false,
            italic: false,
            superscript: false,
            subscript: false,
            bidirectional: true,
            half_height: false,
            double_strike: false,
            proportional: false,
            proportional_after_line: None,
            left_margin: 0,
            right_margin: DEFAULT_PAGE_WIDTH,
            page_width: DEFAULT_PAGE_WIDTH,
            page_height: DEFAULT_PAGE_HEIGHT,
            top_of_form: 0,
            skip_perf: 0,
            color: 0,
            graphics_density: GraphicsDensity::Single72,
            tabs: Self::default_tabs(),
            completed_pages: Vec::new(),
        };
        assert(p.completed_pages@.map_values(|q: PageBuffer| q@) =~= Seq::<PageModel>::empty());
        p
    }

    /// Default tab stops every 0.5 inches.
    fn default_tabs() -> (tabs: Vec<u64>)
        ensures
            tabs@ == default_tab_stops(),
    {
        let mut tabs: Vec<u64> = Vec::new();
        let mut i: u64 = 1;
        while i <= 16
            invariant
                1 <= i <= 17,
                tabs@.len() == i - 1,
                forall|j: int| 0 <= j < i - 1 ==> #[trigger] tabs@[j] == (j + 1) * HALF_INCH,
            decreases 17 - i,
        {
            tabs.push(i * HALF_INCH);
            i = i + 1;
        }
        assert(tabs@ =~= default_tab_stops());
        tabs
    }

    /// Process a byte of input.
    #[verifier::rlimit(40)]
    pub fn process_byte(&mut self, byte: u8)
        requires
            old(self)@.wf(),
        ensures
            final(self)@ == old(self)@.step(byte),
            final(self)@.wf(),
    {
        reveal(ParserModel::step);
        let mut state = ParserState::Normal;
        std::mem::swap(&mut state, &mut self.state);
        proof {
            reveal(state_ok);
        }
        match state {
            ParserState::Normal => {
                assert(self@ == old(self)@);
                self.process_normal(byte);
            },
            ParserState::EscapeSeen => {
                assert(self@ == old(self)@.with_state(StateModel::Normal));
                assert(self@.escape(byte) == old(self)@.escape(byte)) by {
                    reveal(ParserModel::escape);
                }
                self.process_escape_cmd(byte);
            },
            ParserState::CollectingParams { cmd, params, needed } => {
                assert(self@ == old(self)@.with_state(StateModel::Normal));
                assert(self@.parameter_byte(cmd, params@, needed, byte) == old(self)@.parameter_byte(
                    cmd,
                    params@,
                    needed,
                    byte,
                )) by {
                    reveal(ParserModel::parameter_byte);
                }
                self.process_parameter_byte(cmd, params, needed, byte);
            },
            ParserState::GraphicsMode { density, bytes_remaining, start_x, column } => {
                assert(self@ == old(self)@.with_state(StateModel::Normal));
                assert(self@.graphics_data(density, bytes_remaining, start_x, column, byte)
                    == old(self)@.graphics_data(density, bytes_remaining, start_x, column, byte)) by {
                    reveal(ParserModel::graphics_data);
                    reveal(ParserModel::graphics_byte);
                }
                self.process_graphics_data(density, bytes_remaining, start_x, column, byte);
            },
        }
    }

    /// Process the bytes `bytes`, first to last.
    pub fn process_bytes(&mut self, bytes: &[u8])
        requires
            old(self)@.wf(),
        ensures
            final(self)@ == old(self)@.run(bytes@),
            final(self)@.wf(),
    {
        let n = bytes.len();
        let mut i: usize = 0;
        assert(bytes@.skip(0) =~= bytes@);
        while i < n
            invariant
                n == bytes@.len(),
                0 <= i <= n,
                self@.wf(),
                old(self)@.run(bytes@) == self@.run(bytes@.skip(i as int)),
            decreases n - i,
        {
            assert(bytes@.skip(i as int).drop_first() =~= bytes@.skip(i + 1));
            self.process_byte(bytes[i]);
            i = i + 1;
        }
        assert(bytes@.skip(n as int) =~= Seq::<u8>::empty());
    }

    /// Process a parameter byte of the ESC command `cmd`.
    fn process_parameter_byte(&mut self, cmd: u8, params: Vec<u8>, needed: usize, byte: u8)
        requires
            old(self)@.wf(),
            old(self)@.state == StateModel::Normal,
            param_count(cmd) == Some(needed),
            params@.len() < needed,
        ensures
            final(self)@ == old(self)@.parameter_byte(cmd, params@, needed, byte),
            final(self)@.wf(),
    {
        reveal(ParserModel::parameter_byte);
        reveal(state_ok);
        let mut params = params;
        params.push(byte);
        if params.len() >= needed {
            self.execute_command(cmd, params.as_slice());
        } else {
            let ghost p = params@;
            self.state = ParserState::CollectingParams { cmd, params, needed };
            assert(self@ == old(self)@.with_state(StateModel::CollectingParams { cmd, params: p, needed }));
        }
    }

    /// Process a byte of graphics data.
    fn process_graphics_data(
        &mut self,
        density: GraphicsDensity,
        bytes_remaining: usize,
        start_x: u64,
        column: usize,
        byte: u8,
    )
        requires
            old(self)@.wf(),
            old(self)@.state == StateModel::Normal,
            column + bytes_remaining <= usize::MAX,
            bytes_remaining == 0 ==> column == 0,
        ensures
            final(self)@ == old(self)@.graphics_data(density, bytes_remaining, start_x, column, byte),
            final(self)@.wf(),
    {
        reveal(ParserModel::graphics_data);
        reveal(ParserModel::graphics_byte);
        reveal(state_ok);
        let remaining = bytes_remaining.saturating_sub(1);
        self.process_graphics_byte(byte, density, start_x, column);
        if remaining == 0 {
            // Move the cursor to the end of the graphics row
            self.cursor.x = column_position(start_x, column + 1, density);
        } else {
            self.state = ParserState::GraphicsMode {
                density,
                bytes_remaining: remaining,
                start_x,
                column: column + 1,
            };
        }
    }

    /// Process a byte in normal mode.
    #[verifier::rlimit(40)]
    fn process_normal(&mut self, byte: u8)
        requires
            old(self)@.wf(),
        ensures
            final(self)@ == old(self)@.normal(byte),
            final(self)@.wf(),
    {
        reveal(state_ok);
        reveal(ParserModel::normal);
        match byte {
            0x00 => {},  // NUL - ignore
            0x07 => {},  // BEL - ignore (would beep)
            0x08 => self.backspace(),
            0x09 => self.horizontal_tab(),
            0x0A => self.line_feed(),
            0x0B => self.vertical_tab(),
            0x0C => self.form_feed(),
            0x0D => self.carriage_return(),
            0x0E => self.half_height = false,  // Cancel half-height
            0x0F => self.half_height = true,  // Half-height mode
            0x11 => {},  // DC1 - Select printer
            0x12 => {},  // DC2 - 10 CPI (Pica)
            0x13 => {},  // DC3 - Deselect printer
            0x14 => self.cpi = 17,  // DC4 - 17 CPI (Condensed)
            0x18 => self.cancel_line(),  // CAN - Cancel line
            0x1B => self.state = ParserState::EscapeSeen,
            0x20..=0x7E => self.print_char(byte),
            0x80..=0xFF => self.print_char(byte),  // High ASCII/extended chars
            _ => {},  // Ignore other control codes
        }
    }

    /// Start collecting `needed` parameter bytes for the ESC command `cmd`.
    fn collect(&mut self, cmd: u8, needed: usize)
        requires
            old(self)@.wf(),
            param_count(cmd) == Some(needed),
        ensures
            final(self)@ == old(self)@.with_state(
                StateModel::CollectingParams { cmd, params: Seq::empty(), needed },
            ),
            final(self)@.wf(),
    {
        reveal(state_ok);
        let params: Vec<u8> = Vec::new();
        self.state = ParserState::CollectingParams { cmd, params, needed };
        assert(self.state@ == StateModel::CollectingParams { cmd, params: Seq::<u8>::empty(), needed });
    }

    /// Process escape sequence command byte.
    fn process_escape_cmd(&mut self, cmd: u8)
        requires
            old(self)@.wf(),
        ensures
            final(self)@ == old(self)@.escape(cmd),
            final(self)@.wf(),
    {
        reveal(state_ok);
        reveal(ParserModel::escape);
        self.state = ParserState::Normal;
        match cmd {
            // 'o' One-line proportional (4 ASCII digit parameter)
            0x6F => self.collect(cmd, 4),
            // Commands with ASCII digit parameters (nnn format)
            0x4C => self.collect(cmd, 3),  // 'L' Left margin
            0x4D => self.collect(cmd, 3),  // 'M' Right margin
            0x6C => self.collect(cmd, 3),  // 'l' Absolute horizontal position
            // Commands with 2-digit ASCII parameters
            0x54 => self.collect(cmd, 2),  // 'T' Line spacing n/144"
            0x48 => self.collect(cmd, 4),  // 'H' Page length in 1/144"
            // Commands with 1-byte binary parameter
            0x4B => self.collect(cmd, 1),  // 'K' Color select
            0x6E => self.collect(cmd, 1),  // 'n' Immediate print character
            // 'F' Set horizontal position (4 ASCII digit parameter)
            0x46 => self.collect(cmd, 4),
            // Graphics mode commands
            0x47 => self.collect(cmd, 4),  // 'G' Graphics mode
            0x56 => self.collect(cmd, 4),  // 'V' 144 DPI graphics
            0x67 => self.collect(cmd, 4),  // 'g' Single density graphics (LQ)
            0x73 => self.collect(cmd, 5),  // 's' Extended graphics (LQ)
            // Commands with no parameters
            _ => self.simple_command(cmd),
        }
    }

    /// An ESC command that takes no parameters.
    #[verifier::rlimit(40)]
    fn simple_command(&mut self, cmd: u8)
        requires
            old(self)@.wf(),
        ensures
            final(self)@ == old(self)@.simple_command(cmd),
            final(self)@.wf(),
    {
        reveal(ParserModel::simple_command);
        match cmd {
            0x3C => self.bidirectional = false,  // '<' Unidirectional
            0x3E => self.bidirectional = true,  // '>' Bidirectional
            0x21 => self.bold = true,  // '!' Bold on
            0x22 => self.bold = false,  // '"' Bold off
            0x58 => self.underline = true,  // 'X' Underline on
            0x59 => self.underline = false,  // 'Y' Underline off
            0x78 => self.superscript = true,  // 'x' Superscript on
            0x79 => self.superscript = false,  // 'y' Superscript off
            0x77 => self.subscript = true,  // 'w' Subscript on
            0x76 => self.subscript = false,  // 'v' Subscript off
            0x41 => self.line_spacing = 24,  // 'A' 1/6" line spacing
            0x42 => self.line_spacing = 18,  // 'B' 1/8" line spacing
            0x4E => self.cpi = 10,  // 'N' Pica (10 CPI)
            0x45 => self.cpi = 12,  // 'E' Elite (12 CPI)
            0x71 => self.cpi = 15,  // 'q' Semi-condensed (15 CPI)
            0x51 => self.cpi = 17,  // 'Q' Condensed (17 CPI)
            0x70 => {
                // 'p' Proportional on
                self.proportional = true;
                self.proportional_after_line = None;
            },
            0x50 => {
                // 'P' Proportional off
                self.proportional = false;
                self.proportional_after_line = None;
            },
            0x30 => self.tabs = Vec::new(),  // '0' Clear tabs
            0x31 => {},  // '1' Set tab at current position
            0x28 => {},  // '(' 8-bit mode
            0x29 => {},  // ')' 7-bit mode
            0x39 => self.double_strike = true,  // '9' Double-strike on
            0x61 => self.italics_on(),  // 'a' Italics on (LQ)
            0x62 => self.italics_off(),  // 'b' Italics off (LQ)
            0x63 => self.reset(),  // 'c' Reset printer
            0x3F => {},  // '?' Printer status request (ignore)
            0x72 => {},  // 'r' Reverse line feed mode (no params, ignore for now)
            0x66 => {},  // 'f' Forward paper feed mode (no params)
            _ => {},  // Unknown ESC command
        }
    }

    /// Execute a command with collected parameters.
    fn execute_command(&mut self, cmd: u8, params: &[u8])
        requires
            old(self)@.wf(),
            old(self)@.state == StateModel::Normal,
        ensures
            final(self)@ == old(self)@.execute(cmd, params@),
            final(self)@.wf(),
    {
        reveal(ParserModel::execute);
        match cmd {
            0x4C => self.set_left_margin(params),  // 'L'
            0x4D => self.set_right_margin(params),  // 'M'
            0x6C => self.set_horizontal_position(params),  // 'l'
            0x46 => self.set_horizontal_position_720(params),  // 'F'
            0x54 => self.set_line_spacing_144(params),  // 'T'
            0x4B => self.set_color(params),  // 'K'
            0x6E => self.print_immediate(params),  // 'n'
            0x47 => self.enter_graphics_72(params),  // 'G'
            0x56 => self.enter_graphics_144(params),  // 'V'
            0x67 => self.enter_graphics_single(params),  // 'g'
            0x73 => self.enter_graphics_extended(params),  // 's'
            0x48 => self.set_page_length(params),  // 'H'
            0x6F => self.set_one_line_proportional(params),  // 'o'
            _ => {},
        }
    }

    /// Set page length in 1/144 inch (ESC H nnnn).
    fn set_page_length(&mut self, params: &[u8])
        requires
            old(self)@.wf(),
        ensures
            final(self)@ == old(self)@.set_page_length(params@),
            final(self)@.wf(),
    {
        reveal(ParserModel::set_page_length);
        if let Some(units) = Self::parse_ascii_digits(params) {
            // Page length in 1/144 inch units; 0 means continuous paper
            if units == 0 {
                self.page_height = CONTINUOUS_PAGE_HEIGHT;
            } else {
                self.page_height = units as u64;
            }
        }
    }

    /// Print a character at the current position.
    fn print_char(&mut self, ch: u8)
        requires
            old(self)@.wf(),
        ensures
            final(self)@ == old(self)@.print_char(ch),
            final(self)@.wf(),
    {
        reveal(ParserModel::print_char);
        let char_width = cell_width(self.cpi);
        // Check for right margin wrap
        if add_sat(self.cursor.x, char_width) > self.right_margin {
            self.carriage_return();
            self.line_feed();
        }
        let ghost s = if sat_add(old(self)@.cursor.x, char_width) > old(self)@.right_margin {
            old(self)@.carriage_return().line_feed()
        } else {
            old(self)@
        };
        assert(self@ == s);
        let char_info = CharacterInfo {
            ch,
            bold: self.bold,
            underline: self.underline,
            italic: self.italic,
            superscript: self.superscript,
            subscript: self.subscript,
            half_height: self.half_height,
            double_strike: self.double_strike,
            cpi: self.cpi,
            color: self.color,
        };
        assert(char_info == s.char_info(ch));
        self.page.draw_character(self.cursor, &char_info);
        self.cursor.x = add_sat(self.cursor.x, char_width);
        assert(self@ == old(self)@.print_char(ch));
    }

    /// Backspace.
    fn backspace(&mut self)
        requires
            old(self)@.wf(),
        ensures
            final(self)@ == old(self)@.backspace(),
            final(self)@.wf(),
    {
        reveal(ParserModel::backspace);
        let char_width = cell_width(self.cpi);
        let back = self.cursor.x.saturating_sub(char_width);
        self.cursor.x = if back > self.left_margin { back } else { self.left_margin };
    }

    /// Horizontal tab.
    fn horizontal_tab(&mut self)
        requires
            old(self)@.wf(),
        ensures
            final(self)@ == old(self)@.horizontal_tab(),
            final(self)@.wf(),
    {
        reveal(ParserModel::horizontal_tab);
        let n = self.tabs.len();
        let mut i: usize = 0;
        assert(self.tabs@.skip(0) =~= self.tabs@);
        while i < n
            invariant
                n == self.tabs@.len(),
                0 <= i <= n,
                self@ == old(self)@,
                old(self)@.wf(),
                first_tab_after(self.tabs@, self.cursor.x) == first_tab_after(
                    self.tabs@.skip(i as int),
                    self.cursor.x,
                ),
            decreases n - i,
        {
            let tab = self.tabs[i];
            assert(self.tabs@.skip(i as int)[0] == tab);
            if tab > self.cursor.x {
                reveal(ParserModel::horizontal_tab);
                assert(first_tab_after(self.tabs@.skip(i as int), self.cursor.x) == Some(tab));
                assert(first_tab_after(old(self)@.tabs, old(self)@.cursor.x) == Some(tab));
                self.cursor.x = if tab < self.right_margin { tab } else { self.right_margin };
                assert(self@ == old(self)@.with_x(if tab < old(self)@.right_margin { tab } else { old(self)@.right_margin }));
                return;
            }
            assert(self.tabs@.skip(i as int).drop_first() =~= self.tabs@.skip(i + 1));
            i = i + 1;
        }
        assert(self.tabs@.skip(n as int) =~= Seq::<u64>::empty());
    }

    /// Vertical tab (same as line feed on ImageWriter).
    fn vertical_tab(&mut self)
        requires
            old(self)@.wf(),
        ensures
            final(self)@ == old(self)@.line_feed(),
            final(self)@.wf(),
    {
        self.line_feed();
    }

    /// Line feed.
    fn line_feed(&mut self)
        requires
            old(self)@.wf(),
        ensures
            final(self)@ == old(self)@.line_feed(),
            final(self)@.wf(),
    {
        reveal(ParserModel::line_feed);
        self.end_line();
        self.cursor.y = self.cursor.y + self.line_spacing;
        // Check for page overflow
        if self.cursor.y + self.top_of_form >= self.page_height {
            self.eject_page();
        }
    }

    /// Form feed (eject page).
    fn form_feed(&mut self)
        requires
            old(self)@.wf(),
        ensures
            final(self)@ == old(self)@.eject_page(),
            final(self)@.wf(),
    {
        self.eject_page();
    }

    /// End the line: a one-line proportional setting gives way to the one before.
    fn end_line(&mut self)
        requires
            old(self)@.wf(),
        ensures
            final(self)@ == old(self)@.end_line(),
            final(self)@.wf(),
    {
        if let Some(p) = self.proportional_after_line {
            self.proportional = p;
            self.proportional_after_line = None;
        }
    }

    /// Carriage return.
    fn carriage_return(&mut self)
        requires
            old(self)@.wf(),
        ensures
            final(self)@ == old(self)@.carriage_return(),
            final(self)@.wf(),
    {
        self.end_line();
        self.cursor.x = self.left_margin;
    }

    /// Cancel the current line (back to the left margin).
    fn cancel_line(&mut self)
        requires
            old(self)@.wf(),
        ensures
            final(self)@ == old(self)@.cancel_line(),
            final(self)@.wf(),
    {
        self.cursor.x = self.left_margin;
    }

    /// Set left margin from ASCII digits.
    fn set_left_margin(&mut self, params: &[u8])
        requires
            old(self)@.wf(),
        ensures
            final(self)@ == old(self)@.set_left_margin(params@),
            final(self)@.wf(),
    {
        reveal(ParserModel::set_left_margin);
        if let Some(cols) = Self::parse_ascii_digits(params) {
            // Column numbers are in 10 CPI, so 10 cols = 1 inch
            self.left_margin = (cols as u64) * TENTH_INCH;
            if self.cursor.x < self.left_margin {
                self.cursor.x = self.left_margin;
            }
        }
    }

    /// Set right margin from ASCII digits.
    fn set_right_margin(&mut self, params: &[u8])
        requires
            old(self)@.wf(),
        ensures
            final(self)@ == old(self)@.set_right_margin(params@),
            final(self)@.wf(),
    {
        reveal(ParserModel::set_right_margin);
        if let Some(cols) = Self::parse_ascii_digits(params) {
            self.right_margin = (cols as u64) * TENTH_INCH;
        }
    }

    /// Set absolute horizontal position (ESC l - 3 ASCII digits, columns at 10 CPI).
    fn set_horizontal_position(&mut self, params: &[u8])
        requires
            old(self)@.wf(),
        ensures
            final(self)@ == old(self)@.set_horizontal_position(params@),
            final(self)@.wf(),
    {
        reveal(ParserModel::set_horizontal_position);
        if let Some(cols) = Self::parse_ascii_digits(params) {
            self.cursor.x = self.left_margin + (cols as u64) * TENTH_INCH;
        }
    }

    /// Set absolute horizontal position (ESC F - 4 ASCII digits, 1/720 inch units).
    fn set_horizontal_position_720(&mut self, params: &[u8])
        requires
            old(self)@.wf(),
        ensures
            final(self)@ == old(self)@.set_horizontal_position_720(params@),
            final(self)@.wf(),
    {
        reveal(ParserModel::set_horizontal_position_720);
        if let Some(units) = Self::parse_ascii_digits(params) {
            self.cursor.x = (units as u64) * STEP_720;
        }
    }

    /// Set one-line proportional spacing (ESC o - 4 ASCII digits).
    /// This command enables proportional spacing for the current line only.
    fn set_one_line_proportional(&mut self, params: &[u8])
        requires
            old(self)@.wf(),
        ensures
            final(self)@ == old(self)@.set_one_line_proportional(params@),
            final(self)@.wf(),
    {
        reveal(ParserModel::set_one_line_proportional);
        if let Some(_value) = Self::parse_ascii_digits(params) {
            if self.proportional_after_line.is_none() {
                self.proportional_after_line = Some(self.proportional);
            }
            self.proportional = true;
        }
    }

    /// Set line spacing in n/144 inch.
    fn set_line_spacing_144(&mut self, params: &[u8])
        requires
            old(self)@.wf(),
        ensures
            final(self)@ == old(self)@.set_line_spacing_144(params@),
            final(self)@.wf(),
    {
        reveal(ParserModel::set_line_spacing_144);
        if let Some(n) = Self::parse_ascii_digits(params) {
            self.line_spacing = n as u64;
        }
    }

    /// Set color (0=black, 1=yellow, 2=red, 3=blue).
    fn set_color(&mut self, params: &[u8])
        requires
            old(self)@.wf(),
        ensures
            final(self)@ == old(self)@.set_color(params@),
            final(self)@.wf(),
    {
        reveal(ParserModel::set_color);
        if params.len() > 0 {
            let c = params[0];
            self.color = if c < 3 { c } else { 3 };
        }
    }

    /// Print a character immediately without advancing.
    fn print_immediate(&mut self, params: &[u8])
        requires
            old(self)@.wf(),
        ensures
            final(self)@ == old(self)@.print_immediate(params@),
            final(self)@.wf(),
    {
        reveal(ParserModel::print_immediate);
        if params.len() > 0 {
            let ch = params[0];
            let saved_x = self.cursor.x;
            self.print_char(ch);
            self.cursor.x = saved_x;
        }
    }

    /// Enter graphics mode at `density` for `count` bytes.
    fn enter_graphics(&mut self, density: GraphicsDensity, count: usize)
        requires
            old(self)@.wf(),
        ensures
            final(self)@ == old(self)@.enter_graphics(density, count as nat),
            final(self)@.wf(),
    {
        reveal(state_ok);
        reveal(ParserModel::enter_graphics);
        // Round start_x to the nearest output pixel
        let start_x = round_to_pixel(self.cursor.x);
        self.state = ParserState::GraphicsMode { density, bytes_remaining: count, start_x, column: 0 };
    }

    /// Enter 72 DPI graphics mode.
    fn enter_graphics_72(&mut self, params: &[u8])
        requires
            old(self)@.wf(),
        ensures
            final(self)@ == old(self)@.enter_graphics_72(params@),
            final(self)@.wf(),
    {
        reveal(ParserModel::enter_graphics_72);
        if let Some(count) = Self::parse_graphics_count(params) {
            self.enter_graphics(GraphicsDensity::Single72, count);
        }
    }

    /// Enter 144 DPI graphics mode.
    fn enter_graphics_144(&mut self, params: &[u8])
        requires
            old(self)@.wf(),
        ensures
            final(self)@ == old(self)@.enter_graphics_144(params@),
            final(self)@.wf(),
    {
        reveal(ParserModel::enter_graphics_144);
        if let Some(count) = Self::parse_graphics_count(params) {
            self.enter_graphics(GraphicsDensity::Double144, count);
        }
    }

    /// Enter single density graphics (LQ).
    fn enter_graphics_single(&mut self, params: &[u8])
        requires
            old(self)@.wf(),
        ensures
            final(self)@ == old(self)@.enter_graphics_72(params@),
            final(self)@.wf(),
    {
        reveal(ParserModel::enter_graphics_72);
        if let Some(count) = Self::parse_graphics_count(params) {
            self.enter_graphics(GraphicsDensity::Single72, count);
        }
    }

    /// Enter extended graphics mode (LQ) with density selection.
    fn enter_graphics_extended(&mut self, params: &[u8])
        requires
            old(self)@.wf(),
        ensures
            final(self)@ == old(self)@.enter_graphics_extended(params@),
            final(self)@.wf(),
    {
        reveal(ParserModel::enter_graphics_extended);
        if params.len() >= 5 {
            let density = match params[0] {
                0 => GraphicsDensity::Single72,
                1 => GraphicsDensity::Dpi80,
                2 => GraphicsDensity::Dpi96,
                3 => GraphicsDensity::Dpi107,
                4 => GraphicsDensity::Dpi120,
                5 => GraphicsDensity::Dpi136,
                6 => GraphicsDensity::Double144,
                7 => GraphicsDensity::Dpi160,
                _ => GraphicsDensity::Single72,
            };
            let rest = params.split_at(1).1;
            assert(rest@ =~= params@.drop_first());
            if let Some(count) = Self::parse_graphics_count(rest) {
                self.enter_graphics(density, count);
            }
        }
    }

    /// Parse ASCII digit parameters (e.g., "080" -> 80).
    fn parse_ascii_digits(params: &[u8]) -> (r: Option<u32>)
        ensures
            match digits_u32(params@) {
                Some(v) => r == Some(v as u32),
                None => r is None,
            },
    {
        match parse_decimal_bytes(params, u32::MAX as u64) {
            Some(v) => Some(v as u32),
            None => None,
        }
    }

    /// Parse graphics count from 4 ASCII digits (e.g., "0252" = 252 bytes).
    fn parse_graphics_count(params: &[u8]) -> (r: Option<usize>)
        ensures
            match graphics_count(params@) {
                Some(v) => r == Some(v as usize),
                None => r is None,
            },
    {
        if params.len() >= 4 {
            let digits = params.split_at(4).0;
            assert(digits@ =~= params@.take(4));
            match parse_decimal_bytes(digits, usize::MAX as u64) {
                Some(v) => Some(v as usize),
                None => None,
            }
        } else {
            None
        }
    }

    /// Turn italics on (ImageWriter LQ).
    fn italics_on(&mut self)
        requires
            old(self)@.wf(),
        ensures
            final(self)@ == (ParserModel { italic: true, ..old(self)@ }),
            final(self)@.wf(),
    {
        self.italic = true;
    }

    /// Turn italics off (ImageWriter LQ).
    fn italics_off(&mut self)
        requires
            old(self)@.wf(),
        ensures
            final(self)@ == (ParserModel { italic: false, ..old(self)@ }),
            final(self)@.wf(),
    {
        self.italic = false;
    }

    /// Reset printer to defaults.
    fn reset(&mut self)
        ensures
            final(self)@ == ParserModel::initial(),
            final(self)@.wf(),
    {
        *self = Self::new();
    }

    /// Eject the current page and start a new one.
    fn eject_page(&mut self)
        ensures
            final(self)@ == old(self)@.eject_page(),
            old(self)@.settings_ok() ==> final(self)@.wf(),
    {
        reveal(ParserModel::eject_page);
        let mut old_page = PageBuffer::new(self.page_width, self.page_height);
        std::mem::swap(&mut old_page, &mut self.page);
        let ghost before = self.completed_pages@;
        self.completed_pages.push(old_page);
        assert(self.completed_pages@.map_values(|p: PageBuffer| p@) =~= before.map_values(
            |p: PageBuffer| p@,
        ).push(old_page@));
        self.cursor = Position { x: self.left_margin, y: 0 };
    }

    /// Take completed pages, oldest first.
    pub fn take_completed_pages(&mut self) -> (pages: Vec<PageBuffer>)
        requires
            old(self)@.wf(),
        ensures
            pages@.map_values(|p: PageBuffer| p@) == old(self)@.completed_pages,
            final(self)@ == old(self)@.without_completed(),
            final(self)@.wf(),
    {
        let mut pages: Vec<PageBuffer> = Vec::new();
        std::mem::swap(&mut pages, &mut self.completed_pages);
        assert(self.completed_pages@.map_values(|p: PageBuffer| p@) =~= Seq::<PageModel>::empty());
        pages
    }

    /// Force eject current page (for final output).
    pub fn force_eject(&mut self)
        requires
            old(self)@.wf(),
        ensures
            final(self)@ == old(self)@.force_eject(),
            final(self)@.wf(),
    {
        reveal(ParserModel::force_eject);
        if !self.page.is_empty() {
            self.eject_page();
        }
    }

    /// Whether proportional spacing is on.
    pub fn proportional(&self) -> (r: bool)
        ensures
            r == self@.proportional,
    {
        self.proportional
    }

    /// Get current page (for preview/debugging).
    pub fn current_page(&self) -> (page: &PageBuffer)
        ensures
            page@ == self@.page,
    {
        &self.page
    }

    /// Process a graphics data byte: one dot for each set bit, bit `b` at
    /// `b / 72` inch below the cursor, in the column's position computed from
    /// `start_x` and `column` alone.
    pub fn process_graphics_byte(
        &mut self,
        byte: u8,
        density: GraphicsDensity,
        start_x: u64,
        column: usize,
    )
        requires
            old(self)@.wf(),
        ensures
            final(self)@ == old(self)@.graphics_byte(byte, density, start_x, column),
            final(self)@.wf(),
    {
        reveal(ParserModel::graphics_byte);
        let x = column_position(start_x, column, density);
        let y = self.cursor.y;
        let color = self.color;
        let ghost all = pin_dots(byte, 0, x, y, color);
        let ghost start = self.page@.marks;
        let mut bit: u8 = 0;
        while bit < 8
            invariant
                0 <= bit <= 8,
                y == self.cursor.y,
                y <= u32::MAX,
                self.page@.marks + pin_dots(byte, bit as int, x, y, color) == start + all,
                self.page@.width == old(self)@.page.width,
                self.page@.height == old(self)@.page.height,
                self@ == (ParserModel { page: self.page@, ..old(self)@ }),
            decreases 8 - bit,
        {
            let ghost before = self.page@.marks;
            if byte & (1u8 << bit) != 0 {
                self.page.set_dot(x, y + 2 * (bit as u64), color);
                assert(before + pin_dots(byte, bit as int, x, y, color) =~= self.page@.marks
                    + pin_dots(byte, bit + 1, x, y, color));
            } else {
                assert(pin_dots(byte, bit as int, x, y, color) == pin_dots(byte, bit + 1, x, y, color));
            }
            bit = bit + 1;
        }
        assert(self.page@.marks =~= start + all);
    }

    /// Get the graphics line height in vertical units: 8 pins at 72 DPI, 8/72 inch.
    pub fn graphics_line_height(&self) -> (h: u64)
        ensures
            h == 16,
    {
        16
    }
}

} // verus!
