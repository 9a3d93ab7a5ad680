//! What holds of the printer across bytes and commands.

use vstd::prelude::*;
use crate::page::{Mark, PageModel};
use crate::protocol::{
    column_x, digits_u32, first_tab_after, graphics_count, param_count, pin_dots, state_ok, GraphicsDensity, ParserModel,
    Position, StateModel,
};
use crate::units::{round_to_multiple, sat_add, PIXEL_X_UNITS, TENTH_INCH, X_UNITS_PER_INCH};

verus! {

/// The dots of a row of graphics data `data` whose first byte is column
/// `column` of a row starting at `start_x`, in order: each byte's dots, first
/// byte first.
pub open spec fn row_dots(
    data: Seq<u8>,
    column: int,
    start_x: u64,
    density: GraphicsDensity,
    y: u64,
    color: u8,
) -> Seq<Mark>
    decreases data.len(),
{
    if data.len() == 0 {
        Seq::empty()
    } else {
        pin_dots(data[0], 0, column_x(start_x, column, density), y, color) + row_dots(
            data.drop_first(),
            column + 1,
            start_x,
            density,
            y,
            color,
        )
    }
}

/// Input may arrive in chunks split anywhere: processing `a` and then `b`
/// leaves the printer as processing `a + b` does.
pub proof fn law_input_in_chunks(m: ParserModel, a: Seq<u8>, b: Seq<u8>)
    ensures
        m.run(a + b) == m.run(a).run(b),
    decreases a.len(),
{
    if a.len() == 0 {
        assert(a + b =~= b);
    } else {
        assert((a + b)[0] == a[0]);
        assert((a + b).drop_first() =~= a.drop_first() + b);
        law_input_in_chunks(m.step(a[0]), a.drop_first(), b);
    }
}

/// A state collecting the parameters of `cmd`, with `pre` in, takes the
/// remaining `rest` and then runs the command on all of them.
proof fn lemma_collect_rest(m: ParserModel, cmd: u8, needed: usize, pre: Seq<u8>, rest: Seq<u8>)
    requires
        m.state == StateModel::Normal,
        param_count(cmd) == Some(needed),
        pre.len() + rest.len() == needed,
        rest.len() >= 1,
    ensures
        m.with_state(StateModel::CollectingParams { cmd, params: pre, needed }).run(rest)
            == m.execute(cmd, pre + rest),
    decreases rest.len(),
{
    reveal(ParserModel::step);
    reveal(ParserModel::parameter_byte);
    let c = m.with_state(StateModel::CollectingParams { cmd, params: pre, needed });
    let c1 = c.step(rest[0]);
    assert(c.with_state(StateModel::Normal) == m);
    if rest.len() == 1 {
        assert(pre.push(rest[0]) =~= pre + rest);
        assert(rest.drop_first() =~= Seq::<u8>::empty());
        assert(c.run(rest) == c1.run(rest.drop_first()));
    } else {
        assert(c1 == m.with_state(
            StateModel::CollectingParams { cmd, params: pre.push(rest[0]), needed },
        ));
        lemma_collect_rest(m, cmd, needed, pre.push(rest[0]), rest.drop_first());
        assert(pre.push(rest[0]) + rest.drop_first() =~= pre + rest);
    }
}

/// An ESC sequence with parameters: from text processing, ESC, a command that
/// takes parameters, and exactly that many parameter bytes run the command on
/// those bytes, and nothing else (the bytes are not printed), whatever they are.
pub proof fn law_escape_with_parameters(m: ParserModel, cmd: u8, params: Seq<u8>)
    requires
        m.state == StateModel::Normal,
        param_count(cmd) matches Some(n) && params.len() == n,
    ensures
        m.run(seq![0x1B, cmd] + params) == m.execute(cmd, params),
{
    reveal(ParserModel::step);
    reveal(ParserModel::normal);
    reveal(ParserModel::escape);
    let n = param_count(cmd).unwrap();
    law_input_in_chunks(m, seq![0x1B, cmd], params);
    let e = m.step(0x1B);
    assert(e == m.with_state(StateModel::EscapeSeen));
    let c = e.step(cmd);
    assert(c == m.with_state(StateModel::CollectingParams { cmd, params: Seq::empty(), needed: n }));
    assert(seq![0x1Bu8, cmd].drop_first() =~= seq![cmd]);
    assert(seq![cmd].drop_first() =~= Seq::<u8>::empty());
    assert(e.run(seq![cmd]) == c.run(Seq::empty()));
    assert(m.run(seq![0x1B, cmd]) == e.run(seq![cmd]));
    assert(m.run(seq![0x1B, cmd]) == c);
    lemma_collect_rest(m, cmd, n, Seq::empty(), params);
    assert(Seq::<u8>::empty() + params =~= params);
}

/// An ESC sequence without parameters: from text processing, ESC and a command
/// that takes no parameters take effect at once.
pub proof fn law_escape_without_parameters(m: ParserModel, cmd: u8)
    requires
        m.state == StateModel::Normal,
        param_count(cmd) is None,
    ensures
        m.run(seq![0x1B, cmd]) == m.simple_command(cmd),
{
    reveal(ParserModel::step);
    reveal(ParserModel::normal);
    reveal(ParserModel::escape);
    let e = m.step(0x1B);
    assert(seq![0x1Bu8, cmd].drop_first() =~= seq![cmd]);
    assert(seq![cmd].drop_first() =~= Seq::<u8>::empty());
    assert(e == m.with_state(StateModel::EscapeSeen));
    assert(e.with_state(StateModel::Normal) == m);
    assert(e.run(seq![cmd]) == e.step(cmd).run(Seq::empty()));
    assert(m.run(seq![0x1B, cmd]) == e.run(seq![cmd]));
}

/// ESC c resets the printer: from text processing, the two bytes leave the
/// printer exactly as a new one, whatever it held (pages not yet taken included).
pub proof fn law_reset(m: ParserModel)
    requires
        m.state == StateModel::Normal,
    ensures
        m.run(seq![0x1B, 0x63]) == ParserModel::initial(),
{
    law_escape_without_parameters(m, 0x63);
    reveal(ParserModel::simple_command);
}

/// Form feed ejects the page: the current page joins the completed pages, a
/// blank page of the current size replaces it, and the cursor goes to the left
/// margin at the top; nothing else changes.
pub proof fn law_form_feed(m: ParserModel)
    requires
        m.state == StateModel::Normal,
    ensures
        m.step(0x0C).completed_pages == m.completed_pages.push(m.page),
        m.step(0x0C).page == PageModel::blank(m.page_width, m.page_height),
        m.step(0x0C).cursor == (Position { x: m.left_margin, y: 0 }),
        m.step(0x0C) == (ParserModel {
            page: PageModel::blank(m.page_width, m.page_height),
            completed_pages: m.completed_pages.push(m.page),
            cursor: Position { x: m.left_margin, y: 0 },
            ..m
        }),
{
    reveal(ParserModel::step);
    reveal(ParserModel::normal);
    reveal(ParserModel::eject_page);
}

/// Backspace never takes the cursor left of the left margin: it goes back one
/// character width, or to the margin where that would pass it.
pub proof fn law_backspace(m: ParserModel)
    requires
        m.state == StateModel::Normal,
    ensures
        m.step(0x08).cursor.x >= m.left_margin,
        m.step(0x08).cursor.x == (if m.cursor.x - m.char_width() > m.left_margin {
            (m.cursor.x - m.char_width()) as u64
        } else {
            m.left_margin
        }),
        m.step(0x08).cursor.y == m.cursor.y,
{
    reveal(ParserModel::step);
    reveal(ParserModel::normal);
    reveal(ParserModel::backspace);
}

/// A printed character ends at or before the right margin, unless it starts a
/// line at the left margin: where it would pass the margin, the line is broken
/// first. The character carries the current print attributes and the cursor
/// moves on by its width.
pub proof fn law_print_within_margin(m: ParserModel, ch: u8)
    requires
        m.state == StateModel::Normal,
        (0x20 <= ch && ch <= 0x7E) || ch >= 0x80,
    ensures
        ({
            let s = m.step(ch);
            let w = m.char_width();
            &&& s.page.marks.len() > 0
            &&& s.page.marks.last() matches Mark::Character { at, info } && {
                &&& info == m.char_info(ch)
                &&& (sat_add(at.x, w) <= m.right_margin || at.x == m.left_margin)
                &&& s.cursor == (Position { x: sat_add(at.x, w), y: at.y })
            }
        }),
{
    reveal(ParserModel::step);
    reveal(ParserModel::normal);
    reveal(ParserModel::print_char);
    reveal(ParserModel::line_feed);
    reveal(ParserModel::eject_page);
}

/// A graphics state at column `column` with `rest` to come takes all of it as
/// dots and then returns to text processing at the end of the row.
proof fn lemma_graphics_rest(
    c: ParserModel,
    density: GraphicsDensity,
    start_x: u64,
    column: usize,
    rest: Seq<u8>,
)
    requires
        c.state == (StateModel::GraphicsMode {
            density,
            bytes_remaining: rest.len() as usize,
            start_x,
            column,
        }),
        rest.len() >= 1,
        column + rest.len() <= usize::MAX,
    ensures
        c.run(rest) == (ParserModel {
            page: c.page.with_marks(row_dots(rest, column as int, start_x, density, c.cursor.y, c.color)),
            cursor: Position { x: column_x(start_x, column + rest.len(), density), y: c.cursor.y },
            state: StateModel::Normal,
            ..c
        }),
    decreases rest.len(),
{
    reveal(ParserModel::step);
    reveal(ParserModel::graphics_data);
    reveal(ParserModel::graphics_byte);
    let c1 = c.step(rest[0]);
    let dots = pin_dots(rest[0], 0, column_x(start_x, column as int, density), c.cursor.y, c.color);
    if rest.len() == 1 {
        assert(rest.drop_first() =~= Seq::<u8>::empty());
        assert(row_dots(rest.drop_first(), column + 1, start_x, density, c.cursor.y, c.color)
            =~= Seq::<Mark>::empty());
        assert(row_dots(rest, column as int, start_x, density, c.cursor.y, c.color) =~= dots);
        assert(c.run(rest) == c1);
        assert(c1.page.marks =~= c.page.marks + dots);
    } else {
        let k = (column + 1) as usize;
        lemma_graphics_rest(c1, density, start_x, k, rest.drop_first());
        let tail = row_dots(rest.drop_first(), k as int, start_x, density, c.cursor.y, c.color);
        assert(c.page.marks + dots + tail =~= c.page.marks + (dots + tail));
        assert(c.run(rest).page.marks =~= c.page.marks + row_dots(
            rest,
            column as int,
            start_x,
            density,
            c.cursor.y,
            c.color,
        ));
    }
}

/// A graphics row: once in graphics mode for `n >= 1` bytes, the next `n`
/// bytes are dots and nothing else (never text or commands, whatever their
/// value). Column `k`'s dots lie exactly `k / dpi` inch right of the row's
/// start, with no error accumulated over the row; afterwards the cursor stands
/// `n / dpi` inch right of the start, on the same line, and text processing
/// resumes with every setting as it was.
pub proof fn law_graphics_row(
    m: ParserModel,
    density: GraphicsDensity,
    start_x: u64,
    data: Seq<u8>,
)
    requires
        data.len() >= 1,
        data.len() <= usize::MAX,
    ensures
        m.with_state(
            StateModel::GraphicsMode { density, bytes_remaining: data.len() as usize, start_x, column: 0 },
        ).run(data) == (ParserModel {
            page: m.page.with_marks(row_dots(data, 0, start_x, density, m.cursor.y, m.color)),
            cursor: Position { x: column_x(start_x, data.len() as int, density), y: m.cursor.y },
            state: StateModel::Normal,
            ..m
        }),
{
    let g = m.with_state(
        StateModel::GraphicsMode { density, bytes_remaining: data.len() as usize, start_x, column: 0 },
    );
    lemma_graphics_rest(g, density, start_x, 0, data);
}

/// ESC G with a four-digit count `n >= 1`, then `n` data bytes: the row starts
/// at the cursor rounded to the nearest output pixel, its dots are those of the
/// data at 72 DPI, and text processing resumes at the end of the row.
pub proof fn law_graphics_72_command(m: ParserModel, params: Seq<u8>, data: Seq<u8>)
    requires
        m.state == StateModel::Normal,
        params.len() == 4,
        graphics_count(params) == Some(data.len()),
        data.len() >= 1,
    ensures
        ({
            let start_x = round_to_multiple(m.cursor.x, PIXEL_X_UNITS);
            m.run(seq![0x1B, 0x47] + params + data) == (ParserModel {
                page: m.page.with_marks(
                    row_dots(data, 0, start_x, GraphicsDensity::Single72, m.cursor.y, m.color),
                ),
                cursor: Position {
                    x: column_x(start_x, data.len() as int, GraphicsDensity::Single72),
                    y: m.cursor.y,
                },
                ..m
            })
        }),
{
    reveal(ParserModel::execute);
    reveal(ParserModel::enter_graphics_72);
    reveal(ParserModel::enter_graphics);
    law_escape_with_parameters(m, 0x47, params);
    law_input_in_chunks(m, seq![0x1B, 0x47] + params, data);
    let start_x = round_to_multiple(m.cursor.x, PIXEL_X_UNITS);
    law_graphics_row(m, GraphicsDensity::Single72, start_x, data);
}

/// `s` holds the completed pages of `m`, with at most `m`'s current page added after them.
pub open spec fn keeps_completed_pages(m: ParserModel, s: ParserModel) -> bool {
    ||| s.completed_pages == m.completed_pages
    ||| s.completed_pages == m.completed_pages.push(m.page)
}

proof fn lemma_line_feed_keeps(m: ParserModel)
    ensures
        keeps_completed_pages(m, m.line_feed()),
{
    reveal(ParserModel::line_feed);
    reveal(ParserModel::eject_page);
}

proof fn lemma_print_char_keeps(m: ParserModel, ch: u8)
    ensures
        keeps_completed_pages(m, m.print_char(ch)),
{
    reveal(ParserModel::print_char);
    lemma_line_feed_keeps(m.carriage_return());
}

proof fn lemma_normal_keeps(m: ParserModel, byte: u8)
    ensures
        keeps_completed_pages(m, m.normal(byte)),
{
    reveal(ParserModel::normal);
    reveal(ParserModel::eject_page);
    reveal(ParserModel::backspace);
    reveal(ParserModel::horizontal_tab);
    lemma_line_feed_keeps(m);
    lemma_print_char_keeps(m, byte);
}

proof fn lemma_execute_keeps(m: ParserModel, cmd: u8, params: Seq<u8>)
    ensures
        keeps_completed_pages(m, m.execute(cmd, params)),
{
    reveal(ParserModel::execute);
    reveal(ParserModel::set_left_margin);
    reveal(ParserModel::set_right_margin);
    reveal(ParserModel::set_horizontal_position);
    reveal(ParserModel::set_horizontal_position_720);
    reveal(ParserModel::set_line_spacing_144);
    reveal(ParserModel::set_page_length);
    reveal(ParserModel::set_color);
    reveal(ParserModel::print_immediate);
    reveal(ParserModel::enter_graphics_72);
    reveal(ParserModel::enter_graphics_144);
    reveal(ParserModel::enter_graphics_extended);
    reveal(ParserModel::enter_graphics);
    reveal(ParserModel::set_one_line_proportional);
    if params.len() > 0 {
        lemma_print_char_keeps(m, params[0]);
    }
}

/// Completed pages stay as they are until taken: a byte either leaves them
/// as they were, or adds exactly the page being printed after them (the page
/// is ejected), or, as ESC c, resets the whole printer.
pub proof fn law_completed_pages_kept(m: ParserModel, byte: u8)
    ensures
        keeps_completed_pages(m, m.step(byte)) || m.step(byte) == ParserModel::initial(),
{
    reveal(ParserModel::step);
    reveal(ParserModel::escape);
    reveal(ParserModel::simple_command);
    reveal(ParserModel::parameter_byte);
    reveal(ParserModel::graphics_data);
    reveal(ParserModel::graphics_byte);
    match m.state {
        StateModel::Normal => lemma_normal_keeps(m, byte),
        StateModel::CollectingParams { cmd, params, needed } => {
            lemma_execute_keeps(m.with_state(StateModel::Normal), cmd, params.push(byte));
        },
        _ => {},
    }
}

/// ESC n prints its parameter byte without moving the cursor across the line.
pub proof fn law_print_immediate(m: ParserModel, ch: u8)
    requires
        m.state == StateModel::Normal,
    ensures
        m.run(seq![0x1B, 0x6E, ch]).cursor.x == m.cursor.x,
        m.run(seq![0x1B, 0x6E, ch]) == m.print_char(ch).with_x(m.cursor.x),
{
    law_escape_with_parameters(m, 0x6E, seq![ch]);
    assert(seq![0x1Bu8, 0x6E] + seq![ch] =~= seq![0x1B, 0x6E, ch]);
    reveal(ParserModel::execute);
    reveal(ParserModel::print_immediate);
}

proof fn lemma_line_feed_wf(m: ParserModel)
    requires
        m.wf(),
    ensures
        m.line_feed().wf(),
{
    reveal(ParserModel::line_feed);
    reveal(ParserModel::eject_page);
}

proof fn lemma_print_char_wf(m: ParserModel, ch: u8)
    requires
        m.wf(),
    ensures
        m.print_char(ch).wf(),
{
    reveal(ParserModel::print_char);
    lemma_line_feed_wf(m.carriage_return());
}

#[verifier::rlimit(30)]
proof fn lemma_normal_wf(m: ParserModel, byte: u8)
    requires
        m.wf(),
    ensures
        m.normal(byte).wf(),
{
    reveal(ParserModel::normal);
    reveal(ParserModel::eject_page);
    reveal(ParserModel::backspace);
    reveal(ParserModel::horizontal_tab);
    reveal(state_ok);
    lemma_line_feed_wf(m);
    lemma_print_char_wf(m, byte);
}

proof fn lemma_escape_wf(m: ParserModel, cmd: u8)
    requires
        m.wf(),
    ensures
        m.escape(cmd).wf(),
{
    reveal(ParserModel::escape);
    reveal(ParserModel::simple_command);
    reveal(state_ok);
}

proof fn lemma_execute_wf(m: ParserModel, cmd: u8, params: Seq<u8>)
    requires
        m.wf(),
    ensures
        m.execute(cmd, params).wf(),
{
    reveal(ParserModel::execute);
    reveal(ParserModel::set_left_margin);
    reveal(ParserModel::set_right_margin);
    reveal(ParserModel::set_horizontal_position);
    reveal(ParserModel::set_horizontal_position_720);
    reveal(ParserModel::set_line_spacing_144);
    reveal(ParserModel::set_page_length);
    reveal(ParserModel::set_color);
    reveal(ParserModel::print_immediate);
    reveal(ParserModel::enter_graphics_72);
    reveal(ParserModel::enter_graphics_144);
    reveal(ParserModel::enter_graphics_extended);
    reveal(ParserModel::enter_graphics);
    reveal(ParserModel::set_one_line_proportional);
    reveal(state_ok);
    if params.len() > 0 {
        lemma_print_char_wf(m, params[0]);
    }
}

/// Every byte keeps the printer's bounds: the pitch is one of 10, 12, 15 and
/// 17 characters per inch, the color one of the four ribbon colors, parameters
/// are never collected past their command's count, and the cursor, spacing,
/// margin and page length stay within the range their parameters allow.
pub proof fn law_step_keeps_bounds(m: ParserModel, byte: u8)
    requires
        m.wf(),
    ensures
        m.step(byte).wf(),
{
    reveal(ParserModel::step);
    reveal(ParserModel::parameter_byte);
    reveal(ParserModel::graphics_data);
    reveal(ParserModel::graphics_byte);
    reveal(state_ok);
    match m.state {
        StateModel::Normal => lemma_normal_wf(m, byte),
        StateModel::EscapeSeen => lemma_escape_wf(m, byte),
        StateModel::CollectingParams { cmd, params, needed } => {
            lemma_execute_wf(m.with_state(StateModel::Normal), cmd, params.push(byte));
        },
        _ => {},
    }
}

/// Every state that input leads to from a new printer keeps the bounds.
pub proof fn law_run_keeps_bounds(m: ParserModel, bytes: Seq<u8>)
    requires
        m.wf(),
    ensures
        m.run(bytes).wf(),
    decreases bytes.len(),
{
    if bytes.len() > 0 {
        law_step_keeps_bounds(m, bytes[0]);
        law_run_keeps_bounds(m.step(bytes[0]), bytes.drop_first());
    }
}

/// A new printer is within the bounds.
pub proof fn law_initial_within_bounds()
    ensures
        ParserModel::initial().wf(),
{
    reveal(state_ok);
}

/// ESC o: from text processing with no one-line setting pending, ESC o and
/// four digits turn proportional spacing on for the current line only; the
/// next carriage return (or line feed, or a line broken at the right margin)
/// brings back the setting from before.
pub proof fn law_one_line_proportional(m: ParserModel, params: Seq<u8>)
    requires
        m.state == StateModel::Normal,
        m.proportional_after_line is None,
        params.len() == 4,
        digits_u32(params) is Some,
    ensures
        m.run(seq![0x1B, 0x6F] + params).proportional,
        m.run(seq![0x1B, 0x6F] + params).proportional_after_line == Some(m.proportional),
        m.run(seq![0x1B, 0x6F] + params + seq![0x0D]).proportional == m.proportional,
        m.run(seq![0x1B, 0x6F] + params + seq![0x0D]).proportional_after_line is None,
{
    reveal(ParserModel::execute);
    reveal(ParserModel::set_one_line_proportional);
    law_escape_with_parameters(m, 0x6F, params);
    let s = m.run(seq![0x1B, 0x6F] + params);
    law_input_in_chunks(m, seq![0x1B, 0x6F] + params, seq![0x0D]);
    reveal(ParserModel::step);
    reveal(ParserModel::normal);
    let cr: Seq<u8> = seq![0x0D];
    assert(cr.drop_first() =~= Seq::<u8>::empty());
    assert(s.run(cr) == s.step(cr[0]).run(cr.drop_first()));
    assert(s.step(0x0D).run(Seq::<u8>::empty()) == s.step(0x0D));
    assert(s.run(cr) == s.step(0x0D));
}

/// ESC s: from text processing, ESC s, a density selector byte `n`, a
/// four-digit count and that many data bytes draw the data as one graphics row
/// at 72, 80, 96, 107, 120, 136, 144 or 160 DPI for `n` from 0 to 7 (72 DPI for
/// any other selector): one dot column is exactly 1 / dpi inch wide, the row
/// starts at the cursor rounded to the nearest output pixel, and text
/// processing resumes at the end of the row.
pub proof fn law_extended_graphics(m: ParserModel, n: u8, digits: Seq<u8>, data: Seq<u8>)
    requires
        m.state == StateModel::Normal,
        digits.len() == 4,
        graphics_count(digits) == Some(data.len()),
        data.len() >= 1,
    ensures
        ({
            let dpi: u64 = if n == 1 {
                80
            } else if n == 2 {
                96
            } else if n == 3 {
                107
            } else if n == 4 {
                120
            } else if n == 5 {
                136
            } else if n == 6 {
                144
            } else if n == 7 {
                160
            } else {
                72
            };
            let d = GraphicsDensity::from_selector(n);
            let start_x = round_to_multiple(m.cursor.x, PIXEL_X_UNITS);
            &&& d.dpi() == dpi
            &&& d.dot_width() * dpi == X_UNITS_PER_INCH
            &&& m.run(seq![0x1B, 0x73] + (seq![n] + digits) + data) == (ParserModel {
                page: m.page.with_marks(row_dots(data, 0, start_x, d, m.cursor.y, m.color)),
                cursor: Position { x: column_x(start_x, data.len() as int, d), y: m.cursor.y },
                ..m
            })
        }),
{
    reveal(ParserModel::execute);
    reveal(ParserModel::enter_graphics_extended);
    reveal(ParserModel::enter_graphics);
    let params = seq![n] + digits;
    assert(params.drop_first() =~= digits);
    assert(params[0] == n);
    law_escape_with_parameters(m, 0x73, params);
    law_input_in_chunks(m, seq![0x1B, 0x73] + params, data);
    let start_x = round_to_multiple(m.cursor.x, PIXEL_X_UNITS);
    law_graphics_row(m, GraphicsDensity::from_selector(n), start_x, data);
}

/// ESC K: from text processing, ESC K and a byte `c` select the ribbon color
/// `c` (0 black, 1 yellow, 2 red, 3 blue), any larger byte selecting 3;
/// nothing else changes.
pub proof fn law_set_color(m: ParserModel, c: u8)
    requires
        m.state == StateModel::Normal,
    ensures
        m.run(seq![0x1B, 0x4B, c]) == (ParserModel { color: if c < 3 { c } else { 3 }, ..m }),
        m.run(seq![0x1B, 0x4B, c]).color <= 3,
        c <= 3 ==> m.run(seq![0x1B, 0x4B, c]).color == c,
{
    reveal(ParserModel::execute);
    reveal(ParserModel::set_color);
    law_escape_with_parameters(m, 0x4B, seq![c]);
    assert(seq![0x1Bu8, 0x4B] + seq![c] =~= seq![0x1Bu8, 0x4B, c]);
}

/// ESC L: from text processing, ESC L and three digits set the left margin to
/// that many tenths of an inch; the cursor moves only where it stood left of
/// the new margin, to the margin, and otherwise stays. Parameters that are
/// not a number change nothing.
pub proof fn law_set_left_margin(m: ParserModel, params: Seq<u8>)
    requires
        m.state == StateModel::Normal,
        params.len() == 3,
    ensures
        match digits_u32(params) {
            Some(cols) => {
                let lm = cols * TENTH_INCH;
                let s = m.run(seq![0x1B, 0x4C] + params);
                &&& s.left_margin == lm
                &&& s.cursor.x == (if m.cursor.x < lm { lm } else { m.cursor.x as int })
                &&& s.cursor.x >= m.cursor.x
                &&& s.cursor.x >= s.left_margin
                &&& s == (ParserModel {
                    left_margin: s.left_margin,
                    cursor: Position { x: s.cursor.x, y: m.cursor.y },
                    ..m
                })
            },
            None => m.run(seq![0x1B, 0x4C] + params) == m,
        },
{
    reveal(ParserModel::execute);
    reveal(ParserModel::set_left_margin);
    law_escape_with_parameters(m, 0x4C, params);
}

/// The first stop of `tabs` right of `x` is the stop at the first index whose
/// stop lies right of `x`; there is none where no stop does; and where the
/// stops increase, it is the least stop right of `x`.
proof fn lemma_first_tab_after(tabs: Seq<u64>, x: u64)
    ensures
        (forall|i: int| 0 <= i < tabs.len() ==> tabs[i] <= x) ==> first_tab_after(tabs, x) is None,
        forall|i: int|
            0 <= i < tabs.len() && tabs[i] > x && (forall|j: int| 0 <= j < i ==> tabs[j] <= x)
                ==> first_tab_after(tabs, x) == Some(tabs[i]),
        (forall|i: int, j: int| 0 <= i < j < tabs.len() ==> tabs[i] < tabs[j]) && (exists|i: int|
            0 <= i < tabs.len() && tabs[i] > x) ==> (first_tab_after(tabs, x) matches Some(t) && t > x
            && (exists|i: int| 0 <= i < tabs.len() && tabs[i] == t) && (forall|j: int|
            0 <= j < tabs.len() && tabs[j] > x ==> t <= tabs[j])),
    decreases tabs.len(),
{
    if tabs.len() > 0 {
        let rest = tabs.drop_first();
        lemma_first_tab_after(rest, x);
        assert forall|i: int|
            0 <= i < tabs.len() && tabs[i] > x && (forall|j: int| 0 <= j < i ==> tabs[j] <= x)
                implies first_tab_after(tabs, x) == Some(tabs[i]) by {
            if i > 0 {
                assert(tabs[0] <= x);
                assert(rest[i - 1] == tabs[i]);
                assert forall|j: int| 0 <= j < i - 1 implies rest[j] <= x by {
                    assert(rest[j] == tabs[j + 1]);
                }
            }
        }
        if forall|i: int| 0 <= i < tabs.len() ==> tabs[i] <= x {
            assert forall|i: int| 0 <= i < rest.len() implies rest[i] <= x by {
                assert(rest[i] == tabs[i + 1]);
            }
        }
        if (forall|i: int, j: int| 0 <= i < j < tabs.len() ==> tabs[i] < tabs[j]) && (exists|i: int|
            0 <= i < tabs.len() && tabs[i] > x) {
            if tabs[0] > x {
                assert(tabs[0] == tabs[0]);
                assert forall|j: int| 0 <= j < tabs.len() && tabs[j] > x implies tabs[0] <= #[trigger] tabs[j] by {
                    if j > 0 {
                        assert(tabs[0] < tabs[j]);
                    }
                }
            } else {
                let w = choose|i: int| 0 <= i < tabs.len() && tabs[i] > x;
                assert(rest[w - 1] == tabs[w]);
                assert forall|i: int, j: int| 0 <= i < j < rest.len() implies rest[i] < rest[j] by {
                    assert(rest[i] == tabs[i + 1]);
                    assert(rest[j] == tabs[j + 1]);
                }
                let t = first_tab_after(rest, x)->0;
                let k = choose|i: int| 0 <= i < rest.len() && rest[i] == t;
                assert(tabs[k + 1] == t);
                assert forall|j: int| 0 <= j < tabs.len() && tabs[j] > x implies t <= tabs[j] by {
                    assert(j > 0);
                    assert(rest[j - 1] == tabs[j]);
                }
            }
        }
    }
}

/// Horizontal tab: from text processing, the cursor goes to the first tab stop
/// (in the order they are kept) strictly right of it, held to the right margin,
/// on the same line, and nothing else changes; with no stop right of it, it
/// stays. Where the stops increase, as they always are, and one lies right of
/// the cursor and left of the right margin, the cursor moves strictly right,
/// onto the least stop right of where it was.
pub proof fn law_horizontal_tab(m: ParserModel)
    requires
        m.state == StateModel::Normal,
    ensures
        (forall|i: int| 0 <= i < m.tabs.len() ==> m.tabs[i] <= m.cursor.x) ==> m.step(0x09) == m,
        forall|i: int|
            0 <= i < m.tabs.len() && m.tabs[i] > m.cursor.x && (forall|j: int|
                0 <= j < i ==> m.tabs[j] <= m.cursor.x) ==> m.step(0x09) == (ParserModel {
                cursor: Position {
                    x: if m.tabs[i] < m.right_margin { m.tabs[i] } else { m.right_margin },
                    y: m.cursor.y,
                },
                ..m
            }),
        (forall|i: int, j: int| 0 <= i < j < m.tabs.len() ==> m.tabs[i] < m.tabs[j]) && (exists|i: int|
            #![trigger m.tabs[i]] 0 <= i < m.tabs.len() && m.cursor.x < m.tabs[i] < m.right_margin) ==> {
            let nx = m.step(0x09).cursor.x;
            &&& nx > m.cursor.x
            &&& exists|i: int| 0 <= i < m.tabs.len() && m.tabs[i] == nx
            &&& forall|j: int| 0 <= j < m.tabs.len() && m.tabs[j] > m.cursor.x ==> nx <= m.tabs[j]
            &&& m.step(0x09).cursor.y == m.cursor.y
        },
{
    reveal(ParserModel::step);
    reveal(ParserModel::normal);
    reveal(ParserModel::horizontal_tab);
    lemma_first_tab_after(m.tabs, m.cursor.x);
    if (forall|i: int, j: int| 0 <= i < j < m.tabs.len() ==> m.tabs[i] < m.tabs[j]) && (exists|i: int|
        #![trigger m.tabs[i]] 0 <= i < m.tabs.len() && m.cursor.x < m.tabs[i] < m.right_margin) {
        let w = choose|i: int| #![trigger m.tabs[i]] 0 <= i < m.tabs.len() && m.cursor.x < m.tabs[i] < m.right_margin;
        assert(m.tabs[w] > m.cursor.x);
        let t = first_tab_after(m.tabs, m.cursor.x)->0;
        assert(t <= m.tabs[w]);
    }
}

} // verus!
