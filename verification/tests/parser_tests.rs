use snow_imagewriter::page::{Mark, PageBuffer};
use snow_imagewriter::protocol::{CharacterInfo, GraphicsDensity, ImageWriterParser, Position};
use snow_imagewriter::units::{X_UNITS_PER_INCH, TENTH_INCH};

const ESC: u8 = 0x1B;

fn feed(parser: &mut ImageWriterParser, bytes: &[u8]) {
    parser.process_bytes(bytes);
}

fn chars(page: &PageBuffer) -> Vec<(u8, Position)> {
    page.marks
        .iter()
        .filter_map(|m| match m {
            Mark::Character { at, info } => Some((info.ch, *at)),
            _ => None,
        })
        .collect()
}

fn dots(page: &PageBuffer) -> Vec<(u64, u64, u8)> {
    page.marks
        .iter()
        .filter_map(|m| match m {
            Mark::Dot { x, y, color } => Some((*x, *y, *color)),
            _ => None,
        })
        .collect()
}

fn info(ch: u8) -> CharacterInfo {
    CharacterInfo {
        ch,
        bold: false,
        underline: false,
        italic: false,
        superscript: false,
        subscript: false,
        half_height: false,
        double_strike: false,
        cpi: 10,
        color: 0,
    }
}

#[test]
fn new_parser_has_a_blank_letter_page() {
    let parser = ImageWriterParser::new();
    let page = parser.current_page();
    assert_eq!(page.width, 8 * X_UNITS_PER_INCH + X_UNITS_PER_INCH / 2);
    assert_eq!(page.height, 11 * 144);
    assert!(page.is_empty());
}

#[test]
fn text_advances_one_tenth_inch_at_pica() {
    let mut p = ImageWriterParser::new();
    feed(&mut p, b"AB");
    let page = p.current_page();
    assert_eq!(page.marks[0], Mark::Character { at: Position { x: 0, y: 0 }, info: info(b'A') });
    assert_eq!(chars(page), vec![(b'A', Position { x: 0, y: 0 }), (b'B', Position { x: TENTH_INCH, y: 0 })]);
}

#[test]
fn carriage_return_and_line_feed() {
    let mut p = ImageWriterParser::new();
    feed(&mut p, b"A\r\nB\n\x0bC");
    let got = chars(p.current_page());
    assert_eq!(got[1], (b'B', Position { x: 0, y: 24 }));
    // LF keeps the column; VT is a line feed too
    assert_eq!(got[2], (b'C', Position { x: TENTH_INCH, y: 72 }));
}

#[test]
fn pitch_commands_change_character_width() {
    let mut p = ImageWriterParser::new();
    feed(&mut p, &[ESC, b'E', b'A', b'B', ESC, b'q', b'C', b'D', ESC, b'Q', b'E', b'F', 0x14, b'G']);
    let got = chars(p.current_page());
    let elite = X_UNITS_PER_INCH / 12;
    let semi = X_UNITS_PER_INCH / 15;
    let cond = X_UNITS_PER_INCH / 17;
    assert_eq!(got[1].1.x, elite);
    assert_eq!(got[3].1.x, 2 * elite + semi);
    assert_eq!(got[5].1.x, 2 * elite + 2 * semi + cond);
    assert_eq!(got[6].1.x, 2 * elite + 2 * semi + 2 * cond);
}

#[test]
fn style_attributes_are_recorded() {
    let mut p = ImageWriterParser::new();
    feed(&mut p, &[ESC, b'!', ESC, b'X', ESC, b'a', ESC, b'x', ESC, b'9', 0x0F, b'A', ESC, b'"', ESC, b'Y', ESC, b'b', ESC, b'y', 0x0E, b'B']);
    let page = p.current_page();
    match page.marks[0] {
        Mark::Character { info, .. } => {
            assert!(info.bold && info.underline && info.italic && info.superscript);
            assert!(info.double_strike && info.half_height);
        },
        _ => panic!("expected a character"),
    }
    match page.marks[1] {
        Mark::Character { info, .. } => {
            assert!(!info.bold && !info.underline && !info.italic && !info.superscript);
            assert!(info.double_strike && !info.half_height);
        },
        _ => panic!("expected a character"),
    }
}

#[test]
fn left_margin_moves_cursor_and_carriage_return() {
    let mut p = ImageWriterParser::new();
    feed(&mut p, &[ESC, b'L', b'0', b'1', b'0', b'A', b'\r', b'B']);
    let got = chars(p.current_page());
    assert_eq!(got[0].1, Position { x: X_UNITS_PER_INCH, y: 0 });
    assert_eq!(got[1].1, Position { x: X_UNITS_PER_INCH, y: 0 });
}

#[test]
fn escape_parameters_are_not_printed() {
    let mut p = ImageWriterParser::new();
    feed(&mut p, &[ESC, b'l', b'0', b'2', b'0', b'A']);
    let got = chars(p.current_page());
    assert_eq!(got, vec![(b'A', Position { x: 2 * X_UNITS_PER_INCH, y: 0 })]);
}

#[test]
fn invalid_digit_parameters_are_ignored() {
    let mut p = ImageWriterParser::new();
    feed(&mut p, &[ESC, b'L', b'0', b'x', b'0', b'A']);
    let got = chars(p.current_page());
    assert_eq!(got, vec![(b'A', Position { x: 0, y: 0 })]);
}

#[test]
fn fine_horizontal_position() {
    let mut p = ImageWriterParser::new();
    feed(&mut p, &[ESC, b'F', b'0', b'7', b'2', b'0', b'A']);
    assert_eq!(chars(p.current_page())[0].1.x, X_UNITS_PER_INCH);
}

#[test]
fn line_spacing_commands() {
    let mut p = ImageWriterParser::new();
    feed(&mut p, &[ESC, b'B', b'\n', b'A', ESC, b'T', b'3', b'6', b'\n', b'B', ESC, b'A', b'\n', b'C']);
    let got = chars(p.current_page());
    assert_eq!(got[0].1.y, 18);
    assert_eq!(got[1].1.y, 18 + 36);
    assert_eq!(got[2].1.y, 18 + 36 + 24);
}

#[test]
fn backspace_stops_at_left_margin() {
    let mut p = ImageWriterParser::new();
    feed(&mut p, &[ESC, b'L', b'0', b'0', b'5', 0x08, b'A', 0x08, 0x08, 0x08, b'B']);
    let got = chars(p.current_page());
    assert_eq!(got[0].1.x, 5 * TENTH_INCH);
    assert_eq!(got[1].1.x, 5 * TENTH_INCH);
}

#[test]
fn tab_goes_to_next_half_inch_stop() {
    let mut p = ImageWriterParser::new();
    feed(&mut p, &[b'A', b'\t', b'B', b'\t', b'C']);
    let got = chars(p.current_page());
    assert_eq!(got[1].1.x, X_UNITS_PER_INCH / 2);
    assert_eq!(got[2].1.x, X_UNITS_PER_INCH);
}

#[test]
fn cleared_tabs_leave_cursor_in_place() {
    let mut p = ImageWriterParser::new();
    feed(&mut p, &[ESC, b'0', b'A', b'\t', b'B']);
    let got = chars(p.current_page());
    assert_eq!(got[1].1.x, TENTH_INCH);
}

#[test]
fn tab_stops_at_right_margin() {
    let mut p = ImageWriterParser::new();
    // Right margin at 1/2 inch, cursor at 6/10 inch: the next stop (1 inch) lies
    // past the margin, so the tab goes to the margin.
    feed(&mut p, &[ESC, b'M', b'0', b'0', b'5', ESC, b'l', b'0', b'0', b'6', b'\t']);
    feed(&mut p, &[ESC, b'G', b'0', b'0', b'0', b'1', 0x01]);
    assert_eq!(dots(p.current_page()), vec![(X_UNITS_PER_INCH / 2, 0, 0)]);
}

#[test]
fn right_margin_wraps_the_line() {
    let mut p = ImageWriterParser::new();
    // Right margin at 1 inch: ten characters fit at 10 CPI.
    feed(&mut p, &[ESC, b'M', b'0', b'1', b'0']);
    feed(&mut p, b"0123456789X");
    let got = chars(p.current_page());
    assert_eq!(got[9].1, Position { x: 9 * TENTH_INCH, y: 0 });
    assert_eq!(got[10].1, Position { x: 0, y: 24 });
}

#[test]
fn form_feed_ejects_the_page() {
    let mut p = ImageWriterParser::new();
    feed(&mut p, b"A\x0c");
    assert!(p.current_page().is_empty());
    let pages = p.take_completed_pages();
    assert_eq!(pages.len(), 1);
    assert_eq!(chars(&pages[0]), vec![(b'A', Position { x: 0, y: 0 })]);
    assert!(p.take_completed_pages().is_empty());
}

#[test]
fn page_overflow_ejects_after_the_last_line() {
    let mut p = ImageWriterParser::new();
    // 11 inches at 6 lines per inch: the 66th line feed reaches the end of the form.
    feed(&mut p, b"A");
    for _ in 0..65 {
        feed(&mut p, b"\n");
    }
    assert!(p.take_completed_pages().is_empty());
    feed(&mut p, b"\n");
    let pages = p.take_completed_pages();
    assert_eq!(pages.len(), 1);
    feed(&mut p, b"B");
    assert_eq!(chars(p.current_page()), vec![(b'B', Position { x: 0, y: 0 })]);
}

#[test]
fn page_length_applies_to_the_next_page() {
    let mut p = ImageWriterParser::new();
    feed(&mut p, &[ESC, b'H', b'0', b'2', b'8', b'8', 0x0C]);
    assert_eq!(p.current_page().height, 288);
    feed(&mut p, &[b'\n'; 11]);
    assert!(p.take_completed_pages().len() == 1);
    feed(&mut p, &[b'\n']);
    assert_eq!(p.take_completed_pages().len(), 1);
    feed(&mut p, &[ESC, b'H', b'0', b'0', b'0', b'0', 0x0C]);
    assert_eq!(p.current_page().height, 14400);
}

#[test]
fn reset_restores_defaults_and_discards_pages() {
    let mut p = ImageWriterParser::new();
    feed(&mut p, &[ESC, b'!', ESC, b'L', b'0', b'1', b'0', b'A', 0x0C, b'B', ESC, b'c', b'C']);
    assert!(p.take_completed_pages().is_empty());
    let page = p.current_page();
    assert_eq!(page.marks, vec![Mark::Character { at: Position { x: 0, y: 0 }, info: info(b'C') }]);
}

#[test]
fn color_select_is_clamped() {
    let mut p = ImageWriterParser::new();
    feed(&mut p, &[ESC, b'K', 2, b'A', ESC, b'K', 9, b'B']);
    let page = p.current_page();
    match (page.marks[0], page.marks[1]) {
        (Mark::Character { info: a, .. }, Mark::Character { info: b, .. }) => {
            assert_eq!(a.color, 2);
            assert_eq!(b.color, 3);
        },
        _ => panic!("expected characters"),
    }
}

#[test]
fn immediate_print_does_not_advance() {
    let mut p = ImageWriterParser::new();
    feed(&mut p, &[b'A', ESC, b'n', b'_', b'B']);
    let got = chars(p.current_page());
    assert_eq!(got[1], (b'_', Position { x: TENTH_INCH, y: 0 }));
    assert_eq!(got[2], (b'B', Position { x: TENTH_INCH, y: 0 }));
}

#[test]
fn graphics_row_at_72_dpi() {
    let mut p = ImageWriterParser::new();
    feed(&mut p, &[ESC, b'G', b'0', b'0', b'0', b'3', 0x01, ESC, 0x82, b'A']);
    let d = X_UNITS_PER_INCH / 72;
    // Bit b of a byte is a dot b/72 inch (2 vertical units each) down.
    assert_eq!(
        dots(p.current_page()),
        vec![(0, 0, 0), (d, 0, 0), (d, 2, 0), (d, 6, 0), (d, 8, 0), (2 * d, 2, 0), (2 * d, 14, 0)]
    );
    // The data bytes are not text: after them, 'A' prints at the end of the row.
    assert_eq!(chars(p.current_page()), vec![(b'A', Position { x: 3 * d, y: 0 })]);
}

#[test]
fn graphics_row_starts_on_a_pixel_boundary() {
    let mut p = ImageWriterParser::new();
    // At 17 CPI one character is not a whole number of 1/144 inch pixels.
    feed(&mut p, &[ESC, b'Q', b'A', ESC, b'V', b'0', b'0', b'0', b'1', 0x01]);
    let cond = X_UNITS_PER_INCH / 17;
    let pixel = X_UNITS_PER_INCH / 144;
    let start = ((2 * cond + pixel) / (2 * pixel)) * pixel;
    assert_eq!(dots(p.current_page()), vec![(start, 0, 0)]);
    feed(&mut p, b"B");
    assert_eq!(chars(p.current_page())[1].1.x, start + X_UNITS_PER_INCH / 144);
}

#[test]
fn extended_graphics_selects_density() {
    let mut p = ImageWriterParser::new();
    feed(&mut p, &[ESC, b's', 7, b'0', b'0', b'0', b'2', 0x80, 0x80, b'A']);
    let d = X_UNITS_PER_INCH / 160;
    assert_eq!(dots(p.current_page()), vec![(0, 14, 0), (d, 14, 0)]);
    assert_eq!(chars(p.current_page())[0].1.x, 2 * d);
    assert_eq!(GraphicsDensity::Dpi160.horizontal_dpi(), 160);
}

#[test]
fn graphics_count_zero_takes_one_byte() {
    let mut p = ImageWriterParser::new();
    feed(&mut p, &[ESC, b'g', b'0', b'0', b'0', b'0', b'A', b'B']);
    let d = X_UNITS_PER_INCH / 72;
    assert_eq!(dots(p.current_page()).len(), 2);
    assert_eq!(chars(p.current_page()), vec![(b'B', Position { x: d, y: 0 })]);
}

#[test]
fn graphics_dots_use_the_ribbon_color() {
    let mut p = ImageWriterParser::new();
    feed(&mut p, &[ESC, b'K', 1, ESC, b'G', b'0', b'0', b'0', b'1', 0x01]);
    assert_eq!(dots(p.current_page()), vec![(0, 0, 1)]);
}

#[test]
fn process_graphics_byte_places_column_exactly() {
    let mut p = ImageWriterParser::new();
    p.process_graphics_byte(0x03, GraphicsDensity::Dpi107, 100, 107);
    assert_eq!(dots(p.current_page()), vec![(100 + X_UNITS_PER_INCH, 0, 0), (100 + X_UNITS_PER_INCH, 2, 0)]);
    assert_eq!(p.graphics_line_height(), 16);
}

#[test]
fn force_eject_only_ejects_marked_pages() {
    let mut p = ImageWriterParser::new();
    p.force_eject();
    assert!(p.take_completed_pages().is_empty());
    feed(&mut p, b"A");
    p.force_eject();
    assert_eq!(p.take_completed_pages().len(), 1);
}

#[test]
fn completed_pages_come_out_in_order() {
    let mut p = ImageWriterParser::new();
    feed(&mut p, b"A\x0cB\x0c\x0c");
    let pages = p.take_completed_pages();
    assert_eq!(pages.len(), 3);
    assert_eq!(chars(&pages[0])[0].0, b'A');
    assert_eq!(chars(&pages[1])[0].0, b'B');
    assert!(pages[2].is_empty());
}

#[test]
fn bytes_one_by_one_or_together() {
    let input: &[u8] = b"Hi\x1bL005there\r\n\x1bG0002\x01\x02ok\x0c";
    let mut a = ImageWriterParser::new();
    a.process_bytes(input);
    let mut b = ImageWriterParser::new();
    for &byte in input {
        b.process_byte(byte);
    }
    let pa = a.take_completed_pages();
    let pb = b.take_completed_pages();
    assert_eq!(pa.len(), pb.len());
    assert_eq!(pa[0].marks, pb[0].marks);
}

#[test]
fn control_codes_without_effect_print_nothing() {
    let mut p = ImageWriterParser::new();
    feed(&mut p, &[0x00, 0x07, 0x11, 0x12, 0x13, 0x01, 0x7F, ESC, b'?', ESC, b'Z', b'A']);
    assert_eq!(chars(p.current_page()), vec![(b'A', Position { x: 0, y: 0 })]);
}

#[test]
fn high_bytes_print_as_characters() {
    let mut p = ImageWriterParser::new();
    feed(&mut p, &[0xE9]);
    assert_eq!(chars(p.current_page()), vec![(0xE9, Position { x: 0, y: 0 })]);
}

#[test]
fn cancel_line_returns_to_margin() {
    let mut p = ImageWriterParser::new();
    feed(&mut p, &[b'A', b'B', 0x18, b'C']);
    assert_eq!(chars(p.current_page())[2].1, Position { x: 0, y: 0 });
}

#[test]
fn graphics_count_of_four_digits() {
    let mut p = ImageWriterParser::new();
    let mut input = vec![ESC, b'G', b'0', b'2', b'5', b'2'];
    input.extend(std::iter::repeat(0u8).take(252));
    input.push(b'A');
    feed(&mut p, &input);
    assert!(dots(p.current_page()).is_empty());
    assert_eq!(chars(p.current_page()), vec![(b'A', Position { x: 252 * (X_UNITS_PER_INCH / 72), y: 0 })]);
}

#[test]
fn default_parser_is_new_parser() {
    let mut a = ImageWriterParser::default();
    let mut b = ImageWriterParser::new();
    feed(&mut a, b"Text\x0c");
    feed(&mut b, b"Text\x0c");
    assert_eq!(a.take_completed_pages()[0].marks, b.take_completed_pages()[0].marks);
}

#[test]
fn one_line_proportional_lasts_to_the_end_of_the_line() {
    let mut p = ImageWriterParser::new();
    assert!(!p.proportional());
    feed(&mut p, &[ESC, b'o', b'0', b'0', b'0', b'1', b'A']);
    assert!(p.proportional());
    feed(&mut p, b"\r");
    assert!(!p.proportional());
    // Ended by a line feed as well, and the earlier setting (on) comes back.
    feed(&mut p, &[ESC, b'p', ESC, b'o', b'0', b'0', b'0', b'1', ESC, b'P']);
    assert!(!p.proportional());
    feed(&mut p, &[ESC, b'p', ESC, b'o', b'0', b'0', b'0', b'1', b'\n']);
    assert!(p.proportional());
}

#[test]
fn one_line_proportional_ends_where_the_line_wraps() {
    let mut p = ImageWriterParser::new();
    feed(&mut p, &[ESC, b'M', b'0', b'0', b'2', ESC, b'o', b'0', b'0', b'0', b'1', b'A', b'B']);
    assert!(p.proportional());
    feed(&mut p, b"C");
    assert!(!p.proportional());
}

#[test]
fn one_line_proportional_needs_digits() {
    let mut p = ImageWriterParser::new();
    feed(&mut p, &[ESC, b'o', b'x', b'0', b'0', b'1']);
    assert!(!p.proportional());
}
