use snow_imagewriter::commands::PrinterColor;
use snow_imagewriter::digits::parse_decimal_bytes;
use snow_imagewriter::output::{number_printed_pages, save_page, FileKind, OutputFormat};
use snow_imagewriter::page::PageBuffer;
use snow_imagewriter::render::Raster;

#[test]
fn printer_color_rgb_values() {
    assert_eq!(PrinterColor::Black.rgb(), (0, 0, 0));
    assert_eq!(PrinterColor::Yellow.rgb(), (255, 255, 0));
    assert_eq!(PrinterColor::Red.rgb(), (255, 0, 0));
    assert_eq!(PrinterColor::Blue.rgb(), (0, 0, 255));
}

#[test]
fn printer_color_from_number() {
    assert_eq!(PrinterColor::from(0u8), PrinterColor::Black);
    assert_eq!(PrinterColor::from(1u8), PrinterColor::Yellow);
    assert_eq!(PrinterColor::from(2u8), PrinterColor::Red);
    assert_eq!(PrinterColor::from(3u8), PrinterColor::Blue);
    assert_eq!(PrinterColor::from(4u8), PrinterColor::Black);
    assert_eq!(PrinterColor::from(255u8), PrinterColor::Black);
    assert_eq!(PrinterColor::Red.to_number(), 2);
}

#[test]
fn output_format_names_in_any_case() {
    assert_eq!(OutputFormat::parse("pdf"), Ok(OutputFormat::Pdf));
    assert_eq!(OutputFormat::parse("PDF"), Ok(OutputFormat::Pdf));
    assert_eq!(OutputFormat::parse("Png"), Ok(OutputFormat::Png));
    assert_eq!(OutputFormat::parse("bOtH"), Ok(OutputFormat::Both));
    assert_eq!("png".parse::<OutputFormat>(), Ok(OutputFormat::Png));
}

#[test]
fn output_format_unknown_name() {
    assert_eq!(OutputFormat::parse("jpeg"), Err("Unknown format: jpeg".to_string()));
    assert_eq!(OutputFormat::parse(""), Err("Unknown format: ".to_string()));
    assert_eq!(OutputFormat::parse("pdf "), Err("Unknown format: pdf ".to_string()));
    assert_eq!(OutputFormat::parse("pdfs"), Err("Unknown format: pdfs".to_string()));
}

#[test]
fn output_format_default_is_pdf() {
    assert_eq!(OutputFormat::default(), OutputFormat::Pdf);
}

#[test]
fn save_page_file_names() {
    let files = save_page(7, OutputFormat::Pdf);
    assert_eq!(files, vec![(FileKind::Pdf, "print_007.pdf".to_string())]);
    let files = save_page(42, OutputFormat::Png);
    assert_eq!(files, vec![(FileKind::Png, "print_042.png".to_string())]);
    let files = save_page(123, OutputFormat::Both);
    assert_eq!(
        files,
        vec![
            (FileKind::Pdf, "print_123.pdf".to_string()),
            (FileKind::Png, "print_123.png".to_string())
        ]
    );
    let files = save_page(1234, OutputFormat::Pdf);
    assert_eq!(files, vec![(FileKind::Pdf, "print_1234.pdf".to_string())]);
    let files = save_page(0, OutputFormat::Png);
    assert_eq!(files, vec![(FileKind::Png, "print_000.png".to_string())]);
}

#[test]
fn decimal_parameters() {
    assert_eq!(parse_decimal_bytes(b"080", u32::MAX as u64), Some(80));
    assert_eq!(parse_decimal_bytes(b"+12", u32::MAX as u64), Some(12));
    assert_eq!(parse_decimal_bytes(b"0000", u32::MAX as u64), Some(0));
    assert_eq!(parse_decimal_bytes(b"+", u32::MAX as u64), None);
    assert_eq!(parse_decimal_bytes(b"", u32::MAX as u64), None);
    assert_eq!(parse_decimal_bytes(b"-1", u32::MAX as u64), None);
    assert_eq!(parse_decimal_bytes(b"1a", u32::MAX as u64), None);
    assert_eq!(parse_decimal_bytes(b" 12", u32::MAX as u64), None);
    assert_eq!(parse_decimal_bytes(b"++1", u32::MAX as u64), None);
    assert_eq!(parse_decimal_bytes(b"4294967295", u32::MAX as u64), Some(4294967295));
    assert_eq!(parse_decimal_bytes(b"4294967296", u32::MAX as u64), None);
    assert_eq!(parse_decimal_bytes(&[0x31, 0xB2], u32::MAX as u64), None);
}

#[test]
fn printed_pages_skip_blank_ones() {
    let mut a = PageBuffer::new(10, 10);
    a.set_dot(1, 1, 0);
    let b = PageBuffer::new(10, 10);
    let mut c = PageBuffer::new(10, 10);
    c.set_dot(2, 2, 1);
    let pages = vec![a, b, c];
    assert_eq!(number_printed_pages(&pages, 5), vec![(5, 0), (6, 2)]);
    assert_eq!(number_printed_pages(&Vec::new(), 1), Vec::<(usize, usize)>::new());
}

#[test]
fn render_colors_the_dotted_pixels() {
    // A page two pixels wide (the second one partly) and three high.
    let mut page = PageBuffer::new(18190 + 1, 3);
    page.set_dot(18190, 1, 2); // second column, second row: red
    page.set_dot(5, 2, 1); // first column, third row: yellow
    page.set_dot(5, 2, 3); // same pixel again: blue wins
    page.set_dot(40000, 0, 2); // right of the page: not drawn
    let raster: Raster = page.render();
    assert_eq!(raster.pixel_width, 2);
    assert_eq!(raster.pixel_height, 3);
    assert_eq!(raster.pixels.len(), 2 * 3 * 4);
    let px = |col: usize, row: usize| {
        let i = (row * 2 + col) * 4;
        (raster.pixels[i], raster.pixels[i + 1], raster.pixels[i + 2], raster.pixels[i + 3])
    };
    assert_eq!(px(0, 0), (255, 255, 255, 255));
    assert_eq!(px(1, 0), (255, 255, 255, 255));
    assert_eq!(px(1, 1), (255, 0, 0, 255));
    assert_eq!(px(0, 2), (0, 0, 255, 255));
    assert_eq!(px(0, 1), (255, 255, 255, 255));
}

#[test]
fn distinct_page_numbers_give_distinct_files() {
    let a = save_page(5, OutputFormat::Both);
    let b = save_page(50, OutputFormat::Both);
    let c = save_page(500, OutputFormat::Both);
    let mut names: Vec<String> = a.into_iter().chain(b).chain(c).map(|(_, n)| n).collect();
    let count = names.len();
    names.sort();
    names.dedup();
    assert_eq!(names.len(), count);
}
