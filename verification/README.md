# snow-imagewriter

Apple ImageWriter II printer emulation for the Snow emulator: the printer's
byte stream (text, ESC commands, graphics data) is turned into pages, which are
saved as PDF and/or PNG files.

Layout:

- `src/` is the verified library.
  - `units.rs`: the integer units that positions are held in (exact for every
    pitch, column, step and graphics density the printer has).
  - `digits.rs`: ASCII decimal parameters.
  - `protocol.rs`: the printer state (`ParserModel`), the transition of every
    byte (`ParserModel::step`), and `ImageWriterParser`, which is proved to make
    exactly those transitions.
  - `page.rs`: a page as the list of marks printed on it.
  - `render.rs`: a page's graphics dots as an RGBA raster. Characters are kept
    as marks on the page but are not rasterised (there is no bitmap font
    here): PNG output shows graphics only, and PDF output draws the
    characters as Courier text over the raster.
  - `commands.rs`: ribbon colors.
  - `output.rs`: output formats, file names, which pages are saved.
  - `laws.rs`: properties across bytes and commands (ESC sequences, graphics
    rows, reset, form feed, margins, completed pages).
- `tests/`: tests of the library on concrete input.
- `app/`: the program: argument handling, reading from a PTY, TCP or stdin,
  and writing PDF and PNG files.
