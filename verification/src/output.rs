//! Output formats, and which files a finished page is saved to.

use vstd::prelude::*;
use crate::page::{PageBuffer, PageModel};

verus! {

/// Output format selection.
#[derive(Debug, Clone, Copy, PartialEq, Eq, Structural)]
pub enum OutputFormat {
    Pdf,
    Png,
    Both,
}

impl Default for OutputFormat {
    fn default() -> (r: Self)
        ensures
            r == OutputFormat::Pdf,
    {
        OutputFormat::Pdf
    }
}

/// The kind of file a page is saved as.
#[derive(Debug, Clone, Copy, PartialEq, Eq, Structural)]
pub enum FileKind {
    Pdf,
    Png,
}

/// `c` is `lower`, or the ASCII capital of `lower`.
pub open spec fn char_matches_lower(c: char, lower: char) -> bool {
    c == lower || ('A' <= c && c <= 'Z' && (c as u32) + 32 == lower as u32)
}

/// `s` equals the lower-case ASCII `word` once its ASCII capitals are lowered.
///
/// For the words that name formats (lower-case ASCII letters other than `i`
/// and `k`) this is the same as `s.to_lowercase() == word`: no other character
/// lowers to one of their letters.
pub open spec fn equals_ignoring_case(s: Seq<char>, word: Seq<char>) -> bool {
    &&& s.len() == word.len()
    &&& forall|i: int| 0 <= i < s.len() ==> char_matches_lower(#[trigger] s[i], word[i])
}

/// The message given for a name that is no format: "Unknown format: " and the name.
pub open spec fn unknown_format_message(s: Seq<char>) -> Seq<char> {
    seq!['U', 'n', 'k', 'n', 'o', 'w', 'n', ' ', 'f', 'o', 'r', 'm', 'a', 't', ':', ' '] + s
}

/// The format that `s` names, in any case: "pdf", "png" or "both".
pub open spec fn format_named(s: Seq<char>) -> Option<OutputFormat> {
    if equals_ignoring_case(s, seq!['p', 'd', 'f']) {
        Some(OutputFormat::Pdf)
    } else if equals_ignoring_case(s, seq!['p', 'n', 'g']) {
        Some(OutputFormat::Png)
    } else if equals_ignoring_case(s, seq!['b', 'o', 't', 'h']) {
        Some(OutputFormat::Both)
    } else {
        None
    }
}

/// Whether `c` is `lower` or its ASCII capital.
fn char_is(c: char, lower: char) -> (r: bool)
    requires
        'a' <= lower && lower <= 'z',
    ensures
        r == char_matches_lower(c, lower),
{
    c == lower || ('A' <= c && c <= 'Z' && (c as u32) + 32 == lower as u32)
}

/// Whether `s` is the lower-case ASCII `word` up to the case of ASCII letters.
fn is_word(s: &str, word: &[char]) -> (r: bool)
    requires
        forall|i: int| 0 <= i < word@.len() ==> 'a' <= #[trigger] word@[i] && word@[i] <= 'z',
    ensures
        r == equals_ignoring_case(s@, word@),
{
    let n = s.unicode_len();
    if n != word.len() {
        return false;
    }
    let mut i: usize = 0;
    while i < n
        invariant
            n == s@.len(),
            n == word@.len(),
            0 <= i <= n,
            forall|i: int| 0 <= i < word@.len() ==> 'a' <= #[trigger] word@[i] && word@[i] <= 'z',
            forall|j: int| 0 <= j < i ==> char_matches_lower(#[trigger] s@[j], word@[j]),
        decreases n - i,
    {
        let c = s.get_char(i);
        if !char_is(c, word[i]) {
            return false;
        }
        i = i + 1;
    }
    true
}

impl OutputFormat {
    /// Reads a format name, in any case: "pdf", "png" or "both".
    pub fn parse(s: &str) -> (r: Result<OutputFormat, String>)
        ensures
            match format_named(s@) {
                Some(f) => r == Ok::<OutputFormat, String>(f),
                None => r is Err && r->Err_0@ == unknown_format_message(s@),
            },
    {
        let pdf = ['p', 'd', 'f'];
        let png = ['p', 'n', 'g'];
        let both = ['b', 'o', 't', 'h'];
        assert(pdf@ =~= seq!['p', 'd', 'f']);
        assert(png@ =~= seq!['p', 'n', 'g']);
        assert(both@ =~= seq!['b', 'o', 't', 'h']);
        if is_word(s, pdf.as_slice()) {
            Ok(OutputFormat::Pdf)
        } else if is_word(s, png.as_slice()) {
            Ok(OutputFormat::Png)
        } else if is_word(s, both.as_slice()) {
            Ok(OutputFormat::Both)
        } else {
            let prefix = "Unknown format: ";
            proof {
                reveal_strlit("Unknown format: ");
            }
            let mut message = String::from_str(prefix);
            message.append(s);
            assert(message@ =~= unknown_format_message(s@));
            Err(message)
        }
    }
}

impl std::str::FromStr for OutputFormat {
    type Err = String;

    fn from_str(s: &str) -> (r: Result<OutputFormat, String>)
        ensures
            match format_named(s@) {
                Some(f) => r == Ok::<OutputFormat, String>(f),
                None => r is Err && r->Err_0@ == unknown_format_message(s@),
            },
    {
        OutputFormat::parse(s)
    }
}

/// The character of the decimal digit `d`.
pub open spec fn digit_char(d: nat) -> char {
    if d == 0 { '0' }
    else if d == 1 { '1' }
    else if d == 2 { '2' }
    else if d == 3 { '3' }
    else if d == 4 { '4' }
    else if d == 5 { '5' }
    else if d == 6 { '6' }
    else if d == 7 { '7' }
    else if d == 8 { '8' }
    else { '9' }
}

/// `n` written in decimal, without leading zeros.
pub open spec fn decimal_chars(n: nat) -> Seq<char>
    decreases n,
{
    if n < 10 {
        seq![digit_char(n)]
    } else {
        decimal_chars(n / 10).push(digit_char(n % 10))
    }
}

/// `n` written in decimal with zeros in front up to three digits, as `{:03}` writes it.
pub open spec fn three_digit_chars(n: nat) -> Seq<char> {
    if n < 10 {
        seq!['0', '0'] + decimal_chars(n)
    } else if n < 100 {
        seq!['0'] + decimal_chars(n)
    } else {
        decimal_chars(n)
    }
}

/// The extension of a file kind.
pub open spec fn extension(kind: FileKind) -> Seq<char> {
    match kind {
        FileKind::Pdf => seq!['p', 'd', 'f'],
        FileKind::Png => seq!['p', 'n', 'g'],
    }
}

/// The name of the file that page `page_num` is saved to as `kind`:
/// `print_NNN.pdf` or `print_NNN.png`.
pub open spec fn page_file_name(page_num: nat, kind: FileKind) -> Seq<char> {
    seq!['p', 'r', 'i', 'n', 't', '_'] + three_digit_chars(page_num) + seq!['.'] + extension(kind)
}

/// The value of the decimal digit character `c` (0 for a character that is
/// not a digit).
pub open spec fn digit_of(c: char) -> nat {
    if c == '1' { 1 }
    else if c == '2' { 2 }
    else if c == '3' { 3 }
    else if c == '4' { 4 }
    else if c == '5' { 5 }
    else if c == '6' { 6 }
    else if c == '7' { 7 }
    else if c == '8' { 8 }
    else if c == '9' { 9 }
    else { 0 }
}

/// The number that the decimal digit characters `s` write, leading zeros allowed.
pub open spec fn chars_value(s: Seq<char>) -> nat
    decreases s.len(),
{
    if s.len() == 0 {
        0
    } else {
        chars_value(s.drop_last()) * 10 + digit_of(s.last())
    }
}

proof fn lemma_decimal_chars_value(n: nat)
    ensures
        chars_value(decimal_chars(n)) == n,
    decreases n,
{
    let d = decimal_chars(n);
    if n < 10 {
        assert(d.drop_last() =~= Seq::<char>::empty());
    } else {
        lemma_decimal_chars_value(n / 10);
        assert(d.drop_last() =~= decimal_chars(n / 10));
    }
}

proof fn lemma_leading_zero_value(s: Seq<char>)
    ensures
        chars_value(seq!['0'] + s) == chars_value(s),
    decreases s.len(),
{
    let z = seq!['0'] + s;
    if s.len() == 0 {
        assert(z.drop_last() =~= Seq::<char>::empty());
        assert(z.last() == '0');
        assert(chars_value(z.drop_last()) == 0);
        assert(chars_value(s) == 0);
    } else {
        assert(z.drop_last() =~= seq!['0'] + s.drop_last());
        assert(z.last() == s.last());
        lemma_leading_zero_value(s.drop_last());
    }
}

proof fn lemma_three_digit_value(n: nat)
    ensures
        chars_value(three_digit_chars(n)) == n,
{
    lemma_decimal_chars_value(n);
    if n < 10 {
        lemma_leading_zero_value(decimal_chars(n));
        lemma_leading_zero_value(seq!['0'] + decimal_chars(n));
        assert(seq!['0', '0'] + decimal_chars(n) =~= seq!['0'] + (seq!['0'] + decimal_chars(n)));
    } else if n < 100 {
        lemma_leading_zero_value(decimal_chars(n));
    }
}

/// Pages with different numbers are saved to different files, and the two
/// files of one page (PDF and PNG) differ: a file name gives back both the
/// page number and the kind of file.
pub proof fn law_page_file_names_distinct(n1: nat, k1: FileKind, n2: nat, k2: FileKind)
    ensures
        page_file_name(n1, k1) == page_file_name(n2, k2) ==> n1 == n2 && k1 == k2,
{
    let a = page_file_name(n1, k1);
    let b = page_file_name(n2, k2);
    if a == b {
        let t1 = three_digit_chars(n1);
        let t2 = three_digit_chars(n2);
        let prefix = seq!['p', 'r', 'i', 'n', 't', '_'];
        assert(a =~= prefix + t1 + seq!['.'] + extension(k1));
        assert(b =~= prefix + t2 + seq!['.'] + extension(k2));
        assert(t1.len() == t2.len());
        assert(a.subrange(6, 6 + t1.len() as int) =~= t1);
        assert(b.subrange(6, 6 + t2.len() as int) =~= t2);
        lemma_three_digit_value(n1);
        lemma_three_digit_value(n2);
        assert(a[6 + t1.len() as int + 2] == extension(k1)[1]);
        assert(b[6 + t2.len() as int + 2] == extension(k2)[1]);
    }
}

/// The kinds of file that a format saves a page as, in the order they are written.
pub open spec fn kinds_of(format: OutputFormat) -> Seq<FileKind> {
    match format {
        OutputFormat::Pdf => seq![FileKind::Pdf],
        OutputFormat::Png => seq![FileKind::Png],
        OutputFormat::Both => seq![FileKind::Pdf, FileKind::Png],
    }
}

/// The one-character string of the decimal digit `d`.
fn digit_str(d: usize) -> (s: &'static str)
    requires
        d < 10,
    ensures
        s@ == seq![digit_char(d as nat)],
{
    proof {
        reveal_strlit("0");
        reveal_strlit("1");
        reveal_strlit("2");
        reveal_strlit("3");
        reveal_strlit("4");
        reveal_strlit("5");
        reveal_strlit("6");
        reveal_strlit("7");
        reveal_strlit("8");
        reveal_strlit("9");
    }
    if d == 0 { "0" }
    else if d == 1 { "1" }
    else if d == 2 { "2" }
    else if d == 3 { "3" }
    else if d == 4 { "4" }
    else if d == 5 { "5" }
    else if d == 6 { "6" }
    else if d == 7 { "7" }
    else if d == 8 { "8" }
    else { "9" }
}

/// Writes `n` in decimal.
fn decimal_string(n: usize) -> (s: String)
    ensures
        s@ == decimal_chars(n as nat),
    decreases n,
{
    if n < 10 {
        String::from_str(digit_str(n))
    } else {
        let mut s = decimal_string(n / 10);
        s.append(digit_str(n % 10));
        s
    }
}

/// Builds the file name that page `page_num` is saved to as `kind`.
fn file_name(page_num: usize, kind: FileKind) -> (s: String)
    ensures
        s@ == page_file_name(page_num as nat, kind),
{
    proof {
        reveal_strlit("print_");
        reveal_strlit("print_0");
        reveal_strlit("print_00");
        reveal_strlit(".pdf");
        reveal_strlit(".png");
    }
    let mut s = if page_num < 10 {
        String::from_str("print_00")
    } else if page_num < 100 {
        String::from_str("print_0")
    } else {
        String::from_str("print_")
    };
    s.append(decimal_string(page_num).as_str());
    match kind {
        FileKind::Pdf => s.append(".pdf"),
        FileKind::Png => s.append(".png"),
    }
    assert(s@ =~= page_file_name(page_num as nat, kind));
    s
}

/// The files that page `page_num` is saved to in `format`, in the order they are
/// written: its kind and its file name, `print_NNN.pdf` and/or `print_NNN.png`,
/// with the page number written with at least three digits.
pub fn save_page(page_num: usize, format: OutputFormat) -> (files: Vec<(FileKind, String)>)
    ensures
        files@.len() == kinds_of(format).len(),
        forall|i: int|
            0 <= i < files@.len() ==> (#[trigger] files@[i]).0 == kinds_of(format)[i]
                && files@[i].1@ == page_file_name(page_num as nat, kinds_of(format)[i]),
{
    let mut files: Vec<(FileKind, String)> = Vec::new();
    match format {
        OutputFormat::Pdf => {
            files.push((FileKind::Pdf, file_name(page_num, FileKind::Pdf)));
        },
        OutputFormat::Png => {
            files.push((FileKind::Png, file_name(page_num, FileKind::Png)));
        },
        OutputFormat::Both => {
            files.push((FileKind::Pdf, file_name(page_num, FileKind::Pdf)));
            files.push((FileKind::Png, file_name(page_num, FileKind::Png)));
        },
    }
    files
}

/// The positions, in order, of the pages in `pages` that have anything on them.
pub open spec fn printed_indices(pages: Seq<PageModel>) -> Seq<int>
    decreases pages.len(),
{
    if pages.len() == 0 {
        Seq::empty()
    } else {
        let rest = printed_indices(pages.drop_last());
        if pages.last().is_blank() {
            rest
        } else {
            rest.push(pages.len() - 1)
        }
    }
}

/// The completed pages to save, in order: every page with anything on it
/// (blank pages are skipped), each with its position in `pages` and its page
/// number, the numbers counting up from `first_number`.
pub fn number_printed_pages(pages: &Vec<PageBuffer>, first_number: usize) -> (numbered: Vec<(usize, usize)>)
    requires
        first_number + pages@.len() <= usize::MAX,
    ensures
        numbered@.len() == printed_indices(pages@.map_values(|p: PageBuffer| p@)).len(),
        forall|i: int|
            0 <= i < numbered@.len() ==> (#[trigger] numbered@[i]).0 == first_number + i
                && numbered@[i].1 == printed_indices(pages@.map_values(|p: PageBuffer| p@))[i],
{
    let ghost views = pages@.map_values(|p: PageBuffer| p@);
    let mut numbered: Vec<(usize, usize)> = Vec::new();
    let mut number = first_number;
    let n = pages.len();
    let mut i: usize = 0;
    assert(views.take(0) =~= Seq::<PageModel>::empty());
    while i < n
        invariant
            n == pages@.len(),
            views == pages@.map_values(|p: PageBuffer| p@),
            0 <= i <= n,
            first_number + n <= usize::MAX,
            numbered@.len() == printed_indices(views.take(i as int)).len(),
            number == first_number + numbered@.len(),
            numbered@.len() <= i,
            forall|j: int|
                0 <= j < numbered@.len() ==> (#[trigger] numbered@[j]).0 == first_number + j
                    && numbered@[j].1 == printed_indices(views.take(i as int))[j],
        decreases n - i,
    {
        let ghost before = views.take(i as int);
        assert(views.take(i + 1).drop_last() =~= before);
        assert(views.take(i + 1).last() == pages@[i as int]@);
        if !pages[i].is_empty() {
            numbered.push((number, i));
            number = number + 1;
        }
        i = i + 1;
    }
    assert(views.take(n as int) =~= views);
    numbered
}

} // verus!
