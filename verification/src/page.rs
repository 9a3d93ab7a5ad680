//! A page as the printer marks it: its size and every mark made on it, in order.

use vstd::prelude::*;
use crate::protocol::{CharacterInfo, Position};

verus! {

/// One mark made on a page.
#[derive(Debug, Clone, Copy, PartialEq, Eq, Structural)]
pub enum Mark {
    /// A character printed with its cell's top-left corner at `at`.
    Character { at: Position, info: CharacterInfo },
    /// A single graphics dot at (`x`, `y`) in the ribbon color `color`.
    Dot { x: u64, y: u64, color: u8 },
}

/// A page's size and marks, as values.
pub struct PageModel {
    /// Width in horizontal units.
    pub width: u64,
    /// Height in vertical units.
    pub height: u64,
    /// Every mark made on the page, first to last.
    pub marks: Seq<Mark>,
}

impl PageModel {
    /// A page of the given size with nothing on it.
    pub open spec fn blank(width: u64, height: u64) -> PageModel {
        PageModel { width, height, marks: Seq::empty() }
    }

    /// The page with `mark` made on it last.
    pub open spec fn with_mark(self, mark: Mark) -> PageModel {
        PageModel { marks: self.marks.push(mark), ..self }
    }

    /// The page with the marks `more` made on it last, in order.
    pub open spec fn with_marks(self, more: Seq<Mark>) -> PageModel {
        PageModel { marks: self.marks + more, ..self }
    }

    /// Nothing has been marked on the page.
    pub open spec fn is_blank(self) -> bool {
        self.marks.len() == 0
    }
}

/// A page in the printer: its size (horizontal and vertical units) and the
/// marks made on it.
#[derive(Debug)]
pub struct PageBuffer {
    pub width: u64,
    pub height: u64,
    pub marks: Vec<Mark>,
}

impl View for PageBuffer {
    type V = PageModel;

    open spec fn view(&self) -> PageModel {
        PageModel { width: self.width, height: self.height, marks: self.marks@ }
    }
}

impl PageBuffer {
    /// Creates a blank page of the given size.
    pub fn new(width: u64, height: u64) -> (p: PageBuffer)
        ensures
            p@ == PageModel::blank(width, height),
    {
        PageBuffer { width, height, marks: Vec::new() }
    }

    /// Prints a character with its cell at `at`.
    pub fn draw_character(&mut self, at: Position, info: &CharacterInfo)
        ensures
            final(self)@ == old(self)@.with_mark(Mark::Character { at, info: *info }),
    {
        self.marks.push(Mark::Character { at, info: *info });
    }

    /// Sets one graphics dot at (`x`, `y`) in the ribbon color `color`.
    pub fn set_dot(&mut self, x: u64, y: u64, color: u8)
        ensures
            final(self)@ == old(self)@.with_mark(Mark::Dot { x, y, color }),
    {
        self.marks.push(Mark::Dot { x, y, color });
    }

    /// Whether nothing has been marked on the page.
    pub fn is_empty(&self) -> (r: bool)
        ensures
            r == self@.is_blank(),
    {
        self.marks.len() == 0
    }
}

} // verus!
