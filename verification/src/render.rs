//! Rendering a page's graphics dots to an RGBA pixel raster at `OUTPUT_DPI`.

use vstd::prelude::*;
use crate::commands::PrinterColor;
use crate::page::{Mark, PageBuffer, PageModel};
use crate::units::PIXEL_X_UNITS;

verus! {

/// A page as pixels: `pixel_width` by `pixel_height`, four bytes (red, green,
/// blue, alpha) per pixel, row after row from the top.
pub struct Raster {
    pub pixel_width: u32,
    pub pixel_height: u32,
    pub pixels: Vec<u8>,
}

/// Pixel columns of a page: its width in output pixels, a part pixel counting whole.
pub open spec fn pixel_columns(page: PageModel) -> nat {
    ((page.width + PIXEL_X_UNITS - 1) / (PIXEL_X_UNITS as int)) as nat
}

/// Pixel rows of a page: its height in output pixels (one vertical unit each).
pub open spec fn pixel_rows(page: PageModel) -> nat {
    page.height as nat
}

/// The pixel, counted row after row, that a dot at (`x`, `y`) falls in on a
/// raster `w` pixels wide and `h` high, where it falls on the raster at all.
pub open spec fn dot_pixel(x: u64, y: u64, w: nat, h: nat) -> Option<int> {
    let column = x / PIXEL_X_UNITS;
    if column < w && y < h {
        Some(y * w + column)
    } else {
        None
    }
}

/// The ribbon color of the last dot among `marks` that falls in pixel `p`.
pub open spec fn ink_at(marks: Seq<Mark>, p: int, w: nat, h: nat) -> Option<u8>
    decreases marks.len(),
{
    if marks.len() == 0 {
        None
    } else {
        match marks.last() {
            Mark::Dot { x, y, color } if dot_pixel(x, y, w, h) == Some(p) => Some(color),
            _ => ink_at(marks.drop_last(), p, w, h),
        }
    }
}

/// Whether `mark` is a dot that falls in pixel `p` of a raster `w` pixels wide
/// and `h` high.
pub open spec fn lands_in(mark: Mark, p: int, w: nat, h: nat) -> bool {
    match mark {
        Mark::Dot { x, y, .. } => dot_pixel(x, y, w, h) == Some(p),
        Mark::Character { .. } => false,
    }
}

/// The ink of a pixel is the ribbon color of the last dot that falls in it,
/// whatever that color is (black, color 0, included), and a pixel that no dot
/// falls in has none.
pub proof fn law_ink_is_last_dot(marks: Seq<Mark>, p: int, w: nat, h: nat)
    ensures
        (forall|j: int| 0 <= j < marks.len() ==> !lands_in(#[trigger] marks[j], p, w, h))
            ==> ink_at(marks, p, w, h) is None,
        forall|i: int|
            0 <= i < marks.len() && lands_in(#[trigger] marks[i], p, w, h) && (forall|j: int|
                i < j < marks.len() ==> !lands_in(#[trigger] marks[j], p, w, h))
                ==> ink_at(marks, p, w, h) == Some(marks[i]->color),
    decreases marks.len(),
{
    if marks.len() > 0 {
        let n = marks.len() - 1;
        let front = marks.drop_last();
        law_ink_is_last_dot(front, p, w, h);
        if lands_in(marks[n], p, w, h) {
            assert(marks.last() == marks[n]);
        } else {
            assert(ink_at(marks, p, w, h) == ink_at(front, p, w, h));
            if forall|j: int| 0 <= j < marks.len() ==> !lands_in(#[trigger] marks[j], p, w, h) {
                assert forall|j: int| 0 <= j < front.len() implies !lands_in(#[trigger] front[j], p, w, h) by {
                    assert(front[j] == marks[j]);
                }
            }
            assert forall|i: int|
                0 <= i < marks.len() && lands_in(#[trigger] marks[i], p, w, h) && (forall|j: int|
                    i < j < marks.len() ==> !lands_in(#[trigger] marks[j], p, w, h))
                    implies ink_at(marks, p, w, h) == Some(marks[i]->color) by {
                assert(i < n);
                assert(front[i] == marks[i]);
                assert forall|j: int| i < j < front.len() implies !lands_in(#[trigger] front[j], p, w, h) by {
                    assert(front[j] == marks[j]);
                }
            }
        }
    }
}

/// Channel `k` (0 red, 1 green, 2 blue, 3 alpha) of a pixel with ink `ink`:
/// the ribbon color's RGB where inked, white where not, always opaque.
pub open spec fn channel(ink: Option<u8>, k: int) -> u8 {
    match ink {
        Some(c) => {
            let (r, g, b) = PrinterColor::from_number(c).rgb_of();
            if k == 0 {
                r
            } else if k == 1 {
                g
            } else if k == 2 {
                b
            } else {
                255
            }
        },
        None => 255,
    }
}

proof fn lemma_pixel_in_range(y: int, column: int, w: int, h: int)
    by (nonlinear_arith)
    requires
        0 <= y < h,
        0 <= column < w,
    ensures
        0 <= y * w,
        y * w <= y * w + column,
        y * w + column < w * h,
        (y * w + column) * 4 + 3 < w * h * 4,
{
    assert(y * w + column < y * w + w);
    assert(y * w + w == (y + 1) * w);
    assert((y + 1) * w <= h * w);
}

impl PageBuffer {
    /// Renders the page's graphics dots at `OUTPUT_DPI`: a white raster of
    /// `pixel_columns` by `pixel_rows`, each pixel that dots fall in taking the
    /// ribbon color of the last of them.
    pub fn render(&self) -> (r: Raster)
        requires
            pixel_columns(self@) <= u32::MAX,
            pixel_rows(self@) <= u32::MAX,
            pixel_columns(self@) * pixel_rows(self@) * 4 <= usize::MAX,
        ensures
            r.pixel_width == pixel_columns(self@),
            r.pixel_height == pixel_rows(self@),
            r.pixels@.len() == r.pixel_width * r.pixel_height * 4,
            forall|j: int|
                0 <= j < r.pixels@.len() ==> #[trigger] r.pixels@[j] == channel(
                    ink_at(self@.marks, j / 4, pixel_columns(self@), pixel_rows(self@)),
                    j % 4,
                ),
            forall|q: int|
                0 <= q < r.pixels@.len() && (forall|j: int|
                    0 <= j < self@.marks.len() ==> !lands_in(
                        #[trigger] self@.marks[j],
                        q / 4,
                        pixel_columns(self@),
                        pixel_rows(self@),
                    )) ==> #[trigger] r.pixels@[q] == 255,
            forall|i: int, q: int|
                0 <= i < self@.marks.len() && 0 <= q < r.pixels@.len() && lands_in(
                    #[trigger] self@.marks[i],
                    q / 4,
                    pixel_columns(self@),
                    pixel_rows(self@),
                ) && (forall|j: int|
                    i < j < self@.marks.len() ==> !lands_in(
                        #[trigger] self@.marks[j],
                        q / 4,
                        pixel_columns(self@),
                        pixel_rows(self@),
                    )) ==> #[trigger] r.pixels@[q] == ({
                    let (red, green, blue) = PrinterColor::from_number(self@.marks[i]->color).rgb_of();
                    if q % 4 == 0 {
                        red
                    } else if q % 4 == 1 {
                        green
                    } else if q % 4 == 2 {
                        blue
                    } else {
                        255u8
                    }
                }),
    {
        let w = (self.width / PIXEL_X_UNITS) + (if self.width % PIXEL_X_UNITS == 0 { 0 } else { 1 });
        assert(w == pixel_columns(self@));
        let h = self.height;
        let total = (w as usize) * (h as usize) * 4;
        let ghost wn = w as nat;
        let ghost hn = h as nat;
        let mut pixels: Vec<u8> = Vec::new();
        let mut j: usize = 0;
        while j < total
            invariant
                0 <= j <= total,
                pixels@.len() == j,
                forall|i: int| 0 <= i < j ==> #[trigger] pixels@[i] == 255,
            decreases total - j,
        {
            pixels.push(255);
            j = j + 1;
        }
        let n = self.marks.len();
        let mut i: usize = 0;
        assert forall|q: int| 0 <= q < pixels@.len() implies #[trigger] pixels@[q] == channel(
            ink_at(self@.marks.take(0), q / 4, wn, hn),
            q % 4,
        ) by {
            assert(self@.marks.take(0).len() == 0);
        }
        while i < n
            invariant
                n == self.marks@.len(),
                0 <= i <= n,
                wn == w,
                hn == h,
                w <= u32::MAX,
                h <= u32::MAX,
                total == wn * hn * 4,
                pixels@.len() == total,
                forall|q: int|
                    0 <= q < total ==> #[trigger] pixels@[q] == channel(
                        ink_at(self@.marks.take(i as int), q / 4, wn, hn),
                        q % 4,
                    ),
            decreases n - i,
        {
            let ghost before = self@.marks.take(i as int);
            let ghost after = self@.marks.take(i + 1);
            assert(after.drop_last() =~= before);
            assert(after.last() == self.marks@[i as int]);
            match self.marks[i] {
                Mark::Dot { x, y, color } => {
                    let column = x / PIXEL_X_UNITS;
                    if column < w && y < h {
                        proof {
                            lemma_pixel_in_range(y as int, column as int, w as int, h as int);
                        }
                        let p = (y as usize) * (w as usize) + (column as usize);
                        let (r, g, b) = PrinterColor::from(color).rgb();
                        pixels.set(4 * p, r);
                        pixels.set(4 * p + 1, g);
                        pixels.set(4 * p + 2, b);
                        pixels.set(4 * p + 3, 255);
                        assert forall|q: int| 0 <= q < total implies #[trigger] pixels@[q] == channel(
                            ink_at(after, q / 4, wn, hn),
                            q % 4,
                        ) by {
                            if q / 4 == p {
                                assert(q == 4 * p + q % 4);
                            }
                        }
                    } else {
                        assert forall|q: int| 0 <= q < total implies #[trigger] pixels@[q] == channel(
                            ink_at(after, q / 4, wn, hn),
                            q % 4,
                        ) by {}
                    }
                },
                Mark::Character { .. } => {
                    assert forall|q: int| 0 <= q < total implies #[trigger] pixels@[q] == channel(
                        ink_at(after, q / 4, wn, hn),
                        q % 4,
                    ) by {}
                },
            }
            i = i + 1;
        }
        assert(self@.marks.take(n as int) =~= self@.marks);
        assert forall|q: int| 0 <= q < total implies #[trigger] pixels@[q] == channel(
            ink_at(self@.marks, q / 4, wn, hn),
            q % 4,
        ) by {}
        assert forall|q: int|
            0 <= q < total && (forall|j: int|
                0 <= j < self@.marks.len() ==> !lands_in(#[trigger] self@.marks[j], q / 4, wn, hn))
                implies #[trigger] pixels@[q] == 255 by {
            law_ink_is_last_dot(self@.marks, q / 4, wn, hn);
        }
        assert forall|i: int, q: int|
            0 <= i < self@.marks.len() && 0 <= q < total && lands_in(#[trigger] self@.marks[i], q / 4, wn, hn)
                && (forall|j: int|
                i < j < self@.marks.len() ==> !lands_in(#[trigger] self@.marks[j], q / 4, wn, hn))
                implies #[trigger] pixels@[q] == ({
                let (red, green, blue) = PrinterColor::from_number(self@.marks[i]->color).rgb_of();
                if q % 4 == 0 {
                    red
                } else if q % 4 == 1 {
                    green
                } else if q % 4 == 2 {
                    blue
                } else {
                    255u8
                }
            }) by {
            law_ink_is_last_dot(self@.marks, q / 4, wn, hn);
        }
        Raster { pixel_width: w as u32, pixel_height: h as u32, pixels }
    }
}

} // verus!
