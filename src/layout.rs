//! Scale ratio between the art block and the terminal, and the text origin
//! derived from it.
//!
//! The ratio is held as exact fractions, so that dividing a terminal size by
//! it gives back the art size without rounding.

use vstd::prelude::*;

verus! {

/// Size of the art block, in the unit of the terminal measurement it is
/// compared against (pixels for an image, character cells for glyph art).
#[derive(Clone, Copy, Debug, PartialEq, Eq, Structural)]
pub struct ArtSize {
    pub width: u32,
    pub height: u32,
}

/// Size of the terminal, in pixels or in character cells.
#[derive(Clone, Copy, Debug, PartialEq, Eq, Structural)]
pub struct ScreenSize {
    pub width: u16,
    pub height: u16,
}

/// Terminal size over art size, per axis, as the fractions
/// `x_num / x_den` and `y_num / y_den`.
#[derive(Clone, Copy, Debug, PartialEq, Eq, Structural)]
pub struct Ratio {
    pub x_num: u16,
    pub x_den: u32,
    pub y_num: u16,
    pub y_den: u32,
}

/// Why no ratio can be formed.
#[derive(Clone, Copy, Debug, PartialEq, Eq, Structural)]
pub enum LayoutError {
    /// The art block has a zero width or height.
    EmptyArt,
    /// The terminal reported a zero width or height.
    EmptyTerminal,
}

/// Cursor positions for the text panel, one-based terminal cells.
#[derive(Clone, Copy, Debug, PartialEq, Eq, Structural)]
pub struct Origin {
    /// Column where every text row starts.
    pub x: u64,
    /// Row below the art block; the cursor goes to the row after it at the end.
    pub y: u64,
    /// Row of the header line.
    pub first_row: u64,
}

/// Columns left free between the art and the text.
pub const GUTTER_X: u64 = 4;

/// Rows between the art's bottom and the origin row.
pub const GUTTER_Y: u64 = 1;

/// The header row is the art height divided by 2.3, which centres the facts
/// against the picture's visual weight; 2.3 is written as
/// `CENTER_DEN / CENTER_NUM`.
pub const CENTER_NUM: u64 = 10;

/// See `CENTER_NUM`.
pub const CENTER_DEN: u64 = 23;

impl Ratio {
    /// Both fractions are finite and positive.
    pub open spec fn wf(self) -> bool {
        self.x_num > 0 && self.x_den > 0 && self.y_num > 0 && self.y_den > 0
    }
}

/// The ratio of `term` to `art`, axis by axis.
pub open spec fn ratio_of(art: ArtSize, term: ScreenSize) -> Ratio {
    Ratio { x_num: term.width, x_den: art.width, y_num: term.height, y_den: art.height }
}

/// `n` divided by the fraction `num / den`, rounded down.
pub open spec fn scaled(n: int, num: int, den: int) -> int {
    (n * den) / num
}

/// The origin for a terminal of `cols` by `rows` character cells.
pub open spec fn origin_of(ratio: Ratio, cols: u16, rows: u16) -> Origin {
    Origin {
        x: (scaled(cols as int, ratio.x_num as int, ratio.x_den as int) + GUTTER_X) as u64,
        y: (scaled(rows as int, ratio.y_num as int, ratio.y_den as int) + GUTTER_Y) as u64,
        first_row: ((rows as int * ratio.y_den as int * CENTER_NUM) / (ratio.y_num as int
            * CENTER_DEN)) as u64,
    }
}

/// Forms the ratio of the terminal size to the art size.
///
/// Fails when either size has a zero side: no finite, positive ratio exists.
pub fn compute_ratio(art: ArtSize, term: ScreenSize) -> (r: Result<Ratio, LayoutError>)
    ensures
        (art.width == 0 || art.height == 0) <==> r == Err::<Ratio, LayoutError>(
            LayoutError::EmptyArt,
        ),
        (art.width > 0 && art.height > 0 && (term.width == 0 || term.height == 0)) <==> r
            == Err::<Ratio, LayoutError>(LayoutError::EmptyTerminal),
        art.width > 0 && art.height > 0 && term.width > 0 && term.height > 0 <==> r == Ok::<
            Ratio,
            LayoutError,
        >(ratio_of(art, term)),
        r is Ok ==> r->Ok_0.wf(),
{
    if art.width == 0 || art.height == 0 {
        Err(LayoutError::EmptyArt)
    } else if term.width == 0 || term.height == 0 {
        Err(LayoutError::EmptyTerminal)
    } else {
        Ok(Ratio { x_num: term.width, x_den: art.width, y_num: term.height, y_den: art.height })
    }
}

/// Places the text panel for a terminal of `cols` by `rows` character cells.
///
/// The column is the terminal width divided by the ratio, plus a gutter of
/// four; the row below the art is the height divided by the ratio, plus one;
/// the header row is that height divided once more by 2.3.
pub fn compute_origin(ratio: Ratio, cols: u16, rows: u16) -> (o: Origin)
    requires
        ratio.wf(),
    ensures
        o == origin_of(ratio, cols, rows),
        o.x <= 0xffff * 0xffff_ffff + GUTTER_X,
        o.y <= 0xffff * 0xffff_ffff + GUTTER_Y,
        o.first_row <= 0xffff * 0xffff_ffff * CENTER_NUM,
{
    proof {
        lemma_product_bound(cols as int, ratio.x_den as int);
        lemma_product_bound(rows as int, ratio.y_den as int);
        lemma_quotient_bound(cols as int * ratio.x_den as int, ratio.x_num as int);
        lemma_quotient_bound(rows as int * ratio.y_den as int, ratio.y_num as int);
        lemma_quotient_bound(
            rows as int * ratio.y_den as int * CENTER_NUM,
            ratio.y_num as int * CENTER_DEN,
        );
    }
    let x = (cols as u64) * (ratio.x_den as u64) / (ratio.x_num as u64);
    let y = (rows as u64) * (ratio.y_den as u64) / (ratio.y_num as u64);
    let f = (rows as u64) * (ratio.y_den as u64) * CENTER_NUM / ((ratio.y_num as u64)
        * CENTER_DEN);
    Origin { x: x + GUTTER_X, y: y + GUTTER_Y, first_row: f }
}

/// The art's extent in character columns and rows, once its size is
/// converted from the ratio's unit to a terminal of `cols` by `rows` cells.
pub open spec fn art_cells(art: ArtSize, term: ScreenSize, cols: u16, rows: u16) -> (int, int) {
    (
        (cols as int * art.width as int) / term.width as int,
        (rows as int * art.height as int) / term.height as int,
    )
}

/// Multiplying the ratio by the art size gives back the terminal size, on
/// both axes, exactly.
pub proof fn lemma_ratio_scales_art(art: ArtSize, term: ScreenSize)
    requires
        art.width > 0,
        art.height > 0,
        term.width > 0,
        term.height > 0,
    ensures
        ({
            let r = ratio_of(art, term);
            &&& r.wf()
            &&& r.x_num as int * art.width as int == term.width as int * r.x_den as int
            &&& r.y_num as int * art.height as int == term.height as int * r.y_den as int
        }),
{
    let r = ratio_of(art, term);
    assert(r.x_num as int * art.width as int == term.width as int * r.x_den as int)
        by (nonlinear_arith)
        requires
            r.x_num == term.width,
            r.x_den == art.width,
    ;
    assert(r.y_num as int * art.height as int == term.height as int * r.y_den as int)
        by (nonlinear_arith)
        requires
            r.y_num == term.height,
            r.y_den == art.height,
    ;
}

/// The text origin lies right of and below the art: its column exceeds the
/// art's last column and its row exceeds the art's last row, in character
/// cells. When the ratio was formed in character cells of this terminal, the
/// column is the art width plus the gutter.
pub proof fn lemma_text_clears_art(art: ArtSize, term: ScreenSize, cols: u16, rows: u16)
    requires
        art.width > 0,
        art.height > 0,
        term.width > 0,
        term.height > 0,
    ensures
        ({
            let o = origin_of(ratio_of(art, term), cols, rows);
            let (w, h) = art_cells(art, term, cols, rows);
            &&& o.x as int == w + GUTTER_X
            &&& o.y as int == h + GUTTER_Y
            &&& o.x as int > w
            &&& o.y as int > h
            &&& (cols == term.width ==> o.x == art.width + GUTTER_X)
            &&& (rows == term.height ==> o.y == art.height + GUTTER_Y)
        }),
{
    let r = ratio_of(art, term);
    lemma_product_bound(cols as int, art.width as int);
    lemma_product_bound(rows as int, art.height as int);
    lemma_quotient_bound(cols as int * art.width as int, term.width as int);
    lemma_quotient_bound(rows as int * art.height as int, term.height as int);
    if cols == term.width {
        lemma_cancel(art.width as int, term.width as int);
    }
    if rows == term.height {
        lemma_cancel(art.height as int, term.height as int);
    }
}

/// Layout is a function of its inputs alone: the same art, terminal and
/// cell counts give the same ratio and the same origin.
pub proof fn lemma_layout_deterministic(
    art1: ArtSize,
    term1: ScreenSize,
    art2: ArtSize,
    term2: ScreenSize,
    cols: u16,
    rows: u16,
)
    requires
        art1 == art2,
        term1 == term2,
    ensures
        ratio_of(art1, term1) == ratio_of(art2, term2),
        origin_of(ratio_of(art1, term1), cols, rows) == origin_of(ratio_of(art2, term2), cols, rows),
{
}

proof fn lemma_cancel(a: int, b: int)
    requires
        0 <= a,
        1 <= b,
    ensures
        (b * a) / b == a,
{
    assert((b * a) / b == a) by (nonlinear_arith)
        requires
            0 <= a,
            1 <= b,
    ;
}

proof fn lemma_product_bound(a: int, b: int)
    requires
        0 <= a <= 0xffff,
        0 <= b <= 0xffff_ffff,
    ensures
        0 <= a * b <= 0xffff * 0xffff_ffff,
{
    assert(0 <= a * b <= 0xffff * 0xffff_ffff) by (nonlinear_arith)
        requires
            0 <= a <= 0xffff,
            0 <= b <= 0xffff_ffff,
    ;
}

proof fn lemma_quotient_bound(a: int, b: int)
    requires
        0 <= a,
        1 <= b,
    ensures
        0 <= a / b <= a,
{
    assert(0 <= a / b <= a) by (nonlinear_arith)
        requires
            0 <= a,
            1 <= b,
    ;
}

} // verus!
