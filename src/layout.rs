//! Placement of the 256 code-page glyphs in a 16 by 16 grid of equal cells.

use crate::cp437::GLYPH_COUNT;
use crate::solver::GlyphBox;
use vstd::prelude::*;

verus! {

/// Cells per row and rows per atlas.
pub const GRID_SIDE: u32 = 16;

/// How a glyph shorter than its cell sits vertically.
#[derive(Clone, Copy, Debug, PartialEq, Eq, Structural)]
pub enum VerticalAlign {
    /// Glyphs without a descender go to the bottom of the cell, the others to
    /// the top.
    Baseline,
    /// Every glyph goes to the top of the cell.
    Top,
    /// Every glyph is centred in the cell.
    Centered,
}

/// A rendered glyph: the size of its raster and its metrics.
#[derive(Clone, Copy, Debug, PartialEq, Eq, Structural)]
pub struct RenderedGlyph {
    pub width: u32,
    pub height: u32,
    pub metrics: GlyphBox,
}

/// Where a glyph raster goes in the atlas: rows `src_y .. src_y + height` and
/// columns `0 .. width` of the raster are copied to the atlas rectangle whose
/// top-left corner is `(x, y)`. `clipped` tells that the raster was larger
/// than its cell and had to be cut.
#[derive(Clone, Copy, Debug, PartialEq, Eq, Structural)]
pub struct Placement {
    pub x: u32,
    pub y: u32,
    pub src_y: u32,
    pub width: u32,
    pub height: u32,
    pub clipped: bool,
}

/// A run that cannot produce an atlas.
#[derive(Clone, Copy, Debug, PartialEq, Eq, Structural)]
pub enum AtlasError {
    /// The test render of the whole code page came out zero pixels tall.
    ZeroHeight,
    /// Sixteen cells do not fit in a 32-bit dimension.
    TooLarge,
    /// Neither an image nor a text dump was asked for.
    NoOutput,
    /// The font backend failed to render text or to draw the atlas.
    Render,
}

/// What a run writes.
#[derive(Clone, Copy, Debug, PartialEq, Eq, Structural)]
pub enum OutputMode {
    Image,
    TextDump,
}

/// The cell size of the atlas: the width the search settled on and the
/// height the whole code page rendered to.
pub fn cell_geometry(width: u32, height: u32) -> (r: Result<(u32, u32), AtlasError>)
    ensures
        height == 0 ==> r == Err::<(u32, u32), AtlasError>(AtlasError::ZeroHeight),
        height != 0 && !atlas_fits(width, height) ==> r == Err::<(u32, u32), AtlasError>(
            AtlasError::TooLarge,
        ),
        height != 0 && atlas_fits(width, height) ==> r == Ok::<(u32, u32), AtlasError>(
            (width, height),
        ),
{
    if height == 0 {
        Err(AtlasError::ZeroHeight)
    } else if width > u32::MAX / GRID_SIDE || height > u32::MAX / GRID_SIDE {
        Err(AtlasError::TooLarge)
    } else {
        Ok((width, height))
    }
}

/// The output of a run: the text dump when it is asked for, else the image
/// when that is, else an error.
pub fn select_output(image: bool, text_dump: bool) -> (r: Result<OutputMode, AtlasError>)
    ensures
        text_dump ==> r == Ok::<OutputMode, AtlasError>(OutputMode::TextDump),
        !text_dump && image ==> r == Ok::<OutputMode, AtlasError>(OutputMode::Image),
        !text_dump && !image ==> r == Err::<OutputMode, AtlasError>(AtlasError::NoOutput),
{
    if text_dump {
        Ok(OutputMode::TextDump)
    } else if image {
        Ok(OutputMode::Image)
    } else {
        Err(AtlasError::NoOutput)
    }
}

/// Left edge of the cell of glyph `index`.
pub open spec fn cell_left(index: int, cell_w: int) -> int {
    (index % 16) * cell_w
}

/// Top edge of the cell of glyph `index`.
pub open spec fn cell_top(index: int, cell_h: int) -> int {
    (index / 16) * cell_h
}

/// The atlas dimensions fit in 32 bits.
pub open spec fn atlas_fits(cell_w: u32, cell_h: u32) -> bool {
    16 * cell_w <= u32::MAX && 16 * cell_h <= u32::MAX
}

/// A glyph that has nothing to draw: an empty raster or an empty box.
pub open spec fn is_blank(g: RenderedGlyph) -> bool {
    g.width == 0 || g.height == 0 || g.metrics.min_x == g.metrics.max_x || g.metrics.min_y
        == g.metrics.max_y
}

/// Horizontal offset of a glyph in its cell: centred, never left of the cell.
pub open spec fn offset_x(cell_w: int, glyph_w: int) -> int {
    if glyph_w < cell_w {
        (cell_w - glyph_w) / 2
    } else {
        0
    }
}

/// Vertical offset of a glyph in its cell; it may be negative when a glyph
/// taller than the cell is bottom-aligned.
pub open spec fn offset_y(cell_h: int, g: RenderedGlyph, descent: i32, align: VerticalAlign) -> int {
    let gh = g.height as int;
    if gh == cell_h {
        0
    } else {
        match align {
            VerticalAlign::Baseline => if g.metrics.min_y + descent <= 1 {
                cell_h - gh
            } else {
                0
            },
            VerticalAlign::Top => 0,
            VerticalAlign::Centered => if gh < cell_h {
                (cell_h - gh) / 2
            } else {
                0
            },
        }
    }
}

/// The smaller of `a` and `b`.
pub open spec fn min(a: int, b: int) -> int {
    if a < b {
        a
    } else {
        b
    }
}

/// The placement of glyph `index`, or `None` when the font has no glyph for
/// it or the glyph is blank, which leaves the cell as background.
pub open spec fn placement(
    index: int,
    cell_w: u32,
    cell_h: u32,
    glyph: Option<RenderedGlyph>,
    descent: i32,
    align: VerticalAlign,
) -> Option<Placement> {
    match glyph {
        None => None,
        Some(g) => if is_blank(g) {
            None
        } else {
            let oy = offset_y(cell_h as int, g, descent, align);
            Some(
                Placement {
                    x: (cell_left(index, cell_w as int) + offset_x(cell_w as int, g.width as int)) as u32,
                    y: (cell_top(index, cell_h as int) + (if oy < 0 {
                        0
                    } else {
                        oy
                    })) as u32,
                    src_y: (if oy < 0 {
                        -oy
                    } else {
                        0
                    }) as u32,
                    width: min(g.width as int, cell_w as int) as u32,
                    height: min(g.height as int, cell_h as int) as u32,
                    clipped: g.width > cell_w || g.height > cell_h,
                },
            )
        },
    }
}

/// The rectangle of `p` lies inside the cell of glyph `index`, and the part
/// of the raster it copies lies inside a raster of `g`'s size.
pub open spec fn inside_cell(p: Placement, index: int, cell_w: int, cell_h: int, g: RenderedGlyph) -> bool {
    &&& cell_left(index, cell_w) <= p.x
    &&& p.x + p.width <= cell_left(index, cell_w) + cell_w
    &&& cell_top(index, cell_h) <= p.y
    &&& p.y + p.height <= cell_top(index, cell_h) + cell_h
    &&& p.width <= g.width
    &&& p.src_y + p.height <= g.height
}

/// The rectangle of `p` shares no pixel with the cell of glyph `index`.
pub open spec fn misses_cell(p: Placement, index: int, cell_w: int, cell_h: int) -> bool {
    ||| p.x + p.width <= cell_left(index, cell_w)
    ||| cell_left(index, cell_w) + cell_w <= p.x
    ||| p.y + p.height <= cell_top(index, cell_h)
    ||| cell_top(index, cell_h) + cell_h <= p.y
}

proof fn lemma_cell_bounds(index: int, cell_w: int, cell_h: int)
    requires
        0 <= index < GLYPH_COUNT,
        0 <= cell_w,
        0 <= cell_h,
    ensures
        0 <= cell_left(index, cell_w),
        cell_left(index, cell_w) + cell_w <= 16 * cell_w,
        0 <= cell_top(index, cell_h),
        cell_top(index, cell_h) + cell_h <= 16 * cell_h,
{
    let (c, r) = (index % 16, index / 16);
    assert(0 <= c * cell_w && c * cell_w + cell_w <= 16 * cell_w) by (nonlinear_arith)
        requires
            0 <= c < 16,
            0 <= cell_w,
    ;
    assert(0 <= r * cell_h && r * cell_h + cell_h <= 16 * cell_h) by (nonlinear_arith)
        requires
            0 <= r < 16,
            0 <= cell_h,
    ;
}

/// The atlas is 16 cells wide and 16 cells tall.
pub fn atlas_dimensions(cell_w: u32, cell_h: u32) -> (r: (u32, u32))
    requires
        atlas_fits(cell_w, cell_h),
    ensures
        r.0 == 16 * cell_w,
        r.1 == 16 * cell_h,
{
    (GRID_SIDE * cell_w, GRID_SIDE * cell_h)
}

/// Top-left corner of the cell of glyph `index`: column `index % 16`, row
/// `index / 16`.
pub fn cell_origin(index: u8, cell_w: u32, cell_h: u32) -> (r: (u32, u32))
    requires
        atlas_fits(cell_w, cell_h),
    ensures
        r.0 == cell_left(index as int, cell_w as int),
        r.1 == cell_top(index as int, cell_h as int),
{
    proof {
        lemma_cell_bounds(index as int, cell_w as int, cell_h as int);
    }
    ((index as u32 % GRID_SIDE) * cell_w, (index as u32 / GRID_SIDE) * cell_h)
}

/// Places glyph `index` in its cell: centred horizontally, vertically as
/// `align` says, and cut to the cell where it is larger.
pub fn place_glyph(
    index: u8,
    cell_w: u32,
    cell_h: u32,
    glyph: Option<RenderedGlyph>,
    descent: i32,
    align: VerticalAlign,
) -> (r: Option<Placement>)
    requires
        atlas_fits(cell_w, cell_h),
    ensures
        r == placement(index as int, cell_w, cell_h, glyph, descent, align),
{
    let g = match glyph {
        None => return None,
        Some(g) => g,
    };
    if g.width == 0 || g.height == 0 || g.metrics.min_x == g.metrics.max_x || g.metrics.min_y
        == g.metrics.max_y {
        return None;
    }
    let (left, top) = cell_origin(index, cell_w, cell_h);
    proof {
        lemma_cell_bounds(index as int, cell_w as int, cell_h as int);
    }
    let ox: u32 = if g.width < cell_w {
        (cell_w - g.width) / 2
    } else {
        0
    };
    let oy: i64 = if g.height == cell_h {
        0
    } else {
        match align {
            VerticalAlign::Baseline => if g.metrics.min_y as i64 + descent as i64 <= 1 {
                cell_h as i64 - g.height as i64
            } else {
                0
            },
            VerticalAlign::Top => 0,
            VerticalAlign::Centered => if g.height < cell_h {
                ((cell_h - g.height) / 2) as i64
            } else {
                0
            },
        }
    };
    let (dy, src_y): (u32, u32) = if oy < 0 {
        (0, (-oy) as u32)
    } else {
        (oy as u32, 0)
    };
    let width = if g.width < cell_w {
        g.width
    } else {
        cell_w
    };
    let height = if g.height < cell_h {
        g.height
    } else {
        cell_h
    };
    Some(
        Placement {
            x: left + ox,
            y: top + dy,
            src_y,
            width,
            height,
            clipped: g.width > cell_w || g.height > cell_h,
        },
    )
}

/// Places every glyph of the code page; `glyphs[i]` is the rendering of byte
/// `i`, `None` where the font could not render it.
pub fn plan_atlas(
    cell_w: u32,
    cell_h: u32,
    glyphs: &Vec<Option<RenderedGlyph>>,
    descent: i32,
    align: VerticalAlign,
) -> (plan: Vec<Option<Placement>>)
    requires
        atlas_fits(cell_w, cell_h),
        glyphs@.len() == GLYPH_COUNT,
    ensures
        plan@.len() == GLYPH_COUNT,
        forall|i: int|
            0 <= i < GLYPH_COUNT ==> #[trigger] plan@[i] == placement(
                i,
                cell_w,
                cell_h,
                glyphs@[i],
                descent,
                align,
            ),
{
    let mut plan: Vec<Option<Placement>> = Vec::with_capacity(GLYPH_COUNT);
    let mut i: usize = 0;
    while i < GLYPH_COUNT
        invariant
            i <= GLYPH_COUNT,
            glyphs@.len() == GLYPH_COUNT,
            atlas_fits(cell_w, cell_h),
            plan@.len() == i,
            forall|j: int|
                0 <= j < i ==> #[trigger] plan@[j] == placement(
                    j,
                    cell_w,
                    cell_h,
                    glyphs@[j],
                    descent,
                    align,
                ),
        decreases GLYPH_COUNT - i,
    {
        plan.push(place_glyph(i as u8, cell_w, cell_h, glyphs[i], descent, align));
        i += 1;
    }
    plan
}

/// Every glyph lands in its own cell, at column `index % 16` and row
/// `index / 16`, and that cell lies inside the atlas.
pub proof fn lemma_glyph_lands_in_its_cell(
    index: int,
    cell_w: u32,
    cell_h: u32,
    g: RenderedGlyph,
    descent: i32,
    align: VerticalAlign,
)
    requires
        0 <= index < GLYPH_COUNT,
        atlas_fits(cell_w, cell_h),
        placement(index, cell_w, cell_h, Some(g), descent, align) is Some,
    ensures
        inside_cell(
            placement(index, cell_w, cell_h, Some(g), descent, align)->Some_0,
            index,
            cell_w as int,
            cell_h as int,
            g,
        ),
        0 <= cell_left(index, cell_w as int),
        cell_left(index, cell_w as int) + cell_w <= 16 * cell_w,
        0 <= cell_top(index, cell_h as int),
        cell_top(index, cell_h as int) + cell_h <= 16 * cell_h,
{
    lemma_cell_bounds(index, cell_w as int, cell_h as int);
}

proof fn lemma_cells_disjoint(i: int, j: int, cell_w: int, cell_h: int)
    requires
        0 <= i < GLYPH_COUNT,
        0 <= j < GLYPH_COUNT,
        i != j,
        0 <= cell_w,
        0 <= cell_h,
    ensures
        cell_left(j, cell_w) + cell_w <= cell_left(i, cell_w) || cell_left(i, cell_w) + cell_w
            <= cell_left(j, cell_w) || cell_top(j, cell_h) + cell_h <= cell_top(i, cell_h)
            || cell_top(i, cell_h) + cell_h <= cell_top(j, cell_h),
{
    let (ci, cj, ri, rj) = (i % 16, j % 16, i / 16, j / 16);
    assert(ci != cj || ri != rj);
    if ci < cj {
        assert(ci * cell_w + cell_w <= cj * cell_w) by (nonlinear_arith)
            requires
                ci < cj,
                0 <= cell_w,
        ;
    } else if cj < ci {
        assert(cj * cell_w + cell_w <= ci * cell_w) by (nonlinear_arith)
            requires
                cj < ci,
                0 <= cell_w,
        ;
    } else if ri < rj {
        assert(ri * cell_h + cell_h <= rj * cell_h) by (nonlinear_arith)
            requires
                ri < rj,
                0 <= cell_h,
        ;
    } else {
        assert(rj * cell_h + cell_h <= ri * cell_h) by (nonlinear_arith)
            requires
                rj < ri,
                0 <= cell_h,
        ;
    }
}

/// A byte value the font has no glyph for gets no placement, and no other
/// glyph's placement reaches into its cell: the cell stays background.
pub proof fn lemma_missing_glyph_leaves_cell_blank(
    cell_w: u32,
    cell_h: u32,
    glyphs: Seq<Option<RenderedGlyph>>,
    descent: i32,
    align: VerticalAlign,
    missing: int,
)
    requires
        atlas_fits(cell_w, cell_h),
        glyphs.len() == GLYPH_COUNT,
        0 <= missing < GLYPH_COUNT,
        glyphs[missing] is None,
    ensures
        placement(missing, cell_w, cell_h, glyphs[missing], descent, align) is None,
        forall|j: int|
            0 <= j < GLYPH_COUNT && (#[trigger] placement(
                j,
                cell_w,
                cell_h,
                glyphs[j],
                descent,
                align,
            )) is Some ==> misses_cell(
                placement(j, cell_w, cell_h, glyphs[j], descent, align)->Some_0,
                missing,
                cell_w as int,
                cell_h as int,
            ),
{
    assert forall|j: int|
        0 <= j < GLYPH_COUNT && (#[trigger] placement(
            j,
            cell_w,
            cell_h,
            glyphs[j],
            descent,
            align,
        )) is Some implies misses_cell(
        placement(j, cell_w, cell_h, glyphs[j], descent, align)->Some_0,
        missing,
        cell_w as int,
        cell_h as int,
    ) by {
        let g = glyphs[j]->Some_0;
        lemma_glyph_lands_in_its_cell(j, cell_w, cell_h, g, descent, align);
        lemma_cells_disjoint(missing, j, cell_w as int, cell_h as int);
    }
}

} // verus!
