//! Point-size search: the decisions of the width-match, the descending
//! height-match and the proportional height-match policies, one trial at a
//! time.
//!
//! The caller loads the font at the size a step asks for, measures it, and
//! hands the measurement to the next step.

use vstd::prelude::*;

verus! {

/// Largest point size the width-match search tries; it starts at 1.
pub const WIDTH_SEARCH_LAST_SIZE: u32 = 127;

/// Point size the descending height search starts from.
pub const DESCEND_FIRST_SIZE: u32 = 48;

/// Smallest point size the descending height search tries (44 trials).
pub const DESCEND_LAST_SIZE: u32 = 5;

/// Extents of one rendered glyph relative to its pen origin, in pixels.
#[derive(Clone, Copy, Debug, PartialEq, Eq, Structural)]
pub struct GlyphBox {
    pub min_x: i32,
    pub max_x: i32,
    pub min_y: i32,
    pub max_y: i32,
}

/// What a search does after a trial.
#[derive(Clone, Copy, Debug, PartialEq, Eq, Structural)]
pub enum SizeStep {
    /// Load the font at this size and measure again.
    Try(u32),
    /// The search is over: use this size; `measured` is the last measurement.
    Accept { size: u32, measured: u32 },
}

/// The width a glyph contributes to the widest-glyph measure: its right
/// extent, or nothing when that lies left of the origin.
pub open spec fn glyph_width(g: GlyphBox) -> int {
    if g.max_x < 0 {
        0
    } else {
        g.max_x as int
    }
}

/// `w` is the largest width among the glyphs present in `glyphs`, or 0 when
/// none is.
pub open spec fn is_widest(glyphs: Seq<Option<GlyphBox>>, w: int) -> bool {
    &&& forall|i: int| 0 <= i < glyphs.len() && #[trigger] glyphs[i] is Some ==> glyph_width(
        glyphs[i]->Some_0,
    ) <= w
    &&& (w == 0 || exists|i: int|
        0 <= i < glyphs.len() && #[trigger] glyphs[i] is Some && glyph_width(glyphs[i]->Some_0)
            == w)
}

/// The widest right extent over the glyphs the font has; glyphs it lacks
/// (`None`) are skipped.
pub fn max_glyph_width(glyphs: &Vec<Option<GlyphBox>>) -> (w: u32)
    ensures
        is_widest(glyphs@, w as int),
{
    let mut w: u32 = 0;
    let mut i: usize = 0;
    while i < glyphs.len()
        invariant
            i <= glyphs@.len(),
            is_widest(glyphs@.subrange(0, i as int), w as int),
        decreases glyphs@.len() - i,
    {
        let ghost before = glyphs@.subrange(0, i as int);
        let ghost after = glyphs@.subrange(0, i as int + 1);
        assert(forall|j: int| 0 <= j < i ==> after[j] == before[j]);
        if let Some(g) = glyphs[i] {
            if g.max_x >= 0 && g.max_x as u32 > w {
                w = g.max_x as u32;
                assert(after[i as int] is Some);
            }
        }
        i += 1;
    }
    assert(glyphs@.subrange(0, glyphs@.len() as int) =~= glyphs@);
    w
}

/// The width-match decision after trying `size`: accept it once the widest
/// glyph reaches the target width or the last size has been tried.
pub open spec fn width_step(target: u32, size: u32, max_width: u32) -> SizeStep {
    if max_width >= target || size >= WIDTH_SEARCH_LAST_SIZE {
        SizeStep::Accept { size, measured: max_width }
    } else {
        SizeStep::Try((size + 1) as u32)
    }
}

/// One step of the width-match search.
pub fn width_match_step(target: u32, size: u32, max_width: u32) -> (s: SizeStep)
    requires
        1 <= size <= WIDTH_SEARCH_LAST_SIZE,
    ensures
        s == width_step(target, size, max_width),
{
    if max_width >= target || size >= WIDTH_SEARCH_LAST_SIZE {
        SizeStep::Accept { size, measured: max_width }
    } else {
        SizeStep::Try(size + 1)
    }
}

/// The size the width-match search accepts when the widest glyph measures
/// `trace[s - 1]` at size `s`, continuing from `size`.
pub open spec fn width_search(target: u32, trace: Seq<u32>, size: u32) -> u32
    recommends
        trace.len() == WIDTH_SEARCH_LAST_SIZE,
    decreases WIDTH_SEARCH_LAST_SIZE - size,
{
    if size < 1 || size > WIDTH_SEARCH_LAST_SIZE {
        size
    } else {
        match width_step(target, size, trace[size - 1]) {
            SizeStep::Accept { size: s, measured: _ } => s,
            SizeStep::Try(next) => width_search(target, trace, next),
        }
    }
}

proof fn lemma_width_search_from(target: u32, trace: Seq<u32>, size: u32)
    requires
        trace.len() == WIDTH_SEARCH_LAST_SIZE,
        1 <= size <= WIDTH_SEARCH_LAST_SIZE,
    ensures
        size <= width_search(target, trace, size) <= WIDTH_SEARCH_LAST_SIZE,
        trace[width_search(target, trace, size) - 1] >= target || width_search(target, trace, size)
            == WIDTH_SEARCH_LAST_SIZE,
        forall|s: int|
            size <= s < width_search(target, trace, size) ==> #[trigger] trace[s - 1] < target,
    decreases WIDTH_SEARCH_LAST_SIZE - size,
{
    if trace[size - 1] < target && size < WIDTH_SEARCH_LAST_SIZE {
        lemma_width_search_from(target, trace, (size + 1) as u32);
    }
}

/// The width-match search, run from size 1 over the measurements `trace`
/// (`trace[s - 1]` taken at size `s`), accepts the first size whose widest
/// glyph reaches the target, or the last size when none does; the
/// measurement it reports is the one taken at the accepted size.
pub proof fn lemma_width_search_accepts_first_fit(target: u32, trace: Seq<u32>)
    requires
        trace.len() == WIDTH_SEARCH_LAST_SIZE,
    ensures
        1 <= width_search(target, trace, 1) <= WIDTH_SEARCH_LAST_SIZE,
        trace[width_search(target, trace, 1) - 1] >= target || width_search(target, trace, 1)
            == WIDTH_SEARCH_LAST_SIZE,
        forall|s: int| 1 <= s < width_search(target, trace, 1) ==> #[trigger] trace[s - 1] < target,
        width_step(target, width_search(target, trace, 1), trace[width_search(target, trace, 1) - 1])
            == (SizeStep::Accept {
            size: width_search(target, trace, 1),
            measured: trace[width_search(target, trace, 1) - 1],
        }),
{
    lemma_width_search_from(target, trace, 1);
}

/// The descending height decision after trying `size`: the first size whose
/// rendered height fits the target sends the search one size back up;
/// otherwise it goes one size down, or accepts the last size tried.
pub open spec fn descend_step(target: u32, size: u32, height: u32) -> SizeStep {
    if height <= target {
        SizeStep::Accept { size: (size + 1) as u32, measured: height }
    } else if size <= DESCEND_LAST_SIZE {
        SizeStep::Accept { size, measured: height }
    } else {
        SizeStep::Try((size - 1) as u32)
    }
}

/// One step of the descending height-match search.
pub fn height_descend_step(target: u32, size: u32, height: u32) -> (s: SizeStep)
    requires
        DESCEND_LAST_SIZE <= size <= DESCEND_FIRST_SIZE,
    ensures
        s == descend_step(target, size, height),
{
    if height <= target {
        SizeStep::Accept { size: size + 1, measured: height }
    } else if size <= DESCEND_LAST_SIZE {
        SizeStep::Accept { size, measured: height }
    } else {
        SizeStep::Try(size - 1)
    }
}

/// The size the descending search accepts when text renders `heights[s]`
/// pixels tall at size `s`, continuing from `size`.
pub open spec fn descend_search(target: u32, heights: Seq<u32>, size: u32) -> u32
    recommends
        heights.len() > DESCEND_FIRST_SIZE,
    decreases size,
{
    if size < DESCEND_LAST_SIZE || size > DESCEND_FIRST_SIZE {
        size
    } else {
        match descend_step(target, size, heights[size as int]) {
            SizeStep::Accept { size: s, measured: _ } => s,
            SizeStep::Try(next) => descend_search(target, heights, next),
        }
    }
}

proof fn lemma_descend_search_from(target: u32, heights: Seq<u32>, size: u32)
    requires
        heights.len() > DESCEND_FIRST_SIZE,
        DESCEND_LAST_SIZE <= size <= DESCEND_FIRST_SIZE,
    ensures
        ({
            let r = descend_search(target, heights, size);
            &&& forall|s: int| r <= s <= size && s > DESCEND_LAST_SIZE ==> heights[s] > target
            &&& heights[r - 1] <= target && r - 1 >= DESCEND_LAST_SIZE
                || r == DESCEND_LAST_SIZE && heights[r as int] > target
            &&& r <= size + 1
        }),
    decreases size,
{
    if heights[size as int] > target && size > DESCEND_LAST_SIZE {
        lemma_descend_search_from(target, heights, (size - 1) as u32);
    }
}

/// The descending height search, run from its first size over the heights
/// `heights[s]` measured at size `s`, accepts one size above the first
/// (largest) size whose height fits the target; every size it tried above
/// that one rendered too tall. When no tried size fits it accepts the last.
pub proof fn lemma_descend_search_steps_back(target: u32, heights: Seq<u32>)
    requires
        heights.len() > DESCEND_FIRST_SIZE,
    ensures
        ({
            let r = descend_search(target, heights, DESCEND_FIRST_SIZE);
            &&& DESCEND_LAST_SIZE <= r <= DESCEND_FIRST_SIZE + 1
            &&& r > DESCEND_LAST_SIZE ==> heights[r - 1] <= target
            &&& forall|s: int| r <= s <= DESCEND_FIRST_SIZE && s > DESCEND_LAST_SIZE ==> heights[s] > target
            &&& r == DESCEND_LAST_SIZE ==> forall|s: int|
                DESCEND_LAST_SIZE <= s <= DESCEND_FIRST_SIZE ==> heights[s] > target
        }),
{
    lemma_descend_search_from(target, heights, DESCEND_FIRST_SIZE);
}

/// Trials the proportional height search makes at most.
pub const SCALE_SEARCH_TRIALS: u32 = 15;

/// What the proportional height search does after a trial.
#[derive(Clone, Copy, Debug, PartialEq, Eq, Structural)]
pub enum ScaleStep {
    /// The reference glyph has the target height: keep this size.
    Accept,
    /// Scale the size by target over measured height and try again.
    Rescale,
    /// No trials are left: keep the last size, whatever its error.
    GiveUp,
}

/// The proportional decision after trial `trial` (counted from 1): a
/// whole-pixel height is within half a pixel of the target only when it
/// equals it.
pub open spec fn scale_step(target: u32, measured: u32, trial: u32) -> ScaleStep {
    if measured == target {
        ScaleStep::Accept
    } else if trial >= SCALE_SEARCH_TRIALS {
        ScaleStep::GiveUp
    } else {
        ScaleStep::Rescale
    }
}

/// One step of the proportional height search, given the height the
/// reference glyph rendered to.
pub fn proportional_step(target: u32, measured: u32, trial: u32) -> (s: ScaleStep)
    requires
        1 <= trial <= SCALE_SEARCH_TRIALS,
    ensures
        s == scale_step(target, measured, trial),
{
    if measured == target {
        ScaleStep::Accept
    } else if trial >= SCALE_SEARCH_TRIALS {
        ScaleStep::GiveUp
    } else {
        ScaleStep::Rescale
    }
}

} // verus!
