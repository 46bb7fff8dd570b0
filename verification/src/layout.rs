//! Cutting an area into chunks with the toolkit's constraint solver.
use vstd::prelude::*;
use crate::geometry::{Constraint, Direction, Rect};
use tui::layout as toolkit;

verus! {

/// The largest margin whose double is still a `u16`.
pub const MAX_MARGIN: u16 = 32767;

/// Every rectangle of `chunks` stays within the right and bottom edges of `area`.
pub open spec fn all_bounded(area: Rect, chunks: Seq<Rect>) -> bool {
    forall|i: int| 0 <= i < chunks.len() ==> area.bounds(#[trigger] chunks[i])
}

/// `chunks` covers `area` along an axis without gap or overlap: the first
/// chunk starts where the area starts, each next one starts where the one
/// before it ends, the last one ends where the area ends, and across the axis
/// every chunk spans the area.
pub open spec fn tiles(along: Direction, area: Rect, chunks: Seq<Rect>) -> bool {
    &&& forall|i: int|
        0 <= i < chunks.len() ==> {
            &&& (#[trigger] chunks[i]).start(along.across()) == area.start(along.across())
            &&& chunks[i].extent(along.across()) == area.extent(along.across())
        }
    &&& chunks.len() > 0 ==> chunks[0].start(along) == area.start(along)
    &&& chunks.len() > 0 ==> chunks.last().end(along) == area.end(along)
    &&& forall|i: int| 0 <= i < chunks.len() - 1 ==> (#[trigger] chunks[i]).end(along) == chunks[i + 1].start(along)
}

/// The sum of the least sizes that meet the rules.
pub open spec fn total_floor(rules: Seq<Constraint>) -> int
    decreases rules.len(),
{
    if rules.len() == 0 {
        0
    } else {
        total_floor(rules.drop_last()) + rules.last().floor()
    }
}

/// Chunks that fill `extent` cells can meet every rule at once: the least
/// sizes add up to `extent`, or to less where a `Min` rule can take the rest.
pub open spec fn can_all_be_met(rules: Seq<Constraint>, extent: int) -> bool {
    ||| total_floor(rules) == extent
    ||| total_floor(rules) <= extent && exists|i: int| 0 <= i < rules.len() && #[trigger] rules[i] is Min
}

/// Along the axis, every chunk has a size that its rule asks for.
pub open spec fn all_met(along: Direction, rules: Seq<Constraint>, chunks: Seq<Rect>) -> bool {
    forall|i: int| 0 <= i < rules.len() ==> (#[trigger] rules[i]).met_by(chunks[i].extent(along))
}

/// `chunks` is a cut of `area` by `rules`: one chunk for each rule, in the
/// rules' order; together they tile the area; and where the rules can all be
/// met at once, they all are. Where they cannot, the sizes are the solver's
/// choice, and so is the share of each `Min` rule in what is left over.
pub open spec fn is_cut(along: Direction, rules: Seq<Constraint>, area: Rect, chunks: Seq<Rect>) -> bool {
    &&& chunks.len() == rules.len()
    &&& tiles(along, area, chunks)
    &&& can_all_be_met(rules, area.extent(along)) ==> all_met(along, rules, chunks)
}

/// Calls `tui::layout::Layout::split` on a layout with the given direction,
/// margin and constraints.
///
/// Believed of it, not proved: what comes back is a cut, in the sense of
/// `is_cut`, of the area less the margin. The toolkit makes one rectangle for
/// each constraint, by mapping over them. It shrinks the area as `Rect::inner`
/// says, and hands its solver as required constraints what `tiles` says: each
/// rectangle spans the shrunk area across the axis, the first starts at its
/// near edge, each next one starts where the one before ends, and the last
/// ends at its far edge. The sizes are weak constraints, `Length` an equation
/// and `Min` a lower bound, all of one strength: the solver meets them all
/// where that can be done, and is free otherwise. With these two kinds of
/// constraint every number is whole, so the conversion to `u16` loses nothing.
///
/// The toolkit doubles the margin in `u16`, and its required constraints
/// contradict each other, which makes it panic, where a far edge of the area
/// is past `u16::MAX`; the two preconditions leave that out.
#[verifier::external_body]
fn split(direction: Direction, margin: u16, constraints: &Vec<Constraint>, area: Rect) -> (chunks: Vec<Rect>)
    requires
        area.fits(),
        margin <= MAX_MARGIN,
    ensures
        is_cut(direction, constraints@, area.inner(margin), chunks@),
{
    let direction = match direction {
        Direction::Horizontal => toolkit::Direction::Horizontal,
        Direction::Vertical => toolkit::Direction::Vertical,
    };
    let constraints: Vec<_> = constraints.iter().map(|c| match *c {
        Constraint::Length(n) => toolkit::Constraint::Length(n),
        Constraint::Min(n) => toolkit::Constraint::Min(n),
    }).collect();
    let area = toolkit::Rect { x: area.x, y: area.y, width: area.width, height: area.height };
    let layout = toolkit::Layout::default().direction(direction).margin(margin).constraints(constraints);
    layout.split(area).iter().map(|r| Rect { x: r.x, y: r.y, width: r.width, height: r.height }).collect()
}

/// One more rule adds its least size to the sum.
pub proof fn total_floor_push(rules: Seq<Constraint>, rule: Constraint)
    ensures
        total_floor(rules.push(rule)) == total_floor(rules) + rule.floor(),
{
    assert(rules.push(rule).drop_last() =~= rules);
}

/// In a tiling, the chunks up to any one of them start at or after the
/// area's near edge.
proof fn tiles_start_late(along: Direction, area: Rect, chunks: Seq<Rect>, i: int)
    requires
        tiles(along, area, chunks),
        0 <= i < chunks.len(),
    ensures
        area.start(along) <= chunks[i].start(along),
    decreases i,
{
    if i > 0 {
        tiles_start_late(along, area, chunks, i - 1);
        assert(chunks[i - 1].end(along) == chunks[i - 1 + 1].start(along));
    }
}

/// In a tiling, the chunks from any one of them on end at or before the
/// area's far edge.
proof fn tiles_end_early(along: Direction, area: Rect, chunks: Seq<Rect>, i: int)
    requires
        tiles(along, area, chunks),
        0 <= i < chunks.len(),
    ensures
        chunks[i].end(along) <= area.end(along),
    decreases chunks.len() - i,
{
    if i < chunks.len() - 1 {
        tiles_end_early(along, area, chunks, i + 1);
        assert(chunks[i].end(along) == chunks[i + 1].start(along));
    }
}

/// The chunks of a tiling lie inside the area they tile.
pub proof fn tiles_stay_inside(along: Direction, area: Rect, chunks: Seq<Rect>)
    requires
        tiles(along, area, chunks),
    ensures
        forall|i: int|
            0 <= i < chunks.len() ==> {
                &&& area.x <= (#[trigger] chunks[i]).x
                &&& area.y <= chunks[i].y
                &&& area.bounds(chunks[i])
            },
{
    assert forall|i: int| 0 <= i < chunks.len() implies {
        &&& area.x <= (#[trigger] chunks[i]).x
        &&& area.y <= chunks[i].y
        &&& area.bounds(chunks[i])
    } by {
        tiles_start_late(along, area, chunks, i);
        tiles_end_early(along, area, chunks, i);
    }
}

/// What is left inside a margin does not reach past the rectangle.
pub proof fn inner_stays_inside(area: Rect, margin: u16)
    requires
        area.fits(),
        margin <= MAX_MARGIN,
    ensures
        area.bounds(area.inner(margin)),
        area.inner(margin).fits(),
{
}

/// Cuts `area` with the toolkit's solver, less a margin on every side.
fn cut(direction: Direction, margin: u16, constraints: &Vec<Constraint>, area: Rect) -> (chunks: Vec<Rect>)
    requires
        area.fits(),
        margin <= MAX_MARGIN,
    ensures
        is_cut(direction, constraints@, area.inner(margin), chunks@),
        all_bounded(area, chunks@),
{
    let chunks = split(direction, margin, constraints, area);
    proof {
        inner_stays_inside(area, margin);
        tiles_stay_inside(direction, area.inner(margin), chunks@);
    }
    chunks
}

/// Cuts `area` from top to bottom, one chunk for each constraint.
///
/// The chunks tile `area`, and meet the constraints where all can be met at
/// once; see `is_cut`. None reaches past `area`.
pub fn vertical_chunks(constraints: Vec<Constraint>, area: Rect) -> (chunks: Vec<Rect>)
    requires
        area.fits(),
    ensures
        is_cut(Direction::Vertical, constraints@, area, chunks@),
        all_bounded(area, chunks@),
{
    cut(Direction::Vertical, 0, &constraints, area)
}

/// Cuts `area` from left to right, one chunk for each constraint.
///
/// The chunks tile `area`, and meet the constraints where all can be met at
/// once; see `is_cut`. None reaches past `area`.
pub fn horizontal_chunks(constraints: Vec<Constraint>, area: Rect) -> (chunks: Vec<Rect>)
    requires
        area.fits(),
    ensures
        is_cut(Direction::Horizontal, constraints@, area, chunks@),
        all_bounded(area, chunks@),
{
    cut(Direction::Horizontal, 0, &constraints, area)
}

/// Cuts `area`, less a margin of `margin` cells on every side, from top to
/// bottom, one chunk for each constraint.
///
/// The chunks tile what the margin leaves of `area`, and meet the constraints
/// where all can be met at once; see `is_cut`. None reaches past `area`.
pub fn vertical_chunks_with_margin(constraints: Vec<Constraint>, area: Rect, margin: u16) -> (chunks: Vec<Rect>)
    requires
        area.fits(),
        margin <= MAX_MARGIN,
    ensures
        is_cut(Direction::Vertical, constraints@, area.inner(margin), chunks@),
        all_bounded(area, chunks@),
{
    cut(Direction::Vertical, margin, &constraints, area)
}

} // verus!
