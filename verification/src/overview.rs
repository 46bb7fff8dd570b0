//! The whole screen: status bar, filter and resource tabs, from top to bottom.
use vstd::prelude::*;
use crate::filter::{
    cursor_is_on_screen, draw_filter, filter_panel, FilterPanel, FilterPanelView, CURSOR_INDENT, CURSOR_ROW,
};
use crate::geometry::{Constraint, Direction, Rect};
use crate::layout::{all_bounded, is_cut, total_floor, total_floor_push, vertical_chunks};
use crate::state::{ActiveBlock, Branding, BrandingView, KeyBindings, KeyBindingsView, Snapshot, SnapshotView};
use crate::status::{draw_status_block, StatusBlock, StatusBlockView};
use crate::text::byte_len;

verus! {

/// The height of the status bar.
pub const STATUS_HEIGHT: u16 = 9;

/// The height of the filter.
pub const FILTER_HEIGHT: u16 = 3;

/// The least height of the resource tabs, which take what the bars leave.
pub const RESOURCE_TABS_MIN_HEIGHT: u16 = 10;

/// The number of regions the screen is cut into: the resource tabs, and one
/// more for each bar that is shown.
pub open spec fn region_count(show_info_bar: bool, show_filter: bool) -> nat {
    1 + (if show_info_bar { 1nat } else { 0 }) + (if show_filter { 1nat } else { 0 })
}

/// The size rules of the screen's regions, from top to bottom: the status bar
/// where it is shown, the filter where it is shown, the resource tabs always.
pub open spec fn overview_layout(show_info_bar: bool, show_filter: bool) -> Seq<Constraint> {
    (if show_info_bar { seq![Constraint::Length(STATUS_HEIGHT)] } else { seq![] })
        + (if show_filter { seq![Constraint::Length(FILTER_HEIGHT)] } else { seq![] })
        + seq![Constraint::Min(RESOURCE_TABS_MIN_HEIGHT)]
}

/// Which region of the screen goes to which part.
#[derive(Clone, Copy, Debug, PartialEq, Eq, Structural)]
pub struct Regions {
    pub status: Option<Rect>,
    pub filter: Option<Rect>,
    pub resource_tabs: Rect,
}

/// The regions of the parts, given the `chunks` that the screen was cut into:
/// the chunks are handed out from the top, first to the status bar where it
/// is shown, then to the filter where it is shown, then to the resource tabs.
pub open spec fn overview_regions(show_info_bar: bool, show_filter: bool, chunks: Seq<Rect>) -> Regions
    recommends
        chunks.len() == region_count(show_info_bar, show_filter),
{
    let filter_at: int = if show_info_bar { 1 } else { 0 };
    let tabs_at: int = if show_filter { filter_at + 1 } else { filter_at };
    Regions {
        status: if show_info_bar { Some(chunks[0]) } else { None },
        filter: if show_filter { Some(chunks[filter_at]) } else { None },
        resource_tabs: chunks[tabs_at],
    }
}

/// Whatever the two toggles say, the screen is cut into `region_count`
/// regions. The last one is the resource tabs' and is the only one that
/// takes what is left; the status bar's rule is among them exactly where the
/// status bar is shown, and then comes first; the filter's rule is among them
/// exactly where the filter is shown, and then comes next.
pub proof fn partition_is_complete(show_info_bar: bool, show_filter: bool)
    ensures
        overview_layout(show_info_bar, show_filter).len() == region_count(show_info_bar, show_filter),
        overview_layout(show_info_bar, show_filter).last() == Constraint::Min(RESOURCE_TABS_MIN_HEIGHT),
        forall|i: int|
            0 <= i < overview_layout(show_info_bar, show_filter).len() - 1
                ==> #[trigger] overview_layout(show_info_bar, show_filter)[i] is Length,
        show_info_bar <==> overview_layout(show_info_bar, show_filter).contains(Constraint::Length(STATUS_HEIGHT)),
        show_filter <==> overview_layout(show_info_bar, show_filter).contains(Constraint::Length(FILTER_HEIGHT)),
        show_info_bar ==> overview_layout(show_info_bar, show_filter)[0] == Constraint::Length(STATUS_HEIGHT),
        show_filter ==> overview_layout(show_info_bar, show_filter)[if show_info_bar { 1int } else { 0int }]
            == Constraint::Length(FILTER_HEIGHT),
{
    let layout = overview_layout(show_info_bar, show_filter);
    if show_info_bar {
        assert(layout[0] == Constraint::Length(STATUS_HEIGHT));
    }
    if show_filter {
        assert(layout[if show_info_bar { 1int } else { 0int }] == Constraint::Length(FILTER_HEIGHT));
    }
}

/// Whatever the two toggles say, the chunks of the screen are handed out so
/// that the resource tabs get the last one, the status bar gets one exactly
/// where it is shown, and the filter gets one exactly where it is shown; no
/// chunk is handed out twice and none is left over.
pub proof fn regions_are_complete(show_info_bar: bool, show_filter: bool, chunks: Seq<Rect>)
    requires
        chunks.len() == region_count(show_info_bar, show_filter),
    ensures
        overview_regions(show_info_bar, show_filter, chunks).resource_tabs == chunks.last(),
        overview_regions(show_info_bar, show_filter, chunks).status is Some <==> show_info_bar,
        overview_regions(show_info_bar, show_filter, chunks).filter is Some <==> show_filter,
        show_info_bar ==> overview_regions(show_info_bar, show_filter, chunks).status == Some(chunks[0]),
        show_filter ==> overview_regions(show_info_bar, show_filter, chunks).filter == Some(
            chunks[chunks.len() - 2],
        ),
{
}

/// The screen: the bars that are shown, and the region left to the resource
/// tabs, which another renderer fills.
#[derive(Clone, Debug, PartialEq, Eq)]
pub struct Overview {
    pub status: Option<StatusBlock>,
    pub filter: Option<FilterPanel>,
    pub resource_tabs: Rect,
}

pub ghost struct OverviewView {
    pub status: Option<StatusBlockView>,
    pub filter: Option<FilterPanelView>,
    pub resource_tabs: Rect,
}

impl View for Overview {
    type V = OverviewView;

    open spec fn view(&self) -> OverviewView {
        OverviewView {
            status: match self.status {
                Some(s) => Some(s@),
                None => None,
            },
            filter: match self.filter {
                Some(f) => Some(f@),
                None => None,
            },
            resource_tabs: self.resource_tabs,
        }
    }
}

impl Overview {
    /// The regions of the screen, from top to bottom.
    pub open spec fn chunks(self) -> Seq<Rect> {
        (match self.status {
            Some(s) => seq![s.area],
            None => seq![],
        }) + (match self.filter {
            Some(f) => seq![f.area],
            None => seq![],
        }) + seq![self.resource_tabs]
    }

    /// The regions of the screen, each with the part it goes to.
    pub open spec fn regions(self) -> Regions {
        Regions {
            status: match self.status {
                Some(s) => Some(s.area),
                None => None,
            },
            filter: match self.filter {
                Some(f) => Some(f.area),
                None => None,
            },
            resource_tabs: self.resource_tabs,
        }
    }

    /// The screen is what `app` asks for in `area`: the status bar is there
    /// exactly where it is shown, and so is the filter; the regions are a cut
    /// of `area` by `overview_layout`, handed out from the top; and each bar
    /// is the one its own module describes for its region.
    pub open spec fn laid_out(self, app: SnapshotView, keys: KeyBindingsView, branding: BrandingView, area: Rect) -> bool {
        &&& self.status is Some <==> app.show_info_bar
        &&& self.filter is Some <==> app.show_filter
        &&& is_cut(Direction::Vertical, overview_layout(app.show_info_bar, app.show_filter), area, self.chunks())
        &&& all_bounded(area, self.chunks())
        &&& self.regions() == overview_regions(app.show_info_bar, app.show_filter, self.chunks())
        &&& area.height >= overview_floor(app.show_info_bar, app.show_filter) ==> self.chunks() == overview_chunks(
            app.show_info_bar,
            app.show_filter,
            area,
        )
        &&& self.status matches Some(s) ==> s.laid_out(app, keys, branding, s.area)
        &&& self.filter matches Some(f) ==> f@ == filter_panel(app, keys, f.area)
    }
}

/// The least height at which every region gets what it asks for.
pub open spec fn overview_floor(show_info_bar: bool, show_filter: bool) -> int {
    (if show_info_bar { STATUS_HEIGHT as int } else { 0 })
        + (if show_filter { FILTER_HEIGHT as int } else { 0 })
        + RESOURCE_TABS_MIN_HEIGHT
}

/// The regions of an `area` of at least `overview_floor` rows: each bar that
/// is shown has its height, and the resource tabs take the rows below them.
pub open spec fn overview_chunks(show_info_bar: bool, show_filter: bool, area: Rect) -> Seq<Rect> {
    let status: int = if show_info_bar { STATUS_HEIGHT as int } else { 0 };
    let filter: int = if show_filter { FILTER_HEIGHT as int } else { 0 };
    (if show_info_bar { seq![area.rows(0, status)] } else { seq![] })
        + (if show_filter { seq![area.rows(status, filter)] } else { seq![] })
        + seq![area.rows(status + filter, area.height - status - filter)]
}

/// Where the screen is high enough, its cut is fixed: each bar that is shown
/// has its height, and the resource tabs end at the bottom of the screen.
pub proof fn overview_cut_when_roomy(show_info_bar: bool, show_filter: bool, area: Rect, chunks: Seq<Rect>)
    requires
        area.fits(),
        is_cut(Direction::Vertical, overview_layout(show_info_bar, show_filter), area, chunks),
        area.height >= overview_floor(show_info_bar, show_filter),
    ensures
        chunks == overview_chunks(show_info_bar, show_filter, area),
{
    let rules = overview_layout(show_info_bar, show_filter);
    let none = Seq::<Constraint>::empty();
    let last = rules.len() - 1;
    assert(rules[last] is Min);
    assert(chunks.last() == chunks[last]);
    total_floor_push(none, rules[0]);
    if rules.len() == 1 {
        assert(rules =~= none.push(rules[0]));
    } else if rules.len() == 2 {
        assert(rules =~= none.push(rules[0]).push(rules[1]));
        total_floor_push(none.push(rules[0]), rules[1]);
        assert(rules[1].met_by(chunks[1].extent(Direction::Vertical)));
        assert(chunks[0].end(Direction::Vertical) == chunks[0int + 1].start(Direction::Vertical));
    } else {
        assert(rules =~= none.push(rules[0]).push(rules[1]).push(rules[2]));
        total_floor_push(none.push(rules[0]), rules[1]);
        total_floor_push(none.push(rules[0]).push(rules[1]), rules[2]);
        assert(rules[1].met_by(chunks[1].extent(Direction::Vertical)));
        assert(rules[2].met_by(chunks[2].extent(Direction::Vertical)));
        assert(chunks[0].end(Direction::Vertical) == chunks[0int + 1].start(Direction::Vertical));
        assert(chunks[1].end(Direction::Vertical) == chunks[1int + 1].start(Direction::Vertical));
    }
    assert(rules[0].met_by(chunks[0].extent(Direction::Vertical)));
    assert(chunks =~= overview_chunks(show_info_bar, show_filter, area));
}

/// However the screen is cut, the resource tabs get the rows at its bottom,
/// over its whole width.
pub proof fn resource_tabs_fill_the_bottom(show_info_bar: bool, show_filter: bool, area: Rect, chunks: Seq<Rect>)
    requires
        is_cut(Direction::Vertical, overview_layout(show_info_bar, show_filter), area, chunks),
    ensures
        overview_regions(show_info_bar, show_filter, chunks).resource_tabs.bottom() == area.bottom(),
        overview_regions(show_info_bar, show_filter, chunks).resource_tabs.x == area.x,
        overview_regions(show_info_bar, show_filter, chunks).resource_tabs.width == area.width,
{
    let tabs = overview_regions(show_info_bar, show_filter, chunks).resource_tabs;
    assert(tabs == chunks.last());
    assert(tabs.end(Direction::Vertical) == area.end(Direction::Vertical));
    assert(tabs.start(Direction::Vertical.across()) == area.start(Direction::Vertical.across()));
}

/// Wherever the cut of `area` puts the filter, its text cursor is a cell that
/// a terminal can address. This asks something only where the filter is shown
/// and has the focus: that the cursor's column, counted from the left edge of
/// `area`, is on the screen, and that its row is. The row is, where `area` is
/// high enough for the cut to be fixed; on a lower screen the filter may come
/// to stand as low as the bottom edge of `area`, and the row below that edge
/// has to be on the screen.
pub open spec fn cursor_room(app: SnapshotView, area: Rect) -> bool {
    app.show_filter && app.active_block == ActiveBlock::Filter ==> {
        &&& area.x + CURSOR_INDENT + byte_len(app.filter) <= u16::MAX
        &&& area.height >= overview_floor(app.show_info_bar, app.show_filter) || area.bottom() + CURSOR_ROW
            <= u16::MAX
    }
}

/// Tests `cursor_room` at run time.
pub fn has_cursor_room(app: &Snapshot, area: Rect) -> (ok: bool)
    requires
        area.fits(),
    ensures
        ok == cursor_room(app@, area),
{
    if !app.show_filter || app.active_block != ActiveBlock::Filter {
        return true;
    }
    let bars: u16 = if app.show_info_bar {
        STATUS_HEIGHT + FILTER_HEIGHT
    } else {
        FILTER_HEIGHT
    };
    let row_fits = area.height >= bars + RESOURCE_TABS_MIN_HEIGHT || area.height < u16::MAX - area.y;
    let top = Rect { x: area.x, y: 0, width: 0, height: 0 };
    row_fits && cursor_is_on_screen(top, &app.filter)
}

/// Writes the size rules of the screen's regions.
pub fn overview_constraints(show_info_bar: bool, show_filter: bool) -> (constraints: Vec<Constraint>)
    ensures
        constraints@ == overview_layout(show_info_bar, show_filter),
{
    let mut constraints: Vec<Constraint> = Vec::new();
    if show_info_bar {
        constraints.push(Constraint::Length(STATUS_HEIGHT));
    }
    if show_filter {
        constraints.push(Constraint::Length(FILTER_HEIGHT));
    }
    constraints.push(Constraint::Min(RESOURCE_TABS_MIN_HEIGHT));
    assert(constraints@ =~= overview_layout(show_info_bar, show_filter));
    constraints
}

/// Hands the chunks of the screen out to its parts.
pub fn assign_regions(show_info_bar: bool, show_filter: bool, chunks: &Vec<Rect>) -> (regions: Regions)
    requires
        chunks@.len() == region_count(show_info_bar, show_filter),
    ensures
        regions == overview_regions(show_info_bar, show_filter, chunks@),
{
    let mut next: usize = 0;
    let mut status: Option<Rect> = None;
    let mut filter: Option<Rect> = None;
    if show_info_bar {
        status = Some(chunks[next]);
        next += 1;
    }
    if show_filter {
        filter = Some(chunks[next]);
        next += 1;
    }
    Regions { status, filter, resource_tabs: chunks[next] }
}

/// Lays the screen out in `area` and describes the bars that are shown.
///
/// `area` is cut from top to bottom by `overview_layout`. The status bar is
/// there exactly where `show_info_bar` is set, the filter exactly where
/// `show_filter` is set, and each is the one its own module describes for the
/// region it was given; the last region is left to the resource tabs. Where
/// `area` has at least `overview_floor` rows the regions are those of
/// `overview_chunks`; on a lower screen the heights are the solver's choice.
///
/// The filter's text cursor needs a cell on the screen: see `cursor_room`.
pub fn draw_overview(app: &Snapshot, keys: &KeyBindings, branding: &Branding, area: Rect) -> (overview: Overview)
    requires
        area.fits(),
        cursor_room(app@, area),
    ensures
        overview.laid_out(app@, keys@, branding@, area),
{
    let chunks = vertical_chunks(overview_constraints(app.show_info_bar, app.show_filter), area);
    proof {
        partition_is_complete(app.show_info_bar, app.show_filter);
        if area.height >= overview_floor(app.show_info_bar, app.show_filter) {
            overview_cut_when_roomy(app.show_info_bar, app.show_filter, area, chunks@);
        }
    }
    let regions = assign_regions(app.show_info_bar, app.show_filter, &chunks);
    let status = match regions.status {
        Some(region) => {
            assert(area.bounds(chunks@[0]));
            Some(draw_status_block(app, keys, branding, region))
        },
        None => None,
    };
    let filter = match regions.filter {
        Some(region) => {
            let ghost at = if app.show_info_bar { 1int } else { 0int };
            assert(area.bounds(chunks@[at]));
            assert(chunks@[at].start(Direction::Vertical.across()) == area.start(Direction::Vertical.across()));
            Some(draw_filter(app, keys, region))
        },
        None => None,
    };
    let overview = Overview { status, filter, resource_tabs: regions.resource_tabs };
    assert(overview.chunks() =~= chunks@);
    overview
}

} // verus!
