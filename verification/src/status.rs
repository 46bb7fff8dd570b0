//! The status bar: four panels side by side.
use vstd::prelude::*;
use crate::cli::{cli_version_panel, draw_cli_version_block};
use crate::context::{
    context_floor, context_layout, context_panel, draw_context_info_block, ContextPanel, ContextPanelView,
    CONTEXT_MARGIN, CONTEXT_TEXT_HEIGHT,
};
use crate::geometry::{Constraint, Direction, Rect};
use crate::layout::{all_bounded, horizontal_chunks, is_cut, total_floor, total_floor_push};
use crate::logo::{draw_logo_block, logo_panel, LogoPanel, LogoPanelView};
use crate::namespaces::{draw_namespaces_block, namespaces_panel};
use crate::state::{Branding, BrandingView, KeyBindings, KeyBindingsView, Snapshot, SnapshotView};
use crate::widgets::{ListPanel, ListPanelView};

verus! {

/// The width of the namespaces panel.
pub const NAMESPACES_WIDTH: u16 = 35;

/// The least width of the context panel, which takes what the others leave.
pub const CONTEXT_MIN_WIDTH: u16 = 10;

/// The width of the tools panel.
pub const CLI_WIDTH: u16 = 30;

/// The width of the logo panel.
pub const LOGO_WIDTH: u16 = 32;

/// The status bar: from left to right the namespaces, the context with its
/// gauges, the tools and the logo.
#[derive(Clone, Debug, PartialEq, Eq)]
pub struct StatusBlock {
    pub area: Rect,
    pub namespaces: ListPanel,
    pub context: ContextPanel,
    pub clis: ListPanel,
    pub logo: LogoPanel,
}

pub ghost struct StatusBlockView {
    pub area: Rect,
    pub namespaces: ListPanelView,
    pub context: ContextPanelView,
    pub clis: ListPanelView,
    pub logo: LogoPanelView,
}

impl View for StatusBlock {
    type V = StatusBlockView;

    open spec fn view(&self) -> StatusBlockView {
        StatusBlockView {
            area: self.area,
            namespaces: self.namespaces@,
            context: self.context@,
            clis: self.clis@,
            logo: self.logo@,
        }
    }
}

/// The size rules of the four panels, from left to right.
pub open spec fn status_layout() -> Seq<Constraint> {
    seq![
        Constraint::Length(NAMESPACES_WIDTH),
        Constraint::Min(CONTEXT_MIN_WIDTH),
        Constraint::Length(CLI_WIDTH),
        Constraint::Length(LOGO_WIDTH),
    ]
}

/// The status bar that `app` asks for in `area`, cut into `chunks`, with the
/// inside of the context panel cut into `context_chunks`. Each panel is the
/// one its own module describes for its chunk.
pub open spec fn status_block(
    app: SnapshotView,
    keys: KeyBindingsView,
    branding: BrandingView,
    area: Rect,
    chunks: Seq<Rect>,
    context_chunks: Seq<Rect>,
) -> StatusBlockView
    recommends
        chunks.len() == 4,
        context_chunks.len() == 3,
{
    StatusBlockView {
        area,
        namespaces: namespaces_panel(app, keys, chunks[0]),
        context: context_panel(app, chunks[1], context_chunks),
        clis: cli_version_panel(app, chunks[2]),
        logo: logo_panel(app, branding, chunks[3]),
    }
}

/// The least width at which every panel gets what it asks for.
pub open spec fn status_floor() -> int {
    NAMESPACES_WIDTH + CONTEXT_MIN_WIDTH + CLI_WIDTH + LOGO_WIDTH
}

/// The four panels' regions in an `area` of at least `status_floor` columns:
/// the three fixed widths, and for the context what they leave.
pub open spec fn status_chunks(area: Rect) -> Seq<Rect> {
    let rest = area.width - NAMESPACES_WIDTH - CLI_WIDTH - LOGO_WIDTH;
    seq![
        area.columns(0, NAMESPACES_WIDTH as int),
        area.columns(NAMESPACES_WIDTH as int, rest),
        area.columns(NAMESPACES_WIDTH + rest, CLI_WIDTH as int),
        area.columns(NAMESPACES_WIDTH + rest + CLI_WIDTH, LOGO_WIDTH as int),
    ]
}

/// Where the bar is wide enough, its cut is fixed: every panel has its width,
/// and the context takes what the others leave.
pub proof fn status_cut_when_roomy(area: Rect, chunks: Seq<Rect>)
    requires
        area.fits(),
        is_cut(Direction::Horizontal, status_layout(), area, chunks),
        area.width >= status_floor(),
    ensures
        chunks == status_chunks(area),
{
    let rules = status_layout();
    let none = Seq::<Constraint>::empty();
    assert(rules =~= none.push(rules[0]).push(rules[1]).push(rules[2]).push(rules[3]));
    total_floor_push(none, rules[0]);
    total_floor_push(none.push(rules[0]), rules[1]);
    total_floor_push(none.push(rules[0]).push(rules[1]), rules[2]);
    total_floor_push(none.push(rules[0]).push(rules[1]).push(rules[2]), rules[3]);
    assert(total_floor(rules) == status_floor());
    assert(rules[1] is Min);
    assert(rules[0].met_by(chunks[0].extent(Direction::Horizontal)));
    assert(rules[1].met_by(chunks[1].extent(Direction::Horizontal)));
    assert(rules[2].met_by(chunks[2].extent(Direction::Horizontal)));
    assert(rules[3].met_by(chunks[3].extent(Direction::Horizontal)));
    assert(chunks[0].end(Direction::Horizontal) == chunks[0int + 1].start(Direction::Horizontal));
    assert(chunks[1].end(Direction::Horizontal) == chunks[1int + 1].start(Direction::Horizontal));
    assert(chunks[2].end(Direction::Horizontal) == chunks[2int + 1].start(Direction::Horizontal));
    assert(chunks.last() == chunks[3]);
    assert(chunks =~= status_chunks(area));
}

impl StatusBlock {
    /// The regions of the four panels, from left to right.
    pub open spec fn chunks(self) -> Seq<Rect> {
        seq![self.namespaces.area, self.context.area, self.clis.area, self.logo.area]
    }

    /// The bar is what `app` asks for in `area`: its panels' regions are a
    /// cut of `area` by `status_layout`, the regions inside the context panel
    /// are a cut of that panel's inside by `context_layout`, and every panel
    /// is the one its own module describes for its region.
    pub open spec fn laid_out(self, app: SnapshotView, keys: KeyBindingsView, branding: BrandingView, area: Rect) -> bool {
        let inside = self.context.area.inner(CONTEXT_MARGIN);
        &&& self@ == status_block(app, keys, branding, area, self.chunks(), self.context.chunks())
        &&& is_cut(Direction::Horizontal, status_layout(), area, self.chunks())
        &&& all_bounded(area, self.chunks())
        &&& area.width >= status_floor() ==> self.chunks() == status_chunks(area)
        &&& is_cut(Direction::Vertical, context_layout(), inside, self.context.chunks())
        &&& all_bounded(self.context.area, self.context.chunks())
        &&& inside.height >= context_floor() ==> self.context.text_area == inside.rows(0, CONTEXT_TEXT_HEIGHT as int)
    }
}

/// Writes the size rules of the four panels.
pub fn status_constraints() -> (constraints: Vec<Constraint>)
    ensures
        constraints@ == status_layout(),
{
    let constraints = vec![
        Constraint::Length(NAMESPACES_WIDTH),
        Constraint::Min(CONTEXT_MIN_WIDTH),
        Constraint::Length(CLI_WIDTH),
        Constraint::Length(LOGO_WIDTH),
    ];
    assert(constraints@ =~= status_layout());
    constraints
}

/// Lays the status bar out in `area` and describes its four panels.
///
/// `area` is cut from left to right by `status_layout`, and every chunk goes
/// unchanged to its panel: the bar is the one that `status_block` describes
/// for that cut, and for the cut that the context panel makes of its inside.
/// Where `area` has at least `status_floor` columns the panels' regions are
/// those of `status_chunks`.
pub fn draw_status_block(app: &Snapshot, keys: &KeyBindings, branding: &Branding, area: Rect) -> (block: StatusBlock)
    requires
        area.fits(),
    ensures
        block.laid_out(app@, keys@, branding@, area),
{
    let chunks = horizontal_chunks(status_constraints(), area);
    assert(area.bounds(chunks@[1]));
    proof {
        if area.width >= status_floor() {
            status_cut_when_roomy(area, chunks@);
        }
    }
    let block = StatusBlock {
        area,
        namespaces: draw_namespaces_block(app, keys, chunks[0]),
        context: draw_context_info_block(app, chunks[1]),
        clis: draw_cli_version_block(app, chunks[2]),
        logo: draw_logo_block(app, branding, chunks[3]),
    };
    assert(block.chunks() =~= chunks@);
    block
}

} // verus!
