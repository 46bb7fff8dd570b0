//! The panel that names the active context and frames the two resource gauges.
use vstd::prelude::*;
use crate::geometry::{Constraint, Direction, Rect};
use crate::layout::{all_bounded, is_cut, total_floor, total_floor_push, vertical_chunks_with_margin};
use crate::state::{context_of, Context, ContextView, Snapshot, SnapshotView};
use crate::widgets::{lines_view, line_view, Span, SpanView, Tone};

verus! {

/// The rows kept for the lines of text.
pub const CONTEXT_TEXT_HEIGHT: u16 = 3;

/// The least number of rows given to each gauge.
pub const GAUGE_MIN_HEIGHT: u16 = 2;

/// The cells left free inside the panel's border.
pub const CONTEXT_MARGIN: u16 = 1;

/// Where a gauge is drawn, and what it is called. Its reading is measured by
/// the caller, who holds the node metrics.
#[derive(Clone, Debug, PartialEq, Eq)]
pub struct GaugeFrame {
    pub area: Rect,
    pub title: String,
}

pub ghost struct GaugeFrameView {
    pub area: Rect,
    pub title: Seq<char>,
}

impl View for GaugeFrame {
    type V = GaugeFrameView;

    open spec fn view(&self) -> GaugeFrameView {
        GaugeFrameView { area: self.area, title: self.title@ }
    }
}

/// The context panel: a bordered box, the lines of text in its upper part, and
/// below them the frames of the CPU gauge and of the memory gauge.
#[derive(Clone, Debug, PartialEq, Eq)]
pub struct ContextPanel {
    pub area: Rect,
    pub title: String,
    pub text_area: Rect,
    pub lines: Vec<Vec<Span>>,
    pub cpu: GaugeFrame,
    pub memory: GaugeFrame,
}

pub ghost struct ContextPanelView {
    pub area: Rect,
    pub title: Seq<char>,
    pub text_area: Rect,
    pub lines: Seq<Seq<SpanView>>,
    pub cpu: GaugeFrameView,
    pub memory: GaugeFrameView,
}

impl View for ContextPanel {
    type V = ContextPanelView;

    open spec fn view(&self) -> ContextPanelView {
        ContextPanelView {
            area: self.area,
            title: self.title@,
            text_area: self.text_area,
            lines: lines_view(self.lines@),
            cpu: self.cpu@,
            memory: self.memory@,
        }
    }
}

impl ContextPanel {
    /// The three regions inside the border, from top to bottom.
    pub open spec fn chunks(self) -> Seq<Rect> {
        seq![self.text_area, self.cpu.area, self.memory.area]
    }
}

/// A label in the default tone, followed by its value in the primary tone.
pub open spec fn labelled(label: Seq<char>, value: Seq<char>) -> Seq<SpanView> {
    seq![
        SpanView { content: label, tone: Tone::Default },
        SpanView { content: value, tone: Tone::Primary },
    ]
}

/// The text of the panel: name, cluster and user of the context on three
/// lines, or one line in the failure tone where there is no context.
pub open spec fn context_lines(context: Option<ContextView>) -> Seq<Seq<SpanView>> {
    match context {
        Some(c) => seq![
            labelled("Context: "@, c.name),
            labelled("Cluster: "@, c.cluster),
            labelled("User: "@, c.user),
        ],
        None => seq![
            seq![SpanView { content: "Context information not found"@, tone: Tone::Failure }],
        ],
    }
}

/// The size rules of the panel's three regions, from top to bottom.
pub open spec fn context_layout() -> Seq<Constraint> {
    seq![
        Constraint::Length(CONTEXT_TEXT_HEIGHT),
        Constraint::Min(GAUGE_MIN_HEIGHT),
        Constraint::Min(GAUGE_MIN_HEIGHT),
    ]
}

/// The panel that `app` asks for in `area`, its inside cut into `chunks`.
pub open spec fn context_panel(app: SnapshotView, area: Rect, chunks: Seq<Rect>) -> ContextPanelView
    recommends
        chunks.len() == 3,
{
    ContextPanelView {
        area,
        title: " Context Info (toggle <i>) "@,
        text_area: chunks[0],
        lines: context_lines(app.active_context),
        cpu: GaugeFrameView { area: chunks[1], title: "CPU:"@ },
        memory: GaugeFrameView { area: chunks[2], title: "Memory:"@ },
    }
}

/// The least height inside the border at which the text and both gauges get
/// what they ask for.
pub open spec fn context_floor() -> int {
    CONTEXT_TEXT_HEIGHT + GAUGE_MIN_HEIGHT + GAUGE_MIN_HEIGHT
}

/// Where the inside of the border is high enough, the text has exactly its
/// rows at the top, and the gauges share the rest, in their order, each with
/// at least its least height. Where the inside is exactly high enough, that
/// fixes all three regions.
pub proof fn context_cut_when_roomy(inside: Rect, chunks: Seq<Rect>)
    requires
        inside.fits(),
        is_cut(Direction::Vertical, context_layout(), inside, chunks),
        inside.height >= context_floor(),
    ensures
        chunks[0] == inside.rows(0, CONTEXT_TEXT_HEIGHT as int),
        chunks[1] == inside.rows(CONTEXT_TEXT_HEIGHT as int, chunks[1].height as int),
        chunks[2] == inside.rows(CONTEXT_TEXT_HEIGHT + chunks[1].height, chunks[2].height as int),
        chunks[1].height >= GAUGE_MIN_HEIGHT,
        chunks[2].height >= GAUGE_MIN_HEIGHT,
        chunks[1].height + chunks[2].height == inside.height - CONTEXT_TEXT_HEIGHT,
        inside.height == context_floor() ==> chunks[1].height == GAUGE_MIN_HEIGHT && chunks[2].height
            == GAUGE_MIN_HEIGHT,
{
    let rules = context_layout();
    let none = Seq::<Constraint>::empty();
    assert(rules =~= none.push(rules[0]).push(rules[1]).push(rules[2]));
    total_floor_push(none, rules[0]);
    total_floor_push(none.push(rules[0]), rules[1]);
    total_floor_push(none.push(rules[0]).push(rules[1]), rules[2]);
    assert(total_floor(rules) == context_floor());
    assert(rules[1] is Min);
    assert(rules[0].met_by(chunks[0].extent(Direction::Vertical)));
    assert(rules[1].met_by(chunks[1].extent(Direction::Vertical)));
    assert(rules[2].met_by(chunks[2].extent(Direction::Vertical)));
    assert(chunks[0].end(Direction::Vertical) == chunks[0int + 1].start(Direction::Vertical));
    assert(chunks[1].end(Direction::Vertical) == chunks[1int + 1].start(Direction::Vertical));
    assert(chunks.last() == chunks[2]);
}

/// One line of two spans: `label` in the default tone, a copy of `value` in
/// the primary tone.
fn labelled_line(label: &str, value: &String) -> (line: Vec<Span>)
    ensures
        line_view(line) == labelled(label@, value@),
{
    let line = vec![
        Span { content: label.to_owned(), tone: Tone::Default },
        Span { content: value.clone(), tone: Tone::Primary },
    ];
    assert(line_view(line) =~= labelled(label@, value@));
    line
}

/// Writes the lines of text for `context`.
pub fn context_text(context: &Option<Context>) -> (lines: Vec<Vec<Span>>)
    ensures
        lines_view(lines@) == context_lines(context_of(*context)),
{
    match context {
        Some(c) => {
            let lines = vec![
                labelled_line("Context: ", &c.name),
                labelled_line("Cluster: ", &c.cluster),
                labelled_line("User: ", &c.user),
            ];
            assert(lines_view(lines@) =~= context_lines(context_of(*context)));
            lines
        },
        None => {
            let line = vec![
                Span { content: "Context information not found".to_owned(), tone: Tone::Failure },
            ];
            assert(line_view(line) =~= context_lines(None)[0]);
            let lines = vec![line];
            assert(lines_view(lines@) =~= context_lines(context_of(*context)));
            lines
        },
    }
}

/// Writes the size rules of the panel's three regions.
pub fn context_constraints() -> (constraints: Vec<Constraint>)
    ensures
        constraints@ == context_layout(),
{
    let constraints = vec![
        Constraint::Length(CONTEXT_TEXT_HEIGHT),
        Constraint::Min(GAUGE_MIN_HEIGHT),
        Constraint::Min(GAUGE_MIN_HEIGHT),
    ];
    assert(constraints@ =~= context_layout());
    constraints
}

/// Fills the panel for `app` in `area`, given the three regions that the
/// inside of `area` was cut into.
pub fn fill_context_panel(app: &Snapshot, area: Rect, chunks: &Vec<Rect>) -> (panel: ContextPanel)
    requires
        chunks@.len() == 3,
    ensures
        panel@ == context_panel(app@, area, chunks@),
        panel.chunks() == chunks@,
{
    let panel = ContextPanel {
        area,
        title: " Context Info (toggle <i>) ".to_owned(),
        text_area: chunks[0],
        lines: context_text(&app.active_context),
        cpu: GaugeFrame { area: chunks[1], title: "CPU:".to_owned() },
        memory: GaugeFrame { area: chunks[2], title: "Memory:".to_owned() },
    };
    assert(panel.chunks() =~= chunks@);
    panel
}

/// Lays the context panel out in `area` and fills it from `app`.
///
/// The inside of the border, `area` less a margin of `CONTEXT_MARGIN`, is cut
/// from top to bottom by `context_layout`, and the panel is the one that
/// `context_panel` describes for that cut. Where the inside has at least
/// `context_floor` rows, the text has exactly its rows at the top; the share
/// of each gauge in the rest is the solver's choice.
pub fn draw_context_info_block(app: &Snapshot, area: Rect) -> (panel: ContextPanel)
    requires
        area.fits(),
    ensures
        panel@ == context_panel(app@, area, panel.chunks()),
        is_cut(Direction::Vertical, context_layout(), area.inner(CONTEXT_MARGIN), panel.chunks()),
        all_bounded(area, panel.chunks()),
        area.inner(CONTEXT_MARGIN).height >= context_floor() ==> panel.text_area == area.inner(CONTEXT_MARGIN).rows(
            0,
            CONTEXT_TEXT_HEIGHT as int,
        ),
{
    let chunks = vertical_chunks_with_margin(context_constraints(), area, CONTEXT_MARGIN);
    proof {
        if area.inner(CONTEXT_MARGIN).height >= context_floor() {
            context_cut_when_roomy(area.inner(CONTEXT_MARGIN), chunks@);
        }
    }
    fill_context_panel(app, area, &chunks)
}

} // verus!
