//! The panel that lists the command-line tools and their versions.
use vstd::prelude::*;
use crate::geometry::Rect;
use crate::state::{clis_of, CliTool, CliToolView, Snapshot, SnapshotView};
use crate::widgets::{body_of, list_body, rows_view, ListPanel, ListPanelView, PanelBodyView, Row, RowView, Tone};

verus! {

/// The row of one tool: its name and version, in the primary tone where the
/// tool is healthy, in the failure tone where it is not.
pub open spec fn cli_row(cli: CliToolView) -> RowView {
    RowView {
        first: cli.name,
        second: cli.version,
        tone: if cli.status {
            Tone::Primary
        } else {
            Tone::Failure
        },
    }
}

/// One row for each tool, in the list's order.
pub open spec fn cli_rows(clis: Seq<CliToolView>) -> Seq<RowView> {
    clis.map_values(|c: CliToolView| cli_row(c))
}

/// The tools panel that `app` asks for in `area`.
pub open spec fn cli_version_panel(app: SnapshotView, area: Rect) -> ListPanelView {
    ListPanelView {
        area,
        title: " CLI Info "@,
        focused: false,
        header: None,
        body: list_body(cli_rows(app.clis), app.is_loading),
    }
}

/// The tools panel shows its table exactly where there is a tool, and its
/// placeholder exactly where there is none, whatever the loading flag says.
pub proof fn cli_body_goes_by_emptiness(app: SnapshotView, area: Rect)
    ensures
        cli_version_panel(app, area).body is Table <==> app.clis.len() > 0,
        cli_version_panel(app, area).body is Placeholder <==> app.clis.len() == 0,
        app.clis.len() > 0 ==> cli_version_panel(app, area).body == PanelBodyView::Table(cli_rows(app.clis)),
{
}

/// Writes one row for each tool.
pub fn write_cli_rows(clis: &Vec<CliTool>) -> (rows: Vec<Row>)
    ensures
        rows_view(rows@) == cli_rows(clis_of(clis@)),
{
    let mut rows: Vec<Row> = Vec::new();
    for i in 0..clis.len()
        invariant
            rows@.len() == i,
            forall|j: int| 0 <= j < i ==> (#[trigger] rows@[j])@ == cli_row(clis@[j]@),
    {
        let cli = &clis[i];
        let tone = if cli.status {
            Tone::Primary
        } else {
            Tone::Failure
        };
        rows.push(Row { first: cli.name.clone(), second: cli.version.clone(), tone });
    }
    assert(rows_view(rows@) =~= cli_rows(clis_of(clis@)));
    rows
}

/// Describes the tools panel in `area`.
///
/// A list with at least one tool gives a table of its rows; an empty list
/// gives the placeholder, whatever the loading flag says.
pub fn draw_cli_version_block(app: &Snapshot, area: Rect) -> (panel: ListPanel)
    ensures
        panel@ == cli_version_panel(app@, area),
{
    let rows = write_cli_rows(&app.clis);
    ListPanel {
        area,
        title: " CLI Info ".to_owned(),
        focused: false,
        header: None,
        body: body_of(rows, app.is_loading),
    }
}

} // verus!
