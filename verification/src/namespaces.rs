//! The panel that lists the cluster's namespaces.
use vstd::prelude::*;
use crate::geometry::Rect;
use crate::state::{namespaces_of, text_of, ActiveBlock, KeyBindings, KeyBindingsView, Namespace, NamespaceView, Snapshot, SnapshotView};
use crate::text::{title_with_keys, write_title};
use crate::widgets::{body_of, list_body, rows_view, ListPanel, ListPanelView, PanelBodyView, Row, RowView, Tone};

verus! {

/// The row of one namespace: its name and status, in the secondary tone where
/// its name is the selected one, in the primary tone otherwise.
pub open spec fn namespace_row(namespace: NamespaceView, selected: Option<Seq<char>>) -> RowView {
    RowView {
        first: namespace.name,
        second: namespace.status,
        tone: if selected == Some(namespace.name) {
            Tone::Secondary
        } else {
            Tone::Primary
        },
    }
}

/// One row for each namespace, in the list's order.
pub open spec fn namespace_rows(namespaces: Seq<NamespaceView>, selected: Option<Seq<char>>) -> Seq<RowView> {
    namespaces.map_values(|n: NamespaceView| namespace_row(n, selected))
}

/// The panel's title, which names the key that jumps to the panel and the key
/// that selects every namespace.
pub open spec fn namespaces_title(keys: KeyBindingsView) -> Seq<char> {
    title_with_keys(" Namespaces "@, keys.jump_to_namespace, " (all: "@, keys.select_all_namespace, ") "@)
}

/// The namespaces panel that `app` asks for in `area`.
pub open spec fn namespaces_panel(app: SnapshotView, keys: KeyBindingsView, area: Rect) -> ListPanelView {
    ListPanelView {
        area,
        title: namespaces_title(keys),
        focused: app.active_block == ActiveBlock::Namespaces,
        header: Some(("Name"@, "Status"@)),
        body: list_body(namespace_rows(app.namespaces, app.selected_ns), app.is_loading),
    }
}

/// The namespaces panel shows its table exactly where there is a namespace,
/// and its placeholder exactly where there is none, whatever the loading flag
/// says.
pub proof fn namespaces_body_goes_by_emptiness(app: SnapshotView, keys: KeyBindingsView, area: Rect)
    ensures
        namespaces_panel(app, keys, area).body is Table <==> app.namespaces.len() > 0,
        namespaces_panel(app, keys, area).body is Placeholder <==> app.namespaces.len() == 0,
        app.namespaces.len() > 0 ==> namespaces_panel(app, keys, area).body == PanelBodyView::Table(
            namespace_rows(app.namespaces, app.selected_ns),
        ),
{
}

/// A row is highlighted exactly where its namespace bears the selected name;
/// every other row is in the primary tone.
pub proof fn highlight_marks_selected(namespaces: Seq<NamespaceView>, selected: Option<Seq<char>>, i: int)
    requires
        0 <= i < namespaces.len(),
    ensures
        namespace_rows(namespaces, selected).len() == namespaces.len(),
        namespace_rows(namespaces, selected)[i].tone == Tone::Secondary <==> selected == Some(namespaces[i].name),
        namespace_rows(namespaces, selected)[i].tone == Tone::Primary <==> selected != Some(namespaces[i].name),
{
}

/// Two frames drawn from the same namespaces and the same selected name give
/// every row the same tone, whatever else has changed between them.
pub proof fn highlighting_is_stable(
    before: SnapshotView,
    after: SnapshotView,
    keys: KeyBindingsView,
    other_keys: KeyBindingsView,
    area: Rect,
    other_area: Rect,
)
    requires
        before.namespaces == after.namespaces,
        before.selected_ns == after.selected_ns,
    ensures
        namespace_rows(before.namespaces, before.selected_ns) == namespace_rows(after.namespaces, after.selected_ns),
        namespaces_panel(before, keys, area).body is Table <==> namespaces_panel(after, other_keys, other_area).body is Table,
        namespaces_panel(before, keys, area).body matches PanelBodyView::Table(rows) ==> namespaces_panel(
            after,
            other_keys,
            other_area,
        ).body == PanelBodyView::Table(rows),
{
}

/// Whether `name` is the selected name.
fn is_selected(name: &String, selected: &Option<String>) -> (yes: bool)
    ensures
        yes == (text_of(*selected) == Some(name@)),
{
    match selected {
        Some(s) => *s == *name,
        None => false,
    }
}

/// Writes one row for each namespace.
pub fn write_namespace_rows(namespaces: &Vec<Namespace>, selected: &Option<String>) -> (rows: Vec<Row>)
    ensures
        rows_view(rows@) == namespace_rows(namespaces_of(namespaces@), text_of(*selected)),
{
    let mut rows: Vec<Row> = Vec::new();
    for i in 0..namespaces.len()
        invariant
            rows@.len() == i,
            forall|j: int| 0 <= j < i ==> (#[trigger] rows@[j])@ == namespace_row(namespaces@[j]@, text_of(*selected)),
    {
        let namespace = &namespaces[i];
        let tone = if is_selected(&namespace.name, selected) {
            Tone::Secondary
        } else {
            Tone::Primary
        };
        rows.push(Row { first: namespace.name.clone(), second: namespace.status.clone(), tone });
    }
    assert(rows_view(rows@) =~= namespace_rows(namespaces_of(namespaces@), text_of(*selected)));
    rows
}

/// Describes the namespaces panel in `area`.
///
/// The border takes the focused tone where the namespaces have the focus. A
/// list with at least one namespace gives a table of its rows; an empty list
/// gives the placeholder, whatever the loading flag says.
pub fn draw_namespaces_block(app: &Snapshot, keys: &KeyBindings, area: Rect) -> (panel: ListPanel)
    ensures
        panel@ == namespaces_panel(app@, keys@, area),
{
    let title = write_title(
        " Namespaces ",
        keys.jump_to_namespace.as_str(),
        " (all: ",
        keys.select_all_namespace.as_str(),
        ") ",
    );
    let rows = write_namespace_rows(&app.namespaces, &app.selected_ns);
    ListPanel {
        area,
        title,
        focused: app.active_block == ActiveBlock::Namespaces,
        header: Some(("Name".to_owned(), "Status".to_owned())),
        body: body_of(rows, app.is_loading),
    }
}

} // verus!
