//! What a panel shows: styled text, table rows, and the stand-in for a table
//! that has nothing to show.
use vstd::prelude::*;
use crate::geometry::Rect;

verus! {

/// The meaning of a style. A theme turns it into colours.
#[derive(Clone, Copy, Debug, PartialEq, Eq, Hash, Structural)]
pub enum Tone {
    Default,
    Primary,
    Secondary,
    Failure,
    Logo,
}

/// A run of text in one tone.
#[derive(Clone, Debug, PartialEq, Eq)]
pub struct Span {
    pub content: String,
    pub tone: Tone,
}

pub ghost struct SpanView {
    pub content: Seq<char>,
    pub tone: Tone,
}

impl View for Span {
    type V = SpanView;

    open spec fn view(&self) -> SpanView {
        SpanView { content: self.content@, tone: self.tone }
    }
}

/// The views of the spans of one line.
pub open spec fn line_view(line: Vec<Span>) -> Seq<SpanView> {
    line@.map_values(|s: Span| s@)
}

/// The views of the lines of a text.
pub open spec fn lines_view(lines: Seq<Vec<Span>>) -> Seq<Seq<SpanView>> {
    lines.map_values(|l: Vec<Span>| line_view(l))
}

/// A table row of two cells, drawn in one tone.
#[derive(Clone, Debug, PartialEq, Eq)]
pub struct Row {
    pub first: String,
    pub second: String,
    pub tone: Tone,
}

pub ghost struct RowView {
    pub first: Seq<char>,
    pub second: Seq<char>,
    pub tone: Tone,
}

impl View for Row {
    type V = RowView;

    open spec fn view(&self) -> RowView {
        RowView { first: self.first@, second: self.second@, tone: self.tone }
    }
}

/// The views of the rows of a table.
pub open spec fn rows_view(rows: Seq<Row>) -> Seq<RowView> {
    rows.map_values(|r: Row| r@)
}

/// What fills a panel that is backed by a list.
#[derive(Clone, Debug, PartialEq, Eq)]
pub enum PanelBody {
    /// The list's rows.
    Table(Vec<Row>),
    /// The list is empty: a spinner while `loading`, else a plain notice.
    Placeholder { loading: bool },
}

pub ghost enum PanelBodyView {
    Table(Seq<RowView>),
    Placeholder { loading: bool },
}

impl View for PanelBody {
    type V = PanelBodyView;

    open spec fn view(&self) -> PanelBodyView {
        match *self {
            PanelBody::Table(rows) => PanelBodyView::Table(rows_view(rows@)),
            PanelBody::Placeholder { loading } => PanelBodyView::Placeholder { loading },
        }
    }
}

/// What a list of `rows` fills its panel with: the rows as a table where
/// there is at least one, else the placeholder, which alone looks at `loading`.
pub open spec fn list_body(rows: Seq<RowView>, loading: bool) -> PanelBodyView {
    if rows.len() > 0 {
        PanelBodyView::Table(rows)
    } else {
        PanelBodyView::Placeholder { loading }
    }
}

/// A panel over a list shows exactly one of the two: the table where the
/// list has a row, the placeholder where it has none. The loading flag has no
/// part in that choice, and none in the table; it only tells the two
/// placeholders apart.
pub proof fn body_goes_by_emptiness(rows: Seq<RowView>, loading: bool, other: bool)
    ensures
        list_body(rows, loading) is Table <==> rows.len() > 0,
        list_body(rows, loading) is Placeholder <==> rows.len() == 0,
        list_body(rows, loading) is Table <==> !(list_body(rows, loading) is Placeholder),
        list_body(rows, loading) is Table <==> list_body(rows, other) is Table,
        rows.len() > 0 ==> list_body(rows, loading) == list_body(rows, other),
        rows.len() == 0 ==> list_body(rows, loading) == (PanelBodyView::Placeholder { loading }),
{
}

/// Chooses between the table of `rows` and the placeholder.
pub fn body_of(rows: Vec<Row>, loading: bool) -> (body: PanelBody)
    ensures
        body@ == list_body(rows_view(rows@), loading),
{
    if rows.len() > 0 {
        PanelBody::Table(rows)
    } else {
        PanelBody::Placeholder { loading }
    }
}

/// A bordered panel over a list: a table, or its placeholder.
#[derive(Clone, Debug, PartialEq, Eq)]
pub struct ListPanel {
    pub area: Rect,
    pub title: String,
    /// Whether the border is drawn in the tone of the focused panel.
    pub focused: bool,
    /// The labels above the two columns, where the table has a header.
    pub header: Option<(String, String)>,
    pub body: PanelBody,
}

pub ghost struct ListPanelView {
    pub area: Rect,
    pub title: Seq<char>,
    pub focused: bool,
    pub header: Option<(Seq<char>, Seq<char>)>,
    pub body: PanelBodyView,
}

/// The text of an optional pair of labels.
pub open spec fn header_view(h: Option<(String, String)>) -> Option<(Seq<char>, Seq<char>)> {
    match h {
        Some(h) => Some((h.0@, h.1@)),
        None => None,
    }
}

impl View for ListPanel {
    type V = ListPanelView;

    open spec fn view(&self) -> ListPanelView {
        ListPanelView {
            area: self.area,
            title: self.title@,
            focused: self.focused,
            header: header_view(self.header),
            body: self.body@,
        }
    }
}

} // verus!
