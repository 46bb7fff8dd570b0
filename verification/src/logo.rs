//! The panel that shows the banner.
use vstd::prelude::*;
use crate::geometry::Rect;
use crate::state::{Branding, BrandingView, Snapshot, SnapshotView};
use crate::text::{loading_indicator, nw_loading_indicator};
use crate::widgets::{Span, SpanView, Tone};

verus! {

/// The logo panel: a bordered box around one text.
#[derive(Clone, Debug, PartialEq, Eq)]
pub struct LogoPanel {
    pub area: Rect,
    pub text: Span,
}

pub ghost struct LogoPanelView {
    pub area: Rect,
    pub text: SpanView,
}

impl View for LogoPanel {
    type V = LogoPanelView;

    open spec fn view(&self) -> LogoPanelView {
        LogoPanelView { area: self.area, text: self.text@ }
    }
}

/// The banner, then on a line of its own the version and the byline, and
/// behind them the loading indicator.
pub open spec fn logo_text(branding: BrandingView, loading: bool) -> Seq<char> {
    branding.banner + "\n v"@ + branding.version + " with ♥ in Rust "@ + loading_indicator(loading)
}

/// The logo panel that `app` asks for in `area`.
pub open spec fn logo_panel(app: SnapshotView, branding: BrandingView, area: Rect) -> LogoPanelView {
    LogoPanelView {
        area,
        text: SpanView { content: logo_text(branding, app.is_loading), tone: Tone::Logo },
    }
}

/// Describes the logo panel in `area`.
pub fn draw_logo_block(app: &Snapshot, branding: &Branding, area: Rect) -> (panel: LogoPanel)
    ensures
        panel@ == logo_panel(app@, branding@, area),
{
    let mut content = branding.banner.clone();
    content.append("\n v");
    content.append(branding.version.as_str());
    content.append(" with ♥ in Rust ");
    content.append(nw_loading_indicator(app.is_loading));
    LogoPanel { area, text: Span { content, tone: Tone::Logo } }
}

} // verus!
