//! What the screen reads of the application: a snapshot taken once a frame.
use vstd::prelude::*;

verus! {

/// The panel that has the keyboard's focus.
#[derive(Clone, Copy, Debug, PartialEq, Eq, Hash, Structural)]
pub enum ActiveBlock {
    Namespaces,
    Context,
    Filter,
    /// Any panel that is not drawn by this screen's status bar or filter.
    Other,
}

/// The cluster context that commands currently go to.
#[derive(Clone, Debug, PartialEq, Eq)]
pub struct Context {
    pub name: String,
    pub cluster: String,
    pub user: String,
}

pub ghost struct ContextView {
    pub name: Seq<char>,
    pub cluster: Seq<char>,
    pub user: Seq<char>,
}

impl View for Context {
    type V = ContextView;

    open spec fn view(&self) -> ContextView {
        ContextView { name: self.name@, cluster: self.cluster@, user: self.user@ }
    }
}

/// One namespace of the cluster.
#[derive(Clone, Debug, PartialEq, Eq)]
pub struct Namespace {
    pub name: String,
    pub status: String,
}

pub ghost struct NamespaceView {
    pub name: Seq<char>,
    pub status: Seq<char>,
}

impl View for Namespace {
    type V = NamespaceView;

    open spec fn view(&self) -> NamespaceView {
        NamespaceView { name: self.name@, status: self.status@ }
    }
}

/// One command-line tool the dashboard relies on.
#[derive(Clone, Debug, PartialEq, Eq)]
pub struct CliTool {
    pub name: String,
    pub version: String,
    /// Whether the tool was found and answered.
    pub status: bool,
}

pub ghost struct CliToolView {
    pub name: Seq<char>,
    pub version: Seq<char>,
    pub status: bool,
}

impl View for CliTool {
    type V = CliToolView;

    open spec fn view(&self) -> CliToolView {
        CliToolView { name: self.name@, version: self.version@, status: self.status }
    }
}

/// The labels of the keys that panel titles mention.
#[derive(Clone, Debug, PartialEq, Eq)]
pub struct KeyBindings {
    pub jump_to_filter: String,
    pub toggle_filter: String,
    pub jump_to_namespace: String,
    pub select_all_namespace: String,
}

pub ghost struct KeyBindingsView {
    pub jump_to_filter: Seq<char>,
    pub toggle_filter: Seq<char>,
    pub jump_to_namespace: Seq<char>,
    pub select_all_namespace: Seq<char>,
}

impl View for KeyBindings {
    type V = KeyBindingsView;

    open spec fn view(&self) -> KeyBindingsView {
        KeyBindingsView {
            jump_to_filter: self.jump_to_filter@,
            toggle_filter: self.toggle_filter@,
            jump_to_namespace: self.jump_to_namespace@,
            select_all_namespace: self.select_all_namespace@,
        }
    }
}

/// The banner and the version that the logo panel shows.
#[derive(Clone, Debug, PartialEq, Eq)]
pub struct Branding {
    pub banner: String,
    pub version: String,
}

pub ghost struct BrandingView {
    pub banner: Seq<char>,
    pub version: Seq<char>,
}

impl View for Branding {
    type V = BrandingView;

    open spec fn view(&self) -> BrandingView {
        BrandingView { banner: self.banner@, version: self.version@ }
    }
}

/// The application's state as one frame sees it.
#[derive(Clone, Debug, PartialEq, Eq)]
pub struct Snapshot {
    pub show_info_bar: bool,
    pub show_filter: bool,
    pub is_loading: bool,
    pub active_block: ActiveBlock,
    pub filter: String,
    pub namespaces: Vec<Namespace>,
    /// The name of the namespace that is selected, if one is.
    pub selected_ns: Option<String>,
    pub active_context: Option<Context>,
    pub clis: Vec<CliTool>,
}

pub ghost struct SnapshotView {
    pub show_info_bar: bool,
    pub show_filter: bool,
    pub is_loading: bool,
    pub active_block: ActiveBlock,
    pub filter: Seq<char>,
    pub namespaces: Seq<NamespaceView>,
    pub selected_ns: Option<Seq<char>>,
    pub active_context: Option<ContextView>,
    pub clis: Seq<CliToolView>,
}

/// The text of an optional string.
pub open spec fn text_of(s: Option<String>) -> Option<Seq<char>> {
    match s {
        Some(s) => Some(s@),
        None => None,
    }
}

/// The view of an optional context.
pub open spec fn context_of(c: Option<Context>) -> Option<ContextView> {
    match c {
        Some(c) => Some(c@),
        None => None,
    }
}

/// The views of a list of namespaces.
pub open spec fn namespaces_of(list: Seq<Namespace>) -> Seq<NamespaceView> {
    list.map_values(|n: Namespace| n@)
}

/// The views of a list of tools.
pub open spec fn clis_of(list: Seq<CliTool>) -> Seq<CliToolView> {
    list.map_values(|c: CliTool| c@)
}

impl View for Snapshot {
    type V = SnapshotView;

    open spec fn view(&self) -> SnapshotView {
        SnapshotView {
            show_info_bar: self.show_info_bar,
            show_filter: self.show_filter,
            is_loading: self.is_loading,
            active_block: self.active_block,
            filter: self.filter@,
            namespaces: namespaces_of(self.namespaces@),
            selected_ns: text_of(self.selected_ns),
            active_context: context_of(self.active_context),
            clis: clis_of(self.clis@),
        }
    }
}

} // verus!
