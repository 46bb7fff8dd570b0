use overview_screen::cli::{draw_cli_version_block, write_cli_rows};
use overview_screen::context::{context_text, draw_context_info_block, fill_context_panel};
use overview_screen::filter::{cursor_is_on_screen, draw_filter};
use overview_screen::geometry::Rect;
use overview_screen::logo::draw_logo_block;
use overview_screen::namespaces::{draw_namespaces_block, write_namespace_rows};
use overview_screen::state::{ActiveBlock, Branding, CliTool, Context, KeyBindings, Namespace, Snapshot};
use overview_screen::text::{nw_loading_indicator, text_len, write_title};
use overview_screen::widgets::{body_of, PanelBody, Row, Span, Tone};

fn rect(x: u16, y: u16, width: u16, height: u16) -> Rect {
    Rect { x, y, width, height }
}

fn keys() -> KeyBindings {
    KeyBindings {
        jump_to_filter: "</>".to_string(),
        toggle_filter: "<f>".to_string(),
        jump_to_namespace: "<n>".to_string(),
        select_all_namespace: "<a>".to_string(),
    }
}

fn branding() -> Branding {
    Branding { banner: " _  _\n| |/ /".to_string(), version: "0.1.2".to_string() }
}

fn namespace(name: &str, status: &str) -> Namespace {
    Namespace { name: name.to_string(), status: status.to_string() }
}

fn cli(name: &str, version: &str, status: bool) -> CliTool {
    CliTool { name: name.to_string(), version: version.to_string(), status }
}

fn row(first: &str, second: &str, tone: Tone) -> Row {
    Row { first: first.to_string(), second: second.to_string(), tone }
}

fn span(content: &str, tone: Tone) -> Span {
    Span { content: content.to_string(), tone }
}

fn empty_app() -> Snapshot {
    Snapshot {
        show_info_bar: true,
        show_filter: false,
        is_loading: false,
        active_block: ActiveBlock::Other,
        filter: String::new(),
        namespaces: vec![],
        selected_ns: None,
        active_context: None,
        clis: vec![],
    }
}

#[test]
fn loading_indicator_is_three_dots_or_nothing() {
    assert_eq!(nw_loading_indicator(true), "...");
    assert_eq!(nw_loading_indicator(false), "");
}

#[test]
fn title_names_both_keys() {
    assert_eq!(write_title(" Filter ", "</>", " (toggle: ", "<f>", ") "), " Filter </> (toggle: <f>) ");
    assert_eq!(write_title("", "", "", "", ""), "");
}

#[test]
fn text_len_counts_bytes() {
    assert_eq!(text_len(&String::new()), 0);
    assert_eq!(text_len(&"abc".to_string()), 3);
    assert_eq!(text_len(&"a♥c".to_string()), 5);
}

#[test]
fn body_is_table_exactly_when_there_are_rows() {
    let rows = vec![row("a", "b", Tone::Primary)];
    assert_eq!(body_of(rows.clone(), false), PanelBody::Table(rows.clone()));
    assert_eq!(body_of(rows.clone(), true), PanelBody::Table(rows));
    assert_eq!(body_of(vec![], false), PanelBody::Placeholder { loading: false });
    assert_eq!(body_of(vec![], true), PanelBody::Placeholder { loading: true });
}

#[test]
fn namespace_rows_highlight_the_selected_name() {
    let list = vec![namespace("default", "Active"), namespace("kube-system", "Active"), namespace("old", "Terminating")];
    let rows = write_namespace_rows(&list, &Some("kube-system".to_string()));
    assert_eq!(
        rows,
        vec![
            row("default", "Active", Tone::Primary),
            row("kube-system", "Active", Tone::Secondary),
            row("old", "Terminating", Tone::Primary),
        ]
    );
}

#[test]
fn namespace_rows_without_selection_are_all_primary() {
    let list = vec![namespace("default", "Active"), namespace("", "Active")];
    let rows = write_namespace_rows(&list, &None);
    assert_eq!(rows, vec![row("default", "Active", Tone::Primary), row("", "Active", Tone::Primary)]);
    let rows = write_namespace_rows(&list, &Some("missing".to_string()));
    assert_eq!(rows, vec![row("default", "Active", Tone::Primary), row("", "Active", Tone::Primary)]);
}

#[test]
fn namespace_rows_highlight_every_row_of_the_selected_name() {
    let list = vec![namespace("a", "Active"), namespace("b", "Active"), namespace("a", "Terminating")];
    let rows = write_namespace_rows(&list, &Some("a".to_string()));
    assert_eq!(rows[0].tone, Tone::Secondary);
    assert_eq!(rows[1].tone, Tone::Primary);
    assert_eq!(rows[2].tone, Tone::Secondary);
}

#[test]
fn namespaces_panel_shows_table_when_list_has_items() {
    let mut app = empty_app();
    app.namespaces = vec![namespace("default", "Active")];
    app.selected_ns = Some("default".to_string());
    app.active_block = ActiveBlock::Namespaces;
    let area = rect(0, 0, 35, 9);
    let panel = draw_namespaces_block(&app, &keys(), area);
    assert_eq!(panel.area, area);
    assert_eq!(panel.title, " Namespaces <n> (all: <a>) ");
    assert!(panel.focused);
    assert_eq!(panel.header, Some(("Name".to_string(), "Status".to_string())));
    assert_eq!(panel.body, PanelBody::Table(vec![row("default", "Active", Tone::Secondary)]));
}

#[test]
fn namespaces_panel_shows_placeholder_when_list_is_empty() {
    let mut app = empty_app();
    let area = rect(0, 0, 35, 9);
    let panel = draw_namespaces_block(&app, &keys(), area);
    assert!(!panel.focused);
    assert_eq!(panel.body, PanelBody::Placeholder { loading: false });
    app.is_loading = true;
    let panel = draw_namespaces_block(&app, &keys(), area);
    assert_eq!(panel.body, PanelBody::Placeholder { loading: true });
}

#[test]
fn namespaces_table_ignores_the_loading_flag() {
    let mut app = empty_app();
    app.namespaces = vec![namespace("default", "Active")];
    let area = rect(0, 0, 35, 9);
    let idle = draw_namespaces_block(&app, &keys(), area);
    app.is_loading = true;
    let busy = draw_namespaces_block(&app, &keys(), area);
    assert_eq!(idle.body, busy.body);
    assert!(matches!(busy.body, PanelBody::Table(_)));
}

#[test]
fn namespaces_panel_is_the_same_on_every_frame() {
    let mut app = empty_app();
    app.namespaces = vec![namespace("default", "Active"), namespace("dev", "Active")];
    app.selected_ns = Some("dev".to_string());
    let first = draw_namespaces_block(&app, &keys(), rect(0, 0, 35, 9));
    let second = draw_namespaces_block(&app, &keys(), rect(0, 0, 35, 9));
    assert_eq!(first, second);
    app.active_block = ActiveBlock::Filter;
    app.filter = "x".to_string();
    let third = draw_namespaces_block(&app, &keys(), rect(4, 4, 30, 5));
    assert_eq!(first.body, third.body);
}

#[test]
fn namespaces_focus_follows_the_active_block() {
    let mut app = empty_app();
    for (block, focused) in [
        (ActiveBlock::Namespaces, true),
        (ActiveBlock::Context, false),
        (ActiveBlock::Filter, false),
        (ActiveBlock::Other, false),
    ] {
        app.active_block = block;
        assert_eq!(draw_namespaces_block(&app, &keys(), rect(0, 0, 35, 9)).focused, focused);
    }
}

#[test]
fn cli_rows_follow_the_health_flag() {
    let list = vec![cli("kubectl", "v1.21.0", true), cli("helm", "Not found", false)];
    assert_eq!(
        write_cli_rows(&list),
        vec![row("kubectl", "v1.21.0", Tone::Primary), row("helm", "Not found", Tone::Failure)]
    );
}

#[test]
fn cli_panel_shows_table_or_placeholder() {
    let mut app = empty_app();
    let area = rect(58, 0, 30, 9);
    let panel = draw_cli_version_block(&app, area);
    assert_eq!(panel.area, area);
    assert_eq!(panel.title, " CLI Info ");
    assert!(!panel.focused);
    assert_eq!(panel.header, None);
    assert_eq!(panel.body, PanelBody::Placeholder { loading: false });
    app.is_loading = true;
    assert_eq!(draw_cli_version_block(&app, area).body, PanelBody::Placeholder { loading: true });
    app.clis = vec![cli("kubectl", "v1.21.0", true)];
    assert_eq!(
        draw_cli_version_block(&app, area).body,
        PanelBody::Table(vec![row("kubectl", "v1.21.0", Tone::Primary)])
    );
    app.is_loading = false;
    assert_eq!(
        draw_cli_version_block(&app, area).body,
        PanelBody::Table(vec![row("kubectl", "v1.21.0", Tone::Primary)])
    );
}

#[test]
fn context_text_names_context_cluster_and_user() {
    let context = Context { name: "prod".to_string(), cluster: "eu-1".to_string(), user: "admin".to_string() };
    assert_eq!(
        context_text(&Some(context)),
        vec![
            vec![span("Context: ", Tone::Default), span("prod", Tone::Primary)],
            vec![span("Cluster: ", Tone::Default), span("eu-1", Tone::Primary)],
            vec![span("User: ", Tone::Default), span("admin", Tone::Primary)],
        ]
    );
}

#[test]
fn context_text_reports_a_missing_context() {
    assert_eq!(context_text(&None), vec![vec![span("Context information not found", Tone::Failure)]]);
}

#[test]
fn context_panel_takes_its_three_regions_in_order() {
    let app = empty_app();
    let area = rect(35, 0, 23, 9);
    let chunks = vec![rect(36, 1, 21, 3), rect(36, 4, 21, 2), rect(36, 6, 21, 2)];
    let panel = fill_context_panel(&app, area, &chunks);
    assert_eq!(panel.area, area);
    assert_eq!(panel.title, " Context Info (toggle <i>) ");
    assert_eq!(panel.text_area, chunks[0]);
    assert_eq!(panel.cpu.area, chunks[1]);
    assert_eq!(panel.cpu.title, "CPU:");
    assert_eq!(panel.memory.area, chunks[2]);
    assert_eq!(panel.memory.title, "Memory:");
    assert_eq!(panel.lines, context_text(&None));
}

#[test]
fn context_panel_is_laid_out_inside_its_border() {
    let mut app = empty_app();
    app.active_context =
        Some(Context { name: "prod".to_string(), cluster: "eu-1".to_string(), user: "admin".to_string() });
    let area = rect(35, 0, 40, 9);
    let panel = draw_context_info_block(&app, area);
    assert_eq!(panel.area, area);
    assert_eq!(panel.text_area, rect(36, 1, 38, 3));
    assert_eq!(panel.lines, context_text(&app.active_context));
    assert_eq!(panel.cpu.area.x, 36);
    assert_eq!(panel.cpu.area.width, 38);
    assert_eq!(panel.cpu.area.y, 4);
    assert_eq!(panel.memory.area.y, panel.cpu.area.y + panel.cpu.area.height);
    assert_eq!(panel.memory.area.y + panel.memory.area.height, 8);
}

#[test]
fn logo_text_ends_with_the_loading_indicator() {
    let mut app = empty_app();
    let area = rect(88, 0, 32, 9);
    let panel = draw_logo_block(&app, &branding(), area);
    assert_eq!(panel.area, area);
    assert_eq!(panel.text.tone, Tone::Logo);
    assert_eq!(panel.text.content, " _  _\n| |/ /\n v0.1.2 with ♥ in Rust ");
    app.is_loading = true;
    let panel = draw_logo_block(&app, &branding(), area);
    assert_eq!(panel.text.content, " _  _\n| |/ /\n v0.1.2 with ♥ in Rust ...");
}

#[test]
fn filter_places_the_cursor_behind_the_text() {
    let mut app = empty_app();
    app.active_block = ActiveBlock::Filter;
    app.filter = "abc".to_string();
    let area = rect(5, 10, 50, 3);
    let panel = draw_filter(&app, &keys(), area);
    assert_eq!(panel.area, area);
    assert_eq!(panel.title, " Filter </> (toggle: <f>) ");
    assert!(panel.active);
    assert_eq!(panel.text, "abc");
    assert_eq!(panel.cursor, Some((10, 11)));
}

#[test]
fn filter_cursor_of_empty_text_is_indented_by_two() {
    let mut app = empty_app();
    app.active_block = ActiveBlock::Filter;
    let panel = draw_filter(&app, &keys(), rect(0, 0, 50, 3));
    assert_eq!(panel.cursor, Some((2, 1)));
    assert_eq!(panel.text, "");
}

#[test]
fn filter_cursor_counts_bytes() {
    let mut app = empty_app();
    app.active_block = ActiveBlock::Filter;
    app.filter = "a♥".to_string();
    let panel = draw_filter(&app, &keys(), rect(1, 2, 50, 3));
    assert_eq!(panel.cursor, Some((7, 3)));
}

#[test]
fn filter_without_focus_places_no_cursor() {
    let mut app = empty_app();
    app.filter = "abc".to_string();
    for block in [ActiveBlock::Namespaces, ActiveBlock::Context, ActiveBlock::Other] {
        app.active_block = block;
        let panel = draw_filter(&app, &keys(), rect(5, 10, 50, 3));
        assert!(!panel.active);
        assert_eq!(panel.cursor, None);
        assert_eq!(panel.text, "abc");
    }
}

#[test]
fn filter_cursor_at_the_last_cell() {
    let mut app = empty_app();
    app.active_block = ActiveBlock::Filter;
    app.filter = "abc".to_string();
    let area = rect(65530, 65534, 5, 1);
    assert!(cursor_is_on_screen(area, &app.filter));
    assert_eq!(draw_filter(&app, &keys(), area).cursor, Some((65535, 65535)));
}

#[test]
fn cursor_check_rejects_cells_past_the_last() {
    let text = "abc".to_string();
    assert!(cursor_is_on_screen(rect(0, 0, 10, 3), &text));
    assert!(cursor_is_on_screen(rect(65530, 0, 0, 0), &text));
    assert!(!cursor_is_on_screen(rect(65531, 0, 0, 0), &text));
    assert!(!cursor_is_on_screen(rect(65535, 0, 0, 0), &String::new()));
    assert!(cursor_is_on_screen(rect(65533, 0, 0, 0), &String::new()));
    assert!(!cursor_is_on_screen(rect(0, 65535, 0, 0), &text));
    assert!(cursor_is_on_screen(rect(0, 65534, 0, 0), &text));
    assert!(!cursor_is_on_screen(rect(0, 0, 0, 0), &"x".repeat(65534)));
    assert!(cursor_is_on_screen(rect(0, 0, 0, 0), &"x".repeat(65533)));
}
