use api_client::app::App;
use api_client::model::{Collection, DeleteTarget, EditorTab, InputMode, Panel};
use api_client::view::{
    centered_rect, cursor_text, cycle_hint, decimal_text, delete_label, description_text,
    hint_area, kv_line, list_icon, method_badge, row_label, split_lines, status_tone, Rect, Tone,
};

fn coll(id: i64, name: &str, desc: Option<&str>) -> Collection {
    Collection {
        collection_id: id,
        collection_name: name.to_string(),
        description: desc.map(|d| d.to_string()),
        created_at: String::new(),
    }
}

#[test]
fn centered_dialog_fits_area() {
    let area = Rect { x: 0, y: 0, width: 100, height: 40 };
    assert_eq!(centered_rect(50, 11, area), Rect { x: 25, y: 14, width: 50, height: 11 });
    let small = Rect { x: 2, y: 3, width: 10, height: 5 };
    assert_eq!(centered_rect(60, 13, small), Rect { x: 4, y: 3, width: 6, height: 5 });
}

#[test]
fn hint_strip_at_bottom_right() {
    let area = Rect { x: 28, y: 0, width: 34, height: 20 };
    assert_eq!(hint_area(area, 22), Rect { x: 40, y: 19, width: 22, height: 1 });
    let tiny = Rect { x: 5, y: 5, width: 3, height: 0 };
    assert_eq!(hint_area(tiny, 14), Rect { x: 5, y: 5, width: 14, height: 1 });
}

#[test]
fn decimal_numbers() {
    assert_eq!(decimal_text(0), "0");
    assert_eq!(decimal_text(7), "7");
    assert_eq!(decimal_text(42), "42");
    assert_eq!(decimal_text(1000), "1000");
    assert_eq!(decimal_text(usize::MAX), usize::MAX.to_string());
}

#[test]
fn padded_labels() {
    assert_eq!(kv_line("  q"), format!("{:<24}", "  q"));
    assert_eq!(kv_line("  Editor — Ctrl-M"), format!("{:<24}", "  Editor — Ctrl-M"));
    let long = "x".repeat(30);
    assert_eq!(kv_line(&long), long);
    assert_eq!(row_label(0), format!("  {:2}. ", 1));
    assert_eq!(row_label(9), "  10. ");
    assert_eq!(row_label(99), "  100. ");
}

#[test]
fn cursors_and_small_labels() {
    assert_eq!(cursor_text("abc", true), "abc_");
    assert_eq!(cursor_text("abc", false), "abc");
    assert_eq!(list_icon(true), "▶ ");
    assert_eq!(list_icon(false), "  ");
    assert_eq!(delete_label(DeleteTarget::Collection(1)), "collection (and all its requests)");
    assert_eq!(delete_label(DeleteTarget::Request(1)), "this request");
    assert_eq!(method_badge(2), " PUT ");
    assert_eq!(cycle_hint(1), "  ←/→ to cycle");
    assert_eq!(cycle_hint(0), "");
    assert_eq!(description_text(&coll(1, "a", Some("d"))), "d");
    assert_eq!(description_text(&coll(1, "a", None)), "—");
}

#[test]
fn status_tones() {
    assert_eq!(status_tone("ERROR: GET failed"), Tone::Error);
    assert_eq!(status_tone("x ERROR"), Tone::Error);
    assert_eq!(status_tone("Sent GET http://a"), Tone::Success);
    assert_eq!(status_tone("Sent but ERROR"), Tone::Error);
    assert_eq!(status_tone("Ready"), Tone::Plain);
    assert_eq!(status_tone("ERRO"), Tone::Plain);
    assert_eq!(status_tone(""), Tone::Plain);
}

#[test]
fn lines_like_str_lines() {
    for s in ["", "a", "a\nb", "a\n", "\n", "a\r\nb\r\n", "a\rb", "x\n\ny", "end\r"] {
        let expected: Vec<String> = s.lines().map(|l| l.to_string()).collect();
        assert_eq!(split_lines(s), expected, "input {:?}", s);
    }
}

#[test]
fn titles_and_footer() {
    let mut app = App::new(vec![coll(1, "Users", None), coll(2, "Orders", None)], vec![]);
    assert_eq!(app.collections_title(), " Collections (2) ");
    assert_eq!(app.requests_title(), " Users (0) ");
    assert_eq!(app.response_title(), " Response — Ready ");
    assert_eq!(
        app.footer_labels(),
        (" NORMAL ", "COLLECTIONS", "Tab=next panel  n=new  d=delete  j/k=nav  ?=help  q=quit")
    );
    app.active_panel = Panel::Response;
    app.input_mode = InputMode::Insert;
    assert_eq!(app.footer_labels(), (" INSERT ", "RESPONSE", "Tab=next panel  j/k=scroll  q=quit"));
    app.coll_sel = None;
    assert_eq!(app.requests_title(), " — (0) ");
}

#[test]
fn editor_display_texts() {
    let mut app = App::new(vec![], vec![]);
    app.url = "http://h".to_string();
    app.body = "{\n}".to_string();
    assert_eq!(app.url_bar_text(), "http://h");
    app.input_mode = InputMode::Insert;
    assert_eq!(app.url_bar_text(), "http://h_");
    assert_eq!(app.url_tab_text(), "http://h_");
    assert_eq!(app.body_lines(), vec!["{".to_string(), "}_".to_string()]);
    app.editor_tab = EditorTab::Body;
    assert_eq!(app.url_bar_text(), "http://h");
    assert_eq!(app.selected_tab_index(), 3);
    app.editor_tab = EditorTab::Headers;
    app.headers[0].key = "k".to_string();
    assert_eq!(app.table_row_texts(true, 0), ("k_".to_string(), "".to_string()));
    assert_eq!(app.table_row_texts(false, 0), ("_".to_string(), "".to_string()));
}

#[test]
fn focus_follows_panel_and_dialogs() {
    let mut app = App::new(vec![], vec![]);
    assert!(app.panel_active(Panel::Collections));
    assert!(!app.panel_active(Panel::Requests));
    app.overlay = api_client::model::Overlay::Help;
    assert!(!app.panel_active(Panel::Collections));
}
