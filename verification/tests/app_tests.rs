use api_client::app::App;
use api_client::model::{
    ApiRequest, Collection, DeleteTarget, EditorTab, Effect, InputMode, Key, KeyInput, KvField,
    Overlay, Panel, ResponseParts,
};

fn coll(id: i64, name: &str) -> Collection {
    Collection {
        collection_id: id,
        collection_name: name.to_string(),
        description: None,
        created_at: "2024-01-01 00:00:00".to_string(),
    }
}

fn req(id: i64, cid: i64, name: &str, method: &str, url: &str) -> ApiRequest {
    ApiRequest {
        request_id: id,
        collection_id: cid,
        request_name: name.to_string(),
        method: method.to_string(),
        url: url.to_string(),
        headers: None,
        body: None,
    }
}

fn ch(c: char) -> KeyInput {
    KeyInput { code: Key::Char(c), ctrl: false }
}

fn key(code: Key) -> KeyInput {
    KeyInput { code, ctrl: false }
}

fn sample() -> App {
    App::new(
        vec![coll(1, "Users"), coll(2, "Orders")],
        vec![
            req(10, 1, "list", "GET", "https://api.test/users"),
            req(11, 2, "create", "POST", "https://api.test/orders"),
            req(12, 1, "remove", "DELETE", "https://api.test/users/1"),
        ],
    )
}

fn press(app: &mut App, k: KeyInput) -> Effect {
    app.handle_key(k)
}

#[test]
fn new_app_selects_first_entries() {
    let app = sample();
    assert_eq!(app.coll_sel, Some(0));
    assert_eq!(app.req_sel, Some(0));
    assert_eq!(app.active_panel, Panel::Collections);
    assert_eq!(app.input_mode, InputMode::Normal);
    assert!(matches!(app.overlay, Overlay::Closed));
    assert_eq!(app.body, "{}");
    assert_eq!(app.status_line, "Ready");
    assert_eq!(app.query_params.len(), 1);
    assert_eq!(app.headers.len(), 1);
    assert_eq!(
        app.response_text,
        "Press Enter on a request, or 's' to send — response appears here."
    );
    let empty = App::new(vec![], vec![]);
    assert_eq!(empty.coll_sel, None);
    assert_eq!(empty.req_sel, None);
}

#[test]
fn requests_follow_selected_collection() {
    let mut app = sample();
    assert_eq!(app.requests_for_selected(), vec![0, 2]);
    assert_eq!(app.selected_collection_id(), Some(1));
    app.coll_next();
    assert_eq!(app.requests_for_selected(), vec![1]);
    assert_eq!(app.selected_collection_id(), Some(2));
}

#[test]
fn collection_navigation_wraps() {
    let mut app = sample();
    press(&mut app, ch('j'));
    assert_eq!(app.coll_sel, Some(1));
    press(&mut app, key(Key::Down));
    assert_eq!(app.coll_sel, Some(0));
    press(&mut app, ch('k'));
    assert_eq!(app.coll_sel, Some(1));
    assert_eq!(app.req_sel, Some(0));
}

#[test]
fn collection_moves_undo_each_other() {
    let mut app = sample();
    app.coll_next();
    app.coll_prev();
    assert_eq!(app.coll_sel, Some(0));
    app.coll_prev();
    app.coll_next();
    assert_eq!(app.coll_sel, Some(0));
}

#[test]
fn request_navigation_wraps_within_collection() {
    let mut app = sample();
    press(&mut app, key(Key::Tab));
    assert_eq!(app.active_panel, Panel::Requests);
    press(&mut app, ch('j'));
    assert_eq!(app.req_sel, Some(1));
    press(&mut app, ch('j'));
    assert_eq!(app.req_sel, Some(0));
    press(&mut app, ch('k'));
    assert_eq!(app.req_sel, Some(1));
    app.req_prev();
    app.req_next();
    assert_eq!(app.req_sel, Some(1));
}

#[test]
fn panels_cycle_and_backtab_undoes_tab() {
    let mut app = sample();
    press(&mut app, key(Key::Tab));
    press(&mut app, key(Key::Tab));
    assert_eq!(app.active_panel, Panel::Response);
    press(&mut app, key(Key::Tab));
    assert_eq!(app.active_panel, Panel::Collections);
    press(&mut app, key(Key::Tab));
    press(&mut app, key(Key::BackTab));
    assert_eq!(app.active_panel, Panel::Collections);
}

#[test]
fn response_scroll_saturates() {
    let mut app = sample();
    app.active_panel = Panel::Response;
    press(&mut app, ch('k'));
    assert_eq!(app.response_scroll, 0);
    press(&mut app, ch('j'));
    press(&mut app, ch('j'));
    assert_eq!(app.response_scroll, 2);
    app.response_scroll = u16::MAX;
    press(&mut app, ch('j'));
    assert_eq!(app.response_scroll, u16::MAX);
}

#[test]
fn quit_only_from_navigation() {
    let mut app = sample();
    assert!(matches!(press(&mut app, ch('q')), Effect::Quit));
    press(&mut app, ch('?'));
    assert!(matches!(press(&mut app, ch('q')), Effect::Nothing));
}

#[test]
fn help_opens_and_any_key_closes() {
    let mut app = sample();
    press(&mut app, ch('?'));
    assert!(matches!(app.overlay, Overlay::Help));
    let e = press(&mut app, ch('j'));
    assert!(matches!(e, Effect::Nothing));
    assert!(matches!(app.overlay, Overlay::Closed));
    assert_eq!(app.coll_sel, Some(0));
}

#[test]
fn create_collection_through_dialog() {
    let mut app = sample();
    press(&mut app, ch('n'));
    assert!(matches!(app.overlay, Overlay::NewCollection { .. }));
    for c in "Pets".chars() {
        press(&mut app, ch(c));
    }
    press(&mut app, key(Key::Tab));
    for c in "all pets".chars() {
        press(&mut app, ch(c));
    }
    press(&mut app, key(Key::Backspace));
    match &app.overlay {
        Overlay::NewCollection { name, desc, field } => {
            assert_eq!(name, "Pets");
            assert_eq!(desc, "all pet");
            assert_eq!(*field, 1);
        },
        _ => panic!("dialog closed"),
    }
    let e = press(&mut app, key(Key::Enter));
    match e {
        Effect::CreateCollection { name, desc } => {
            assert_eq!(name, "Pets");
            assert_eq!(desc, "all pet");
        },
        _ => panic!("no creation"),
    }
    assert!(matches!(app.overlay, Overlay::Closed));
    app.finish_create_collection(
        "Pets".to_string(),
        Ok(vec![coll(1, "Users"), coll(2, "Orders"), coll(3, "Pets")]),
    );
    assert_eq!(app.coll_sel, Some(2));
    assert_eq!(app.status_line, "Collection 'Pets' created");
}

#[test]
fn create_collection_with_empty_name_does_nothing() {
    let mut app = sample();
    press(&mut app, ch('n'));
    let e = press(&mut app, key(Key::Enter));
    assert!(matches!(e, Effect::Nothing));
    assert!(matches!(app.overlay, Overlay::Closed));
}

#[test]
fn database_error_goes_to_status_line() {
    let mut app = sample();
    app.finish_create_collection("X".to_string(), Err("disk full".to_string()));
    assert_eq!(app.status_line, "DB error: disk full");
    assert_eq!(app.collections.len(), 2);
    app.finish_delete_request(Err("locked".to_string()));
    assert_eq!(app.status_line, "DB error: locked");
}

#[test]
fn create_request_dialog_closes_on_enter() {
    let mut app = sample();
    press(&mut app, key(Key::Tab));
    press(&mut app, ch('n'));
    for c in "ping".chars() {
        press(&mut app, ch(c));
    }
    press(&mut app, key(Key::Tab));
    press(&mut app, key(Key::Right));
    press(&mut app, key(Key::Right));
    press(&mut app, key(Key::Left));
    press(&mut app, key(Key::Tab));
    for c in "http://h/p".chars() {
        press(&mut app, ch(c));
    }
    let e = press(&mut app, key(Key::Enter));
    match e {
        Effect::CreateRequest { collection_id, name, method, url } => {
            assert_eq!(collection_id, 1);
            assert_eq!(name, "ping");
            assert_eq!(method, "POST");
            assert_eq!(url, "http://h/p");
        },
        _ => panic!("no creation"),
    }
    assert!(matches!(app.overlay, Overlay::Closed));
    let e = press(&mut app, key(Key::Enter));
    assert!(!matches!(e, Effect::CreateRequest { .. }));
    let mut reqs = vec![
        req(10, 1, "list", "GET", "https://api.test/users"),
        req(11, 2, "create", "POST", "https://api.test/orders"),
        req(12, 1, "remove", "DELETE", "https://api.test/users/1"),
    ];
    reqs.push(req(13, 1, "ping", "POST", "http://h/p"));
    app.finish_create_request("ping".to_string(), Ok(reqs));
    assert_eq!(app.req_sel, Some(2));
    assert_eq!(app.status_line, "Request 'ping' created");
    assert!(matches!(app.overlay, Overlay::Closed));
}

#[test]
fn delete_collection_after_confirmation() {
    let mut app = sample();
    app.coll_next();
    press(&mut app, ch('d'));
    assert!(matches!(
        app.overlay,
        Overlay::ConfirmDelete { target: DeleteTarget::Collection(2) }
    ));
    let e = press(&mut app, key(Key::Enter));
    assert!(matches!(e, Effect::DeleteCollection { collection_id: 2 }));
    app.finish_delete_collection(Ok((
        vec![coll(1, "Users")],
        vec![req(10, 1, "list", "GET", "u"), req(12, 1, "remove", "DELETE", "v")],
    )));
    assert_eq!(app.coll_sel, Some(0));
    assert_eq!(app.req_sel, Some(0));
    assert_eq!(app.status_line, "Collection deleted");
    app.finish_delete_collection(Ok((vec![], vec![])));
    assert_eq!(app.coll_sel, None);
}

#[test]
fn delete_confirmation_can_be_cancelled() {
    let mut app = sample();
    press(&mut app, ch('d'));
    let e = press(&mut app, ch('n'));
    assert!(matches!(e, Effect::Nothing));
    assert!(matches!(app.overlay, Overlay::Closed));
    press(&mut app, ch('d'));
    press(&mut app, ch('x'));
    assert!(matches!(app.overlay, Overlay::ConfirmDelete { .. }));
    press(&mut app, key(Key::Esc));
    assert!(matches!(app.overlay, Overlay::Closed));
}

#[test]
fn delete_request_moves_selection_onto_last() {
    let mut app = sample();
    press(&mut app, key(Key::Tab));
    press(&mut app, ch('j'));
    press(&mut app, ch('d'));
    assert!(matches!(
        app.overlay,
        Overlay::ConfirmDelete { target: DeleteTarget::Request(12) }
    ));
    let e = press(&mut app, key(Key::Enter));
    assert!(matches!(e, Effect::DeleteRequest { request_id: 12 }));
    app.finish_delete_request(Ok(vec![
        req(10, 1, "list", "GET", "u"),
        req(11, 2, "create", "POST", "w"),
    ]));
    assert_eq!(app.req_sel, Some(0));
    assert_eq!(app.status_line, "Request deleted");
    app.finish_delete_request(Ok(vec![req(11, 2, "create", "POST", "w")]));
    assert_eq!(app.req_sel, None);
}

#[test]
fn load_request_fills_editor() {
    let mut app = App::new(
        vec![coll(1, "Users")],
        vec![ApiRequest {
            request_id: 5,
            collection_id: 1,
            request_name: "with body".to_string(),
            method: "PATCH".to_string(),
            url: "https://api.test/u/1".to_string(),
            headers: Some(vec![("Accept".to_string(), "json".to_string())]),
            body: Some("{\"name\":\"a\"}".to_string()),
        }],
    );
    app.active_panel = Panel::Requests;
    press(&mut app, key(Key::Enter));
    assert!(app.editor_open);
    assert_eq!(app.method_idx, 3);
    assert_eq!(app.url, "https://api.test/u/1");
    assert_eq!(app.headers.len(), 1);
    assert_eq!(app.headers[0].key, "Accept");
    assert_eq!(app.headers[0].value, "json");
    assert_eq!(app.body, "{\n  \"name\": \"a\"\n}");
    assert_eq!(app.editor_tab, EditorTab::Url);
}

#[test]
fn load_request_without_body_shows_braces() {
    let mut app = sample();
    app.active_panel = Panel::Requests;
    app.body = "old".to_string();
    press(&mut app, ch('e'));
    assert_eq!(app.body, "{}");
    assert_eq!(app.method_idx, 0);
    assert_eq!(app.headers.len(), 1);
    assert_eq!(app.headers[0].key, "");
}

#[test]
fn typing_in_editor_and_backspace_undoes() {
    let mut app = sample();
    app.active_panel = Panel::Requests;
    press(&mut app, ch('e'));
    press(&mut app, ch('i'));
    assert_eq!(app.input_mode, InputMode::Insert);
    press(&mut app, ch('x'));
    assert_eq!(app.url, "https://api.test/usersx");
    press(&mut app, key(Key::Backspace));
    assert_eq!(app.url, "https://api.test/users");
    // q in insert mode types, it does not quit
    let e = press(&mut app, ch('q'));
    assert!(matches!(e, Effect::Nothing));
    assert_eq!(app.url, "https://api.test/usersq");
    press(&mut app, key(Key::Esc));
    assert_eq!(app.input_mode, InputMode::Normal);
}

#[test]
fn editor_tabs_and_tables() {
    let mut app = sample();
    app.active_panel = Panel::Requests;
    press(&mut app, ch('e'));
    press(&mut app, ch('i'));
    press(&mut app, key(Key::Tab));
    assert_eq!(app.editor_tab, EditorTab::Query);
    press(&mut app, ch('a'));
    press(&mut app, key(Key::Right));
    assert_eq!(app.query_field, KvField::Value);
    press(&mut app, ch('1'));
    press(&mut app, key(Key::Down));
    assert_eq!(app.query_row, 1);
    assert_eq!(app.query_params.len(), 2);
    assert_eq!(app.query_field, KvField::Key);
    press(&mut app, ch('a'));
    press(&mut app, key(Key::Right));
    press(&mut app, ch('2'));
    press(&mut app, key(Key::Up));
    assert_eq!(app.query_row, 0);
    let q = app.build_query_map();
    assert_eq!(q, vec![("a".to_string(), "2".to_string())]);
    press(&mut app, key(Key::Tab));
    assert_eq!(app.editor_tab, EditorTab::Headers);
    for c in "X-Token".chars() {
        press(&mut app, ch(c));
    }
    press(&mut app, key(Key::Right));
    for c in "abc".chars() {
        press(&mut app, ch(c));
    }
    press(&mut app, key(Key::Down));
    for c in "bad name".chars() {
        press(&mut app, ch(c));
    }
    assert_eq!(app.header_row, 1);
    let h = app.build_header_map();
    assert_eq!(h.len(), 1);
    assert_eq!(h.get("x-token").unwrap().to_str().unwrap(), "abc");
    press(&mut app, key(Key::Tab));
    assert_eq!(app.editor_tab, EditorTab::Body);
    press(&mut app, key(Key::Enter));
    assert_eq!(app.body, "{}\n");
    press(&mut app, key(Key::Tab));
    assert_eq!(app.editor_tab, EditorTab::Url);
}

#[test]
fn ctrl_m_cycles_methods() {
    let mut app = sample();
    app.active_panel = Panel::Requests;
    press(&mut app, ch('e'));
    press(&mut app, ch('i'));
    let ctrl_m = KeyInput { code: Key::Char('m'), ctrl: true };
    press(&mut app, ctrl_m);
    assert_eq!(app.method_idx, 1);
    for _ in 0..4 {
        press(&mut app, ctrl_m);
    }
    assert_eq!(app.method_idx, 0);
    assert_eq!(app.url, "https://api.test/users");
}

#[test]
fn send_builds_plan_and_shows_response_panel() {
    let mut app = sample();
    app.active_panel = Panel::Requests;
    let e = press(&mut app, ch('s'));
    assert_eq!(app.active_panel, Panel::Response);
    assert!(app.editor_open);
    match e {
        Effect::Send(plan) => {
            assert_eq!(plan.method_idx, 0);
            assert_eq!(plan.baseurl, "https://api.test/users");
            assert_eq!(plan.endpoint, "");
            assert!(plan.query.is_empty());
            assert!(plan.headers.is_empty());
            assert_eq!(plan.body, "{}");
            assert!(plan.body_is_json);
        },
        _ => panic!("no send"),
    }
}

fn parts(raw: &str) -> ResponseParts {
    ResponseParts {
        status: "200".to_string(),
        elapsed: "5ms".to_string(),
        final_url: "https://api.test/users".to_string(),
        content_length: "Some(7)".to_string(),
        version: "HTTP/1.1".to_string(),
        headers: "{}".to_string(),
        raw_text: raw.to_string(),
    }
}

#[test]
fn finished_send_shows_report() {
    let mut app = sample();
    app.url = "https://api.test/users".to_string();
    app.response_scroll = 4;
    app.finish_send(Ok(parts("[1]")));
    assert_eq!(app.status_line, "Sent GET https://api.test/users");
    assert_eq!(app.response_scroll, 0);
    assert_eq!(
        app.response_text,
        "STATUS\n200\n\nRESPONSE TIME\n5ms\n\nFINAL URL\nhttps://api.test/users\n\nCONTENT LENGTH\nSome(7)\n\nHTTP VERSION\nHTTP/1.1\n\nHEADERS\n{}\n\nRAW TEXT\n[1]\n\nBODY\n[\n  1\n]\n"
    );
}

#[test]
fn non_json_response_fails() {
    let mut app = sample();
    app.method_idx = 4;
    app.finish_send(Ok(parts("<html>")));
    assert_eq!(app.status_line, "ERROR: DELETE failed");
    assert!(app.response_text.starts_with("REQUEST FAILED\n\nError("));
}

#[test]
fn transport_error_fails() {
    let mut app = sample();
    app.method_idx = 1;
    app.finish_send(Err("connection refused".to_string()));
    assert_eq!(app.status_line, "ERROR: POST failed");
    assert_eq!(app.response_text, "REQUEST FAILED\n\nconnection refused");
}

#[test]
fn response_body_is_pretty_printed_json() {
    let mut app = sample();
    app.finish_send(Ok(parts("{\"a\":1,\"b\":[true,null]}")));
    assert!(app
        .response_text
        .ends_with("BODY\n{\n  \"a\": 1,\n  \"b\": [\n    true,\n    null\n  ]\n}\n"));
    app.finish_send(Ok(parts("not json")));
    assert!(app.response_text.starts_with("REQUEST FAILED\n\nError("));
    assert!(app.response_text.contains("line: 1"));
}

#[test]
fn show_response_uses_given_body_text() {
    let mut app = sample();
    app.show_response(Ok((parts("ignored"), "PRETTY".to_string())));
    assert!(app.response_text.ends_with("RAW TEXT\nignored\n\nBODY\nPRETTY\n"));
    app.show_response(Err("boom".to_string()));
    assert_eq!(app.response_text, "REQUEST FAILED\n\nboom");
}

#[test]
fn fill_editor_uses_given_body_text() {
    let mut app = sample();
    app.fill_editor(1, "BODY".to_string());
    assert_eq!(app.body, "BODY");
    assert_eq!(app.method_idx, 1);
    assert_eq!(app.url, "https://api.test/orders");
    assert!(app.editor_open);
}

#[test]
fn header_rows_are_filtered_by_http_rules() {
    let mut app = App::new(vec![], vec![]);
    app.headers = vec![
        api_client::model::KvRow { key: "Content-Type".to_string(), value: "application/json".to_string() },
        api_client::model::KvRow { key: "".to_string(), value: "x".to_string() },
        api_client::model::KvRow { key: "X-Multi".to_string(), value: "a\nb".to_string() },
        api_client::model::KvRow { key: "X-Tab".to_string(), value: "a\tb".to_string() },
        api_client::model::KvRow { key: "Grüße".to_string(), value: "x".to_string() },
        api_client::model::KvRow { key: "X-Utf8".to_string(), value: "grüße".to_string() },
        api_client::model::KvRow { key: "a:b".to_string(), value: "x".to_string() },
    ];
    let h = app.build_header_map();
    assert_eq!(h.len(), 3);
    assert_eq!(h.get("content-type").unwrap().to_str().unwrap(), "application/json");
    assert_eq!(h.get("x-tab").unwrap().as_bytes(), "a\tb".as_bytes());
    assert_eq!(h.get("x-utf8").unwrap().as_bytes(), "grüße".as_bytes());
    let names: Vec<&str> = h.keys().map(|k| k.as_str()).collect();
    assert_eq!(names, vec!["content-type", "x-tab", "x-utf8"]);
}

#[test]
fn query_rows_later_key_wins_and_empty_keys_skipped() {
    let mut app = App::new(vec![], vec![]);
    app.query_params = vec![
        api_client::model::KvRow { key: "page".to_string(), value: "1".to_string() },
        api_client::model::KvRow { key: "".to_string(), value: "ignored".to_string() },
        api_client::model::KvRow { key: "q".to_string(), value: "rust".to_string() },
        api_client::model::KvRow { key: "page".to_string(), value: "2".to_string() },
    ];
    assert_eq!(
        app.build_query_map(),
        vec![("page".to_string(), "2".to_string()), ("q".to_string(), "rust".to_string())]
    );
    app.url = "https://h.io/search".to_string();
    let plan = app.send_plan();
    assert_eq!(plan.baseurl, "https://h.io/search");
    assert_eq!(plan.endpoint, "");
    let url = api_client::url::url_builder(&plan.baseurl, &plan.endpoint, Some(&plan.query));
    assert_eq!(url, "https://h.io/search?page=2&q=rust");
}

#[test]
fn unsplittable_url_is_sent_whole() {
    let mut app = App::new(vec![], vec![]);
    app.url = "localhost:8080".to_string();
    let plan = app.send_plan();
    assert_eq!(plan.baseurl, "localhost:8080");
    assert_eq!(plan.endpoint, "");
}

#[test]
fn url_is_sent_as_typed() {
    let mut app = App::new(vec![], vec![]);
    app.url = "https:/host/a/b".to_string();
    let plan = app.send_plan();
    let url = api_client::url::url_builder(&plan.baseurl, &plan.endpoint, None);
    assert_eq!(url, "https:/host/a/b");
}

#[test]
fn body_json_flag_follows_the_text() {
    let mut app = App::new(vec![], vec![]);
    app.body = "{\"a\": [1, 2]}".to_string();
    assert!(app.send_plan().body_is_json);
    app.body = "not json".to_string();
    assert!(!app.send_plan().body_is_json);
}

#[test]
fn duplicate_header_names_keep_last_value() {
    let mut app = App::new(vec![], vec![]);
    app.headers = vec![
        api_client::model::KvRow { key: "Accept".to_string(), value: "text/plain".to_string() },
        api_client::model::KvRow { key: "X-Id".to_string(), value: "1".to_string() },
        api_client::model::KvRow { key: "ACCEPT".to_string(), value: "application/json".to_string() },
    ];
    let h = app.build_header_map();
    assert_eq!(h.len(), 2);
    assert_eq!(h.get("accept").unwrap().to_str().unwrap(), "application/json");
    assert_eq!(h.get_all("accept").iter().count(), 1);
    assert_eq!(h.get("x-id").unwrap().to_str().unwrap(), "1");
}

#[test]
fn left_toggles_field_like_right() {
    let mut app = sample();
    app.active_panel = Panel::Requests;
    press(&mut app, ch('e'));
    press(&mut app, ch('i'));
    press(&mut app, key(Key::Tab));
    assert_eq!(app.query_field, KvField::Key);
    press(&mut app, key(Key::Left));
    assert_eq!(app.query_field, KvField::Value);
    press(&mut app, key(Key::Left));
    assert_eq!(app.query_field, KvField::Key);
    press(&mut app, key(Key::Tab));
    press(&mut app, key(Key::Left));
    assert_eq!(app.header_field, KvField::Value);
    press(&mut app, key(Key::Right));
    assert_eq!(app.header_field, KvField::Key);
}

#[test]
fn editor_rows_follow_editor() {
    let mut app = sample();
    assert_eq!(app.editor_rows(), 0);
    app.active_panel = Panel::Requests;
    press(&mut app, ch('e'));
    assert_eq!(app.editor_rows(), 14);
}

#[test]
fn keys_in_dialog_touch_nothing_else() {
    let mut app = sample();
    press(&mut app, ch('n'));
    for k in [ch('j'), key(Key::Tab), key(Key::Down), ch('q'), key(Key::Other)] {
        let e = press(&mut app, k);
        assert!(matches!(e, Effect::Nothing));
    }
    assert_eq!(app.coll_sel, Some(0));
    assert_eq!(app.active_panel, Panel::Collections);
    press(&mut app, key(Key::Esc));
    assert!(matches!(app.overlay, Overlay::Closed));
}

#[test]
fn send_with_too_many_header_rows_is_refused_up_front() {
    let mut app = sample();
    app.active_panel = Panel::Requests;
    press(&mut app, ch('e'));
    assert!(!app.sends_too_many_headers(ch('s')));
    app.headers = (0..6555)
        .map(|i| api_client::model::KvRow { key: format!("x-{}", i), value: "v".to_string() })
        .collect();
    assert!(app.sends_too_many_headers(ch('s')));
    assert!(!app.sends_too_many_headers(ch('j')));
}

#[test]
fn only_down_at_the_last_index_overflows() {
    let mut app = sample();
    app.active_panel = Panel::Requests;
    press(&mut app, ch('e'));
    press(&mut app, ch('i'));
    press(&mut app, key(Key::Tab));
    app.query_row = usize::MAX;
    assert!(app.row_overflows(key(Key::Down)));
    assert!(!app.row_overflows(key(Key::Up)));
    assert!(!app.row_overflows(ch('a')));
    press(&mut app, key(Key::Tab));
    assert!(!app.row_overflows(key(Key::Down)));
}
