use request_workbench::app::{ActionError, App, AppState};
use request_workbench::editor::BodyEditor;
use request_workbench::method::Method;
use request_workbench::transport::{
    cookie_line, header_line, map_outcome, wire_text, CookieEntry, HeaderEntry, TransportError,
    TransportResponse,
};

fn header(name: &str, value: &[u8]) -> HeaderEntry {
    HeaderEntry { name: name.to_string(), value: value.to_vec() }
}

fn cookie(name: &str, value: &str) -> CookieEntry {
    CookieEntry { name: name.to_string(), value: value.to_string() }
}

fn failure(description: &str) -> TransportError {
    TransportError { description: description.to_string() }
}

fn ping_selected() -> App {
    let mut app = App::new();
    app.new_request_input.enter_str("ping");
    app.new_request();
    assert_eq!(app.select_request(0), Ok(()));
    app.url_text_input.reset_input();
    app.url_text_input.enter_str("https://example.com");
    assert_eq!(app.modify_request_url(), Ok(()));
    app
}

#[test]
fn wire_text_shows_visible_bytes_as_they_are() {
    assert_eq!(wire_text(b""), "");
    assert_eq!(wire_text(b"text/plain"), "text/plain");
    assert_eq!(wire_text(b"a b\tc"), "a b\tc");
    assert_eq!(wire_text(b" ~"), " ~");
    assert_eq!(wire_text(b"say \"hi\""), "say \"hi\"");
    assert_eq!(wire_text(b"back\\slash"), "back\\slash");
}

#[test]
fn wire_text_escapes_the_other_bytes_in_hexadecimal() {
    assert_eq!(wire_text(&[0x80]), "\\x80");
    assert_eq!(wire_text(&[0xff]), "\\xff");
    assert_eq!(wire_text(&[0x7f]), "\\x7f");
    assert_eq!(wire_text(&[0x1f]), "\\x1f");
    assert_eq!(wire_text(&[0x10]), "\\x10");
    assert_eq!(wire_text(&[0x0f]), "\\xf");
    assert_eq!(wire_text(&[0x0a]), "\\xa");
    assert_eq!(wire_text(&[0x00]), "\\x0");
    assert_eq!(wire_text(&[0xc3, 0xa9]), "\\xc3\\xa9");
    assert_eq!(wire_text(&[b'a', 0xab, b'z']), "a\\xabz");
}

#[test]
fn wire_text_covers_every_byte() {
    for byte in 0..=255u8 {
        let expected = if (32..127).contains(&byte) || byte == 9 {
            (byte as char).to_string()
        } else {
            format!("\\x{:x}", byte)
        };
        assert_eq!(wire_text(&[byte]), expected);
    }
}

#[test]
fn header_and_cookie_lines_put_a_colon_and_a_space() {
    assert_eq!(header_line(&header("content-type", b"text/plain")), "content-type: text/plain");
    assert_eq!(header_line(&header("x-empty", b"")), "x-empty: ");
    assert_eq!(header_line(&header("x-raw", &[0xfe])), "x-raw: \\xfe");
    assert_eq!(cookie_line(&cookie("session", "abc123")), "session: abc123");
    assert_eq!(cookie_line(&cookie("", "")), ": ");
}

#[test]
fn map_outcome_of_a_response_joins_headers_and_cookies() {
    let result = map_outcome(Ok(TransportResponse {
        headers: vec![header("content-type", b"application/json"), header("server", b"test")],
        cookies: vec![cookie("a", "1"), cookie("b", "2"), cookie("a", "3")],
        body: "{}".to_string(),
    }));
    assert_eq!(result.body(), &Some("{}".to_string()));
    assert_eq!(result.headers(), &Some("content-type: application/json\nserver: test".to_string()));
    assert_eq!(result.cookies(), &Some("a: 1\nb: 2\na: 3".to_string()));
}

#[test]
fn map_outcome_of_an_empty_response_has_empty_texts() {
    let result = map_outcome(Ok(TransportResponse {
        headers: Vec::new(),
        cookies: Vec::new(),
        body: String::new(),
    }));
    assert_eq!(result.body(), &Some(String::new()));
    assert_eq!(result.headers(), &Some(String::new()));
    assert_eq!(result.cookies(), &Some(String::new()));
}

#[test]
fn map_outcome_of_a_failure_has_only_the_description() {
    let result = map_outcome(Err(failure("dns error")));
    assert_eq!(result.body(), &Some("dns error".to_string()));
    assert_eq!(result.headers(), &None);
    assert_eq!(result.cookies(), &None);
}

#[test]
fn send_request_hands_out_method_url_and_body() {
    let mut app = ping_selected();
    let call = app.send_request().unwrap();
    assert_eq!(call.method, Method::Get);
    assert_eq!(call.url, "https://example.com");
    assert_eq!(call.body, None);

    assert_eq!(app.modify_request_method(), Ok(()));
    app.body_text_area = BodyEditor::load("{\n}");
    assert_eq!(app.modify_request_body(), Ok(()));
    let call = app.send_request().unwrap();
    assert_eq!(call.method, Method::Post);
    assert_eq!(call.url, "https://example.com");
    assert_eq!(call.body, Some("{\n}".to_string()));
    assert_eq!(app.state, AppState::SelectedRequest);
}

#[test]
fn send_request_attaches_an_empty_body_that_is_configured() {
    let mut app = ping_selected();
    assert_eq!(app.toggle_request_body(), Ok(()));
    let call = app.send_request().unwrap();
    assert_eq!(call.body, Some(String::new()));
}

#[test]
fn send_request_without_selection_is_refused() {
    let mut app = ping_selected();
    app.unselect_request();
    assert!(matches!(app.send_request(), Err(ActionError::NoSelection)));
}

#[test]
fn complete_request_without_selection_is_refused() {
    let mut app = ping_selected();
    app.unselect_request();
    app.result_scroll = 4;
    assert_eq!(app.complete_request(Err(failure("late"))), Err(ActionError::NoSelection));
    assert_eq!(app.collection.get(0).unwrap().result().body(), &None);
    assert_eq!(app.result_scroll, 4);
}

#[test]
fn complete_request_resets_the_scroll_and_keeps_the_state() {
    let mut app = ping_selected();
    app.result_scroll = 12;
    app.state = AppState::SelectedRequest;
    assert_eq!(app.complete_request(Err(failure("timeout"))), Ok(()));
    assert_eq!(app.result_scroll, 0);
    assert_eq!(app.state, AppState::SelectedRequest);
    assert_eq!(app.collection.selected(), Some(0));
}

#[test]
fn complete_request_replaces_the_earlier_result() {
    let mut app = ping_selected();
    let response = TransportResponse {
        headers: vec![header("etag", b"\"v1\"")],
        cookies: vec![cookie("id", "7")],
        body: "first".to_string(),
    };
    assert_eq!(app.complete_request(Ok(response)), Ok(()));
    assert_eq!(app.complete_request(Err(failure("second failed"))), Ok(()));
    let result = app.collection.selected_request().unwrap().result();
    assert_eq!(result.body(), &Some("second failed".to_string()));
    assert_eq!(result.headers(), &None);
    assert_eq!(result.cookies(), &None);
}

#[test]
fn complete_request_writes_only_into_the_selected_request() {
    let mut app = ping_selected();
    app.new_request_input.reset_input();
    app.new_request_input.enter_str("other");
    app.new_request();
    assert_eq!(app.select_request(1), Ok(()));
    assert_eq!(app.complete_request(Err(failure("refused"))), Ok(()));
    assert_eq!(app.collection.get(0).unwrap().result().body(), &None);
    assert_eq!(app.collection.get(1).unwrap().result().body(), &Some("refused".to_string()));
    assert_eq!(app.collection.get(1).unwrap().name(), "other");
}

#[test]
fn scenario_ping_gets_a_response() {
    let mut app = App::new();
    app.new_request_input.enter_str("ping");
    app.new_request();
    assert_eq!(app.select_request(0), Ok(()));
    app.url_text_input.reset_input();
    app.url_text_input.enter_str("https://example.com");
    assert_eq!(app.modify_request_url(), Ok(()));

    let call = app.send_request().unwrap();
    assert_eq!(call.method, Method::Get);
    assert_eq!(call.url, "https://example.com");
    assert_eq!(call.body, None);

    let response = TransportResponse {
        headers: vec![header("content-type", b"text/plain")],
        cookies: Vec::new(),
        body: "pong".to_string(),
    };
    assert_eq!(app.complete_request(Ok(response)), Ok(()));

    let request = app.collection.selected_request().unwrap();
    assert_eq!(request.name(), "ping");
    assert_eq!(request.url(), "https://example.com");
    assert_eq!(request.result().headers(), &Some("content-type: text/plain".to_string()));
    assert_eq!(request.result().cookies(), &Some(String::new()));
    assert_eq!(request.result().body(), &Some("pong".to_string()));
    assert_eq!(app.result_scroll, 0);
}

#[test]
fn scenario_ping_is_refused_by_the_peer() {
    let mut app = ping_selected();
    let call = app.send_request().unwrap();
    assert_eq!(call.url, "https://example.com");
    assert_eq!(app.complete_request(Err(failure("connection refused"))), Ok(()));

    let request = app.collection.selected_request().unwrap();
    assert_eq!(request.result().body(), &Some("connection refused".to_string()));
    assert_eq!(request.result().headers(), &None);
    assert_eq!(request.result().cookies(), &None);
}
