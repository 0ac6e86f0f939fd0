use request_workbench::editor::BodyEditor;
use request_workbench::method::{next_method, Method, METHOD_CYCLE_LEN};
use request_workbench::text::{join_lines, split_lines};

fn strings(lines: &[&str]) -> Vec<String> {
    lines.iter().map(|line| line.to_string()).collect()
}

#[test]
fn next_method_follows_the_cycle() {
    assert_eq!(next_method(&Method::Get), Method::Post);
    assert_eq!(next_method(&Method::Post), Method::Put);
    assert_eq!(next_method(&Method::Put), Method::Patch);
    assert_eq!(next_method(&Method::Patch), Method::Delete);
    assert_eq!(next_method(&Method::Delete), Method::Head);
    assert_eq!(next_method(&Method::Head), Method::Options);
    assert_eq!(next_method(&Method::Options), Method::Get);
}

#[test]
fn a_full_cycle_returns_to_every_starting_method() {
    let all = [
        Method::Get,
        Method::Post,
        Method::Put,
        Method::Patch,
        Method::Delete,
        Method::Head,
        Method::Options,
    ];
    assert_eq!(all.len(), METHOD_CYCLE_LEN);
    for start in all {
        let mut method = start;
        for step in 1..=METHOD_CYCLE_LEN {
            method = next_method(&method);
            if step < METHOD_CYCLE_LEN {
                assert_ne!(method, start);
            }
        }
        assert_eq!(method, start);
    }
}

#[test]
fn split_lines_of_the_empty_text_is_empty() {
    assert_eq!(split_lines(""), Vec::<String>::new());
}

#[test]
fn split_lines_splits_at_newlines() {
    assert_eq!(split_lines("hello"), strings(&["hello"]));
    assert_eq!(split_lines("hello\nworld"), strings(&["hello", "world"]));
    assert_eq!(split_lines("a\n\nb"), strings(&["a", "", "b"]));
    assert_eq!(split_lines("\n"), strings(&[""]));
    assert_eq!(split_lines("\n\n"), strings(&["", ""]));
    assert_eq!(split_lines("\nb"), strings(&["", "b"]));
}

#[test]
fn split_lines_ignores_one_final_newline() {
    assert_eq!(split_lines("a\n"), strings(&["a"]));
    assert_eq!(split_lines("a\nb\n"), strings(&["a", "b"]));
    assert_eq!(split_lines("a\n\n"), strings(&["a", ""]));
}

#[test]
fn split_lines_takes_a_carriage_return_with_its_newline() {
    assert_eq!(split_lines("a\r\nb"), strings(&["a", "b"]));
    assert_eq!(split_lines("a\r\n"), strings(&["a"]));
    assert_eq!(split_lines("\r\n"), strings(&[""]));
    assert_eq!(split_lines("a\r\r\nb"), strings(&["a\r", "b"]));
}

#[test]
fn split_lines_keeps_a_carriage_return_without_newline() {
    assert_eq!(split_lines("a\r"), strings(&["a\r"]));
    assert_eq!(split_lines("a\rb"), strings(&["a\rb"]));
    assert_eq!(split_lines("a\nb\r"), strings(&["a", "b\r"]));
}

#[test]
fn split_lines_agrees_with_the_standard_library() {
    let texts = [
        "",
        "x",
        "\n",
        "\r",
        "\r\n",
        "one\ntwo\nthree",
        "one\r\ntwo\r\n",
        "tr\u{e8}s\nbien\n",
        "\n\n\n",
        "a\n\r\nb",
        "{\n  \"key\": \"value\"\n}",
    ];
    for text in texts {
        let expected: Vec<String> = text.lines().map(|line| line.to_string()).collect();
        assert_eq!(split_lines(text), expected);
    }
}

#[test]
fn join_lines_puts_one_newline_between_lines() {
    assert_eq!(join_lines(&strings(&[])), "");
    assert_eq!(join_lines(&strings(&["a"])), "a");
    assert_eq!(join_lines(&strings(&["a", "b"])), "a\nb");
    assert_eq!(join_lines(&strings(&["a", "", "b"])), "a\n\nb");
    assert_eq!(join_lines(&strings(&["", ""])), "\n");
    assert_eq!(join_lines(&strings(&[""])), "");
}

#[test]
fn an_editor_without_lines_holds_one_empty_line() {
    assert_eq!(BodyEditor::new().lines(), strings(&[""]));
    assert_eq!(BodyEditor::with_lines(Vec::new()).lines(), strings(&[""]));
    assert_eq!(BodyEditor::load("").lines(), strings(&[""]));
}

#[test]
fn an_editor_holds_the_lines_it_is_given() {
    let editor = BodyEditor::with_lines(strings(&["first", "second"]));
    assert_eq!(editor.lines(), strings(&["first", "second"]));
    assert_eq!(editor.extract(), "first\nsecond");
}

#[test]
fn load_splits_the_text_into_lines() {
    assert_eq!(BodyEditor::load("a\nb\nc").lines(), strings(&["a", "b", "c"]));
    assert_eq!(BodyEditor::load("a\n").lines(), strings(&["a"]));
    assert_eq!(BodyEditor::load("\n").lines(), strings(&[""]));
}

#[test]
fn load_then_extract_gives_the_text_back() {
    for text in ["x", "hello\nworld", "a\n\nb", "{\n  \"k\": 1\n}", "\nleading", "a\rb"] {
        assert_eq!(BodyEditor::load(text).extract(), text);
    }
}

#[test]
fn load_then_extract_of_the_empty_text_is_empty() {
    assert_eq!(BodyEditor::load("").extract(), "");
}

// The round trip is lossy on purpose: a text with one final newline and the
// same text without it come back alike, and a carriage return before a
// newline is taken as part of the line break.
#[test]
fn load_then_extract_loses_one_final_newline() {
    assert_eq!(BodyEditor::load("a\n").extract(), "a");
    assert_eq!(BodyEditor::load("a\nb\n").extract(), "a\nb");
    assert_eq!(BodyEditor::load("a\n\n").extract(), "a\n");
    assert_eq!(BodyEditor::load("\n").extract(), "");
    assert_eq!(BodyEditor::load("a\r\nb").extract(), "a\nb");
}
