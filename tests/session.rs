use quasar_chat::session::{classify, compose_prompt, Action, Command, Session};

fn sent_prompt(a: &Action) -> String {
    match a {
        Action::Send { prompt, .. } => prompt.clone(),
        other => panic!("expected a send, got {:?}", other),
    }
}

fn echoed(a: &Action) -> Option<String> {
    match a {
        Action::Send { echo, .. } => echo.clone(),
        other => panic!("expected a send, got {:?}", other),
    }
}

#[test]
fn classify_commands() {
    assert_eq!(classify("c"), Command::Copy);
    assert_eq!(classify("C\n"), Command::Copy);
    assert_eq!(classify("  c  "), Command::Copy);
    assert_eq!(classify("r"), Command::Resend);
    assert_eq!(classify("R\r\n"), Command::Resend);
    assert_eq!(classify("cc"), Command::NewMessage);
    assert_eq!(classify("copy"), Command::NewMessage);
    assert_eq!(classify("hello"), Command::NewMessage);
    assert_eq!(classify(""), Command::NewMessage);
    assert_eq!(classify("\u{107}"), Command::NewMessage);
}

#[test]
fn prompt_template_trims_message() {
    assert_eq!(compose_prompt("  hi there \n"), "User: hi there\nQuasar:");
    assert_eq!(compose_prompt("hello"), "User: hello\nQuasar:");
}

#[test]
fn resend_uses_remembered_input() {
    let mut s = Session::new();
    let a = s.step("hello");
    assert_eq!(sent_prompt(&a), "User: hello\nQuasar:");
    assert_eq!(s.last_input, "hello");
    s.record_response("Hi".to_string());
    let b = s.step("r");
    assert_eq!(sent_prompt(&b), "User: hello\nQuasar:");
    assert_eq!(echoed(&b), None);
    assert_eq!(s.last_input, "hello");
}

#[test]
fn copy_gives_last_response_without_sending() {
    let mut s = Session::new();
    let a = s.step("hello\n");
    assert_eq!(sent_prompt(&a), "User: hello\nQuasar:");
    s.record_response("Hi there".to_string());
    let b = s.step("c\n");
    match b {
        Action::Copy { text } => assert_eq!(text, "Hi there"),
        other => panic!("expected a copy, got {:?}", other),
    }
    assert_eq!(s.last_input, "hello\n");
    assert_eq!(s.last_response.as_deref(), Some("Hi there"));
}

#[test]
fn copy_before_any_response_does_nothing() {
    let mut s = Session::new();
    assert!(matches!(s.step("c"), Action::NothingToCopy));
    assert_eq!(s.last_input, "");
    assert_eq!(s.last_response, None);
}

#[test]
fn new_message_echoes_previous_input() {
    let mut s = Session::new();
    let a = s.step("first");
    assert_eq!(echoed(&a), None);
    assert_eq!(sent_prompt(&a), "User: first\nQuasar:");
    s.record_response("one".to_string());
    let b = s.step("second");
    assert_eq!(echoed(&b).as_deref(), Some("first"));
    assert_eq!(sent_prompt(&b), "User: second\nQuasar:");
    assert_eq!(s.last_input, "second");
}

#[test]
fn resend_before_any_input_sends_empty_message() {
    let mut s = Session::new();
    let a = s.step("R");
    assert_eq!(sent_prompt(&a), "User: \nQuasar:");
    assert_eq!(s.last_input, "");
}

#[test]
fn new_response_replaces_old() {
    let mut s = Session::new();
    s.step("a");
    s.record_response("first reply".to_string());
    s.step("b");
    s.record_response("second reply".to_string());
    assert_eq!(s.last_response.as_deref(), Some("second reply"));
    assert_eq!(s.last_input, "b");
}
