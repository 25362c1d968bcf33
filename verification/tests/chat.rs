use thor::chat::ChatWindow;
use thor::frame::Opcode;
use thor::keyboard::KeyAction;

#[test]
fn new_window_is_blank() {
    let w = ChatWindow::new();
    assert_eq!(w.input, "");
    assert_eq!(w.reply, "");
    assert!(!w.clicked);
    assert!(!w.submitted);
}

#[test]
fn letters_are_appended() {
    let mut w = ChatWindow::new();
    w.press(KeyAction::Insert('H'));
    w.press(KeyAction::Insert('I'));
    w.press(KeyAction::Insert(' '));
    assert_eq!(w.input, "HI ");
    assert!(!w.submitted);
}

#[test]
fn backspace_undoes_last_letter() {
    let mut w = ChatWindow::new();
    w.input = String::from("ODIN");
    w.press(KeyAction::Insert('X'));
    w.press(KeyAction::Backspace);
    assert_eq!(w.input, "ODIN");
    w.press(KeyAction::Backspace);
    assert_eq!(w.input, "ODI");
}

#[test]
fn backspace_removes_a_whole_character() {
    let mut w = ChatWindow::new();
    w.input = String::from("hé");
    w.press(KeyAction::Backspace);
    assert_eq!(w.input, "h");
}

#[test]
fn backspace_on_empty_input_does_nothing() {
    let mut w = ChatWindow::new();
    w.press(KeyAction::Backspace);
    assert_eq!(w.input, "");
    assert!(!w.submitted);
}

#[test]
fn submit_sends_input_and_clears_it() {
    let mut w = ChatWindow::new();
    for c in "THOR".chars() {
        w.press(KeyAction::Insert(c));
    }
    w.press(KeyAction::Submit);
    assert!(w.submitted);
    let out = w.end_frame();
    assert_eq!(out.len(), 1);
    assert_eq!(out[0].opcode, Opcode::Text);
    assert_eq!(out[0].payload, b"THOR".to_vec());
    assert_eq!(w.input, "");
    assert!(!w.submitted);
}

#[test]
fn submit_of_empty_input_sends_empty_text() {
    let mut w = ChatWindow::new();
    w.press(KeyAction::Submit);
    let out = w.end_frame();
    assert_eq!(out.len(), 1);
    assert_eq!(out[0].opcode, Opcode::Text);
    assert!(out[0].payload.is_empty());
}

#[test]
fn clicked_sends_toast() {
    let mut w = ChatWindow::new();
    w.input = String::from("KEEP");
    w.clicked = true;
    let out = w.end_frame();
    assert_eq!(out.len(), 1);
    assert_eq!(out[0].opcode, Opcode::Text);
    assert_eq!(out[0].payload, b"This drink... I like it! ANOTHER!".to_vec());
    assert!(!w.clicked);
    assert_eq!(w.input, "KEEP");
}

#[test]
fn toast_goes_before_submitted_message() {
    let mut w = ChatWindow::new();
    w.input = String::from("SKAL");
    w.clicked = true;
    w.submitted = true;
    let out = w.end_frame();
    assert_eq!(out.len(), 2);
    assert_eq!(out[0].payload, b"This drink... I like it! ANOTHER!".to_vec());
    assert_eq!(out[1].payload, b"SKAL".to_vec());
    assert_eq!(w.input, "");
}

#[test]
fn quiet_frame_sends_nothing() {
    let mut w = ChatWindow::new();
    w.input = String::from("DRAFT");
    assert!(w.end_frame().is_empty());
    assert_eq!(w.input, "DRAFT");
}

#[test]
fn end_frame_settles() {
    let mut w = ChatWindow::new();
    w.input = String::from("A");
    w.submitted = true;
    w.clicked = true;
    assert_eq!(w.end_frame().len(), 2);
    assert!(w.end_frame().is_empty());
    assert_eq!(w.input, "");
}

#[test]
fn reply_replaced_by_latest() {
    let mut w = ChatWindow::new();
    w.input = String::from("TYPING");
    w.receive(Some(String::from("first")));
    assert_eq!(w.reply, "first");
    w.receive(None);
    assert_eq!(w.reply, "first");
    w.receive(Some(String::from("second")));
    assert_eq!(w.reply, "second");
    assert_eq!(w.input, "TYPING");
}

#[test]
fn typing_does_not_touch_reply() {
    let mut w = ChatWindow::new();
    w.receive(Some(String::from("welcome")));
    w.press(KeyAction::Insert('Q'));
    w.press(KeyAction::Submit);
    w.end_frame();
    assert_eq!(w.reply, "welcome");
}
