use led_marquee::text_entry::{EditBuffer, NewTextEntry, TextInbox};

#[test]
fn typed_characters_accumulate() {
    let mut buf = EditBuffer::new();
    buf.push_char('h');
    buf.push_char('i');
    assert_eq!(buf.text, "hi");
}

#[test]
fn carriage_returns_are_never_buffered() {
    let mut buf = EditBuffer::new();
    buf.push_char('a');
    buf.push_char('\r');
    buf.push_char('b');
    assert_eq!(buf.text, "ab");
}

#[test]
fn backspace_removes_the_last_character() {
    let mut buf = EditBuffer::new();
    buf.push_char('a');
    buf.push_char('b');
    buf.backspace();
    assert_eq!(buf.text, "a");
    buf.backspace();
    assert_eq!(buf.text, "");
    buf.backspace();
    assert_eq!(buf.text, "");
}

#[test]
fn committing_a_line_hands_it_out_and_clears_it() {
    let mut buf = EditBuffer::new();
    buf.push_char('o');
    buf.push_char('k');
    let msg = buf.commit();
    match msg {
        Some(NewTextEntry(t)) => assert_eq!(t, "ok"),
        None => panic!("a non-empty line must commit"),
    }
    assert_eq!(buf.text, "");
}

#[test]
fn committing_an_empty_line_is_ignored() {
    let mut buf = EditBuffer::new();
    assert!(buf.commit().is_none());
    assert_eq!(buf.text, "");
}

#[test]
fn inbox_holds_one_message_and_empties_on_take() {
    let mut inbox = TextInbox::new();
    assert!(inbox.slot.is_none());
    inbox.post(NewTextEntry(String::from("one")));
    let got = inbox.take();
    match got {
        Some(NewTextEntry(t)) => assert_eq!(t, "one"),
        None => panic!("a posted message must be taken"),
    }
    assert!(inbox.take().is_none());
}

#[test]
fn a_newer_entry_supersedes_a_waiting_one() {
    let mut inbox = TextInbox::new();
    inbox.post(NewTextEntry(String::from("old")));
    inbox.post(NewTextEntry(String::from("new")));
    match inbox.take() {
        Some(NewTextEntry(t)) => assert_eq!(t, "new"),
        None => panic!("a posted message must be taken"),
    }
}
