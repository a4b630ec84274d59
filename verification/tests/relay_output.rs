use onyx_core::relay::{relay_notifications, Notification, OutputRelay, ReadEvent};

fn output_text(n: &Notification) -> Option<&str> {
    match n {
        Notification::Output(t) => Some(t.as_str()),
        Notification::Exit => None,
    }
}

#[test]
fn chunk_then_eof_gives_output_then_exit() {
    let events = vec![ReadEvent::Data(b"hi\r\n".to_vec()), ReadEvent::Eof];
    let notes = relay_notifications(&events);
    assert_eq!(notes.len(), 2);
    assert!(output_text(&notes[0]).unwrap().contains("hi"));
    assert!(matches!(notes[1], Notification::Exit));
}

#[test]
fn read_error_also_gives_single_exit() {
    let events = vec![
        ReadEvent::Data(b"partial".to_vec()),
        ReadEvent::ReadError,
    ];
    let notes = relay_notifications(&events);
    assert_eq!(notes.len(), 2);
    assert_eq!(output_text(&notes[0]), Some("partial"));
    assert!(matches!(notes[1], Notification::Exit));
}

#[test]
fn exit_is_emitted_exactly_once_and_last() {
    let events = vec![
        ReadEvent::Data(b"a".to_vec()),
        ReadEvent::Data(b"b".to_vec()),
        ReadEvent::Eof,
        // Anything after the terminal read is never looked at.
        ReadEvent::Data(b"late".to_vec()),
        ReadEvent::Eof,
    ];
    let notes = relay_notifications(&events);
    let exits = notes
        .iter()
        .filter(|n| matches!(n, Notification::Exit))
        .count();
    assert_eq!(exits, 1);
    assert!(matches!(notes.last(), Some(Notification::Exit)));
    assert_eq!(notes.len(), 3);
}

#[test]
fn open_stream_has_no_exit_yet() {
    let events = vec![ReadEvent::Data(b"still running".to_vec())];
    let notes = relay_notifications(&events);
    assert_eq!(notes.len(), 1);
    assert_eq!(output_text(&notes[0]), Some("still running"));
}

#[test]
fn output_preserves_chunk_order() {
    let events = vec![
        ReadEvent::Data(b"one ".to_vec()),
        ReadEvent::Data(b"two ".to_vec()),
        ReadEvent::Data(b"three".to_vec()),
        ReadEvent::Eof,
    ];
    let notes = relay_notifications(&events);
    let texts: Vec<&str> = notes.iter().filter_map(output_text).collect();
    assert_eq!(texts, vec!["one ", "two ", "three"]);
}

#[test]
fn invalid_utf8_is_replaced_not_failed() {
    let mut relay = OutputRelay::new();
    let n = relay
        .on_read(&ReadEvent::Data(vec![0xff, b'h', b'i']))
        .unwrap();
    match n {
        Notification::Output(t) => assert_eq!(t, "\u{FFFD}hi"),
        Notification::Exit => panic!("expected output"),
    }
}

#[test]
fn finished_relay_emits_nothing_ever_again() {
    let mut relay = OutputRelay::new();
    assert!(relay.on_read(&ReadEvent::Eof).is_some());
    assert!(relay.finished);
    assert!(relay.on_read(&ReadEvent::Data(b"late".to_vec())).is_none());
    assert!(relay.on_read(&ReadEvent::Eof).is_none());
}

#[test]
fn empty_chunk_decodes_to_empty_output() {
    let mut relay = OutputRelay::new();
    match relay.on_read(&ReadEvent::Data(Vec::new())).unwrap() {
        Notification::Output(t) => assert_eq!(t, ""),
        Notification::Exit => panic!("expected output"),
    }
}
