use onyx_core::relay::{relay_notifications, Notification, ReadEvent};
use onyx_core::session::{complete_io, PtyState};

#[test]
fn echo_session_emits_output_then_single_exit() {
    // A session running an echo-style command is created (the driver
    // spawns the pty at 80 columns by 24 rows between the two phases).
    let mut t = PtyState::default();
    assert!(t.admit_session(0).is_ok());
    let id = t.register_session(0);

    // "hi\n" is written through the held writer: the id is tracked and
    // the write-and-flush succeeds.
    assert!(t.check_session(id).is_ok());
    assert!(complete_io(Ok(())).is_ok());

    // The command echoes the input, then exits naturally.
    let events = vec![ReadEvent::Data(b"hi\r\n".to_vec()), ReadEvent::Eof];
    let notes = relay_notifications(&events);

    // An output notification whose decoded text contains "hi" ...
    match &notes[0] {
        Notification::Output(text) => assert!(text.contains("hi")),
        Notification::Exit => panic!("output must come before the exit"),
    }
    // ... then exactly one exit notification and nothing after it.
    let exits = notes
        .iter()
        .filter(|n| matches!(n, Notification::Exit))
        .count();
    assert_eq!(exits, 1);
    assert!(matches!(notes.last(), Some(Notification::Exit)));
    assert_eq!(notes.len(), 2);
}
