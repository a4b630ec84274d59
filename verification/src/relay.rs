use vstd::prelude::*;

verus! {

/// One read from a session's output stream, as the relay worker sees it.
pub enum ReadEvent {
    /// The stream yielded a chunk of bytes.
    Data(Vec<u8>),
    /// End of stream: the process closed its output.
    Eof,
    /// The read failed; the relay does not distinguish failure causes.
    ReadError,
}

/// Spec-level image of a read event.
pub enum ReadEventView {
    Data(Seq<u8>),
    Eof,
    ReadError,
}

impl View for ReadEvent {
    type V = ReadEventView;

    open spec fn view(&self) -> ReadEventView {
        match self {
            ReadEvent::Data(b) => ReadEventView::Data(b@),
            ReadEvent::Eof => ReadEventView::Eof,
            ReadEvent::ReadError => ReadEventView::ReadError,
        }
    }
}

/// A notification emitted to a session's subscriber.
pub enum Notification {
    /// A decoded chunk of process output.
    Output(String),
    /// The session's single, final exit notification.
    Exit,
}

/// Spec-level image of a notification.
pub enum NotificationView {
    Output(Seq<char>),
    Exit,
}

impl View for Notification {
    type V = NotificationView;

    open spec fn view(&self) -> NotificationView {
        match self {
            Notification::Output(t) => NotificationView::Output(t@),
            Notification::Exit => NotificationView::Exit,
        }
    }
}

/// A read event that ends the relay: end-of-stream or a read error.
pub open spec fn is_terminal(e: ReadEventView) -> bool {
    !(e is Data)
}

/// The text that lossy UTF-8 decoding assigns to a byte sequence.
pub uninterp spec fn lossy_decode(bytes: Seq<u8>) -> Seq<char>;

/// Relies on `String::from_utf8_lossy`: the decoding depends on the bytes
/// alone (invalid sequences are replaced, never an error), and bytes that
/// are all ASCII are valid UTF-8, so they decode to themselves.
#[verifier::external_body]
fn decode_chunk(bytes: &Vec<u8>) -> (r: String)
    ensures
        r@ == lossy_decode(bytes@),
        (forall|i: int| 0 <= i < bytes@.len() ==> bytes@[i] < 128) ==> r@ == bytes@.map_values(
            |b: u8| b as char,
        ),
{
    String::from_utf8_lossy(bytes.as_slice()).into_owned()
}

/// The views of a sequence of read events.
pub open spec fn event_views(s: Seq<ReadEvent>) -> Seq<ReadEventView> {
    s.map_values(|e: ReadEvent| e@)
}

/// The views of a sequence of notifications.
pub open spec fn notification_views(s: Seq<Notification>) -> Seq<NotificationView> {
    s.map_values(|n: Notification| n@)
}

/// The notifications a relay emits for a session whose stream produced
/// the given reads, in order: one output notification per chunk up to
/// the first terminal read, then exactly one exit notification.
pub open spec fn relay_spec(events: Seq<ReadEventView>) -> Seq<NotificationView>
    decreases events.len(),
{
    if events.len() == 0 {
        Seq::empty()
    } else {
        match events[0] {
            ReadEventView::Data(b) => seq![NotificationView::Output(lossy_decode(b))]
                + relay_spec(events.drop_first()),
            _ => seq![NotificationView::Exit],
        }
    }
}

/// The per-session relay state: whether the exit notification has been
/// emitted. One relay exists per session, owned by the worker that
/// blocks on the session's output stream; it never touches the session
/// table.
pub struct OutputRelay {
    /// True once the exit notification has been handed out.
    pub finished: bool,
}

impl OutputRelay {
    /// A fresh relay for a newly created session.
    pub fn new() -> (r: OutputRelay)
        ensures
            !r.finished,
    {
        OutputRelay { finished: false }
    }

    /// Turn one read into the notification to emit. A chunk becomes an
    /// output notification carrying the lossily decoded text;
    /// end-of-stream and a read error both become the exit notification
    /// and finish the relay. A finished relay emits nothing ever again.
    pub fn on_read(&mut self, event: &ReadEvent) -> (n: Option<Notification>)
        ensures
            old(self).finished ==> final(self).finished && n is None,
            !old(self).finished ==> match event@ {
                ReadEventView::Data(b) => !final(self).finished && (n matches Some(out)
                    && out@ == NotificationView::Output(lossy_decode(b))),
                _ => final(self).finished && (n matches Some(out) && out@
                    == NotificationView::Exit),
            },
    {
        if self.finished {
            return None;
        }
        match event {
            ReadEvent::Data(b) => Some(Notification::Output(decode_chunk(b))),
            ReadEvent::Eof => {
                self.finished = true;
                Some(Notification::Exit)
            },
            ReadEvent::ReadError => {
                self.finished = true;
                Some(Notification::Exit)
            },
        }
    }
}

/// The full relay run for one session, mirroring the worker loop: one
/// output notification per chunk, stopping at the first terminal read
/// with the single exit notification. Reads after the terminal one are
/// never looked at (the worker has exited by then).
pub fn relay_notifications(events: &Vec<ReadEvent>) -> (r: Vec<Notification>)
    ensures
        notification_views(r@) == relay_spec(event_views(events@)),
{
    let ghost all = event_views(events@);
    let mut out: Vec<Notification> = Vec::new();
    let mut relay = OutputRelay::new();
    let n = events.len();
    let mut i: usize = 0;
    let mut done = false;
    proof {
        assert(all.subrange(0, all.len() as int) =~= all);
        assert(notification_views(out@) =~= Seq::<NotificationView>::empty());
        assert(Seq::<NotificationView>::empty() + relay_spec(all) =~= relay_spec(all));
    }
    while i < n && !done
        invariant
            n == events@.len(),
            i <= n,
            all == event_views(events@),
            done == relay.finished,
            relay_spec(all) == notification_views(out@) + if done {
                Seq::<NotificationView>::empty()
            } else {
                relay_spec(all.subrange(i as int, all.len() as int))
            },
        decreases n - i,
    {
        let ghost rest = all.subrange(i as int, all.len() as int);
        proof {
            assert(rest[0] == events@[i as int]@);
            assert(rest.drop_first() =~= all.subrange(i + 1 as int, all.len() as int));
        }
        let event = &events[i];
        let note = relay.on_read(event);
        if let Some(nn) = note {
            let ghost pre_out = out@;
            out.push(nn);
            proof {
                assert(notification_views(pre_out.push(nn)) =~= notification_views(pre_out).push(
                    nn@,
                ));
            }
        }
        done = relay.finished;
        i = i + 1;
    }
    proof {
        if !done {
            assert(all.subrange(i as int, all.len() as int) =~= Seq::<ReadEventView>::empty());
        }
        assert(notification_views(out@) + Seq::<NotificationView>::empty() =~= notification_views(
            out@,
        ));
    }
    out
}

/// How many exit notifications a sequence of notifications holds.
pub open spec fn exit_count(notes: Seq<NotificationView>) -> nat
    decreases notes.len(),
{
    if notes.len() == 0 {
        0
    } else {
        (if notes[0] is Exit {
            1nat
        } else {
            0nat
        }) + exit_count(notes.drop_first())
    }
}

/// Whether the stream ever ended (or errored) in the observed reads.
pub open spec fn has_terminal(events: Seq<ReadEventView>) -> bool {
    exists|i: int| 0 <= i < events.len() && is_terminal(#[trigger] events[i])
}

/// The relay emits exactly one exit notification per session once its
/// stream ends or errors, that notification is the last one for the
/// session, and no notification of any kind follows it; while the
/// stream is still open no exit notification has been emitted.
pub proof fn lemma_one_exit_and_last(events: Seq<ReadEventView>)
    ensures
        has_terminal(events) ==> exit_count(relay_spec(events)) == 1 && relay_spec(events).len()
            > 0 && relay_spec(events).last() is Exit,
        !has_terminal(events) ==> exit_count(relay_spec(events)) == 0,
        forall|i: int|
            0 <= i < relay_spec(events).len() && (#[trigger] relay_spec(events)[i]) is Exit ==> i
                == relay_spec(events).len() - 1,
    decreases events.len(),
{
    let notes = relay_spec(events);
    if events.len() == 0 {
        assert(!has_terminal(events));
    } else {
        match events[0] {
            ReadEventView::Data(b) => {
                let tail = events.drop_first();
                let tail_notes = relay_spec(tail);
                lemma_one_exit_and_last(tail);
                assert(notes == seq![NotificationView::Output(lossy_decode(b))] + tail_notes);
                assert(notes[0] == NotificationView::Output(lossy_decode(b)));
                assert(notes.drop_first() =~= tail_notes);
                if has_terminal(events) {
                    let w = choose|w: int|
                        0 <= w < events.len() && is_terminal(#[trigger] events[w]);
                    assert(w != 0);
                    assert(tail[w - 1] == events[w]);
                    assert(has_terminal(tail));
                } else {
                    assert(!has_terminal(tail)) by {
                        if has_terminal(tail) {
                            let w = choose|w: int|
                                0 <= w < tail.len() && is_terminal(#[trigger] tail[w]);
                            assert(events[w + 1] == tail[w]);
                        }
                    }
                }
                assert forall|i: int|
                    0 <= i < notes.len() && (#[trigger] notes[i]) is Exit implies i == notes.len()
                    - 1 by {
                    assert(i != 0);
                    assert(notes[i] == tail_notes[i - 1]);
                }
            },
            _ => {
                assert(is_terminal(events[0]));
                assert(has_terminal(events));
                assert(notes == seq![NotificationView::Exit]);
                assert(notes.drop_first() =~= Seq::<NotificationView>::empty());
                assert(exit_count(Seq::<NotificationView>::empty()) == 0);
                assert(exit_count(notes) == 1);
            },
        }
    }
}

} // verus!
