use vstd::prelude::*;
use crate::errors::SupervisorError;

verus! {

/// Maximum lifetime of a pty session, in milliseconds (four hours).
pub const PTY_SESSION_TIMEOUT_MS: u64 = 4 * 60 * 60 * 1000;

/// Maximum number of concurrently tracked pty sessions.
pub const MAX_PTY_SESSIONS: usize = 10;

/// Bookkeeping for one pty-backed session.
///
/// The OS-level resource bundle (writer, child process, master pty) is
/// owned by the caller that spawned the process, keyed by `id`; the table
/// tracks only the metadata that the lifecycle policy decides over.
#[derive(Clone, Copy, PartialEq, Eq, Structural)]
pub struct PtySession {
    /// Unique session id, drawn from the table's monotonic counter.
    pub id: u32,
    /// Creation time in milliseconds, immutable after creation.
    pub created_at_ms: u64,
}

/// Whether a session has outlived the timeout at time `now_ms`.
///
/// A creation stamp in the future (a clock anomaly) counts as age zero.
pub open spec fn is_expired(s: PtySession, now_ms: u64) -> bool {
    now_ms >= s.created_at_ms && now_ms - s.created_at_ms >= PTY_SESSION_TIMEOUT_MS
}

/// The sessions that survive an age-based sweep at time `now_ms`,
/// in their original order.
pub open spec fn sweep_spec(s: Seq<PtySession>, now_ms: u64) -> Seq<PtySession> {
    s.filter(|e: PtySession| !is_expired(e, now_ms))
}

/// One unfolding step of the sweep: appending a session and sweeping
/// keeps it exactly when it is not expired.
proof fn lemma_sweep_push(s: Seq<PtySession>, x: PtySession, now_ms: u64)
    ensures
        sweep_spec(s.push(x), now_ms) == if !is_expired(x, now_ms) {
            sweep_spec(s, now_ms).push(x)
        } else {
            sweep_spec(s, now_ms)
        },
{
    reveal_with_fuel(Seq::<_>::filter, 2);
    assert(s.push(x).drop_last() =~= s);
    assert(s.push(x).last() == x);
}

/// Whether some session in the sequence carries the given id.
pub open spec fn seq_has_sid(s: Seq<PtySession>, id: u32) -> bool {
    exists|i: int| 0 <= i < s.len() && (#[trigger] s[i]).id == id
}

/// The table of live pty sessions and the id counter.
///
/// The caller guards one `PtyState` with a single lock and holds that
/// lock for the full duration of every operation except the spawn
/// syscall itself, which runs between `admit_session` and
/// `register_session` with the lock released.
pub struct PtyState {
    /// Live sessions, in order of creation (ids strictly increasing).
    pub sessions: Vec<PtySession>,
    /// Monotonic id source; ids are never reused while the table exists.
    pub counter: u32,
}

impl PtyState {
    /// Well-formedness: ids are strictly increasing along the table
    /// (hence unique) and never exceed the counter.
    pub open spec fn wf(self) -> bool {
        &&& forall|i: int, j: int|
            0 <= i < j < self.sessions@.len() ==> (#[trigger] self.sessions@[i]).id < (
            #[trigger] self.sessions@[j]).id
        &&& forall|i: int|
            0 <= i < self.sessions@.len() ==> (#[trigger] self.sessions@[i]).id <= self.counter
    }

    /// Whether a session with the given id is tracked.
    pub open spec fn contains_sid(self, id: u32) -> bool {
        seq_has_sid(self.sessions@, id)
    }

    /// The table lookup that `write` and `resize` are admitted by:
    /// success exactly when the id is tracked, `NotFound` otherwise.
    pub open spec fn lookup_spec(self, id: u32) -> Result<(), SupervisorError> {
        if self.contains_sid(id) {
            Ok(())
        } else {
            Err(SupervisorError::NotFound)
        }
    }

    /// Remove every session whose age at `now_ms` has reached the
    /// timeout, keeping the rest in order.
    pub fn cleanup_expired_sessions(&mut self, now_ms: u64)
        requires
            old(self).wf(),
        ensures
            final(self).wf(),
            final(self).counter == old(self).counter,
            final(self).sessions@ == sweep_spec(old(self).sessions@, now_ms),
    {
        let mut kept: Vec<PtySession> = Vec::new();
        let n = self.sessions.len();
        let mut i: usize = 0;
        while i < n
            invariant
                *self == *old(self),
                self.wf(),
                n == self.sessions@.len(),
                i <= n,
                kept@ == sweep_spec(self.sessions@.subrange(0, i as int), now_ms),
                forall|a: int, b: int|
                    0 <= a < b < kept@.len() ==> (#[trigger] kept@[a]).id < (
                    #[trigger] kept@[b]).id,
                forall|a: int| 0 <= a < kept@.len() ==> (#[trigger] kept@[a]).id <= self.counter,
                kept@.len() > 0 ==> i > 0 && kept@.last().id <= self.sessions@[i - 1].id,
            decreases n - i,
        {
            let s = self.sessions[i];
            proof {
                assert(self.sessions@.subrange(0, i + 1 as int) =~= self.sessions@.subrange(
                    0,
                    i as int,
                ).push(s));
                lemma_sweep_push(self.sessions@.subrange(0, i as int), s, now_ms);
                if i > 0 {
                    assert(self.sessions@[i - 1].id < self.sessions@[i as int].id);
                }
            }
            if !(now_ms >= s.created_at_ms && now_ms - s.created_at_ms >= PTY_SESSION_TIMEOUT_MS) {
                assert(!is_expired(s, now_ms));
                kept.push(s);
            } else {
                assert(is_expired(s, now_ms));
            }
            i = i + 1;
        }
        proof {
            assert(self.sessions@.subrange(0, n as int) =~= self.sessions@);
        }
        self.sessions = kept;
    }

    /// Whether a new session may be admitted under the capacity cap.
    pub fn can_create_session(&self) -> (r: bool)
        ensures
            r == (self.sessions@.len() < MAX_PTY_SESSIONS),
    {
        self.sessions.len() < MAX_PTY_SESSIONS
    }

    /// First phase of session creation: sweep expired sessions, then
    /// check the capacity cap. On `Err(CapacityExceeded)` nothing may be
    /// spawned; on `Ok` the caller spawns the process (with the table
    /// lock released) and then calls [`Self::register_session`].
    pub fn admit_session(&mut self, now_ms: u64) -> (r: Result<(), SupervisorError>)
        requires
            old(self).wf(),
        ensures
            final(self).wf(),
            final(self).counter == old(self).counter,
            final(self).sessions@ == sweep_spec(old(self).sessions@, now_ms),
            r is Ok <==> sweep_spec(old(self).sessions@, now_ms).len() < MAX_PTY_SESSIONS,
            r is Err ==> r == Err::<(), SupervisorError>(SupervisorError::CapacityExceeded),
    {
        self.cleanup_expired_sessions(now_ms);
        if self.can_create_session() {
            Ok(())
        } else {
            Err(SupervisorError::CapacityExceeded)
        }
    }

    /// Second phase of session creation, called only after a successful
    /// spawn: draw the next id from the counter and insert the new
    /// session. The returned id was never used before.
    pub fn register_session(&mut self, now_ms: u64) -> (id: u32)
        requires
            old(self).wf(),
            old(self).sessions@.len() < MAX_PTY_SESSIONS,
            old(self).counter < u32::MAX,
        ensures
            final(self).wf(),
            final(self).counter == old(self).counter + 1,
            id == final(self).counter,
            !old(self).contains_sid(id),
            final(self).contains_sid(id),
            final(self).sessions@ == old(self).sessions@.push(
                PtySession { id, created_at_ms: now_ms },
            ),
            final(self).sessions@.len() <= MAX_PTY_SESSIONS,
    {
        self.counter = self.counter + 1;
        let id = self.counter;
        self.sessions.push(PtySession { id, created_at_ms: now_ms });
        proof {
            assert(self.sessions@[self.sessions@.len() - 1].id == id);
        }
        id
    }

    /// The lookup that admits a `write` or `resize`: `Ok` exactly when
    /// the id is tracked, `Err(NotFound)` otherwise. Never panics and
    /// never blocks.
    pub fn check_session(&self, id: u32) -> (r: Result<(), SupervisorError>)
        ensures
            r == self.lookup_spec(id),
    {
        let n = self.sessions.len();
        let mut i: usize = 0;
        while i < n
            invariant
                n == self.sessions@.len(),
                i <= n,
                forall|j: int| 0 <= j < i ==> (#[trigger] self.sessions@[j]).id != id,
            decreases n - i,
        {
            if self.sessions[i].id == id {
                return Ok(());
            }
            i = i + 1;
        }
        Err(SupervisorError::NotFound)
    }

    /// Remove the session with the given id. `Ok` exactly when the id
    /// was tracked; afterwards the id is gone either way, every other
    /// session is kept, and the counter is untouched (the id is not
    /// reusable). Dropping the removed OS resources is the caller's
    /// side of the operation.
    pub fn kill_session(&mut self, id: u32) -> (r: Result<(), SupervisorError>)
        requires
            old(self).wf(),
        ensures
            final(self).wf(),
            final(self).counter == old(self).counter,
            !final(self).contains_sid(id),
            r is Ok <==> old(self).contains_sid(id),
            !old(self).contains_sid(id) ==> r == Err::<(), SupervisorError>(
                SupervisorError::NotFound,
            ) && *final(self) == *old(self),
            old(self).contains_sid(id) ==> exists|k: int|
                0 <= k < old(self).sessions@.len() && (#[trigger] old(self).sessions@[k]).id == id
                    && final(self).sessions@ == old(self).sessions@.remove(k),
            forall|other: u32|
                other != id ==> (#[trigger] final(self).contains_sid(other) <==> old(
                    self,
                ).contains_sid(other)),
    {
        let n = self.sessions.len();
        let mut i: usize = 0;
        while i < n
            invariant
                *self == *old(self),
                self.wf(),
                n == self.sessions@.len(),
                i <= n,
                forall|j: int| 0 <= j < i ==> (#[trigger] self.sessions@[j]).id != id,
            decreases n - i,
        {
            if self.sessions[i].id == id {
                let ghost pre = self.sessions@;
                let ghost k = i as int;
                self.sessions.remove(i);
                proof {
                    lemma_remove_tracked_id(pre, k, id, self.counter);
                    assert(self.sessions@ == pre.remove(k));
                    assert(pre[k].id == id);
                }
                return Ok(());
            }
            i = i + 1;
        }
        Err(SupervisorError::NotFound)
    }
}

impl Default for PtyState {
    /// A fresh table: no sessions, counter at zero.
    fn default() -> (r: Self)
        ensures
            r.wf(),
            r.sessions@.len() == 0,
            r.counter == 0,
    {
        PtyState { sessions: Vec::new(), counter: 0 }
    }
}

/// Removing the unique index that carries `id` from a well-formed
/// session sequence keeps every other id, keeps the order, and leaves
/// no session with `id`.
proof fn lemma_remove_tracked_id(pre: Seq<PtySession>, k: int, id: u32, counter: u32)
    requires
        0 <= k < pre.len(),
        pre[k].id == id,
        forall|i: int, j: int|
            0 <= i < j < pre.len() ==> (#[trigger] pre[i]).id < (#[trigger] pre[j]).id,
        forall|i: int| 0 <= i < pre.len() ==> (#[trigger] pre[i]).id <= counter,
    ensures
        pre.remove(k).len() == pre.len() - 1,
        forall|i: int, j: int|
            0 <= i < j < pre.remove(k).len() ==> (#[trigger] pre.remove(k)[i]).id < (
            #[trigger] pre.remove(k)[j]).id,
        forall|i: int| 0 <= i < pre.remove(k).len() ==> (#[trigger] pre.remove(k)[i]).id <= counter,
        forall|i: int| 0 <= i < pre.remove(k).len() ==> (#[trigger] pre.remove(k)[i]).id != id,
        forall|other: u32|
            other != id ==> (#[trigger] seq_has_sid(pre.remove(k), other) <==> seq_has_sid(
                pre,
                other,
            )),
{
    pre.remove_ensures(k);
    let post = pre.remove(k);
    assert forall|i: int| 0 <= i < post.len() implies (#[trigger] post[i]).id != id by {
        if i < k {
            assert(post[i] == pre[i]);
            assert(pre[i].id < pre[k].id);
        } else {
            assert(post[i] == pre[i + 1]);
            assert(pre[k].id < pre[i + 1].id);
        }
    }
    assert forall|i: int, j: int|
        0 <= i < j < post.len() implies (#[trigger] post[i]).id < (#[trigger] post[j]).id by {
        assert(post[i] == if i < k {
            pre[i]
        } else {
            pre[i + 1]
        });
        assert(post[j] == if j < k {
            pre[j]
        } else {
            pre[j + 1]
        });
    }
    assert forall|i: int| 0 <= i < post.len() implies (#[trigger] post[i]).id <= counter by {
        assert(post[i] == if i < k {
            pre[i]
        } else {
            pre[i + 1]
        });
    }
    assert forall|other: u32| other != id && seq_has_sid(pre, other) implies seq_has_sid(
        post,
        other,
    ) by {
        let w = choose|w: int| 0 <= w < pre.len() && (#[trigger] pre[w]).id == other;
        if w < k {
            assert(post[w] == pre[w]);
        } else {
            assert(w > k);
            assert(post[w - 1] == pre[w]);
        }
    }
    assert forall|other: u32| other != id && seq_has_sid(post, other) implies seq_has_sid(
        pre,
        other,
    ) by {
        let w = choose|w: int| 0 <= w < post.len() && (#[trigger] post[w]).id == other;
        assert(post[w] == if w < k {
            pre[w]
        } else {
            pre[w + 1]
        });
    }
}

/// The character for one decimal digit.
pub open spec fn digit_char(d: nat) -> char {
    if d == 0 {
        '0'
    } else if d == 1 {
        '1'
    } else if d == 2 {
        '2'
    } else if d == 3 {
        '3'
    } else if d == 4 {
        '4'
    } else if d == 5 {
        '5'
    } else if d == 6 {
        '6'
    } else if d == 7 {
        '7'
    } else if d == 8 {
        '8'
    } else {
        '9'
    }
}

/// The decimal digits of a number, most significant first.
pub open spec fn dec_digits(n: nat) -> Seq<char>
    decreases n,
{
    if n < 10 {
        seq![digit_char(n)]
    } else {
        dec_digits(n / 10).push(digit_char(n % 10))
    }
}

fn digit_label(d: u32) -> (r: &'static str)
    requires
        d < 10,
    ensures
        r@.len() == 1,
        r@[0] == digit_char(d as nat),
{
    proof {
        reveal_strlit("0");
        reveal_strlit("1");
        reveal_strlit("2");
        reveal_strlit("3");
        reveal_strlit("4");
        reveal_strlit("5");
        reveal_strlit("6");
        reveal_strlit("7");
        reveal_strlit("8");
        reveal_strlit("9");
    }
    match d {
        0 => "0",
        1 => "1",
        2 => "2",
        3 => "3",
        4 => "4",
        5 => "5",
        6 => "6",
        7 => "7",
        8 => "8",
        _ => "9",
    }
}

fn dec_string(n: u32) -> (r: String)
    ensures
        r@ == dec_digits(n as nat),
    decreases n,
{
    if n < 10 {
        let r = String::from_str(digit_label(n));
        proof {
            assert(r@ =~= dec_digits(n as nat));
        }
        r
    } else {
        let prefix = dec_string(n / 10);
        let ghost pre = prefix@;
        let r = prefix.concat(digit_label(n % 10));
        proof {
            assert(r@ =~= dec_digits((n / 10) as nat).push(digit_char((n % 10) as nat)));
        }
        r
    }
}

/// The public label of a session id, as handed to the GUI layer:
/// `pty_` followed by the decimal id.
pub fn format_session_id(id: u32) -> (r: String)
    ensures
        r@ == "pty_"@ + dec_digits(id as nat),
{
    let digits = dec_string(id);
    String::from_str("pty_").concat(digits.as_str())
}

/// Fold the outcome of the pass-through I/O call behind a `write` or
/// `resize` (write-and-flush, or the pty resize) into the supervisor's
/// error taxonomy: the OS message is surfaced verbatim as `Io`.
pub fn complete_io(outcome: Result<(), String>) -> (r: Result<(), SupervisorError>)
    ensures
        outcome is Ok <==> r is Ok,
        forall|m: String| outcome == Err::<(), String>(m) ==> r == Err::<(), SupervisorError>(
            SupervisorError::Io(m),
        ),
{
    match outcome {
        Ok(()) => Ok(()),
        Err(m) => Err(SupervisorError::Io(m)),
    }
}

/// The table never exceeds the capacity cap across any sequence of
/// `create` calls: a sweep can only shrink the table, and the insertion
/// that follows a successful admission (which requires fewer than
/// `MAX_PTY_SESSIONS` survivors) brings it to at most the cap. A create
/// attempted when the sweep leaves no room is refused before anything is
/// spawned.
pub proof fn lemma_create_preserves_capacity(s: Seq<PtySession>, now_ms: u64, entry: PtySession)
    requires
        s.len() <= MAX_PTY_SESSIONS,
    ensures
        sweep_spec(s, now_ms).len() <= s.len(),
        sweep_spec(s, now_ms).len() < MAX_PTY_SESSIONS ==> sweep_spec(s, now_ms).push(
            entry,
        ).len() <= MAX_PTY_SESSIONS,
{
    s.lemma_filter_len(|e: PtySession| !is_expired(e, now_ms));
}

/// A session whose age has reached the timeout does not survive the
/// sweep run by the next `create` call, even if it was never explicitly
/// killed; every session that does survive is younger than the timeout.
pub proof fn lemma_sweep_removes_expired(s: Seq<PtySession>, now_ms: u64)
    ensures
        forall|i: int|
            0 <= i < sweep_spec(s, now_ms).len() ==> !is_expired(
                #[trigger] sweep_spec(s, now_ms)[i],
                now_ms,
            ),
        forall|i: int|
            0 <= i < s.len() && !is_expired(#[trigger] s[i], now_ms) ==> sweep_spec(
                s,
                now_ms,
            ).contains(s[i]),
{
    let pred = |e: PtySession| !is_expired(e, now_ms);
    assert forall|i: int| 0 <= i < sweep_spec(s, now_ms).len() implies !is_expired(
        #[trigger] sweep_spec(s, now_ms)[i],
        now_ms,
    ) by {
        s.lemma_filter_pred(pred, i);
    }
    assert forall|i: int|
        0 <= i < s.len() && !is_expired(#[trigger] s[i], now_ms) implies sweep_spec(
        s,
        now_ms,
    ).contains(s[i]) by {
        s.lemma_filter_contains(pred, i);
    }
}

/// Once a session id has been removed from the table — by `kill`, by the
/// sweep, or because it never existed — the lookup that admits `write`
/// and `resize` answers `NotFound` for it.
pub proof fn lemma_absent_session_not_found(t: PtyState, id: u32)
    requires
        !t.contains_sid(id),
    ensures
        t.lookup_spec(id) == Err::<(), SupervisorError>(SupervisorError::NotFound),
{
}

} // verus!
