use vstd::prelude::*;

use crate::record::LogRecord;

verus! {

broadcast use vstd::std_specs::vec::vec_clone_deep_view_proof;

/// The message that was sent last, as the contracts see it.
pub struct DebounceSlot {
    pub id: i64,
    /// When it was sent or last amended, in milliseconds of a monotonic clock.
    pub sent_at: u64,
    pub title: Seq<char>,
    pub body: Seq<Seq<char>>,
}

/// The debouncer as the contracts see it.
pub struct DebouncerView {
    /// How long a message stays open for amendment, in seconds.
    pub timeout: u64,
    pub slot: Option<DebounceSlot>,
}

/// Milliseconds from `sent_at` to `now`; no time has passed if the clock
/// reads earlier than `sent_at`.
pub open spec fn elapsed_ms(sent_at: u64, now: u64) -> int {
    if now >= sent_at {
        now - sent_at
    } else {
        0
    }
}

/// Whether a record titled `title` at time `now` is coalesced into the
/// message that was sent last.
pub open spec fn coalesces(d: DebouncerView, title: Seq<char>, now: u64) -> bool {
    match d.slot {
        Some(slot) => slot.title == title && elapsed_ms(slot.sent_at, now) < d.timeout * 1000,
        None => false,
    }
}

/// The debouncer after a record titled `title` with body `body` went out at
/// time `now` as message `msg_id`: the last message is extended if the record
/// was coalesced into it, and replaced otherwise.
pub open spec fn committed(
    d: DebouncerView,
    title: Seq<char>,
    body: Seq<char>,
    msg_id: i64,
    now: u64,
) -> DebouncerView {
    DebouncerView {
        timeout: d.timeout,
        slot: Some(
            if coalesces(d, title, now) {
                DebounceSlot {
                    id: d.slot->0.id,
                    sent_at: now,
                    title,
                    body: d.slot->0.body.push(body),
                }
            } else {
                DebounceSlot { id: msg_id, sent_at: now, title, body: seq![body] }
            },
        ),
    }
}

struct LastMessage {
    id: i64,
    sent_at: u64,
    title: String,
    body: Vec<String>,
}

impl LastMessage {
    spec fn view(&self) -> DebounceSlot {
        DebounceSlot {
            id: self.id,
            sent_at: self.sent_at,
            title: self.title@,
            body: self.body.deep_view(),
        }
    }

    fn new(id: i64, title: String, body: String, now: u64) -> (r: LastMessage)
        ensures
            r.view() == (DebounceSlot { id, sent_at: now, title: title@, body: seq![body@] }),
    {
        let mut lines: Vec<String> = Vec::new();
        lines.push(body);
        let r = LastMessage { id, sent_at: now, title, body: lines };
        assert(r.view().body =~= seq![body@]);
        r
    }
}

/// What to do with a record: send it as a new message, or edit the message
/// that was sent last so that it shows the accumulated lines.
#[derive(Debug, PartialEq, Eq)]
pub enum Debounce<'a> {
    NewMessage(&'a LogRecord),
    EditMessage { id: i64, title: String, body: Vec<String> },
}

/// Coalesces bursts of records with one title into one outbound message.
/// Only the message that was sent last can be amended.
pub struct Debouncer {
    timeout: u64,
    last_message: Option<LastMessage>,
}

impl View for Debouncer {
    type V = DebouncerView;

    closed spec fn view(&self) -> DebouncerView {
        DebouncerView {
            timeout: self.timeout,
            slot: match self.last_message {
                Some(m) => Some(m.view()),
                None => None,
            },
        }
    }
}

impl Debouncer {
    /// A debouncer that keeps a message open for `timeout` seconds.
    pub fn new(timeout: u64) -> (r: Debouncer)
        ensures
            r@.timeout == timeout,
            r@.slot is None,
    {
        Debouncer { timeout, last_message: None }
    }

    fn within_timeout(&self, sent_at: u64, now: u64) -> (r: bool)
        ensures
            r == (elapsed_ms(sent_at, now) < self.timeout * 1000),
    {
        let elapsed: u64 = if now >= sent_at {
            now - sent_at
        } else {
            0
        };
        let t = self.timeout;
        assert((elapsed / 1000 < t) == (elapsed < t * 1000)) by (nonlinear_arith);
        elapsed / 1000 < t
    }

    /// Decides, at time `now` (milliseconds), how `record` is to be sent.
    pub fn debounce<'d>(&self, record: &'d LogRecord, now: u64) -> (r: Debounce<'d>)
        ensures
            coalesces(self@, record.title@, now) ==> (r matches Debounce::EditMessage {
                id,
                title,
                body,
            } && id == self@.slot->0.id && title@ == record.title@ && body.deep_view()
                == self@.slot->0.body.push(record.body@)),
            !coalesces(self@, record.title@, now) ==> r == Debounce::NewMessage(record),
    {
        match &self.last_message {
            Some(last) => {
                let title_matches = last.title == record.title;
                if title_matches && self.within_timeout(last.sent_at, now) {
                    let mut full_body = last.body.clone();
                    full_body.push(record.body.clone());
                    assert(full_body.deep_view() =~= last.view().body.push(record.body@));
                    Debounce::EditMessage { id: last.id, title: record.title.clone(), body: full_body }
                } else {
                    Debounce::NewMessage(record)
                }
            },
            None => Debounce::NewMessage(record),
        }
    }

    /// Records that `record` went out at time `now` (milliseconds), as message
    /// `msg_id` or as an amendment of the message that was sent last.
    pub fn on_message_sent(&mut self, record: LogRecord, msg_id: i64, now: u64)
        ensures
            final(self)@ == committed(old(self)@, record.title@, record.body@, msg_id, now),
    {
        let extend = match &self.last_message {
            Some(last) => last.title == record.title && self.within_timeout(last.sent_at, now),
            None => false,
        };
        if extend {
            match &mut self.last_message {
                Some(last) => {
                    let ghost before = last.view();
                    last.body.push(record.body);
                    last.sent_at = now;
                    assert(last.body.deep_view() =~= before.body.push(record.body@));
                },
                None => {},
            }
        } else {
            self.set_last_message(record, msg_id, now);
        }
    }

    fn set_last_message(&mut self, record: LogRecord, msg_id: i64, now: u64)
        ensures
            final(self)@.timeout == old(self)@.timeout,
            final(self)@.slot == Some(
                DebounceSlot { id: msg_id, sent_at: now, title: record.title@, body: seq![record.body@] },
            ),
    {
        let last_message = LastMessage::new(msg_id, record.title, record.body, now);
        self.last_message = Some(last_message);
    }
}

/// Once a record has gone out, the next record is coalesced into its message
/// exactly when it has the same title and comes before the timeout has
/// passed; a new title, or a late record, starts a new message. Coalesced
/// lines accumulate in order.
pub proof fn lemma_commit_then_debounce(
    d: DebouncerView,
    title: Seq<char>,
    body: Seq<char>,
    msg_id: i64,
    sent_at: u64,
    next_title: Seq<char>,
    now: u64,
)
    ensures
        coalesces(committed(d, title, body, msg_id, sent_at), next_title, now) <==> (next_title
            == title && elapsed_ms(sent_at, now) < d.timeout * 1000),
        committed(d, title, body, msg_id, sent_at).slot->0.body.last() == body,
        !coalesces(d, title, sent_at) ==> committed(d, title, body, msg_id, sent_at).slot->0
            == (DebounceSlot { id: msg_id, sent_at, title, body: seq![body] }),
{
}

} // verus!
