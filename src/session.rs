//! The negotiated long-poll session and the rules that keep it usable: what
//! each poll response does to the session, and which renegotiation it asks for.
use vstd::prelude::*;

verus! {

/// One event of the stream, with its payload of type `T`.
#[derive(Debug)]
pub struct Event<T> {
    /// The kind of event (for example `message_new`).
    pub update_type: String,
    /// The event's unique identifier.
    pub event_id: String,
    /// The API version the event is written for.
    pub v: String,
    /// The payload.
    pub object: T,
}

/// The negotiated connection: server, key and cursor (`ts`).
#[derive(Debug)]
pub struct LongPollSession {
    /// The secret key of the session.
    pub key: String,
    /// The server to poll.
    pub server: String,
    /// The cursor: the position in the event stream to poll from.
    pub ts: String,
}

/// A poll response as the server sends it.
#[derive(Debug)]
pub struct LongPollResponse<T> {
    /// The new cursor.
    pub ts: Option<String>,
    /// The events that occurred.
    pub updates: Option<Vec<Event<T>>>,
    /// A failure code: 1 history gap, 2 key expired, 3 session lost.
    pub failed: Option<i32>,
}

/// What one poll came to.
#[derive(Debug)]
pub enum PollOutcome<T> {
    /// A batch of events, with the cursor to continue from if the server gave one.
    Updates { ts: Option<String>, updates: Vec<Event<T>> },
    /// Part of the history is lost; polling goes on from the corrected cursor.
    HistoryGap { new_ts: String },
    /// The key has expired; server and key must be negotiated again.
    KeyExpired,
    /// The session is lost; server, key and cursor must be negotiated again.
    InformationLost,
    /// The request failed or its answer could not be read.
    TransportError,
}

/// The renegotiation that a failed poll asks for.
#[derive(Clone, Copy, Debug, PartialEq, Eq, Structural)]
pub enum Recovery {
    /// Replace server and key, keep the cursor.
    KeyExpired,
    /// Replace server, key and cursor.
    InformationLost,
}

/// What the polling loop does next.
#[derive(Debug)]
pub enum Step<T> {
    /// Hand these events to the dispatcher, then poll again.
    Dispatch(Vec<Event<T>>),
    /// Poll again with the session as it now is.
    Poll,
    /// Negotiate a new session, apply it with `recover`, then poll again.
    Renegotiate(Recovery),
}

/// The events that a response holds, none where it holds no list.
pub open spec fn updates_of<T>(updates: Option<Vec<Event<T>>>) -> Seq<Event<T>> {
    match updates {
        Some(u) => u@,
        None => Seq::empty(),
    }
}

impl<T> LongPollResponse<T> {
    /// Classifies a response by its failure code. A history gap without a new
    /// cursor is unreadable and counts as a transport error; codes other than
    /// 1, 2 and 3 are read as a batch.
    pub fn outcome(self) -> (r: PollOutcome<T>)
        ensures
            self.failed == Some(1i32) && self.ts is Some ==> r == (PollOutcome::<T>::HistoryGap {
                new_ts: self.ts->0,
            }),
            self.failed == Some(1i32) && self.ts is None ==> r is TransportError,
            self.failed == Some(2i32) ==> r is KeyExpired,
            self.failed == Some(3i32) ==> r is InformationLost,
            self.failed != Some(1i32) && self.failed != Some(2i32) && self.failed != Some(3i32)
                ==> (r matches PollOutcome::Updates { ts, updates } && ts == self.ts && updates@
                == updates_of(self.updates)),
    {
        match self.failed {
            Some(1) => match self.ts {
                Some(ts) => PollOutcome::HistoryGap { new_ts: ts },
                None => PollOutcome::TransportError,
            },
            Some(2) => PollOutcome::KeyExpired,
            Some(3) => PollOutcome::InformationLost,
            _ => {
                let updates = match self.updates {
                    Some(u) => u,
                    None => Vec::new(),
                };
                PollOutcome::Updates { ts: self.ts, updates }
            },
        }
    }
}

impl LongPollSession {
    /// Applies what a poll came to. A batch moves the cursor (when the server
    /// gave one) and is handed on; a history gap replaces the cursor alone; an
    /// expired key or a lost session leave the session as it is and ask for a
    /// renegotiation; a transport error changes nothing.
    pub fn advance<T>(&mut self, outcome: PollOutcome<T>) -> (step: Step<T>)
        ensures
            match outcome {
                PollOutcome::Updates { ts, updates } => {
                    &&& step matches Step::Dispatch(events) && events == updates
                    &&& final(self).key == old(self).key
                    &&& final(self).server == old(self).server
                    &&& final(self).ts == match ts {
                        Some(t) => t,
                        None => old(self).ts,
                    }
                },
                PollOutcome::HistoryGap { new_ts } => {
                    &&& step is Poll
                    &&& final(self).key == old(self).key
                    &&& final(self).server == old(self).server
                    &&& final(self).ts == new_ts
                },
                PollOutcome::KeyExpired => {
                    &&& step == Step::<T>::Renegotiate(Recovery::KeyExpired)
                    &&& *final(self) == *old(self)
                },
                PollOutcome::InformationLost => {
                    &&& step == Step::<T>::Renegotiate(Recovery::InformationLost)
                    &&& *final(self) == *old(self)
                },
                PollOutcome::TransportError => {
                    &&& step is Poll
                    &&& *final(self) == *old(self)
                },
            },
    {
        match outcome {
            PollOutcome::Updates { ts, updates } => {
                if let Some(t) = ts {
                    self.ts = t;
                }
                Step::Dispatch(updates)
            },
            PollOutcome::HistoryGap { new_ts } => {
                self.ts = new_ts;
                Step::Poll
            },
            PollOutcome::KeyExpired => Step::Renegotiate(Recovery::KeyExpired),
            PollOutcome::InformationLost => Step::Renegotiate(Recovery::InformationLost),
            PollOutcome::TransportError => Step::Poll,
        }
    }

    /// Applies a freshly negotiated session. After an expired key only server
    /// and key are taken from it and the cursor is kept; after a lost session
    /// all three are taken.
    pub fn recover(&mut self, recovery: Recovery, fresh: LongPollSession)
        ensures
            final(self).key == fresh.key,
            final(self).server == fresh.server,
            recovery == Recovery::KeyExpired ==> final(self).ts == old(self).ts,
            recovery == Recovery::InformationLost ==> final(self).ts == fresh.ts,
    {
        match recovery {
            Recovery::KeyExpired => {
                self.key = fresh.key;
                self.server = fresh.server;
            },
            Recovery::InformationLost => {
                *self = fresh;
            },
        }
    }
}

/// The longest wait, in seconds, between polls after transport errors.
pub const MAX_BACKOFF: u64 = 32;

/// Two to the power `n`.
pub open spec fn pow2(n: nat) -> nat
    decreases n,
{
    if n == 0 {
        1
    } else {
        2 * pow2((n - 1) as nat)
    }
}

proof fn lemma_pow2_grows(a: nat, b: nat)
    requires
        a <= b,
    ensures
        pow2(a) <= pow2(b),
    decreases b - a,
{
    if a < b {
        lemma_pow2_grows(a, (b - 1) as nat);
    }
}

/// How long to wait, in seconds, before polling again after `failures`
/// transport errors in a row: nothing after none, then one second, doubling
/// with each further failure up to `MAX_BACKOFF`.
pub fn backoff_seconds(failures: u32) -> (r: u64)
    ensures
        failures == 0 ==> r == 0,
        failures > 0 ==> r == if pow2((failures - 1) as nat) < MAX_BACKOFF {
            pow2((failures - 1) as nat)
        } else {
            MAX_BACKOFF as nat
        },
{
    if failures == 0 {
        return 0;
    }
    let mut delay: u64 = 1;
    let mut i: u32 = 1;
    while i < failures && delay < MAX_BACKOFF
        invariant
            1 <= i <= failures,
            delay == pow2((i - 1) as nat),
            delay <= 2 * MAX_BACKOFF,
        decreases failures - i,
    {
        delay = delay * 2;
        i = i + 1;
    }
    proof {
        lemma_pow2_grows((i - 1) as nat, (failures - 1) as nat);
    }
    if delay > MAX_BACKOFF {
        MAX_BACKOFF
    } else {
        delay
    }
}

} // verus!
