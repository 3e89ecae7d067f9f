//! The registry as a mathematical value, and the transitions on it.
//!
//! Every operation of the contract is one of these transitions, made on what
//! the ledger stores. The transitions never fail and never overflow: the
//! totals are natural numbers here.

use vstd::prelude::*;

verus! {

/// The text that names an account or a contract, and an event number.
pub type RecordKey = (Seq<u8>, u64);

/// One stored attendance record, as plain values.
pub struct RecordView {
    pub user: Seq<u8>,
    pub timestamp: u64,
    pub event_id: u64,
    pub is_present: bool,
}

/// The running totals, as natural numbers.
pub struct StatsView {
    pub total_attendees: nat,
    pub total_events: nat,
}

/// The record that a successful marking stores.
pub open spec fn present_record(user: Seq<u8>, event_id: u64, timestamp: u64) -> RecordView {
    RecordView { user, timestamp, event_id, is_present: true }
}

/// The record that stands for "never marked": nothing stored, time zero.
pub open spec fn absent_record(user: Seq<u8>, event_id: u64) -> RecordView {
    RecordView { user, timestamp: 0, event_id, is_present: false }
}

/// The length of the retention window after an extension was asked for.
///
/// A window of more than `threshold` ledgers is left as it is. A shorter one
/// is raised to `extend_to`, or to `max` where the network allows no more; it
/// is never shortened.
pub open spec fn extended_ttl(current: u32, max: u32, threshold: u32, extend_to: u32) -> u32 {
    let target = if extend_to <= max { extend_to } else { max };
    if current <= threshold && current < target {
        target
    } else {
        current
    }
}

/// Everything the registry holds.
pub struct Registry {
    /// The stored records, by user and event.
    pub records: Map<RecordKey, RecordView>,
    /// How many markings have succeeded.
    pub total_attendees: nat,
    /// How many events were registered; also the last identifier issued.
    pub total_events: nat,
}

impl Registry {
    /// The registry before anything was written.
    pub open spec fn empty() -> Registry {
        Registry { records: Map::empty(), total_attendees: 0, total_events: 0 }
    }

    /// Whether `user` was marked present at `event_id`.
    pub open spec fn is_marked(self, user: Seq<u8>, event_id: u64) -> bool {
        self.records.contains_key((user, event_id))
    }

    /// What a reader is told about `user` at `event_id`.
    pub open spec fn attendance(self, user: Seq<u8>, event_id: u64) -> RecordView {
        if self.is_marked(user, event_id) {
            self.records[(user, event_id)]
        } else {
            absent_record(user, event_id)
        }
    }

    /// The totals.
    pub open spec fn stats(self) -> StatsView {
        StatsView { total_attendees: self.total_attendees, total_events: self.total_events }
    }

    /// The registry after `user` asked to be marked at `event_id` at time
    /// `timestamp`: unchanged if the pair was marked before.
    pub open spec fn mark(self, user: Seq<u8>, event_id: u64, timestamp: u64) -> Registry {
        if self.is_marked(user, event_id) {
            self
        } else {
            Registry {
                records: self.records.insert(
                    (user, event_id),
                    present_record(user, event_id, timestamp),
                ),
                total_attendees: self.total_attendees + 1,
                total_events: self.total_events,
            }
        }
    }

    /// The identifier that the next registration issues.
    pub open spec fn next_event_id(self) -> nat {
        self.total_events + 1
    }

    /// The registry after one more event was registered.
    pub open spec fn register(self) -> Registry {
        Registry {
            records: self.records,
            total_attendees: self.total_attendees,
            total_events: self.total_events + 1,
        }
    }

    /// What holds of every registry that grew from the empty one: each record
    /// lies under its own user and event and says "present", and the attendee
    /// total counts the records.
    pub open spec fn well_formed(self) -> bool {
        &&& self.records.dom().finite()
        &&& self.total_attendees == self.records.dom().len()
        &&& forall|key: RecordKey| #[trigger]
            self.records.contains_key(key) ==> {
                &&& self.records[key].user == key.0
                &&& self.records[key].event_id == key.1
                &&& self.records[key].is_present
            }
    }
}

/// One request made of the registry.
pub enum Request {
    /// A user asks to be marked present at an event, at a ledger time.
    Mark { user: Seq<u8>, event_id: u64, timestamp: u64 },
    /// Someone registers a new event.
    Register,
}

impl Request {
    /// Whether this request marks `user` at `event_id`.
    pub open spec fn marks(self, user: Seq<u8>, event_id: u64) -> bool {
        match self {
            Request::Mark { user: u, event_id: e, timestamp: _ } => u == user && e == event_id,
            Request::Register => false,
        }
    }
}

impl Registry {
    /// The registry after one request.
    pub open spec fn step(self, request: Request) -> Registry {
        match request {
            Request::Mark { user, event_id, timestamp } => self.mark(user, event_id, timestamp),
            Request::Register => self.register(),
        }
    }

    /// The registry after a run of requests, served in order.
    pub open spec fn run(self, requests: Seq<Request>) -> Registry
        decreases requests.len(),
    {
        if requests.len() == 0 {
            self
        } else {
            self.run(requests.drop_last()).step(requests.last())
        }
    }
}

/// How many of `requests` are markings.
pub open spec fn count_marks(requests: Seq<Request>) -> nat
    decreases requests.len(),
{
    if requests.len() == 0 {
        0
    } else {
        let before = count_marks(requests.drop_last());
        match requests.last() {
            Request::Mark { .. } => before + 1,
            Request::Register => before,
        }
    }
}

/// How many of `requests` are registrations.
pub open spec fn count_registrations(requests: Seq<Request>) -> nat
    decreases requests.len(),
{
    if requests.len() == 0 {
        0
    } else {
        let before = count_registrations(requests.drop_last());
        match requests.last() {
            Request::Mark { .. } => before,
            Request::Register => before + 1,
        }
    }
}

/// Whether `first` and `second` are markings of one user at one event.
pub open spec fn same_mark(first: Request, second: Request) -> bool {
    match first {
        Request::Mark { user, event_id, timestamp: _ } => second.marks(user, event_id),
        Request::Register => false,
    }
}

/// Whether no two markings in `requests` name the same user and event.
pub open spec fn no_duplicate_marks(requests: Seq<Request>) -> bool {
    forall|i: int, j: int|
        0 <= i < j < requests.len() ==> !same_mark(#[trigger] requests[i], #[trigger] requests[j])
}

/// Whether some request in `requests` marks `user` at `event_id`.
pub open spec fn has_mark(requests: Seq<Request>, user: Seq<u8>, event_id: u64) -> bool {
    exists|i: int| 0 <= i < requests.len() && (#[trigger] requests[i]).marks(user, event_id)
}

} // verus!
