//! The values that the registry stores and hands out.

use crate::host::address_key;
use crate::host::same_env;
use crate::model::RecordView;
use crate::model::StatsView;
use soroban_sdk::Address;
use soroban_sdk::Env;
use vstd::prelude::*;

verus! {

/// One user's presence at one event.
#[derive(Debug)]
pub struct AttendanceRecord {
    pub user_address: Address,
    pub timestamp: u64,
    pub event_id: u64,
    pub is_present: bool,
}

impl View for AttendanceRecord {
    type V = RecordView;

    open spec fn view(&self) -> RecordView {
        RecordView {
            user: address_key(self.user_address),
            timestamp: self.timestamp,
            event_id: self.event_id,
            is_present: self.is_present,
        }
    }
}

impl Clone for AttendanceRecord {
    fn clone(&self) -> (copy: Self)
        ensures
            copy@ == self@,
            forall|env: Env| #[trigger]
                same_env(copy.user_address, env) == same_env(self.user_address, env),
    {
        AttendanceRecord {
            user_address: self.user_address.clone(),
            timestamp: self.timestamp,
            event_id: self.event_id,
            is_present: self.is_present,
        }
    }
}

/// Running totals of the registry.
#[derive(Clone, Copy, Debug, PartialEq, Eq, Structural)]
pub struct AttendanceStats {
    pub total_attendees: u64,
    pub total_events: u64,
}

impl View for AttendanceStats {
    type V = StatsView;

    open spec fn view(&self) -> StatsView {
        StatsView {
            total_attendees: self.total_attendees as nat,
            total_events: self.total_events as nat,
        }
    }
}

/// The key under which a record is stored: the user and the event.
pub enum AttendanceBook {
    Record(Address, u64),
}

impl AttendanceBook {
    /// The user in the key.
    pub open spec fn address(self) -> Address {
        match self {
            AttendanceBook::Record(user, _) => user,
        }
    }
}

impl View for AttendanceBook {
    type V = (Seq<u8>, u64);

    open spec fn view(&self) -> (Seq<u8>, u64) {
        match self {
            AttendanceBook::Record(user, event_id) => (address_key(*user), *event_id),
        }
    }
}

} // verus!
