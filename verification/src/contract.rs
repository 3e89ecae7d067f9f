//! The four operations of the attendance registry.
//!
//! Each operation is called from inside an invocation of the contract, after
//! the caller's authorization was checked. It reads and writes the instance
//! storage behind `env`, and its contract says which transition of
//! [`Registry`](crate::model::Registry) it made there.

use crate::host::address_key;
use crate::host::extend_instance_ttl;
use crate::host::instance_ttl;
use crate::host::ledger_time;
use crate::host::ledger_timestamp;
use crate::host::max_ttl;
use crate::host::read_record;
use crate::host::read_stats;
use crate::host::ready;
use crate::host::registry;
use crate::host::same_env;
use crate::host::same_host;
use crate::host::write_record;
use crate::host::write_stats;
use crate::model::extended_ttl;
use crate::model::present_record;
use crate::types::AttendanceBook;
use crate::types::AttendanceRecord;
use crate::types::AttendanceStats;
use soroban_sdk::Address;
use soroban_sdk::Env;
use vstd::prelude::*;

verus! {

/// A retention window of this many ledgers or fewer is extended after a write.
pub const TTL_THRESHOLD: u32 = 5000;

/// The retention window that a write extends to.
pub const TTL_EXTEND_TO: u32 = 5000;

/// Whether the storage behind `after` is kept as long as a write asks for:
/// the window that `before` had, extended by the registry's two constants.
pub open spec fn window_extended(before: Env, after: Env) -> bool {
    instance_ttl(after) == extended_ttl(
        instance_ttl(before),
        max_ttl(before),
        TTL_THRESHOLD,
        TTL_EXTEND_TO,
    )
}

/// Whether the registry and its retention window are in `after` as they were
/// in `before`.
pub open spec fn untouched(before: Env, after: Env) -> bool {
    &&& registry(after) == registry(before)
    &&& instance_ttl(after) == instance_ttl(before)
}

/// The attendance registry of one contract.
pub struct AttendanceContract;

impl AttendanceContract {
    /// The totals: what was stored, or zeros while nothing was.
    pub fn get_stats(env: &Env) -> (stats: AttendanceStats)
        requires
            ready(*env),
        ensures
            stats@ == registry(*env).stats(),
    {
        match read_stats(env) {
            Some(totals) => AttendanceStats { total_attendees: totals.0, total_events: totals.1 },
            None => AttendanceStats { total_attendees: 0, total_events: 0 },
        }
    }

    /// The record of `user` at `event_id`: the stored one, or, where none is
    /// stored, one that says "not present" at time zero for the same user and
    /// event.
    pub fn get_attendance(env: &Env, user: Address, event_id: u64) -> (record: AttendanceRecord)
        requires
            ready(*env),
            same_env(user, *env),
        ensures
            record@ == registry(*env).attendance(address_key(user), event_id),
            same_env(record.user_address, *env),
    {
        let key = AttendanceBook::Record(user.clone(), event_id);
        match read_record(env, &key) {
            Some(fields) => AttendanceRecord {
                user_address: fields.0,
                timestamp: fields.1,
                event_id: fields.2,
                is_present: fields.3,
            },
            None => AttendanceRecord { user_address: user, timestamp: 0, event_id, is_present: false },
        }
    }

    /// Stores `record`, the record of a first marking, under `key`, counts it,
    /// and extends the retention window.
    fn store_marking(env: &mut Env, key: &AttendanceBook, record: &AttendanceRecord)
        requires
            ready(*old(env)),
            same_env(key.address(), *old(env)),
            same_env(record.user_address, *old(env)),
            !registry(*old(env)).is_marked(key@.0, key@.1),
            registry(*old(env)).total_attendees < u64::MAX,
            record@ == present_record(key@.0, key@.1, record.timestamp),
        ensures
            ready(*final(env)),
            same_host(*old(env), *final(env)),
            registry(*final(env)) == registry(*old(env)).mark(key@.0, key@.1, record.timestamp),
            window_extended(*old(env), *final(env)),
    {
        let mut stats = Self::get_stats(env);
        stats.total_attendees = stats.total_attendees + 1;
        write_record(env, key, record);
        write_stats(env, stats.total_attendees, stats.total_events);
        extend_instance_ttl(env, TTL_THRESHOLD, TTL_EXTEND_TO);
    }

    /// Marks `user` present at `event_id` at the ledger time `timestamp`.
    ///
    /// A first marking stores the record, adds one to the attendee total,
    /// extends the retention window and gives `true`. A repeated one gives
    /// `false` and changes nothing.
    pub fn mark_attendance_at(env: &mut Env, user: Address, event_id: u64, timestamp: u64) -> (marked:
        bool)
        requires
            ready(*old(env)),
            same_env(user, *old(env)),
            !registry(*old(env)).is_marked(address_key(user), event_id) ==> registry(
                *old(env),
            ).total_attendees < u64::MAX,
        ensures
            ready(*final(env)),
            same_host(*old(env), *final(env)),
            marked == !registry(*old(env)).is_marked(address_key(user), event_id),
            registry(*final(env)) == registry(*old(env)).mark(address_key(user), event_id, timestamp),
            marked ==> window_extended(*old(env), *final(env)),
            !marked ==> untouched(*old(env), *final(env)),
    {
        let key = AttendanceBook::Record(user.clone(), event_id);
        if read_record(env, &key).is_some() {
            return false;
        }
        let record = AttendanceRecord { user_address: user, timestamp, event_id, is_present: true };
        Self::store_marking(env, &key, &record);
        true
    }

    /// Marks `user` present at `event_id` at the current ledger time.
    ///
    /// A first marking stores the record with the ledger's time, adds one to
    /// the attendee total, extends the retention window and gives `true`. A
    /// repeated one gives `false` and changes nothing.
    pub fn mark_attendance(env: &mut Env, user: Address, event_id: u64) -> (marked: bool)
        requires
            ready(*old(env)),
            same_env(user, *old(env)),
            !registry(*old(env)).is_marked(address_key(user), event_id) ==> registry(
                *old(env),
            ).total_attendees < u64::MAX,
        ensures
            ready(*final(env)),
            same_host(*old(env), *final(env)),
            marked == !registry(*old(env)).is_marked(address_key(user), event_id),
            registry(*final(env)) == registry(*old(env)).mark(
                address_key(user),
                event_id,
                ledger_time(*old(env)),
            ),
            marked ==> window_extended(*old(env), *final(env)),
            !marked ==> untouched(*old(env), *final(env)),
    {
        let timestamp = ledger_timestamp(env);
        Self::mark_attendance_at(env, user, event_id, timestamp)
    }

    /// Marks `user` present at `event_id` as [`Self::mark_attendance`] does,
    /// unless the attendee total has no room for one more: then it gives
    /// `None` and changes nothing.
    pub fn try_mark_attendance(env: &mut Env, user: Address, event_id: u64) -> (outcome: Option<
        bool,
    >)
        requires
            ready(*old(env)),
            same_env(user, *old(env)),
        ensures
            ready(*final(env)),
            same_host(*old(env), *final(env)),
            outcome.is_none() == (!registry(*old(env)).is_marked(address_key(user), event_id)
                && registry(*old(env)).total_attendees == u64::MAX),
            outcome.is_none() ==> untouched(*old(env), *final(env)),
            outcome matches Some(marked) ==> {
                &&& marked == !registry(*old(env)).is_marked(address_key(user), event_id)
                &&& registry(*final(env)) == registry(*old(env)).mark(
                    address_key(user),
                    event_id,
                    ledger_time(*old(env)),
                )
                &&& marked ==> window_extended(*old(env), *final(env))
                &&& !marked ==> untouched(*old(env), *final(env))
            },
    {
        let key = AttendanceBook::Record(user.clone(), event_id);
        if read_record(env, &key).is_none() && Self::get_stats(env).total_attendees == u64::MAX {
            return None;
        }
        Some(Self::mark_attendance(env, user, event_id))
    }

    /// Registers a new event and gives its identifier: one more than the
    /// number of events registered before. Any `admin` may register; who it is
    /// changes nothing.
    #[allow(unused_variables)]
    pub fn register_event(env: &mut Env, admin: Address) -> (event_id: u64)
        requires
            ready(*old(env)),
            registry(*old(env)).total_events < u64::MAX,
        ensures
            ready(*final(env)),
            same_host(*old(env), *final(env)),
            event_id == registry(*old(env)).next_event_id(),
            registry(*final(env)) == registry(*old(env)).register(),
            window_extended(*old(env), *final(env)),
    {
        let mut stats = Self::get_stats(env);
        stats.total_events = stats.total_events + 1;
        let event_id = stats.total_events;
        write_stats(env, stats.total_attendees, stats.total_events);
        extend_instance_ttl(env, TTL_THRESHOLD, TTL_EXTEND_TO);
        event_id
    }

    /// Registers a new event as [`Self::register_event`] does, unless the
    /// event total has no room for one more: then it gives `None` and changes
    /// nothing.
    pub fn try_register_event(env: &mut Env, admin: Address) -> (outcome: Option<u64>)
        requires
            ready(*old(env)),
        ensures
            ready(*final(env)),
            same_host(*old(env), *final(env)),
            outcome.is_none() == (registry(*old(env)).total_events == u64::MAX),
            outcome.is_none() ==> untouched(*old(env), *final(env)),
            outcome matches Some(event_id) ==> {
                &&& event_id == registry(*old(env)).next_event_id()
                &&& registry(*final(env)) == registry(*old(env)).register()
                &&& window_extended(*old(env), *final(env))
            },
    {
        if Self::get_stats(env).total_events == u64::MAX {
            return None;
        }
        Some(Self::register_event(env, admin))
    }
}

} // verus!
