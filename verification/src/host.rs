//! The ledger host, as far as the registry uses it.
//!
//! The registry lives in the instance storage of the contract that `Env` is
//! running. Verus cannot look into `Env`, so what the storage holds gets names
//! here, and each host call that the registry makes gets a small function whose
//! contract says, over those names, what the call does. Nothing in this file is
//! proved: it is what the rest of the crate rests on.
//!
//! The records stand under the key `("Record", user, event)` as the tuple
//! `(user, timestamp, event, present)`, and the totals under the key `"STATS"`
//! as the tuple `(attendees, events)`. This layout is the registry's own. A
//! storage that holds anything else under these keys, such as a record written
//! as a map by field name, is not `registry_shaped`: reading it would panic,
//! and every operation leaves it out by `requires`.
//!
//! The host may end an invocation at any call, when its budget runs out. Such a
//! call does not return, and the host drops what the invocation wrote. The
//! contracts here speak of the calls that return.

use crate::model::RecordView;
use crate::model::Registry;
use crate::model::extended_ttl;
use crate::types::AttendanceBook;
use crate::types::AttendanceRecord;
use soroban_sdk::Address;
use soroban_sdk::Env;
use soroban_sdk::Symbol;
use vstd::prelude::*;

verus! {

#[verifier::external_type_specification]
#[verifier::external_body]
pub struct ExEnv(soroban_sdk::Env);

#[verifier::external_type_specification]
#[verifier::external_body]
pub struct ExAddress(soroban_sdk::Address);

/// The text that names an address: its strkey, as `Address::to_string` gives
/// it. Two addresses with the same text are the same account or contract, and
/// the host files what is stored for them under the same key.
pub uninterp spec fn address_key(address: Address) -> Seq<u8>;

/// Whether `address` is a handle of the environment `env`: whether
/// `Address::env` of it and `env` are one host, as `Env::is_same_env` tells
/// it. A handle of another environment means nothing to `env`.
pub uninterp spec fn same_env(address: Address, env: Env) -> bool;

/// Whether `env` is inside an invocation of a contract, as `Env::in_contract`
/// tells it. Outside of one there is no instance storage, and every call to it
/// panics.
pub uninterp spec fn in_contract(env: Env) -> bool;

/// Whether what the instance storage of the running contract holds under the
/// registry's keys has the registry's shape: under each key `("Record",
/// address, u64)` a vector of an address, two `u64` and a `bool`, and under
/// `"STATS"`, if anything, a vector of two `u64`. Only then does `Instance::get`
/// read these keys without a panic.
pub uninterp spec fn registry_shaped(env: Env) -> bool;

/// The attendance records in the instance storage of the running contract, by
/// the user's address text and the event.
pub uninterp spec fn stored_records(env: Env) -> Map<(Seq<u8>, u64), RecordView>;

/// The totals in the instance storage of the running contract, attendees
/// first, or `None` while none were written.
pub uninterp spec fn stored_stats(env: Env) -> Option<(u64, u64)>;

/// The close time of the ledger that `env` is on: what `Ledger::timestamp`
/// gives. The host holds it fixed for the whole invocation.
pub uninterp spec fn ledger_time(env: Env) -> u64;

/// For how many more ledgers the host keeps the contract instance, the current
/// one not counted: what `get_ttl` of the instance storage gives.
pub uninterp spec fn instance_ttl(env: Env) -> u32;

/// The longest such window that the network allows: what `Storage::max_ttl`
/// gives.
pub uninterp spec fn max_ttl(env: Env) -> u32;

/// Whether the registry can be read and written through `env`: a contract is
/// running, and its storage has the registry's shape.
pub open spec fn ready(env: Env) -> bool {
    in_contract(env) && registry_shaped(env)
}

/// The registry that `env` stores. Totals that were never written count as
/// zero.
pub open spec fn registry(env: Env) -> Registry {
    Registry {
        records: stored_records(env),
        total_attendees: match stored_stats(env) {
            Some(totals) => totals.0 as nat,
            None => 0,
        },
        total_events: match stored_stats(env) {
            Some(totals) => totals.1 as nat,
            None => 0,
        },
    }
}

/// What no call to the storage changes: the invocation goes on, on the same
/// ledger with the same time and the same limit on retention, and every
/// address belongs to the environment it belonged to.
pub open spec fn same_host(before: Env, after: Env) -> bool {
    &&& in_contract(after) == in_contract(before)
    &&& ledger_time(after) == ledger_time(before)
    &&& max_ttl(after) == max_ttl(before)
    &&& forall|address: Address| #[trigger]
        same_env(address, after) == same_env(address, before)
}

/// What a write to the storage leaves alone: the host, and the retention
/// window.
pub open spec fn same_window(before: Env, after: Env) -> bool {
    &&& same_host(before, after)
    &&& instance_ttl(after) == instance_ttl(before)
}

/// `Address::clone` hands back a handle to the same address in the same
/// environment.
pub assume_specification[ <Address as Clone>::clone ](address: &Address) -> (copy: Address)
    ensures
        address_key(copy) == address_key(*address),
        forall|env: Env| #[trigger] same_env(copy, env) == same_env(*address, env),
;

/// `Instance::get` under the key of a record. It finds a record exactly when
/// one was stored for the user and the event, and hands back its four fields:
/// user, timestamp, event, present. The user it hands back is a handle of
/// `env`.
#[verifier::external_body]
pub(crate) fn read_record(env: &Env, key: &AttendanceBook) -> (found: Option<
    (Address, u64, u64, bool),
>)
    requires
        in_contract(*env),
        registry_shaped(*env),
        same_env(key.address(), *env),
    ensures
        found.is_some() == stored_records(*env).contains_key(key@),
        found matches Some(fields) ==> stored_records(*env)[key@] == (RecordView {
            user: address_key(fields.0),
            timestamp: fields.1,
            event_id: fields.2,
            is_present: fields.3,
        }),
        found matches Some(fields) ==> same_env(fields.0, *env),
{
    let AttendanceBook::Record(user, event_id) = key;
    env.storage().instance().get(&(Symbol::new(env, "Record"), user.clone(), *event_id))
}

/// `Instance::set` under the key of a record. Afterwards the storage holds
/// `record` under `key`, whatever stood there before, and everything else as
/// it was; a storage that had the registry's shape still has it.
#[verifier::external_body]
pub(crate) fn write_record(env: &mut Env, key: &AttendanceBook, record: &AttendanceRecord)
    requires
        in_contract(*old(env)),
        same_env(key.address(), *old(env)),
        same_env(record.user_address, *old(env)),
    ensures
        stored_records(*final(env)) == stored_records(*old(env)).insert(key@, record@),
        stored_stats(*final(env)) == stored_stats(*old(env)),
        registry_shaped(*old(env)) ==> registry_shaped(*final(env)),
        same_window(*old(env), *final(env)),
{
    let AttendanceBook::Record(user, event_id) = key;
    let fields = (record.user_address.clone(), record.timestamp, record.event_id, record.is_present);
    env.storage().instance().set(&(Symbol::new(env, "Record"), user.clone(), *event_id), &fields);
}

/// `Instance::get` under the key of the totals: what was last written there,
/// attendees first, or `None`.
#[verifier::external_body]
pub(crate) fn read_stats(env: &Env) -> (found: Option<(u64, u64)>)
    requires
        in_contract(*env),
        registry_shaped(*env),
    ensures
        found == stored_stats(*env),
{
    env.storage().instance().get(&Symbol::new(env, "STATS"))
}

/// `Instance::set` under the key of the totals. Afterwards the storage holds
/// the two numbers there, and everything else as it was; a storage that had
/// the registry's shape still has it.
#[verifier::external_body]
pub(crate) fn write_stats(env: &mut Env, total_attendees: u64, total_events: u64)
    requires
        in_contract(*old(env)),
    ensures
        stored_stats(*final(env)) == Some((total_attendees, total_events)),
        stored_records(*final(env)) == stored_records(*old(env)),
        registry_shaped(*old(env)) ==> registry_shaped(*final(env)),
        same_window(*old(env), *final(env)),
{
    env.storage().instance().set(&Symbol::new(env, "STATS"), &(total_attendees, total_events));
}

/// `Instance::extend_ttl`. The host refuses a threshold above `extend_to`.
/// Otherwise it leaves a retention window of more than `threshold` ledgers as
/// it is, and raises a shorter one to `extend_to`, or to the network's limit
/// where that is less. What is stored stays as it was.
#[verifier::external_body]
pub(crate) fn extend_instance_ttl(env: &mut Env, threshold: u32, extend_to: u32)
    requires
        in_contract(*old(env)),
        threshold <= extend_to,
    ensures
        instance_ttl(*final(env)) == extended_ttl(
            instance_ttl(*old(env)),
            max_ttl(*old(env)),
            threshold,
            extend_to,
        ),
        in_contract(*final(env)),
        same_host(*old(env), *final(env)),
        registry_shaped(*final(env)) == registry_shaped(*old(env)),
        stored_records(*final(env)) == stored_records(*old(env)),
        stored_stats(*final(env)) == stored_stats(*old(env)),
{
    env.storage().instance().extend_ttl(threshold, extend_to);
}

/// `Ledger::timestamp`: the close time of the ledger that `env` is on.
#[verifier::external_body]
pub(crate) fn ledger_timestamp(env: &Env) -> (timestamp: u64)
    requires
        in_contract(*env),
    ensures
        timestamp == ledger_time(*env),
{
    env.ledger().timestamp()
}

} // verus!
