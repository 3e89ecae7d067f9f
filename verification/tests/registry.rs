//! The registry run against the ledger host, inside a contract registered for
//! the purpose.

use attendance_ledger::AttendanceContract;
use attendance_ledger::AttendanceRecord;
use attendance_ledger::AttendanceStats;
use soroban_sdk::testutils::storage::Instance as _;
use soroban_sdk::testutils::Address as _;
use soroban_sdk::testutils::ContractFunctionSet;
use soroban_sdk::testutils::EnvTestConfig;
use soroban_sdk::testutils::Ledger as _;
use soroban_sdk::Address;
use soroban_sdk::Env;
use soroban_sdk::Symbol;
use soroban_sdk::Val;

/// A contract without entry points: the tests call the library in its frame.
struct Registrar;

impl ContractFunctionSet for Registrar {
    fn call(&self, _func: &str, _env: Env, _args: &[Val]) -> Option<Val> {
        None
    }
}

fn ledger() -> (Env, Address) {
    let env = Env::new_with_config(EnvTestConfig {
        capture_snapshot_at_drop: false,
    });
    let contract = env.register(Registrar, ());
    (env, contract)
}

fn mark(env: &Env, contract: &Address, user: &Address, event_id: u64) -> bool {
    let mut inner = env.clone();
    env.as_contract(contract, || {
        AttendanceContract::mark_attendance(&mut inner, user.clone(), event_id)
    })
}

fn mark_at(env: &Env, contract: &Address, user: &Address, event_id: u64, timestamp: u64) -> bool {
    let mut inner = env.clone();
    env.as_contract(contract, || {
        AttendanceContract::mark_attendance_at(&mut inner, user.clone(), event_id, timestamp)
    })
}

fn try_mark(env: &Env, contract: &Address, user: &Address, event_id: u64) -> Option<bool> {
    let mut inner = env.clone();
    env.as_contract(contract, || {
        AttendanceContract::try_mark_attendance(&mut inner, user.clone(), event_id)
    })
}

fn register(env: &Env, contract: &Address, admin: &Address) -> u64 {
    let mut inner = env.clone();
    env.as_contract(contract, || {
        AttendanceContract::register_event(&mut inner, admin.clone())
    })
}

fn try_register(env: &Env, contract: &Address, admin: &Address) -> Option<u64> {
    let mut inner = env.clone();
    env.as_contract(contract, || {
        AttendanceContract::try_register_event(&mut inner, admin.clone())
    })
}

fn stats(env: &Env, contract: &Address) -> AttendanceStats {
    env.as_contract(contract, || AttendanceContract::get_stats(env))
}

fn attendance(env: &Env, contract: &Address, user: &Address, event_id: u64) -> AttendanceRecord {
    env.as_contract(contract, || {
        AttendanceContract::get_attendance(env, user.clone(), event_id)
    })
}

fn ttl(env: &Env, contract: &Address) -> u32 {
    env.as_contract(contract, || env.storage().instance().get_ttl())
}

fn put_stats(env: &Env, contract: &Address, total_attendees: u64, total_events: u64) {
    env.as_contract(contract, || {
        env.storage()
            .instance()
            .set(&Symbol::new(env, "STATS"), &(total_attendees, total_events))
    })
}

fn totals(total_attendees: u64, total_events: u64) -> AttendanceStats {
    AttendanceStats {
        total_attendees,
        total_events,
    }
}

#[test]
fn test_mark_attendance() {
    let (env, contract) = ledger();
    let user = Address::generate(&env);
    let event_id = 1u64;

    let result = mark(&env, &contract, &user, event_id);
    assert_eq!(result, true);

    let result2 = mark(&env, &contract, &user, event_id);
    assert_eq!(result2, false);
}

#[test]
fn scenario_two_users_one_event() {
    let (env, contract) = ledger();
    let alice = Address::generate(&env);
    let bob = Address::generate(&env);
    let admin = Address::generate(&env);

    assert_eq!(mark(&env, &contract, &alice, 1), true);
    assert_eq!(mark(&env, &contract, &alice, 1), false);
    assert_eq!(mark(&env, &contract, &bob, 1), true);
    assert_eq!(stats(&env, &contract), totals(2, 0));
    assert_eq!(register(&env, &contract, &admin), 1);
    assert_eq!(stats(&env, &contract), totals(2, 1));
}

#[test]
fn fresh_registry_has_zero_stats() {
    let (env, contract) = ledger();
    assert_eq!(stats(&env, &contract), totals(0, 0));
}

#[test]
fn second_marking_changes_nothing() {
    let (env, contract) = ledger();
    let user = Address::generate(&env);
    env.ledger().set_timestamp(1_700_000_000);
    assert!(mark(&env, &contract, &user, 9));
    let stored = attendance(&env, &contract, &user, 9);
    let after_first = stats(&env, &contract);

    env.ledger().set_timestamp(1_700_000_500);
    assert!(!mark(&env, &contract, &user, 9));
    let again = attendance(&env, &contract, &user, 9);
    assert_eq!(after_first, totals(1, 0));
    assert_eq!(stats(&env, &contract), totals(1, 0));
    assert_eq!(again.user_address, stored.user_address);
    assert_eq!(again.timestamp, 1_700_000_000);
    assert_eq!(again.event_id, 9);
    assert_eq!(again.is_present, true);
}

#[test]
fn marking_stores_the_ledger_time() {
    let (env, contract) = ledger();
    let user = Address::generate(&env);
    env.ledger().set_timestamp(42_000);
    assert!(mark(&env, &contract, &user, 3));
    let record = attendance(&env, &contract, &user, 3);
    assert_eq!(record.user_address, user);
    assert_eq!(record.timestamp, 42_000);
    assert_eq!(record.event_id, 3);
    assert!(record.is_present);
}

#[test]
fn marking_at_a_given_time_stores_that_time() {
    let (env, contract) = ledger();
    let user = Address::generate(&env);
    env.ledger().set_timestamp(10);
    assert!(mark_at(&env, &contract, &user, 5, 777));
    assert!(!mark_at(&env, &contract, &user, 5, 888));
    let record = attendance(&env, &contract, &user, 5);
    assert_eq!(record.timestamp, 777);
    assert_eq!(record.event_id, 5);
    assert!(record.is_present);
    assert_eq!(stats(&env, &contract), totals(1, 0));
}

#[test]
fn unmarked_pair_reads_as_absent() {
    let (env, contract) = ledger();
    let user = Address::generate(&env);
    let other = Address::generate(&env);
    env.ledger().set_timestamp(5_000);
    assert!(mark(&env, &contract, &other, 7));
    assert!(mark(&env, &contract, &user, 8));

    let record = attendance(&env, &contract, &user, 7);
    assert_eq!(record.user_address, user);
    assert_eq!(record.timestamp, 0);
    assert_eq!(record.event_id, 7);
    assert_eq!(record.is_present, false);
}

#[test]
fn reading_changes_nothing() {
    let (env, contract) = ledger();
    let user = Address::generate(&env);
    let before = ttl(&env, &contract);
    let record = attendance(&env, &contract, &user, 1);
    assert!(!record.is_present);
    assert_eq!(stats(&env, &contract), totals(0, 0));
    assert_eq!(ttl(&env, &contract), before);
    assert!(mark(&env, &contract, &user, 1));
}

#[test]
fn stats_count_markings_and_registrations() {
    let (env, contract) = ledger();
    let admin = Address::generate(&env);
    let users = [
        Address::generate(&env),
        Address::generate(&env),
        Address::generate(&env),
    ];
    assert_eq!(register(&env, &contract, &admin), 1);
    for user in users.iter() {
        assert!(mark(&env, &contract, user, 1));
    }
    assert_eq!(register(&env, &contract, &admin), 2);
    assert!(mark(&env, &contract, &users[0], 2));
    assert_eq!(stats(&env, &contract), totals(4, 2));
}

#[test]
fn event_identifiers_are_dense() {
    let (env, contract) = ledger();
    let admin = Address::generate(&env);
    let other = Address::generate(&env);
    assert_eq!(register(&env, &contract, &admin), 1);
    assert_eq!(register(&env, &contract, &other), 2);
    assert!(mark(&env, &contract, &other, 2));
    assert_eq!(register(&env, &contract, &admin), 3);
    assert_eq!(stats(&env, &contract), totals(1, 3));
}

#[test]
fn stored_record_survives_later_requests() {
    let (env, contract) = ledger();
    let alice = Address::generate(&env);
    let bob = Address::generate(&env);
    env.ledger().set_timestamp(100);
    assert!(mark(&env, &contract, &alice, 1));

    env.ledger().set_timestamp(200);
    assert!(mark(&env, &contract, &bob, 1));
    assert!(mark(&env, &contract, &alice, 2));
    assert_eq!(register(&env, &contract, &bob), 1);
    assert!(!mark(&env, &contract, &alice, 1));

    let record = attendance(&env, &contract, &alice, 1);
    assert_eq!(record.user_address, alice);
    assert_eq!(record.timestamp, 100);
    assert_eq!(record.event_id, 1);
    assert!(record.is_present);
    assert_eq!(attendance(&env, &contract, &alice, 2).timestamp, 200);
}

#[test]
fn a_copy_of_an_address_names_the_same_user() {
    let (env, contract) = ledger();
    let user = Address::generate(&env);
    let copy = user.clone();
    assert!(mark(&env, &contract, &user, 4));
    assert!(!mark(&env, &contract, &copy, 4));
    assert!(attendance(&env, &contract, &copy, 4).is_present);
}

#[test]
fn an_address_read_from_a_record_marks_the_same_user() {
    let (env, contract) = ledger();
    let user = Address::generate(&env);
    assert!(mark(&env, &contract, &user, 4));
    let stored = attendance(&env, &contract, &user, 4);
    assert!(!mark(&env, &contract, &stored.user_address, 4));
    assert!(mark(&env, &contract, &stored.user_address, 5));
    assert_eq!(attendance(&env, &contract, &user, 5).user_address, user);
    assert_eq!(stats(&env, &contract), totals(2, 0));
}

#[test]
fn events_and_users_are_kept_apart() {
    let (env, contract) = ledger();
    let alice = Address::generate(&env);
    let bob = Address::generate(&env);
    assert!(mark(&env, &contract, &alice, 0));
    assert!(mark(&env, &contract, &alice, u64::MAX));
    assert!(!attendance(&env, &contract, &bob, 0).is_present);
    assert!(!attendance(&env, &contract, &alice, 1).is_present);
    assert!(attendance(&env, &contract, &alice, u64::MAX).is_present);
    assert_eq!(attendance(&env, &contract, &alice, u64::MAX).event_id, u64::MAX);
    assert_eq!(stats(&env, &contract), totals(2, 0));
}

#[test]
fn two_registries_do_not_share_state() {
    let (env, contract) = ledger();
    let second = env.register(Registrar, ());
    let user = Address::generate(&env);
    assert!(mark(&env, &contract, &user, 1));
    assert_eq!(register(&env, &contract, &user), 1);
    assert_eq!(stats(&env, &second), totals(0, 0));
    assert!(mark(&env, &second, &user, 1));
    assert_eq!(stats(&env, &second), totals(1, 0));
    assert_eq!(stats(&env, &contract), totals(1, 1));
}

#[test]
fn record_and_stats_stand_under_their_keys() {
    let (env, contract) = ledger();
    let user = Address::generate(&env);
    env.ledger().set_timestamp(31);
    assert!(mark(&env, &contract, &user, 6));
    assert_eq!(register(&env, &contract, &user), 1);

    let record: Option<(Address, u64, u64, bool)> = env.as_contract(&contract, || {
        env.storage()
            .instance()
            .get(&(Symbol::new(&env, "Record"), user.clone(), 6u64))
    });
    assert_eq!(record, Some((user.clone(), 31, 6, true)));
    let stored: Option<(u64, u64)> = env.as_contract(&contract, || {
        env.storage().instance().get(&Symbol::new(&env, "STATS"))
    });
    assert_eq!(stored, Some((1, 1)));
}

#[test]
fn marking_extends_a_short_retention_window() {
    let (env, contract) = ledger();
    let user = Address::generate(&env);
    assert_eq!(ttl(&env, &contract), 4095);
    assert!(mark(&env, &contract, &user, 1));
    assert_eq!(ttl(&env, &contract), 5000);
}

#[test]
fn registering_extends_a_short_retention_window() {
    let (env, contract) = ledger();
    let admin = Address::generate(&env);
    assert_eq!(ttl(&env, &contract), 4095);
    assert_eq!(register(&env, &contract, &admin), 1);
    assert_eq!(ttl(&env, &contract), 5000);
}

#[test]
fn repeated_marking_does_not_extend_the_window() {
    let (env, contract) = ledger();
    let user = Address::generate(&env);
    assert!(mark(&env, &contract, &user, 1));
    env.ledger().set_sequence_number(1_000);
    assert_eq!(ttl(&env, &contract), 4000);
    assert!(!mark(&env, &contract, &user, 1));
    assert_eq!(ttl(&env, &contract), 4000);
    assert!(mark(&env, &contract, &user, 2));
    assert_eq!(ttl(&env, &contract), 5000);
}

#[test]
fn a_long_retention_window_is_left_alone() {
    let (env, contract) = ledger();
    let user = Address::generate(&env);
    env.as_contract(&contract, || env.storage().instance().extend_ttl(6_000, 6_000));
    assert_eq!(ttl(&env, &contract), 6000);
    assert!(mark(&env, &contract, &user, 1));
    assert_eq!(ttl(&env, &contract), 6000);
}

#[test]
fn the_window_is_extended_to_the_network_limit_at_most() {
    let (env, contract) = ledger();
    let user = Address::generate(&env);
    env.ledger().set_max_entry_ttl(4_500);
    assert_eq!(ttl(&env, &contract), 4095);
    assert!(mark(&env, &contract, &user, 1));
    assert_eq!(ttl(&env, &contract), 4500);
}

#[test]
fn full_attendee_total_refuses_a_new_marking() {
    let (env, contract) = ledger();
    let user = Address::generate(&env);
    let known = Address::generate(&env);
    assert!(mark(&env, &contract, &known, 1));
    put_stats(&env, &contract, u64::MAX, 5);
    let before = ttl(&env, &contract);
    env.ledger().set_sequence_number(10);

    assert_eq!(try_mark(&env, &contract, &user, 1), None);
    assert_eq!(stats(&env, &contract), totals(u64::MAX, 5));
    assert!(!attendance(&env, &contract, &user, 1).is_present);
    assert_eq!(ttl(&env, &contract), before - 10);
    assert_eq!(try_mark(&env, &contract, &known, 1), Some(false));
    assert_eq!(stats(&env, &contract), totals(u64::MAX, 5));
}

#[test]
fn last_free_attendee_slot_is_used() {
    let (env, contract) = ledger();
    let user = Address::generate(&env);
    put_stats(&env, &contract, u64::MAX - 1, 0);
    assert_eq!(try_mark(&env, &contract, &user, 1), Some(true));
    assert_eq!(stats(&env, &contract), totals(u64::MAX, 0));
    assert_eq!(try_mark(&env, &contract, &user, 1), Some(false));
}

#[test]
fn try_mark_marks_like_mark() {
    let (env, contract) = ledger();
    let user = Address::generate(&env);
    env.ledger().set_timestamp(64);
    assert_eq!(try_mark(&env, &contract, &user, 2), Some(true));
    assert_eq!(try_mark(&env, &contract, &user, 2), Some(false));
    assert_eq!(attendance(&env, &contract, &user, 2).timestamp, 64);
    assert_eq!(stats(&env, &contract), totals(1, 0));
    assert_eq!(ttl(&env, &contract), 5000);
}

#[test]
fn full_event_total_refuses_a_registration() {
    let (env, contract) = ledger();
    let admin = Address::generate(&env);
    put_stats(&env, &contract, 3, u64::MAX);
    assert_eq!(try_register(&env, &contract, &admin), None);
    assert_eq!(stats(&env, &contract), totals(3, u64::MAX));
    assert_eq!(ttl(&env, &contract), 4095);
}

#[test]
fn try_register_registers_like_register() {
    let (env, contract) = ledger();
    let admin = Address::generate(&env);
    assert_eq!(try_register(&env, &contract, &admin), Some(1));
    assert_eq!(try_register(&env, &contract, &admin), Some(2));
    put_stats(&env, &contract, 0, u64::MAX - 1);
    assert_eq!(try_register(&env, &contract, &admin), Some(u64::MAX));
    assert_eq!(stats(&env, &contract), totals(0, u64::MAX));
}
