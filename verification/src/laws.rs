//! What holds of the registry over whole runs of requests.
//!
//! The operations of the contract make the transitions of
//! [`Registry`](crate::model::Registry), so what is proved here of the
//! transitions holds of every sequence of calls.

use crate::model::absent_record;
use crate::model::count_marks;
use crate::model::count_registrations;
use crate::model::has_mark;
use crate::model::no_duplicate_marks;
use crate::model::present_record;
use crate::model::same_mark;
use crate::model::Registry;
use crate::model::Request;
use vstd::prelude::*;

verus! {

/// Marking is idempotent. After a marking the pair is marked, so a second
/// marking is refused and changes nothing; and where the first was not a
/// repetition itself, it added exactly one attendee and stored the record with
/// its own timestamp.
pub proof fn lemma_mark_twice(
    registry: Registry,
    user: Seq<u8>,
    event_id: u64,
    first: u64,
    second: u64,
)
    ensures
        registry.mark(user, event_id, first).is_marked(user, event_id),
        registry.mark(user, event_id, first).mark(user, event_id, second) == registry.mark(
            user,
            event_id,
            first,
        ),
        !registry.is_marked(user, event_id) ==> {
            &&& registry.mark(user, event_id, first).total_attendees == registry.total_attendees + 1
            &&& registry.mark(user, event_id, first).attendance(user, event_id) == present_record(
                user,
                event_id,
                first,
            )
        },
{
}

/// A stored record is never changed: whatever requests follow, the record of
/// a marked pair stays as it was stored.
pub proof fn lemma_record_is_immutable(
    registry: Registry,
    user: Seq<u8>,
    event_id: u64,
    requests: Seq<Request>,
)
    requires
        registry.is_marked(user, event_id),
    ensures
        registry.run(requests).is_marked(user, event_id),
        registry.run(requests).records[(user, event_id)] == registry.records[(user, event_id)],
    decreases requests.len(),
{
    if requests.len() > 0 {
        lemma_record_is_immutable(registry, user, event_id, requests.drop_last());
    }
}

/// A pair is marked after a run exactly if it was marked before or one of the
/// requests marks it.
pub proof fn lemma_marked_by_request(
    registry: Registry,
    user: Seq<u8>,
    event_id: u64,
    requests: Seq<Request>,
)
    ensures
        registry.run(requests).is_marked(user, event_id) <==> registry.is_marked(user, event_id)
            || has_mark(requests, user, event_id),
    decreases requests.len(),
{
    if requests.len() > 0 {
        let earlier = requests.drop_last();
        lemma_marked_by_request(registry, user, event_id, earlier);
        if has_mark(earlier, user, event_id) {
            let i = choose|i: int| 0 <= i < earlier.len() && (#[trigger] earlier[i]).marks(user, event_id);
            assert(requests[i].marks(user, event_id));
        }
        if requests.last().marks(user, event_id) {
            assert(requests[requests.len() - 1].marks(user, event_id));
        }
        if has_mark(requests, user, event_id) {
            let i = choose|i: int|
                0 <= i < requests.len() && (#[trigger] requests[i]).marks(user, event_id);
            if i < earlier.len() {
                assert(earlier[i].marks(user, event_id));
            }
        }
    }
}

/// Reading before any marking gives the "not present" record: in a registry
/// that grew from the empty one by requests of which none marks the pair, the
/// pair reads as absent, at time zero, with the user and event asked for.
pub proof fn lemma_unmarked_reads_absent(requests: Seq<Request>, user: Seq<u8>, event_id: u64)
    requires
        !has_mark(requests, user, event_id),
    ensures
        Registry::empty().run(requests).attendance(user, event_id) == absent_record(user, event_id),
{
    lemma_marked_by_request(Registry::empty(), user, event_id, requests);
}

/// The event total counts the registrations: a run adds to it the number of
/// registrations in the run, whatever registry the run starts from.
pub proof fn lemma_events_count_registrations(start: Registry, requests: Seq<Request>)
    ensures
        start.run(requests).total_events == start.total_events + count_registrations(requests),
    decreases requests.len(),
{
    if requests.len() > 0 {
        lemma_events_count_registrations(start, requests.drop_last());
    }
}

/// Event identifiers strictly increase: the identifier issued after a
/// registration and any run of further requests is the one that the
/// registration was given, plus one, plus the registrations in the run.
pub proof fn lemma_event_ids_increase(start: Registry, requests: Seq<Request>)
    ensures
        start.register().run(requests).next_event_id() == start.next_event_id() + 1
            + count_registrations(requests),
        start.register().run(requests).next_event_id() > start.next_event_id(),
{
    lemma_events_count_registrations(start.register(), requests);
}

/// A marking touches one pair only: every other pair is marked after it
/// exactly if it was before, with the same record, and the event total stays.
/// Where the pair itself was marked before, its record stays too.
pub proof fn lemma_mark_leaves_others(
    registry: Registry,
    user: Seq<u8>,
    event_id: u64,
    timestamp: u64,
    other_user: Seq<u8>,
    other_event: u64,
)
    ensures
        registry.mark(user, event_id, timestamp).total_events == registry.total_events,
        (other_user, other_event) != (user, event_id) ==> {
            &&& registry.mark(user, event_id, timestamp).is_marked(other_user, other_event)
                == registry.is_marked(other_user, other_event)
            &&& registry.mark(user, event_id, timestamp).attendance(other_user, other_event)
                == registry.attendance(other_user, other_event)
        },
        registry.is_marked(user, event_id) ==> registry.mark(
            user,
            event_id,
            timestamp,
        ).attendance(user, event_id) == registry.attendance(user, event_id),
{
}

/// A registration touches the event total only: every record and the
/// attendee total stay, and the event total grows by one.
pub proof fn lemma_register_leaves_records(registry: Registry)
    ensures
        registry.register().records == registry.records,
        registry.register().total_attendees == registry.total_attendees,
        registry.register().total_events == registry.total_events + 1,
{
}

/// The totals are consistent with the requests served: after a run from the
/// empty registry in which no pair is marked twice, the attendee total is the
/// number of markings and the event total the number of registrations.
pub proof fn lemma_stats_count_requests(requests: Seq<Request>)
    requires
        no_duplicate_marks(requests),
    ensures
        Registry::empty().run(requests).stats().total_attendees == count_marks(requests),
        Registry::empty().run(requests).stats().total_events == count_registrations(requests),
    decreases requests.len(),
{
    lemma_events_count_registrations(Registry::empty(), requests);
    if requests.len() > 0 {
        let earlier = requests.drop_last();
        assert(no_duplicate_marks(earlier)) by {
            assert forall|i: int, j: int| 0 <= i < j < earlier.len() implies !same_mark(
                #[trigger] earlier[i],
                #[trigger] earlier[j],
            ) by {
                assert(!same_mark(requests[i], requests[j]));
            }
        }
        lemma_stats_count_requests(earlier);
        match requests.last() {
            Request::Mark { user, event_id, timestamp: _ } => {
                lemma_marked_by_request(Registry::empty(), user, event_id, earlier);
                if has_mark(earlier, user, event_id) {
                    let i = choose|i: int|
                        0 <= i < earlier.len() && (#[trigger] earlier[i]).marks(user, event_id);
                    assert(same_mark(requests[i], requests[requests.len() - 1]));
                }
            },
            Request::Register => {},
        }
    }
}

/// Event identifiers are issued densely from one: if the request at `index`
/// is a registration, the identifier it is given is its rank among the
/// registrations of the run.
pub proof fn lemma_event_ids_are_dense(requests: Seq<Request>, index: int)
    requires
        0 <= index < requests.len(),
        requests[index] == Request::Register,
    ensures
        Registry::empty().run(requests.take(index)).next_event_id() == count_registrations(
            requests.take(index + 1),
        ),
{
    lemma_events_count_registrations(Registry::empty(), requests.take(index));
    assert(requests.take(index + 1).drop_last() == requests.take(index));
    assert(requests.take(index + 1).last() == requests[index]);
}

/// Every transition keeps the registry well formed.
pub proof fn lemma_step_keeps_well_formed(registry: Registry, request: Request)
    requires
        registry.well_formed(),
    ensures
        registry.step(request).well_formed(),
{
}

/// Every registry that grew from the empty one is well formed: each record
/// lies under its own user and event and says "present", and the attendee
/// total is the number of pairs marked.
pub proof fn lemma_run_is_well_formed(requests: Seq<Request>)
    ensures
        Registry::empty().run(requests).well_formed(),
    decreases requests.len(),
{
    if requests.len() > 0 {
        lemma_run_is_well_formed(requests.drop_last());
        lemma_step_keeps_well_formed(
            Registry::empty().run(requests.drop_last()),
            requests.last(),
        );
    }
}

} // verus!
