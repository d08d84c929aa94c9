//! What holds of the correlator whatever the events, the names and the filter are.

use crate::event::has_flag;
use crate::event::kind_of;
use crate::event::EventKind;
use crate::event::IN_ISDIR;
use crate::path::joined;
use crate::retry::Attempt;
use crate::retry::RetryPolicy;
use crate::route::destination_checked;
use crate::route::RouteError;
use crate::router::consults_filter;
use crate::router::resolves_departure;
use crate::router::step;
use crate::router::Outcome;
use crate::router::Tracking;
use vstd::prelude::*;

verus! {

/// A created file that the filter accepts and whose destination is free is moved from
/// its path in the source to its path in the destination, and one successful attempt
/// ends the matter.
pub proof fn law_accepted_file_is_moved(
    from: Seq<u8>,
    to: Seq<u8>,
    before: Tracking,
    name: Seq<u8>,
    policy: RetryPolicy,
)
    ensures
        step(from, to, before, EventKind::FileCreated, Some(name), true).1 == Ok::<
            Outcome,
            RouteError,
        >(Outcome::Move { from: joined(from, name), to: joined(to, name) }),
        destination_checked(false) is Ok,
        policy.course(seq![Attempt::Moved], 0).moved,
        policy.course(seq![Attempt::Moved], 0).attempts == 1,
{
}

/// A move-away followed at once by the move-into of the same name leads to one reroute
/// attempt for that name, made at the arrival, and leaves the correlator idle.
pub proof fn law_rename_is_rerouted_once(
    from: Seq<u8>,
    to: Seq<u8>,
    before: Tracking,
    name: Seq<u8>,
    said_at_departure: bool,
    accepted: bool,
)
    ensures
        ({
            let (noted, first) = step(
                from,
                to,
                before,
                EventKind::MoveAway,
                Some(name),
                said_at_departure,
            );
            let (after, second) = step(from, to, noted, EventKind::MoveInto, Some(name), accepted);
            &&& !consults_filter(EventKind::MoveAway, Some(name))
            &&& first == Ok::<Outcome, RouteError>(Outcome::Departure)
            &&& noted.awaits(name)
            &&& second is Ok
            &&& second->Ok_0.is_attempt()
            &&& accepted ==> second->Ok_0 == (Outcome::Move {
                from: joined(from, name),
                to: joined(to, name),
            })
            &&& !accepted ==> second->Ok_0 == Outcome::Declined
            &&& after.is_idle()
        }),
{
}

/// After a move-away the arrival that resolves it is the move-into of the same name,
/// and of no other.
pub proof fn law_only_the_same_name_resolves(
    from: Seq<u8>,
    to: Seq<u8>,
    before: Tracking,
    departed: Seq<u8>,
    arrived: Seq<u8>,
    accepted: bool,
)
    ensures
        resolves_departure(
            step(from, to, before, EventKind::MoveAway, Some(departed), accepted).0,
            EventKind::MoveInto,
            Some(arrived),
        ) <==> departed == arrived,
{
}

/// A move-away of one name followed by the move-into of another leads to a reroute
/// attempt for the name that arrived. The departure alone leads to none.
pub proof fn law_arrival_under_another_name_is_rerouted(
    from: Seq<u8>,
    to: Seq<u8>,
    before: Tracking,
    departed: Seq<u8>,
    arrived: Seq<u8>,
    said_at_departure: bool,
    accepted: bool,
)
    requires
        departed != arrived,
    ensures
        ({
            let (noted, first) = step(
                from,
                to,
                before,
                EventKind::MoveAway,
                Some(departed),
                said_at_departure,
            );
            let (after, second) = step(
                from,
                to,
                noted,
                EventKind::MoveInto,
                Some(arrived),
                accepted,
            );
            &&& first is Ok
            &&& !first->Ok_0.is_attempt()
            &&& noted.awaits(departed)
            &&& second is Ok
            &&& second->Ok_0.is_attempt()
            &&& accepted ==> second->Ok_0 == (Outcome::Move {
                from: joined(from, arrived),
                to: joined(to, arrived),
            })
            &&& !accepted ==> after.pending_departure_name == Some(arrived)
            &&& after.is_idle()
        }),
{
}

/// An entry that the filter turns down is not moved, and its name is what the
/// correlator remembers afterwards.
pub proof fn law_declined_entry_is_remembered(
    from: Seq<u8>,
    to: Seq<u8>,
    before: Tracking,
    kind: EventKind,
    name: Seq<u8>,
)
    requires
        consults_filter(kind, Some(name)),
    ensures
        step(from, to, before, kind, Some(name), false).1 == Ok::<Outcome, RouteError>(
            Outcome::Declined,
        ),
        step(from, to, before, kind, Some(name), false).0.pending_departure_name == Some(name),
{
}

/// An event that carries the directory flag, a created directory included, is never
/// put before the filter and never leads to a reroute, and it leaves the correlator's
/// memory as it was.
pub proof fn law_directories_are_never_rerouted(
    from: Seq<u8>,
    to: Seq<u8>,
    before: Tracking,
    mask: u32,
    name: Option<Seq<u8>>,
    accepted: bool,
)
    requires
        has_flag(mask, IN_ISDIR),
    ensures
        kind_of(mask) == EventKind::DirectoryCreated || kind_of(mask) == EventKind::Other,
        !consults_filter(kind_of(mask), name),
        step(from, to, before, kind_of(mask), name, accepted) == (
            before,
            Ok::<Outcome, RouteError>(Outcome::Discarded),
        ),
{
}

/// A created file leaves an awaited arrival awaited, and an idle correlator idle.
pub proof fn law_created_file_keeps_waiting(
    from: Seq<u8>,
    to: Seq<u8>,
    before: Tracking,
    name: Option<Seq<u8>>,
    accepted: bool,
)
    ensures
        step(from, to, before, EventKind::FileCreated, name, accepted).0.awaiting_arrival
            == before.awaiting_arrival,
{
}

/// A later move-away takes the place of an earlier one: only one departure is awaited.
pub proof fn law_new_departure_overwrites(
    from: Seq<u8>,
    to: Seq<u8>,
    before: Tracking,
    earlier: Seq<u8>,
    later: Seq<u8>,
    accepted: bool,
)
    ensures
        ({
            let (first, _) = step(from, to, before, EventKind::MoveAway, Some(earlier), accepted);
            let (second, _) = step(from, to, first, EventKind::MoveAway, Some(later), accepted);
            second.awaits(later) && (earlier != later ==> !second.awaits(earlier))
        }),
{
}

} // verus!
