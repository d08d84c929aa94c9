//! The correlator: from one notification event to what has to be done about it.
//!
//! A file that is renamed inside the watched directory shows up as two events, a
//! move-away under the old name and a move-into under the new one. The correlator
//! keeps the name of the departure until an arrival resolves it, and asks for a
//! reroute of every file that is created or arrives, once, under the name it then has.
//! A filter has the last word on each reroute; what it turns down is remembered as the
//! name to expect next.

use crate::event::kind_of;
use crate::event::Event;
use crate::event::EventKind;
use crate::path::copy_bytes;
use crate::path::joined;
use crate::path::same_bytes;
use crate::route::MovePlan;
use crate::route::ReRoute;
use crate::route::RouteError;
use vstd::prelude::*;

verus! {

/// What the correlator remembers between two events.
pub struct Tracking {
    /// The name of the last departure, or of the last entry the filter turned down;
    /// nothing once a reroute was let through.
    pub pending_departure_name: Option<Seq<u8>>,
    /// Whether a departure is still waiting for its arrival.
    pub awaiting_arrival: bool,
}

impl Tracking {
    /// Nothing remembered, nothing awaited.
    pub open spec fn start() -> Tracking {
        Tracking { pending_departure_name: None, awaiting_arrival: false }
    }

    /// No departure is waiting for its arrival.
    pub open spec fn is_idle(self) -> bool {
        !self.awaiting_arrival
    }

    /// The departure of `name` is waiting for its arrival.
    pub open spec fn awaits(self, name: Seq<u8>) -> bool {
        self.awaiting_arrival && self.pending_departure_name == Some(name)
    }
}

/// What one event leads to, with paths as plain bytes.
pub enum Outcome {
    /// The event is none the correlator acts on.
    Discarded,
    /// A departure was noted. No reroute is attempted for it.
    Departure,
    /// A reroute was attempted and the filter turned the entry down. Nothing moves.
    Declined,
    /// A reroute was attempted and let through: move `from` to `to`.
    Move { from: Seq<u8>, to: Seq<u8> },
}

impl Outcome {
    /// Whether a reroute was attempted, whatever the filter said.
    pub open spec fn is_attempt(self) -> bool {
        self is Declined || self is Move
    }
}

/// What the caller has to do about one event.
#[derive(Debug, Clone, PartialEq, Eq)]
pub enum Decision {
    /// Nothing: the event is none the correlator acts on.
    Discarded,
    /// Nothing: a departure was noted.
    Departure,
    /// Nothing: the filter turned the entry down.
    Declined,
    /// Carry out this move.
    Move(MovePlan),
}

impl View for Decision {
    type V = Outcome;

    open spec fn view(&self) -> Outcome {
        match *self {
            Decision::Discarded => Outcome::Discarded,
            Decision::Departure => Outcome::Departure,
            Decision::Declined => Outcome::Declined,
            Decision::Move(plan) => Outcome::Move { from: plan.from@, to: plan.to@ },
        }
    }
}

/// The outcome that a handled event stands for.
pub open spec fn outcome_of(handled: Result<Decision, RouteError>) -> Result<
    Outcome,
    RouteError,
> {
    match handled {
        Ok(decision) => Ok(decision@),
        Err(error) => Err(error),
    }
}

/// A reroute of the entry `name` between the directories `from` and `to`.
///
/// An accepted entry is to be moved from its path in the source to its path in the
/// destination, and the remembered name is cleared. A declined entry stays where it
/// is, and its name is remembered. Whether an arrival is awaited does not change.
pub open spec fn rerouted(
    from: Seq<u8>,
    to: Seq<u8>,
    before: Tracking,
    name: Seq<u8>,
    accepted: bool,
) -> (Tracking, Outcome) {
    if accepted {
        (
            Tracking { pending_departure_name: None, ..before },
            Outcome::Move { from: joined(from, name), to: joined(to, name) },
        )
    } else {
        (Tracking { pending_departure_name: Some(name), ..before }, Outcome::Declined)
    }
}

/// Whether an event of this kind and name is put before the filter.
pub open spec fn consults_filter(kind: EventKind, name: Option<Seq<u8>>) -> bool {
    (kind == EventKind::FileCreated || kind == EventKind::MoveInto) && name is Some
}

/// Whether an event of this kind and name is the arrival that `before` awaits: the
/// move-into of the very name whose departure was noted last. Such a pair is a rename
/// inside the source directory, not a file from outside.
pub open spec fn resolves_departure(before: Tracking, kind: EventKind, name: Option<Seq<u8>>) -> bool {
    kind == EventKind::MoveInto && name is Some && before.awaits(name->0)
}

/// One step of the correlator: the memory after the event, and what the event leads to.
///
/// `accepted` is what the filter says of the event; it counts only where
/// `consults_filter` holds.
///
/// - Events about directories and events of no routed kind change nothing.
/// - A created file is rerouted at once; an arrival that is awaited stays awaited.
/// - A move-away is noted under its name and from then on awaited. It overwrites any
///   departure noted before.
/// - A move-into is rerouted under its own name, whether or not it is the arrival that
///   was awaited, and nothing is awaited afterwards.
/// - A created or arriving file without a name is a fault of the event.
pub open spec fn step(
    from: Seq<u8>,
    to: Seq<u8>,
    before: Tracking,
    kind: EventKind,
    name: Option<Seq<u8>>,
    accepted: bool,
) -> (Tracking, Result<Outcome, RouteError>) {
    match kind {
        EventKind::DirectoryCreated | EventKind::Other => (before, Ok(Outcome::Discarded)),
        EventKind::MoveAway => (
            Tracking { pending_departure_name: name, awaiting_arrival: true },
            Ok(Outcome::Departure),
        ),
        EventKind::FileCreated => match name {
            None => (before, Err(RouteError::MissingName)),
            Some(name) => {
                let (after, outcome) = rerouted(from, to, before, name, accepted);
                (after, Ok(outcome))
            },
        },
        EventKind::MoveInto => match name {
            None => (
                Tracking { awaiting_arrival: false, ..before },
                Err(RouteError::MissingName),
            ),
            Some(name) => {
                let (after, outcome) = rerouted(from, to, before, name, accepted);
                (Tracking { awaiting_arrival: false, ..after }, Ok(outcome))
            },
        },
    }
}

/// A route in operation: the two directories, the filter, and the correlator's memory.
pub struct RunningReRouter<F: Fn(&Event) -> bool> {
    route: ReRoute,
    filter: F,
    prev: Option<Vec<u8>>,
    moving: bool,
}

impl<F: Fn(&Event) -> bool> RunningReRouter<F> {
    /// The filter may be asked about every event.
    #[verifier::type_invariant]
    spec fn filter_takes_any_event(&self) -> bool {
        forall|event: &Event| #[trigger] call_requires(self.filter, (event,))
    }

    /// The source directory.
    pub closed spec fn source(&self) -> Seq<u8> {
        self.route.from@
    }

    /// The destination directory.
    pub closed spec fn dest(&self) -> Seq<u8> {
        self.route.to@
    }

    /// The filter that decides on each reroute.
    pub closed spec fn filter(&self) -> F {
        self.filter
    }

    /// What is remembered at this point.
    pub closed spec fn tracking(&self) -> Tracking {
        Tracking {
            pending_departure_name: match self.prev {
                Some(name) => Some(name@),
                None => None,
            },
            awaiting_arrival: self.moving,
        }
    }

    /// Starts a route with nothing remembered. The filter has to take any event.
    pub fn new(re_route: &ReRoute, filter: F) -> (router: Self)
        requires
            forall|event: &Event| #[trigger] call_requires(filter, (event,)),
        ensures
            router.source() == re_route.from@,
            router.dest() == re_route.to@,
            router.filter() == filter,
            router.tracking() == Tracking::start(),
    {
        RunningReRouter {
            route: ReRoute::new(copy_bytes(&re_route.from), copy_bytes(&re_route.to)),
            filter,
            prev: None,
            moving: false,
        }
    }

    /// The remembered name, if there is one.
    pub fn prev(&self) -> (name: Option<&Vec<u8>>)
        ensures
            match name {
                Some(bytes) => self.tracking().pending_departure_name == Some(bytes@),
                None => self.tracking().pending_departure_name is None,
            },
    {
        match &self.prev {
            Some(name) => Some(name),
            None => None,
        }
    }

    /// Whether a departure is waiting for its arrival.
    pub fn moving(&self) -> (awaiting: bool)
        ensures
            awaiting == self.tracking().awaiting_arrival,
    {
        self.moving
    }

    /// Whether `event` is the arrival that is awaited at this point. The reroute of an
    /// arrival does not depend on it.
    pub fn resolves_departure(&self, event: &Event) -> (resolved: bool)
        ensures
            resolved == resolves_departure(
                self.tracking(),
                kind_of(event.mask),
                event.name_bytes(),
            ),
    {
        if !self.moving {
            return false;
        }
        match event.kind() {
            EventKind::MoveInto => match (&self.prev, &event.name) {
                (Some(awaited), Some(name)) => same_bytes(awaited, name),
                _ => false,
            },
            _ => false,
        }
    }

    /// Books a reroute of `name` on which the filter has said `accepted`.
    pub fn settle(&mut self, name: &Vec<u8>, accepted: bool) -> (decision: Decision)
        ensures
            final(self).source() == old(self).source(),
            final(self).dest() == old(self).dest(),
            final(self).filter() == old(self).filter(),
            (final(self).tracking(), decision@) == rerouted(
                old(self).source(),
                old(self).dest(),
                old(self).tracking(),
                name@,
                accepted,
            ),
    {
        proof {
            use_type_invariant(&*self);
        }
        if !accepted {
            self.prev = Some(copy_bytes(name));
            return Decision::Declined;
        }
        self.prev = None;
        Decision::Move(self.route.plan(name))
    }

    /// Attempts the reroute of the entry that `event` names.
    ///
    /// An event without a name is a fault, and the filter is not asked. Otherwise the
    /// filter is asked once, and its answer is booked as `settle` says.
    pub fn re_route_event(&mut self, event: &Event) -> (attempt: Result<Decision, RouteError>)
        ensures
            final(self).source() == old(self).source(),
            final(self).dest() == old(self).dest(),
            final(self).filter() == old(self).filter(),
            event.name is None ==> attempt == Err::<Decision, RouteError>(RouteError::MissingName)
                && final(self).tracking() == old(self).tracking(),
            event.name is Some ==> attempt is Ok && exists|accepted: bool|
                call_ensures(old(self).filter(), (event,), accepted) && (
                    final(self).tracking(),
                    attempt->Ok_0@,
                ) == #[trigger] rerouted(
                    old(self).source(),
                    old(self).dest(),
                    old(self).tracking(),
                    event.name->0@,
                    accepted,
                ),
    {
        proof {
            use_type_invariant(&*self);
        }
        match &event.name {
            None => Err(RouteError::MissingName),
            Some(name) => {
                let accepted = (self.filter)(event);
                Ok(self.settle(name, accepted))
            },
        }
    }

    /// Takes one event and says what to do about it.
    ///
    /// The memory moves on as `step` says, with the filter's answer where the event
    /// is put before the filter. The filter is asked about no other event.
    pub fn handle_event(&mut self, event: &Event) -> (handled: Result<Decision, RouteError>)
        ensures
            final(self).source() == old(self).source(),
            final(self).dest() == old(self).dest(),
            final(self).filter() == old(self).filter(),
            exists|accepted: bool|
                (consults_filter(kind_of(event.mask), event.name_bytes()) ==> call_ensures(
                    old(self).filter(),
                    (event,),
                    accepted,
                )) && (final(self).tracking(), outcome_of(handled)) == #[trigger] step(
                    old(self).source(),
                    old(self).dest(),
                    old(self).tracking(),
                    kind_of(event.mask),
                    event.name_bytes(),
                    accepted,
                ),
    {
        proof {
            use_type_invariant(&*self);
        }
        let ghost before = self.tracking();
        let ghost from = self.source();
        let ghost to = self.dest();
        match event.kind() {
            EventKind::DirectoryCreated | EventKind::Other => {
                assert((self.tracking(), outcome_of(Ok(Decision::Discarded))) == step(
                    from,
                    to,
                    before,
                    kind_of(event.mask),
                    event.name_bytes(),
                    false,
                ));
                Ok(Decision::Discarded)
            },
            EventKind::FileCreated => {
                let attempt = self.re_route_event(event);
                proof {
                    if event.name is Some {
                        let accepted = choose|accepted: bool|
                            call_ensures(old(self).filter(), (event,), accepted) && (
                                self.tracking(),
                                attempt->Ok_0@,
                            ) == #[trigger] rerouted(
                                from,
                                to,
                                before,
                                event.name->0@,
                                accepted,
                            );
                        assert((self.tracking(), outcome_of(attempt)) == step(
                            from,
                            to,
                            before,
                            kind_of(event.mask),
                            event.name_bytes(),
                            accepted,
                        ));
                    } else {
                        assert((self.tracking(), outcome_of(attempt)) == step(
                            from,
                            to,
                            before,
                            kind_of(event.mask),
                            event.name_bytes(),
                            false,
                        ));
                    }
                }
                attempt
            },
            EventKind::MoveAway => {
                self.prev = match &event.name {
                    Some(name) => Some(copy_bytes(name)),
                    None => None,
                };
                self.moving = true;
                assert((self.tracking(), outcome_of(Ok(Decision::Departure))) == step(
                    from,
                    to,
                    before,
                    kind_of(event.mask),
                    event.name_bytes(),
                    false,
                ));
                Ok(Decision::Departure)
            },
            EventKind::MoveInto => {
                let attempt = self.re_route_event(event);
                let ghost booked = self.tracking();
                self.moving = false;
                proof {
                    if event.name is Some {
                        let accepted = choose|accepted: bool|
                            call_ensures(old(self).filter(), (event,), accepted) && (
                                booked,
                                attempt->Ok_0@,
                            ) == #[trigger] rerouted(
                                from,
                                to,
                                before,
                                event.name->0@,
                                accepted,
                            );
                        assert((self.tracking(), outcome_of(attempt)) == step(
                            from,
                            to,
                            before,
                            kind_of(event.mask),
                            event.name_bytes(),
                            accepted,
                        ));
                    } else {
                        assert((self.tracking(), outcome_of(attempt)) == step(
                            from,
                            to,
                            before,
                            kind_of(event.mask),
                            event.name_bytes(),
                            false,
                        ));
                    }
                }
                attempt
            },
        }
    }
}

} // verus!
