//! The bridge of one service name: the caches that the two directions of
//! travel share, and the rules by which a message is routed and sent on.

use crate::correlation::{CorrelationCache, CorrelationRecord, CorrelationView, RECORD_IDLE_SECS};
use crate::message::{Handling, Message, MessageView};
use crate::names::{NameCache, NAME_IDLE_SECS};
use crate::serial::next_serial;
use vstd::prelude::*;

verus! {

/// The way a message travels through the gateway.
#[derive(Clone, Copy, Debug, PartialEq, Eq, Structural)]
pub enum Direction {
    /// From the upstream bus, where the services live, to the downstream bus.
    UpToDown,
    /// From the downstream bus, where the gateway poses as the services, to
    /// the upstream bus.
    DownToUp,
}

impl Direction {
    /// The other direction.
    pub open spec fn reversed(self) -> Direction {
        match self {
            Direction::UpToDown => Direction::DownToUp,
            Direction::DownToUp => Direction::UpToDown,
        }
    }

    /// The other direction.
    #[verifier::when_used_as_spec(reversed)]
    pub fn opposite(self) -> (other: Direction)
        ensures
            other == self.reversed(),
    {
        match self {
            Direction::UpToDown => Direction::DownToUp,
            Direction::DownToUp => Direction::UpToDown,
        }
    }
}

/// The record under `serial`, if the map has one.
pub open spec fn record_at(records: Map<u32, CorrelationView>, serial: u32) -> Option<
    CorrelationView,
> {
    if records.contains_key(serial) {
        Some(records[serial])
    } else {
        None
    }
}

/// The owner under `interface`, if the map has one.
pub open spec fn owner_at(owners: Map<Seq<char>, Seq<char>>, interface: Seq<char>) -> Option<
    Seq<char>,
> {
    if owners.contains_key(interface) {
        Some(owners[interface])
    } else {
        None
    }
}

/// What routing decides for a message.
#[derive(Clone, Debug, PartialEq, Eq)]
pub enum Route {
    /// The message is the filtered signal: it is dropped in silence.
    Filtered,
    /// The message is a reply that no record answers for: it is dropped with a
    /// warning.
    Unmatched { reply_serial: u32 },
    /// The owner of the service must be asked of the destination's directory
    /// before the message, handed back unchanged, can go on.
    Resolve(Message),
    /// The message is addressed and can be sent on.
    Ready(Message),
}

/// A routing decision as a mathematical value.
pub enum RouteView {
    Filtered,
    Unmatched { reply_serial: u32 },
    Resolve(MessageView),
    Ready(MessageView),
}

impl RouteView {
    /// The message that the decision carries, if any, is well formed.
    pub open spec fn well_formed(self) -> bool {
        match self {
            RouteView::Resolve(message) => message.well_formed(),
            RouteView::Ready(message) => message.well_formed(),
            _ => true,
        }
    }
}

impl View for Route {
    type V = RouteView;

    open spec fn view(&self) -> RouteView {
        match self {
            Route::Filtered => RouteView::Filtered,
            Route::Unmatched { reply_serial } => RouteView::Unmatched {
                reply_serial: *reply_serial,
            },
            Route::Resolve(message) => RouteView::Resolve(message@),
            Route::Ready(message) => RouteView::Ready(message@),
        }
    }
}

/// The routing decision for `message`, given what the caches handed out: the
/// record found under its reply serial, and the owner found under its
/// interface.
pub open spec fn route_of(
    message: MessageView,
    record: Option<CorrelationView>,
    owner: Option<Seq<char>>,
) -> RouteView {
    match message.handling() {
        Handling::Filtered => RouteView::Filtered,
        Handling::Reply => match record {
            Some(found) => RouteView::Ready(message.answering(found)),
            None => RouteView::Unmatched { reply_serial: message.reply_serial.unwrap() },
        },
        Handling::Addressed => match owner {
            Some(found) => RouteView::Ready(message.addressed_to(found)),
            None => RouteView::Resolve(message),
        },
        Handling::PassThrough => RouteView::Ready(message),
    }
}

/// The routing decision for `message` when the caches hand out nothing.
pub open spec fn stale_route(message: MessageView) -> RouteView {
    route_of(message, None, None)
}

/// Decides the route of `message` from what the caches handed out: `record`
/// for its reply serial, `owner` for its interface.
pub fn route_with(message: Message, record: Option<CorrelationRecord>, owner: Option<String>) -> (route:
    Route)
    ensures
        route@ == route_of(
            message@,
            match record {
                Some(found) => Some(found@),
                None => None,
            },
            owner.deep_view(),
        ),
{
    if message.is_filtered() {
        return Route::Filtered;
    }
    match message.reply_serial {
        Some(reply_serial) => match record {
            Some(found) => Route::Ready(message.answering(found)),
            None => Route::Unmatched { reply_serial },
        },
        None => {
            if message.destination.is_some() && message.interface.is_some() {
                match owner {
                    Some(found) => Route::Ready(message.addressed_to(found)),
                    None => Route::Resolve(message),
                }
            } else {
                Route::Ready(message)
            }
        },
    }
}

/// A bridge as a mathematical value: the service name, and what the four
/// caches were given.
pub struct BridgeView {
    /// The service name that the gateway has claimed downstream.
    pub name: Seq<char>,
    /// The records for replies that will come from the upstream bus, by the
    /// serial under which the gateway sent the answered message there.
    pub awaited_upstream: Map<u32, CorrelationView>,
    /// The records for replies that will come from the downstream bus.
    pub awaited_downstream: Map<u32, CorrelationView>,
    /// The owners that the upstream directory gave, by interface.
    pub upstream_owners: Map<Seq<char>, Seq<char>>,
    /// The owners that the downstream directory gave, by interface.
    pub downstream_owners: Map<Seq<char>, Seq<char>>,
}

impl BridgeView {
    /// The records that a loop of `direction` looks its replies up in: those
    /// for replies that come from its source.
    pub open spec fn forward(self, direction: Direction) -> Map<u32, CorrelationView> {
        match direction {
            Direction::UpToDown => self.awaited_upstream,
            Direction::DownToUp => self.awaited_downstream,
        }
    }

    /// The records that a loop of `direction` adds to: those for replies that
    /// will come from its destination. They are the forward records of the
    /// loop that runs the other way.
    pub open spec fn reverse(self, direction: Direction) -> Map<u32, CorrelationView> {
        self.forward(direction.reversed())
    }

    /// The owners known on the destination of `direction`.
    pub open spec fn owners(self, direction: Direction) -> Map<Seq<char>, Seq<char>> {
        match direction {
            Direction::UpToDown => self.downstream_owners,
            Direction::DownToUp => self.upstream_owners,
        }
    }

    /// This bridge with `records` as the forward records of `direction`.
    pub open spec fn with_forward(
        self,
        direction: Direction,
        records: Map<u32, CorrelationView>,
    ) -> BridgeView {
        match direction {
            Direction::UpToDown => BridgeView { awaited_upstream: records, ..self },
            Direction::DownToUp => BridgeView { awaited_downstream: records, ..self },
        }
    }

    /// This bridge with `records` as the reverse records of `direction`.
    pub open spec fn with_reverse(
        self,
        direction: Direction,
        records: Map<u32, CorrelationView>,
    ) -> BridgeView {
        self.with_forward(direction.reversed(), records)
    }

    /// This bridge with `owners` as the owners on the destination of
    /// `direction`.
    pub open spec fn with_owners(
        self,
        direction: Direction,
        owners: Map<Seq<char>, Seq<char>>,
    ) -> BridgeView {
        match direction {
            Direction::UpToDown => BridgeView { downstream_owners: owners, ..self },
            Direction::DownToUp => BridgeView { upstream_owners: owners, ..self },
        }
    }

    /// Every record of the bridge can be answered on the bus.
    pub open spec fn well_formed(self) -> bool {
        &&& forall|serial: u32| #[trigger]
            self.awaited_upstream.contains_key(serial)
                ==> self.awaited_upstream[serial].well_formed()
        &&& forall|serial: u32| #[trigger]
            self.awaited_downstream.contains_key(serial)
                ==> self.awaited_downstream[serial].well_formed()
    }

    /// The routing decision for `message` on its way in `direction`, if the
    /// caches still hold all that they were given.
    pub open spec fn fresh_route(self, direction: Direction, message: MessageView) -> RouteView {
        route_of(
            message,
            match message.reply_serial {
                Some(serial) => record_at(self.forward(direction), serial),
                None => None,
            },
            match message.interface {
                Some(interface) => owner_at(self.owners(direction), interface),
                None => None,
            },
        )
    }

    /// The bridge after it has routed `message` on its way in `direction`: a
    /// reply has used up the record under its reply serial.
    pub open spec fn after_route(self, direction: Direction, message: MessageView) -> BridgeView {
        if message.handling() == Handling::Reply {
            self.with_forward(
                direction,
                self.forward(direction).remove(message.reply_serial.unwrap()),
            )
        } else {
            self
        }
    }

    /// The bridge after the directory on the destination of `direction` has
    /// named `owner` for `message`.
    pub open spec fn after_adoption(
        self,
        direction: Direction,
        message: MessageView,
        owner: Seq<char>,
    ) -> BridgeView {
        match message.interface {
            Some(interface) => self.with_owners(
                direction,
                self.owners(direction).insert(interface, owner),
            ),
            None => self,
        }
    }

    /// The bridge after it has sent `draft` on in `direction` under the serial
    /// `serial`: a reply to that serial will find where `draft` came from.
    pub open spec fn after_dispatch(
        self,
        direction: Direction,
        draft: MessageView,
        serial: u32,
    ) -> BridgeView {
        self.with_reverse(direction, self.reverse(direction).insert(serial, draft.origin()))
    }
}

/// The state that the two forwarding loops of one service name share: a
/// correlation cache for each bus from which replies come, and a name cache
/// for each bus on which owners are looked up.
///
/// Each loop takes its replies' records from the cache that the loop of the
/// other direction adds to. The bridge holds both caches, so that this
/// pairing is fixed here and not by the order in which a caller hands them
/// out.
pub struct Bridge {
    name: String,
    awaited_upstream: CorrelationCache,
    awaited_downstream: CorrelationCache,
    upstream_owners: NameCache,
    downstream_owners: NameCache,
}

impl View for Bridge {
    type V = BridgeView;

    closed spec fn view(&self) -> BridgeView {
        BridgeView {
            name: self.name@,
            awaited_upstream: self.awaited_upstream@,
            awaited_downstream: self.awaited_downstream@,
            upstream_owners: self.upstream_owners@,
            downstream_owners: self.downstream_owners@,
        }
    }
}

impl Bridge {
    /// The idle windows of the bridge's caches are those of the gateway: ten
    /// minutes for correlation records, five seconds for owners.
    pub closed spec fn windows_set(&self) -> bool {
        &&& self.awaited_upstream.idle_secs() == Some(RECORD_IDLE_SECS)
        &&& self.awaited_downstream.idle_secs() == Some(RECORD_IDLE_SECS)
        &&& self.upstream_owners.idle_secs() == Some(NAME_IDLE_SECS)
        &&& self.downstream_owners.idle_secs() == Some(NAME_IDLE_SECS)
    }

    /// A bridge for the service `name`, with nothing in its caches.
    pub fn new(name: String) -> (bridge: Self)
        ensures
            bridge@ == (BridgeView {
                name: name@,
                awaited_upstream: Map::empty(),
                awaited_downstream: Map::empty(),
                upstream_owners: Map::empty(),
                downstream_owners: Map::empty(),
            }),
            bridge@.well_formed(),
            bridge.windows_set(),
    {
        Bridge {
            name: name,
            awaited_upstream: CorrelationCache::new(),
            awaited_downstream: CorrelationCache::new(),
            upstream_owners: NameCache::new(),
            downstream_owners: NameCache::new(),
        }
    }

    /// The service name.
    pub fn name(&self) -> (name: &String)
        ensures
            name@ == self@.name,
    {
        &self.name
    }

    /// Routes `message` on its way in `direction`.
    ///
    /// A reply uses up the record under its reply serial and is addressed as
    /// the record says; without a record it is unmatched. A message to a named
    /// destination is addressed to the owner remembered for its interface;
    /// without one the owner must be resolved. The filtered signal is dropped,
    /// and every other message is ready as it is. A cache that has dropped an
    /// entry for idleness answers as if it had never held it.
    pub fn route(&mut self, direction: Direction, message: Message) -> (route: Route)
        ensures
            final(self)@ == old(self)@.after_route(direction, message@),
            final(self).windows_set() == old(self).windows_set(),
            route@ == old(self)@.fresh_route(direction, message@) || route@ == stale_route(
                message@,
            ),
            old(self)@.well_formed() ==> final(self)@.well_formed(),
            old(self)@.well_formed() && message@.well_formed() ==> route@.well_formed(),
    {
        if message.is_filtered() {
            return Route::Filtered;
        }
        match message.reply_serial {
            Some(reply_serial) => {
                let record = match direction {
                    Direction::UpToDown => self.awaited_upstream.take(reply_serial),
                    Direction::DownToUp => self.awaited_downstream.take(reply_serial),
                };
                proof {
                    if old(self)@.well_formed() {
                        assert forall|serial: u32| #[trigger]
                            self@.awaited_upstream.contains_key(
                                serial,
                            ) implies self@.awaited_upstream[serial].well_formed() by {
                            assert(old(self)@.awaited_upstream.contains_key(serial));
                        }
                        assert forall|serial: u32| #[trigger]
                            self@.awaited_downstream.contains_key(
                                serial,
                            ) implies self@.awaited_downstream[serial].well_formed() by {
                            assert(old(self)@.awaited_downstream.contains_key(serial));
                        }
                    }
                }
                route_with(message, record, None)
            },
            None => {
                let owner = match &message.interface {
                    Some(interface) => {
                        if message.destination.is_some() {
                            match direction {
                                Direction::UpToDown => self.downstream_owners.lookup(interface),
                                Direction::DownToUp => self.upstream_owners.lookup(interface),
                            }
                        } else {
                            None
                        }
                    },
                    None => None,
                };
                route_with(message, None, owner)
            },
        }
    }

    /// Takes `owner`, which the directory on the destination of `direction`
    /// gave for the service, as the destination of `message`, and remembers it
    /// for the interface of `message`.
    pub fn adopt_owner(&mut self, direction: Direction, message: Message, owner: String) -> (draft:
        Message)
        ensures
            final(self)@ == old(self)@.after_adoption(direction, message@, owner@),
            final(self).windows_set() == old(self).windows_set(),
            draft@ == message@.addressed_to(owner@),
            old(self)@.well_formed() ==> final(self)@.well_formed(),
    {
        match &message.interface {
            Some(interface) => {
                let key = interface.clone();
                let value = owner.clone();
                match direction {
                    Direction::UpToDown => self.downstream_owners.remember(key, value),
                    Direction::DownToUp => self.upstream_owners.remember(key, value),
                }
            },
            None => {},
        }
        message.addressed_to(owner)
    }

    /// Sends `draft` on in `direction` under the serial `serial`: records
    /// where it came from, for the reply that may come, and stamps it with the
    /// serial and with `own_address`, the address of the destination
    /// connection, if it has one.
    pub fn dispatch_with(
        &mut self,
        direction: Direction,
        draft: Message,
        serial: u32,
        own_address: Option<String>,
    ) -> (outgoing: Message)
        ensures
            final(self)@ == old(self)@.after_dispatch(direction, draft@, serial),
            final(self).windows_set() == old(self).windows_set(),
            outgoing@ == draft@.stamped(serial, own_address.deep_view()),
            old(self)@.well_formed() && draft@.well_formed() ==> final(self)@.well_formed(),
            draft@.well_formed() && serial != 0 ==> outgoing@.well_formed(),
    {
        let record = draft.origin();
        match direction {
            Direction::UpToDown => self.awaited_downstream.insert(serial, record),
            Direction::DownToUp => self.awaited_upstream.insert(serial, record),
        }
        proof {
            if old(self)@.well_formed() && draft@.well_formed() {
                assert(draft@.origin().well_formed());
                assert forall|other: u32| #[trigger]
                    self@.awaited_upstream.contains_key(other) implies self@.awaited_upstream[other].well_formed() by {
                    if !(direction == Direction::DownToUp && other == serial) {
                        assert(old(self)@.awaited_upstream.contains_key(other));
                    }
                }
                assert forall|other: u32| #[trigger]
                    self@.awaited_downstream.contains_key(other) implies self@.awaited_downstream[other].well_formed() by {
                    if !(direction == Direction::UpToDown && other == serial) {
                        assert(old(self)@.awaited_downstream.contains_key(other));
                    }
                }
            }
        }
        draft.stamped(serial, own_address)
    }

    /// Sends `draft` on in `direction` under a serial of its own, drawn from
    /// the counter that numbers all messages of this process.
    pub fn dispatch(&mut self, direction: Direction, draft: Message, own_address: Option<String>) -> (outgoing:
        Message)
        ensures
            outgoing@.serial != 0,
            final(self)@ == old(self)@.after_dispatch(direction, draft@, outgoing@.serial),
            final(self).windows_set() == old(self).windows_set(),
            outgoing@ == draft@.stamped(outgoing@.serial, own_address.deep_view()),
            old(self)@.well_formed() && draft@.well_formed() ==> final(self)@.well_formed(),
            draft@.well_formed() ==> outgoing@.well_formed(),
    {
        let serial = next_serial();
        self.dispatch_with(direction, draft, serial, own_address)
    }
}

} // verus!
