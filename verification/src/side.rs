//! The forwarding loop of one direction, as a machine that is told what
//! happened on the buses and answers what to do next.

use crate::bridge::{stale_route, Bridge, BridgeView, Direction, Route, RouteView};
use crate::message::{clone_text, Message, MessageView};
use vstd::prelude::*;

verus! {

/// The step of the loop at which a failure ended it.
#[derive(Clone, Copy, Debug, PartialEq, Eq, Structural)]
pub enum Stage {
    /// Reading the next message from the source.
    Receive,
    /// Asking the destination's directory for the owner of the service.
    Resolve,
    /// Sending the rewritten message to the destination.
    Send,
}

impl Stage {
    /// What the gateway was doing at the stage, in words.
    pub open spec fn context(self) -> Seq<char> {
        match self {
            Stage::Receive => "Error receiving message from source"@,
            Stage::Resolve => "Error looking up destination name"@,
            Stage::Send => "Error forwarding upstream message to destination"@,
        }
    }

    /// What the gateway was doing at the stage, in words.
    pub fn describe(&self) -> (text: String)
        ensures
            text@ == self.context(),
    {
        match self {
            Stage::Receive => "Error receiving message from source".to_owned(),
            Stage::Resolve => "Error looking up destination name".to_owned(),
            Stage::Send => "Error forwarding upstream message to destination".to_owned(),
        }
    }
}

/// A failure that ended a loop: where it struck, and what the bus said.
#[derive(Clone, Debug, PartialEq, Eq)]
pub struct Failure {
    pub stage: Stage,
    pub detail: String,
}

/// A failure as a mathematical value.
pub struct FailureView {
    pub stage: Stage,
    pub detail: Seq<char>,
}

impl View for Failure {
    type V = FailureView;

    open spec fn view(&self) -> FailureView {
        FailureView { stage: self.stage, detail: self.detail@ }
    }
}

/// How a loop ended.
#[derive(Clone, Debug, PartialEq, Eq)]
pub enum Outcome {
    /// The shared shutdown signal was raised while the loop waited.
    Cancelled,
    /// The source closed its stream.
    Finished,
    /// A step failed.
    Failed(Failure),
}

/// An outcome as a mathematical value.
pub enum OutcomeView {
    Cancelled,
    Finished,
    Failed(FailureView),
}

impl View for Outcome {
    type V = OutcomeView;

    open spec fn view(&self) -> OutcomeView {
        match self {
            Outcome::Cancelled => OutcomeView::Cancelled,
            Outcome::Finished => OutcomeView::Finished,
            Outcome::Failed(failure) => OutcomeView::Failed(failure@),
        }
    }
}

/// What happened on the buses since the loop's last action.
#[derive(Clone, Debug, PartialEq, Eq)]
pub enum Event {
    /// The source delivered a message.
    Received(Message),
    /// The source closed its stream.
    EndOfStream,
    /// Reading from the source failed.
    ReceiveFailed(String),
    /// The destination's directory named the owner of the service, for the
    /// message that the loop had handed out to be resolved.
    Resolved { message: Message, owner: String },
    /// The directory lookup failed.
    ResolveFailed(String),
    /// The destination took the message.
    Sent,
    /// Sending to the destination failed.
    SendFailed(String),
    /// The shared shutdown signal was raised.
    Cancelled,
}

/// An event as a mathematical value.
pub enum EventView {
    Received(MessageView),
    EndOfStream,
    ReceiveFailed(Seq<char>),
    Resolved { message: MessageView, owner: Seq<char> },
    ResolveFailed(Seq<char>),
    Sent,
    SendFailed(Seq<char>),
    Cancelled,
}

impl View for Event {
    type V = EventView;

    open spec fn view(&self) -> EventView {
        match self {
            Event::Received(message) => EventView::Received(message@),
            Event::EndOfStream => EventView::EndOfStream,
            Event::ReceiveFailed(detail) => EventView::ReceiveFailed(detail@),
            Event::Resolved { message, owner } => EventView::Resolved {
                message: message@,
                owner: owner@,
            },
            Event::ResolveFailed(detail) => EventView::ResolveFailed(detail@),
            Event::Sent => EventView::Sent,
            Event::SendFailed(detail) => EventView::SendFailed(detail@),
            Event::Cancelled => EventView::Cancelled,
        }
    }
}

/// What the loop does next.
#[derive(Clone, Debug, PartialEq, Eq)]
pub enum Action {
    /// Wait for the next message from the source.
    Receive,
    /// Warn that no request is known for a reply to this serial, then wait for
    /// the next message from the source.
    Warn { reply_serial: u32 },
    /// Ask the destination's directory who owns the service, and come back
    /// with this message and the answer.
    Resolve(Message),
    /// Send this message on the destination.
    Send(Message),
    /// Raise the shared shutdown signal and end.
    Stop,
}

/// An action as a mathematical value.
pub enum ActionView {
    Receive,
    Warn { reply_serial: u32 },
    Resolve(MessageView),
    Send(MessageView),
    Stop,
}

impl View for Action {
    type V = ActionView;

    open spec fn view(&self) -> ActionView {
        match self {
            Action::Receive => ActionView::Receive,
            Action::Warn { reply_serial } => ActionView::Warn { reply_serial: *reply_serial },
            Action::Resolve(message) => ActionView::Resolve(message@),
            Action::Send(message) => ActionView::Send(message@),
            Action::Stop => ActionView::Stop,
        }
    }
}

impl ActionView {
    /// The message that the action carries, if any, is well formed.
    pub open spec fn well_formed(self) -> bool {
        match self {
            ActionView::Resolve(message) => message.well_formed(),
            ActionView::Send(message) => message.well_formed(),
            _ => true,
        }
    }
}

impl EventView {
    /// The message that the event carries, if any, is well formed.
    pub open spec fn well_formed(self) -> bool {
        match self {
            EventView::Received(message) => message.well_formed(),
            EventView::Resolved { message, owner } => message.well_formed(),
            _ => true,
        }
    }

    /// How the event ends a running loop, if it does: the end of the stream
    /// and the shutdown signal end it without a failure, and a failure of any
    /// step ends it with that failure.
    pub open spec fn ending(self) -> Option<OutcomeView> {
        match self {
            EventView::EndOfStream => Some(OutcomeView::Finished),
            EventView::Cancelled => Some(OutcomeView::Cancelled),
            EventView::ReceiveFailed(detail) => Some(
                OutcomeView::Failed(FailureView { stage: Stage::Receive, detail }),
            ),
            EventView::ResolveFailed(detail) => Some(
                OutcomeView::Failed(FailureView { stage: Stage::Resolve, detail }),
            ),
            EventView::SendFailed(detail) => Some(
                OutcomeView::Failed(FailureView { stage: Stage::Send, detail }),
            ),
            _ => None,
        }
    }
}

/// `draft` was sent on in `direction`: the action sends it under a serial that
/// is not zero, stamped with that serial and with `own_address`, and the
/// bridge has recorded under that serial where `draft` came from.
pub open spec fn sent_on(
    before: BridgeView,
    direction: Direction,
    draft: MessageView,
    own_address: Option<Seq<char>>,
    after: BridgeView,
    action: ActionView,
) -> bool {
    action matches ActionView::Send(outgoing) && outgoing.serial != 0 && outgoing == draft.stamped(
        outgoing.serial,
        own_address,
    ) && after == before.after_dispatch(direction, draft, outgoing.serial)
}

/// The loop acted on the routing decision `route`: a message that is ready
/// was sent on, one that needs its owner was handed out to be resolved, and
/// one that was dropped left the bridge as it was.
pub open spec fn acted_on(
    before: BridgeView,
    direction: Direction,
    route: RouteView,
    own_address: Option<Seq<char>>,
    after: BridgeView,
    action: ActionView,
) -> bool {
    match route {
        RouteView::Filtered => action == ActionView::Receive && after == before,
        RouteView::Unmatched { reply_serial } => action == (ActionView::Warn { reply_serial })
            && after == before,
        RouteView::Resolve(message) => action == ActionView::Resolve(message) && after == before,
        RouteView::Ready(draft) => sent_on(before, direction, draft, own_address, after, action),
    }
}

/// The loop relayed `message`: it routed it, and acted on the decision that
/// the caches' answers led to, whether they still held their entries or had
/// dropped them.
pub open spec fn relayed(
    before: BridgeView,
    direction: Direction,
    message: MessageView,
    own_address: Option<Seq<char>>,
    after: BridgeView,
    action: ActionView,
) -> bool {
    let routed = before.after_route(direction, message);
    acted_on(routed, direction, before.fresh_route(direction, message), own_address, after, action)
        || acted_on(routed, direction, stale_route(message), own_address, after, action)
}

/// A loop as a mathematical value.
pub struct SideView {
    pub direction: Direction,
    pub own_address: Option<Seq<char>>,
    pub outcome: Option<OutcomeView>,
}

impl SideView {
    /// The loop has not ended.
    pub open spec fn running(self) -> bool {
        self.outcome is None
    }

    /// This loop, ended with `outcome`.
    pub open spec fn stopped_with(self, outcome: OutcomeView) -> SideView {
        SideView { outcome: Some(outcome), ..self }
    }
}

/// The loop `side`, told of `event` while the bridge was `bridge`, answered
/// `action` and left itself as `next_side` and the bridge as `next_bridge`.
///
/// A loop that has ended stays as it is and answers `Stop`. A running loop
/// ends on the end of the stream, on the shutdown signal and on the failure of
/// any step, and then leaves the bridge alone. It relays a message that was
/// received, sends on a message whose owner was resolved, and after a message
/// was sent it waits for the next.
pub open spec fn reaction(
    side: SideView,
    bridge: BridgeView,
    event: EventView,
    next_side: SideView,
    next_bridge: BridgeView,
    action: ActionView,
) -> bool {
    if !side.running() {
        action == ActionView::Stop && next_side == side && next_bridge == bridge
    } else {
        match event.ending() {
            Some(outcome) => action == ActionView::Stop && next_side == side.stopped_with(outcome)
                && next_bridge == bridge,
            None => next_side == side && match event {
                EventView::Received(message) => relayed(
                    bridge,
                    side.direction,
                    message,
                    side.own_address,
                    next_bridge,
                    action,
                ),
                EventView::Resolved { message, owner } => sent_on(
                    bridge.after_adoption(side.direction, message, owner),
                    side.direction,
                    message.addressed_to(owner),
                    side.own_address,
                    next_bridge,
                    action,
                ),
                _ => action == ActionView::Receive && next_bridge == bridge,
            },
        }
    }
}

/// The forwarding loop of one direction. It runs until it has an outcome, and
/// never runs again after that.
pub struct Side {
    direction: Direction,
    own_address: Option<String>,
    outcome: Option<Outcome>,
}

impl View for Side {
    type V = SideView;

    closed spec fn view(&self) -> SideView {
        SideView {
            direction: self.direction,
            own_address: self.own_address.deep_view(),
            outcome: match self.outcome {
                Some(outcome) => Some(outcome@),
                None => None,
            },
        }
    }
}

impl Side {
    /// A running loop that relays in `direction`. `own_address` is the address
    /// of the gateway's connection to the destination bus, if it has one.
    pub fn new(direction: Direction, own_address: Option<String>) -> (side: Self)
        ensures
            side@ == (SideView {
                direction: direction,
                own_address: own_address.deep_view(),
                outcome: None,
            }),
    {
        Side { direction, own_address, outcome: None }
    }

    /// The direction in which the loop relays.
    pub fn direction(&self) -> (direction: Direction)
        ensures
            direction == self@.direction,
    {
        self.direction
    }

    /// Tells whether the loop has not ended.
    pub fn is_running(&self) -> (running: bool)
        ensures
            running == self@.running(),
    {
        self.outcome.is_none()
    }

    /// How the loop ended, if it has.
    pub fn finish(self) -> (outcome: Option<Outcome>)
        ensures
            match outcome {
                Some(ended) => self@.outcome == Some(ended@),
                None => self@.outcome is None,
            },
    {
        self.outcome
    }

    /// Tells the loop what happened, and learns what to do next.
    ///
    /// A loop that has ended stays as it is and answers `Stop`. A running loop
    /// ends on the end of the stream, on the shutdown signal and on the
    /// failure of any step. It relays a message that was received, sends on a
    /// message whose owner was resolved, and after a message was sent it waits
    /// for the next.
    pub fn step(&mut self, bridge: &mut Bridge, event: Event) -> (action: Action)
        ensures
            final(bridge).windows_set() == old(bridge).windows_set(),
            old(bridge)@.well_formed() && event@.well_formed() ==> final(bridge)@.well_formed()
                && action@.well_formed(),
            reaction(
                old(self)@,
                old(bridge)@,
                event@,
                final(self)@,
                final(bridge)@,
                action@,
            ),
    {
        if self.outcome.is_some() {
            return Action::Stop;
        }
        match event {
            Event::Received(message) => {
                match bridge.route(self.direction, message) {
                    Route::Filtered => Action::Receive,
                    Route::Unmatched { reply_serial } => Action::Warn { reply_serial },
                    Route::Resolve(unresolved) => Action::Resolve(unresolved),
                    Route::Ready(draft) => {
                        let own_address = clone_text(&self.own_address);
                        Action::Send(bridge.dispatch(self.direction, draft, own_address))
                    },
                }
            },
            Event::Resolved { message, owner } => {
                let draft = bridge.adopt_owner(self.direction, message, owner);
                let own_address = clone_text(&self.own_address);
                Action::Send(bridge.dispatch(self.direction, draft, own_address))
            },
            Event::Sent => Action::Receive,
            Event::EndOfStream => {
                self.outcome = Some(Outcome::Finished);
                Action::Stop
            },
            Event::Cancelled => {
                self.outcome = Some(Outcome::Cancelled);
                Action::Stop
            },
            Event::ReceiveFailed(detail) => {
                self.outcome = Some(Outcome::Failed(Failure { stage: Stage::Receive, detail }));
                Action::Stop
            },
            Event::ResolveFailed(detail) => {
                self.outcome = Some(Outcome::Failed(Failure { stage: Stage::Resolve, detail }));
                Action::Stop
            },
            Event::SendFailed(detail) => {
                self.outcome = Some(Outcome::Failed(Failure { stage: Stage::Send, detail }));
                Action::Stop
            },
        }
    }
}

} // verus!
