//! What holds of the gateway as a whole, proved from the contracts of its
//! parts.

use crate::bridge::{stale_route, BridgeView, Direction, RouteView};
use crate::gateway::{failures_of, status_of};
use crate::message::{Handling, MessageView};
use crate::side::{reaction, ActionView, EventView, FailureView, OutcomeView, SideView};
use vstd::prelude::*;

verus! {

/// A reply finds its caller. Once a message has been sent on in one direction
/// under a serial, a reply to that serial that arrives the other way while the
/// record is still held is addressed to the sender of the message, if it named
/// one, and answers the serial that the message came with. The record is then
/// used up: a second reply to the same serial finds none.
pub proof fn reply_finds_its_caller(
    bridge: BridgeView,
    direction: Direction,
    forwarded: MessageView,
    serial: u32,
    reply: MessageView,
)
    requires
        reply.reply_serial == Some(serial),
        !reply.is_filtered(),
    ensures
        ({
            let sent = bridge.after_dispatch(direction, forwarded, serial);
            let back = direction.reversed();
            let answer = reply.answering(forwarded.origin());
            let answered = sent.after_route(back, reply);
            &&& sent.fresh_route(back, reply) == RouteView::Ready(answer)
            &&& answer.reply_serial == Some(forwarded.serial)
            &&& forwarded.sender is Some ==> answer.destination == forwarded.sender
            &&& forwarded.sender is None ==> answer.destination == reply.destination
            &&& !answered.forward(back).contains_key(serial)
            &&& answered.fresh_route(back, reply) == RouteView::Unmatched { reply_serial: serial }
        }),
{
}

/// A round trip through the two loops. After one loop has sent a message on,
/// be it as it was received or after its owner was resolved, the loop of the
/// other direction, told next of a reply to the serial of the message that
/// went out, either sends that reply to the sender of the first message, in
/// reply to the serial that the first message came with and with its own
/// payload, or warns that the record is gone. Either way the record is held no
/// longer and the loop runs on.
pub proof fn reply_round_trip(
    calling: SideView,
    answering: SideView,
    bridge: BridgeView,
    call: MessageView,
    owner: Seq<char>,
    called: BridgeView,
    outgoing: MessageView,
    reply: MessageView,
    next_answering: SideView,
    answered: BridgeView,
    action: ActionView,
)
    requires
        calling.running(),
        answering.running(),
        answering.direction == calling.direction.reversed(),
        reaction(
            calling,
            bridge,
            EventView::Received(call),
            calling,
            called,
            ActionView::Send(outgoing),
        ) || reaction(
            calling,
            bridge,
            EventView::Resolved { message: call, owner },
            calling,
            called,
            ActionView::Send(outgoing),
        ),
        reply.reply_serial == Some(outgoing.serial),
        !reply.is_filtered(),
        reaction(answering, called, EventView::Received(reply), next_answering, answered, action),
    ensures
        next_answering == answering,
        !answered.forward(answering.direction).contains_key(outgoing.serial),
        action == (ActionView::Warn { reply_serial: outgoing.serial }) || (action matches ActionView::Send(
            answer,
        ) && answer.reply_serial == Some(call.serial) && (call.sender is Some ==> answer.destination
            == call.sender) && (call.sender is None ==> answer.destination == reply.destination)
            && answer.kind == reply.kind && answer.body == reply.body && answer.signature
            == reply.signature),
{
}

/// A reply without a record is dropped, and the loop goes on. A running loop
/// that receives a reply whose reply serial has no record, because none was
/// made or because an earlier reply used it up, warns of that serial, sends
/// nothing, leaves the bridge as it was and keeps running.
pub proof fn unmatched_reply_is_dropped(
    side: SideView,
    bridge: BridgeView,
    reply: MessageView,
    next_side: SideView,
    next_bridge: BridgeView,
    action: ActionView,
)
    requires
        side.running(),
        reply.handling() == Handling::Reply,
        !bridge.forward(side.direction).contains_key(reply.reply_serial.unwrap()),
        reaction(side, bridge, EventView::Received(reply), next_side, next_bridge, action),
    ensures
        action == (ActionView::Warn { reply_serial: reply.reply_serial.unwrap() }),
        next_bridge == bridge,
        next_side == side,
        next_side.running(),
{
    let serial = reply.reply_serial.unwrap();
    assert(bridge.forward(side.direction).remove(serial) =~= bridge.forward(side.direction));
    assert(bridge.after_route(side.direction, reply) =~= bridge);
}

/// A record that the cache has dropped is as good as none: whatever the
/// bridge was given, a reply whose record is no longer held is unmatched.
pub proof fn dropped_record_leaves_reply_unmatched(reply: MessageView)
    requires
        reply.handling() == Handling::Reply,
    ensures
        stale_route(reply) == (RouteView::Unmatched {
            reply_serial: reply.reply_serial.unwrap(),
        }),
{
}

/// A message sent on under a serial that no pending record of its destination
/// uses leaves every pending record as it was, on both buses, and adds its
/// own.
pub proof fn unused_serial_keeps_pending_records(
    bridge: BridgeView,
    direction: Direction,
    draft: MessageView,
    serial: u32,
)
    requires
        !bridge.reverse(direction).contains_key(serial),
    ensures
        ({
            let sent = bridge.after_dispatch(direction, draft, serial);
            &&& sent.forward(direction) == bridge.forward(direction)
            &&& sent.reverse(direction).contains_key(serial)
            &&& sent.reverse(direction)[serial] == draft.origin()
            &&& forall|other: u32| #[trigger]
                bridge.reverse(direction).contains_key(other) ==> sent.reverse(
                    direction,
                ).contains_key(other) && sent.reverse(direction)[other] == bridge.reverse(
                    direction,
                )[other]
            &&& forall|other: u32| #[trigger]
                sent.reverse(direction).contains_key(other) ==> other == serial || bridge.reverse(
                    direction,
                ).contains_key(other)
        }),
{
}

/// An owner that was resolved is used again. Once the directory's answer for
/// a message has been taken, a message of the same interface to a named
/// destination is addressed to that owner without a new lookup while the
/// entry is still held, and is handed out to be resolved anew once the cache
/// has dropped the entry.
pub proof fn resolved_owner_is_reused(
    bridge: BridgeView,
    direction: Direction,
    first: MessageView,
    owner: Seq<char>,
    second: MessageView,
)
    requires
        first.interface is Some,
        second.interface == first.interface,
        second.handling() == Handling::Addressed,
    ensures
        bridge.after_adoption(direction, first, owner).fresh_route(direction, second)
            == RouteView::Ready(second.addressed_to(owner)),
        stale_route(second) == RouteView::Resolve(second),
{
}

/// Two resolutions in one loop. After a loop has sent on a message whose
/// owner the directory named, the same loop, told next of a message of the
/// same interface to a named destination, either sends it to that owner,
/// asking nobody, or hands it out to be resolved anew; it never sends it
/// anywhere else.
pub proof fn second_resolution_reuses_or_asks(
    side: SideView,
    bridge: BridgeView,
    first: MessageView,
    owner: Seq<char>,
    resolved: BridgeView,
    outgoing: MessageView,
    second: MessageView,
    next_side: SideView,
    next_bridge: BridgeView,
    action: ActionView,
)
    requires
        side.running(),
        first.interface is Some,
        second.interface == first.interface,
        second.handling() == Handling::Addressed,
        reaction(
            side,
            bridge,
            EventView::Resolved { message: first, owner },
            side,
            resolved,
            ActionView::Send(outgoing),
        ),
        reaction(side, resolved, EventView::Received(second), next_side, next_bridge, action),
    ensures
        outgoing.destination == Some(owner),
        next_side == side,
        (action == ActionView::Resolve(second) && next_bridge == resolved) || (action matches ActionView::Send(
            sent,
        ) && sent.destination == Some(owner)),
{
}

/// The filtered signal is never forwarded. A running loop that receives a
/// message whose member is `NameAcquired`, whatever else its header says,
/// sends nothing, leaves the bridge as it was and waits for the next message.
pub proof fn filtered_signal_is_never_forwarded(
    side: SideView,
    bridge: BridgeView,
    signal: MessageView,
    next_side: SideView,
    next_bridge: BridgeView,
    action: ActionView,
)
    requires
        side.running(),
        signal.is_filtered(),
        reaction(side, bridge, EventView::Received(signal), next_side, next_bridge, action),
    ensures
        action == ActionView::Receive,
        next_bridge == bridge,
        next_side == side,
{
}

/// A loop sends only what it was given. Whatever a running loop sends after
/// it has received a message carries the kind, interface, member, signature
/// and body of that message, and a serial that is not zero.
pub proof fn relayed_message_keeps_its_content(
    side: SideView,
    bridge: BridgeView,
    message: MessageView,
    next_side: SideView,
    next_bridge: BridgeView,
    outgoing: MessageView,
)
    requires
        side.running(),
        reaction(
            side,
            bridge,
            EventView::Received(message),
            next_side,
            next_bridge,
            ActionView::Send(outgoing),
        ),
    ensures
        outgoing.kind == message.kind,
        outgoing.interface == message.interface,
        outgoing.member == message.member,
        outgoing.signature == message.signature,
        outgoing.body == message.body,
        outgoing.serial != 0,
        side.own_address is Some ==> outgoing.sender == side.own_address,
        side.own_address is None ==> outgoing.sender == message.sender,
        next_bridge.reverse(side.direction).contains_key(outgoing.serial),
        next_bridge.reverse(side.direction)[outgoing.serial] == message.origin(),
{
}

/// The shutdown signal stops every loop. A running loop that is told of the
/// signal ends at once, without a failure, and leaves the bridge alone; a loop
/// that has ended answers every event with `Stop`.
pub proof fn shutdown_stops_the_loop(
    side: SideView,
    bridge: BridgeView,
    event: EventView,
    next_side: SideView,
    next_bridge: BridgeView,
    action: ActionView,
)
    requires
        reaction(side, bridge, event, next_side, next_bridge, action),
        event == EventView::Cancelled || !side.running(),
    ensures
        action == ActionView::Stop,
        !next_side.running(),
        next_bridge == bridge,
        side.running() ==> next_side.outcome == Some(OutcomeView::Cancelled),
        !side.running() ==> next_side == side,
{
}

/// A loop ends exactly on the end of its stream, on the shutdown signal and
/// on the failure of a step; and when it ends it answers `Stop`, which raises
/// the shutdown signal for all other loops.
pub proof fn loop_ends_when_told(
    side: SideView,
    bridge: BridgeView,
    event: EventView,
    next_side: SideView,
    next_bridge: BridgeView,
    action: ActionView,
)
    requires
        side.running(),
        reaction(side, bridge, event, next_side, next_bridge, action),
    ensures
        !next_side.running() <==> event.ending() is Some,
        !next_side.running() <==> action == ActionView::Stop,
        !next_side.running() ==> next_side.outcome == event.ending(),
{
}

/// The outcomes of some loops that have all ended, in their order.
pub open spec fn final_outcomes(sides: Seq<SideView>) -> Seq<OutcomeView> {
    sides.map_values(|side: SideView| side.outcome.unwrap())
}

/// No failure is lost. A failure with which any loop ended is among the
/// failures that the gateway reports, and the process then exits with a
/// status that is not zero.
pub proof fn failure_is_reported(outcomes: Seq<OutcomeView>, index: int, failure: FailureView)
    requires
        0 <= index < outcomes.len(),
        outcomes[index] == OutcomeView::Failed(failure),
    ensures
        failures_of(outcomes).contains(failure),
        status_of(failures_of(outcomes)) != 0,
    decreases outcomes.len(),
{
    let earlier = failures_of(outcomes.drop_last());
    if index == outcomes.len() - 1 {
        assert(failures_of(outcomes) == earlier.push(failure));
        assert(earlier.push(failure)[earlier.len() as int] == failure);
    } else {
        assert(outcomes.drop_last()[index] == outcomes[index]);
        failure_is_reported(outcomes.drop_last(), index, failure);
        let at = choose|at: int| 0 <= at < earlier.len() && earlier[at] == failure;
        match outcomes.last() {
            OutcomeView::Failed(last) => {
                assert(earlier.push(last)[at] == failure);
            },
            _ => {},
        }
    }
}

/// One failure winds the whole gateway down. If one running loop ends with a
/// failure and every other loop is then told of the shutdown signal, no loop
/// runs any more, every other loop that still ran has ended without a failure
/// of its own, and the failure is among those that the gateway reports, with
/// an exit status that is not zero.
pub proof fn one_failure_winds_the_gateway_down(
    sides: Seq<SideView>,
    bridges: Seq<BridgeView>,
    failed: int,
    failure: FailureView,
    next_sides: Seq<SideView>,
    next_bridges: Seq<BridgeView>,
    actions: Seq<ActionView>,
)
    requires
        0 <= failed < sides.len(),
        bridges.len() == sides.len(),
        next_sides.len() == sides.len(),
        next_bridges.len() == sides.len(),
        actions.len() == sides.len(),
        sides[failed].running(),
        next_sides[failed] == sides[failed].stopped_with(OutcomeView::Failed(failure)),
        forall|index: int|
            0 <= index < sides.len() && index != failed ==> #[trigger] reaction(
                sides[index],
                bridges[index],
                EventView::Cancelled,
                next_sides[index],
                next_bridges[index],
                actions[index],
            ),
    ensures
        forall|index: int| 0 <= index < sides.len() ==> !(#[trigger] next_sides[index]).running(),
        forall|index: int|
            0 <= index < sides.len() && index != failed && (#[trigger] sides[index]).running()
                ==> next_sides[index].outcome == Some(OutcomeView::Cancelled),
        failures_of(final_outcomes(next_sides)).contains(failure),
        status_of(failures_of(final_outcomes(next_sides))) != 0,
{
    assert forall|index: int| 0 <= index < sides.len() implies !(#[trigger] next_sides[index]).running() by {
        if index != failed {
            assert(reaction(
                sides[index],
                bridges[index],
                EventView::Cancelled,
                next_sides[index],
                next_bridges[index],
                actions[index],
            ));
        }
    }
    assert forall|index: int|
        0 <= index < sides.len() && index != failed && (#[trigger] sides[index]).running() implies next_sides[index].outcome
        == Some(OutcomeView::Cancelled) by {
        assert(reaction(
            sides[index],
            bridges[index],
            EventView::Cancelled,
            next_sides[index],
            next_bridges[index],
            actions[index],
        ));
    }
    assert(final_outcomes(next_sides)[failed] == OutcomeView::Failed(failure));
    failure_is_reported(final_outcomes(next_sides), failed, failure);
}

/// Only failures make the run fail. If every loop finished or was cancelled,
/// the gateway reports no failure and the process exits with status zero.
pub proof fn clean_run_succeeds(outcomes: Seq<OutcomeView>)
    requires
        forall|index: int| 0 <= index < outcomes.len() ==> !(#[trigger] outcomes[index]
            is Failed),
    ensures
        failures_of(outcomes).len() == 0,
        status_of(failures_of(outcomes)) == 0,
    decreases outcomes.len(),
{
    if outcomes.len() > 0 {
        assert forall|index: int| 0 <= index < outcomes.drop_last().len() implies !(
        #[trigger] outcomes.drop_last()[index] is Failed) by {
            assert(outcomes.drop_last()[index] == outcomes[index]);
        }
        clean_run_succeeds(outcomes.drop_last());
        assert(!(outcomes[outcomes.len() - 1] is Failed));
    }
}

} // verus!
