//! Passing RAIL's events on to the user.

use vstd::prelude::*;

use crate::error::RailError;
use crate::operation::{Operation, Progress, Trace};
use crate::radio::{Radio, RadioEvent};
use crate::rail::{RailCall, RailConstants, RailReply};

verus! {

/// What the user is told when RAIL reports `event`, if anything. Only the lower 32
/// bits count, and they have to be exactly one of the two events that matter.
pub open spec fn announced(rail: RailConstants, event: u64) -> Option<RadioEvent> {
    if event % 0x1_0000_0000 == rail.event_rx_packet_received {
        Some(RadioEvent::PacketReceived)
    } else if event % 0x1_0000_0000 == rail.event_tx_packet_sent {
        Some(RadioEvent::PacketSent)
    } else {
        None
    }
}

/// How far a [`Notify`] has come: the call that it waits on.
#[derive(Debug, Clone, Copy, PartialEq, Eq, Structural)]
pub enum NotifyStage {
    HoldPacket,
    GetConfig,
    Invoke { callback: usize },
}

/// Tells the user of an event, through the function whose address RAIL's
/// configuration holds.
#[derive(Debug, Clone, Copy, PartialEq, Eq, Structural)]
pub struct Notify {
    pub rail_handle: usize,
    pub event: RadioEvent,
    pub stage: NotifyStage,
}

impl<'p> Operation<'p> for Notify {
    type Output = ();

    open spec fn pending(self) -> RailCall<'p> {
        match self.stage {
            NotifyStage::HoldPacket => RailCall::HoldRxPacket { rail_handle: self.rail_handle },
            NotifyStage::GetConfig => RailCall::GetConfig { rail_handle: self.rail_handle },
            NotifyStage::Invoke { callback } => RailCall::InvokeCallback {
                callback,
                event: self.event,
            },
        }
    }

    open spec fn admits(self, reply: RailReply) -> bool {
        true
    }

    open spec fn after(self, reply: RailReply) -> Progress<Self, ()> {
        match (self.stage, reply) {
            (NotifyStage::HoldPacket, RailReply::Nothing) => Progress::Pending(
                Notify { stage: NotifyStage::GetConfig, ..self },
            ),
            (NotifyStage::GetConfig, RailReply::Config { opaque_handle1 }) => Progress::Pending(
                Notify { stage: NotifyStage::Invoke { callback: opaque_handle1 }, ..self },
            ),
            (NotifyStage::Invoke { .. }, RailReply::Nothing) => Progress::Done(Ok(())),
            _ => Progress::Pending(self),
        }
    }

    open spec fn remaining(self) -> nat {
        match self.stage {
            NotifyStage::HoldPacket => 3,
            NotifyStage::GetConfig => 2,
            NotifyStage::Invoke { .. } => 1,
        }
    }

    proof fn law_progress(self, reply: RailReply) {
    }

    fn call(&self) -> (call: RailCall<'p>) {
        let rail_handle: usize = self.rail_handle;
        match self.stage {
            NotifyStage::HoldPacket => Radio::from(rail_handle).hold_packet(),
            NotifyStage::GetConfig => RailCall::GetConfig { rail_handle },
            NotifyStage::Invoke { callback } => RailCall::InvokeCallback {
                callback,
                event: self.event,
            },
        }
    }

    fn can_resume(&self, _reply: &RailReply) -> (can: bool) {
        true
    }

    fn resume(self, reply: RailReply) -> (progress: Progress<Self, ()>) {
        match (self.stage, reply) {
            (NotifyStage::HoldPacket, RailReply::Nothing) => Progress::Pending(
                Radio::from(self.rail_handle).trigger_event_callback(self.event),
            ),
            (NotifyStage::GetConfig, RailReply::Config { opaque_handle1 }) => Progress::Pending(
                Notify { stage: NotifyStage::Invoke { callback: opaque_handle1 }, ..self },
            ),
            (NotifyStage::Invoke { .. }, RailReply::Nothing) => Progress::Done(Ok(())),
            _ => Progress::Pending(self),
        }
    }
}

/// Handles an event that RAIL reports for the instance `rail_handle`: a received
/// packet is held in RAIL's queue, so that it can still be read later, and then the
/// user is told of it; of a sent packet the user is told. Any other event is ignored.
pub fn events_callback(rail: &RailConstants, rail_handle: usize, event: u64) -> (op: Option<
    Notify,
>)
    ensures
        op == match announced(*rail, event) {
            Some(RadioEvent::PacketReceived) => Some(
                Notify {
                    rail_handle,
                    event: RadioEvent::PacketReceived,
                    stage: NotifyStage::HoldPacket,
                },
            ),
            Some(RadioEvent::PacketSent) => Some(
                Notify {
                    rail_handle,
                    event: RadioEvent::PacketSent,
                    stage: NotifyStage::GetConfig,
                },
            ),
            None => None,
        },
        op is Some <==> (event % 0x1_0000_0000 == rail.event_rx_packet_received || event
            % 0x1_0000_0000 == rail.event_tx_packet_sent),
        op matches Some(notify) ==> notify.rail_handle == rail_handle && (notify.event
            == RadioEvent::PacketReceived <==> event % 0x1_0000_0000
            == rail.event_rx_packet_received),
{
    assert(event as u32 == event % 0x1_0000_0000) by (bit_vector);
    let word: u32 = #[verifier::truncate] (event as u32);
    if word == rail.event_rx_packet_received {
        Some(
            Notify {
                rail_handle,
                event: RadioEvent::PacketReceived,
                stage: NotifyStage::HoldPacket,
            },
        )
    } else if word == rail.event_tx_packet_sent {
        Some(Radio::from(rail_handle).trigger_event_callback(RadioEvent::PacketSent))
    } else {
        None
    }
}

/// A packet that was received is held before the user hears of it, so that the user
/// can still read it then.
pub proof fn law_received_packet_is_held_first(rail_handle: usize, callback: usize)
    ensures
        crate::operation::run(
            Notify {
                rail_handle,
                event: RadioEvent::PacketReceived,
                stage: NotifyStage::HoldPacket,
            },
            seq![
                RailReply::Nothing,
                RailReply::Config { opaque_handle1: callback },
                RailReply::Nothing,
            ],
        ) == (Trace {
            calls: seq![
                RailCall::HoldRxPacket { rail_handle },
                RailCall::GetConfig { rail_handle },
                RailCall::InvokeCallback { callback, event: RadioEvent::PacketReceived },
            ],
            outcome: Some(Ok::<(), RailError>(())),
        }),
{
    reveal_with_fuel(crate::operation::run, 4);
}

/// The user hears of an event through the function that the radio was brought up
/// with, provided that RAIL hands back the configuration that it was given.
pub proof fn law_user_is_told(
    rail: RailConstants,
    rail_handle: usize,
    on_radio_event: usize,
    event: RadioEvent,
)
    ensures
        crate::operation::run(
            Notify { rail_handle, event, stage: NotifyStage::GetConfig },
            seq![
                RailReply::Config {
                    opaque_handle1: Radio::rail_config(rail, on_radio_event).opaque_handle1,
                },
                RailReply::Nothing,
            ],
        ) == (Trace {
            calls: seq![
                RailCall::GetConfig { rail_handle },
                RailCall::InvokeCallback { callback: on_radio_event, event },
            ],
            outcome: Some(Ok::<(), RailError>(())),
        }),
{
    reveal_with_fuel(crate::operation::run, 3);
}

/// Whatever event is passed on to the user is one that RAIL was asked to report.
pub proof fn law_announced_events_are_subscribed(rail: RailConstants, event: u64)
    requires
        announced(rail, event) is Some,
    ensures
        crate::startup::subscribed_events(rail) & (event % 0x1_0000_0000) == event
            % 0x1_0000_0000,
{
    let sent = rail.event_tx_packet_sent;
    let received = rail.event_rx_packet_received;
    let broken = rail.event_rx_frame_error;
    assert((sent | received | broken) as u64 & sent as u64 == sent as u64) by (bit_vector);
    assert((sent | received | broken) as u64 & received as u64 == received as u64)
        by (bit_vector);
}

/// What the user hears of: exactly the two events that matter, by the lower half of
/// what RAIL reports, and of a received packet if both have the same bit. The upper
/// half makes no difference.
pub proof fn law_what_is_announced(rail: RailConstants, event: u64, other: u64)
    ensures
        announced(rail, event) == Some(RadioEvent::PacketReceived) <==> event % 0x1_0000_0000
            == rail.event_rx_packet_received,
        announced(rail, event) == Some(RadioEvent::PacketSent) <==> (event % 0x1_0000_0000
            == rail.event_tx_packet_sent && event % 0x1_0000_0000
            != rail.event_rx_packet_received),
        announced(rail, event) is None <==> (event % 0x1_0000_0000
            != rail.event_rx_packet_received && event % 0x1_0000_0000
            != rail.event_tx_packet_sent),
        event % 0x1_0000_0000 == other % 0x1_0000_0000 ==> announced(rail, event) == announced(
            rail,
            other,
        ),
{
}

/// Whatever RAIL replies, and wherever it starts: the user only ever hears of the event
/// in question, and where every reply answers its call, through the function whose
/// address was the reply just before.
pub proof fn law_user_hears_through_the_configured_function(
    op: Notify,
    replies: Seq<RailReply>,
    i: int,
)
    requires
        !(op.stage is Invoke),
        crate::operation::answered(op, replies),
        0 <= i < crate::operation::run(op, replies).calls.len(),
    ensures
        crate::operation::run(op, replies).calls[i] matches RailCall::InvokeCallback {
            callback,
            event,
        } ==> (event == op.event && 0 < i <= replies.len() && replies[i - 1]
            == (RailReply::Config { opaque_handle1: callback })),
{
    lemma_configured_function(op, replies, i);
}

/// Where the function that the user hears through comes from, at any stage.
proof fn lemma_configured_function(op: Notify, replies: Seq<RailReply>, i: int)
    requires
        crate::operation::answered(op, replies),
        0 <= i < crate::operation::run(op, replies).calls.len(),
    ensures
        crate::operation::run(op, replies).calls[i] matches RailCall::InvokeCallback {
            callback,
            event,
        } ==> (event == op.event && if i == 0 {
            op.stage == (NotifyStage::Invoke { callback })
        } else {
            i <= replies.len() && replies[i - 1] == (RailReply::Config { opaque_handle1: callback })
        }),
    decreases replies.len(),
{
    if i > 0 {
        let calls = crate::operation::run(op, replies).calls;
        if let Progress::Pending(next) = op.after(replies[0]) {
            let rest = replies.drop_first();
            lemma_configured_function(next, rest, i - 1);
            assert(calls[i] == crate::operation::run(next, rest).calls[i - 1]);
        }
    }
}

/// Telling the user goes on from every reply.
pub proof fn law_notifying_goes_on(op: Notify, reply: RailReply)
    ensures
        op.admits(reply),
{
}

} // verus!
