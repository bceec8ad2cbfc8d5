//! Listening for packets, and reading those that arrived.

use vstd::prelude::*;

use crate::error::{IntoRailResult, RailError};
use crate::operation::{Operation, Progress};
use crate::rail::{RailCall, RailConstants, RailReply};

verus! {

/// The packet handle by which RAIL is asked for the oldest packet that was received
/// completely (`SL_RAIL_RX_PACKET_HANDLE_OLDEST_COMPLETE`).
pub const OLDEST_COMPLETE_PACKET: usize = 2;

/// How far a [`ReadPacket`] has come: the call that it waits on.
#[derive(Debug, Clone, Copy, PartialEq, Eq, Structural)]
pub enum ReadStage {
    Info,
    Copy { packet_handle: usize, packet_bytes: u16 },
    Release { packet_handle: usize, packet_bytes: u16 },
}

/// Reads the oldest received packet into a buffer of `target_len` bytes and lets go
/// of it. Gives back the packet's size.
#[derive(Debug, Clone, Copy, PartialEq, Eq, Structural)]
pub struct ReadPacket {
    pub rail: RailConstants,
    pub rail_handle: usize,
    pub target_len: usize,
    pub stage: ReadStage,
}

impl<'p> Operation<'p> for ReadPacket {
    type Output = u16;

    open spec fn pending(self) -> RailCall<'p> {
        match self.stage {
            ReadStage::Info => RailCall::GetRxPacketInfo {
                rail_handle: self.rail_handle,
                packet_handle: OLDEST_COMPLETE_PACKET,
            },
            ReadStage::Copy { packet_handle, packet_bytes } => RailCall::CopyRxPacket {
                rail_handle: self.rail_handle,
                packet_handle,
                packet_bytes,
            },
            ReadStage::Release { packet_handle, .. } => RailCall::ReleaseRxPacket {
                rail_handle: self.rail_handle,
                packet_handle,
            },
        }
    }

    /// There is no place in an empty buffer to copy to, not even a packet without
    /// bytes.
    open spec fn admits(self, reply: RailReply) -> bool {
        match (self.stage, reply) {
            (ReadStage::Info, RailReply::PacketInfo { packet_handle, packet_bytes }) =>
                packet_handle == 0 || packet_bytes > 0 || self.target_len > 0,
            _ => true,
        }
    }

    open spec fn after(self, reply: RailReply) -> Progress<Self, u16> {
        match (self.stage, reply) {
            (ReadStage::Info, RailReply::PacketInfo { packet_handle, packet_bytes }) =>
                if packet_handle == 0 {
                    Progress::Done(Err(RailError::PacketBufferEmpty))
                } else if packet_bytes > self.target_len {
                    Progress::Done(Err(RailError::BufferTooSmall(packet_bytes)))
                } else {
                    Progress::Pending(
                        ReadPacket {
                            stage: ReadStage::Copy { packet_handle, packet_bytes },
                            ..self
                        },
                    )
                },
            (ReadStage::Copy { packet_handle, packet_bytes }, RailReply::Status(status)) =>
                match self.rail.status.result(status) {
                    Ok(()) => Progress::Pending(
                        ReadPacket {
                            stage: ReadStage::Release { packet_handle, packet_bytes },
                            ..self
                        },
                    ),
                    Err(error) => Progress::Done(Err(error)),
                },
            (ReadStage::Release { packet_bytes, .. }, RailReply::Status(status)) =>
                match self.rail.status.result(status) {
                    Ok(()) => Progress::Done(Ok(packet_bytes)),
                    Err(error) => Progress::Done(Err(error)),
                },
            _ => Progress::Pending(self),
        }
    }

    open spec fn remaining(self) -> nat {
        match self.stage {
            ReadStage::Info => 3,
            ReadStage::Copy { .. } => 2,
            ReadStage::Release { .. } => 1,
        }
    }

    proof fn law_progress(self, reply: RailReply) {
    }

    fn call(&self) -> (call: RailCall<'p>) {
        let rail_handle: usize = self.rail_handle;
        match self.stage {
            ReadStage::Info => RailCall::GetRxPacketInfo {
                rail_handle,
                packet_handle: OLDEST_COMPLETE_PACKET,
            },
            ReadStage::Copy { packet_handle, packet_bytes } => RailCall::CopyRxPacket {
                rail_handle,
                packet_handle,
                packet_bytes,
            },
            ReadStage::Release { packet_handle, .. } => RailCall::ReleaseRxPacket {
                rail_handle,
                packet_handle,
            },
        }
    }

    fn can_resume(&self, reply: &RailReply) -> (can: bool) {
        match (self.stage, *reply) {
            (ReadStage::Info, RailReply::PacketInfo { packet_handle, packet_bytes }) => {
                packet_handle == 0 || packet_bytes > 0 || self.target_len > 0
            },
            _ => true,
        }
    }

    fn resume(self, reply: RailReply) -> (progress: Progress<Self, u16>) {
        match (self.stage, reply) {
            (ReadStage::Info, RailReply::PacketInfo { packet_handle, packet_bytes }) => {
                if packet_handle == 0 {
                    return Progress::Done(Err(RailError::PacketBufferEmpty));
                }
                if packet_bytes as usize > self.target_len {
                    return Progress::Done(Err(RailError::BufferTooSmall(packet_bytes)));
                }
                Progress::Pending(
                    ReadPacket { stage: ReadStage::Copy { packet_handle, packet_bytes }, ..self },
                )
            },
            (ReadStage::Copy { packet_handle, packet_bytes }, RailReply::Status(status)) => {
                match self.rail.status.status(status).into_rail_result() {
                    Ok(()) => Progress::Pending(
                        ReadPacket {
                            stage: ReadStage::Release { packet_handle, packet_bytes },
                            ..self
                        },
                    ),
                    Err(error) => Progress::Done(Err(error)),
                }
            },
            (ReadStage::Release { packet_bytes, .. }, RailReply::Status(status)) => {
                match self.rail.status.status(status).into_rail_result() {
                    Ok(()) => Progress::Done(Ok(packet_bytes)),
                    Err(error) => Progress::Done(Err(error)),
                }
            },
            _ => Progress::Pending(self),
        }
    }
}

/// How far an [`EnableReceive`] has come: the call that it waits on.
#[derive(Debug, Clone, Copy, PartialEq, Eq, Structural)]
pub enum EnableStage {
    RxTransitions,
    TxTransitions,
    FirstChannel,
    StartRx { channel: u16 },
}

/// Makes the radio listen, now and whenever it has sent or received a packet.
#[derive(Debug, Clone, Copy, PartialEq, Eq, Structural)]
pub struct EnableReceive {
    pub rail: RailConstants,
    pub rail_handle: usize,
    pub stage: EnableStage,
}

impl<'p> Operation<'p> for EnableReceive {
    type Output = ();

    open spec fn pending(self) -> RailCall<'p> {
        match self.stage {
            EnableStage::RxTransitions => RailCall::SetRxTransitions {
                rail_handle: self.rail_handle,
                success: self.rail.rf_state_rx as u8,
                error: self.rail.rf_state_rx as u8,
            },
            EnableStage::TxTransitions => RailCall::SetTxTransitions {
                rail_handle: self.rail_handle,
                success: self.rail.rf_state_rx as u8,
                error: self.rail.rf_state_rx as u8,
            },
            EnableStage::FirstChannel => RailCall::GetFirstChannel {
                rail_handle: self.rail_handle,
            },
            EnableStage::StartRx { channel } => RailCall::StartRx {
                rail_handle: self.rail_handle,
                channel,
            },
        }
    }

    open spec fn admits(self, reply: RailReply) -> bool {
        true
    }

    open spec fn after(self, reply: RailReply) -> Progress<Self, ()> {
        match (self.stage, reply) {
            (EnableStage::RxTransitions, RailReply::Status(status)) =>
                match self.rail.status.result(status) {
                    Ok(()) => Progress::Pending(
                        EnableReceive { stage: EnableStage::TxTransitions, ..self },
                    ),
                    Err(error) => Progress::Done(Err(error)),
                },
            (EnableStage::TxTransitions, RailReply::Status(status)) =>
                match self.rail.status.result(status) {
                    Ok(()) => Progress::Pending(
                        EnableReceive { stage: EnableStage::FirstChannel, ..self },
                    ),
                    Err(error) => Progress::Done(Err(error)),
                },
            (EnableStage::FirstChannel, RailReply::Channel(channel)) => Progress::Pending(
                EnableReceive { stage: EnableStage::StartRx { channel }, ..self },
            ),
            (EnableStage::StartRx { .. }, RailReply::Status(status)) => Progress::Done(
                self.rail.status.result(status),
            ),
            _ => Progress::Pending(self),
        }
    }

    open spec fn remaining(self) -> nat {
        match self.stage {
            EnableStage::RxTransitions => 4,
            EnableStage::TxTransitions => 3,
            EnableStage::FirstChannel => 2,
            EnableStage::StartRx { .. } => 1,
        }
    }

    proof fn law_progress(self, reply: RailReply) {
    }

    fn call(&self) -> (call: RailCall<'p>) {
        let rail_handle: usize = self.rail_handle;
        let receiving: u8 = #[verifier::truncate] (self.rail.rf_state_rx as u8);
        match self.stage {
            EnableStage::RxTransitions => RailCall::SetRxTransitions {
                rail_handle,
                success: receiving,
                error: receiving,
            },
            EnableStage::TxTransitions => RailCall::SetTxTransitions {
                rail_handle,
                success: receiving,
                error: receiving,
            },
            EnableStage::FirstChannel => RailCall::GetFirstChannel { rail_handle },
            EnableStage::StartRx { channel } => RailCall::StartRx { rail_handle, channel },
        }
    }

    fn can_resume(&self, _reply: &RailReply) -> (can: bool) {
        true
    }

    fn resume(self, reply: RailReply) -> (progress: Progress<Self, ()>) {
        match (self.stage, reply) {
            (EnableStage::RxTransitions, RailReply::Status(status)) => {
                match self.rail.status.status(status).into_rail_result() {
                    Ok(()) => Progress::Pending(
                        EnableReceive { stage: EnableStage::TxTransitions, ..self },
                    ),
                    Err(error) => Progress::Done(Err(error)),
                }
            },
            (EnableStage::TxTransitions, RailReply::Status(status)) => {
                match self.rail.status.status(status).into_rail_result() {
                    Ok(()) => Progress::Pending(
                        EnableReceive { stage: EnableStage::FirstChannel, ..self },
                    ),
                    Err(error) => Progress::Done(Err(error)),
                }
            },
            (EnableStage::FirstChannel, RailReply::Channel(channel)) => Progress::Pending(
                EnableReceive { stage: EnableStage::StartRx { channel }, ..self },
            ),
            (EnableStage::StartRx { .. }, RailReply::Status(status)) => Progress::Done(
                self.rail.status.status(status).into_rail_result(),
            ),
            _ => Progress::Pending(self),
        }
    }
}

/// How far a [`DisableReceive`] has come: the call that it waits on.
#[derive(Debug, Clone, Copy, PartialEq, Eq, Structural)]
pub enum DisableStage {
    TxTransitions,
    RxTransitions,
    Idle,
}

/// Makes the radio stop listening, now and after packets that it sends.
#[derive(Debug, Clone, Copy, PartialEq, Eq, Structural)]
pub struct DisableReceive {
    pub rail: RailConstants,
    pub rail_handle: usize,
    pub stage: DisableStage,
}

impl<'p> Operation<'p> for DisableReceive {
    type Output = ();

    open spec fn pending(self) -> RailCall<'p> {
        match self.stage {
            DisableStage::TxTransitions => RailCall::SetTxTransitions {
                rail_handle: self.rail_handle,
                success: self.rail.rf_state_idle as u8,
                error: self.rail.rf_state_idle as u8,
            },
            DisableStage::RxTransitions => RailCall::SetRxTransitions {
                rail_handle: self.rail_handle,
                success: self.rail.rf_state_idle as u8,
                error: self.rail.rf_state_idle as u8,
            },
            DisableStage::Idle => RailCall::Idle {
                rail_handle: self.rail_handle,
                mode: self.rail.idle as u8,
                wait: false,
            },
        }
    }

    open spec fn admits(self, reply: RailReply) -> bool {
        true
    }

    open spec fn after(self, reply: RailReply) -> Progress<Self, ()> {
        match (self.stage, reply) {
            (DisableStage::TxTransitions, RailReply::Status(status)) =>
                match self.rail.status.result(status) {
                    Ok(()) => Progress::Pending(
                        DisableReceive { stage: DisableStage::RxTransitions, ..self },
                    ),
                    Err(error) => Progress::Done(Err(error)),
                },
            (DisableStage::RxTransitions, RailReply::Status(status)) =>
                match self.rail.status.result(status) {
                    Ok(()) => Progress::Pending(
                        DisableReceive { stage: DisableStage::Idle, ..self },
                    ),
                    Err(error) => Progress::Done(Err(error)),
                },
            (DisableStage::Idle, RailReply::Status(status)) => Progress::Done(
                self.rail.status.result(status),
            ),
            _ => Progress::Pending(self),
        }
    }

    open spec fn remaining(self) -> nat {
        match self.stage {
            DisableStage::TxTransitions => 3,
            DisableStage::RxTransitions => 2,
            DisableStage::Idle => 1,
        }
    }

    proof fn law_progress(self, reply: RailReply) {
    }

    fn call(&self) -> (call: RailCall<'p>) {
        let rail_handle: usize = self.rail_handle;
        let idling: u8 = #[verifier::truncate] (self.rail.rf_state_idle as u8);
        match self.stage {
            DisableStage::TxTransitions => RailCall::SetTxTransitions {
                rail_handle,
                success: idling,
                error: idling,
            },
            DisableStage::RxTransitions => RailCall::SetRxTransitions {
                rail_handle,
                success: idling,
                error: idling,
            },
            DisableStage::Idle => RailCall::Idle {
                rail_handle,
                mode: #[verifier::truncate] (self.rail.idle as u8),
                wait: false,
            },
        }
    }

    fn can_resume(&self, _reply: &RailReply) -> (can: bool) {
        true
    }

    fn resume(self, reply: RailReply) -> (progress: Progress<Self, ()>) {
        match (self.stage, reply) {
            (DisableStage::TxTransitions, RailReply::Status(status)) => {
                match self.rail.status.status(status).into_rail_result() {
                    Ok(()) => Progress::Pending(
                        DisableReceive { stage: DisableStage::RxTransitions, ..self },
                    ),
                    Err(error) => Progress::Done(Err(error)),
                }
            },
            (DisableStage::RxTransitions, RailReply::Status(status)) => {
                match self.rail.status.status(status).into_rail_result() {
                    Ok(()) => Progress::Pending(
                        DisableReceive { stage: DisableStage::Idle, ..self },
                    ),
                    Err(error) => Progress::Done(Err(error)),
                }
            },
            (DisableStage::Idle, RailReply::Status(status)) => Progress::Done(
                self.rail.status.status(status).into_rail_result(),
            ),
            _ => Progress::Pending(self),
        }
    }
}

/// The calls that make the radio listen on `channel`: the states to go to after
/// packets are set, the first channel is asked for, and listening starts.
pub open spec fn enable_calls<'p>(
    rail: RailConstants,
    rail_handle: usize,
    channel: u16,
) -> Seq<RailCall<'p>> {
    let state = rail.rf_state_rx as u8;
    seq![
        RailCall::SetRxTransitions { rail_handle, success: state, error: state },
        RailCall::SetTxTransitions { rail_handle, success: state, error: state },
        RailCall::GetFirstChannel { rail_handle },
        RailCall::StartRx { rail_handle, channel },
    ]
}

/// Enabling makes its calls in a fixed order, listens on the channel that RAIL named
/// as the first, and stops at the first call that fails.
pub proof fn law_enable_receive(
    rail: RailConstants,
    rail_handle: usize,
    channel: u16,
    statuses: Seq<u32>,
)
    requires
        statuses.len() == 3,
    ensures
        ({
            let trace = crate::operation::run(
                EnableReceive { rail, rail_handle, stage: EnableStage::RxTransitions },
                seq![
                    RailReply::Status(statuses[0]),
                    RailReply::Status(statuses[1]),
                    RailReply::Channel(channel),
                    RailReply::Status(statuses[2]),
                ],
            );
            let calls = enable_calls(rail, rail_handle, channel);
            if !rail.status.succeeds(statuses[0]) {
                &&& trace.calls =~= calls.take(1)
                &&& trace.outcome == Some(rail.status.result(statuses[0]))
            } else if !rail.status.succeeds(statuses[1]) {
                &&& trace.calls =~= calls.take(2)
                &&& trace.outcome == Some(rail.status.result(statuses[1]))
            } else {
                &&& trace.calls =~= calls
                &&& trace.outcome == Some(rail.status.result(statuses[2]))
            }
        }),
        enable_calls(rail, rail_handle, channel) == seq![
            RailCall::SetRxTransitions {
                rail_handle,
                success: rail.rf_state_rx as u8,
                error: rail.rf_state_rx as u8,
            },
            RailCall::SetTxTransitions {
                rail_handle,
                success: rail.rf_state_rx as u8,
                error: rail.rf_state_rx as u8,
            },
            RailCall::GetFirstChannel { rail_handle },
            RailCall::StartRx { rail_handle, channel },
        ],
{
    reveal_with_fuel(crate::operation::run, 5);
}

/// Listening is switched off for after sending and after receiving, then the radio
/// goes idle; the first call that fails is the last.
pub proof fn law_disable_receive(rail: RailConstants, rail_handle: usize, statuses: Seq<u32>)
    requires
        statuses.len() == 3,
    ensures
        crate::operation::run(
            DisableReceive { rail, rail_handle, stage: DisableStage::TxTransitions },
            seq![
                RailReply::Status(statuses[0]),
                RailReply::Status(statuses[1]),
                RailReply::Status(statuses[2]),
            ],
        ) == crate::operation::until_failure(
            rail.status,
            seq![
                RailCall::SetTxTransitions {
                    rail_handle,
                    success: rail.rf_state_idle as u8,
                    error: rail.rf_state_idle as u8,
                },
                RailCall::SetRxTransitions {
                    rail_handle,
                    success: rail.rf_state_idle as u8,
                    error: rail.rf_state_idle as u8,
                },
                RailCall::Idle { rail_handle, mode: rail.idle as u8, wait: false },
            ],
            statuses,
            (),
        ),
{
    reveal_with_fuel(crate::operation::run, 4);
    reveal_with_fuel(crate::operation::until_failure, 4);
}

/// Reading asks for the oldest complete packet. Where there is none, or one that is
/// too large, that is all. Otherwise that packet is copied and then let go of, and the
/// first call that fails is the last; success gives the packet's size.
pub proof fn law_read_received_packet(
    rail: RailConstants,
    rail_handle: usize,
    target_len: usize,
    packet_handle: usize,
    packet_bytes: u16,
    statuses: Seq<u32>,
)
    requires
        statuses.len() == 2,
        packet_handle == 0 || packet_bytes > 0 || target_len > 0,
    ensures
        ({
            let trace = crate::operation::run(
                ReadPacket { rail, rail_handle, target_len, stage: ReadStage::Info },
                seq![
                    RailReply::PacketInfo { packet_handle, packet_bytes },
                    RailReply::Status(statuses[0]),
                    RailReply::Status(statuses[1]),
                ],
            );
            let info = RailCall::GetRxPacketInfo {
                rail_handle,
                packet_handle: 2,
            };
            if packet_handle == 0 {
                &&& trace.calls =~= seq![info]
                &&& trace.outcome == Some(Err::<u16, RailError>(RailError::PacketBufferEmpty))
            } else if packet_bytes > target_len {
                &&& trace.calls =~= seq![info]
                &&& trace.outcome == Some(
                    Err::<u16, RailError>(RailError::BufferTooSmall(packet_bytes)),
                )
            } else {
                trace == crate::operation::until_failure(
                    rail.status,
                    seq![
                        RailCall::CopyRxPacket { rail_handle, packet_handle, packet_bytes },
                        RailCall::ReleaseRxPacket { rail_handle, packet_handle },
                    ],
                    statuses,
                    packet_bytes,
                ).preceded_by(info)
            }
        }),
{
    reveal_with_fuel(crate::operation::run, 4);
    reveal_with_fuel(crate::operation::until_failure, 4);
}

impl ReadPacket {
    /// What holds of a read at every stage: a packet is only ever copied if there is
    /// one and it fits the buffer.
    pub open spec fn wf(self) -> bool {
        match self.stage {
            ReadStage::Info => true,
            ReadStage::Copy { packet_handle, packet_bytes } => {
                &&& packet_handle != 0
                &&& packet_bytes <= self.target_len
                &&& self.target_len > 0
            },
            ReadStage::Release { packet_handle, packet_bytes } => {
                &&& packet_handle != 0
                &&& packet_bytes <= self.target_len
                &&& self.target_len > 0
            },
        }
    }
}

/// A read never writes past the end of the buffer: no reply makes it copy a packet
/// that does not fit, and the size that it gives back is at most the buffer's.
pub proof fn law_read_stays_in_buffer(op: ReadPacket, reply: RailReply)
    requires
        op.wf(),
        op.admits(reply),
    ensures
        match op.after(reply) {
            Progress::Pending(next) => next.wf() && next.target_len == op.target_len,
            Progress::Done(Ok(packet_bytes)) => packet_bytes <= op.target_len,
            Progress::Done(Err(_)) => true,
        },
{
}

/// Whatever RAIL replies, a read that starts from the beginning only asks to copy
/// packets that exist and fit the buffer.
pub proof fn law_every_copy_fits(op: ReadPacket, replies: Seq<RailReply>, i: int)
    requires
        op.stage == ReadStage::Info,
        0 <= i < crate::operation::run(op, replies).calls.len(),
    ensures
        crate::operation::run(op, replies).calls[i] matches RailCall::CopyRxPacket {
            packet_handle,
            packet_bytes,
            ..
        } ==> (packet_handle != 0 && packet_bytes <= op.target_len),
{
    let target_len = op.target_len;
    let shown = |call: RailCall|
        call matches RailCall::CopyRxPacket { packet_handle, packet_bytes, .. } ==> (packet_handle
            != 0 && packet_bytes <= target_len);
    let inv = |o: ReadPacket|
        o.target_len == target_len && (o.stage matches ReadStage::Copy {
            packet_handle,
            packet_bytes,
        } ==> (packet_handle != 0 && packet_bytes <= target_len));
    crate::operation::lemma_every_call(op, replies, inv, shown);
    assert(shown(crate::operation::run(op, replies).calls[i]));
}

/// A packet that was too large for the buffer stays where it is, and the size in the
/// error is what it takes: with a buffer of that size or any larger one, the same
/// packet is not refused again.
pub proof fn law_too_small_says_how_much(
    op: ReadPacket,
    packet_handle: usize,
    packet_bytes: u16,
    needed: u16,
    larger: usize,
)
    requires
        op.stage == ReadStage::Info,
        op.after(RailReply::PacketInfo { packet_handle, packet_bytes })
            == Progress::<ReadPacket, u16>::Done(Err(RailError::BufferTooSmall(needed))),
        needed <= larger,
    ensures
        ({
            let retry = ReadPacket { target_len: larger, ..op };
            &&& op.target_len < needed
            &&& retry.admits(RailReply::PacketInfo { packet_handle, packet_bytes })
            &&& retry.after(RailReply::PacketInfo { packet_handle, packet_bytes })
                == Progress::<ReadPacket, u16>::Pending(
                ReadPacket { stage: ReadStage::Copy { packet_handle, packet_bytes }, ..retry },
            )
        }),
{
}

/// What RAIL was last told about listening: the state to go to after a packet was
/// received, well or not, the same for packets that were sent, and whether to listen.
pub struct Reception {
    pub after_rx: (u8, u8),
    pub after_tx: (u8, u8),
    pub listening: bool,
}

impl Reception {
    /// What RAIL was last told, after it was told so with `call` too.
    pub open spec fn told<'p>(self, call: RailCall<'p>) -> Reception {
        match call {
            RailCall::SetRxTransitions { success, error, .. } => Reception {
                after_rx: (success, error),
                ..self
            },
            RailCall::SetTxTransitions { success, error, .. } => Reception {
                after_tx: (success, error),
                ..self
            },
            RailCall::StartRx { .. } => Reception { listening: true, ..self },
            RailCall::Idle { .. } => Reception { listening: false, ..self },
            _ => self,
        }
    }

    /// What RAIL was last told, after all of `calls`.
    pub open spec fn told_all<'p>(self, calls: Seq<RailCall<'p>>) -> Reception
        decreases calls.len(),
    {
        if calls.len() == 0 {
            self
        } else {
            self.told(calls[0]).told_all(calls.drop_first())
        }
    }
}

/// Whatever RAIL was told before: when listening was enabled successfully, it was
/// told to listen, and to go back to listening after every packet.
pub proof fn law_enabling_listens(op: EnableReceive, replies: Seq<RailReply>, before: Reception)
    requires
        op.stage == EnableStage::RxTransitions,
        crate::operation::run(op, replies).outcome == Some(
            Ok::<(), RailError>(()),
        ),
    ensures
        before.told_all(crate::operation::run(op, replies).calls) == (
        Reception {
            after_rx: (op.rail.rf_state_rx as u8, op.rail.rf_state_rx as u8),
            after_tx: (op.rail.rf_state_rx as u8, op.rail.rf_state_rx as u8),
            listening: true,
        }),
{
    lemma_enabling(op, replies, before);
}

/// What the calls from a given stage on leave behind when enabling succeeds.
proof fn lemma_enabling(op: EnableReceive, replies: Seq<RailReply>, before: Reception)
    requires
        crate::operation::run(op, replies).outcome == Some(
            Ok::<(), RailError>(()),
        ),
    ensures
        ({
            let both = (op.rail.rf_state_rx as u8, op.rail.rf_state_rx as u8);
            before.told_all(crate::operation::run(op, replies).calls) == (
            Reception {
                after_rx: if op.stage is RxTransitions {
                    both
                } else {
                    before.after_rx
                },
                after_tx: if op.stage is RxTransitions || op.stage is TxTransitions {
                    both
                } else {
                    before.after_tx
                },
                listening: true,
            })
        }),
    decreases replies.len(),
{
    let trace = crate::operation::run(op, replies);
    let call = op.pending();
    match op.after(replies[0]) {
        Progress::Pending(next) => {
            let rest = crate::operation::run(next, replies.drop_first());
            lemma_enabling(next, replies.drop_first(), before.told(call));
            assert(trace.calls.drop_first() =~= rest.calls);
        },
        Progress::Done(_) => {
            assert(trace.calls.drop_first() =~= Seq::<RailCall>::empty());
            reveal_with_fuel(Reception::told_all, 2);
        },
    }
}

/// Whatever RAIL was told before: when listening was disabled successfully, it was
/// told to be idle, and to stay so after every packet.
pub proof fn law_disabling_stops(op: DisableReceive, replies: Seq<RailReply>, before: Reception)
    requires
        op.stage == DisableStage::TxTransitions,
        crate::operation::run(op, replies).outcome == Some(
            Ok::<(), RailError>(()),
        ),
    ensures
        before.told_all(crate::operation::run(op, replies).calls) == (
        Reception {
            after_rx: (op.rail.rf_state_idle as u8, op.rail.rf_state_idle as u8),
            after_tx: (op.rail.rf_state_idle as u8, op.rail.rf_state_idle as u8),
            listening: false,
        }),
{
    lemma_disabling(op, replies, before);
}

/// What the calls from a given stage on leave behind when disabling succeeds.
proof fn lemma_disabling(op: DisableReceive, replies: Seq<RailReply>, before: Reception)
    requires
        crate::operation::run(op, replies).outcome == Some(
            Ok::<(), RailError>(()),
        ),
    ensures
        ({
            let both = (op.rail.rf_state_idle as u8, op.rail.rf_state_idle as u8);
            before.told_all(crate::operation::run(op, replies).calls) == (
            Reception {
                after_rx: if op.stage is Idle {
                    before.after_rx
                } else {
                    both
                },
                after_tx: if op.stage is TxTransitions {
                    both
                } else {
                    before.after_tx
                },
                listening: false,
            })
        }),
    decreases replies.len(),
{
    let trace = crate::operation::run(op, replies);
    let call = op.pending();
    match op.after(replies[0]) {
        Progress::Pending(next) => {
            let rest = crate::operation::run(next, replies.drop_first());
            lemma_disabling(next, replies.drop_first(), before.told(call));
            assert(trace.calls.drop_first() =~= rest.calls);
        },
        Progress::Done(_) => {
            assert(trace.calls.drop_first() =~= Seq::<RailCall>::empty());
            reveal_with_fuel(Reception::told_all, 2);
        },
    }
}

/// Whether none of `calls` tells RAIL anything about listening.
pub open spec fn leaves_listening_alone<'p>(calls: Seq<RailCall<'p>>) -> bool {
    forall|i: int, before: Reception|
        0 <= i < calls.len() ==> #[trigger] before.told(calls[i]) == before
}

/// Calls that tell RAIL nothing about listening change nothing about it.
pub proof fn law_listening_stays(calls: Seq<RailCall>, before: Reception)
    requires
        leaves_listening_alone(calls),
    ensures
        before.told_all(calls) == before,
    decreases calls.len(),
{
    if calls.len() > 0 {
        assert(before.told(calls[0]) == before);
        assert(leaves_listening_alone(calls.drop_first())) by {
            assert forall|i: int, r: Reception| 0 <= i < calls.drop_first().len() implies
                #[trigger] r.told(calls.drop_first()[i]) == r by {
                assert(r.told(calls[i + 1]) == r);
            }
        }
        law_listening_stays(calls.drop_first(), before);
    }
}

/// Listening starts on the channel that RAIL named: where every reply answers its
/// call, the reply just before a call that starts listening named that very channel.
pub proof fn law_listens_on_the_named_channel(op: EnableReceive, replies: Seq<RailReply>, i: int)
    requires
        op.stage == EnableStage::RxTransitions,
        crate::operation::answered(op, replies),
        0 <= i < crate::operation::run(op, replies).calls.len(),
    ensures
        crate::operation::run(op, replies).calls[i] matches RailCall::StartRx {
            rail_handle,
            channel,
        } ==> (rail_handle == op.rail_handle && 0 < i <= replies.len() && replies[i - 1]
            == RailReply::Channel(channel)),
{
    lemma_named_channel(op, replies, i);
}

/// Where the channel of a call that starts listening comes from, at any stage.
proof fn lemma_named_channel(op: EnableReceive, replies: Seq<RailReply>, i: int)
    requires
        crate::operation::answered(op, replies),
        0 <= i < crate::operation::run(op, replies).calls.len(),
    ensures
        crate::operation::run(op, replies).calls[i] matches RailCall::StartRx {
            rail_handle,
            channel,
        } ==> (rail_handle == op.rail_handle && if i == 0 {
            op.stage == (EnableStage::StartRx { channel })
        } else {
            i <= replies.len() && replies[i - 1] == RailReply::Channel(channel)
        }),
    decreases replies.len(),
{
    if i > 0 {
        let calls = crate::operation::run(op, replies).calls;
        if let Progress::Pending(next) = op.after(replies[0]) {
            let rest = replies.drop_first();
            lemma_named_channel(next, rest, i - 1);
            assert(calls[i] == crate::operation::run(next, rest).calls[i - 1]);
        }
    }
}

/// Enabling and disabling go on from every reply. A read goes on from every reply but
/// one: that there is a packet of no bytes, when the buffer has no bytes either.
pub proof fn law_reception_goes_on(
    enable: EnableReceive,
    disable: DisableReceive,
    read: ReadPacket,
    reply: RailReply,
)
    ensures
        enable.admits(reply),
        disable.admits(reply),
        read.admits(reply) <==> !(read.stage is Info && read.target_len == 0 && (reply
            matches RailReply::PacketInfo { packet_handle, packet_bytes } && packet_handle != 0
            && packet_bytes == 0)),
{
}

} // verus!
