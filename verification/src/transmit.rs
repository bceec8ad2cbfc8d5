//! Sending packets.

use vstd::prelude::*;

use crate::error::{IntoRailResult, RailError};
use crate::operation::{Operation, Progress};
use crate::rail::{RailCall, RailConstants, RailReply};

verus! {

/// How far a [`SendPacket`] has come: the call that it waits on.
#[derive(Debug, Clone, Copy, PartialEq, Eq, Structural)]
pub enum SendStage {
    WriteFifo,
    FirstChannel,
    StartTx { channel: u16 },
}

/// Puts a packet into the transmit FIFO and sends it.
#[derive(Debug, Clone, Copy, PartialEq, Eq)]
pub struct SendPacket<'p> {
    pub rail: RailConstants,
    pub rail_handle: usize,
    pub packet: &'p [u8],
    pub stage: SendStage,
}

impl<'p> Operation<'p> for SendPacket<'p> {
    type Output = ();

    open spec fn pending(self) -> RailCall<'p> {
        match self.stage {
            SendStage::WriteFifo => RailCall::WriteTxFifo {
                rail_handle: self.rail_handle,
                packet: self.packet,
                length: self.packet@.len() as u16,
                reset: true,
            },
            SendStage::FirstChannel => RailCall::GetFirstChannel {
                rail_handle: self.rail_handle,
            },
            SendStage::StartTx { channel } => RailCall::StartTx {
                rail_handle: self.rail_handle,
                channel,
                options: self.rail.tx_options_default,
            },
        }
    }

    open spec fn admits(self, reply: RailReply) -> bool {
        true
    }

    open spec fn after(self, reply: RailReply) -> Progress<Self, ()> {
        match (self.stage, reply) {
            (SendStage::WriteFifo, RailReply::BytesWritten(bytes_written)) =>
                if bytes_written == self.packet@.len() as u16 {
                    Progress::Pending(SendPacket { stage: SendStage::FirstChannel, ..self })
                } else {
                    Progress::Done(
                        Err(
                            RailError::TxFifoWriteFail(
                                bytes_written,
                                self.packet@.len() as u16,
                            ),
                        ),
                    )
                },
            (SendStage::FirstChannel, RailReply::Channel(channel)) => Progress::Pending(
                SendPacket { stage: SendStage::StartTx { channel }, ..self },
            ),
            (SendStage::StartTx { .. }, RailReply::Status(status)) => Progress::Done(
                self.rail.status.result(status),
            ),
            _ => Progress::Pending(self),
        }
    }

    open spec fn remaining(self) -> nat {
        match self.stage {
            SendStage::WriteFifo => 3,
            SendStage::FirstChannel => 2,
            SendStage::StartTx { .. } => 1,
        }
    }

    proof fn law_progress(self, reply: RailReply) {
    }

    fn call(&self) -> (call: RailCall<'p>) {
        let rail_handle: usize = self.rail_handle;
        match self.stage {
            SendStage::WriteFifo => RailCall::WriteTxFifo {
                rail_handle,
                packet: self.packet,
                length: #[verifier::truncate] (self.packet.len() as u16),
                reset: true,
            },
            SendStage::FirstChannel => RailCall::GetFirstChannel { rail_handle },
            SendStage::StartTx { channel } => RailCall::StartTx {
                rail_handle,
                channel,
                options: self.rail.tx_options_default,
            },
        }
    }

    fn can_resume(&self, _reply: &RailReply) -> (can: bool) {
        true
    }

    fn resume(self, reply: RailReply) -> (progress: Progress<Self, ()>) {
        match (self.stage, reply) {
            (SendStage::WriteFifo, RailReply::BytesWritten(bytes_written)) => {
                let packet_length: u16 = #[verifier::truncate] (self.packet.len() as u16);
                if bytes_written != packet_length {
                    return Progress::Done(
                        Err(RailError::TxFifoWriteFail(bytes_written, packet_length)),
                    );
                }
                Progress::Pending(SendPacket { stage: SendStage::FirstChannel, ..self })
            },
            (SendStage::FirstChannel, RailReply::Channel(channel)) => Progress::Pending(
                SendPacket { stage: SendStage::StartTx { channel }, ..self },
            ),
            (SendStage::StartTx { .. }, RailReply::Status(status)) => Progress::Done(
                self.rail.status.status(status).into_rail_result(),
            ),
            _ => Progress::Pending(self),
        }
    }
}

/// Sending hands the packet to the FIFO, which is emptied before. Where not all of it
/// went in, that is all, and the error says how much did. Otherwise sending starts on
/// the channel that RAIL named as the first, and how that went is the result.
pub proof fn law_send_packet(
    rail: RailConstants,
    rail_handle: usize,
    packet: &[u8],
    bytes_written: u16,
    channel: u16,
    status: u32,
)
    requires
        0 < packet@.len() <= crate::radio::RX_FIFO_LENGTH_BYTES,
    ensures
        ({
            let trace = crate::operation::run(
                SendPacket { rail, rail_handle, packet, stage: SendStage::WriteFifo },
                seq![
                    RailReply::BytesWritten(bytes_written),
                    RailReply::Channel(channel),
                    RailReply::Status(status),
                ],
            );
            let length = packet@.len() as u16;
            let write = RailCall::WriteTxFifo { rail_handle, packet, length, reset: true };
            &&& length == packet@.len()
            &&& if bytes_written != packet@.len() {
                &&& trace.calls =~= seq![write]
                &&& trace.outcome == Some(
                    Err::<(), RailError>(RailError::TxFifoWriteFail(bytes_written, length)),
                )
            } else {
                &&& trace.calls =~= seq![
                    write,
                    RailCall::GetFirstChannel { rail_handle },
                    RailCall::StartTx { rail_handle, channel, options: rail.tx_options_default },
                ]
                &&& trace.outcome == Some(rail.status.result(status))
            }
        }),
{
    reveal_with_fuel(crate::operation::run, 4);
}

/// Nothing is sent of a packet that did not go into the FIFO as a whole: whatever the
/// replies are, sending starts only if one of them said that all bytes were written.
pub proof fn law_only_whole_packets_are_sent(op: SendPacket, replies: Seq<RailReply>, i: int)
    requires
        op.stage == SendStage::WriteFifo,
        op.packet@.len() <= crate::radio::RX_FIFO_LENGTH_BYTES,
        0 <= i < crate::operation::run(op, replies).calls.len(),
        crate::operation::run(op, replies).calls[i] is StartTx,
    ensures
        replies.contains(RailReply::BytesWritten(op.packet@.len() as u16)),
    decreases replies.len(),
{
    let calls = crate::operation::run(op, replies).calls;
    let whole = RailReply::BytesWritten(op.packet@.len() as u16);
    assert(calls[0] is WriteTxFifo);
    if replies[0] == whole {
        assert(replies.contains(replies[0]));
    } else {
        let rest = replies.drop_first();
        assert(op.after(replies[0]) == Progress::<SendPacket, ()>::Pending(op));
        law_only_whole_packets_are_sent(op, rest, i - 1);
        let j = choose|j: int| 0 <= j < rest.len() && rest[j] == whole;
        assert(replies[j + 1] == whole);
    }
}

/// Sending starts on the channel that RAIL named: where every reply answers its call,
/// the reply just before a call that starts sending named that very channel.
pub proof fn law_sends_on_the_named_channel(op: SendPacket, replies: Seq<RailReply>, i: int)
    requires
        op.stage == SendStage::WriteFifo,
        crate::operation::answered(op, replies),
        0 <= i < crate::operation::run(op, replies).calls.len(),
    ensures
        crate::operation::run(op, replies).calls[i] matches RailCall::StartTx {
            rail_handle,
            channel,
            options,
        } ==> (rail_handle == op.rail_handle && options == op.rail.tx_options_default && 0 < i
            <= replies.len() && replies[i - 1] == RailReply::Channel(channel)),
{
    lemma_named_channel(op, replies, i);
}

/// Where the channel of a call that starts sending comes from, at any stage.
proof fn lemma_named_channel(op: SendPacket, replies: Seq<RailReply>, i: int)
    requires
        crate::operation::answered(op, replies),
        0 <= i < crate::operation::run(op, replies).calls.len(),
    ensures
        crate::operation::run(op, replies).calls[i] matches RailCall::StartTx {
            rail_handle,
            channel,
            options,
        } ==> (rail_handle == op.rail_handle && options == op.rail.tx_options_default && if i
            == 0 {
            op.stage == (SendStage::StartTx { channel })
        } else {
            i <= replies.len() && replies[i - 1] == RailReply::Channel(channel)
        }),
    decreases replies.len(),
{
    if i > 0 {
        let calls = crate::operation::run(op, replies).calls;
        if let Progress::Pending(next) = op.after(replies[0]) {
            let rest = replies.drop_first();
            lemma_named_channel(next, rest, i - 1);
            assert(calls[i] == crate::operation::run(next, rest).calls[i - 1]);
        }
    }
}

/// Sending goes on from every reply.
pub proof fn law_sending_goes_on(op: SendPacket, reply: RailReply)
    ensures
        op.admits(reply),
{
}

} // verus!
