//! The radio.

use vstd::prelude::*;

use crate::clocks::ClockStep;
use crate::events::{Notify, NotifyStage};
use crate::operation::Operation;
use crate::rail::{RailCall, RailConfig, RailConstants, RailReply};
use crate::receive::{
    DisableReceive, DisableStage, EnableReceive, EnableStage, ReadPacket, ReadStage,
};
use crate::startup::{ConfigureTxPower, Init, InitStage, NewRadio, TxPowerStage};
use crate::transmit::{SendPacket, SendStage};

verus! {

/// Size of the transmit FIFO, and so of the largest packet that can be sent. Packets
/// could be 4096 bytes, but that much memory would mostly lie unused.
pub const RX_FIFO_LENGTH_BYTES: usize = 512;

/// The handle that RAIL is given when it is initialised, and replaces by its own.
pub const UNINITIALIZED_HANDLE: usize = 0xFFFF_FFFF;

/// What the radio tells its user.
#[derive(Debug, Clone, Copy, PartialEq, Eq, PartialOrd, Ord, Structural)]
pub enum RadioEvent {
    PacketSent,
    PacketReceived,
}

/// Options of the radio.
#[derive(Debug, Clone, Copy, PartialEq, Eq, Structural)]
pub struct RadioConfig {
    /// Power to send with.
    pub tx_power_dbm: i16,
}

impl Default for RadioConfig {
    /// Create a radio config with the default options set.
    ///
    /// To configure the options manually, please construct a [RadioConfig] directly.
    fn default() -> (config: RadioConfig)
        ensures
            config.tx_power_dbm == 0,
    {
        RadioConfig { tx_power_dbm: 0 }
    }
}

/// The radio, by the handle of the RAIL instance that drives it.
#[derive(Debug, PartialEq, Eq, Structural)]
pub struct Radio {
    pub rail_handle: usize,
}

impl From<usize> for Radio {
    fn from(rail_handle: usize) -> (radio: Radio) {
        Radio { rail_handle }
    }
}

impl vstd::std_specs::convert::FromSpecImpl<usize> for Radio {
    open spec fn obeys_from_spec() -> bool {
        true
    }

    open spec fn from_spec(rail_handle: usize) -> Radio {
        Radio { rail_handle }
    }
}

impl Radio {
    /// The configuration that RAIL is initialised with when radio events go to the
    /// function at `on_radio_event`.
    pub open spec fn rail_config(rail: RailConstants, on_radio_event: usize) -> RailConfig {
        RailConfig {
            opaque_handle1: on_radio_event,
            opaque_handle2: 0,
            opaque_value: 0,
            rx_packet_queue_entries: rail.builtin_rx_packet_queue_entries as u16,
            rx_fifo_bytes: rail.builtin_rx_fifo_bytes as u16,
            tx_fifo_bytes: RX_FIFO_LENGTH_BYTES as u16,
            tx_fifo_init_bytes: 0,
        }
    }

    /// Configure required clocks for starting the Radio: the first step of it.
    pub fn configure_clocks() -> (step: ClockStep)
        ensures
            step == ClockStep::EnableHfxo,
    {
        ClockStep::EnableHfxo
    }

    /// Create and initialize the radio.
    ///
    /// This assumes that the clocks are already configured properly. To configure
    /// them, you can either run [Radio::configure_clocks] or do the following:
    /// * enable the HFXO clock and wait until it is ready
    /// * set HFXO as the sysclk source
    ///
    /// Radio events go to the function at the address `on_radio_event`.
    ///
    /// If the initialization succeeds, you can then run [Radio::enable_receive] to
    /// start listening for incoming packets or [Radio::send_packet] to transmit a
    /// packet.
    pub fn new(rail: &RailConstants, radio_config: RadioConfig, on_radio_event: usize) -> (op:
        NewRadio)
        ensures
            op == (NewRadio::Initializing {
                init: Init {
                    rail: *rail,
                    config: Radio::rail_config(*rail, on_radio_event),
                    rail_handle: UNINITIALIZED_HANDLE,
                    stage: InitStage::PaInit,
                },
                tx_power_dbm: radio_config.tx_power_dbm,
            }),
            op matches NewRadio::Initializing { init, tx_power_dbm } && {
                &&& init.config.opaque_handle1 == on_radio_event
                &&& init.config.rx_packet_queue_entries == rail.builtin_rx_packet_queue_entries
                    % 0x1_0000
                &&& init.config.rx_fifo_bytes == rail.builtin_rx_fifo_bytes % 0x1_0000
                &&& init.config.tx_fifo_bytes == RX_FIFO_LENGTH_BYTES
                &&& init.config.tx_fifo_init_bytes == 0
                &&& init.rail_handle == 0xFFFF_FFFF
                &&& tx_power_dbm == radio_config.tx_power_dbm
            },
    {
        proof {
            lemma_low_half(rail.builtin_rx_packet_queue_entries);
            lemma_low_half(rail.builtin_rx_fifo_bytes);
        }
        let rx_packet_queue_entries: u16 =
            #[verifier::truncate] (rail.builtin_rx_packet_queue_entries as u16);
        let rx_fifo_bytes: u16 = #[verifier::truncate] (rail.builtin_rx_fifo_bytes as u16);
        let config: RailConfig = RailConfig {
            opaque_handle1: on_radio_event,
            opaque_handle2: 0,
            opaque_value: 0,
            rx_packet_queue_entries,
            rx_fifo_bytes,
            tx_fifo_bytes: RX_FIFO_LENGTH_BYTES as u16,
            tx_fifo_init_bytes: 0,
        };
        NewRadio::Initializing {
            init: Radio::init(rail, config),
            tx_power_dbm: radio_config.tx_power_dbm,
        }
    }

    /// Prepare for sending and receiving packets. This does not start listening for
    /// packets.
    pub fn init(rail: &RailConstants, rail_config: RailConfig) -> (op: Init)
        ensures
            op == (Init {
                rail: *rail,
                config: rail_config,
                rail_handle: UNINITIALIZED_HANDLE,
                stage: InitStage::PaInit,
            }),
    {
        Init {
            rail: *rail,
            config: rail_config,
            rail_handle: UNINITIALIZED_HANDLE,
            stage: InitStage::PaInit,
        }
    }

    /// Set up the power amplifier for sending with the given power.
    pub fn configure_tx_power(rail: &RailConstants, rail_handle: usize, tx_power_dbm: i16) -> (op:
        ConfigureTxPower)
        ensures
            op == (ConfigureTxPower {
                rail: *rail,
                rail_handle,
                tx_power_dbm,
                stage: TxPowerStage::Amplifier,
            }),
    {
        ConfigureTxPower {
            rail: *rail,
            rail_handle,
            tx_power_dbm,
            stage: TxPowerStage::Amplifier,
        }
    }

    /// Start listening for incoming packets.
    pub fn enable_receive(&self, rail: &RailConstants) -> (op: EnableReceive)
        ensures
            op == (EnableReceive {
                rail: *rail,
                rail_handle: self.rail_handle,
                stage: EnableStage::RxTransitions,
            }),
    {
        EnableReceive {
            rail: *rail,
            rail_handle: self.rail_handle,
            stage: EnableStage::RxTransitions,
        }
    }

    /// Stop listening for incoming packets.
    pub fn disable_receive(&self, rail: &RailConstants) -> (op: DisableReceive)
        ensures
            op == (DisableReceive {
                rail: *rail,
                rail_handle: self.rail_handle,
                stage: DisableStage::TxTransitions,
            }),
    {
        DisableReceive {
            rail: *rail,
            rail_handle: self.rail_handle,
            stage: DisableStage::TxTransitions,
        }
    }

    /// Send a packet. It must not be empty, nor larger than the transmit FIFO.
    pub fn send_packet<'p>(&self, rail: &RailConstants, packet: &'p [u8]) -> (op: SendPacket<'p>)
        requires
            0 < packet@.len() <= RX_FIFO_LENGTH_BYTES,
        ensures
            op == (SendPacket {
                rail: *rail,
                rail_handle: self.rail_handle,
                packet,
                stage: SendStage::WriteFifo,
            }),
    {
        SendPacket {
            rail: *rail,
            rail_handle: self.rail_handle,
            packet,
            stage: SendStage::WriteFifo,
        }
    }

    /// The call that keeps a received packet inside RAIL's queue, where it would be
    /// flushed otherwise. This ensures that you can still read the content of the
    /// received packet later, and don't have to read it immediately when it arrives.
    pub fn hold_packet<'p>(&self) -> (call: RailCall<'p>)
        ensures
            call == (RailCall::HoldRxPacket { rail_handle: self.rail_handle }),
    {
        RailCall::HoldRxPacket { rail_handle: self.rail_handle }
    }

    /// Call the user-provided callback with an event.
    pub fn trigger_event_callback(&self, event: RadioEvent) -> (op: Notify)
        ensures
            op == (Notify {
                rail_handle: self.rail_handle,
                event,
                stage: NotifyStage::GetConfig,
            }),
    {
        Notify { rail_handle: self.rail_handle, event, stage: NotifyStage::GetConfig }
    }

    /// Read a received packet into a buffer of `target_len` bytes.
    ///
    /// Gives back the size of the read packet.
    pub fn read_received_packet(&self, rail: &RailConstants, target_len: usize) -> (op: ReadPacket)
        ensures
            op == (ReadPacket {
                rail: *rail,
                rail_handle: self.rail_handle,
                target_len,
                stage: ReadStage::Info,
            }),
    {
        ReadPacket {
            rail: *rail,
            rail_handle: self.rail_handle,
            target_len,
            stage: ReadStage::Info,
        }
    }
}

/// Whether all of `calls` that are about a RAIL instance are about that of `radio`.
pub open spec fn keeps_to<'p>(radio: Radio, calls: Seq<RailCall<'p>>) -> bool {
    forall|i: int|
        0 <= i < calls.len() ==> ((#[trigger] calls[i]).instance() matches Some(instance)
            ==> instance == radio.rail_handle)
}

/// Whatever RAIL replies, what a radio is asked to do concerns its own RAIL instance
/// and no other.
pub proof fn law_radio_keeps_to_its_instance(
    radio: Radio,
    rail: RailConstants,
    packet: &[u8],
    target_len: usize,
    event: RadioEvent,
    replies: Seq<RailReply>,
)
    ensures
        ({
            let rail_handle = radio.rail_handle;
            let enable = EnableReceive { rail, rail_handle, stage: EnableStage::RxTransitions };
            let disable = DisableReceive { rail, rail_handle, stage: DisableStage::TxTransitions };
            let send = SendPacket { rail, rail_handle, packet, stage: SendStage::WriteFifo };
            let read = ReadPacket { rail, rail_handle, target_len, stage: ReadStage::Info };
            let notify = Notify { rail_handle, event, stage: NotifyStage::HoldPacket };
            &&& keeps_to(radio, crate::operation::run(enable, replies).calls)
            &&& keeps_to(radio, crate::operation::run(disable, replies).calls)
            &&& keeps_to(radio, crate::operation::run(send, replies).calls)
            &&& keeps_to(radio, crate::operation::run(read, replies).calls)
            &&& keeps_to(radio, crate::operation::run(notify, replies).calls)
        }),
{
    let rail_handle = radio.rail_handle;
    let shown = |call: RailCall|
        call.instance() matches Some(instance) ==> instance == rail_handle;
    crate::operation::lemma_every_call(
        EnableReceive { rail, rail_handle, stage: EnableStage::RxTransitions },
        replies,
        |op: EnableReceive| op.rail_handle == rail_handle,
        shown,
    );
    crate::operation::lemma_every_call(
        DisableReceive { rail, rail_handle, stage: DisableStage::TxTransitions },
        replies,
        |op: DisableReceive| op.rail_handle == rail_handle,
        shown,
    );
    crate::operation::lemma_every_call(
        SendPacket { rail, rail_handle, packet, stage: SendStage::WriteFifo },
        replies,
        |op: SendPacket| op.rail_handle == rail_handle,
        shown,
    );
    crate::operation::lemma_every_call(
        ReadPacket { rail, rail_handle, target_len, stage: ReadStage::Info },
        replies,
        |op: ReadPacket| op.rail_handle == rail_handle,
        shown,
    );
    crate::operation::lemma_every_call(
        Notify { rail_handle, event, stage: NotifyStage::HoldPacket },
        replies,
        |op: Notify| op.rail_handle == rail_handle,
        shown,
    );
}

/// Whatever RAIL replies: bringing the radio up does not make it listen, nor does
/// initialising RAIL or setting the sending power by itself, and neither sending, nor
/// reading a packet, nor telling the user of an event changes whether it listens or
/// will do so after a packet.
pub proof fn law_listening_changes_only_on_request(
    new: NewRadio,
    init: Init,
    power: ConfigureTxPower,
    send: SendPacket,
    read: ReadPacket,
    notify: Notify,
    replies: Seq<RailReply>,
)
    ensures
        crate::receive::leaves_listening_alone(crate::operation::run(new, replies).calls),
        crate::receive::leaves_listening_alone(crate::operation::run(init, replies).calls),
        crate::receive::leaves_listening_alone(crate::operation::run(power, replies).calls),
        crate::receive::leaves_listening_alone(crate::operation::run(send, replies).calls),
        crate::receive::leaves_listening_alone(crate::operation::run(read, replies).calls),
        crate::receive::leaves_listening_alone(crate::operation::run(notify, replies).calls),
{
    let shown = |call: RailCall|
        !(call is SetRxTransitions || call is SetTxTransitions || call is StartRx || call is Idle);
    crate::operation::lemma_every_call(new, replies, |op: NewRadio| true, shown);
    crate::operation::lemma_every_call(init, replies, |op: Init| true, shown);
    crate::operation::lemma_every_call(power, replies, |op: ConfigureTxPower| true, shown);
    crate::operation::lemma_every_call(send, replies, |op: SendPacket| true, shown);
    crate::operation::lemma_every_call(read, replies, |op: ReadPacket| true, shown);
    crate::operation::lemma_every_call(notify, replies, |op: Notify| true, shown);
}

/// A 32-bit constant that is handed over as 16 bits keeps its lower half.
proof fn lemma_low_half(value: u32)
    ensures
        value as u16 == value % 0x1_0000,
{
    assert(value as u16 == value % 0x1_0000) by (bit_vector);
}

/// When the radio is brought up, RAIL is initialised with the true sizes of its
/// buffers, so far as they fit the 16 bits that RAIL has for them: those of its
/// built-in receive queue and receive FIFO, and that of the transmit FIFO, which is
/// empty at first. Nothing but the user's function is left with it.
pub proof fn law_rail_is_told_the_buffer_sizes(
    rail: RailConstants,
    on_radio_event: usize,
    rail_handle: usize,
    tx_power_dbm: i16,
)
    ensures
        ({
            let op = NewRadio::Initializing {
                init: Init {
                    rail,
                    config: Radio::rail_config(rail, on_radio_event),
                    rail_handle,
                    stage: InitStage::PaInit,
                },
                tx_power_dbm,
            };
            let calls = crate::operation::run(op, seq![RailReply::Nothing]).calls;
            &&& calls.len() == 2
            &&& calls[0] is PaInit
            &&& calls[1] matches RailCall::Init { rail_handle: given, config } && {
                &&& given == rail_handle
                &&& config.opaque_handle1 == on_radio_event
                &&& config.opaque_handle2 == 0
                &&& config.opaque_value == 0
                &&& rail.builtin_rx_packet_queue_entries <= u16::MAX
                    ==> config.rx_packet_queue_entries == rail.builtin_rx_packet_queue_entries
                &&& rail.builtin_rx_fifo_bytes <= u16::MAX ==> config.rx_fifo_bytes
                    == rail.builtin_rx_fifo_bytes
                &&& config.rx_packet_queue_entries == rail.builtin_rx_packet_queue_entries
                    % 0x1_0000
                &&& config.rx_fifo_bytes == rail.builtin_rx_fifo_bytes % 0x1_0000
                &&& config.tx_fifo_bytes == RX_FIFO_LENGTH_BYTES
                &&& config.tx_fifo_init_bytes == 0
            }
        }),
{
    lemma_low_half(rail.builtin_rx_packet_queue_entries);
    lemma_low_half(rail.builtin_rx_fifo_bytes);
    reveal_with_fuel(crate::operation::run, 2);
}

/// A radio made from a handle has that handle, so radios from different handles
/// differ.
pub proof fn law_radio_is_its_handle(rail_handle: usize, other: usize)
    ensures
        <Radio as vstd::std_specs::convert::FromSpec<usize>>::from_spec(rail_handle).rail_handle
            == rail_handle,
        <Radio as vstd::std_specs::convert::FromSpec<usize>>::from_spec(rail_handle)
            == <Radio as vstd::std_specs::convert::FromSpec<usize>>::from_spec(other)
            ==> rail_handle == other,
{
}

/// The radio listens where it sends: where RAIL names the same first channel to both,
/// the channel that listening starts on is the one that sending starts on, namely the
/// one that RAIL named.
pub proof fn law_listens_where_it_sends(
    enable: EnableReceive,
    send: SendPacket,
    first_channel: u16,
)
    requires
        enable.stage == EnableStage::FirstChannel,
        send.stage == SendStage::FirstChannel,
        enable.rail_handle == send.rail_handle,
    ensures
        ({
            let replies = seq![RailReply::Channel(first_channel)];
            let listening = crate::operation::run(enable, replies).calls;
            let sending = crate::operation::run(send, replies).calls;
            &&& listening.len() == 2
            &&& sending.len() == 2
            &&& listening[0] == sending[0]
            &&& listening[1] matches RailCall::StartRx { rail_handle, channel } && rail_handle
                == enable.rail_handle && channel == first_channel
            &&& sending[1] matches RailCall::StartTx { rail_handle, channel, .. } && rail_handle
                == send.rail_handle && channel == first_channel
        }),
{
    reveal_with_fuel(crate::operation::run, 2);
}

} // verus!
