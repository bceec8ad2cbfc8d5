//! The part of RAIL's interface that the driver uses, as plain values: the
//! constants of its header, the calls it offers, and what they give back.

use vstd::prelude::*;

use crate::error::StatusCodes;
use crate::radio::RadioEvent;

verus! {

/// Constants of RAIL's headers and of the project's RAIL configuration. Each field
/// holds the value of the C constant that its comment names.
#[derive(Debug, Clone, Copy, PartialEq, Eq, Structural)]
pub struct RailConstants {
    /// `SL_RAIL_STATUS_*`
    pub status: StatusCodes,
    /// `SL_RAIL_EVENTS_ALL`
    pub events_all: u64,
    /// `SL_RAIL_EVENT_TX_PACKET_SENT`
    pub event_tx_packet_sent: u32,
    /// `SL_RAIL_EVENT_RX_PACKET_RECEIVED`
    pub event_rx_packet_received: u32,
    /// `SL_RAIL_EVENT_RX_FRAME_ERROR`
    pub event_rx_frame_error: u32,
    /// `SL_RAIL_BUILTIN_RX_PACKET_QUEUE_ENTRIES`
    pub builtin_rx_packet_queue_entries: u32,
    /// `SL_RAIL_BUILTIN_RX_FIFO_BYTES`
    pub builtin_rx_fifo_bytes: u32,
    /// `SL_RAIL_TX_POWER_MODE_2P4_GHZ_LP`
    pub tx_power_mode_2p4_ghz_lp: u32,
    /// `SL_RAIL_TX_POWER_MODE_2P4_GHZ_HP`
    pub tx_power_mode_2p4_ghz_hp: u32,
    /// `SL_RAIL_UTIL_PA_VOLTAGE_MV`
    pub pa_voltage_mv: u32,
    /// `SL_RAIL_UTIL_PA_RAMP_TIME_US`
    pub pa_ramp_time_us: u32,
    /// `SL_RAIL_RF_STATE_RX`
    pub rf_state_rx: u32,
    /// `SL_RAIL_RF_STATE_IDLE`
    pub rf_state_idle: u32,
    /// `SL_RAIL_IDLE`
    pub idle: u32,
    /// `SL_RAIL_TX_OPTIONS_DEFAULT`
    pub tx_options_default: u32,
}

/// The plain fields of `sl_rail_config`. Its pointers to the buffers and to the
/// event handler belong to whoever makes the call.
#[derive(Debug, Clone, Copy, PartialEq, Eq, Structural)]
pub struct RailConfig {
    /// Address of the function that hears of radio events.
    pub opaque_handle1: usize,
    pub opaque_handle2: usize,
    pub opaque_value: u32,
    pub rx_packet_queue_entries: u16,
    pub rx_fifo_bytes: u16,
    pub tx_fifo_bytes: u16,
    pub tx_fifo_init_bytes: u16,
}

/// A call into RAIL, with its arguments. Handles are addresses.
#[derive(Debug, Clone, Copy, PartialEq, Eq)]
pub enum RailCall<'p> {
    /// `sl_rail_util_pa_init`
    PaInit,
    /// `sl_rail_init`, which replaces the handle that it is given.
    Init { rail_handle: usize, config: RailConfig },
    /// `sl_rail_config_channels`, with the channels of the radio configuration.
    ConfigChannels { rail_handle: usize },
    /// `sl_rail_config_events`
    ConfigEvents { rail_handle: usize, mask: u64, events: u64 },
    /// `RAIL_ConfigTxPower`
    ConfigTxPower { rail_handle: usize, mode: u8, voltage: u16, ramp_time: u16 },
    /// `RAIL_SetTxPowerDbm`, in tenths of a dBm.
    SetTxPowerDbm { rail_handle: usize, deci_dbm: i16 },
    /// `sl_rail_set_rx_transitions`
    SetRxTransitions { rail_handle: usize, success: u8, error: u8 },
    /// `sl_rail_set_tx_transitions`
    SetTxTransitions { rail_handle: usize, success: u8, error: u8 },
    /// `sl_rail_get_first_channel`
    GetFirstChannel { rail_handle: usize },
    /// `sl_rail_start_rx`
    StartRx { rail_handle: usize, channel: u16 },
    /// `sl_rail_idle`
    Idle { rail_handle: usize, mode: u8, wait: bool },
    /// `sl_rail_write_tx_fifo`
    WriteTxFifo { rail_handle: usize, packet: &'p [u8], length: u16, reset: bool },
    /// `sl_rail_start_tx`
    StartTx { rail_handle: usize, channel: u16, options: u32 },
    /// `sl_rail_hold_rx_packet`
    HoldRxPacket { rail_handle: usize },
    /// `sl_rail_get_config`
    GetConfig { rail_handle: usize },
    /// A call of the function at the address that the configuration holds.
    InvokeCallback { callback: usize, event: RadioEvent },
    /// `sl_rail_get_rx_packet_info`
    GetRxPacketInfo { rail_handle: usize, packet_handle: usize },
    /// `sl_rail_copy_rx_packet`, of the packet with this handle and size.
    CopyRxPacket { rail_handle: usize, packet_handle: usize, packet_bytes: u16 },
    /// `sl_rail_release_rx_packet`
    ReleaseRxPacket { rail_handle: usize, packet_handle: usize },
}

/// What a call into RAIL gives back.
#[derive(Debug, Clone, Copy, PartialEq, Eq, Structural)]
pub enum RailReply {
    /// The call has no result.
    Nothing,
    /// A status word.
    Status(u32),
    /// A status word and the handle as the call left it.
    Initialized { status: u32, rail_handle: usize },
    /// A channel number.
    Channel(u16),
    /// How many bytes went into the transmit FIFO.
    BytesWritten(u16),
    /// A handle of a received packet, null if there is none, and the packet's size.
    PacketInfo { packet_handle: usize, packet_bytes: u16 },
    /// The configuration that RAIL was initialised with.
    Config { opaque_handle1: usize },
}

impl<'p> RailCall<'p> {
    /// Whether `reply` is of the kind that this call gives back.
    pub open spec fn answered_by(self, reply: RailReply) -> bool {
        match self {
            RailCall::PaInit => reply is Nothing,
            RailCall::HoldRxPacket { .. } => reply is Nothing,
            RailCall::InvokeCallback { .. } => reply is Nothing,
            RailCall::Init { .. } => reply is Initialized,
            RailCall::GetFirstChannel { .. } => reply is Channel,
            RailCall::WriteTxFifo { .. } => reply is BytesWritten,
            RailCall::GetRxPacketInfo { .. } => reply is PacketInfo,
            RailCall::GetConfig { .. } => reply is Config,
            _ => reply is Status,
        }
    }

    /// The RAIL instance that the call is about, for those that are about one.
    pub open spec fn instance(self) -> Option<usize> {
        match self {
            RailCall::PaInit => None,
            RailCall::InvokeCallback { .. } => None,
            RailCall::Init { rail_handle, .. } => Some(rail_handle),
            RailCall::ConfigChannels { rail_handle } => Some(rail_handle),
            RailCall::ConfigEvents { rail_handle, .. } => Some(rail_handle),
            RailCall::ConfigTxPower { rail_handle, .. } => Some(rail_handle),
            RailCall::SetTxPowerDbm { rail_handle, .. } => Some(rail_handle),
            RailCall::SetRxTransitions { rail_handle, .. } => Some(rail_handle),
            RailCall::SetTxTransitions { rail_handle, .. } => Some(rail_handle),
            RailCall::GetFirstChannel { rail_handle } => Some(rail_handle),
            RailCall::StartRx { rail_handle, .. } => Some(rail_handle),
            RailCall::Idle { rail_handle, .. } => Some(rail_handle),
            RailCall::WriteTxFifo { rail_handle, .. } => Some(rail_handle),
            RailCall::StartTx { rail_handle, .. } => Some(rail_handle),
            RailCall::HoldRxPacket { rail_handle } => Some(rail_handle),
            RailCall::GetConfig { rail_handle } => Some(rail_handle),
            RailCall::GetRxPacketInfo { rail_handle, .. } => Some(rail_handle),
            RailCall::CopyRxPacket { rail_handle, .. } => Some(rail_handle),
            RailCall::ReleaseRxPacket { rail_handle, .. } => Some(rail_handle),
        }
    }
}

} // verus!
