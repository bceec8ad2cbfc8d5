//! What comes of asking the radio for something: each request from the function that
//! makes it to its result, with the calls written out.

use vstd::prelude::*;

use crate::clocks::ClockStep;
use crate::error::{IntoRailResult, RailError, RailResult, RailStatus};
use crate::events::Notify;
use crate::radio::{Radio, RadioConfig, RadioEvent};
use crate::rail::{RailCall, RailConfig, RailConstants, RailReply};
use crate::receive::{DisableReceive, EnableReceive, ReadPacket};
use crate::startup::{ConfigureTxPower, Init, NewRadio};
use crate::transmit::SendPacket;

verus! {

/// Every request can be made of every radio, whatever the constants; sending takes a
/// packet that is not empty and has at most 512 bytes.
pub proof fn law_requests_are_possible(
    radio: &Radio,
    rail: &RailConstants,
    radio_config: RadioConfig,
    rail_config: RailConfig,
    address: usize,
    tx_power_dbm: i16,
    packet: &[u8],
    target_len: usize,
    event: u64,
)
    requires
        0 < packet@.len() <= 512,
    ensures
        call_requires(Radio::new, (rail, radio_config, address)),
        call_requires(Radio::init, (rail, rail_config)),
        call_requires(Radio::configure_tx_power, (rail, address, tx_power_dbm)),
        call_requires(Radio::enable_receive, (radio, rail)),
        call_requires(Radio::disable_receive, (radio, rail)),
        call_requires(Radio::send_packet, (radio, rail, packet)),
        call_requires(Radio::read_received_packet, (radio, rail, target_len)),
        call_requires(crate::events::events_callback, (rail, address, event)),
{
}

/// Bringing the radio up: RAIL is initialised with the sizes of its buffers and the
/// user's function, channels and events are configured for the handle that it gave out,
/// and the amplifier and the power are set for it. The first call that fails is the
/// last, and its error the result; otherwise the result is the radio with that handle.
pub proof fn law_bringing_up(
    rail: &RailConstants,
    radio_config: RadioConfig,
    on_radio_event: usize,
    op: NewRadio,
    rail_handle: usize,
    statuses: Seq<u32>,
)
    requires
        call_ensures(Radio::new, (rail, radio_config, on_radio_event), op),
        statuses.len() == 5,
        (forall|i: int| 0 <= i < 4 ==> rail.status.succeeds(#[trigger] statuses[i])) ==> -32768
            <= radio_config.tx_power_dbm * 10 <= 32767,
    ensures
        crate::operation::run(
            op,
            seq![
                RailReply::Nothing,
                RailReply::Initialized { status: statuses[0], rail_handle },
                RailReply::Status(statuses[1]),
                RailReply::Status(statuses[2]),
                RailReply::Status(statuses[3]),
                RailReply::Status(statuses[4]),
            ],
        ) == crate::operation::until_failure(
            rail.status,
            seq![
                RailCall::Init {
                    rail_handle: 0xFFFF_FFFF,
                    config: RailConfig {
                        opaque_handle1: on_radio_event,
                        opaque_handle2: 0,
                        opaque_value: 0,
                        rx_packet_queue_entries: (rail.builtin_rx_packet_queue_entries
                            % 0x1_0000) as u16,
                        rx_fifo_bytes: (rail.builtin_rx_fifo_bytes % 0x1_0000) as u16,
                        tx_fifo_bytes: 512,
                        tx_fifo_init_bytes: 0,
                    },
                },
                RailCall::ConfigChannels { rail_handle },
                RailCall::ConfigEvents {
                    rail_handle,
                    mask: rail.events_all,
                    events: (rail.event_tx_packet_sent | rail.event_rx_packet_received
                        | rail.event_rx_frame_error) as u64,
                },
                RailCall::ConfigTxPower {
                    rail_handle,
                    mode: if radio_config.tx_power_dbm < 0 {
                        rail.tx_power_mode_2p4_ghz_lp as u8
                    } else {
                        rail.tx_power_mode_2p4_ghz_hp as u8
                    },
                    voltage: rail.pa_voltage_mv as u16,
                    ramp_time: rail.pa_ramp_time_us as u16,
                },
                RailCall::SetTxPowerDbm {
                    rail_handle,
                    deci_dbm: (radio_config.tx_power_dbm * 10) as i16,
                },
            ],
            statuses,
            Radio { rail_handle },
        ).preceded_by(RailCall::PaInit),
{
    let config = Radio::rail_config(*rail, on_radio_event);
    crate::startup::law_new(
        *rail,
        config,
        0xFFFF_FFFF,
        rail_handle,
        radio_config.tx_power_dbm,
        statuses,
    );
    crate::radio::law_rail_is_told_the_buffer_sizes(
        *rail,
        on_radio_event,
        0xFFFF_FFFF,
        radio_config.tx_power_dbm,
    );
    reveal_with_fuel(crate::operation::run, 2);
}

/// Initialising RAIL by itself: the same first calls, with the configuration that was
/// given, and the handle as the result.
pub proof fn law_initialising(
    rail: &RailConstants,
    config: RailConfig,
    op: Init,
    rail_handle: usize,
    statuses: Seq<u32>,
)
    requires
        call_ensures(Radio::init, (rail, config), op),
        statuses.len() == 3,
    ensures
        crate::operation::run(
            op,
            seq![
                RailReply::Nothing,
                RailReply::Initialized { status: statuses[0], rail_handle },
                RailReply::Status(statuses[1]),
                RailReply::Status(statuses[2]),
            ],
        ) == crate::operation::until_failure(
            rail.status,
            seq![
                RailCall::Init { rail_handle: 0xFFFF_FFFF, config },
                RailCall::ConfigChannels { rail_handle },
                RailCall::ConfigEvents {
                    rail_handle,
                    mask: rail.events_all,
                    events: (rail.event_tx_packet_sent | rail.event_rx_packet_received
                        | rail.event_rx_frame_error) as u64,
                },
            ],
            statuses,
            rail_handle,
        ).preceded_by(RailCall::PaInit),
{
    crate::startup::law_init(*rail, config, 0xFFFF_FFFF, rail_handle, statuses);
}

/// Setting the sending power by itself.
pub proof fn law_setting_the_power(
    rail: &RailConstants,
    rail_handle: usize,
    tx_power_dbm: i16,
    op: ConfigureTxPower,
    statuses: Seq<u32>,
)
    requires
        call_ensures(Radio::configure_tx_power, (rail, rail_handle, tx_power_dbm), op),
        statuses.len() == 2,
        rail.status.succeeds(statuses[0]) ==> -32768 <= tx_power_dbm * 10 <= 32767,
    ensures
        crate::operation::run(
            op,
            seq![RailReply::Status(statuses[0]), RailReply::Status(statuses[1])],
        ) == crate::operation::until_failure(
            rail.status,
            seq![
                RailCall::ConfigTxPower {
                    rail_handle,
                    mode: if tx_power_dbm < 0 {
                        rail.tx_power_mode_2p4_ghz_lp as u8
                    } else {
                        rail.tx_power_mode_2p4_ghz_hp as u8
                    },
                    voltage: rail.pa_voltage_mv as u16,
                    ramp_time: rail.pa_ramp_time_us as u16,
                },
                RailCall::SetTxPowerDbm { rail_handle, deci_dbm: (tx_power_dbm * 10) as i16 },
            ],
            statuses,
            (),
        ),
{
    crate::startup::law_configure_tx_power(*rail, rail_handle, tx_power_dbm, statuses);
    reveal_with_fuel(crate::operation::until_failure, 4);
}

/// Starting to listen: after packets received and sent the radio is to go back to
/// receiving, and it starts to on the channel that RAIL names. Asking for the channel
/// cannot fail; of the other calls the first that fails is the last.
pub proof fn law_starting_to_listen(
    radio: &Radio,
    rail: &RailConstants,
    op: EnableReceive,
    named: u16,
    statuses: Seq<u32>,
)
    requires
        call_ensures(Radio::enable_receive, (radio, rail), op),
        statuses.len() == 3,
    ensures
        ({
            let rail_handle = radio.rail_handle;
            let trace = crate::operation::run(
                op,
                seq![
                    RailReply::Status(statuses[0]),
                    RailReply::Status(statuses[1]),
                    RailReply::Channel(named),
                    RailReply::Status(statuses[2]),
                ],
            );
            let calls = seq![
                RailCall::SetRxTransitions {
                    rail_handle,
                    success: rail.rf_state_rx as u8,
                    error: rail.rf_state_rx as u8,
                },
                RailCall::SetTxTransitions {
                    rail_handle,
                    success: rail.rf_state_rx as u8,
                    error: rail.rf_state_rx as u8,
                },
                RailCall::GetFirstChannel { rail_handle },
                RailCall::StartRx { rail_handle, channel: named },
            ];
            let made: int = if !rail.status.succeeds(statuses[0]) {
                1
            } else if !rail.status.succeeds(statuses[1]) {
                2
            } else {
                4
            };
            let last = if made == 4 {
                statuses[2]
            } else {
                statuses[made - 1]
            };
            &&& trace.calls =~= calls.take(made)
            &&& trace.outcome == Some(rail.status.result(last))
        }),
{
    crate::receive::law_enable_receive(*rail, radio.rail_handle, named, statuses);
}

/// Stopping to listen: after packets sent and received the radio is to be idle, and it
/// goes idle without waiting. The first call that fails is the last.
pub proof fn law_stopping_to_listen(
    radio: &Radio,
    rail: &RailConstants,
    op: DisableReceive,
    statuses: Seq<u32>,
)
    requires
        call_ensures(Radio::disable_receive, (radio, rail), op),
        statuses.len() == 3,
    ensures
        crate::operation::run(
            op,
            seq![
                RailReply::Status(statuses[0]),
                RailReply::Status(statuses[1]),
                RailReply::Status(statuses[2]),
            ],
        ) == crate::operation::until_failure(
            rail.status,
            seq![
                RailCall::SetTxTransitions {
                    rail_handle: radio.rail_handle,
                    success: rail.rf_state_idle as u8,
                    error: rail.rf_state_idle as u8,
                },
                RailCall::SetRxTransitions {
                    rail_handle: radio.rail_handle,
                    success: rail.rf_state_idle as u8,
                    error: rail.rf_state_idle as u8,
                },
                RailCall::Idle {
                    rail_handle: radio.rail_handle,
                    mode: rail.idle as u8,
                    wait: false,
                },
            ],
            statuses,
            (),
        ),
{
    crate::receive::law_disable_receive(*rail, radio.rail_handle, statuses);
}

/// Sending: the packet that was given goes into the emptied FIFO. If all its bytes are
/// in, sending starts on the channel that RAIL names; if not, the error tells how many
/// are, and how many there were.
pub proof fn law_sending(
    radio: &Radio,
    rail: &RailConstants,
    packet: &[u8],
    op: SendPacket,
    bytes_written: u16,
    named: u16,
    status: u32,
)
    requires
        0 < packet@.len() <= 512,
        call_ensures(Radio::send_packet, (radio, rail, packet), op),
    ensures
        ({
            let rail_handle = radio.rail_handle;
            let trace = crate::operation::run(
                op,
                seq![
                    RailReply::BytesWritten(bytes_written),
                    RailReply::Channel(named),
                    RailReply::Status(status),
                ],
            );
            &&& trace.calls.len() == if bytes_written == packet@.len() {
                3int
            } else {
                1int
            }
            &&& trace.calls[0] matches RailCall::WriteTxFifo {
                rail_handle: to,
                packet: bytes,
                length,
                reset,
            } && to == rail_handle && bytes@ == packet@ && length == packet@.len() && reset
            &&& bytes_written == packet@.len() ==> {
                &&& trace.calls[1] == (RailCall::GetFirstChannel { rail_handle })
                &&& trace.calls[2] == (RailCall::StartTx {
                    rail_handle,
                    channel: named,
                    options: rail.tx_options_default,
                })
                &&& trace.outcome == Some(rail.status.result(status))
            }
            &&& bytes_written != packet@.len() ==> (trace.outcome matches Some(
                Err(RailError::TxFifoWriteFail(written, length)),
            ) && written == bytes_written && length == packet@.len())
        }),
{
    crate::transmit::law_send_packet(
        *rail,
        radio.rail_handle,
        packet,
        bytes_written,
        named,
        status,
    );
}

/// Reading: RAIL is asked for its oldest complete packet. If there is one and it fits
/// the buffer, that packet is copied, then released, and its size is the result, unless
/// one of the two calls fails.
pub proof fn law_reading(
    radio: &Radio,
    rail: &RailConstants,
    target_len: usize,
    op: ReadPacket,
    packet_handle: usize,
    packet_bytes: u16,
    statuses: Seq<u32>,
)
    requires
        call_ensures(Radio::read_received_packet, (radio, rail, target_len), op),
        statuses.len() == 2,
        packet_handle == 0 || packet_bytes > 0 || target_len > 0,
    ensures
        ({
            let rail_handle = radio.rail_handle;
            let trace = crate::operation::run(
                op,
                seq![
                    RailReply::PacketInfo { packet_handle, packet_bytes },
                    RailReply::Status(statuses[0]),
                    RailReply::Status(statuses[1]),
                ],
            );
            let info = RailCall::GetRxPacketInfo { rail_handle, packet_handle: 2 };
            let copy = RailCall::CopyRxPacket { rail_handle, packet_handle, packet_bytes };
            let release = RailCall::ReleaseRxPacket { rail_handle, packet_handle };
            if packet_handle == 0 {
                &&& trace.calls =~= seq![info]
                &&& trace.outcome == Some(RailResult::<u16>::Err(RailError::PacketBufferEmpty))
            } else if packet_bytes > target_len {
                &&& trace.calls =~= seq![info]
                &&& trace.outcome == Some(
                    RailResult::<u16>::Err(RailError::BufferTooSmall(packet_bytes)),
                )
            } else if rail.status.result(statuses[0]) is Err {
                &&& trace.calls =~= seq![info, copy]
                &&& trace.outcome == Some(
                    RailResult::<u16>::Err(rail.status.result(statuses[0])->Err_0),
                )
            } else if rail.status.result(statuses[1]) is Err {
                &&& trace.calls =~= seq![info, copy, release]
                &&& trace.outcome == Some(
                    RailResult::<u16>::Err(rail.status.result(statuses[1])->Err_0),
                )
            } else {
                &&& trace.calls =~= seq![info, copy, release]
                &&& trace.outcome == Some(RailResult::<u16>::Ok(packet_bytes))
            }
        }),
{
    crate::receive::law_read_received_packet(
        *rail,
        radio.rail_handle,
        target_len,
        packet_handle,
        packet_bytes,
        statuses,
    );
    reveal_with_fuel(crate::operation::until_failure, 4);
}

/// Handling an event of RAIL: of a received packet the user hears after it is held, of
/// a sent one at once, both through the function in RAIL's configuration, and of
/// nothing else.
pub proof fn law_handling_events(
    rail: &RailConstants,
    rail_handle: usize,
    event: u64,
    op: Option<Notify>,
    callback: usize,
)
    requires
        call_ensures(crate::events::events_callback, (rail, rail_handle, event), op),
    ensures
        ({
            let word = event % 0x1_0000_0000;
            let config = RailReply::Config { opaque_handle1: callback };
            let hold = RailCall::HoldRxPacket { rail_handle };
            let ask = RailCall::GetConfig { rail_handle };
            &&& word == rail.event_rx_packet_received ==> (op matches Some(notify) && {
                let trace = crate::operation::run(
                    notify,
                    seq![RailReply::Nothing, config, RailReply::Nothing],
                );
                &&& trace.calls =~= seq![
                    hold,
                    ask,
                    RailCall::InvokeCallback { callback, event: RadioEvent::PacketReceived },
                ]
                &&& trace.outcome == Some(RailResult::<()>::Ok(()))
            })
            &&& word == rail.event_tx_packet_sent && word != rail.event_rx_packet_received ==> (op
                matches Some(notify) && {
                let trace = crate::operation::run(notify, seq![config, RailReply::Nothing]);
                &&& trace.calls =~= seq![
                    ask,
                    RailCall::InvokeCallback { callback, event: RadioEvent::PacketSent },
                ]
                &&& trace.outcome == Some(RailResult::<()>::Ok(()))
            })
            &&& word != rail.event_rx_packet_received && word != rail.event_tx_packet_sent ==> op
                is None
        }),
{
    reveal_with_fuel(crate::operation::run, 4);
}

/// Holding a packet and telling the user, by themselves, are about the radio they are
/// asked of.
pub proof fn law_holding_and_telling(
    radio: &Radio,
    event: RadioEvent,
    call: RailCall,
    op: Notify,
    callback: usize,
)
    requires
        call_ensures(Radio::hold_packet, (radio,), call),
        call_ensures(Radio::trigger_event_callback, (radio, event), op),
    ensures
        call == (RailCall::HoldRxPacket { rail_handle: radio.rail_handle }),
        crate::operation::run(
            op,
            seq![RailReply::Config { opaque_handle1: callback }, RailReply::Nothing],
        ).calls == seq![
            RailCall::GetConfig { rail_handle: radio.rail_handle },
            RailCall::InvokeCallback { callback, event },
        ],
{
    reveal_with_fuel(crate::operation::run, 3);
}

/// A status that RAIL returned comes out as the result that the header gives it.
pub proof fn law_reporting_a_status(status: RailStatus, result: RailResult<()>)
    requires
        call_ensures(
            <RailStatus as IntoRailResult>::into_rail_result,
            (status,),
            result,
        ),
    ensures
        result is Ok <==> (status.code == status.codes.no_error || status.code
            == status.codes.suspended),
        result matches Err(RailError::UnknownError(code)) ==> code == status.code,
        result == Err::<(), RailError>(RailError::InvalidCall) ==> status.code
            == status.codes.invalid_call,
        result == Err::<(), RailError>(RailError::InvalidParameter) ==> status.code
            == status.codes.invalid_parameter,
        result == Err::<(), RailError>(RailError::InvalidState) ==> status.code
            == status.codes.invalid_state,
        result == Err::<(), RailError>(RailError::SchedulingError) ==> status.code
            == status.codes.sched_error,
        result matches Err(error) ==> !(error is PacketBufferEmpty) && !(error is BufferTooSmall)
            && !(error is TxFifoWriteFail),
        result matches Err(RailError::UnknownError(code)) ==> code != status.codes.invalid_call
            && code != status.codes.invalid_parameter && code != status.codes.invalid_state && code
            != status.codes.sched_error,
{
}

/// An error's message is its text.
pub proof fn law_describing_an_error(error: &RailError, message: String)
    requires
        call_ensures(RailError::message, (error,), message),
    ensures
        message@ == error.text(),
{
}

/// The button's flag can be cleared wherever its register has an address, which is at a
/// fixed distance from the base, and by one fixed bit.
pub proof fn law_clearing_the_flag(gpio_base: u32, write: (u32, u32))
    requires
        gpio_base + 0x2420 <= u32::MAX,
    ensures
        call_requires(crate::board::clear_button_interrupt_flag, (gpio_base,)),
        call_ensures(crate::board::clear_button_interrupt_flag, (gpio_base,), write) ==> write.0
            - gpio_base == 0x2420 && write.1 == 0b0010_0000,
{
}

/// The clock setup begins with enabling the oscillator, never goes back, and switches
/// the system clock over at the one point where the oscillator was read to be ready.
pub proof fn law_setting_up_clocks(
    first: ClockStep,
    step: ClockStep,
    ready: bool,
    next: Option<ClockStep>,
)
    requires
        call_ensures(Radio::configure_clocks, (), first),
        call_ensures(ClockStep::next, (step, ready), next),
    ensures
        first == ClockStep::EnableHfxo,
        next == Some(ClockStep::ForceHfxo) <==> step == ClockStep::EnableHfxo,
        next == Some(ClockStep::ReadReady) <==> (step == ClockStep::ForceHfxo || (step
            == ClockStep::ReadReady && !ready)),
        next == Some(ClockStep::SelectHfxo) <==> (step == ClockStep::ReadReady && ready),
        next is None <==> step == ClockStep::SelectHfxo,
{
}

} // verus!
