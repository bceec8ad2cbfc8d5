use efr32_rail::error::{RailError, RailResult, StatusCodes};
use efr32_rail::events::events_callback;
use efr32_rail::operation::{Operation, Progress};
use efr32_rail::radio::{Radio, RadioConfig, RadioEvent, RX_FIFO_LENGTH_BYTES};
use efr32_rail::rail::{RailCall, RailConfig, RailConstants, RailReply};

const HANDLE: usize = 0x2000_1000;

fn rail() -> RailConstants {
    RailConstants {
        status: StatusCodes {
            no_error: 0,
            suspended: 5,
            invalid_call: 14,
            invalid_parameter: 33,
            invalid_state: 2,
            sched_error: 6,
        },
        events_all: u64::MAX,
        event_tx_packet_sent: 0x0040_0000,
        event_rx_packet_received: 0x0000_0008,
        event_rx_frame_error: 0x0000_0100,
        builtin_rx_packet_queue_entries: 16,
        builtin_rx_fifo_bytes: 0x1_0200,
        tx_power_mode_2p4_ghz_lp: 2,
        tx_power_mode_2p4_ghz_hp: 1,
        pa_voltage_mv: 3300,
        pa_ramp_time_us: 10,
        rf_state_rx: 3,
        rf_state_idle: 1,
        idle: 0,
        tx_options_default: 0,
    }
}

/// Runs `op` on the replies and gives back the calls that it asked for and its result.
fn run<'p, O: Operation<'p>>(
    op: O,
    replies: &[RailReply],
) -> (Vec<RailCall<'p>>, Option<RailResult<O::Output>>) {
    let mut calls = vec![op.call()];
    let mut op = op;
    for reply in replies {
        assert!(op.can_resume(reply));
        match op.resume(*reply) {
            Progress::Pending(next) => {
                calls.push(next.call());
                op = next;
            }
            Progress::Done(result) => return (calls, Some(result)),
        }
    }
    (calls, None)
}

fn radio() -> Radio {
    Radio::from(HANDLE)
}

const OK: RailReply = RailReply::Status(0);
const FAIL: RailReply = RailReply::Status(2);

fn config() -> RailConfig {
    RailConfig {
        opaque_handle1: 0xCAFE,
        opaque_handle2: 0,
        opaque_value: 0,
        rx_packet_queue_entries: 16,
        rx_fifo_bytes: 0x0200,
        tx_fifo_bytes: 512,
        tx_fifo_init_bytes: 0,
    }
}

fn startup_calls(mode: u8, deci_dbm: i16) -> Vec<RailCall<'static>> {
    vec![
        RailCall::PaInit,
        RailCall::Init { rail_handle: 0xFFFF_FFFF, config: config() },
        RailCall::ConfigChannels { rail_handle: HANDLE },
        RailCall::ConfigEvents { rail_handle: HANDLE, mask: u64::MAX, events: 0x0040_0108 },
        RailCall::ConfigTxPower { rail_handle: HANDLE, mode, voltage: 3300, ramp_time: 10 },
        RailCall::SetTxPowerDbm { rail_handle: HANDLE, deci_dbm },
    ]
}

fn startup_replies() -> Vec<RailReply> {
    vec![
        RailReply::Nothing,
        RailReply::Initialized { status: 0, rail_handle: HANDLE },
        OK,
        OK,
        OK,
        OK,
    ]
}

#[test]
fn new_radio_succeeds() {
    let op = Radio::new(&rail(), RadioConfig::default(), 0xCAFE);
    let (calls, result) = run(op, &startup_replies());
    assert_eq!(calls, startup_calls(1, 0));
    assert_eq!(result, Some(Ok(radio())));
}

#[test]
fn new_radio_picks_the_power_mode_by_the_sign() {
    for (dbm, mode, deci) in [(6, 1, 60), (-1, 2, -10), (-3276, 2, -32760), (3276, 1, 32760)] {
        let op = Radio::new(&rail(), RadioConfig { tx_power_dbm: dbm }, 0xCAFE);
        let (calls, result) = run(op, &startup_replies());
        assert_eq!(calls, startup_calls(mode, deci));
        assert_eq!(result, Some(Ok(radio())));
    }
}

#[test]
fn new_radio_stops_at_the_first_failure() {
    for failing in 1..6 {
        let mut replies = startup_replies();
        replies[failing] = if failing == 1 {
            RailReply::Initialized { status: 2, rail_handle: HANDLE }
        } else {
            FAIL
        };
        let (calls, result) = run(Radio::new(&rail(), RadioConfig::default(), 0xCAFE), &replies);
        assert_eq!(calls, startup_calls(1, 0)[..failing + 1].to_vec());
        assert_eq!(result, Some(Err(RailError::InvalidState)));
    }
}

#[test]
fn suspended_does_not_stop_the_startup() {
    let mut replies = startup_replies();
    replies[3] = RailReply::Status(5);
    let (calls, result) = run(Radio::new(&rail(), RadioConfig::default(), 0xCAFE), &replies);
    assert_eq!(calls.len(), 6);
    assert_eq!(result, Some(Ok(radio())));
}

#[test]
fn init_alone_gives_the_handle() {
    let (calls, result) = run(Radio::init(&rail(), config()), &startup_replies()[..4]);
    assert_eq!(calls, startup_calls(1, 0)[..4].to_vec());
    assert_eq!(result, Some(Ok(HANDLE)));
}

#[test]
fn power_out_of_range_is_noticed_only_when_it_is_to_be_set() {
    let op = Radio::configure_tx_power(&rail(), HANDLE, 3277);
    assert!(!op.can_resume(&OK));
    assert!(op.can_resume(&FAIL));
    assert_eq!(run(op, &[FAIL]).1, Some(Err(RailError::InvalidState)));
    assert!(!Radio::configure_tx_power(&rail(), HANDLE, -3277).can_resume(&OK));
    assert!(Radio::configure_tx_power(&rail(), HANDLE, -3276).can_resume(&OK));
}

#[test]
fn default_config_sends_with_zero_dbm() {
    assert_eq!(RadioConfig::default().tx_power_dbm, 0);
}

fn enable_calls() -> Vec<RailCall<'static>> {
    vec![
        RailCall::SetRxTransitions { rail_handle: HANDLE, success: 3, error: 3 },
        RailCall::SetTxTransitions { rail_handle: HANDLE, success: 3, error: 3 },
        RailCall::GetFirstChannel { rail_handle: HANDLE },
        RailCall::StartRx { rail_handle: HANDLE, channel: 11 },
    ]
}

#[test]
fn enable_receive_listens_on_the_first_channel() {
    let (calls, result) =
        run(radio().enable_receive(&rail()), &[OK, OK, RailReply::Channel(11), OK]);
    assert_eq!(calls, enable_calls());
    assert_eq!(result, Some(Ok(())));
}

#[test]
fn enable_receive_stops_at_the_first_failure() {
    let runs = [
        (vec![FAIL], 1),
        (vec![OK, FAIL], 2),
        (vec![OK, OK, RailReply::Channel(11), FAIL], 4),
    ];
    for (replies, made) in runs {
        let (calls, result) = run(radio().enable_receive(&rail()), &replies);
        assert_eq!(calls, enable_calls()[..made].to_vec());
        assert_eq!(result, Some(Err(RailError::InvalidState)));
    }
}

fn disable_calls() -> Vec<RailCall<'static>> {
    vec![
        RailCall::SetTxTransitions { rail_handle: HANDLE, success: 1, error: 1 },
        RailCall::SetRxTransitions { rail_handle: HANDLE, success: 1, error: 1 },
        RailCall::Idle { rail_handle: HANDLE, mode: 0, wait: false },
    ]
}

#[test]
fn disable_receive_goes_idle() {
    let (calls, result) = run(radio().disable_receive(&rail()), &[OK, OK, OK]);
    assert_eq!(calls, disable_calls());
    assert_eq!(result, Some(Ok(())));
}

#[test]
fn disable_receive_stops_at_the_first_failure() {
    for failing in 0..3 {
        let mut replies = vec![OK; 3];
        replies[failing] = FAIL;
        let (calls, result) = run(radio().disable_receive(&rail()), &replies);
        assert_eq!(calls, disable_calls()[..failing + 1].to_vec());
        assert_eq!(result, Some(Err(RailError::InvalidState)));
    }
}

#[test]
fn send_packet_hands_over_the_packet_and_sends() {
    let packet = [1u8, 2, 3];
    let replies = [RailReply::BytesWritten(3), RailReply::Channel(11), OK];
    let (calls, result) = run(radio().send_packet(&rail(), &packet), &replies);
    assert_eq!(
        calls,
        vec![
            RailCall::WriteTxFifo { rail_handle: HANDLE, packet: &packet, length: 3, reset: true },
            RailCall::GetFirstChannel { rail_handle: HANDLE },
            RailCall::StartTx { rail_handle: HANDLE, channel: 11, options: 0 },
        ]
    );
    assert_eq!(result, Some(Ok(())));
}

#[test]
fn send_packet_reports_a_short_write() {
    let packet = vec![7u8; RX_FIFO_LENGTH_BYTES];
    let (calls, result) =
        run(radio().send_packet(&rail(), &packet), &[RailReply::BytesWritten(511)]);
    assert_eq!(calls.len(), 1);
    assert_eq!(result, Some(Err(RailError::TxFifoWriteFail(511, 512))));
}

#[test]
fn send_packet_reports_that_sending_failed() {
    let replies =
        [RailReply::BytesWritten(1), RailReply::Channel(0), RailReply::Status(6)];
    let (calls, result) = run(radio().send_packet(&rail(), &[9]), &replies);
    assert_eq!(calls.len(), 3);
    assert_eq!(result, Some(Err(RailError::SchedulingError)));
}

fn info(packet_handle: usize, packet_bytes: u16) -> RailReply {
    RailReply::PacketInfo { packet_handle, packet_bytes }
}

#[test]
fn read_received_packet_copies_and_releases() {
    let (calls, result) =
        run(radio().read_received_packet(&rail(), 64), &[info(0xBEEF, 64), OK, OK]);
    assert_eq!(
        calls,
        vec![
            RailCall::GetRxPacketInfo { rail_handle: HANDLE, packet_handle: 2 },
            RailCall::CopyRxPacket {
                rail_handle: HANDLE,
                packet_handle: 0xBEEF,
                packet_bytes: 64,
            },
            RailCall::ReleaseRxPacket { rail_handle: HANDLE, packet_handle: 0xBEEF },
        ]
    );
    assert_eq!(result, Some(Ok(64)));
}

#[test]
fn read_received_packet_without_a_packet() {
    let (calls, result) = run(radio().read_received_packet(&rail(), 64), &[info(0, 0)]);
    assert_eq!(calls.len(), 1);
    assert_eq!(result, Some(Err(RailError::PacketBufferEmpty)));
    // An empty buffer makes no difference to that.
    let (_, result) = run(radio().read_received_packet(&rail(), 0), &[info(0, 0)]);
    assert_eq!(result, Some(Err(RailError::PacketBufferEmpty)));
}

#[test]
fn read_received_packet_into_too_small_a_buffer() {
    let (calls, result) = run(radio().read_received_packet(&rail(), 64), &[info(0xBEEF, 65)]);
    assert_eq!(calls.len(), 1);
    assert_eq!(result, Some(Err(RailError::BufferTooSmall(65))));
    // A buffer of the size that the error names will do.
    let (_, result) = run(radio().read_received_packet(&rail(), 65), &[info(0xBEEF, 65), OK, OK]);
    assert_eq!(result, Some(Ok(65)));
}

#[test]
fn read_received_packet_into_a_huge_buffer() {
    for (target_len, packet_bytes) in [(0x1_0004, 5), (0x1_0000, 4), (0x1_0000, u16::MAX)] {
        let replies = [info(0xBEEF, packet_bytes), OK, OK];
        let (calls, result) = run(radio().read_received_packet(&rail(), target_len), &replies);
        assert_eq!(
            calls[1],
            RailCall::CopyRxPacket { rail_handle: HANDLE, packet_handle: 0xBEEF, packet_bytes }
        );
        assert_eq!(result, Some(Ok(packet_bytes)));
    }
}

#[test]
fn read_received_packet_of_no_bytes_needs_a_place_to_copy_to() {
    assert!(!radio().read_received_packet(&rail(), 0).can_resume(&info(0xBEEF, 0)));
    assert!(radio().read_received_packet(&rail(), 0).can_resume(&info(0xBEEF, 1)));
    assert!(radio().read_received_packet(&rail(), 1).can_resume(&info(0xBEEF, 0)));
}

#[test]
fn read_received_packet_keeps_a_packet_that_could_not_be_copied() {
    let (calls, result) = run(radio().read_received_packet(&rail(), 64), &[info(0xBEEF, 3), FAIL]);
    assert_eq!(calls.len(), 2);
    assert_eq!(result, Some(Err(RailError::InvalidState)));
    let (calls, result) =
        run(radio().read_received_packet(&rail(), 64), &[info(0xBEEF, 3), OK, FAIL]);
    assert_eq!(calls.len(), 3);
    assert_eq!(result, Some(Err(RailError::InvalidState)));
}

#[test]
fn a_reply_to_something_else_changes_nothing() {
    let op = radio().disable_receive(&rail());
    assert_eq!(op.resume(RailReply::Channel(1)), Progress::Pending(op));
    let op = radio().read_received_packet(&rail(), 1);
    assert_eq!(op.resume(OK), Progress::Pending(op));
}

#[test]
fn received_packet_is_held_before_the_user_hears_of_it() {
    let op = events_callback(&rail(), HANDLE, 0x08).unwrap();
    let replies =
        [RailReply::Nothing, RailReply::Config { opaque_handle1: 0xCAFE }, RailReply::Nothing];
    let (calls, result) = run(op, &replies);
    assert_eq!(
        calls,
        vec![
            RailCall::HoldRxPacket { rail_handle: HANDLE },
            RailCall::GetConfig { rail_handle: HANDLE },
            RailCall::InvokeCallback { callback: 0xCAFE, event: RadioEvent::PacketReceived },
        ]
    );
    assert_eq!(result, Some(Ok(())));
}

#[test]
fn user_hears_of_a_sent_packet() {
    let op = events_callback(&rail(), HANDLE, 0x0040_0000).unwrap();
    let replies = [RailReply::Config { opaque_handle1: 0xCAFE }, RailReply::Nothing];
    let (calls, result) = run(op, &replies);
    assert_eq!(
        calls,
        vec![
            RailCall::GetConfig { rail_handle: HANDLE },
            RailCall::InvokeCallback { callback: 0xCAFE, event: RadioEvent::PacketSent },
        ]
    );
    assert_eq!(result, Some(Ok(())));
}

#[test]
fn other_events_are_ignored() {
    // A frame error, nothing at all, and two events at once.
    assert_eq!(events_callback(&rail(), HANDLE, 0x100), None);
    assert_eq!(events_callback(&rail(), HANDLE, 0), None);
    assert_eq!(events_callback(&rail(), HANDLE, 0x0040_0008), None);
}

#[test]
fn only_the_lower_half_of_an_event_counts() {
    let op = events_callback(&rail(), HANDLE, 0x1_0000_0008);
    assert_eq!(op, events_callback(&rail(), HANDLE, 0x08));
    assert!(op.is_some());
}

#[test]
fn hold_and_trigger_are_about_the_radio() {
    assert_eq!(radio().hold_packet(), RailCall::HoldRxPacket { rail_handle: HANDLE });
    let op = radio().trigger_event_callback(RadioEvent::PacketSent);
    assert_eq!(op.call(), RailCall::GetConfig { rail_handle: HANDLE });
}
