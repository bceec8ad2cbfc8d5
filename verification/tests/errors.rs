use efr32_rail::decimal::push_decimal;
use efr32_rail::error::{IntoRailResult, RailError, StatusCodes};

fn codes() -> StatusCodes {
    StatusCodes {
        no_error: 0,
        suspended: 5,
        invalid_call: 14,
        invalid_parameter: 33,
        invalid_state: 2,
        sched_error: 6,
    }
}

fn result_of(code: u32) -> Result<(), RailError> {
    codes().status(code).into_rail_result()
}

#[test]
fn no_error_and_suspended_are_success() {
    assert_eq!(result_of(0), Ok(()));
    assert_eq!(result_of(5), Ok(()));
}

#[test]
fn named_statuses_have_their_own_errors() {
    assert_eq!(result_of(14), Err(RailError::InvalidCall));
    assert_eq!(result_of(33), Err(RailError::InvalidParameter));
    assert_eq!(result_of(2), Err(RailError::InvalidState));
    assert_eq!(result_of(6), Err(RailError::SchedulingError));
}

#[test]
fn other_statuses_keep_their_code() {
    assert_eq!(result_of(1), Err(RailError::UnknownError(1)));
    assert_eq!(result_of(u32::MAX), Err(RailError::UnknownError(u32::MAX)));
}

#[test]
fn codes_of_another_header_are_respected() {
    let shifted = StatusCodes {
        no_error: 100,
        suspended: 101,
        invalid_call: 102,
        invalid_parameter: 103,
        invalid_state: 104,
        sched_error: 105,
    };
    assert_eq!(shifted.status(100).into_rail_result(), Ok(()));
    assert_eq!(shifted.status(0).into_rail_result(), Err(RailError::UnknownError(0)));
    assert_eq!(shifted.status(104).into_rail_result(), Err(RailError::InvalidState));
}

#[test]
fn success_wins_over_an_equal_failure_code() {
    let overlapping = StatusCodes { invalid_call: 0, ..codes() };
    assert_eq!(overlapping.status(0).into_rail_result(), Ok(()));
}

#[test]
fn messages() {
    assert_eq!(RailError::InvalidParameter.message(), "invalid parameters provided");
    assert_eq!(RailError::InvalidState.message(), "method called in invalid state");
    assert_eq!(RailError::InvalidCall.message(), "invalid call");
    assert_eq!(RailError::SchedulingError.message(), "failed to schedule operation");
    assert_eq!(
        RailError::PacketBufferEmpty.message(),
        "tried to read a packet although the buffer is empty"
    );
    assert_eq!(
        RailError::TxFifoWriteFail(12, 512).message(),
        "only wrote 12 of 512 bytes into the FIFO buffer, possibly it's already full"
    );
    assert_eq!(
        RailError::UnknownError(4294967295).message(),
        "sl_rail failed with error code 4294967295"
    );
    assert_eq!(
        RailError::BufferTooSmall(300).message(),
        "the provided buffer is to small to store the full packet of size 300"
    );
}

#[test]
fn messages_differ_in_their_numbers() {
    assert_ne!(
        RailError::TxFifoWriteFail(1, 23).message(),
        RailError::TxFifoWriteFail(12, 3).message()
    );
    assert_ne!(RailError::UnknownError(1).message(), RailError::UnknownError(10).message());
}

#[test]
fn decimal_notation() {
    for n in [0u32, 7, 9, 10, 42, 99, 100, 65535, 4294967295] {
        let mut text = String::from("n=");
        push_decimal(&mut text, n);
        assert_eq!(text, format!("n={}", n));
        assert_eq!(text[2..].parse::<u32>(), Ok(n));
    }
}
