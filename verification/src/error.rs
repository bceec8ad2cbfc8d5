//! Errors of the radio, and how RAIL's status words become results.

use vstd::prelude::*;
use vstd::string::*;

use crate::decimal::push_decimal;

verus! {

/// What can go wrong when the radio is used.
#[derive(Debug, Clone, Copy, PartialEq, Eq, Structural)]
pub enum RailError {
    InvalidParameter,
    InvalidState,
    InvalidCall,
    SchedulingError,
    /// There was no received packet to read.
    PacketBufferEmpty,
    /// The received packet, of the given size, does not fit the caller's buffer.
    BufferTooSmall(u16),
    /// Bytes that went into the transmit FIFO, and bytes that the packet has.
    TxFifoWriteFail(u16, u16),
    /// RAIL failed with a status word that has no variant of its own.
    UnknownError(u32),
}

impl RailError {
    /// The text that describes the error.
    pub open spec fn text(self) -> Seq<char> {
        match self {
            RailError::InvalidParameter => "invalid parameters provided"@,
            RailError::InvalidState => "method called in invalid state"@,
            RailError::InvalidCall => "invalid call"@,
            RailError::SchedulingError => "failed to schedule operation"@,
            RailError::PacketBufferEmpty =>
                "tried to read a packet although the buffer is empty"@,
            RailError::TxFifoWriteFail(bytes_written, packet_length) => "only wrote "@
                + crate::decimal::decimal(bytes_written as nat) + " of "@
                + crate::decimal::decimal(packet_length as nat)
                + " bytes into the FIFO buffer, possibly it's already full"@,
            RailError::UnknownError(error_code) => "sl_rail failed with error code "@
                + crate::decimal::decimal(error_code as nat),
            RailError::BufferTooSmall(packet_size) =>
                "the provided buffer is to small to store the full packet of size "@
                + crate::decimal::decimal(packet_size as nat),
        }
    }

    /// Describes the error for a human reader.
    pub fn message(&self) -> (message: String)
        ensures
            message@ == self.text(),
    {
        match self {
            RailError::InvalidParameter => "invalid parameters provided".to_owned(),
            RailError::InvalidState => "method called in invalid state".to_owned(),
            RailError::InvalidCall => "invalid call".to_owned(),
            RailError::SchedulingError => "failed to schedule operation".to_owned(),
            RailError::PacketBufferEmpty => {
                "tried to read a packet although the buffer is empty".to_owned()
            },
            RailError::TxFifoWriteFail(bytes_written, packet_length) => {
                let mut message: String = "only wrote ".to_owned();
                push_decimal(&mut message, *bytes_written as u32);
                message.append(" of ");
                push_decimal(&mut message, *packet_length as u32);
                message.append(" bytes into the FIFO buffer, possibly it's already full");
                message
            },
            RailError::UnknownError(error_code) => {
                let mut message: String = "sl_rail failed with error code ".to_owned();
                push_decimal(&mut message, *error_code);
                message
            },
            RailError::BufferTooSmall(packet_size) => {
                let mut message: String =
                    "the provided buffer is to small to store the full packet of size ".to_owned();
                push_decimal(&mut message, *packet_size as u32);
                message
            },
        }
    }
}

/// What an operation on the radio gives back.
pub type RailResult<T> = Result<T, RailError>;

/// The status words that RAIL's header defines (`SL_RAIL_STATUS_*`).
#[derive(Debug, Clone, Copy, PartialEq, Eq, Structural)]
pub struct StatusCodes {
    pub no_error: u32,
    pub suspended: u32,
    pub invalid_call: u32,
    pub invalid_parameter: u32,
    pub invalid_state: u32,
    pub sched_error: u32,
}

impl StatusCodes {
    /// Whether `code` reports that the call went well.
    pub open spec fn succeeds(self, code: u32) -> bool {
        code == self.no_error || code == self.suspended
    }

    /// Whether the six status words differ from each other.
    pub open spec fn distinct(self) -> bool {
        seq![
            self.no_error,
            self.suspended,
            self.invalid_call,
            self.invalid_parameter,
            self.invalid_state,
            self.sched_error,
        ].no_duplicates()
    }

    /// The error that a status word reports, if it does not report success.
    pub open spec fn error(self, code: u32) -> RailError {
        if code == self.invalid_call {
            RailError::InvalidCall
        } else if code == self.invalid_parameter {
            RailError::InvalidParameter
        } else if code == self.invalid_state {
            RailError::InvalidState
        } else if code == self.sched_error {
            RailError::SchedulingError
        } else {
            RailError::UnknownError(code)
        }
    }

    /// The result that a status word stands for.
    pub open spec fn result(self, code: u32) -> RailResult<()> {
        if self.succeeds(code) {
            Ok(())
        } else {
            Err(self.error(code))
        }
    }

    /// Pairs a status word that RAIL returned with the codes that explain it.
    pub fn status(&self, code: u32) -> (status: RailStatus)
        ensures
            status == (RailStatus { code, codes: *self }),
    {
        RailStatus { code, codes: *self }
    }
}

/// A status word that RAIL returned.
#[derive(Debug, Clone, Copy, PartialEq, Eq, Structural)]
pub struct RailStatus {
    pub code: u32,
    pub codes: StatusCodes,
}

/// Things that report how a call went.
pub trait IntoRailResult: Sized {
    /// The result that `self` reports.
    spec fn rail_result(self) -> RailResult<()>;

    fn into_rail_result(self) -> (result: RailResult<()>)
        ensures
            result == self.rail_result(),
    ;
}

impl IntoRailResult for RailStatus {
    open spec fn rail_result(self) -> RailResult<()> {
        self.codes.result(self.code)
    }

    /// A status of "no error" or "suspended" is success, and every other one is an
    /// error.
    fn into_rail_result(self) -> (result: RailResult<()>) {
        let code: u32 = self.code;
        if code == self.codes.no_error || code == self.codes.suspended {
            Ok(())
        } else if code == self.codes.invalid_call {
            Err(RailError::InvalidCall)
        } else if code == self.codes.invalid_parameter {
            Err(RailError::InvalidParameter)
        } else if code == self.codes.invalid_state {
            Err(RailError::InvalidState)
        } else if code == self.codes.sched_error {
            Err(RailError::SchedulingError)
        } else {
            Err(RailError::UnknownError(code))
        }
    }
}

/// A status word is turned into success exactly if it is "no error" or "suspended".
pub proof fn law_success_words(codes: StatusCodes, code: u32)
    ensures
        (RailStatus { code, codes }).rail_result() is Ok <==> (code == codes.no_error || code
            == codes.suspended),
{
}

/// Where the header's status words differ from each other, each failure among them
/// has its own error.
pub proof fn law_named_failures(codes: StatusCodes)
    requires
        codes.distinct(),
    ensures
        codes.result(codes.invalid_call) == RailResult::<()>::Err(RailError::InvalidCall),
        codes.result(codes.invalid_parameter) == RailResult::<()>::Err(
            RailError::InvalidParameter,
        ),
        codes.result(codes.invalid_state) == RailResult::<()>::Err(RailError::InvalidState),
        codes.result(codes.sched_error) == RailResult::<()>::Err(RailError::SchedulingError),
{
    let words = seq![
        codes.no_error,
        codes.suspended,
        codes.invalid_call,
        codes.invalid_parameter,
        codes.invalid_state,
        codes.sched_error,
    ];
    assert(words[0] == codes.no_error && words[1] == codes.suspended);
    assert(words[2] == codes.invalid_call && words[3] == codes.invalid_parameter);
    assert(words[4] == codes.invalid_state && words[5] == codes.sched_error);
}

/// No failure gets lost: two status words that report failure and are turned into
/// the same error are the same word.
pub proof fn law_failures_stay_apart(codes: StatusCodes, code: u32, other: u32)
    requires
        !codes.succeeds(code),
        !codes.succeeds(other),
        codes.result(code) == codes.result(other),
    ensures
        code == other,
{
}

/// A status word never turns into an error that the driver itself raises.
pub proof fn law_status_errors(codes: StatusCodes, code: u32)
    ensures
        codes.result(code) matches Err(error) ==> !(error is PacketBufferEmpty)
            && !(error is BufferTooSmall) && !(error is TxFifoWriteFail),
{
}

/// The message tells errors apart: two errors with the same message are the same,
/// down to the numbers in them.
pub proof fn law_messages_tell_errors_apart(error: RailError, other: RailError)
    requires
        error.text() == other.text(),
    ensures
        error == other,
{
    reveal_strlit("invalid parameters provided");
    reveal_strlit("method called in invalid state");
    reveal_strlit("invalid call");
    reveal_strlit("failed to schedule operation");
    reveal_strlit("tried to read a packet although the buffer is empty");
    reveal_strlit("only wrote ");
    reveal_strlit(" of ");
    reveal_strlit(" bytes into the FIFO buffer, possibly it's already full");
    reveal_strlit("sl_rail failed with error code ");
    reveal_strlit("the provided buffer is to small to store the full packet of size ");
    let text = error.text();
    assert(text[0] == other.text()[0] && text[1] == other.text()[1] && text[8]
        == other.text()[8]);
    match (error, other) {
        (RailError::TxFifoWriteFail(written, length), RailError::TxFifoWriteFail(w, l)) => {
            let head = "only wrote "@;
            let tail = " bytes into the FIFO buffer, possibly it's already full"@;
            let rest = " of "@ + (crate::decimal::decimal(length as nat) + tail);
            let r = " of "@ + (crate::decimal::decimal(l as nat) + tail);
            assert(text.skip(head.len() as int) =~= crate::decimal::decimal(written as nat) + rest);
            assert(other.text().skip(head.len() as int) =~= crate::decimal::decimal(w as nat) + r);
            crate::decimal::law_decimal_is_unique(written as nat, w as nat, rest, r);
            assert(rest.skip(4) =~= crate::decimal::decimal(length as nat) + tail);
            assert(r.skip(4) =~= crate::decimal::decimal(l as nat) + tail);
            crate::decimal::law_decimal_is_unique(length as nat, l as nat, tail, tail);
        },
        (RailError::UnknownError(code), RailError::UnknownError(c)) => {
            let head = "sl_rail failed with error code "@;
            let none = Seq::<char>::empty();
            assert(text.skip(head.len() as int) =~= crate::decimal::decimal(code as nat) + none);
            assert(other.text().skip(head.len() as int) =~= crate::decimal::decimal(c as nat)
                + none);
            crate::decimal::law_decimal_is_unique(code as nat, c as nat, none, none);
        },
        (RailError::BufferTooSmall(size), RailError::BufferTooSmall(s)) => {
            let head = "the provided buffer is to small to store the full packet of size "@;
            let none = Seq::<char>::empty();
            assert(text.skip(head.len() as int) =~= crate::decimal::decimal(size as nat) + none);
            assert(other.text().skip(head.len() as int) =~= crate::decimal::decimal(s as nat)
                + none);
            crate::decimal::law_decimal_is_unique(size as nat, s as nat, none, none);
        },
        _ => {},
    }
}

/// What each status word stands for, whatever words a header defines: "no error" and
/// "suspended" for success, four more for an error of their own, and every other word
/// for an unknown error that carries the word itself. Where a header gives two
/// meanings to one word, the one named first holds.
pub proof fn law_status_meaning(codes: StatusCodes, code: u32)
    ensures
        ({
            let result = (RailStatus { code, codes }).rail_result();
            &&& code == codes.no_error ==> result == RailResult::<()>::Ok(())
            &&& code == codes.suspended ==> result == RailResult::<()>::Ok(())
            &&& code != codes.no_error && code != codes.suspended ==> {
                &&& code == codes.invalid_call ==> result == RailResult::<()>::Err(
                    RailError::InvalidCall,
                )
                &&& code == codes.invalid_parameter && code != codes.invalid_call ==> result
                    == RailResult::<()>::Err(RailError::InvalidParameter)
                &&& code == codes.invalid_state && code != codes.invalid_call && code
                    != codes.invalid_parameter ==> result == RailResult::<()>::Err(
                    RailError::InvalidState,
                )
                &&& code == codes.sched_error && code != codes.invalid_call && code
                    != codes.invalid_parameter && code != codes.invalid_state ==> result
                    == RailResult::<()>::Err(RailError::SchedulingError)
                &&& code != codes.invalid_call && code != codes.invalid_parameter && code
                    != codes.invalid_state && code != codes.sched_error ==> result
                    == RailResult::<()>::Err(RailError::UnknownError(code))
            }
        }),
        codes.result(code) == (RailStatus { code, codes }).rail_result(),
        codes.succeeds(code) <==> (code == codes.no_error || code == codes.suspended),
{
}

/// The messages that carry no number are fixed texts.
pub proof fn law_plain_messages(error: RailError)
    ensures
        error is InvalidParameter ==> error.text() == "invalid parameters provided"@,
        error is InvalidState ==> error.text() == "method called in invalid state"@,
        error is InvalidCall ==> error.text() == "invalid call"@,
        error is SchedulingError ==> error.text() == "failed to schedule operation"@,
        error is PacketBufferEmpty ==> error.text()
            == "tried to read a packet although the buffer is empty"@,
{
}

/// A message that carries one number is a fixed text with that number at its end.
pub proof fn law_message_ends_with_the_number(packet_size: u16, error_code: u32)
    ensures
        ({
            let head = "the provided buffer is to small to store the full packet of size "@;
            let text = RailError::BufferTooSmall(packet_size).text();
            &&& text.take(head.len() as int) == head
            &&& crate::decimal::denotes(text.skip(head.len() as int), packet_size as int)
        }),
        ({
            let head = "sl_rail failed with error code "@;
            let text = RailError::UnknownError(error_code).text();
            &&& text.take(head.len() as int) == head
            &&& crate::decimal::denotes(text.skip(head.len() as int), error_code as int)
        }),
{
    let head = "the provided buffer is to small to store the full packet of size "@;
    let text = RailError::BufferTooSmall(packet_size).text();
    crate::decimal::law_decimal_denotes(packet_size as nat);
    assert(text.take(head.len() as int) =~= head);
    assert(text.skip(head.len() as int) =~= crate::decimal::decimal(packet_size as nat));
    let head = "sl_rail failed with error code "@;
    let text = RailError::UnknownError(error_code).text();
    crate::decimal::law_decimal_denotes(error_code as nat);
    assert(text.take(head.len() as int) =~= head);
    assert(text.skip(head.len() as int) =~= crate::decimal::decimal(error_code as nat));
}

/// The message of a short write names first what was written, then what there was to
/// write.
pub proof fn law_short_write_message(bytes_written: u16, packet_length: u16)
    ensures
        exists|written: Seq<char>, length: Seq<char>|
            {
                &&& #[trigger] crate::decimal::denotes(written, bytes_written as int)
                &&& #[trigger] crate::decimal::denotes(length, packet_length as int)
                &&& RailError::TxFifoWriteFail(bytes_written, packet_length).text()
                    == "only wrote "@ + written + " of "@ + length
                    + " bytes into the FIFO buffer, possibly it's already full"@
            },
{
    crate::decimal::law_decimal_denotes(bytes_written as nat);
    crate::decimal::law_decimal_denotes(packet_length as nat);
}

} // verus!
