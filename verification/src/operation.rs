//! Operations on the radio as step-by-step conversations with RAIL.

use vstd::prelude::*;

use crate::error::{RailError, RailResult, StatusCodes};
use crate::rail::{RailCall, RailReply};

verus! {

/// Where an operation stands after a reply.
#[derive(Debug, PartialEq, Eq)]
pub enum Progress<S, T> {
    /// There is another call to make.
    Pending(S),
    /// The operation is over.
    Done(RailResult<T>),
}

/// Something that the radio is asked to do.
///
/// An operation always waits for the reply to one call. Whoever runs it makes the
/// call that [`Operation::call`] names and hands the reply to [`Operation::resume`].
pub trait Operation<'p>: Sized {
    /// What the operation gives back when all its calls went well.
    type Output;

    /// The call whose reply the operation waits for.
    spec fn pending(self) -> RailCall<'p>;

    /// Whether the operation can go on from `reply`.
    spec fn admits(self, reply: RailReply) -> bool;

    /// Where the operation stands after `reply`. A reply that does not answer the
    /// pending call leaves it waiting.
    spec fn after(self, reply: RailReply) -> Progress<Self, Self::Output>;

    /// An upper bound on the number of replies that the operation still needs.
    spec fn remaining(self) -> nat;

    /// A reply that answers the pending call brings the operation closer to its
    /// end, and any other reply changes nothing.
    proof fn law_progress(self, reply: RailReply)
        ensures
            self.remaining() > 0,
            self.pending().answered_by(reply) ==> match self.after(reply) {
                Progress::Pending(next) => next.remaining() < self.remaining(),
                Progress::Done(_) => true,
            },
            !self.pending().answered_by(reply) ==> self.after(reply)
                == Progress::<Self, Self::Output>::Pending(self),
    ;

    /// The call to make now.
    fn call(&self) -> (call: RailCall<'p>)
        ensures
            call == self.pending(),
    ;

    /// Tests whether [`Operation::resume`] may be called with `reply`.
    fn can_resume(&self, reply: &RailReply) -> (can: bool)
        ensures
            can == self.admits(*reply),
    ;

    /// Goes on after the call was made and `reply` came back.
    fn resume(self, reply: RailReply) -> (progress: Progress<Self, Self::Output>)
        requires
            self.admits(reply),
        ensures
            progress == self.after(reply),
    ;
}

/// What was seen of an operation: the calls it asked for, in order, and its result
/// if it has come to one.
#[verifier::ext_equal]
pub struct Trace<'p, T> {
    pub calls: Seq<RailCall<'p>>,
    pub outcome: Option<RailResult<T>>,
}

impl<'p, T> Trace<'p, T> {
    /// The same trace with one more call in front.
    pub open spec fn preceded_by(self, call: RailCall<'p>) -> Self {
        Trace { calls: seq![call] + self.calls, outcome: self.outcome }
    }
}

/// What is seen of `op` when it gets `replies`, one after the other.
pub open spec fn run<'p, O: Operation<'p>>(op: O, replies: Seq<RailReply>) -> Trace<
    'p,
    O::Output,
>
    decreases replies.len(),
{
    if replies.len() == 0 {
        Trace { calls: seq![op.pending()], outcome: None }
    } else {
        match op.after(replies[0]) {
            Progress::Pending(next) => run(next, replies.drop_first()).preceded_by(op.pending()),
            Progress::Done(result) => Trace { calls: seq![op.pending()], outcome: Some(result) },
        }
    }
}

/// Whether each of `replies` answers the call that `op` waits on when the reply
/// comes, for as long as it waits.
pub open spec fn answered<'p, O: Operation<'p>>(op: O, replies: Seq<RailReply>) -> bool
    decreases replies.len(),
{
    replies.len() > 0 ==> {
        &&& op.pending().answered_by(replies[0])
        &&& op.after(replies[0]) matches Progress::Pending(next) ==> answered(
            next,
            replies.drop_first(),
        )
    }
}

/// Every operation comes to a result: once as many calls were answered as it can
/// make at most, it is over. It never asks for more calls than that.
pub proof fn law_operations_finish<'p, O: Operation<'p>>(op: O, replies: Seq<RailReply>)
    requires
        answered(op, replies),
    ensures
        replies.len() >= op.remaining() ==> run(op, replies).outcome is Some,
        run(op, replies).calls.len() <= op.remaining(),
    decreases replies.len(),
{
    if replies.len() == 0 {
        op.law_progress(RailReply::Nothing);
    } else {
        op.law_progress(replies[0]);
        if let Progress::Pending(next) = op.after(replies[0]) {
            law_operations_finish(next, replies.drop_first());
        }
    }
}

/// What is seen of a list of calls that are made one by one, each of which returns
/// one of `statuses`, until a status reports a failure. If none does, the result is
/// `value`.
pub open spec fn until_failure<'p, T>(
    codes: StatusCodes,
    calls: Seq<RailCall<'p>>,
    statuses: Seq<u32>,
    value: T,
) -> Trace<'p, T>
    decreases calls.len(),
{
    if calls.len() == 0 {
        Trace { calls: Seq::empty(), outcome: Some(Ok(value)) }
    } else {
        match codes.result(statuses[0]) {
            Ok(()) => until_failure(
                codes,
                calls.drop_first(),
                statuses.drop_first(),
                value,
            ).preceded_by(calls[0]),
            Err(error) => Trace { calls: seq![calls[0]], outcome: Some(Err(error)) },
        }
    }
}

/// Where the first status to report a failure is the one at `at`, the calls up to
/// that one were made and no others, and the result is its error.
pub proof fn law_stops_at_first_failure<'p, T>(
    codes: StatusCodes,
    calls: Seq<RailCall<'p>>,
    statuses: Seq<u32>,
    value: T,
    at: int,
)
    requires
        statuses.len() == calls.len(),
        0 <= at < calls.len(),
        forall|i: int| 0 <= i < at ==> codes.succeeds(#[trigger] statuses[i]),
        !codes.succeeds(statuses[at]),
    ensures
        until_failure(codes, calls, statuses, value).calls == calls.take(at + 1),
        until_failure(codes, calls, statuses, value).outcome == Some(
            Err::<T, RailError>(codes.error(statuses[at])),
        ),
    decreases calls.len(),
{
    if at > 0 {
        assert(codes.succeeds(statuses[0]));
        law_stops_at_first_failure(
            codes,
            calls.drop_first(),
            statuses.drop_first(),
            value,
            at - 1,
        );
        assert(seq![calls[0]] + calls.drop_first().take(at) =~= calls.take(at + 1));
    } else {
        assert(seq![calls[0]] =~= calls.take(1));
    }
}

/// Where no status reports a failure, all calls were made and the result is the
/// value.
pub proof fn law_all_succeed<'p, T>(
    codes: StatusCodes,
    calls: Seq<RailCall<'p>>,
    statuses: Seq<u32>,
    value: T,
)
    requires
        statuses.len() == calls.len(),
        forall|i: int| 0 <= i < calls.len() ==> codes.succeeds(#[trigger] statuses[i]),
    ensures
        until_failure(codes, calls, statuses, value) == (Trace {
            calls,
            outcome: Some(Ok::<T, RailError>(value)),
        }),
    decreases calls.len(),
{
    if calls.len() > 0 {
        assert(codes.succeeds(statuses[0]));
        law_all_succeed(codes, calls.drop_first(), statuses.drop_first(), value);
        assert(seq![calls[0]] + calls.drop_first() =~= calls);
    } else {
        assert(calls =~= Seq::empty());
    }
}

/// What holds of an operation at every stage shows in every call that it asks for.
pub proof fn lemma_every_call<'p, O: Operation<'p>>(
    op: O,
    replies: Seq<RailReply>,
    inv: spec_fn(O) -> bool,
    shown: spec_fn(RailCall<'p>) -> bool,
)
    requires
        inv(op),
        forall|o: O| #[trigger] inv(o) ==> shown(o.pending()),
        forall|o: O, reply: RailReply| #![trigger inv(o), o.after(reply)]
            inv(o) ==> (o.after(reply) matches Progress::Pending(next) ==> inv(next)),
    ensures
        forall|i: int|
            0 <= i < run(op, replies).calls.len() ==> shown(#[trigger] run(op, replies).calls[i]),
    decreases replies.len(),
{
    let calls = run(op, replies).calls;
    assert(shown(op.pending()));
    if replies.len() > 0 {
        if let Progress::Pending(next) = op.after(replies[0]) {
            let rest = replies.drop_first();
            lemma_every_call(next, rest, inv, shown);
            assert forall|i: int| 0 <= i < calls.len() implies shown(#[trigger] calls[i]) by {
                if i > 0 {
                    assert(calls[i] == run(next, rest).calls[i - 1]);
                }
            }
        }
    }
}

} // verus!
