//! The error that an RPC is answered with.

use vstd::prelude::*;

verus! {

/// The gRPC codes that the driver answers with.
#[derive(Debug, Clone, Copy, PartialEq, Eq, Structural)]
pub enum Code {
    InvalidArgument,
    FailedPrecondition,
    Internal,
    Unimplemented,
}

/// A refused or failed RPC.
#[derive(Debug)]
pub struct Status {
    pub code: Code,
    pub message: String,
}

/// What a [`Status`] says.
#[verifier::ext_equal]
pub struct StatusView {
    pub code: Code,
    pub message: Seq<char>,
}

impl View for Status {
    type V = StatusView;

    open spec fn view(&self) -> StatusView {
        StatusView { code: self.code, message: self.message@ }
    }
}

impl StatusView {
    /// The request is not one that the RPC takes.
    pub open spec fn invalid_argument(message: Seq<char>) -> StatusView {
        StatusView { code: Code::InvalidArgument, message }
    }

    /// The system is not in a state for the RPC.
    pub open spec fn failed_precondition(message: Seq<char>) -> StatusView {
        StatusView { code: Code::FailedPrecondition, message }
    }

    /// Something failed on the way.
    pub open spec fn internal(message: Seq<char>) -> StatusView {
        StatusView { code: Code::Internal, message }
    }

    /// The RPC is not offered.
    pub open spec fn unimplemented(message: Seq<char>) -> StatusView {
        StatusView { code: Code::Unimplemented, message }
    }
}

impl Status {
    /// The request is not one that the RPC takes.
    pub fn invalid_argument(message: &str) -> (r: Status)
        ensures
            r@ == StatusView::invalid_argument(message@),
    {
        Status { code: Code::InvalidArgument, message: message.to_string() }
    }

    /// The system is not in a state for the RPC.
    pub fn failed_precondition(message: &str) -> (r: Status)
        ensures
            r@ == StatusView::failed_precondition(message@),
    {
        Status { code: Code::FailedPrecondition, message: message.to_string() }
    }

    /// Something failed on the way.
    pub fn internal(message: &str) -> (r: Status)
        ensures
            r@ == StatusView::internal(message@),
    {
        Status { code: Code::Internal, message: message.to_string() }
    }

    /// The RPC is not offered.
    pub fn unimplemented(message: &str) -> (r: Status)
        ensures
            r@ == StatusView::unimplemented(message@),
    {
        Status { code: Code::Unimplemented, message: message.to_string() }
    }
}

/// How a run of steps goes on: it waits in a state, or it is over.
pub enum Progress<M, T> {
    Next(M),
    Done(T),
}

/// A run of steps: each state waits for a reply, which leads to the next.
pub trait Steps: Sized {
    /// What a state waits for.
    type Reply;

    /// What a run comes to.
    type Out;

    /// How the run goes on after a reply.
    spec fn resume(self, reply: Self::Reply) -> Progress<Self, Self::Out>;
}

/// Where a run stands after a list of replies; those that come after its end
/// play no part.
pub open spec fn run<M: Steps>(m: M, replies: Seq<M::Reply>) -> Progress<M, M::Out>
    decreases replies.len(),
{
    if replies.len() == 0 {
        Progress::Next(m)
    } else {
        match run(m, replies.drop_last()) {
            Progress::Next(k) => k.resume(replies.last()),
            Progress::Done(t) => Progress::Done(t),
        }
    }
}

/// One more reply is one more step.
pub proof fn lemma_run_push<M: Steps>(m: M, replies: Seq<M::Reply>, reply: M::Reply)
    ensures
        run(m, replies.push(reply)) == (match run(m, replies) {
            Progress::Next(k) => k.resume(reply),
            Progress::Done(t) => Progress::Done(t),
        }),
{
    assert(replies.push(reply).drop_last() =~= replies);
}

/// A run goes on from where it stands.
pub proof fn lemma_run_append<M: Steps>(m: M, first: Seq<M::Reply>, rest: Seq<M::Reply>)
    ensures
        run(m, first + rest) == (match run(m, first) {
            Progress::Next(k) => run(k, rest),
            Progress::Done(t) => Progress::Done(t),
        }),
    decreases rest.len(),
{
    if rest.len() == 0 {
        assert(first + rest =~= first);
    } else {
        lemma_run_append(m, first, rest.drop_last());
        assert((first + rest).drop_last() =~= first + rest.drop_last());
    }
}

/// Each kind of error has its own code, and the message that it was made with.
pub proof fn law_status(message: Seq<char>)
    ensures
        StatusView::invalid_argument(message).code == Code::InvalidArgument,
        StatusView::failed_precondition(message).code == Code::FailedPrecondition,
        StatusView::internal(message).code == Code::Internal,
        StatusView::unimplemented(message).code == Code::Unimplemented,
        StatusView::invalid_argument(message).message == message,
        StatusView::failed_precondition(message).message == message,
        StatusView::internal(message).message == message,
        StatusView::unimplemented(message).message == message,
{
}

/// What the operations that make an error come to.
pub proof fn law_status_operations(message: &str, s: Status)
    ensures
        call_ensures(Status::invalid_argument, (message,), s) ==> s.code == Code::InvalidArgument
            && s.message@ == message@,
        call_ensures(Status::failed_precondition, (message,), s) ==> s.code
            == Code::FailedPrecondition && s.message@ == message@,
        call_ensures(Status::internal, (message,), s) ==> s.code == Code::Internal && s.message@
            == message@,
        call_ensures(Status::unimplemented, (message,), s) ==> s.code == Code::Unimplemented
            && s.message@ == message@,
{
}

} // verus!
