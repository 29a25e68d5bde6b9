use vstd::prelude::*;

verus! {

/// Why a message could not be delivered to an appliance, or why no reply came back.
#[derive(Clone, Copy, Debug, PartialEq, Eq, Structural)]
pub enum Error {
    /// The appliance's bounded mailbox was at capacity when the message was sent.
    FullBuffer,
    /// The deadline of a waiting send elapsed before a reply arrived.
    Timeout,
    /// The appliance had already stopped, or stopped before it replied.
    UnexpectedFailure,
}

/// The text that describes each kind of failure.
pub open spec fn error_text(e: Error) -> Seq<char> {
    match e {
        Error::FullBuffer => "appliance buffer is full"@,
        Error::Timeout => "send timeout is exceeded"@,
        Error::UnexpectedFailure => "unexpected failure"@,
    }
}

impl Error {
    /// A human readable description of the failure.
    pub fn description(&self) -> (r: &'static str)
        ensures
            r@ == error_text(*self),
    {
        match self {
            Error::FullBuffer => "appliance buffer is full",
            Error::Timeout => "send timeout is exceeded",
            Error::UnexpectedFailure => "unexpected failure",
        }
    }

    /// Whether the failure leaves the appliance usable: a full mailbox or an
    /// elapsed deadline may be retried, a stopped appliance may not.
    pub fn is_transient(&self) -> (r: bool)
        ensures
            r == !(*self is UnexpectedFailure),
    {
        !matches!(self, Error::UnexpectedFailure)
    }
}

} // verus!
