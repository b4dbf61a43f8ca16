//! Errors of the transports.
use vstd::prelude::*;
use crate::transport::address::SocketAddr;

verus! {

/// A failure below the transport.
#[derive(Debug, PartialEq, Eq)]
pub enum IoError {
    /// A failure that is told by its message alone.
    Other(String),
    /// A packet was to go to an address at which no client is connected. The message of this
    /// failure is "unable to find channel for client: " and the address.
    UnknownClient(SocketAddr),
}

/// An error of a transport.
#[derive(Debug, PartialEq, Eq)]
pub enum Error {
    /// The connection could not be made.
    NotConnected,
    /// The other side asked for the connection to end.
    UserRequest,
    /// A failure below the transport.
    Io(IoError),
    /// The other end of a queue is gone.
    Channel,
    /// A packet came in that is longer than [`crate::transport::packet::MTU`]; its length is
    /// given.
    PacketTooLong(usize),
}

impl Error {
    /// Whether this is the failure with the given message.
    pub open spec fn is_io(self, message: Seq<char>) -> bool {
        self matches Error::Io(IoError::Other(text)) && text@ == message
    }
}

/// The failure whose message is `what` and after it `why`.
pub(crate) fn io_error(what: &str, why: &str) -> (error: Error)
    ensures
        error.is_io(what@ + why@),
{
    let mut message = what.to_owned();
    message.append(why);
    Error::Io(IoError::Other(message))
}

/// What it means whether a queue took what it was given: if it did not, its other end is gone.
pub fn accepted<T>(outcome: Result<(), T>) -> (done: Result<(), Error>)
    ensures
        match outcome {
            Ok(()) => done is Ok,
            Err(_) => done matches Err(error) && error == Error::Channel,
        },
{
    match outcome {
        Ok(()) => Ok(()),
        Err(_) => Err(Error::Channel),
    }
}

/// A queue that did not take something, whatever it was, is one whose other end is gone; and only
/// that is an error.
pub proof fn law_a_refusal_means_a_lost_end<T>(outcome: Result<(), T>, done: Result<(), Error>)
    requires
        call_ensures(accepted::<T>, (outcome,), done),
    ensures
        outcome is Ok <==> done is Ok,
        done matches Err(error) ==> error == Error::Channel,
{
}

}
