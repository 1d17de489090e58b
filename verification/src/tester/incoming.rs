//! Messages that come when none is expected.

use vstd::prelude::*;

use crate::text::join;

verus! {

/// Why work was cut short while no message was expected.
#[derive(Debug, Clone, Copy, Eq, Hash, PartialEq)]
pub enum IncomingMessageError<T> {
    /// A message came.
    UnexpectedMessage(T),
    /// No message can come any more.
    ChannelClosed,
}

impl<T> IncomingMessageError<T> {
    /// The text of the error, given that of a message.
    pub open spec fn described(self, message: Seq<char>) -> Seq<char> {
        match self {
            IncomingMessageError::UnexpectedMessage(_) =>
                "Message from event handler received when nothing was expected: "@ + message,
            IncomingMessageError::ChannelClosed =>
                "Channel from event handler closed unexpectedly"@,
        }
    }

    /// The text of the error, given that of a message.
    pub fn describe(&self, message: &str) -> (r: String)
        ensures
            r@ == self.described(message@),
    {
        match self {
            IncomingMessageError::UnexpectedMessage(_) => join(
                "Message from event handler received when nothing was expected: ",
                message,
            ),
            IncomingMessageError::ChannelClosed => {
                "Channel from event handler closed unexpectedly".to_owned()
            },
        }
    }
}

/// What came first: the outcome of some work, or something on the message channel.
#[derive(Debug)]
pub enum Race<O, T> {
    /// The work is done.
    Done(O),
    /// A message came or, where there is none, the channel was closed.
    Received(Option<T>),
}

/// The outcome of some work, unless the message channel was faster.
pub fn check_no_incoming_messages<O, T>(race: Race<O, T>) -> (r: Result<
    O,
    IncomingMessageError<T>,
>)
    ensures
        r == match race {
            Race::Done(out) => Ok::<O, IncomingMessageError<T>>(out),
            Race::Received(Some(message)) => Err(IncomingMessageError::UnexpectedMessage(message)),
            Race::Received(None) => Err(IncomingMessageError::ChannelClosed),
        },
{
    match race {
        Race::Done(out) => Ok(out),
        Race::Received(Some(message)) => Err(IncomingMessageError::UnexpectedMessage(message)),
        Race::Received(None) => Err(IncomingMessageError::ChannelClosed),
    }
}

} // verus!
