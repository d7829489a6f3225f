//! The error of a campaign that gave up.

use vstd::prelude::*;

verus! {

/// The error of the retry adapter: an event could not be delivered, or the
/// first sink could not be built. It holds the last error of each kind that
/// the failed campaign met, not the whole history.
#[derive(Debug, PartialEq, Eq)]
pub struct Error<FactoryError, SlaveError> {
    /// The last error met while building a new sink, if any.
    pub factory: Option<FactoryError>,
    /// The last error met while handing the event to a sink, if any.
    pub slave: Option<SlaveError>,
}

/// The error that lies behind an [`Error`].
#[derive(Debug, PartialEq, Eq)]
pub enum Cause<'a, FactoryError, SlaveError> {
    /// A sink refused the event.
    Slave(&'a SlaveError),
    /// The factory failed to build a sink.
    Factory(&'a FactoryError),
}

impl<FactoryError, SlaveError> Error<FactoryError, SlaveError> {
    /// The underlying error: that of the sink where there is one, else that
    /// of the factory, else none.
    pub fn cause(&self) -> (cause: Option<Cause<'_, FactoryError, SlaveError>>)
        ensures
            cause == match (self.slave, self.factory) {
                (Some(slave), _) => Some(Cause::Slave(&slave)),
                (None, Some(factory)) => Some(Cause::Factory(&factory)),
                (None, None) => None,
            },
    {
        match &self.slave {
            Some(slave) => Some(Cause::Slave(slave)),
            None => match &self.factory {
                Some(factory) => Some(Cause::Factory(factory)),
                None => None,
            },
        }
    }
}

/// How one half of an error is written in a message: the error's own text, or
/// `()` where there is no error of that kind.
pub open spec fn part_text(part: Option<Seq<char>>) -> Seq<char> {
    match part {
        Some(text) => text,
        None => "()"@,
    }
}

/// The message of an error whose two halves are written as `factory` and
/// `slave`.
pub open spec fn message_text(factory: Option<Seq<char>>, slave: Option<Seq<char>>) -> Seq<char> {
    "Failed to reconnect the logging drain: "@ + part_text(factory) + "/"@ + part_text(slave)
}

/// The text of `part` as a sequence of characters.
pub open spec fn text_of(part: Option<String>) -> Option<Seq<char>> {
    match part {
        Some(text) => Some(text@),
        None => None,
    }
}

impl Error<String, String> {
    /// The message of an error whose halves are already written out: the
    /// factory's error, a slash and the sink's error after a fixed opening.
    pub fn message(&self) -> (message: String)
        ensures
            message@ == message_text(text_of(self.factory), text_of(self.slave)),
    {
        let mut message = String::from_str("Failed to reconnect the logging drain: ");
        match &self.factory {
            Some(factory) => message.append(factory.as_str()),
            None => message.append("()"),
        }
        message.append("/");
        match &self.slave {
            Some(slave) => message.append(slave.as_str()),
            None => message.append("()"),
        }
        message
    }
}

} // verus!
