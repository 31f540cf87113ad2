//! Errors of a subscription.
use vstd::prelude::*;
use vstd::string::*;

verus! {

/// drift ZMQ error
#[derive(Debug, Clone, PartialEq, Eq)]
pub enum ZmqError {
    Context(String),
    Socket(String),
    Connect(String),
    Receive(String),
    Deserialize(String),
}

impl ZmqError {
    /// What an error reads as.
    pub open spec fn text(self) -> Seq<char> {
        match self {
            ZmqError::Context(cause) => "zmq context err: "@ + cause@,
            ZmqError::Socket(cause) => "zmq socket err: "@ + cause@,
            ZmqError::Connect(cause) => "zmq connect err: "@ + cause@,
            ZmqError::Receive(cause) => "zmq receive err: "@ + cause@,
            ZmqError::Deserialize(cause) => "zmq deserialize err: "@ + cause@,
        }
    }

    /// What brought an error about.
    pub open spec fn cause(self) -> String {
        match self {
            ZmqError::Context(cause) => cause,
            ZmqError::Socket(cause) => cause,
            ZmqError::Connect(cause) => cause,
            ZmqError::Receive(cause) => cause,
            ZmqError::Deserialize(cause) => cause,
        }
    }

    /// What brought the error about.
    pub fn into_cause(self) -> (cause: String)
        ensures
            cause == self.cause(),
    {
        match self {
            ZmqError::Context(cause) => cause,
            ZmqError::Socket(cause) => cause,
            ZmqError::Connect(cause) => cause,
            ZmqError::Receive(cause) => cause,
            ZmqError::Deserialize(cause) => cause,
        }
    }

    /// The error as a line of text.
    pub fn message(&self) -> (text: String)
        ensures
            text@ == self.text(),
    {
        match self {
            ZmqError::Context(cause) => "zmq context err: ".to_owned().concat(cause.as_str()),
            ZmqError::Socket(cause) => "zmq socket err: ".to_owned().concat(cause.as_str()),
            ZmqError::Connect(cause) => "zmq connect err: ".to_owned().concat(cause.as_str()),
            ZmqError::Receive(cause) => "zmq receive err: ".to_owned().concat(cause.as_str()),
            ZmqError::Deserialize(cause) => "zmq deserialize err: ".to_owned().concat(
                cause.as_str(),
            ),
        }
    }
}

} // verus!
