use vstd::prelude::*;

verus! {

/// The failure taxonomy of the bridge.
///
/// Each variant carries a human-readable detail string for logging and error
/// attribution; classification never depends on it.
pub enum Error {
    /// The backend was unreachable, the credentials were invalid or the
    /// subscription is missing. Fatal at startup: the plugin instance stops.
    Connection(String),
    /// A temporary failure while waiting for a message (a network blip).
    /// Recovered locally: the loop retries the receive, no message was held.
    ReceiveTransient(String),
    /// A permanent failure of the live subscription (auth revoked,
    /// subscription deleted). Fatal: the plugin instance stops.
    ReceiveFatal(String),
    /// The payload was rejected by the transformation. Message-level: the
    /// message is nacked without a delivery attempt and the loop continues.
    Transformation(String),
    /// The delivery client reported a failure. Message-level: the message is
    /// nacked and redelivery is left to the backend's own policy.
    Delivery(String),
    /// An ack or nack call itself failed. Best-effort: logged only; the
    /// backend's redelivery timeout keeps processing at-least-once.
    Resolution(String),
}

impl Error {
    /// An error is fatal exactly when it terminates the plugin instance:
    /// a connection failure or a permanent receive failure.
    pub open spec fn spec_is_fatal(&self) -> bool {
        self is Connection || self is ReceiveFatal
    }

    /// An error is message-level exactly when it resolves one message as a
    /// nack and leaves the loop running: a transformation or delivery failure.
    pub open spec fn spec_is_message_level(&self) -> bool {
        self is Transformation || self is Delivery
    }

    pub fn is_fatal(&self) -> (r: bool)
        ensures
            r == self.spec_is_fatal(),
    {
        match self {
            Error::Connection(_) => true,
            Error::ReceiveFatal(_) => true,
            _ => false,
        }
    }

    pub fn is_message_level(&self) -> (r: bool)
        ensures
            r == self.spec_is_message_level(),
    {
        match self {
            Error::Transformation(_) => true,
            Error::Delivery(_) => true,
            _ => false,
        }
    }

    /// True exactly for the one error the loop recovers from without
    /// resolving any message: a transient receive failure.
    pub fn is_transient(&self) -> (r: bool)
        ensures
            r == (self is ReceiveTransient),
    {
        match self {
            Error::ReceiveTransient(_) => true,
            _ => false,
        }
    }
}

} // verus!
