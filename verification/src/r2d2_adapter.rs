//! What the connection pool is told about connections: how to retry a
//! connect, and that no liveness probe is made.

use vstd::prelude::*;

verus! {

/// Upper bound of the connections that a pool holds to one host.
pub const MAX_POOL_SIZE: u32 = 50;

/// Milliseconds to wait after a refused connect before the next attempt.
pub const CONNECT_RETRY_PERIOD: u64 = 1000;

/// A failure inside the connection pool.
#[derive(Debug)]
pub struct PoolError {
    pub message: String,
}

impl PoolError {
    /// A failure with the given message.
    pub fn new(msg: &str) -> (r: PoolError)
        ensures
            r.message@ == msg@,
    {
        PoolError { message: msg.to_owned() }
    }
}

/// What to do after an attempt to connect.
#[derive(Clone, Copy, Debug, PartialEq, Eq, Structural)]
pub enum ConnectStep {
    /// The connection stands: hand it out.
    Connected,
    /// The attempt failed: wait this many milliseconds, then try again.
    RetryAfter { millis: u64 },
    /// The attempt failed and the caller has cancelled the wait.
    Abandoned,
}

/// Opens the connections of one pool: all to the same address, with the same
/// wait between two attempts.
pub struct AntidoteConnectionManager {
    pub addr: String,
    pub retry_period: u64,
}

impl AntidoteConnectionManager {
    /// A manager for the connections to `addr`, with the usual wait of one
    /// second between two attempts to connect.
    pub fn new(addr: String) -> (r: AntidoteConnectionManager)
        ensures
            r.addr == addr,
            r.retry_period == 1000,
    {
        AntidoteConnectionManager { addr, retry_period: CONNECT_RETRY_PERIOD }
    }

    /// A manager for the connections to `addr` that waits `millis`
    /// milliseconds between two attempts to connect.
    pub fn with_retry_period(addr: String, millis: u64) -> (r: AntidoteConnectionManager)
        ensures
            r.addr == addr,
            r.retry_period == millis,
    {
        AntidoteConnectionManager { addr, retry_period: millis }
    }

    /// The step that follows an attempt to connect. A failed attempt is never
    /// an error: it is tried again after the manager's period, for as long as
    /// the caller has not cancelled.
    pub fn after_attempt(&self, connected: bool, cancelled: bool) -> (r: ConnectStep)
        ensures
            connected ==> r == ConnectStep::Connected,
            !connected && cancelled ==> r == ConnectStep::Abandoned,
            !connected && !cancelled ==> r == (ConnectStep::RetryAfter {
                millis: self.retry_period,
            }),
    {
        if connected {
            ConnectStep::Connected
        } else if cancelled {
            ConnectStep::Abandoned
        } else {
            ConnectStep::RetryAfter { millis: self.retry_period }
        }
    }

    /// The liveness probe before a connection is handed out: none is made,
    /// every connection passes. A dead one shows when it is used.
    pub fn is_valid(&self) -> (r: Result<(), PoolError>)
        ensures
            r is Ok,
    {
        Ok(())
    }

    /// Whether a connection that comes back is to be dropped: never.
    pub fn has_broken(&self) -> (r: bool)
        ensures
            !r,
    {
        false
    }
}

} // verus!
