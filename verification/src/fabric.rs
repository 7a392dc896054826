//! The transport interface and the values it exchanges with its callers.

use vstd::prelude::*;

pub mod tcp;

verus! {

/// The reductions an all-reduce can apply.
#[derive(Clone, Copy, Debug, PartialEq, Eq, Structural)]
pub enum ReduceOp {
    /// Element-wise sum of bytes, wrapping modulo 256.
    Sum,
}

/// The host part of a network address, as the integer the address stands for.
#[derive(Clone, Copy, Debug, PartialEq, Eq, Structural)]
pub enum Host {
    V4(u32),
    V6(u128),
}

/// A network address: a host and a port on it.
#[derive(Clone, Copy, Debug, PartialEq, Eq, Structural)]
pub struct Endpoint {
    pub host: Host,
    pub port: u16,
}

/// What kind of failure a byte stream reported.
#[derive(Clone, Copy, Debug, PartialEq, Eq, Structural)]
pub enum FaultKind {
    /// The stream ended before the bytes asked for had arrived.
    ClosedEarly,
    /// Any other failure of the stream or of the socket under it.
    Other,
}

/// A failure reported by the operating system or the network for one stripe.
#[derive(Clone, Copy, Debug, PartialEq, Eq, Structural)]
pub struct IoFault {
    pub kind: FaultKind,
    /// The operating system's error number, where it gave one.
    pub os_code: Option<i32>,
}

/// A configuration that no transport can be built from. It is found before
/// any network activity.
#[derive(Clone, Copy, Debug, PartialEq, Eq, Structural)]
pub enum ConfigError {
    /// The transport joins exactly two ranks.
    UnsupportedWorldSize { world_size: usize },
    /// There must be one address per rank.
    AddressCountMismatch { addrs: usize, world_size: usize },
}

/// The step of connection establishment at which a stripe failed.
#[derive(Clone, Copy, Debug, PartialEq, Eq, Structural)]
pub enum ConnectStage {
    Bind,
    Accept,
    Connect,
    Configure,
}

/// Connection establishment failed; no transport exists.
#[derive(Clone, Copy, Debug, PartialEq, Eq, Structural)]
pub struct ConnectionError {
    pub stage: ConnectStage,
    pub stripe: usize,
    pub cause: IoFault,
}

/// A stripe failed in the middle of a send or a receive.
#[derive(Clone, Copy, Debug, PartialEq, Eq, Structural)]
pub struct TransportError {
    pub stripe: usize,
    pub cause: IoFault,
}

/// What every transport backend offers: point-to-point send and receive
/// addressed by peer rank, an in-place all-reduce, and the identity of the
/// local rank. Callers see nothing of the medium behind it.
///
/// The operations block the calling task until they are over. They fail with
/// a `TransportError` and are never retried by the backend.
pub trait Fabric {
    /// Transmits all of `buf` to `peer`.
    fn send(&self, peer: usize, buf: &[u8]) -> (sent: Result<(), TransportError>);

    /// Fills all of `buf` from `peer` and returns the number of bytes
    /// received, which on success is the length of `buf`: a buffer that is
    /// only partly filled is a failure.
    fn recv(&self, peer: usize, buf: &mut [u8]) -> (received: Result<usize, TransportError>)
        ensures
            final(buf)@.len() == old(buf)@.len(),
            received matches Ok(n) ==> n == old(buf)@.len(),
    ;

    /// Replaces `buf` by its element-wise reduction over all ranks.
    fn allreduce(&self, buf: &mut [u8], op: ReduceOp) -> (done: Result<(), TransportError>)
        ensures
            final(buf)@.len() == old(buf)@.len(),
    ;

    /// This process's rank.
    fn rank(&self) -> usize;

    /// Total number of ranks.
    fn world_size(&self) -> usize;
}

} // verus!
