//! A KCP session library: the bounded queues and signals that connect its
//! tasks, the per-session state machine that decides when a session reads,
//! writes, flushes, closes or times out, conversation-id allocation, and the
//! packet-level decisions taken around the KCP engine.
//!
//! Everything here is plain state and plain values. The engine itself, the
//! clock, the sockets and the task runtime stay with the caller, which hands
//! their results to these functions and performs the actions they return.
mod error;
mod kcp;
mod queue;
mod signal;
mod poller;
mod client;
mod server;

pub use error::{IoConversion, IoErrorKind, IoMessage, KcpError, KcpErrorKind};
pub use kcp::{
    ConvAllocator, fast_mode, get_conv, input_result, normal_mode, recv_result, send_len, send_result, KcpConfig,
    IKCP_WND_RCV,
};
pub use queue::{Queue, QueueImpl};
pub use signal::{signal, KcpReadSig, KcpUpdateSig, Sig, SignalImpl};
pub use poller::{
    merge_next_check, next_check_delay, poller_step, KcpImpl, KcpPoller, LoopStep, PollerStep, SafeKcp, SessionStep, UpdateTask,
};
pub use client::{ClientSessions, KcpConv, ReadStep, ReaderTask};
pub use server::{
    after_input, closer_step, datagram_step, AfterInput, CloseAction, CloseEvent, Datagram, KcpCloseState,
    RemoteConv, SessionTable,
};

use vstd::prelude::*;

verus! {

/// The outcome of polling an operation that may have to wait.
pub enum Poll<T> {
    Ready(T),
    Pending,
}

/// Sizes of the buffers and queues of a connector or a listener, and the
/// configuration of the KCP engine of each session.
#[derive(Debug, Clone, Copy, PartialEq, Eq, Structural)]
pub struct Config {
    pub rcvbuf_size: usize,
    pub quebuf_size: usize,
    pub kcp_config: KcpConfig,
}

/// The kind of a background task that a connector or a listener runs.
#[derive(Debug, Clone, Copy, PartialEq, Eq, Structural)]
pub enum TaskKind {
    Reader,
    Sender,
    Poller,
    Closer,
}

pub open spec fn spec_default_config() -> Config {
    Config { rcvbuf_size: 1500, quebuf_size: 1024, kcp_config: kcp::spec_fast_mode() }
}

impl Default for Config {
    fn default() -> (c: Self)
        ensures
            c == spec_default_config(),
    {
        Config { rcvbuf_size: 1500, quebuf_size: 1024, kcp_config: fast_mode() }
    }
}

impl Config {
    /// The configuration that a connector runs with: a receive buffer that
    /// is never smaller than one MTU.
    pub fn with_min_rcvbuf(self) -> (c: Config)
        ensures
            c.quebuf_size == self.quebuf_size,
            c.kcp_config == self.kcp_config,
            c.rcvbuf_size == if self.rcvbuf_size < self.kcp_config.mtu as usize {
                self.kcp_config.mtu as usize
            } else {
                self.rcvbuf_size
            },
    {
        let rcvbuf_size = if self.rcvbuf_size < self.kcp_config.mtu as usize {
            self.kcp_config.mtu as usize
        } else {
            self.rcvbuf_size
        };
        Config { rcvbuf_size, quebuf_size: self.quebuf_size, kcp_config: self.kcp_config }
    }
}

} // verus!
