//! The server's setup plan and its receive-loop policy.
//!
//! Configuring the listening socket is a fixed sequence of system calls; the
//! loop around `receive` is blocking I/O. Neither can run inside the verified
//! library, so the library decides and the unverified shell performs: setup
//! becomes a plan of actions executed in order and aborted on the first
//! failure, and each loop iteration asks the library what to do with what
//! the kernel returned.

use vstd::prelude::*;

use crate::endpoint::Endpoint;
use crate::endpoint::parse_socket_v4;
use crate::endpoint::parsed_socket_v4;
use crate::limits::DATA_BUF_SIZE_LIMIT;
use crate::limits::effective_data_buf_size;
use crate::limits::recv_buf_size;
use crate::limits::spec_effective_data_buf_size;
use crate::limits::spec_recv_buf_size;

verus! {

/// The socket-option level of the sequenced-packet protocol, as defined by
/// its socket-option ABI.
pub const SOL_SCTP: i32 = 132;

/// The option number of the protocol's automatic-idle-close timer.
pub const SCTP_AUTOCLOSE: i32 = 4;

/// The option value that disables the automatic-idle-close timer.
pub const SCTP_AUTOCLOSE_OFF: i32 = 0;

/// How many pending associations the kernel is asked to queue.
pub const LISTEN_BACKLOG: usize = 6;

/// One step of socket setup, to be performed by the shell in plan order.
#[derive(Clone, Copy, Debug, PartialEq, Eq, Structural)]
pub enum SetupAction {
    /// open a sequenced-packet socket in the IPv4 family
    CreateSocket,
    /// issue a raw socket option with the given level, number and value
    SetRawOption { level: i32, name: i32, value: i32 },
    /// turn address reuse on
    SetReuseAddr,
    /// turn port reuse on
    SetReusePort,
    /// ask the kernel for a receive buffer of `bytes` bytes
    SetRecvBufSize { bytes: usize },
    /// bind the socket to `endpoint`
    Bind { endpoint: Endpoint },
    /// listen with a queue of `backlog` pending associations
    Listen { backlog: usize },
    /// the bind address did not parse: undo and report, touching no socket
    RejectAddress,
}

/// The setup step at which configuration failed.
#[derive(Clone, Copy, Debug, PartialEq, Eq, Structural)]
pub enum SetupStage {
    /// creating the socket
    Socket,
    /// disabling the automatic-idle-close timer
    Autoclose,
    /// turning address reuse on
    ReuseAddr,
    /// turning port reuse on
    ReusePort,
    /// sizing the receive buffer
    RecvBuf,
    /// parsing the bind address
    AddrParse,
    /// binding
    Bind,
    /// listening
    Listen,
}

/// Why setup failed: a step's underlying OS error, or a bind address the
/// address grammar refuses. Fatal: the server never starts serving after it.
#[derive(Clone, Copy, Debug, PartialEq, Eq, Structural)]
pub enum SetupError {
    /// the step `stage` failed with the OS error number `errno`
    Os { stage: SetupStage, errno: i32 },
    /// the bind address did not parse
    AddrParse,
}

/// The server's whole setup, decided before any socket is touched.
pub struct ServerPlan {
    /// the setup actions, in the order the shell must perform them
    pub actions: Vec<SetupAction>,
    /// the size of the reusable message buffer
    pub data_buf_size: usize,
}

/// The setup actions for a bind address that parsed to `parsed`, a receive
/// buffer of `recv_buf` bytes, and the caller's keep-alive choice: create,
/// disable autoclose only under keep-alive, reuse address and port, size the
/// receive buffer, then bind and listen — or, when the address did not
/// parse, reject instead of binding.
pub open spec fn spec_setup_actions(
    parsed: Option<(u8, u8, u8, u8, u16)>,
    recv_buf: usize,
    keep_alive: bool,
) -> Seq<SetupAction> {
    seq![SetupAction::CreateSocket] + (if keep_alive {
        seq![
            SetupAction::SetRawOption {
                level: SOL_SCTP,
                name: SCTP_AUTOCLOSE,
                value: SCTP_AUTOCLOSE_OFF,
            },
        ]
    } else {
        Seq::<SetupAction>::empty()
    }) + seq![
        SetupAction::SetReuseAddr,
        SetupAction::SetReusePort,
        SetupAction::SetRecvBufSize { bytes: recv_buf },
    ] + (match parsed {
        Some(t) => seq![
            SetupAction::Bind {
                endpoint: Endpoint { a: t.0, b: t.1, c: t.2, d: t.3, port: t.4 },
            },
            SetupAction::Listen { backlog: LISTEN_BACKLOG },
        ],
        None => seq![SetupAction::RejectAddress],
    })
}

/// Decides the whole server setup for a textual bind address, an optional
/// message size and the keep-alive choice: the effective (capped) message
/// buffer, and the exact action sequence the shell must perform.
pub fn server_setup_plan(addr: &str, data_bs: Option<usize>, keep_alive: bool) -> (p: ServerPlan)
    ensures
        p.data_buf_size == spec_effective_data_buf_size(data_bs),
        p.actions@ == spec_setup_actions(
            parsed_socket_v4(addr@),
            spec_recv_buf_size(spec_effective_data_buf_size(data_bs)) as usize,
            keep_alive,
        ),
{
    let siz = effective_data_buf_size(data_bs);
    let recv = recv_buf_size(siz);
    let mut actions: Vec<SetupAction> = Vec::new();
    actions.push(SetupAction::CreateSocket);
    if keep_alive {
        actions.push(
            SetupAction::SetRawOption {
                level: SOL_SCTP,
                name: SCTP_AUTOCLOSE,
                value: SCTP_AUTOCLOSE_OFF,
            },
        );
    }
    actions.push(SetupAction::SetReuseAddr);
    actions.push(SetupAction::SetReusePort);
    actions.push(SetupAction::SetRecvBufSize { bytes: recv });
    match parse_socket_v4(addr) {
        Some(ep) => {
            actions.push(SetupAction::Bind { endpoint: ep });
            actions.push(SetupAction::Listen { backlog: LISTEN_BACKLOG });
        },
        None => {
            actions.push(SetupAction::RejectAddress);
        },
    }
    proof {
        assert(actions@ =~= spec_setup_actions(
            parsed_socket_v4(addr@),
            spec_recv_buf_size(spec_effective_data_buf_size(data_bs)) as usize,
            keep_alive,
        ));
    }
    ServerPlan { actions, data_buf_size: siz }
}

/// The setup error that a failure of `action` with OS error `errno` reports:
/// the stage the action belongs to, with the error number — except the
/// address rejection, which carries no OS error.
pub open spec fn spec_setup_failure(action: SetupAction, errno: i32) -> SetupError {
    match action {
        SetupAction::CreateSocket => SetupError::Os { stage: SetupStage::Socket, errno },
        SetupAction::SetRawOption { .. } => SetupError::Os { stage: SetupStage::Autoclose, errno },
        SetupAction::SetReuseAddr => SetupError::Os { stage: SetupStage::ReuseAddr, errno },
        SetupAction::SetReusePort => SetupError::Os { stage: SetupStage::ReusePort, errno },
        SetupAction::SetRecvBufSize { .. } => SetupError::Os { stage: SetupStage::RecvBuf, errno },
        SetupAction::Bind { .. } => SetupError::Os { stage: SetupStage::Bind, errno },
        SetupAction::Listen { .. } => SetupError::Os { stage: SetupStage::Listen, errno },
        SetupAction::RejectAddress => SetupError::AddrParse,
    }
}

/// Maps a failed setup action to the fatal error the caller sees, annotated
/// with the stage that failed and the underlying OS error.
pub fn setup_failure(action: &SetupAction, errno: i32) -> (e: SetupError)
    ensures
        e == spec_setup_failure(*action, errno),
{
    match action {
        SetupAction::CreateSocket => SetupError::Os { stage: SetupStage::Socket, errno },
        SetupAction::SetRawOption { .. } => SetupError::Os { stage: SetupStage::Autoclose, errno },
        SetupAction::SetReuseAddr => SetupError::Os { stage: SetupStage::ReuseAddr, errno },
        SetupAction::SetReusePort => SetupError::Os { stage: SetupStage::ReusePort, errno },
        SetupAction::SetRecvBufSize { .. } => SetupError::Os { stage: SetupStage::RecvBuf, errno },
        SetupAction::Bind { .. } => SetupError::Os { stage: SetupStage::Bind, errno },
        SetupAction::Listen { .. } => SetupError::Os { stage: SetupStage::Listen, errno },
        SetupAction::RejectAddress => SetupError::AddrParse,
    }
}

/// What one receive attempt yielded, as the loop sees it.
#[derive(Clone, Copy, Debug, PartialEq, Eq, Structural)]
pub enum RecvEvent {
    /// the receive call failed with the OS error number `errno`
    Failed { errno: i32 },
    /// a message arrived but the kernel supplied no sender address
    NoSender { len: usize },
    /// a message of `len` bytes arrived from `peer`
    Message { len: usize, peer: Endpoint },
}

/// The loop's phase after a decision.
#[derive(Clone, Copy, Debug, PartialEq, Eq, Structural)]
pub enum ServePhase {
    /// block on the next receive
    AwaitMessage,
    /// hand the first `len` buffered bytes and the sender to the handler
    Dispatch { len: usize, peer: Endpoint },
}

/// What follows one receive on a buffer of `buf_len` bytes: a message with a
/// known sender is dispatched, clipped to the buffer; a failed receive or a
/// message without a sender is logged and skipped.
pub open spec fn spec_receive_step(event: RecvEvent, buf_len: usize) -> ServePhase {
    match event {
        RecvEvent::Message { len, peer } => ServePhase::Dispatch {
            len: if len <= buf_len {
                len
            } else {
                buf_len
            },
            peer,
        },
        RecvEvent::Failed { .. } => ServePhase::AwaitMessage,
        RecvEvent::NoSender { .. } => ServePhase::AwaitMessage,
    }
}

/// Decides what the loop does with what one receive yielded.
pub fn receive_step(event: &RecvEvent, buf_len: usize) -> (p: ServePhase)
    ensures
        p == spec_receive_step(*event, buf_len),
{
    match event {
        RecvEvent::Message { len, peer } => ServePhase::Dispatch {
            len: if *len <= buf_len {
                *len
            } else {
                buf_len
            },
            peer: *peer,
        },
        RecvEvent::Failed { .. } => ServePhase::AwaitMessage,
        RecvEvent::NoSender { .. } => ServePhase::AwaitMessage,
    }
}

/// Bounded-buffer law: whatever one receive yielded, a dispatched length
/// never exceeds the message buffer, so the handler is never handed bytes
/// beyond what the buffer holds.
pub proof fn lemma_dispatch_bounded(event: RecvEvent, buf_len: usize)
    ensures
        spec_receive_step(event, buf_len) matches ServePhase::Dispatch { len, .. } ==> len
            <= buf_len,
{
}

/// What follows the handler's return: the next receive, whatever the handler
/// returned.
pub open spec fn spec_dispatch_step<E>(handler_result: Result<(), E>) -> ServePhase {
    ServePhase::AwaitMessage
}

/// Decides what the loop does once the handler has run: its failure is
/// logged and the loop goes on to the next message.
pub fn dispatch_step<E>(handler_result: &Result<(), E>) -> (p: ServePhase)
    ensures
        p == spec_dispatch_step::<E>(*handler_result),
{
    ServePhase::AwaitMessage
}

/// Fail-soft law: after the handler has run, the loop awaits the next
/// message whatever the handler returned, so a handler that fails on one
/// message never prevents the next message from being received and handled.
pub proof fn lemma_fail_soft<E>(failed: Result<(), E>, succeeded: Result<(), E>)
    ensures
        spec_dispatch_step(failed) is AwaitMessage,
        spec_dispatch_step(failed) == spec_dispatch_step(succeeded),
{
}

} // verus!
