//! Message-oriented transport over a sequenced-packet (SCTP) socket.
//!
//! The library holds the verified core: endpoint modeling and textual
//! formatting, socket-setup planning (option values, ordering, size caps,
//! error mapping), the fail-soft receive-loop policy, and the close-once
//! descriptor lifecycle. The unverified shell around it performs the actual
//! system calls and runs the blocking loop.


mod client;
mod endpoint;
mod lifecycle;
mod limits;
mod server;

pub use client::ClientError;
pub use client::resolve_peer;
pub use client::send_complete;
pub use endpoint::Endpoint;
pub use endpoint::lemma_decimal_bytes_ascii;
pub use endpoint::parsed_socket_v4;
pub use endpoint::spec_decimal_bytes;
pub use endpoint::spec_digit_byte;
pub use lifecycle::CloseGuard;
pub use lifecycle::lemma_close_exactly_once;
pub use lifecycle::spec_release;
pub use limits::DATA_BUF_SIZE_LIMIT;
pub use limits::DEFAULT_DATA_BUF_SIZE;
pub use limits::RECV_BUF_MULTIPLIER;
pub use limits::RECV_BUF_SIZE_LIMIT;
pub use limits::effective_data_buf_size;
pub use limits::lemma_buffer_caps;
pub use limits::recv_buf_size;
pub use limits::spec_effective_data_buf_size;
pub use limits::spec_recv_buf_size;
pub use server::LISTEN_BACKLOG;
pub use server::RecvEvent;
pub use server::SCTP_AUTOCLOSE;
pub use server::SCTP_AUTOCLOSE_OFF;
pub use server::SOL_SCTP;
pub use server::ServePhase;
pub use server::ServerPlan;
pub use server::SetupAction;
pub use server::SetupError;
pub use server::SetupStage;
pub use server::dispatch_step;
pub use server::lemma_dispatch_bounded;
pub use server::lemma_fail_soft;
pub use server::receive_step;
pub use server::server_setup_plan;
pub use server::setup_failure;
pub use server::spec_dispatch_step;
pub use server::spec_receive_step;
pub use server::spec_setup_actions;
pub use server::spec_setup_failure;
