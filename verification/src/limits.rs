//! Size limits and their capping rules.

use vstd::prelude::*;

verus! {

/// Hard ceiling on the size of one message buffer: 8 MiB.
pub const DATA_BUF_SIZE_LIMIT: usize = 8 * 1024 * 1024;

/// Default size of one message buffer when the caller gives none.
pub const DEFAULT_DATA_BUF_SIZE: usize = 4096;

/// Ceiling on the kernel receive-buffer request: 64 MiB.
pub const RECV_BUF_SIZE_LIMIT: usize = 64 * 1024 * 1024;

/// The receive buffer is asked to hold this many whole messages.
pub const RECV_BUF_MULTIPLIER: usize = 256;

/// What the effective message-buffer size is, as a function of the request:
/// the request itself, or the default when none is given, capped at the
/// hard ceiling.
pub open spec fn spec_effective_data_buf_size(requested: Option<usize>) -> usize {
    let r = match requested {
        Some(v) => v,
        None => DEFAULT_DATA_BUF_SIZE as usize,
    };
    if r > DATA_BUF_SIZE_LIMIT {
        DATA_BUF_SIZE_LIMIT as usize
    } else {
        r
    }
}

/// What is asked of the kernel for the receive queue, as a function of the
/// message-buffer size: room for a fixed number of whole messages, capped at
/// the receive-buffer ceiling.
pub open spec fn spec_recv_buf_size(data_buf_size: usize) -> int {
    let r = RECV_BUF_MULTIPLIER * data_buf_size;
    if r > RECV_BUF_SIZE_LIMIT {
        RECV_BUF_SIZE_LIMIT as int
    } else {
        r
    }
}

/// The effective size of the reusable message buffer: the caller's request,
/// or the default when none is given, silently capped at the hard ceiling.
pub fn effective_data_buf_size(requested: Option<usize>) -> (n: usize)
    ensures
        n == spec_effective_data_buf_size(requested),
        n <= DATA_BUF_SIZE_LIMIT,
{
    let r = match requested {
        Some(v) => v,
        None => DEFAULT_DATA_BUF_SIZE,
    };
    if r > DATA_BUF_SIZE_LIMIT {
        DATA_BUF_SIZE_LIMIT
    } else {
        r
    }
}

/// The receive-buffer request handed to the kernel for a message buffer of
/// `data_buf_size` bytes, silently capped at the receive-buffer ceiling.
pub fn recv_buf_size(data_buf_size: usize) -> (n: usize)
    requires
        data_buf_size <= DATA_BUF_SIZE_LIMIT,
    ensures
        n == spec_recv_buf_size(data_buf_size),
        n <= RECV_BUF_SIZE_LIMIT,
{
    proof {
        assert(RECV_BUF_MULTIPLIER * data_buf_size <= 256 * 0x800000) by (nonlinear_arith)
            requires data_buf_size <= 0x800000;
    }
    let r: usize = RECV_BUF_MULTIPLIER * data_buf_size;
    if r > RECV_BUF_SIZE_LIMIT {
        RECV_BUF_SIZE_LIMIT
    } else {
        r
    }
}

/// Both caps hold of every request: the message buffer never exceeds its
/// hard ceiling, and the kernel receive-buffer request never exceeds its own.
pub proof fn lemma_buffer_caps(requested: Option<usize>)
    ensures
        spec_effective_data_buf_size(requested) <= DATA_BUF_SIZE_LIMIT,
        spec_recv_buf_size(spec_effective_data_buf_size(requested)) <= RECV_BUF_SIZE_LIMIT,
{
}

} // verus!
