//! Header logic of simple (scalar-only) MIG routines: the client's request
//! header and the server's reply header.
use vstd::prelude::*;

use crate::mach::{
    mach_msg_header_t, mach_msg_id_t, mach_msg_size_t, mach_port_t,
    spec_msgh_bits, MACH_MSGH_BITS, MACH_MSGH_BITS_REMOTE, MACH_MSG_TYPE_COPY_SEND,
    MACH_MSG_TYPE_MAKE_SEND_ONCE,
};

verus! {

/// MIG reply convention: the reply's msgh_id is the request's plus 100.
pub const MIG_REPLY_ID_OFFSET: mach_msg_id_t = 100;

/// Request header of a simple routine: COPY_SEND to the server, a
/// MAKE_SEND_ONCE reply right, no COMPLEX bit.
pub fn routine_request_head(
    server: mach_port_t,
    reply_port: mach_port_t,
    size: mach_msg_size_t,
    msgh_id: mach_msg_id_t,
) -> (h: mach_msg_header_t)
    ensures
        h.msgh_bits == spec_msgh_bits(MACH_MSG_TYPE_COPY_SEND, MACH_MSG_TYPE_MAKE_SEND_ONCE),
        h.msgh_size == size,
        h.msgh_remote_port == server,
        h._msgh_remote_pad == 0,
        h.msgh_local_port == reply_port,
        h._msgh_local_pad == 0,
        h.msgh_seqno == 0,
        h.msgh_id == msgh_id,
{
    mach_msg_header_t {
        msgh_bits: MACH_MSGH_BITS(MACH_MSG_TYPE_COPY_SEND, MACH_MSG_TYPE_MAKE_SEND_ONCE),
        msgh_size: size,
        msgh_remote_port: server,
        _msgh_remote_pad: 0,
        msgh_local_port: reply_port,
        _msgh_local_pad: 0,
        msgh_seqno: 0,
        msgh_id,
    }
}

/// Reply header a server writes for a received request: the request's
/// remote disposition, no local port, addressed to the request's
/// msgh_remote_port, msgh_id + 100.
pub fn routine_reply_head(req: &mach_msg_header_t, size: mach_msg_size_t) -> (h: mach_msg_header_t)
    requires
        req.msgh_id <= i32::MAX - MIG_REPLY_ID_OFFSET,
    ensures
        h.msgh_bits == spec_msgh_bits(req.msgh_bits & 0x1f, 0),
        h.msgh_size == size,
        h.msgh_remote_port == req.msgh_remote_port,
        h._msgh_remote_pad == 0,
        h.msgh_local_port == 0,
        h._msgh_local_pad == 0,
        h.msgh_seqno == 0,
        h.msgh_id == req.msgh_id + MIG_REPLY_ID_OFFSET,
{
    mach_msg_header_t {
        msgh_bits: MACH_MSGH_BITS(MACH_MSGH_BITS_REMOTE(req.msgh_bits), 0),
        msgh_size: size,
        msgh_remote_port: req.msgh_remote_port,
        _msgh_remote_pad: 0,
        msgh_local_port: 0,
        _msgh_local_pad: 0,
        msgh_seqno: 0,
        msgh_id: req.msgh_id + MIG_REPLY_ID_OFFSET,
    }
}

/// A reply built for a request answers it: same remote disposition, the
/// MIG reply id, and no local port.
pub proof fn lemma_reply_answers_request(req: mach_msg_header_t, rep: mach_msg_header_t)
    requires
        req.msgh_id <= i32::MAX - MIG_REPLY_ID_OFFSET,
        rep.msgh_bits == spec_msgh_bits(req.msgh_bits & 0x1f, 0),
        rep.msgh_id == req.msgh_id + MIG_REPLY_ID_OFFSET,
    ensures
        rep.msgh_bits & 0x1f == req.msgh_bits & 0x1f,
        (rep.msgh_bits >> 8u32) & 0x1f == 0,
        rep.msgh_id - MIG_REPLY_ID_OFFSET == req.msgh_id,
{
    let b = req.msgh_bits;
    assert((((b & 0x1f) & 0x1f) | ((0u32 & 0x1f) << 8u32)) & 0x1f == b & 0x1f && (((((b & 0x1f)
        & 0x1f) | ((0u32 & 0x1f) << 8u32)) >> 8u32) & 0x1f) == 0) by (bit_vector);
}

} // verus!
