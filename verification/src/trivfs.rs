//! The `fsys_startup` handshake a trivfs translator performs with its
//! parent: the request it sends and how the reply is read.
//!
//! Wire format (request, 64 bytes):
//!   - mach_msg_header_t      (32, COMPLEX | COPY_SEND | MAKE_SEND_ONCE)
//!   - int slot               (16, INTEGER_32 descriptor + openflags + pad)
//!   - port slot              (16, COPY_SEND descriptor + control port name + pad)
//!
//! Wire format (reply on success, 64 bytes, COMPLEX): header, int slot
//! holding the return code, port slot holding the realnode name (MOVE_SEND).
//! On error the reply may be just the header and the return-code slot
//! (48 bytes, simple). The reply is validated as MIG's generated stubs do.
use vstd::prelude::*;

use crate::mach::{
    c_int, kern_return_t, le32, push_le32, mach_msg_header_t, mach_msg_id_t, mach_msg_type_t, mach_port_t,
    spec_MIG_TYPE_INT32, spec_MIG_TYPE_PORT_COPY_SEND, spec_msgh_bits, KERN_SUCCESS,
    MACH_MSGH_BITS, MACH_MSGH_BITS_COMPLEX, MACH_MSG_TYPE_COPY_SEND, MACH_MSG_TYPE_MAKE_SEND_ONCE,
    MIG_TYPE_INT32, MIG_TYPE_PORT_COPY_SEND, bad_typecheck, spec_MIG_TYPE_PORT_MOVE_SEND,
    MIG_TYPE_PORT_MOVE_SEND, MIG_REPLY_HEADER_SIZE, MACH_NOTIFY_SEND_ONCE, MIG_SERVER_DIED,
    MIG_REPLY_MISMATCH, MIG_TYPE_ERROR,
};

verus! {

/// `FSTYPE_MISC` from `<hurd/hurd_types.h>`: "not a real filesystem".
pub const FSTYPE_MISC: c_int = 0x16;

pub const FSYS_GOAWAY_FORCE: c_int = 0x04;

/// Open-flag bits as Hurd glibc uses them.
pub const O_READ: c_int = 1;

pub const O_WRITE: c_int = 2;

/// msgh_id of `fsys_startup`: subsystem `fsys` is 22000, routine offset 0.
pub const FSYS_STARTUP_ID: mach_msg_id_t = 22000;

/// msgh_id of its reply: the request's plus 100.
pub const FSYS_STARTUP_REPLY_ID: mach_msg_id_t = 22100;

/// Size of the request (and of the full reply) on the wire.
pub const FSYS_STARTUP_SIZE: u32 = 64;

/// An inline integer slot: descriptor, value, pad to eight bytes.
#[derive(Clone, Copy)]
pub struct IntSlot {
    pub descriptor: mach_msg_type_t,
    pub value: c_int,
    pub _pad: u32,
}

/// An inline port slot: descriptor, port name, pad to eight bytes.
#[derive(Clone, Copy)]
pub struct PortSlot {
    pub descriptor: mach_msg_type_t,
    pub port_name: mach_port_t,
    pub _pad: u32,
}

#[derive(Clone, Copy)]
pub struct FsysStartupRequest {
    pub head: mach_msg_header_t,
    pub openflags: IntSlot,
    pub ctlport: PortSlot,
}

#[derive(Clone, Copy)]
pub struct FsysStartupReply {
    pub head: mach_msg_header_t,
    pub retcode: IntSlot,
    pub realnode: PortSlot,
}

impl IntSlot {
    pub open spec fn wire(self) -> Seq<u8> {
        self.descriptor.wire() + le32(self.value as u32) + le32(self._pad)
    }

    /// Append the slot's wire bytes.
    pub fn push_wire(&self, out: &mut Vec<u8>)
        ensures
            final(out)@ == old(out)@ + self.wire(),
    {
        self.descriptor.push_wire(out);
        push_le32(out, self.value as u32);
        push_le32(out, self._pad);
        assert(out@ =~= old(out)@ + self.wire());
    }
}

impl PortSlot {
    pub open spec fn wire(self) -> Seq<u8> {
        self.descriptor.wire() + le32(self.port_name) + le32(self._pad)
    }

    /// Append the slot's wire bytes.
    pub fn push_wire(&self, out: &mut Vec<u8>)
        ensures
            final(out)@ == old(out)@ + self.wire(),
    {
        self.descriptor.push_wire(out);
        push_le32(out, self.port_name);
        push_le32(out, self._pad);
        assert(out@ =~= old(out)@ + self.wire());
    }
}

impl FsysStartupRequest {
    /// The request as it sits on the wire.
    pub open spec fn wire(self) -> Seq<u8> {
        self.head.wire() + self.openflags.wire() + self.ctlport.wire()
    }

    /// The request's bytes as `mach_msg` sends them (what the diagnostic
    /// dump shows).
    pub fn to_bytes(&self) -> (r: Vec<u8>)
        ensures
            r@ == self.wire(),
    {
        let mut r: Vec<u8> = Vec::new();
        self.head.push_wire(&mut r);
        self.openflags.push_wire(&mut r);
        self.ctlport.push_wire(&mut r);
        assert(r@ =~= self.wire());
        r
    }
}

/// Build the `fsys_startup` request sent on the bootstrap port.
pub fn fsys_startup_request(
    bootstrap: mach_port_t,
    openflags: c_int,
    control_port: mach_port_t,
    reply_port: mach_port_t,
) -> (r: FsysStartupRequest)
    ensures
        r.head.msgh_bits == MACH_MSGH_BITS_COMPLEX | spec_msgh_bits(
            MACH_MSG_TYPE_COPY_SEND,
            MACH_MSG_TYPE_MAKE_SEND_ONCE,
        ),
        r.head.msgh_size == FSYS_STARTUP_SIZE,
        r.head.msgh_remote_port == bootstrap,
        r.head._msgh_remote_pad == 0,
        r.head.msgh_local_port == reply_port,
        r.head._msgh_local_pad == 0,
        r.head.msgh_seqno == 0,
        r.head.msgh_id == FSYS_STARTUP_ID,
        r.openflags == (IntSlot { descriptor: spec_MIG_TYPE_INT32(), value: openflags, _pad: 0 }),
        r.ctlport == (PortSlot {
            descriptor: spec_MIG_TYPE_PORT_COPY_SEND(),
            port_name: control_port,
            _pad: 0,
        }),
        r.wire().len() == r.head.msgh_size,
{
    let r = FsysStartupRequest {
        head: mach_msg_header_t {
            msgh_bits: MACH_MSGH_BITS_COMPLEX | MACH_MSGH_BITS(
                MACH_MSG_TYPE_COPY_SEND,
                MACH_MSG_TYPE_MAKE_SEND_ONCE,
            ),
            msgh_size: FSYS_STARTUP_SIZE,
            msgh_remote_port: bootstrap,
            _msgh_remote_pad: 0,
            msgh_local_port: reply_port,
            _msgh_local_pad: 0,
            msgh_seqno: 0,
            msgh_id: FSYS_STARTUP_ID,
        },
        openflags: IntSlot { descriptor: MIG_TYPE_INT32(), value: openflags, _pad: 0 },
        ctlport: PortSlot {
            descriptor: MIG_TYPE_PORT_COPY_SEND(),
            port_name: control_port,
            _pad: 0,
        },
    };
    assert(r.wire().len() == 64);
    r
}

/// A reply of an acceptable shape: the full reply (64 bytes, COMPLEX), or
/// the short error reply (48 bytes, simple) carrying a nonzero code.
pub open spec fn fsys_startup_reply_shape_ok(reply: FsysStartupReply) -> bool {
    let simple = reply.head.msgh_bits & MACH_MSGH_BITS_COMPLEX == 0;
    ||| reply.head.msgh_size == FSYS_STARTUP_SIZE && !simple
    ||| reply.head.msgh_size == MIG_REPLY_HEADER_SIZE && simple && reply.retcode.value != 0
}

/// The outcome of `fsys_startup` for a transport code and the reply buffer,
/// with the checks in the order MIG's stubs make them.
pub open spec fn fsys_startup_result(transport: kern_return_t, reply: FsysStartupReply) -> Result<
    mach_port_t,
    kern_return_t,
> {
    if transport != KERN_SUCCESS {
        Err(transport)
    } else if reply.head.msgh_id != FSYS_STARTUP_REPLY_ID {
        Err(
            if reply.head.msgh_id == MACH_NOTIFY_SEND_ONCE {
                MIG_SERVER_DIED
            } else {
                MIG_REPLY_MISMATCH
            },
        )
    } else if !fsys_startup_reply_shape_ok(reply) {
        Err(MIG_TYPE_ERROR)
    } else if reply.retcode.descriptor != spec_MIG_TYPE_INT32() {
        Err(MIG_TYPE_ERROR)
    } else if reply.retcode.value != 0 {
        Err(reply.retcode.value)
    } else if reply.realnode.descriptor != spec_MIG_TYPE_PORT_MOVE_SEND() {
        Err(MIG_TYPE_ERROR)
    } else {
        Ok(reply.realnode.port_name)
    }
}

/// Read the outcome of `fsys_startup`, validating the reply as MIG does:
/// the transport error if `mach_msg` failed; then the reply id (a
/// destroyed reply right means the server died); then the reply's size and
/// COMPLEX bit; then the return-code descriptor and the parent's nonzero
/// return code; then the realnode descriptor; else the realnode port.
pub fn fsys_startup_outcome(transport: kern_return_t, reply: &FsysStartupReply) -> (r: Result<
    mach_port_t,
    kern_return_t,
>)
    ensures
        r == fsys_startup_result(transport, *reply),
        transport != KERN_SUCCESS ==> r == Err::<mach_port_t, kern_return_t>(transport),
        transport == KERN_SUCCESS && reply.head.msgh_id != FSYS_STARTUP_REPLY_ID ==> r == Err::<
            mach_port_t,
            kern_return_t,
        >(
            if reply.head.msgh_id == MACH_NOTIFY_SEND_ONCE {
                MIG_SERVER_DIED
            } else {
                MIG_REPLY_MISMATCH
            },
        ),
        transport == KERN_SUCCESS && reply.head.msgh_id == FSYS_STARTUP_REPLY_ID
            && !fsys_startup_reply_shape_ok(*reply) ==> r == Err::<mach_port_t, kern_return_t>(
            MIG_TYPE_ERROR,
        ),
        transport == KERN_SUCCESS && reply.head.msgh_id == FSYS_STARTUP_REPLY_ID
            && fsys_startup_reply_shape_ok(*reply) && reply.retcode.descriptor
            != spec_MIG_TYPE_INT32() ==> r == Err::<mach_port_t, kern_return_t>(MIG_TYPE_ERROR),
        transport == KERN_SUCCESS && reply.head.msgh_id == FSYS_STARTUP_REPLY_ID
            && fsys_startup_reply_shape_ok(*reply) && reply.retcode.descriptor
            == spec_MIG_TYPE_INT32() && reply.retcode.value != 0 ==> r == Err::<
            mach_port_t,
            kern_return_t,
        >(reply.retcode.value),
        transport == KERN_SUCCESS && reply.head.msgh_id == FSYS_STARTUP_REPLY_ID
            && fsys_startup_reply_shape_ok(*reply) && reply.retcode.descriptor
            == spec_MIG_TYPE_INT32() && reply.retcode.value == 0 && reply.realnode.descriptor
            != spec_MIG_TYPE_PORT_MOVE_SEND() ==> r == Err::<mach_port_t, kern_return_t>(
            MIG_TYPE_ERROR,
        ),
        transport == KERN_SUCCESS && reply.head.msgh_id == FSYS_STARTUP_REPLY_ID
            && fsys_startup_reply_shape_ok(*reply) && reply.retcode.descriptor
            == spec_MIG_TYPE_INT32() && reply.retcode.value == 0 && reply.realnode.descriptor
            == spec_MIG_TYPE_PORT_MOVE_SEND() ==> r == Ok::<mach_port_t, kern_return_t>(
            reply.realnode.port_name,
        ),
{
    if transport != KERN_SUCCESS {
        return Err(transport);
    }
    let id = reply.head.msgh_id;
    if id != FSYS_STARTUP_REPLY_ID {
        if id == MACH_NOTIFY_SEND_ONCE {
            return Err(MIG_SERVER_DIED);
        }
        return Err(MIG_REPLY_MISMATCH);
    }
    let size = reply.head.msgh_size;
    let simple = reply.head.msgh_bits & MACH_MSGH_BITS_COMPLEX == 0;
    let full_ok = size == FSYS_STARTUP_SIZE && !simple;
    let short_ok = size == MIG_REPLY_HEADER_SIZE && simple && reply.retcode.value != 0;
    if !full_ok && !short_ok {
        return Err(MIG_TYPE_ERROR);
    }
    if bad_typecheck(&reply.retcode.descriptor, &MIG_TYPE_INT32()) {
        return Err(MIG_TYPE_ERROR);
    }
    let retcode = reply.retcode.value;
    if retcode != 0 {
        return Err(retcode);
    }
    if bad_typecheck(&reply.realnode.descriptor, &MIG_TYPE_PORT_MOVE_SEND()) {
        return Err(MIG_TYPE_ERROR);
    }
    Ok(reply.realnode.port_name)
}

/// The parent's error code always reaches the caller: after a successful
/// `mach_msg`, a reply with the right id and an integer return-code
/// descriptor that carries a nonzero code `c`, as the short error reply (48
/// bytes, no COMPLEX bit) or as the full reply (64 bytes, COMPLEX), gives
/// `Err(c)`, whatever the sign of `c` and whatever the realnode slot holds.
pub proof fn lemma_fsys_startup_error_code_passes(reply: FsysStartupReply)
    requires
        reply.head.msgh_id == 22100,
        reply.retcode.descriptor == spec_MIG_TYPE_INT32(),
        reply.retcode.value != 0,
        (reply.head.msgh_size == 48 && reply.head.msgh_bits & 0x8000_0000 == 0) || (
        reply.head.msgh_size == 64 && reply.head.msgh_bits & 0x8000_0000 != 0),
    ensures
        fsys_startup_result(0, reply) == Err::<mach_port_t, kern_return_t>(reply.retcode.value),
{
}

/// A successful handshake yields exactly the port the parent put in a
/// well-formed full reply: right id, 64 bytes, COMPLEX, an integer return
/// code of zero and a moved send right; and every such reply succeeds.
pub proof fn lemma_fsys_startup_success(transport: kern_return_t, reply: FsysStartupReply)
    ensures
        fsys_startup_result(transport, reply) is Ok <==> (transport == 0 && reply.head.msgh_id
            == 22100 && reply.head.msgh_size == 64 && reply.head.msgh_bits & 0x8000_0000 != 0
            && reply.retcode.descriptor == spec_MIG_TYPE_INT32() && reply.retcode.value == 0
            && reply.realnode.descriptor == spec_MIG_TYPE_PORT_MOVE_SEND()),
        fsys_startup_result(transport, reply) is Ok ==> fsys_startup_result(transport, reply)
            == Ok::<mach_port_t, kern_return_t>(reply.realnode.port_name),
{
}

/// A reply whose id is not `fsys_startup`'s is never accepted: a destroyed
/// reply right (id 70) means the server died, any other id is a mismatch.
pub proof fn lemma_fsys_startup_wrong_id(reply: FsysStartupReply)
    requires
        reply.head.msgh_id != 22100,
    ensures
        fsys_startup_result(0, reply) == Err::<mach_port_t, kern_return_t>(
            if reply.head.msgh_id == 70 {
                -305i32
            } else {
                -304i32
            },
        ),
{
}

} // verus!
