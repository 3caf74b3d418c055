//! Mach message primitives: scalar aliases, constants, the message header,
//! and the old-format (GNU Mach, x86_64 LP64) inline type descriptor.
use vstd::prelude::*;

verus! {

pub type c_int = i32;
pub type c_uint = u32;

/// Kernel return code (success = 0, error otherwise).
pub type kern_return_t = c_int;

/// Mach port name, local to the owning port name space.
pub type mach_port_t = c_uint;

pub type mach_msg_bits_t = c_uint;
pub type mach_msg_size_t = c_uint;
pub type mach_msg_id_t = c_int;
pub type mach_msg_type_name_t = c_uint;
pub type mach_msg_type_number_t = c_uint;
pub type mach_msg_timeout_t = c_uint;
pub type mach_msg_option_t = c_int;
pub type mach_msg_return_t = kern_return_t;

// ---- constants ----
pub const MACH_PORT_NULL: mach_port_t = 0;
pub const MACH_PORT_DEAD: mach_port_t = 0xffff_ffff;

pub const KERN_SUCCESS: kern_return_t = 0;
pub const KERN_FAILURE: kern_return_t = 5;

// mach_msg() option flags
pub const MACH_MSG_OPTION_NONE: mach_msg_option_t = 0;
pub const MACH_SEND_MSG: mach_msg_option_t = 0x00000001;
pub const MACH_RCV_MSG: mach_msg_option_t = 0x00000002;
pub const MACH_SEND_TIMEOUT: mach_msg_option_t = 0x00000010;
pub const MACH_RCV_TIMEOUT: mach_msg_option_t = 0x00000100;

// mach_msg return codes commonly used for diagnostics
pub const MACH_SEND_INVALID_DEST: mach_msg_return_t = 0x10000003;
pub const MACH_RCV_TIMED_OUT: mach_msg_return_t = 0x10004003;
pub const MACH_RCV_TOO_LARGE: mach_msg_return_t = 0x10004004;

// Element-type tags for inline scalar arguments (msgt_name field).
pub const MACH_MSG_TYPE_UNSTRUCTURED: mach_msg_type_name_t = 0;
pub const MACH_MSG_TYPE_INTEGER_16: mach_msg_type_name_t = 1;
pub const MACH_MSG_TYPE_INTEGER_32: mach_msg_type_name_t = 2;
pub const MACH_MSG_TYPE_CHAR: mach_msg_type_name_t = 8;
pub const MACH_MSG_TYPE_BYTE: mach_msg_type_name_t = 9;
pub const MACH_MSG_TYPE_REAL: mach_msg_type_name_t = 10;
pub const MACH_MSG_TYPE_INTEGER_64: mach_msg_type_name_t = 11;
pub const MACH_MSG_TYPE_STRING: mach_msg_type_name_t = 12;

// Port-right transfer dispositions.
pub const MACH_MSG_TYPE_MOVE_RECEIVE: mach_msg_type_name_t = 16;
pub const MACH_MSG_TYPE_MOVE_SEND: mach_msg_type_name_t = 17;
pub const MACH_MSG_TYPE_MOVE_SEND_ONCE: mach_msg_type_name_t = 18;
pub const MACH_MSG_TYPE_COPY_SEND: mach_msg_type_name_t = 19;
pub const MACH_MSG_TYPE_MAKE_SEND: mach_msg_type_name_t = 20;
pub const MACH_MSG_TYPE_MAKE_SEND_ONCE: mach_msg_type_name_t = 21;

/// `((mach_msg_type_name_t)~0)`: msgt_name is supplied at run time.
pub const MACH_MSG_TYPE_POLYMORPHIC: mach_msg_type_name_t = 0xffff_ffff;

/// `msgh_bits` flag: the message carries port-right references.
pub const MACH_MSGH_BITS_COMPLEX: mach_msg_bits_t = 0x80000000;

/// Size in bits the kernel expects for an inline port descriptor on
/// x86_64 (the kernel's `mach_port_t` is pointer sized).
pub const PORT_T_SIZE_IN_BITS: u32 = 64;

/// MIG-defined error codes.
pub const MIG_TYPE_ERROR: kern_return_t = -303;
pub const MIG_BAD_ID: kern_return_t = -302;
pub const MIG_REPLY_MISMATCH: kern_return_t = -304;
pub const MIG_SERVER_DIED: kern_return_t = -305;

/// Size of the short error reply (`mig_reply_header_t`) on the wire.
pub const MIG_REPLY_HEADER_SIZE: mach_msg_size_t = 48;

/// Reply msgh_id meaning "the send-once reply right was destroyed".
pub const MACH_NOTIFY_SEND_ONCE: mach_msg_id_t = 70;

/// `mach_port_right_t` values from `<mach/port.h>`.
pub type mach_port_right_t = c_int;
pub const MACH_PORT_RIGHT_SEND: mach_port_right_t = 0;
pub const MACH_PORT_RIGHT_RECEIVE: mach_port_right_t = 1;
pub const MACH_PORT_RIGHT_SEND_ONCE: mach_port_right_t = 2;

/// Special-port indices for `task_get_special_port`.
pub const TASK_KERNEL_PORT: c_int = 1;
pub const TASK_HOST_PORT: c_int = 2;
pub const TASK_NAME_PORT: c_int = 3;
pub const TASK_BOOTSTRAP_PORT: c_int = 4;

// ---- msgh_bits ----

pub open spec fn spec_msgh_bits(remote: u32, local: u32) -> u32 {
    (remote & 0x1f) | ((local & 0x1f) << 8u32)
}

/// Encode msgh_bits: low 5 bits = remote port disposition, bits 8-12 = local.
pub fn MACH_MSGH_BITS(remote: mach_msg_type_name_t, local: mach_msg_type_name_t) -> (r:
    mach_msg_bits_t)
    ensures
        r == spec_msgh_bits(remote, local),
        r & 0x1f == remote & 0x1f,
        (r >> 8u32) & 0x1f == local & 0x1f,
        r & !0x1f1fu32 == 0,
{
    let r = (remote & 0x1f) | ((local & 0x1f) << 8u32);
    assert(r & 0x1f == remote & 0x1f && (r >> 8u32) & 0x1f == local & 0x1f && r & !0x1f1fu32 == 0)
        by (bit_vector)
        requires
            r == (remote & 0x1f) | ((local & 0x1f) << 8u32),
    ;
    r
}

/// Extract the remote-port disposition bits from msgh_bits.
pub fn MACH_MSGH_BITS_REMOTE(bits: mach_msg_bits_t) -> (r: mach_msg_bits_t)
    ensures
        r == bits & 0x1f,
        r < 32,
{
    assert(bits & 0x1f < 32) by (bit_vector);
    bits & 0x1f
}

/// Reading the remote disposition back out of an encoded msgh_bits gives
/// the disposition that went in (reduced to its five bits), whether or not
/// the COMPLEX flag was added on top.
pub proof fn lemma_msgh_bits_remote_roundtrip(remote: u32, local: u32)
    ensures
        spec_msgh_bits(remote, local) & 0x1f == remote & 0x1f,
        (spec_msgh_bits(remote, local) | MACH_MSGH_BITS_COMPLEX) & 0x1f == remote & 0x1f,
        (spec_msgh_bits(remote, local) >> 8u32) & 0x1f == local & 0x1f,
        spec_msgh_bits(remote, local) & MACH_MSGH_BITS_COMPLEX == 0,
{
    assert((((remote & 0x1f) | ((local & 0x1f) << 8u32)) & 0x1f == remote & 0x1f) && ((((remote
        & 0x1f) | ((local & 0x1f) << 8u32)) | 0x80000000u32) & 0x1f == remote & 0x1f) && ((((
    remote & 0x1f) | ((local & 0x1f) << 8u32)) >> 8u32) & 0x1f == local & 0x1f) && (((remote
        & 0x1f) | ((local & 0x1f) << 8u32)) & 0x80000000u32 == 0)) by (bit_vector);
}

// ---- message header ----

/// Mach message header: the 32-byte block every IPC message starts with on
/// x86_64-gnu. Each port name is followed by four bytes of pad, matching the
/// kernel's pointer-sized port unions.
#[derive(Clone, Copy)]
pub struct mach_msg_header_t {
    pub msgh_bits: mach_msg_bits_t,
    pub msgh_size: mach_msg_size_t,
    pub msgh_remote_port: mach_port_t,
    pub _msgh_remote_pad: u32,
    pub msgh_local_port: mach_port_t,
    pub _msgh_local_pad: u32,
    pub msgh_seqno: mach_msg_size_t,
    pub msgh_id: mach_msg_id_t,
}

// ---- wire bytes ----

/// Little-endian bytes of a 32-bit word.
pub open spec fn le32(x: u32) -> Seq<u8> {
    seq![(x & 0xff) as u8, ((x >> 8u32) & 0xff) as u8, ((x >> 16u32) & 0xff) as u8, (x >> 24u32) as u8]
}

/// Append the little-endian bytes of `x`.
pub fn push_le32(out: &mut Vec<u8>, x: u32)
    ensures
        final(out)@ == old(out)@ + le32(x),
{
    out.push((x & 0xff) as u8);
    out.push(((x >> 8u32) & 0xff) as u8);
    out.push(((x >> 16u32) & 0xff) as u8);
    out.push((x >> 24u32) as u8);
    assert(out@ =~= old(out)@ + le32(x));
}

impl mach_msg_header_t {
    /// The header as it sits on the wire (little-endian, 32 bytes).
    pub open spec fn wire(self) -> Seq<u8> {
        le32(self.msgh_bits) + le32(self.msgh_size) + le32(self.msgh_remote_port) + le32(
            self._msgh_remote_pad,
        ) + le32(self.msgh_local_port) + le32(self._msgh_local_pad) + le32(self.msgh_seqno)
            + le32(self.msgh_id as u32)
    }

    /// Append the header's wire bytes.
    pub fn push_wire(&self, out: &mut Vec<u8>)
        ensures
            final(out)@ == old(out)@ + self.wire(),
    {
        push_le32(out, self.msgh_bits);
        push_le32(out, self.msgh_size);
        push_le32(out, self.msgh_remote_port);
        push_le32(out, self._msgh_remote_pad);
        push_le32(out, self.msgh_local_port);
        push_le32(out, self._msgh_local_pad);
        push_le32(out, self.msgh_seqno);
        push_le32(out, self.msgh_id as u32);
        assert(out@ =~= old(out)@ + self.wire());
    }
}

// ---- mach_msg_type_t ----

/// Old-format MIG inline-argument descriptor. `bits` packs, LSB first:
/// bits 0..7 msgt_name, 8..23 msgt_size (in bits), 24..28 msgt_unused
/// (must be 0), 29 msgt_inline, 30 msgt_longform, 31 msgt_deallocate.
/// `number` is msgt_number, the element count.
#[derive(Clone, Copy)]
pub struct mach_msg_type_t {
    pub bits: u32,
    pub number: u32,
}

impl mach_msg_type_t {
    pub open spec fn msgt_name(self) -> u32 {
        self.bits & 0xff
    }

    pub open spec fn msgt_size(self) -> u32 {
        (self.bits >> 8u32) & 0xffff
    }

    pub open spec fn msgt_unused(self) -> u32 {
        (self.bits >> 24u32) & 0x1f
    }

    pub open spec fn msgt_inline(self) -> bool {
        (self.bits >> 29u32) & 1 == 1
    }

    pub open spec fn msgt_longform(self) -> bool {
        (self.bits >> 30u32) & 1 == 1
    }

    pub open spec fn msgt_deallocate(self) -> bool {
        (self.bits >> 31u32) & 1 == 1
    }

    /// The descriptor on the wire: `bits` then `number`, little-endian.
    pub open spec fn wire(self) -> Seq<u8> {
        le32(self.bits) + le32(self.number)
    }

    /// Append the descriptor's wire bytes.
    pub fn push_wire(&self, out: &mut Vec<u8>)
        ensures
            final(out)@ == old(out)@ + self.wire(),
    {
        push_le32(out, self.bits);
        push_le32(out, self.number);
        assert(out@ =~= old(out)@ + self.wire());
    }

    /// The descriptor read as one little-endian 64-bit word.
    pub open spec fn wire_word(self) -> int {
        self.bits as int + self.number as int * 0x1_0000_0000
    }
}

pub open spec fn spec_mig_type_bits(name: u8, size_bits: u16, inline: bool) -> int {
    name as u32 + size_bits as u32 * 0x100 + (if inline { 0x2000_0000int } else { 0int })
}

/// Build a descriptor for one element of `size_bits` bits named `name`.
pub fn mig_type(name: u8, size_bits: u16, inline: bool) -> (r: mach_msg_type_t)
    ensures
        r.bits == spec_mig_type_bits(name, size_bits, inline),
        r.number == 1,
        r.msgt_name() == name,
        r.msgt_size() == size_bits,
        r.msgt_unused() == 0,
        r.msgt_inline() == inline,
        !r.msgt_longform(),
        !r.msgt_deallocate(),
{
    let inl: u32 = if inline { 1 } else { 0 };
    let n = name as u32;
    let s = size_bits as u32;
    let bits = n | (s << 8u32) | (inl << 29u32);
    assert(bits == n + s * 0x100 + inl * 0x2000_0000 && bits & 0xff == n && (bits >> 8u32) & 0xffff
        == s && (bits >> 24u32) & 0x1f == 0 && (bits >> 29u32) & 1 == inl && (bits >> 30u32) & 1
        == 0 && (bits >> 31u32) & 1 == 0) by (bit_vector)
        requires
            n < 0x100,
            s < 0x10000,
            inl < 2,
            bits == n | (s << 8u32) | (inl << 29u32),
    ;
    mach_msg_type_t { bits, number: 1 }
}

pub open spec fn spec_MIG_TYPE_INT32() -> mach_msg_type_t {
    mach_msg_type_t { bits: 0x2000_2002, number: 1 }
}

pub open spec fn spec_MIG_TYPE_PORT_COPY_SEND() -> mach_msg_type_t {
    mach_msg_type_t { bits: 0x2000_4013, number: 1 }
}

pub open spec fn spec_MIG_TYPE_PORT_MOVE_SEND() -> mach_msg_type_t {
    mach_msg_type_t { bits: 0x2000_4011, number: 1 }
}

pub open spec fn spec_MIG_TYPE_PORT_SEND_POLY() -> mach_msg_type_t {
    mach_msg_type_t { bits: 0x2000_40ff, number: 1 }
}

/// Canonical descriptor for a single inline 32-bit signed integer.
#[verifier::when_used_as_spec(spec_MIG_TYPE_INT32)]
pub fn MIG_TYPE_INT32() -> (r: mach_msg_type_t)
    ensures
        r == spec_MIG_TYPE_INT32(),
        r.bits == spec_mig_type_bits(MACH_MSG_TYPE_INTEGER_32 as u8, 32 as u16, true),
        r.msgt_name() == MACH_MSG_TYPE_INTEGER_32,
        r.msgt_size() == 32,
        r.msgt_unused() == 0,
        r.msgt_inline(),
{
    mig_type(MACH_MSG_TYPE_INTEGER_32 as u8, 32, true)
}

/// Inline send right with COPY_SEND disposition: the receiver gets a copy
/// of our send right while we keep ours.
#[verifier::when_used_as_spec(spec_MIG_TYPE_PORT_COPY_SEND)]
pub fn MIG_TYPE_PORT_COPY_SEND() -> (r: mach_msg_type_t)
    ensures
        r == spec_MIG_TYPE_PORT_COPY_SEND(),
        r.bits == spec_mig_type_bits(MACH_MSG_TYPE_COPY_SEND as u8, PORT_T_SIZE_IN_BITS as u16, true),
        r.msgt_name() == MACH_MSG_TYPE_COPY_SEND,
        r.msgt_size() == PORT_T_SIZE_IN_BITS,
        r.msgt_unused() == 0,
        r.msgt_inline(),
{
    mig_type(MACH_MSG_TYPE_COPY_SEND as u8, PORT_T_SIZE_IN_BITS as u16, true)
}

/// Inline send right with MOVE_SEND disposition (ownership transfer).
#[verifier::when_used_as_spec(spec_MIG_TYPE_PORT_MOVE_SEND)]
pub fn MIG_TYPE_PORT_MOVE_SEND() -> (r: mach_msg_type_t)
    ensures
        r == spec_MIG_TYPE_PORT_MOVE_SEND(),
        r.bits == spec_mig_type_bits(MACH_MSG_TYPE_MOVE_SEND as u8, PORT_T_SIZE_IN_BITS as u16, true),
        r.msgt_name() == MACH_MSG_TYPE_MOVE_SEND,
        r.msgt_size() == PORT_T_SIZE_IN_BITS,
        r.msgt_unused() == 0,
        r.msgt_inline(),
{
    mig_type(MACH_MSG_TYPE_MOVE_SEND as u8, PORT_T_SIZE_IN_BITS as u16, true)
}

/// Inline port whose disposition is supplied at run time: msgt_name holds
/// the low byte of the polymorphic sentinel until the caller overwrites it.
#[verifier::when_used_as_spec(spec_MIG_TYPE_PORT_SEND_POLY)]
pub fn MIG_TYPE_PORT_SEND_POLY() -> (r: mach_msg_type_t)
    ensures
        r == spec_MIG_TYPE_PORT_SEND_POLY(),
        r.bits == spec_mig_type_bits(
            (MACH_MSG_TYPE_POLYMORPHIC & 0xff) as u8,
            PORT_T_SIZE_IN_BITS as u16,
            true,
        ),
        r.msgt_name() == MACH_MSG_TYPE_POLYMORPHIC & 0xff,
        r.msgt_size() == PORT_T_SIZE_IN_BITS,
        r.msgt_unused() == 0,
        r.msgt_inline(),
{
    let low = MACH_MSG_TYPE_POLYMORPHIC & 0xff;
    assert(0xffff_ffffu32 & 0xff == 0xff) by (bit_vector);
    mig_type(low as u8, PORT_T_SIZE_IN_BITS as u16, true)
}

/// Wire pattern of `MIG_TYPE_INT32` on x86_64 GNU Mach: name 0x02, size
/// 32 (0x20 0x00), msgt_unused zero with msgt_inline set (0x20), number 1.
pub proof fn lemma_int32_descriptor_wire()
    ensures
        spec_MIG_TYPE_INT32().wire() == seq![0x02u8, 0x20, 0x00, 0x20, 0x01, 0x00, 0x00, 0x00],
        spec_MIG_TYPE_INT32().msgt_name() == MACH_MSG_TYPE_INTEGER_32,
        spec_MIG_TYPE_INT32().msgt_size() == 32,
        spec_MIG_TYPE_INT32().msgt_unused() == 0,
        spec_MIG_TYPE_INT32().msgt_inline(),
{
    let b = spec_MIG_TYPE_INT32().bits;
    assert(b == 0x2000_2002u32);
    assert((b & 0xff) as u8 == 0x02u8 && ((b >> 8u32) & 0xff) as u8 == 0x20u8 && ((b >> 16u32)
        & 0xff) as u8 == 0u8 && (b >> 24u32) as u8 == 0x20u8 && (b >> 24u32) & 0x1f == 0 && (b
        >> 29u32) & 1 == 1 && b & 0xff == 2 && (b >> 8u32) & 0xffff == 32) by (bit_vector)
        requires
            b == 0x2000_2002u32,
    ;
    let n = spec_MIG_TYPE_INT32().number;
    assert(n == 1u32);
    assert((n & 0xff) as u8 == 1u8 && ((n >> 8u32) & 0xff) as u8 == 0u8 && ((n >> 16u32) & 0xff) as u8
        == 0u8 && (n >> 24u32) as u8 == 0u8) by (bit_vector)
        requires
            n == 1u32,
    ;
    assert(spec_MIG_TYPE_INT32().wire() =~= seq![0x02u8, 0x20, 0x00, 0x20, 0x01, 0x00, 0x00, 0x00]);
}

/// Compare two descriptors as raw 8-byte wire words: `true` when they differ.
pub fn bad_typecheck(a: &mach_msg_type_t, b: &mach_msg_type_t) -> (r: bool)
    ensures
        r == (a.wire_word() != b.wire_word()),
        r == (a.bits != b.bits || a.number != b.number),
{
    a.bits != b.bits || a.number != b.number
}

/// Scalar types that can be marshalled as a MIG inline argument, with the
/// descriptor that announces them.
pub trait MigScalar: Copy {
    /// The descriptor that precedes a value of this type in a message.
    fn TYPE() -> (r: mach_msg_type_t)
        ensures
            r.number == 1,
            r.msgt_unused() == 0,
            r.msgt_inline(),
    ;
}

impl MigScalar for c_int {
    fn TYPE() -> (r: mach_msg_type_t)
        ensures
            r == spec_MIG_TYPE_INT32(),
    {
        let r = MIG_TYPE_INT32();
        let b = r.bits;
        assert((b >> 24u32) & 0x1f == 0 && (b >> 29u32) & 1 == 1) by (bit_vector)
            requires
                b == 0x2000_2002u32,
        ;
        r
    }
}

/// Tagged inline argument: the descriptor followed by the value, the slot
/// padded to a multiple of eight bytes.
#[derive(Copy)]
pub struct Tagged<T: Copy + MigScalar> {
    pub descriptor: mach_msg_type_t,
    pub value: T,
}

impl<T: Copy + MigScalar> Clone for Tagged<T> {
    fn clone(&self) -> (r: Self)
        ensures
            r == *self,
    {
        *self
    }
}

/// Short error-reply shape: header, RetCode descriptor, RetCode, pad.
#[derive(Clone, Copy)]
pub struct mig_reply_header_t {
    pub head: mach_msg_header_t,
    pub retcode_type: mach_msg_type_t,
    pub retcode: kern_return_t,
    pub retcode_pad: u32,
}

impl mig_reply_header_t {
    /// The short error reply on the wire.
    pub open spec fn wire(self) -> Seq<u8> {
        self.head.wire() + self.retcode_type.wire() + le32(self.retcode as u32) + le32(
            self.retcode_pad,
        )
    }
}

/// Wire sizes on x86_64 GNU Mach: a header is 32 bytes, a descriptor 8, and
/// the short error reply 48.
pub proof fn lemma_wire_sizes(h: mach_msg_header_t, d: mach_msg_type_t, r: mig_reply_header_t)
    ensures
        h.wire().len() == 32,
        d.wire().len() == 8,
        r.wire().len() == 48,
{
}

} // verus!
