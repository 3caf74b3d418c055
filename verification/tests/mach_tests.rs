use lib::mach::{
    bad_typecheck, mach_msg_type_t, mig_type, MigScalar, MACH_MSGH_BITS, MACH_MSGH_BITS_COMPLEX,
    MACH_MSGH_BITS_REMOTE, MACH_MSG_TYPE_COPY_SEND, MACH_MSG_TYPE_MAKE_SEND_ONCE,
    MIG_TYPE_INT32, MIG_TYPE_PORT_COPY_SEND, MIG_TYPE_PORT_MOVE_SEND, MIG_TYPE_PORT_SEND_POLY,
};

fn wire(d: &mach_msg_type_t) -> Vec<u8> {
    let mut v = d.bits.to_le_bytes().to_vec();
    v.extend_from_slice(&d.number.to_le_bytes());
    v
}

#[test]
fn msgh_bits_packs_remote_and_local() {
    let b = MACH_MSGH_BITS(MACH_MSG_TYPE_COPY_SEND, MACH_MSG_TYPE_MAKE_SEND_ONCE);
    assert_eq!(b, 0x1513);
    assert_eq!(MACH_MSGH_BITS(0xff, 0xff), 0x1f1f);
    assert_eq!(MACH_MSGH_BITS(0, 0), 0);
}

#[test]
fn msgh_bits_remote_reads_back_disposition() {
    let b = MACH_MSGH_BITS(MACH_MSG_TYPE_COPY_SEND, MACH_MSG_TYPE_MAKE_SEND_ONCE);
    assert_eq!(MACH_MSGH_BITS_REMOTE(b), MACH_MSG_TYPE_COPY_SEND);
    assert_eq!(MACH_MSGH_BITS_REMOTE(b | MACH_MSGH_BITS_COMPLEX), MACH_MSG_TYPE_COPY_SEND);
    assert_eq!(b & MACH_MSGH_BITS_COMPLEX, 0);
}

#[test]
fn mig_type_layout() {
    let d = mig_type(2, 32, true);
    assert_eq!(d.bits, 0x2000_2002);
    assert_eq!(d.number, 1);
    let d = mig_type(0xab, 0x1234, false);
    assert_eq!(d.bits, 0x0012_34ab);
    assert_eq!((d.bits >> 24) & 0x1f, 0);
}

#[test]
fn int32_descriptor_wire_bytes() {
    assert_eq!(wire(&MIG_TYPE_INT32()), vec![0x02, 0x20, 0x00, 0x20, 0x01, 0x00, 0x00, 0x00]);
}

#[test]
fn port_descriptors() {
    assert_eq!(MIG_TYPE_PORT_COPY_SEND().bits, 0x2000_4013);
    assert_eq!(MIG_TYPE_PORT_MOVE_SEND().bits, 0x2000_4011);
    assert_eq!(MIG_TYPE_PORT_SEND_POLY().bits, 0x2000_40ff);
    assert_eq!(wire(&MIG_TYPE_PORT_COPY_SEND()), vec![0x13, 0x40, 0x00, 0x20, 0x01, 0x00, 0x00, 0x00]);
}

#[test]
fn bad_typecheck_compares_whole_descriptor() {
    let a = MIG_TYPE_INT32();
    assert!(!bad_typecheck(&a, &MIG_TYPE_INT32()));
    assert!(bad_typecheck(&a, &MIG_TYPE_PORT_COPY_SEND()));
    let b = mach_msg_type_t { bits: a.bits, number: 2 };
    assert!(bad_typecheck(&a, &b));
}

#[test]
fn c_int_scalar_descriptor() {
    let d = <i32 as MigScalar>::TYPE();
    assert_eq!(d.bits, MIG_TYPE_INT32().bits);
    assert_eq!(d.number, 1);
}

#[test]
fn header_and_descriptor_wire_bytes() {
    let h = lib::mach::mach_msg_header_t {
        msgh_bits: 0x8000_1513,
        msgh_size: 48,
        msgh_remote_port: 0x0102_0304,
        _msgh_remote_pad: 0,
        msgh_local_port: 7,
        _msgh_local_pad: 0,
        msgh_seqno: 0,
        msgh_id: -1,
    };
    let mut out = vec![0xaau8];
    h.push_wire(&mut out);
    assert_eq!(
        out,
        vec![
            0xaa, 0x13, 0x15, 0x00, 0x80, 0x30, 0, 0, 0, 0x04, 0x03, 0x02, 0x01, 0, 0, 0, 0, 7, 0, 0,
            0, 0, 0, 0, 0, 0, 0, 0, 0, 0xff, 0xff, 0xff, 0xff
        ]
    );
    let mut d = Vec::new();
    MIG_TYPE_PORT_COPY_SEND().push_wire(&mut d);
    assert_eq!(d, wire(&MIG_TYPE_PORT_COPY_SEND()));
    assert_eq!(d, vec![0x13, 0x40, 0x00, 0x20, 0x01, 0x00, 0x00, 0x00]);
    let mut w = Vec::new();
    lib::mach::push_le32(&mut w, 0x1234_5678);
    assert_eq!(w, vec![0x78, 0x56, 0x34, 0x12]);
}
