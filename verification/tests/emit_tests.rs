use lib::emit::{
    complex_check, emit, fn_param, is_port, out_write, rep_check, rep_field, req_field, req_write,
    rust_out_ty,
};
use lib::parse::{Arg, ParsedRoutine, TypeTag};

fn arg(name: &str, tag: TypeTag) -> Arg {
    Arg { name: name.to_string(), tag }
}

const FSYS_STARTUP_STUB: &str = r#"
        #[allow(non_snake_case, non_camel_case_types, dead_code, unused_unsafe, unused_mut, unused_variables)]
        pub unsafe fn fsys_startup(target: ::mach_sys::mach_port_t, openflags: ::mach_sys::c_int, control_port: ::mach_sys::mach_port_t, control_portPoly: ::mach_sys::c_int, realnode: *mut ::mach_sys::mach_port_t, ) -> ::mach_sys::kern_return_t {
            use ::mach_sys::*;

            #[repr(C)]
            struct Request {
                head: mach_msg_header_t,
                openflags_type: mach_msg_type_t, openflags: ::mach_sys::c_int, openflags_pad: u32,
control_port_type: mach_msg_type_t, control_port: mach_port_name_inlined_t,

            }

            #[repr(C)]
            struct Reply {
                head:         mach_msg_header_t,
                retcode_type: mach_msg_type_t,
                retcode:      kern_return_t,
                retcode_pad:  u32,
                realnode_type: mach_msg_type_t, realnode: mach_port_name_inlined_t,

            }

            #[repr(C)]
            union Mess {
                in_: ::core::mem::ManuallyDrop<Request>,
                out: ::core::mem::ManuallyDrop<Reply>,
            }

            const REQ_SIZE:   mach_msg_size_t = ::core::mem::size_of::<Request>() as mach_msg_size_t;
            const REPLY_SIZE: mach_msg_size_t = ::core::mem::size_of::<Reply>()   as mach_msg_size_t;
            const REQUEST_ID: mach_msg_id_t   = 22000;
            const REPLY_ID:   mach_msg_id_t   = 22100;

            // Zero the whole storage so any inter-field padding stays
            // zero on the wire (Rust struct-literal init does NOT
            // guarantee this; raw-pointer writes preserve the zeroed
            // padding).
            let mut storage = ::core::mem::MaybeUninit::<Mess>::zeroed();
            let inp = storage.as_mut_ptr() as *mut Request;

            // ---- per-arg field writes ----
            (*inp).openflags_type = MIG_TYPE_INT32; (*inp).openflags = openflags;
(*inp).control_port_type = MIG_TYPE_PORT_SEND_POLY;
(*inp).control_port.name = control_port;
// Replace the low-8-bit msgt_name with the caller's disposition.
(*inp).control_port_type.bits = (control_portPoly as u32 & 0xff) | ((*inp).control_port_type.bits & !0xff);


            // ---- complex bit: set when a port right travels in the request ----
            let mut req_simple = true;
            if (control_portPoly as mach_msg_type_name_t) >= MACH_MSG_TYPE_MOVE_RECEIVE && (control_portPoly as mach_msg_type_name_t) <= MACH_MSG_TYPE_MAKE_SEND_ONCE { req_simple = false; }

            let complex_bit = if req_simple { 0 } else { MACH_MSGH_BITS_COMPLEX };

            // ---- header ----
            (*inp).head.msgh_bits         = complex_bit
                | MACH_MSGH_BITS(MACH_MSG_TYPE_COPY_SEND, MACH_MSG_TYPE_MAKE_SEND_ONCE);
            (*inp).head.msgh_size         = REQ_SIZE;
            (*inp).head.msgh_remote_port  = target;
            (*inp).head._msgh_remote_pad  = 0;
            (*inp).head.msgh_local_port   = mig_get_reply_port();
            (*inp).head._msgh_local_pad   = 0;
            (*inp).head.msgh_seqno        = 0;
            (*inp).head.msgh_id           = REQUEST_ID;

            let reply_port = (*inp).head.msgh_local_port;

            let kr = mach_msg(
                storage.as_mut_ptr() as *mut mach_msg_header_t,
                MACH_SEND_MSG | MACH_RCV_MSG,
                REQ_SIZE, REPLY_SIZE,
                reply_port,
                0,
                MACH_PORT_NULL,
            );
            if kr != KERN_SUCCESS {
                mig_dealloc_reply_port(reply_port);
                return kr;
            }
            mig_put_reply_port(reply_port);

            let outp = storage.as_mut_ptr() as *mut Reply;

            // ---- reply validation ----
            if (*outp).head.msgh_id != REPLY_ID {
                if (*outp).head.msgh_id == MACH_NOTIFY_SEND_ONCE {
                    return MIG_SERVER_DIED;
                }
                return MIG_REPLY_MISMATCH;
            }

            let msgh_size   = (*outp).head.msgh_size;
            let msgh_simple = ((*outp).head.msgh_bits & MACH_MSGH_BITS_COMPLEX) == 0;

            // The full reply, or the short error reply.
            let full_ok  = msgh_size == REPLY_SIZE && !msgh_simple;
            let short_ok = msgh_size == ::core::mem::size_of::<mig_reply_header_t>() as mach_msg_size_t
                && msgh_simple
                && (*outp).retcode != KERN_SUCCESS;
            if !full_ok && !short_ok {
                return MIG_TYPE_ERROR;
            }

            if bad_typecheck(&(*outp).retcode_type, &MIG_TYPE_INT32) {
                return MIG_TYPE_ERROR;
            }
            if (*outp).retcode != KERN_SUCCESS {
                return (*outp).retcode;
            }

            // ---- out-arg descriptors, then extraction ----
            if bad_typecheck(&(*outp).realnode_type, &MIG_TYPE_PORT_MOVE_SEND) { return MIG_TYPE_ERROR; }
*realnode = (*outp).realnode.name;

            KERN_SUCCESS
        }
    "#;

const ACPI_SLEEP_STUB: &str = r#"
        #[allow(non_snake_case, non_camel_case_types, dead_code, unused_unsafe, unused_mut, unused_variables)]
        pub unsafe fn acpi_sleep(server: ::mach_sys::mach_port_t, sleep_state: ::mach_sys::c_int, ) -> ::mach_sys::kern_return_t {
            use ::mach_sys::*;

            #[repr(C)]
            struct Request {
                head: mach_msg_header_t,
                sleep_state_type: mach_msg_type_t, sleep_state: ::mach_sys::c_int, sleep_state_pad: u32,

            }

            #[repr(C)]
            struct Reply {
                head:         mach_msg_header_t,
                retcode_type: mach_msg_type_t,
                retcode:      kern_return_t,
                retcode_pad:  u32,
                
            }

            #[repr(C)]
            union Mess {
                in_: ::core::mem::ManuallyDrop<Request>,
                out: ::core::mem::ManuallyDrop<Reply>,
            }

            const REQ_SIZE:   mach_msg_size_t = ::core::mem::size_of::<Request>() as mach_msg_size_t;
            const REPLY_SIZE: mach_msg_size_t = ::core::mem::size_of::<Reply>()   as mach_msg_size_t;
            const REQUEST_ID: mach_msg_id_t   = -7;
            const REPLY_ID:   mach_msg_id_t   = 93;

            // Zero the whole storage so any inter-field padding stays
            // zero on the wire (Rust struct-literal init does NOT
            // guarantee this; raw-pointer writes preserve the zeroed
            // padding).
            let mut storage = ::core::mem::MaybeUninit::<Mess>::zeroed();
            let inp = storage.as_mut_ptr() as *mut Request;

            // ---- per-arg field writes ----
            (*inp).sleep_state_type = MIG_TYPE_INT32; (*inp).sleep_state = sleep_state;


            // ---- complex bit: set when a port right travels in the request ----
            let mut req_simple = true;
            
            let complex_bit = if req_simple { 0 } else { MACH_MSGH_BITS_COMPLEX };

            // ---- header ----
            (*inp).head.msgh_bits         = complex_bit
                | MACH_MSGH_BITS(MACH_MSG_TYPE_COPY_SEND, MACH_MSG_TYPE_MAKE_SEND_ONCE);
            (*inp).head.msgh_size         = REQ_SIZE;
            (*inp).head.msgh_remote_port  = server;
            (*inp).head._msgh_remote_pad  = 0;
            (*inp).head.msgh_local_port   = mig_get_reply_port();
            (*inp).head._msgh_local_pad   = 0;
            (*inp).head.msgh_seqno        = 0;
            (*inp).head.msgh_id           = REQUEST_ID;

            let reply_port = (*inp).head.msgh_local_port;

            let kr = mach_msg(
                storage.as_mut_ptr() as *mut mach_msg_header_t,
                MACH_SEND_MSG | MACH_RCV_MSG,
                REQ_SIZE, REPLY_SIZE,
                reply_port,
                0,
                MACH_PORT_NULL,
            );
            if kr != KERN_SUCCESS {
                mig_dealloc_reply_port(reply_port);
                return kr;
            }
            mig_put_reply_port(reply_port);

            let outp = storage.as_mut_ptr() as *mut Reply;

            // ---- reply validation ----
            if (*outp).head.msgh_id != REPLY_ID {
                if (*outp).head.msgh_id == MACH_NOTIFY_SEND_ONCE {
                    return MIG_SERVER_DIED;
                }
                return MIG_REPLY_MISMATCH;
            }

            let msgh_size   = (*outp).head.msgh_size;
            let msgh_simple = ((*outp).head.msgh_bits & MACH_MSGH_BITS_COMPLEX) == 0;

            // The full reply, or the short error reply.
            let full_ok  = msgh_size == REPLY_SIZE && msgh_simple;
            let short_ok = msgh_size == ::core::mem::size_of::<mig_reply_header_t>() as mach_msg_size_t
                && msgh_simple
                && (*outp).retcode != KERN_SUCCESS;
            if !full_ok && !short_ok {
                return MIG_TYPE_ERROR;
            }

            if bad_typecheck(&(*outp).retcode_type, &MIG_TYPE_INT32) {
                return MIG_TYPE_ERROR;
            }
            if (*outp).retcode != KERN_SUCCESS {
                return (*outp).retcode;
            }

            // ---- out-arg descriptors, then extraction ----
            
            KERN_SUCCESS
        }
    "#;

#[test]
fn emit_full_vocabulary_stub() {
    let p = ParsedRoutine {
        fname: "fsys_startup".to_string(),
        msgh_id: 22000,
        target: "target".to_string(),
        in_args: vec![arg("openflags", TypeTag::Int), arg("control_port", TypeTag::PortSendPoly)],
        out_args: vec![arg("realnode", TypeTag::PortSend)],
    };
    assert_eq!(emit(&p), FSYS_STARTUP_STUB);
}

#[test]
fn emit_scalar_only_stub_is_not_complex() {
    let p = ParsedRoutine {
        fname: "acpi_sleep".to_string(),
        msgh_id: -7,
        target: "server".to_string(),
        in_args: vec![arg("sleep_state", TypeTag::Int)],
        out_args: vec![],
    };
    let s = emit(&p);
    assert_eq!(s, ACPI_SLEEP_STUB);
    assert!(!s.contains("req_simple = false"));
    assert!(s.contains("let full_ok  = msgh_size == REPLY_SIZE && msgh_simple;"));
    assert!(s.contains("REQUEST_ID: mach_msg_id_t   = -7;"));
    assert!(s.contains("REPLY_ID:   mach_msg_id_t   = 93;"));
}

#[test]
fn fragments() {
    assert_eq!(fn_param(&arg("x", TypeTag::Int)), "x: ::mach_sys::c_int, ");
    assert_eq!(fn_param(&arg("p", TypeTag::PortSend)), "p: ::mach_sys::mach_port_t, ");
    assert_eq!(
        fn_param(&arg("c", TypeTag::PortSendPoly)),
        "c: ::mach_sys::mach_port_t, cPoly: ::mach_sys::c_int, "
    );
    assert_eq!(rust_out_ty(TypeTag::Int), "::mach_sys::c_int");
    assert_eq!(rust_out_ty(TypeTag::PortSendPoly), "::mach_sys::mach_port_t");
    assert_eq!(
        req_field(&arg("x", TypeTag::Int)),
        "x_type: mach_msg_type_t, x: ::mach_sys::c_int, x_pad: u32,\n"
    );
    assert_eq!(rep_field(&arg("r", TypeTag::PortSend)), "r_type: mach_msg_type_t, r: mach_port_name_inlined_t,\n");
    assert_eq!(req_write(&arg("x", TypeTag::Int)), "(*inp).x_type = MIG_TYPE_INT32; (*inp).x = x;\n");
    assert_eq!(
        req_write(&arg("p", TypeTag::PortSend)),
        "(*inp).p_type = MIG_TYPE_PORT_COPY_SEND; (*inp).p.name = p;\n"
    );
    assert!(req_write(&arg("c", TypeTag::PortSendPoly)).ends_with(
        "(*inp).c_type.bits = (cPoly as u32 & 0xff) | ((*inp).c_type.bits & !0xff);\n"
    ));
    assert!(is_port(TypeTag::PortSend) && is_port(TypeTag::PortSendPoly));
    assert!(!is_port(TypeTag::Int));
}

#[test]
fn reply_side_fragments() {
    assert_eq!(complex_check(&arg("x", TypeTag::Int)), "");
    assert_eq!(complex_check(&arg("p", TypeTag::PortSend)), "req_simple = false;\n");
    assert_eq!(
        complex_check(&arg("c", TypeTag::PortSendPoly)),
        "if (cPoly as mach_msg_type_name_t) >= MACH_MSG_TYPE_MOVE_RECEIVE && (cPoly as mach_msg_type_name_t) <= MACH_MSG_TYPE_MAKE_SEND_ONCE { req_simple = false; }\n"
    );
    assert_eq!(
        rep_check(&arg("n", TypeTag::Int)),
        "if bad_typecheck(&(*outp).n_type, &MIG_TYPE_INT32) { return MIG_TYPE_ERROR; }\n"
    );
    assert_eq!(
        rep_check(&arg("r", TypeTag::PortSend)),
        "if bad_typecheck(&(*outp).r_type, &MIG_TYPE_PORT_MOVE_SEND) { return MIG_TYPE_ERROR; }\n"
    );
    assert!(rep_check(&arg("q", TypeTag::PortSendPoly)).contains("(*outp).q_type.number != 1"));
    assert_eq!(out_write(&arg("n", TypeTag::Int)), "*n = (*outp).n;\n");
    assert_eq!(out_write(&arg("r", TypeTag::PortSend)), "*r = (*outp).r.name;\n");
    assert_eq!(out_write(&arg("q", TypeTag::PortSendPoly)), "*q = (*outp).q.name;\n");
}

#[test]
fn emit_fixed_port_in_and_int_out() {
    let p = ParsedRoutine {
        fname: "f".to_string(),
        msgh_id: 1,
        target: "t".to_string(),
        in_args: vec![arg("p", TypeTag::PortSend)],
        out_args: vec![arg("n", TypeTag::Int)],
    };
    let s = emit(&p);
    assert!(s.contains("let mut req_simple = true;\n            req_simple = false;\n"));
    assert!(s.contains("let full_ok  = msgh_size == REPLY_SIZE && msgh_simple;"));
    assert!(s.contains(
        "if bad_typecheck(&(*outp).n_type, &MIG_TYPE_INT32) { return MIG_TYPE_ERROR; }\n*n = (*outp).n;\n"
    ));
    assert!(s.contains("REPLY_ID:   mach_msg_id_t   = 101;"));
}
