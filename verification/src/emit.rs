//! Client-stub generator for `routine!`: renders a parsed routine as the
//! Rust source text of a `pub unsafe fn` that marshals the request, sends
//! and receives it with `mach_msg`, validates the reply, and extracts the
//! out-arguments.
//!
//! The text uses absolute `::mach_sys::...` paths, so the crate that
//! expands it must depend on `mach-sys`.
use vstd::prelude::*;

use crate::decimal::{int_decimal, push_i32_decimal};
use crate::rpc::MIG_REPLY_ID_OFFSET;
use crate::parse::{args_view, has_target_tag, valid_routine, Arg, ArgView, ParsedRoutine, RoutineView, TypeTag};

verus! {

// ---- fixed text of the generated function ----

pub const EMIT_PREAMBLE: &'static str =
    "\n        #[allow(non_snake_case, non_camel_case_types, dead_code, unused_unsafe, unused_mut, unused_variables)]\n        pub unsafe fn ";

pub const EMIT_OPEN_PAREN: &'static str =
    "(";

pub const EMIT_REQUEST_OPEN: &'static str =
    ") -> ::mach_sys::kern_return_t {\n            use ::mach_sys::*;\n\n            #[repr(C)]\n            struct Request {\n                head: mach_msg_header_t,\n                ";

pub const EMIT_REPLY_OPEN: &'static str =
    "\n            }\n\n            #[repr(C)]\n            struct Reply {\n                head:         mach_msg_header_t,\n                retcode_type: mach_msg_type_t,\n                retcode:      kern_return_t,\n                retcode_pad:  u32,\n                ";

pub const EMIT_CONSTS: &'static str =
    "\n            }\n\n            #[repr(C)]\n            union Mess {\n                in_: ::core::mem::ManuallyDrop<Request>,\n                out: ::core::mem::ManuallyDrop<Reply>,\n            }\n\n            const REQ_SIZE:   mach_msg_size_t = ::core::mem::size_of::<Request>() as mach_msg_size_t;\n            const REPLY_SIZE: mach_msg_size_t = ::core::mem::size_of::<Reply>()   as mach_msg_size_t;\n            const REQUEST_ID: mach_msg_id_t   = ";

pub const EMIT_REPLY_ID: &'static str =
    ";\n            const REPLY_ID:   mach_msg_id_t   = ";

pub const EMIT_STORAGE: &'static str =
    ";\n\n            // Zero the whole storage so any inter-field padding stays\n            // zero on the wire (Rust struct-literal init does NOT\n            // guarantee this; raw-pointer writes preserve the zeroed\n            // padding).\n            let mut storage = ::core::mem::MaybeUninit::<Mess>::zeroed();\n            let inp = storage.as_mut_ptr() as *mut Request;\n\n            // ---- per-arg field writes ----\n            ";

pub const EMIT_COMPLEX_OPEN: &'static str =
    "\n\n            // ---- complex bit: set when a port right travels in the request ----\n            let mut req_simple = true;\n            ";

pub const EMIT_HEADER_BITS: &'static str =
    "\n            let complex_bit = if req_simple { 0 } else { MACH_MSGH_BITS_COMPLEX };\n\n            // ---- header ----\n            (*inp).head.msgh_bits         = complex_bit\n                | MACH_MSGH_BITS(MACH_MSG_TYPE_COPY_SEND, MACH_MSG_TYPE_MAKE_SEND_ONCE);\n            (*inp).head.msgh_size         = REQ_SIZE;\n            (*inp).head.msgh_remote_port  = ";

pub const EMIT_SEND: &'static str =
    ";\n            (*inp).head._msgh_remote_pad  = 0;\n            (*inp).head.msgh_local_port   = mig_get_reply_port();\n            (*inp).head._msgh_local_pad   = 0;\n            (*inp).head.msgh_seqno        = 0;\n            (*inp).head.msgh_id           = REQUEST_ID;\n\n            let reply_port = (*inp).head.msgh_local_port;\n\n            let kr = mach_msg(\n                storage.as_mut_ptr() as *mut mach_msg_header_t,\n                MACH_SEND_MSG | MACH_RCV_MSG,\n                REQ_SIZE, REPLY_SIZE,\n                reply_port,\n                0,\n                MACH_PORT_NULL,\n            );\n            if kr != KERN_SUCCESS {\n                mig_dealloc_reply_port(reply_port);\n                return kr;\n            }\n            mig_put_reply_port(reply_port);\n\n            let outp = storage.as_mut_ptr() as *mut Reply;\n\n            // ---- reply validation ----\n            if (*outp).head.msgh_id != REPLY_ID {\n                if (*outp).head.msgh_id == MACH_NOTIFY_SEND_ONCE {\n                    return MIG_SERVER_DIED;\n                }\n                return MIG_REPLY_MISMATCH;\n            }\n\n            let msgh_size   = (*outp).head.msgh_size;\n            let msgh_simple = ((*outp).head.msgh_bits & MACH_MSGH_BITS_COMPLEX) == 0;\n\n            // The full reply, or the short error reply.\n            ";

pub const EMIT_FULL_OK: &'static str =
    "let full_ok  = msgh_size == REPLY_SIZE && ";

pub const EMIT_SHORT_REPLY: &'static str =
    ";\n            let short_ok = msgh_size == ::core::mem::size_of::<mig_reply_header_t>() as mach_msg_size_t\n                && msgh_simple\n                && (*outp).retcode != KERN_SUCCESS;\n            if !full_ok && !short_ok {\n                return MIG_TYPE_ERROR;\n            }\n\n            if bad_typecheck(&(*outp).retcode_type, &MIG_TYPE_INT32) {\n                return MIG_TYPE_ERROR;\n            }\n            if (*outp).retcode != KERN_SUCCESS {\n                return (*outp).retcode;\n            }\n\n            // ---- out-arg descriptors, then extraction ----\n            ";

pub const EMIT_END: &'static str =
    "\n            KERN_SUCCESS\n        }\n    ";

// ---- per-arg fragments ----

pub open spec fn spec_fn_param(a: ArgView) -> Seq<char> {
    match a.tag {
        TypeTag::Int => a.name + ": ::mach_sys::c_int, "@,
        TypeTag::PortSend => a.name + ": ::mach_sys::mach_port_t, "@,
        TypeTag::PortSendPoly => a.name + ": ::mach_sys::mach_port_t, "@ + a.name
            + "Poly: ::mach_sys::c_int, "@,
        TypeTag::MachPortT => Seq::empty(),
    }
}

pub open spec fn spec_rust_out_ty(tag: TypeTag) -> Seq<char> {
    match tag {
        TypeTag::Int => "::mach_sys::c_int"@,
        TypeTag::PortSend => "::mach_sys::mach_port_t"@,
        TypeTag::PortSendPoly => "::mach_sys::mach_port_t"@,
        TypeTag::MachPortT => Seq::empty(),
    }
}

pub open spec fn spec_out_param(a: ArgView) -> Seq<char> {
    a.name + ": *mut "@ + spec_rust_out_ty(a.tag) + ", "@
}

pub open spec fn spec_req_field(a: ArgView) -> Seq<char> {
    match a.tag {
        TypeTag::Int => a.name + "_type: mach_msg_type_t, "@ + a.name + ": ::mach_sys::c_int, "@
            + a.name + "_pad: u32,\n"@,
        TypeTag::PortSend | TypeTag::PortSendPoly => a.name + "_type: mach_msg_type_t, "@ + a.name
            + ": mach_port_name_inlined_t,\n"@,
        TypeTag::MachPortT => Seq::empty(),
    }
}

/// A reply field has the same shape as a request field of the same tag.
pub open spec fn spec_rep_field(a: ArgView) -> Seq<char> {
    spec_req_field(a)
}

pub open spec fn spec_req_write(a: ArgView) -> Seq<char> {
    match a.tag {
        TypeTag::Int => "(*inp)."@ + a.name + "_type = MIG_TYPE_INT32; (*inp)."@ + a.name + " = "@
            + a.name + ";\n"@,
        TypeTag::PortSend => "(*inp)."@ + a.name + "_type = MIG_TYPE_PORT_COPY_SEND; (*inp)."@
            + a.name + ".name = "@ + a.name + ";\n"@,
        TypeTag::PortSendPoly => "(*inp)."@ + a.name + "_type = MIG_TYPE_PORT_SEND_POLY;\n(*inp)."@
            + a.name + ".name = "@ + a.name
            + ";\n// Replace the low-8-bit msgt_name with the caller's disposition.\n(*inp)."@
            + a.name + "_type.bits = ("@ + a.name + "Poly as u32 & 0xff) | ((*inp)."@ + a.name
            + "_type.bits & !0xff);\n"@,
        TypeTag::MachPortT => Seq::empty(),
    }
}

/// Statement clearing `req_simple` when this in-argument carries a port
/// right: always for a fixed send right, and for a polymorphic port when
/// the caller's disposition is a port disposition (`MACH_MSG_TYPE_PORT_ANY`).
pub open spec fn spec_complex_check(a: ArgView) -> Seq<char> {
    match a.tag {
        TypeTag::PortSend => "req_simple = false;\n"@,
        TypeTag::PortSendPoly => "if ("@ + a.name
            + "Poly as mach_msg_type_name_t) >= MACH_MSG_TYPE_MOVE_RECEIVE && ("@ + a.name
            + "Poly as mach_msg_type_name_t) <= MACH_MSG_TYPE_MAKE_SEND_ONCE { req_simple = false; }\n"@,
        _ => Seq::empty(),
    }
}

/// Statement rejecting the reply when this out-argument's descriptor is not
/// the one expected: a 32-bit integer, a moved send right, or (polymorphic)
/// any port disposition with the port slot's size and shape.
pub open spec fn spec_rep_check(a: ArgView) -> Seq<char> {
    match a.tag {
        TypeTag::Int => "if bad_typecheck(&(*outp)."@ + a.name
            + "_type, &MIG_TYPE_INT32) { return MIG_TYPE_ERROR; }\n"@,
        TypeTag::PortSend => "if bad_typecheck(&(*outp)."@ + a.name
            + "_type, &MIG_TYPE_PORT_MOVE_SEND) { return MIG_TYPE_ERROR; }\n"@,
        TypeTag::PortSendPoly => "if ((*outp)."@ + a.name
            + "_type.bits & 0xff) < MACH_MSG_TYPE_MOVE_RECEIVE || ((*outp)."@ + a.name
            + "_type.bits & 0xff) > MACH_MSG_TYPE_MAKE_SEND_ONCE || ((*outp)."@ + a.name
            + "_type.bits & !0xff) != (MIG_TYPE_PORT_SEND_POLY.bits & !0xff) || (*outp)."@ + a.name
            + "_type.number != 1 { return MIG_TYPE_ERROR; }\n"@,
        TypeTag::MachPortT => Seq::empty(),
    }
}

/// Statement storing this out-argument through its pointer.
pub open spec fn spec_out_write(a: ArgView) -> Seq<char> {
    match a.tag {
        TypeTag::Int => "*"@ + a.name + " = (*outp)."@ + a.name + ";\n"@,
        TypeTag::PortSend | TypeTag::PortSendPoly => "*"@ + a.name + " = (*outp)."@ + a.name
            + ".name;\n"@,
        TypeTag::MachPortT => Seq::empty(),
    }
}

pub open spec fn spec_is_port(t: TypeTag) -> bool {
    t == TypeTag::PortSend || t == TypeTag::PortSendPoly
}

/// One signature parameter (two for a polymorphic port: the name and its
/// disposition).
pub fn fn_param(arg: &Arg) -> (r: String)
    requires
        arg.tag != TypeTag::MachPortT,
    ensures
        r@ == spec_fn_param(arg@),
{
    let mut s = arg.name.clone();
    match arg.tag {
        TypeTag::Int => {
            s.append(": ::mach_sys::c_int, ");
        },
        TypeTag::PortSend => {
            s.append(": ::mach_sys::mach_port_t, ");
        },
        TypeTag::PortSendPoly => {
            s.append(": ::mach_sys::mach_port_t, ");
            s.append(arg.name.as_str());
            s.append("Poly: ::mach_sys::c_int, ");
        },
        TypeTag::MachPortT => {},
    }
    s
}

/// Rust type of the pointee of an out-parameter.
pub fn rust_out_ty(tag: TypeTag) -> (r: &'static str)
    requires
        tag != TypeTag::MachPortT,
    ensures
        r@ == spec_rust_out_ty(tag),
{
    match tag {
        TypeTag::Int => "::mach_sys::c_int",
        TypeTag::PortSend => "::mach_sys::mach_port_t",
        TypeTag::PortSendPoly => "::mach_sys::mach_port_t",
        TypeTag::MachPortT => "",
    }
}

fn field(arg: &Arg) -> (r: String)
    requires
        arg.tag != TypeTag::MachPortT,
    ensures
        r@ == spec_req_field(arg@),
{
    let n = arg.name.as_str();
    let mut s = arg.name.clone();
    match arg.tag {
        TypeTag::Int => {
            s.append("_type: mach_msg_type_t, ");
            s.append(n);
            s.append(": ::mach_sys::c_int, ");
            s.append(n);
            s.append("_pad: u32,\n");
        },
        TypeTag::PortSend | TypeTag::PortSendPoly => {
            s.append("_type: mach_msg_type_t, ");
            s.append(n);
            s.append(": mach_port_name_inlined_t,\n");
        },
        TypeTag::MachPortT => {},
    }
    s
}

/// Request-struct fields of one in-argument: descriptor then value slot.
pub fn req_field(arg: &Arg) -> (r: String)
    requires
        arg.tag != TypeTag::MachPortT,
    ensures
        r@ == spec_req_field(arg@),
{
    field(arg)
}

/// Reply-struct fields of one out-argument: descriptor then value slot.
pub fn rep_field(arg: &Arg) -> (r: String)
    requires
        arg.tag != TypeTag::MachPortT,
    ensures
        r@ == spec_rep_field(arg@),
{
    field(arg)
}

/// Statements filling one in-argument's descriptor and value in the request.
pub fn req_write(arg: &Arg) -> (r: String)
    requires
        arg.tag != TypeTag::MachPortT,
    ensures
        r@ == spec_req_write(arg@),
{
    let n = arg.name.as_str();
    let mut s = "(*inp).".to_owned();
    s.append(n);
    match arg.tag {
        TypeTag::Int => {
            s.append("_type = MIG_TYPE_INT32; (*inp).");
            s.append(n);
            s.append(" = ");
            s.append(n);
            s.append(";\n");
        },
        TypeTag::PortSend => {
            s.append("_type = MIG_TYPE_PORT_COPY_SEND; (*inp).");
            s.append(n);
            s.append(".name = ");
            s.append(n);
            s.append(";\n");
        },
        TypeTag::PortSendPoly => {
            s.append("_type = MIG_TYPE_PORT_SEND_POLY;\n(*inp).");
            s.append(n);
            s.append(".name = ");
            s.append(n);
            s.append(";\n// Replace the low-8-bit msgt_name with the caller's disposition.\n(*inp).");
            s.append(n);
            s.append("_type.bits = (");
            s.append(n);
            s.append("Poly as u32 & 0xff) | ((*inp).");
            s.append(n);
            s.append("_type.bits & !0xff);\n");
        },
        TypeTag::MachPortT => {},
    }
    s
}

/// Statement clearing `req_simple` when the in-argument carries a port right.
pub fn complex_check(arg: &Arg) -> (r: String)
    requires
        arg.tag != TypeTag::MachPortT,
    ensures
        r@ == spec_complex_check(arg@),
{
    let n = arg.name.as_str();
    match arg.tag {
        TypeTag::PortSend => "req_simple = false;\n".to_owned(),
        TypeTag::PortSendPoly => {
            let mut s = "if (".to_owned();
            s.append(n);
            s.append("Poly as mach_msg_type_name_t) >= MACH_MSG_TYPE_MOVE_RECEIVE && (");
            s.append(n);
            s.append(
                "Poly as mach_msg_type_name_t) <= MACH_MSG_TYPE_MAKE_SEND_ONCE { req_simple = false; }\n",
            );
            s
        },
        _ => String::new(),
    }
}

/// Statement rejecting the reply when the out-argument's descriptor is wrong.
pub fn rep_check(arg: &Arg) -> (r: String)
    requires
        arg.tag != TypeTag::MachPortT,
    ensures
        r@ == spec_rep_check(arg@),
{
    let n = arg.name.as_str();
    match arg.tag {
        TypeTag::Int => {
            let mut s = "if bad_typecheck(&(*outp).".to_owned();
            s.append(n);
            s.append("_type, &MIG_TYPE_INT32) { return MIG_TYPE_ERROR; }\n");
            s
        },
        TypeTag::PortSend => {
            let mut s = "if bad_typecheck(&(*outp).".to_owned();
            s.append(n);
            s.append("_type, &MIG_TYPE_PORT_MOVE_SEND) { return MIG_TYPE_ERROR; }\n");
            s
        },
        TypeTag::PortSendPoly => {
            let mut s = "if ((*outp).".to_owned();
            s.append(n);
            s.append("_type.bits & 0xff) < MACH_MSG_TYPE_MOVE_RECEIVE || ((*outp).");
            s.append(n);
            s.append("_type.bits & 0xff) > MACH_MSG_TYPE_MAKE_SEND_ONCE || ((*outp).");
            s.append(n);
            s.append("_type.bits & !0xff) != (MIG_TYPE_PORT_SEND_POLY.bits & !0xff) || (*outp).");
            s.append(n);
            s.append("_type.number != 1 { return MIG_TYPE_ERROR; }\n");
            s
        },
        TypeTag::MachPortT => String::new(),
    }
}

/// Statement storing the out-argument through its pointer.
pub fn out_write(arg: &Arg) -> (r: String)
    requires
        arg.tag != TypeTag::MachPortT,
    ensures
        r@ == spec_out_write(arg@),
{
    let n = arg.name.as_str();
    let mut s = "*".to_owned();
    s.append(n);
    s.append(" = (*outp).");
    s.append(n);
    match arg.tag {
        TypeTag::Int => {
            s.append(";\n");
        },
        _ => {
            s.append(".name;\n");
        },
    }
    s
}

/// Whether a tag transfers a port right.
pub fn is_port(t: TypeTag) -> (r: bool)
    ensures
        r == spec_is_port(t),
{
    match t {
        TypeTag::PortSend | TypeTag::PortSendPoly => true,
        _ => false,
    }
}

// ---- the whole function ----

/// Concatenation of `f` over the arguments, in order.
pub open spec fn concat_args(args: Seq<ArgView>, f: spec_fn(ArgView) -> Seq<char>) -> Seq<char>
    decreases args.len(),
{
    if args.len() == 0 {
        Seq::empty()
    } else {
        concat_args(args.drop_last(), f) + f(args.last())
    }
}

pub open spec fn any_port(args: Seq<ArgView>) -> bool {
    exists|j: int| 0 <= j < args.len() && spec_is_port((#[trigger] args[j]).tag)
}

/// Signature parameters: the target port, each in-argument, then a pointer
/// per out-argument.
pub open spec fn spec_sig_args(p: RoutineView) -> Seq<char> {
    p.target + ": ::mach_sys::mach_port_t, "@ + concat_args(p.in_args, |a: ArgView| spec_fn_param(a))
        + concat_args(p.out_args, |a: ArgView| spec_out_param(a))
}

/// A full reply must carry the COMPLEX bit exactly when some out-argument
/// is a port.
pub open spec fn spec_reply_complex(p: RoutineView) -> Seq<char> {
    if any_port(p.out_args) {
        "!msgh_simple"@
    } else {
        "msgh_simple"@
    }
}

/// The declarations of the generated stub, up to and including the writes
/// of the in-arguments into the request.
pub open spec fn spec_emit_decls(p: RoutineView) -> Seq<char> {
    EMIT_PREAMBLE@ + p.fname + EMIT_OPEN_PAREN@ + spec_sig_args(p) + EMIT_REQUEST_OPEN@
        + concat_args(p.in_args, |a: ArgView| spec_req_field(a)) + EMIT_REPLY_OPEN@ + concat_args(
        p.out_args,
        |a: ArgView| spec_rep_field(a),
    ) + EMIT_CONSTS@ + int_decimal(p.msgh_id as int) + EMIT_REPLY_ID@ + int_decimal(
        p.msgh_id + MIG_REPLY_ID_OFFSET,
    ) + EMIT_STORAGE@ + concat_args(p.in_args, |a: ArgView| spec_req_write(a))
}

/// The rest of the stub: the COMPLEX decision, the header, the call, the
/// reply checks in order, and the extraction of the out-arguments.
pub open spec fn spec_emit_call(p: RoutineView) -> Seq<char> {
    EMIT_COMPLEX_OPEN@ + concat_args(p.in_args, |a: ArgView| spec_complex_check(a))
        + EMIT_HEADER_BITS@ + p.target + EMIT_SEND@ + EMIT_FULL_OK@ + spec_reply_complex(p)
        + EMIT_SHORT_REPLY@
        + concat_args(p.out_args, |a: ArgView| spec_rep_check(a)) + concat_args(
        p.out_args,
        |a: ArgView| spec_out_write(a),
    ) + EMIT_END@
}

/// The generated stub; its reply id is the request id plus 100.
pub open spec fn spec_emit(p: RoutineView) -> Seq<char> {
    spec_emit_decls(p) + spec_emit_call(p)
}

proof fn lemma_concat_step(args: Seq<ArgView>, k: int, f: spec_fn(ArgView) -> Seq<char>)
    requires
        0 <= k < args.len(),
    ensures
        concat_args(args.take(k + 1), f) == concat_args(args.take(k), f) + f(args[k]),
{
    assert(args.take(k + 1).drop_last() =~= args.take(k));
}

/// The per-argument pieces of the generated function.
#[derive(Clone, Copy, PartialEq, Eq, Structural)]
pub enum Fragment {
    SigParam,
    OutParam,
    ReqField,
    RepField,
    ReqWrite,
    ComplexCheck,
    RepCheck,
    OutWrite,
}

/// The text of one piece for one argument.
pub open spec fn fragment(which: Fragment) -> spec_fn(ArgView) -> Seq<char> {
    match which {
        Fragment::SigParam => |a: ArgView| spec_fn_param(a),
        Fragment::OutParam => |a: ArgView| spec_out_param(a),
        Fragment::ReqField => |a: ArgView| spec_req_field(a),
        Fragment::RepField => |a: ArgView| spec_rep_field(a),
        Fragment::ReqWrite => |a: ArgView| spec_req_write(a),
        Fragment::ComplexCheck => |a: ArgView| spec_complex_check(a),
        Fragment::RepCheck => |a: ArgView| spec_rep_check(a),
        Fragment::OutWrite => |a: ArgView| spec_out_write(a),
    }
}

/// Append the `which` piece of every argument, in order.
fn append_each(out: &mut String, args: &Vec<Arg>, which: Fragment)
    requires
        forall|j: int| 0 <= j < args@.len() ==> (#[trigger] args@[j]).tag != TypeTag::MachPortT,
    ensures
        final(out)@ == old(out)@ + concat_args(args_view(args@), fragment(which)),
{
    let ghost f = fragment(which);
    let ghost av = args_view(args@);
    let mut k: usize = 0;
    while k < args.len()
        invariant
            k <= args.len(),
            av == args_view(args@),
            f == fragment(which),
            forall|j: int| 0 <= j < args@.len() ==> (#[trigger] args@[j]).tag != TypeTag::MachPortT,
            out@ == old(out)@ + concat_args(av.take(k as int), f),
        decreases args.len() - k,
    {
        let a = &args[k];
        assert(av[k as int] == a@);
        let piece = match which {
            Fragment::SigParam => fn_param(a),
            Fragment::OutParam => {
                let mut s = a.name.clone();
                s.append(": *mut ");
                s.append(rust_out_ty(a.tag));
                s.append(", ");
                s
            },
            Fragment::ReqField => req_field(a),
            Fragment::RepField => rep_field(a),
            Fragment::ReqWrite => req_write(a),
            Fragment::ComplexCheck => complex_check(a),
            Fragment::RepCheck => rep_check(a),
            Fragment::OutWrite => out_write(a),
        };
        assert(piece@ == f(av[k as int]));
        proof {
            lemma_concat_step(av, k as int, f);
        }
        out.append(piece.as_str());
        k = k + 1;
    }
    assert(av.take(args.len() as int) =~= av);
}

fn any_port_arg(args: &Vec<Arg>) -> (r: bool)
    ensures
        r == any_port(args_view(args@)),
{
    let mut k: usize = 0;
    while k < args.len()
        invariant
            k <= args.len(),
            forall|j: int| 0 <= j < k ==> !spec_is_port((#[trigger] args@[j]).tag),
        decreases args.len() - k,
    {
        if is_port(args[k].tag) {
            assert(spec_is_port(args_view(args@)[k as int].tag));
            return true;
        }
        k = k + 1;
    }
    assert forall|j: int| 0 <= j < args_view(args@).len() implies !spec_is_port(
        (#[trigger] args_view(args@)[j]).tag,
    ) by {
        assert(!spec_is_port(args@[j].tag));
    }
    false
}

fn no_target_args(args: &Vec<Arg>)
    requires
        !has_target_tag(args_view(args@)),
    ensures
        forall|j: int| 0 <= j < args@.len() ==> (#[trigger] args@[j]).tag != TypeTag::MachPortT,
{
    assert forall|j: int| 0 <= j < args@.len() implies (#[trigger] args@[j]).tag
        != TypeTag::MachPortT by {
        assert(args_view(args@)[j].tag == args@[j].tag);
    }
}

#[verifier::rlimit(40)]
fn push_decls(src: &mut String, p: &ParsedRoutine)
    requires
        valid_routine(p@),
        p.msgh_id <= i32::MAX - MIG_REPLY_ID_OFFSET,
    ensures
        final(src)@ == old(src)@ + spec_emit_decls(p@),
{
    no_target_args(&p.in_args);
    no_target_args(&p.out_args);
    let reply_id = p.msgh_id + MIG_REPLY_ID_OFFSET;
    src.append(EMIT_PREAMBLE);
    src.append(p.fname.as_str());
    src.append(EMIT_OPEN_PAREN);
    // ---- function signature ----
    src.append(p.target.as_str());
    src.append(": ::mach_sys::mach_port_t, ");
    append_each(src, &p.in_args, Fragment::SigParam);
    append_each(src, &p.out_args, Fragment::OutParam);
    // ---- Request struct fields ----
    src.append(EMIT_REQUEST_OPEN);
    append_each(src, &p.in_args, Fragment::ReqField);
    // ---- Reply struct fields ----
    src.append(EMIT_REPLY_OPEN);
    append_each(src, &p.out_args, Fragment::RepField);
    src.append(EMIT_CONSTS);
    push_i32_decimal(src, p.msgh_id);
    src.append(EMIT_REPLY_ID);
    push_i32_decimal(src, reply_id);
    // ---- per-arg request field writes ----
    src.append(EMIT_STORAGE);
    append_each(src, &p.in_args, Fragment::ReqWrite);
    assert(fragment(Fragment::SigParam) == (|a: ArgView| spec_fn_param(a)));
    assert(fragment(Fragment::OutParam) == (|a: ArgView| spec_out_param(a)));
    assert(fragment(Fragment::ReqField) == (|a: ArgView| spec_req_field(a)));
    assert(fragment(Fragment::RepField) == (|a: ArgView| spec_rep_field(a)));
    assert(fragment(Fragment::ReqWrite) == (|a: ArgView| spec_req_write(a)));
    assert(src@ =~= old(src)@ + spec_emit_decls(p@));
}

fn push_call(src: &mut String, p: &ParsedRoutine)
    requires
        valid_routine(p@),
    ensures
        final(src)@ == old(src)@ + spec_emit_call(p@),
{
    no_target_args(&p.in_args);
    no_target_args(&p.out_args);
    // ---- complex-bit decision, made at run time ----
    src.append(EMIT_COMPLEX_OPEN);
    append_each(src, &p.in_args, Fragment::ComplexCheck);
    src.append(EMIT_HEADER_BITS);
    src.append(p.target.as_str());
    src.append(EMIT_SEND);
    // ---- reply validation and extraction ----
    src.append(EMIT_FULL_OK);
    if any_port_arg(&p.out_args) {
        src.append("!msgh_simple");
    } else {
        src.append("msgh_simple");
    }
    src.append(EMIT_SHORT_REPLY);
    append_each(src, &p.out_args, Fragment::RepCheck);
    append_each(src, &p.out_args, Fragment::OutWrite);
    src.append(EMIT_END);
    assert(fragment(Fragment::ComplexCheck) == (|a: ArgView| spec_complex_check(a)));
    assert(fragment(Fragment::RepCheck) == (|a: ArgView| spec_rep_check(a)));
    assert(fragment(Fragment::OutWrite) == (|a: ArgView| spec_out_write(a)));
    assert(src@ =~= old(src)@ + spec_emit_call(p@));
}

/// Render the client stub for a parsed routine as Rust source text.
pub fn emit(p: &ParsedRoutine) -> (r: String)
    requires
        valid_routine(p@),
        p.msgh_id <= i32::MAX - MIG_REPLY_ID_OFFSET,
    ensures
        r@ == spec_emit(p@),
{
    let mut src = String::new();
    push_decls(&mut src, p);
    push_call(&mut src, p);
    assert(src@ =~= spec_emit(p@));
    src
}

// ---- laws of the generated text ----

proof fn lemma_concat_push(s: Seq<ArgView>, a: ArgView, f: spec_fn(ArgView) -> Seq<char>)
    ensures
        concat_args(s.push(a), f) == concat_args(s, f) + f(a),
{
    assert(s.push(a).drop_last() =~= s);
}

/// The stub accepts a full reply only with the COMPLEX bit set when some
/// out-argument is a port (a fixed or a polymorphic send right), and only
/// without it otherwise: the emitted text holds
/// `let full_ok  = msgh_size == REPLY_SIZE && !msgh_simple` exactly in the
/// first case and `... && msgh_simple` in the second.
pub proof fn lemma_full_reply_complex(p: RoutineView)
    ensures
        (exists|j: int|
            0 <= j < p.out_args.len() && ((#[trigger] p.out_args[j]).tag == TypeTag::PortSend
                || p.out_args[j].tag == TypeTag::PortSendPoly)) ==> exists|
            pre: Seq<char>,
            post: Seq<char>,
        |
            spec_emit(p) == pre + "let full_ok  = msgh_size == REPLY_SIZE && "@ + "!msgh_simple"@
                + post,
        !(exists|j: int|
            0 <= j < p.out_args.len() && ((#[trigger] p.out_args[j]).tag == TypeTag::PortSend
                || p.out_args[j].tag == TypeTag::PortSendPoly)) ==> exists|
            pre: Seq<char>,
            post: Seq<char>,
        | spec_emit(p) == pre + "let full_ok  = msgh_size == REPLY_SIZE && "@ + "msgh_simple"@ + post,
{
    let pre = spec_emit_decls(p) + EMIT_COMPLEX_OPEN@ + concat_args(
        p.in_args,
        |a: ArgView| spec_complex_check(a),
    ) + EMIT_HEADER_BITS@ + p.target + EMIT_SEND@;
    let post = EMIT_SHORT_REPLY@ + concat_args(p.out_args, |a: ArgView| spec_rep_check(a))
        + concat_args(p.out_args, |a: ArgView| spec_out_write(a)) + EMIT_END@;
    assert(EMIT_FULL_OK@ == "let full_ok  = msgh_size == REPLY_SIZE && "@);
    assert(spec_emit(p) =~= pre + EMIT_FULL_OK@ + spec_reply_complex(p) + post);
    if exists|j: int|
        0 <= j < p.out_args.len() && ((#[trigger] p.out_args[j]).tag == TypeTag::PortSend
            || p.out_args[j].tag == TypeTag::PortSendPoly) {
        let j = choose|j: int|
            0 <= j < p.out_args.len() && ((#[trigger] p.out_args[j]).tag == TypeTag::PortSend
                || p.out_args[j].tag == TypeTag::PortSendPoly);
        assert(spec_is_port(p.out_args[j].tag));
        assert(spec_reply_complex(p) == "!msgh_simple"@);
    } else {
        assert(spec_reply_complex(p) == "msgh_simple"@);
    }
}

/// The text of an out-parameter's pointee type, by tag.
pub open spec fn out_pointee(tag: TypeTag) -> Seq<char> {
    if tag == TypeTag::Int {
        "::mach_sys::c_int"@
    } else {
        "::mach_sys::mach_port_t"@
    }
}

/// The stub's parameters are the target port, then the in-arguments, then
/// one `NAME: *mut TYPE, ` per out-argument in declaration order: with no
/// arguments the list is the target alone; declaring one more in-argument
/// (before any out-argument) appends its parameter; declaring one more
/// out-argument appends its pointer parameter at the very end. The list
/// stands right after `fn NAME(` at the start of the emitted text.
pub proof fn lemma_signature_order(p: RoutineView, a: ArgView)
    ensures
        spec_sig_args(
            RoutineView {
                fname: p.fname,
                msgh_id: p.msgh_id,
                target: p.target,
                in_args: Seq::empty(),
                out_args: Seq::empty(),
            },
        ) == p.target + ": ::mach_sys::mach_port_t, "@,
        a.tag != TypeTag::MachPortT ==> spec_sig_args(
            RoutineView {
                fname: p.fname,
                msgh_id: p.msgh_id,
                target: p.target,
                in_args: p.in_args.push(a),
                out_args: Seq::empty(),
            },
        ) == spec_sig_args(
            RoutineView {
                fname: p.fname,
                msgh_id: p.msgh_id,
                target: p.target,
                in_args: p.in_args,
                out_args: Seq::empty(),
            },
        ) + spec_fn_param(a),
        a.tag != TypeTag::MachPortT ==> spec_sig_args(
            RoutineView {
                fname: p.fname,
                msgh_id: p.msgh_id,
                target: p.target,
                in_args: p.in_args,
                out_args: p.out_args.push(a),
            },
        ) == spec_sig_args(p) + a.name + ": *mut "@ + out_pointee(a.tag) + ", "@,
        exists|post: Seq<char>|
            spec_emit(p) == EMIT_PREAMBLE@ + p.fname + "("@ + spec_sig_args(p) + post,
{
    let fp = |x: ArgView| spec_fn_param(x);
    let op = |x: ArgView| spec_out_param(x);
    lemma_concat_push(p.in_args, a, fp);
    lemma_concat_push(p.out_args, a, op);
    let empty = Seq::<ArgView>::empty();
    assert(concat_args(empty, fp) =~= Seq::<char>::empty());
    assert(concat_args(empty, op) =~= Seq::<char>::empty());
    assert(spec_sig_args(
        RoutineView {
            fname: p.fname,
            msgh_id: p.msgh_id,
            target: p.target,
            in_args: empty,
            out_args: empty,
        },
    ) =~= p.target + ": ::mach_sys::mach_port_t, "@);
    assert(spec_sig_args(
        RoutineView {
            fname: p.fname,
            msgh_id: p.msgh_id,
            target: p.target,
            in_args: p.in_args.push(a),
            out_args: empty,
        },
    ) =~= spec_sig_args(
        RoutineView {
            fname: p.fname,
            msgh_id: p.msgh_id,
            target: p.target,
            in_args: p.in_args,
            out_args: empty,
        },
    ) + spec_fn_param(a));
    if a.tag != TypeTag::MachPortT {
        assert(spec_out_param(a) == a.name + ": *mut "@ + out_pointee(a.tag) + ", "@);
    }
    assert(spec_sig_args(
        RoutineView {
            fname: p.fname,
            msgh_id: p.msgh_id,
            target: p.target,
            in_args: p.in_args,
            out_args: p.out_args.push(a),
        },
    ) =~= spec_sig_args(p) + spec_out_param(a));
    assert(a.tag != TypeTag::MachPortT ==> spec_sig_args(p) + spec_out_param(a) =~= spec_sig_args(p) + a.name + ": *mut "@ + out_pointee(a.tag) + ", "@);
    let post = spec_emit(p).subrange(
        (EMIT_PREAMBLE@ + p.fname + "("@ + spec_sig_args(p)).len() as int,
        spec_emit(p).len() as int,
    );
    assert(EMIT_OPEN_PAREN@ == "("@);
    assert(spec_emit(p) =~= EMIT_PREAMBLE@ + p.fname + "("@ + spec_sig_args(p) + post);
}

} // verus!
