use lib::init::{
    child_report, parse_opt, reap_step, ChildReport, InitOption, ReapAction, ARGP_ERR_UNKNOWN,
    KEY_A, KEY_S,
};
use lib::mach::{
    mach_msg_header_t, MACH_MSGH_BITS_COMPLEX, MACH_MSGH_BITS_REMOTE, MACH_MSG_TYPE_COPY_SEND,
    MACH_MSG_TYPE_MAKE_SEND_ONCE, MACH_NOTIFY_SEND_ONCE, MIG_REPLY_MISMATCH, MIG_SERVER_DIED,
    MIG_TYPE_ERROR, MIG_TYPE_INT32, MIG_TYPE_PORT_COPY_SEND, MIG_TYPE_PORT_MOVE_SEND,
};
use lib::rpc::{routine_reply_head, routine_request_head};
use lib::shutdown::{
    goaway_decision, shutdown_step, GoawayDecision, ShutdownStep, EBUSY, EIO, SLEEP_STATE_S5,
};
use lib::trivfs::{
    fsys_startup_outcome, fsys_startup_request, FsysStartupReply, IntSlot, PortSlot,
    FSYS_GOAWAY_FORCE, FSYS_STARTUP_ID, FSYS_STARTUP_REPLY_ID,
};
use lib::wait::{WEXITSTATUS, WIFSIGNALED, WIFSTOPPED, WTERMSIG};

fn head(bits: u32, remote: u32, local: u32, id: i32) -> mach_msg_header_t {
    mach_msg_header_t {
        msgh_bits: bits,
        msgh_size: 48,
        msgh_remote_port: remote,
        _msgh_remote_pad: 0,
        msgh_local_port: local,
        _msgh_local_pad: 0,
        msgh_seqno: 9,
        msgh_id: id,
    }
}

#[test]
fn request_head_of_simple_routine() {
    let h = routine_request_head(7, 9, 48, 41000);
    assert_eq!(h.msgh_bits, 0x1513);
    assert_eq!(h.msgh_size, 48);
    assert_eq!(h.msgh_remote_port, 7);
    assert_eq!(h.msgh_local_port, 9);
    assert_eq!(h.msgh_seqno, 0);
    assert_eq!(h.msgh_id, 41000);
}

#[test]
fn reply_head_answers_request() {
    let req = head(0x1512, 33, 44, 40000);
    let rep = routine_reply_head(&req, 48);
    assert_eq!(rep.msgh_id, 40100);
    assert_eq!(rep.msgh_bits, 0x12);
    assert_eq!(MACH_MSGH_BITS_REMOTE(rep.msgh_bits), MACH_MSGH_BITS_REMOTE(req.msgh_bits));
    assert_eq!(rep.msgh_remote_port, 33);
    assert_eq!(rep.msgh_local_port, 0);
    assert_eq!(rep.msgh_seqno, 0);
    assert_eq!(rep.msgh_size, 48);
}

#[test]
fn fsys_startup_request_layout() {
    let r = fsys_startup_request(5, 3, 6, 8);
    assert_eq!(r.head.msgh_bits, MACH_MSGH_BITS_COMPLEX | 0x1513);
    assert_eq!(MACH_MSGH_BITS_REMOTE(r.head.msgh_bits), MACH_MSG_TYPE_COPY_SEND);
    assert_eq!((r.head.msgh_bits >> 8) & 0x1f, MACH_MSG_TYPE_MAKE_SEND_ONCE);
    assert_eq!(r.head.msgh_size, 64);
    assert_eq!(r.head.msgh_remote_port, 5);
    assert_eq!(r.head.msgh_local_port, 8);
    assert_eq!(r.head.msgh_id, FSYS_STARTUP_ID);
    assert_eq!(r.openflags.descriptor.bits, MIG_TYPE_INT32().bits);
    assert_eq!(r.openflags.value, 3);
    assert_eq!(r.ctlport.descriptor.bits, MIG_TYPE_PORT_COPY_SEND().bits);
    assert_eq!(r.ctlport.port_name, 6);
}

fn reply(retcode: i32, realnode: u32) -> FsysStartupReply {
    FsysStartupReply {
        head: head(MACH_MSGH_BITS_COMPLEX | 0x11, 0, 0, 22100).with_size(64),
        retcode: IntSlot { descriptor: MIG_TYPE_INT32(), value: retcode, _pad: 0 },
        realnode: PortSlot { descriptor: MIG_TYPE_PORT_MOVE_SEND(), port_name: realnode, _pad: 0 },
    }
}

trait WithSize {
    fn with_size(self, size: u32) -> Self;
}

impl WithSize for mach_msg_header_t {
    fn with_size(mut self, size: u32) -> Self {
        self.msgh_size = size;
        self
    }
}

#[test]
fn fsys_startup_outcomes() {
    assert_eq!(fsys_startup_outcome(0, &reply(0, 77)), Ok(77));
    assert_eq!(fsys_startup_outcome(0x10000003, &reply(0, 77)), Err(0x10000003));
    // A full reply carrying a nonzero code returns that code.
    assert_eq!(fsys_startup_outcome(0, &reply(1073741826, 77)), Err(1073741826));
    // The short error reply: 48 bytes, simple, nonzero code.
    let mut short = reply(1073741826, 0);
    short.head.msgh_bits = 0x11;
    short.head.msgh_size = 48;
    assert_eq!(fsys_startup_outcome(0, &short), Err(1073741826));
}

#[test]
fn fsys_startup_reply_validation() {
    let mut died = reply(0, 77);
    died.head.msgh_id = MACH_NOTIFY_SEND_ONCE;
    assert_eq!(fsys_startup_outcome(0, &died), Err(MIG_SERVER_DIED));
    let mut other = reply(0, 77);
    other.head.msgh_id = 22101;
    assert_eq!(fsys_startup_outcome(0, &other), Err(MIG_REPLY_MISMATCH));
    // A full-size reply without the COMPLEX bit.
    let mut simple = reply(0, 77);
    simple.head.msgh_bits = 0x11;
    assert_eq!(fsys_startup_outcome(0, &simple), Err(MIG_TYPE_ERROR));
    // A short reply claiming success.
    let mut short_ok = reply(0, 77);
    short_ok.head.msgh_bits = 0x11;
    short_ok.head.msgh_size = 48;
    assert_eq!(fsys_startup_outcome(0, &short_ok), Err(MIG_TYPE_ERROR));
    let mut bad_ret = reply(0, 77);
    bad_ret.retcode.descriptor = MIG_TYPE_PORT_MOVE_SEND();
    assert_eq!(fsys_startup_outcome(0, &bad_ret), Err(MIG_TYPE_ERROR));
    let mut bad_port = reply(0, 77);
    bad_port.realnode.descriptor = MIG_TYPE_PORT_COPY_SEND();
    assert_eq!(fsys_startup_outcome(0, &bad_port), Err(MIG_TYPE_ERROR));
    // A bad realnode descriptor does not hide the parent's error.
    let mut err_bad_port = reply(5, 77);
    err_bad_port.realnode.descriptor = MIG_TYPE_INT32();
    assert_eq!(fsys_startup_outcome(0, &err_bad_port), Err(5));
    assert_eq!(FSYS_STARTUP_REPLY_ID, FSYS_STARTUP_ID + 100);
}

#[test]
fn shutdown_handler_steps() {
    assert_eq!(shutdown_step(0), ShutdownStep::Fail(EIO));
    assert_eq!(shutdown_step(12), ShutdownStep::Sleep { acpi: 12, state: SLEEP_STATE_S5 });
}

#[test]
fn goaway_decisions() {
    assert_eq!(goaway_decision(2, 0), GoawayDecision::Refuse(EBUSY));
    assert_eq!(goaway_decision(2, FSYS_GOAWAY_FORCE), GoawayDecision::Exit);
    assert_eq!(goaway_decision(0, 0), GoawayDecision::Exit);
    assert_eq!(goaway_decision(1, 3), GoawayDecision::Refuse(EBUSY));
}

#[test]
fn wait_status_decoding() {
    assert_eq!(WTERMSIG(0x0009), 9);
    assert!(WIFSIGNALED(0x0009));
    assert!(!WIFSIGNALED(0x0100));
    assert!(WIFSTOPPED(0x137f));
    assert!(!WIFSIGNALED(0x137f));
    assert_eq!(WEXITSTATUS(0x0300), 3);
    assert_eq!(WEXITSTATUS(-1), 0xff);
}

#[test]
fn child_reports() {
    assert_eq!(child_report(0x0009), ChildReport::Signaled(9));
    assert_eq!(child_report(0x0000), ChildReport::Finished);
    assert_eq!(child_report(0x0200), ChildReport::Exited(2));
    assert_eq!(child_report(0x137f), ChildReport::Stopped(0x7f));
}

#[test]
fn init_options() {
    assert_eq!(parse_opt(KEY_S), InitOption::SingleUser);
    assert_eq!(parse_opt(KEY_A), InitOption::Ignored);
    assert_eq!(parse_opt(b'x' as i32), InitOption::Unknown);
    assert_eq!(parse_opt(KEY_S).status(), 0);
    assert_eq!(parse_opt(KEY_A).status(), 0);
    assert_eq!(parse_opt(0).status(), ARGP_ERR_UNKNOWN);
    assert_eq!(KEY_S, b's' as i32);
    assert_eq!(KEY_A, b'a' as i32);
}

#[test]
fn sigchld_reaping() {
    assert_eq!(reap_step(42, 0, 0), (42, ReapAction::NoMoreChildren));
    assert_eq!(reap_step(42, -1, 0x0200), (42, ReapAction::NoMoreChildren));
    assert_eq!(reap_step(42, 17, 0x0009), (42, ReapAction::ReapedOrphan));
    assert_eq!(reap_step(42, 42, 0x0200), (-1, ReapAction::ChildDied(ChildReport::Exited(2))));
    assert_eq!(reap_step(42, 42, 0x0006), (-1, ReapAction::ChildDied(ChildReport::Signaled(6))));
    assert_eq!(reap_step(-1, 42, 0x0000), (-1, ReapAction::ReapedOrphan));
}

#[test]
fn fsys_startup_request_bytes() {
    let r = fsys_startup_request(5, 3, 6, 8);
    let b = r.to_bytes();
    assert_eq!(b.len(), r.head.msgh_size as usize);
    assert_eq!(&b[0..4], &[0x13, 0x15, 0x00, 0x80]);
    assert_eq!(&b[4..8], &[64, 0, 0, 0]);
    assert_eq!(&b[8..12], &[5, 0, 0, 0]);
    assert_eq!(&b[16..20], &[8, 0, 0, 0]);
    assert_eq!(&b[28..32], &[0xf0, 0x55, 0x00, 0x00]);
    assert_eq!(&b[32..40], &[0x02, 0x20, 0x00, 0x20, 0x01, 0x00, 0x00, 0x00]);
    assert_eq!(&b[40..44], &[3, 0, 0, 0]);
    assert_eq!(&b[48..56], &[0x13, 0x40, 0x00, 0x20, 0x01, 0x00, 0x00, 0x00]);
    assert_eq!(&b[56..60], &[6, 0, 0, 0]);
}
