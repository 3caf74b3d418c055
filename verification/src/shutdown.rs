//! Decisions of the shutdown translator: serving `shutdown_shutdown` by
//! asking the ACPI server for sleep state S5, and whether to go away.
use vstd::prelude::*;

use crate::mach::{c_int, kern_return_t, mach_msg_id_t, mach_port_t, MACH_PORT_NULL};
use crate::trivfs::FSYS_GOAWAY_FORCE;

verus! {

/// ACPI sleep state S5: soft power off.
pub const SLEEP_STATE_S5: c_int = 5;

/// POSIX errno values used by the handlers.
pub const EIO: kern_return_t = 5;

pub const EBUSY: kern_return_t = 16;

/// msgh_id of `shutdown_shutdown` (subsystem `shutdown`, routine 0).
pub const SHUTDOWN_SHUTDOWN_ID: mach_msg_id_t = 40000;

/// msgh_id of `acpi_sleep` (subsystem `acpi`, routine 0).
pub const ACPI_SLEEP_ID: mach_msg_id_t = 41000;

/// What serving `shutdown_shutdown` does once `/servers/acpi` was looked up.
#[derive(Clone, Copy, PartialEq, Eq, Structural, Debug)]
pub enum ShutdownStep {
    /// Reply with this code without contacting anyone.
    Fail(kern_return_t),
    /// Ask `acpi` to enter `state`, release `acpi`, reply with its code.
    Sleep { acpi: mach_port_t, state: c_int },
}

/// No ACPI server means EIO; otherwise power off through it.
pub fn shutdown_step(acpi: mach_port_t) -> (r: ShutdownStep)
    ensures
        acpi == MACH_PORT_NULL ==> r == ShutdownStep::Fail(EIO),
        acpi != MACH_PORT_NULL ==> r == (ShutdownStep::Sleep { acpi, state: SLEEP_STATE_S5 }),
{
    if acpi == MACH_PORT_NULL {
        ShutdownStep::Fail(EIO)
    } else {
        ShutdownStep::Sleep { acpi, state: SLEEP_STATE_S5 }
    }
}

/// What `trivfs_goaway` does once RPCs are inhibited and the open protids
/// are counted.
#[derive(Clone, Copy, PartialEq, Eq, Structural, Debug)]
pub enum GoawayDecision {
    /// Re-enable the classes, resume RPCs, and answer with this code.
    Refuse(kern_return_t),
    /// Exit the process.
    Exit,
}

/// Refuse with EBUSY while files are open, unless forced.
pub fn goaway_decision(protid_count: c_int, flags: c_int) -> (r: GoawayDecision)
    ensures
        r == (if protid_count > 0 && flags & FSYS_GOAWAY_FORCE == 0 {
            GoawayDecision::Refuse(EBUSY)
        } else {
            GoawayDecision::Exit
        }),
{
    if protid_count > 0 && (flags & FSYS_GOAWAY_FORCE) == 0 {
        GoawayDecision::Refuse(EBUSY)
    } else {
        GoawayDecision::Exit
    }
}

} // verus!
