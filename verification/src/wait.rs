//! POSIX wait-status decoding as the Hurd glibc encodes it.
use vstd::prelude::*;

use crate::mach::c_int;

verus! {

/// Terminating signal number: the low seven bits.
pub fn WTERMSIG(s: c_int) -> (r: c_int)
    ensures
        r == s & 0x7f,
        0 <= r < 128,
{
    assert(0 <= s & 0x7f < 128) by (bit_vector);
    s & 0x7f
}

/// Killed by a signal: the low seven bits hold a signal number, neither 0
/// (normal exit) nor 0x7f (stopped), as glibc's macro decides it.
pub fn WIFSIGNALED(s: c_int) -> (r: bool)
    ensures
        r == (s & 0x7f != 0 && s & 0x7f != 0x7f),
{
    let low: c_int = s & 0x7f;
    low != 0 && low != 0x7f
}

/// Stopped: the low byte is 0x7f.
pub fn WIFSTOPPED(s: c_int) -> (r: bool)
    ensures
        r == (s & 0xff == 0x7f),
{
    (s & 0xff) == 0x7f
}

/// Exit status: bits 8..15.
pub fn WEXITSTATUS(s: c_int) -> (r: c_int)
    ensures
        r == (s >> 8i32) & 0xff,
        0 <= r < 256,
{
    assert(0 <= (s >> 8i32) & 0xff < 256) by (bit_vector);
    (s >> 8) & 0xff
}

/// A status is at most one of: exited, killed by a signal, stopped.
pub proof fn lemma_status_kinds_exclusive(s: c_int)
    ensures
        (s & 0xff == 0x7f) ==> !(s & 0x7f != 0 && s & 0x7f != 0x7f),
        (s & 0x7f == 0) ==> !(s & 0xff == 0x7f),
{
    assert((s & 0xff == 0x7f) ==> (s & 0x7f == 0x7f)) by (bit_vector);
    assert((s & 0x7f == 0) ==> (s & 0xff != 0x7f)) by (bit_vector);
}

} // verus!
