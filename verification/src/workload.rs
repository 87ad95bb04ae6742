//! Mapping from the main workload's fate to the coordinator's own exit
//! status. The workload's exit code is passed through; everything that
//! prevented the workload from running, or made its status unrepresentable,
//! collapses to the generic failure code 1. The shutdown-wait outcome never
//! changes the exit status.

use vstd::prelude::*;

use crate::shutdown::ShutdownOutcome;

verus! {

/// The generic failure exit code, used when the main workload never ran or
/// its status cannot be represented.
pub const GENERIC_FAILURE_CODE: u8 = 1;

/// The exit code the coordinator adopts for one reported workload status:
/// zero stays zero, a code in 1..=255 is passed through, and a missing code
/// (the process was signalled, or its status is otherwise unrepresentable)
/// collapses to 1.
pub open spec fn spec_exit_code(status: Option<i32>) -> u8 {
    match status {
        Some(c) => if 0 <= c <= 255 {
            c as u8
        } else {
            1u8
        },
        None => 1u8,
    }
}

/// Converts a reported process exit status — `Some(code)` when the OS gave
/// one, `None` for signal termination — into the coordinator's exit code.
pub fn exit_code(status: Option<i32>) -> (code: u8)
    ensures
        code == spec_exit_code(status),
{
    match status {
        Some(c) => {
            if 0 <= c && c <= 255 {
                c as u8
            } else {
                GENERIC_FAILURE_CODE
            }
        },
        None => GENERIC_FAILURE_CODE,
    }
}

/// The whole coordinator's exit code: the main workload's own exit code
/// when it ran, else the generic failure code — in particular when the
/// ready-wait phase failed or timed out and the workload never started.
///
/// The shutdown-wait outcome is taken but deliberately ignored: the
/// contract does not mention it, so a shutdown-wait timeout or failure can
/// never mask the workload's status.
pub fn overall_exit_code(workload_status: &Option<u8>, _shutdown: &Option<ShutdownOutcome>) -> (code:
    u8)
    ensures
        code == (match *workload_status {
            Some(c) => c,
            None => GENERIC_FAILURE_CODE,
        }),
{
    match workload_status {
        Some(c) => *c,
        None => GENERIC_FAILURE_CODE,
    }
}

} // verus!
