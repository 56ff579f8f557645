//! Mapping a finished child process's reported outcome to this process's
//! exit value.

use vstd::prelude::*;

verus! {

/// An arbitrary integer exit value clamped into the range a process can
/// report: negative values become 0, values above 255 become 255.
pub open spec fn clamped_exit(code: int) -> u8 {
    if code < 0 {
        0u8
    } else if code > 255 {
        255u8
    } else {
        code as u8
    }
}

/// The exit value owed for a child that reported `code`, or was ended by
/// `signal`, or neither: a reported code is clamped; a signal maps to
/// 128 plus the signal number, clamped; with neither the value is 1.
pub open spec fn exit_of_parts(code: Option<i32>, signal: Option<i32>) -> u8 {
    match code {
        Some(c) => clamped_exit(c as int),
        None => match signal {
            Some(s) => clamped_exit(128 + s as int),
            None => 1u8,
        },
    }
}

/// Convert a child process exit code to the range a process exit value
/// supports.
pub fn exit_code_from_i32(code: i32) -> (r: u8)
    ensures
        r == clamped_exit(code as int),
{
    if code < 0 {
        0
    } else if code > 255 {
        255
    } else {
        code as u8
    }
}

/// Derive this process's exit value from what the platform reports of a
/// finished child: a numeric exit code if one exists, otherwise the ending
/// signal if one exists, otherwise neither.
pub fn exit_code_from_parts(code: Option<i32>, signal: Option<i32>) -> (r: u8)
    ensures
        r == exit_of_parts(code, signal),
{
    match code {
        Some(c) => exit_code_from_i32(c),
        None => match signal {
            Some(s) => {
                let wide: i64 = 128 + (s as i64);
                if wide < 0 {
                    0
                } else if wide > 255 {
                    255
                } else {
                    wide as u8
                }
            },
            None => 1,
        },
    }
}

} // verus!
