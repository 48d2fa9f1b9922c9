//! Kernel error codes and the conversion of results into the integers that C callers see.

use vstd::prelude::*;

verus! {

/// The largest error number a kernel error can carry.
pub const MAX_ERRNO: i32 = 4095;

/// The error number of `EINVAL` (invalid argument).
pub const EINVAL: i32 = 22;

/// A kernel error: a negative error number in `-MAX_ERRNO..=-1`.
#[derive(PartialEq, Eq, Structural, Clone, Copy, Debug)]
pub struct Error {
    errno: i32,
}

impl Error {
    /// Holds for every `Error` value: the number lies in `-MAX_ERRNO..=-1`.
    #[verifier::type_invariant]
    spec fn inv(self) -> bool {
        -MAX_ERRNO <= self.errno <= -1
    }

    /// The (negative) error number carried by this error.
    pub closed spec fn errno(self) -> int {
        self.errno as int
    }

    /// The error `EINVAL`.
    pub fn einval() -> (e: Error)
        ensures
            e.errno() == -EINVAL,
    {
        Error { errno: -EINVAL }
    }

    /// Builds an error from a C error number; a number that is not a valid
    /// negative error number becomes `EINVAL`.
    pub fn from_kernel_errno(errno: i32) -> (e: Error)
        ensures
            e.errno() == errno_from_kernel(errno),
    {
        if -MAX_ERRNO <= errno && errno <= -1 {
            Error { errno }
        } else {
            Error::einval()
        }
    }

    /// The negative error number handed back to C.
    pub fn to_kernel_errno(&self) -> (r: i32)
        ensures
            r == self.errno(),
            is_valid_errno(r as int),
    {
        proof {
            use_type_invariant(self);
        }
        self.errno
    }
}

/// Whether `errno` is a valid negative error number.
pub open spec fn is_valid_errno(errno: int) -> bool {
    -MAX_ERRNO <= errno <= -1
}

/// The error number of the error built from the C error number `errno`.
pub open spec fn errno_from_kernel(errno: i32) -> int {
    if is_valid_errno(errno as int) {
        errno as int
    } else {
        -EINVAL
    }
}

/// An error handed to C and built back from the number C saw is the same error.
pub proof fn lemma_errno_round_trip(e: Error)
    requires
        is_valid_errno(e.errno()),
    ensures
        errno_from_kernel(e.errno() as i32) == e.errno(),
{
}

/// What a C caller sees for a result whose value is an `int`: the value on
/// success, the negative error number on failure.
pub open spec fn kernel_int_of(r: Result<i32, Error>) -> int {
    match r {
        Ok(v) => v as int,
        Err(e) => e.errno(),
    }
}

/// What a C caller sees for a result whose value is a `u64`: the value on
/// success, the negative error number in two's complement on failure.
pub open spec fn kernel_u64_of(r: Result<u64, Error>) -> int {
    match r {
        Ok(v) => v as int,
        Err(e) => e.errno() + 0x1_0000_0000_0000_0000int,
    }
}

/// Converts a result into the `int` returned to C.
pub fn from_kernel_result(r: Result<i32, Error>) -> (v: i32)
    ensures
        v == kernel_int_of(r),
        r is Err ==> is_valid_errno(v as int),
{
    match r {
        Ok(v) => v,
        Err(e) => e.to_kernel_errno(),
    }
}

/// Converts a result into the `u64` returned to C; an error appears as its
/// negative number, sign-extended.
pub fn from_kernel_result_u64(r: Result<u64, Error>) -> (v: u64)
    ensures
        v == kernel_u64_of(r),
        r is Err ==> v >= 0x1_0000_0000_0000_0000int - MAX_ERRNO,
{
    match r {
        Ok(v) => v,
        Err(e) => {
            let n = e.to_kernel_errno();
            let magnitude: u64 = (0 - n) as u64;
            u64::MAX - magnitude + 1
        },
    }
}

} // verus!
