//! Errors of timer operations.
use vstd::prelude::*;

verus! {

/// Why a timer operation failed.
#[derive(Clone, Copy, Debug, PartialEq, Eq, Structural)]
pub enum Error {
    /// An error that goes by the system's own error code.
    Os(i32),
    /// There is nothing to read yet.
    WouldBlock,
}

/// The error of an invalid argument.
pub open spec fn invalid_argument() -> Error {
    Error::Os(22)
}

/// `libc::EINVAL`, the code of an invalid argument: 22 on Linux, on the BSDs, on the Apple
/// systems and on Windows alike.
#[verifier::external_body]
pub(crate) fn einval() -> (code: i32)
    ensures
        code == 22,
{
    libc::EINVAL
}

/// Tells the outcome of a system call that reports failure by returning -1. `os_error` is the
/// calling thread's error code after the call.
pub fn call_result(ret: i32, os_error: i32) -> (result: Result<i32, Error>)
    ensures
        ret == -1 ==> result == Err::<i32, Error>(Error::Os(os_error)),
        ret != -1 ==> result == Ok::<i32, Error>(ret),
{
    if ret == -1 {
        Err(Error::Os(os_error))
    } else {
        Ok(ret)
    }
}

/// An invalid argument goes by the system's code 22.
pub proof fn law_invalid_argument_code()
    ensures
        invalid_argument() == Error::Os(22),
{
}

} // verus!
