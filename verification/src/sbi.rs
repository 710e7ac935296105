//! Result of a call into the supervisor binary interface.

use vstd::prelude::*;

verus! {

/// The error that a supervisor call came back with.
#[derive(Clone, Copy, PartialEq, Eq, Structural, Debug)]
pub struct SBIError {
    /// The error code, never 0.
    pub errc: isize,
}

/// Reads the two registers that a supervisor call leaves behind: an error
/// code of 0 means that `value` is the result, any other is the error.
pub fn sbi_result(error: isize, value: isize) -> (r: Result<isize, SBIError>)
    ensures
        error == 0 ==> r == Ok::<isize, SBIError>(value),
        error != 0 ==> r == Err::<isize, SBIError>(SBIError { errc: error }),
{
    if error == 0 {
        Ok(value)
    } else {
        Err(SBIError { errc: error })
    }
}

} // verus!
