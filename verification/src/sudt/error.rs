use vstd::prelude::*;

verus! {

/// The ways in which the sUDT type script rejects a transaction.
#[derive(PartialEq, Eq, Debug, Clone, Copy)]
pub enum Error {
    IndexOutOfBound,
    ItemMissing,
    LengthNotEnough,
    Encoding,
    Amount,
}

/// The exit code with which the script reports `e`.
pub open spec fn error_code(e: Error) -> i8 {
    match e {
        Error::IndexOutOfBound => 1,
        Error::ItemMissing => 2,
        Error::LengthNotEnough => 3,
        Error::Encoding => 4,
        Error::Amount => 5,
    }
}

/// The exit code of a run of the script that ended with `result`:
/// zero on success, the error's code otherwise.
pub open spec fn result_code(result: Result<(), Error>) -> i8 {
    match result {
        Ok(()) => 0,
        Err(e) => error_code(e),
    }
}

/// Turns the outcome of the script into its exit code.
pub fn exit_code(result: Result<(), Error>) -> (code: i8)
    ensures
        code == result_code(result),
{
    match result {
        Ok(()) => 0,
        Err(Error::IndexOutOfBound) => 1,
        Err(Error::ItemMissing) => 2,
        Err(Error::LengthNotEnough) => 3,
        Err(Error::Encoding) => 4,
        Err(Error::Amount) => 5,
    }
}

} // verus!
