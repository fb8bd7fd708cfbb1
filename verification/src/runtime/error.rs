//! Errors of the asynchronous runtime.

use vstd::prelude::*;

use crate::driver::error::DriverError;

verus! {

/// What can go wrong between scheduling an operation and its result.
#[derive(Debug)]
pub enum DeviceError {
    /// The runtime was used out of order.
    Internal(String),
    /// The driver refused a call.
    Driver(DriverError),
}

/// Whether `error` is an internal error with this message.
pub open spec fn is_internal(error: DeviceError, message: Seq<char>) -> bool {
    error is Internal && error->Internal_0@ == message
}

/// An internal error with the given message.
pub fn internal(message: &str) -> (error: DeviceError)
    ensures
        is_internal(error, message@),
{
    DeviceError::Internal(String::from_str(message))
}

} // verus!
