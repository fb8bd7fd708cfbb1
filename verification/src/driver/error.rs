//! Driver status codes and their conversion into results.

use vstd::prelude::*;

use crate::text::{decimal, push_decimal};

verus! {

/// The status of a call that succeeded.
pub const CUDA_SUCCESS: u32 = 0;

/// The status of a call with an argument out of range.
pub const CUDA_ERROR_INVALID_VALUE: u32 = 1;

/// A driver error: the status code of a call that did not succeed.
///
/// The code is public so that callers can match on particular errors.
#[derive(Clone, Copy, Debug, PartialEq, Eq, Structural)]
pub struct DriverError(pub u32);

/// The result that a status code stands for, where the call's value is
/// `value`.
pub open spec fn status_result<T>(code: u32, value: T) -> Result<T, DriverError> {
    if code == CUDA_SUCCESS {
        Ok(value)
    } else {
        Err(DriverError(code))
    }
}

/// A raw return value of the driver that can be turned into a `Result`.
///
/// Implemented for a bare status code, and for a status code with the value
/// that the call stored.
pub trait IntoResult<T>: Sized {
    /// The status code.
    spec fn status(self) -> u32;

    /// The value, which counts only where the call succeeded.
    spec fn value(self) -> T;

    /// `Ok` of the value where the status is success, else the error.
    fn result(self) -> (r: Result<T, DriverError>)
        ensures
            r == status_result(self.status(), self.value()),
    ;
}

impl IntoResult<()> for u32 {
    open spec fn status(self) -> u32 {
        self
    }

    open spec fn value(self) -> () {
        ()
    }

    fn result(self) -> (r: Result<(), DriverError>) {
        if self == CUDA_SUCCESS {
            Ok(())
        } else {
            Err(DriverError(self))
        }
    }
}

impl<T> IntoResult<T> for (u32, T) {
    open spec fn status(self) -> u32 {
        self.0
    }

    open spec fn value(self) -> T {
        self.1
    }

    fn result(self) -> (r: Result<T, DriverError>) {
        if self.0 == CUDA_SUCCESS {
            Ok(self.1)
        } else {
            Err(DriverError(self.0))
        }
    }
}

/// How a driver error reads. `quoted` is the driver's description of the
/// code, in quotes, or `None` where the driver has none to give.
pub open spec fn driver_error_text(code: u32, quoted: Option<Seq<char>>) -> Seq<char> {
    "DriverError("@ + decimal(code as nat) + ", "@ + (match quoted {
        Some(text) => text,
        None => "\"<cuGetErrorString failed>\""@,
    }) + ")"@
}

impl DriverError {
    /// The symbolic name of this error code, as bytes.
    ///
    /// `get_error_name` is `cuGetErrorName`. Fails where the driver does not
    /// know the code.
    pub fn error_name<F: Fn(u32) -> (u32, Vec<u8>)>(&self, get_error_name: F) -> (r: Result<
        Vec<u8>,
        DriverError,
    >)
        requires
            call_requires(get_error_name, (self.0,)),
        ensures
            exists|out: (u32, Vec<u8>)|
                #[trigger] call_ensures(get_error_name, (self.0,), out) && r == status_result(
                    out.0,
                    out.1,
                ),
    {
        get_error_name(self.0).result()
    }

    /// A description of this error code, as bytes.
    ///
    /// `get_error_string` is `cuGetErrorString`. Fails where the driver does
    /// not know the code.
    pub fn error_string<F: Fn(u32) -> (u32, Vec<u8>)>(&self, get_error_string: F) -> (r: Result<
        Vec<u8>,
        DriverError,
    >)
        requires
            call_requires(get_error_string, (self.0,)),
        ensures
            exists|out: (u32, Vec<u8>)|
                #[trigger] call_ensures(get_error_string, (self.0,), out) && r == status_result(
                    out.0,
                    out.1,
                ),
    {
        get_error_string(self.0).result()
    }

    /// The text shown for this error, for `Display` and `Debug` alike.
    ///
    /// `quoted` is what `cuGetErrorString` says of the code, in quotes, or
    /// `None` where that call itself fails.
    pub fn message(&self, quoted: Option<&str>) -> (text: String)
        ensures
            text@ == driver_error_text(
                self.0,
                match quoted {
                    Some(q) => Some(q@),
                    None => None,
                },
            ),
    {
        let mut text = String::from_str("DriverError(");
        push_decimal(&mut text, self.0 as u64);
        text.append(", ");
        match quoted {
            Some(q) => text.append(q),
            None => text.append("\"<cuGetErrorString failed>\""),
        }
        text.append(")");
        text
    }
}

} // verus!
