//! Errors returned by this driver.

use vstd::prelude::*;

verus! {

/// Errors returned by this driver.
#[derive(Clone, Copy, Debug, PartialEq, Eq, Structural)]
pub enum GpioError {
    /// The underlying file is not a character device.
    NotCharDev,
    /// The descriptor of a GPIO chip is empty.
    EmptyChipDescriptor,
    /// The number of a GPIO line does not fit the offset field of a line-info record.
    InvalidLineNumber,
    /// A system call failed. The value is the error code of the operating system, as it
    /// was reported.
    Os(i32),
}

impl GpioError {
    /// The text that describes the error.
    pub open spec fn spec_message(self) -> Seq<char> {
        match self {
            GpioError::NotCharDev => "GPIO device is not a character device"@,
            GpioError::EmptyChipDescriptor => "Empty GPIO chip descriptor"@,
            GpioError::InvalidLineNumber => "Invalid GPIO line number"@,
            GpioError::Os(_) => "GPIO system call failed"@,
        }
    }

    /// The error as text. For [`GpioError::Os`] the text leaves the error code out: it is
    /// for the operating system to describe.
    pub fn to_string(&self) -> (text: String)
        ensures
            text@ == self.spec_message(),
    {
        match self {
            GpioError::NotCharDev => "GPIO device is not a character device".to_owned(),
            GpioError::EmptyChipDescriptor => "Empty GPIO chip descriptor".to_owned(),
            GpioError::InvalidLineNumber => "Invalid GPIO line number".to_owned(),
            GpioError::Os(_) => "GPIO system call failed".to_owned(),
        }
    }

    /// The kind of failure is that of an input that was refused before any system call
    /// was made.
    pub open spec fn spec_is_invalid_input(self) -> bool {
        self == GpioError::EmptyChipDescriptor || self == GpioError::InvalidLineNumber
    }

    /// Tell whether the error is that of an input that was refused before any system call
    /// was made.
    pub fn is_invalid_input(&self) -> (invalid: bool)
        ensures
            invalid == self.spec_is_invalid_input(),
    {
        match self {
            GpioError::EmptyChipDescriptor | GpioError::InvalidLineNumber => true,
            GpioError::NotCharDev | GpioError::Os(_) => false,
        }
    }

    /// The error code of the operating system, for a failed system call.
    pub fn raw_os_error(&self) -> (code: Option<i32>)
        ensures
            code == match *self {
                GpioError::Os(code) => Some(code),
                _ => None::<i32>,
            },
    {
        match self {
            GpioError::Os(code) => Some(*code),
            _ => None,
        }
    }
}

} // verus!
