use vstd::prelude::*;

verus! {

/// Status code the native driver returns on success.
pub const ESP_OK: i32 = 0;

/// Generic failure code; on an I2C transfer it means that no device answered.
pub const ESP_FAIL: i32 = -1;

/// The native layer ran out of memory or of queue slots.
pub const ESP_ERR_NO_MEM: i32 = 0x101;

/// The native layer rejected an argument.
pub const ESP_ERR_INVALID_ARG: i32 = 0x102;

/// The classes of failure a transfer or a construction can report.
#[derive(PartialEq, Eq, Structural, Clone, Copy, Debug)]
pub enum ErrorKind {
    NoAcknowledge,
    InvalidArgument,
    ResourceExhausted,
    Other,
}

/// A failure reported by the native layer, or found by the library before calling it.
#[derive(PartialEq, Eq, Structural, Clone, Copy, Debug)]
pub struct I2cError {
    pub code: i32,
}

/// The class a native status code falls under.
pub open spec fn kind_of(code: i32) -> ErrorKind {
    if code == ESP_FAIL {
        ErrorKind::NoAcknowledge
    } else if code == ESP_ERR_INVALID_ARG {
        ErrorKind::InvalidArgument
    } else if code == ESP_ERR_NO_MEM {
        ErrorKind::ResourceExhausted
    } else {
        ErrorKind::Other
    }
}

/// What a native status code means as a result: success on `ESP_OK`, else the code as an error.
pub open spec fn result_of(code: i32) -> Result<(), I2cError> {
    if code == ESP_OK {
        Ok(())
    } else {
        Err(I2cError { code })
    }
}

impl I2cError {
    /// The error that carries the given native code.
    pub fn from_code(code: i32) -> (r: I2cError)
        ensures
            r.code == code,
    {
        I2cError { code }
    }

    pub open spec fn invalid_argument_spec() -> I2cError {
        I2cError { code: ESP_ERR_INVALID_ARG }
    }

    /// The error the library reports for a configuration it refuses.
    pub fn invalid_argument() -> (r: I2cError)
        ensures
            r == Self::invalid_argument_spec(),
            kind_of(r.code) == ErrorKind::InvalidArgument,
    {
        I2cError { code: ESP_ERR_INVALID_ARG }
    }

    /// The native code carried by this error.
    pub fn code(&self) -> (r: i32)
        ensures
            r == self.code,
    {
        self.code
    }

    /// The class of this error: `NoAcknowledge` for the generic failure code.
    pub fn kind(&self) -> (r: ErrorKind)
        ensures
            r == kind_of(self.code),
    {
        if self.code == ESP_FAIL {
            ErrorKind::NoAcknowledge
        } else if self.code == ESP_ERR_INVALID_ARG {
            ErrorKind::InvalidArgument
        } else if self.code == ESP_ERR_NO_MEM {
            ErrorKind::ResourceExhausted
        } else {
            ErrorKind::Other
        }
    }
}

/// Turns a native status code into a result.
pub fn check(code: i32) -> (r: Result<(), I2cError>)
    ensures
        r == result_of(code),
{
    if code == ESP_OK {
        Ok(())
    } else {
        Err(I2cError { code })
    }
}

} // verus!
