//! The failures of the bus: a missing capability, an error of the operating
//! system, an address out of range, each under the operation that met it.

use crate::func::Functionality;
use vstd::prelude::*;
use vstd::std_specs::convert::FromSpecImpl;
use vstd::string::*;

verus! {

/// The operating system's error type, carried through as it came.
#[verifier::external_type_specification]
#[verifier::external_body]
pub struct ExIoError(std::io::Error);

/// `std::io::Error::last_os_error` reads the calling thread's last error
/// number. Nothing is claimed of the value it returns.
pub assume_specification[ std::io::Error::last_os_error ]() -> (e: std::io::Error)
;

pub type I2cResult<T> = Result<T, I2cError>;

/// Why a request to the device did not go through.
#[derive(Debug)]
pub enum IoctlError {
    /// The adapter lacks the capability bits held here.
    FunctionalityError(Functionality),
    /// The operating system refused or failed the request.
    IoctlError(std::io::Error),
}

/// A failure of the bus, by the operation that met it.
#[derive(Debug)]
pub enum I2cError {
    FileError(std::io::Error),
    ReadError(IoctlError),
    WriteError(IoctlError),
    BufferError(IoctlError),
    IoctlError(IoctlError),
    AddressError,
}

/// The operation on whose behalf a transaction runs.
#[derive(Debug, Copy, Clone, Eq, PartialEq, Structural)]
pub enum I2cOperation {
    /// A read of one register.
    Read,
    /// A write to one register.
    Write,
    /// A batch that the caller built.
    Buffer,
}

impl From<Functionality> for IoctlError {
    fn from(arg: Functionality) -> (r: Self) {
        IoctlError::FunctionalityError(arg)
    }
}

impl FromSpecImpl<Functionality> for IoctlError {
    open spec fn obeys_from_spec() -> bool {
        true
    }

    open spec fn from_spec(arg: Functionality) -> Self {
        IoctlError::FunctionalityError(arg)
    }
}

impl From<std::io::Error> for IoctlError {
    fn from(arg: std::io::Error) -> (r: Self) {
        IoctlError::IoctlError(arg)
    }
}

impl FromSpecImpl<std::io::Error> for IoctlError {
    open spec fn obeys_from_spec() -> bool {
        true
    }

    open spec fn from_spec(arg: std::io::Error) -> Self {
        IoctlError::IoctlError(arg)
    }
}

impl From<IoctlError> for I2cError {
    fn from(arg: IoctlError) -> (r: Self) {
        I2cError::IoctlError(arg)
    }
}

impl FromSpecImpl<IoctlError> for I2cError {
    open spec fn obeys_from_spec() -> bool {
        true
    }

    open spec fn from_spec(arg: IoctlError) -> Self {
        I2cError::IoctlError(arg)
    }
}

impl IoctlError {
    /// The message of this error. For an error of the operating system it is
    /// the text that the error displays itself with.
    pub fn to_string(&self) -> (s: String)
        ensures
            self is FunctionalityError ==> s@ == "missing functionality required for ioctl call"@,
            self matches IoctlError::IoctlError(e) ==> to_string_from_display_ensures::<
                std::io::Error,
            >(&e, s),
    {
        match self {
            IoctlError::FunctionalityError(_) => String::from_str(
                "missing functionality required for ioctl call",
            ),
            IoctlError::IoctlError(e) => e.to_string(),
        }
    }
}

impl I2cOperation {
    /// The error that reports `cause` under this operation.
    pub open spec fn failure(self, cause: IoctlError) -> I2cError {
        match self {
            I2cOperation::Read => I2cError::ReadError(cause),
            I2cOperation::Write => I2cError::WriteError(cause),
            I2cOperation::Buffer => I2cError::BufferError(cause),
        }
    }

    /// Puts `cause` under this operation.
    pub fn wrap(self, cause: IoctlError) -> (r: I2cError)
        ensures
            r == self.failure(cause),
    {
        match self {
            I2cOperation::Read => I2cError::ReadError(cause),
            I2cOperation::Write => I2cError::WriteError(cause),
            I2cOperation::Buffer => I2cError::BufferError(cause),
        }
    }
}

impl I2cError {
    /// The fixed message of each kind of error that has one.
    pub open spec fn fixed_text(self) -> Seq<char> {
        match self {
            I2cError::FileError(_) => "failed to open i2c device"@,
            I2cError::ReadError(_) => "failed on i2c read request"@,
            I2cError::WriteError(_) => "failed on i2c write request"@,
            I2cError::BufferError(_) => "failed on i2c buffer execute"@,
            I2cError::IoctlError(_) => Seq::empty(),
            I2cError::AddressError => "address too long for supported address range"@,
        }
    }

    /// The message of this error. A bare request failure speaks with the
    /// message of the failure it holds.
    pub fn to_string(&self) -> (s: String)
        ensures
            !(self is IoctlError) ==> s@ == self.fixed_text(),
            self matches I2cError::IoctlError(IoctlError::FunctionalityError(_)) ==> s@
                == "missing functionality required for ioctl call"@,
            self matches I2cError::IoctlError(IoctlError::IoctlError(e))
                ==> to_string_from_display_ensures::<std::io::Error>(&e, s),
    {
        match self {
            I2cError::FileError(_) => String::from_str("failed to open i2c device"),
            I2cError::ReadError(_) => String::from_str("failed on i2c read request"),
            I2cError::WriteError(_) => String::from_str("failed on i2c write request"),
            I2cError::BufferError(_) => String::from_str("failed on i2c buffer execute"),
            I2cError::IoctlError(e) => e.to_string(),
            I2cError::AddressError => String::from_str(
                "address too long for supported address range",
            ),
        }
    }

    /// The request failure that a read, a write or a batch ran into.
    pub open spec fn cause(self) -> Option<IoctlError> {
        match self {
            I2cError::ReadError(e) => Some(e),
            I2cError::WriteError(e) => Some(e),
            I2cError::BufferError(e) => Some(e),
            _ => None,
        }
    }

    /// The request failure under a read, write or batch error, and `None`
    /// for every other kind.
    pub fn ioctl_error(&self) -> (r: Option<&IoctlError>)
        ensures
            match self.cause() {
                Some(e) => r == Some(&e),
                None => r is None,
            },
    {
        match self {
            I2cError::ReadError(e) => Some(e),
            I2cError::WriteError(e) => Some(e),
            I2cError::BufferError(e) => Some(e),
            _ => None,
        }
    }
}

} // verus!
