use vstd::prelude::*;

verus! {

/// Kind of an I/O error, one variant for each kind that the embedded I/O
/// traits distinguish.
#[derive(Clone, Copy, Debug, PartialEq, Eq, Structural)]
pub enum ErrorKind {
    Other,
    NotFound,
    PermissionDenied,
    ConnectionRefused,
    ConnectionReset,
    ConnectionAborted,
    NotConnected,
    AddrInUse,
    AddrNotAvailable,
    BrokenPipe,
    AlreadyExists,
    InvalidInput,
    InvalidData,
    TimedOut,
    Interrupted,
    Unsupported,
    OutOfMemory,
    WriteZero,
}

/// Why a byte string is not a valid HCI value.
#[derive(Clone, Copy, Debug, PartialEq, Eq, Structural)]
pub enum HciBytesError {
    /// The input is shorter or longer than the value it should hold.
    InvalidSize,
    /// A byte of the input holds a value the format does not allow.
    InvalidValue,
}

/// HCI transport error.
#[derive(Clone, Copy, Debug, PartialEq, Eq, Structural)]
pub enum Error {
    /// I/O error.
    Io(ErrorKind),
}

/// The transport error that a malformed HCI value is reported as.
pub open spec fn error_of_hci_bytes(e: HciBytesError) -> Error {
    match e {
        HciBytesError::InvalidSize => Error::Io(ErrorKind::InvalidInput),
        HciBytesError::InvalidValue => Error::Io(ErrorKind::InvalidData),
    }
}

impl Error {
    /// The I/O error kind of this error.
    pub fn kind(&self) -> (r: ErrorKind)
        ensures
            *self == Error::Io(r),
    {
        match self {
            Error::Io(e) => *e,
        }
    }
}

impl From<HciBytesError> for Error {
    fn from(e: HciBytesError) -> (r: Self) {
        match e {
            HciBytesError::InvalidSize => Error::Io(ErrorKind::InvalidInput),
            HciBytesError::InvalidValue => Error::Io(ErrorKind::InvalidData),
        }
    }
}

impl vstd::std_specs::convert::FromSpecImpl<HciBytesError> for Error {
    open spec fn obeys_from_spec() -> bool {
        true
    }

    open spec fn from_spec(e: HciBytesError) -> Self {
        error_of_hci_bytes(e)
    }
}

} // verus!
