//! Translation of native status codes into error kinds.

use vstd::prelude::*;

verus! {

pub const GP_OK: i32 = 0;
pub const GP_ERROR: i32 = -1;
pub const GP_ERROR_BAD_PARAMETERS: i32 = -2;
pub const GP_ERROR_NO_MEMORY: i32 = -3;
pub const GP_ERROR_LIBRARY: i32 = -4;
pub const GP_ERROR_UNKNOWN_PORT: i32 = -5;
pub const GP_ERROR_NOT_SUPPORTED: i32 = -6;
pub const GP_ERROR_IO: i32 = -7;
pub const GP_ERROR_FIXED_LIMIT_EXCEEDED: i32 = -8;
pub const GP_ERROR_TIMEOUT: i32 = -10;
pub const GP_ERROR_IO_SUPPORTED_SERIAL: i32 = -20;
pub const GP_ERROR_IO_SUPPORTED_USB: i32 = -21;
pub const GP_ERROR_IO_INIT: i32 = -31;
pub const GP_ERROR_IO_READ: i32 = -34;
pub const GP_ERROR_IO_WRITE: i32 = -35;
pub const GP_ERROR_IO_UPDATE: i32 = -37;
pub const GP_ERROR_IO_SERIAL_SPEED: i32 = -41;
pub const GP_ERROR_IO_USB_CLEAR_HALT: i32 = -51;
pub const GP_ERROR_IO_USB_FIND: i32 = -52;
pub const GP_ERROR_IO_USB_CLAIM: i32 = -53;
pub const GP_ERROR_IO_LOCK: i32 = -60;
pub const GP_ERROR_HAL: i32 = -70;
pub const GP_ERROR_CORRUPTED_DATA: i32 = -102;
pub const GP_ERROR_FILE_EXISTS: i32 = -103;
pub const GP_ERROR_MODEL_NOT_FOUND: i32 = -105;
pub const GP_ERROR_DIRECTORY_NOT_FOUND: i32 = -107;
pub const GP_ERROR_FILE_NOT_FOUND: i32 = -108;
pub const GP_ERROR_DIRECTORY_EXISTS: i32 = -109;
pub const GP_ERROR_CAMERA_BUSY: i32 = -110;
pub const GP_ERROR_PATH_NOT_ABSOLUTE: i32 = -111;
pub const GP_ERROR_CANCEL: i32 = -112;
pub const GP_ERROR_CAMERA_ERROR: i32 = -113;
pub const GP_ERROR_OS_FAILURE: i32 = -114;
pub const GP_ERROR_NO_SPACE: i32 = -115;

/// What went wrong, as far as a caller can act on it.
#[derive(Clone, Copy, Debug, PartialEq, Eq, Structural)]
pub enum ErrorKind {
    /// The device or its driver does not offer what was asked for.
    NotSupported,
    /// A value arrived but failed validation.
    CorruptedData,
    /// The device or the transport failed: busy, disconnected, rejected.
    DeviceError,
    /// A status the native layer does not define.
    Unknown,
}

/// A failed native call: the status it returned and the kind it falls under.
#[derive(Clone, Copy, Debug, PartialEq, Eq, Structural)]
pub struct Error {
    pub kind: ErrorKind,
    pub code: i32,
}

/// The failure statuses of the port layer, other than "not supported".
pub open spec fn is_port_failure(code: int) -> bool {
    ||| code == GP_ERROR
    ||| code == GP_ERROR_BAD_PARAMETERS
    ||| code == GP_ERROR_NO_MEMORY
    ||| code == GP_ERROR_LIBRARY
    ||| code == GP_ERROR_UNKNOWN_PORT
    ||| code == GP_ERROR_IO
    ||| code == GP_ERROR_FIXED_LIMIT_EXCEEDED
    ||| code == GP_ERROR_TIMEOUT
    ||| code == GP_ERROR_IO_SUPPORTED_SERIAL
    ||| code == GP_ERROR_IO_SUPPORTED_USB
    ||| code == GP_ERROR_IO_INIT
    ||| code == GP_ERROR_IO_READ
    ||| code == GP_ERROR_IO_WRITE
    ||| code == GP_ERROR_IO_UPDATE
    ||| code == GP_ERROR_IO_SERIAL_SPEED
    ||| code == GP_ERROR_IO_USB_CLEAR_HALT
    ||| code == GP_ERROR_IO_USB_FIND
    ||| code == GP_ERROR_IO_USB_CLAIM
    ||| code == GP_ERROR_IO_LOCK
    ||| code == GP_ERROR_HAL
}

/// The failure statuses of the camera layer, other than "corrupted data".
pub open spec fn is_camera_failure(code: int) -> bool {
    ||| code == GP_ERROR_FILE_EXISTS
    ||| code == GP_ERROR_MODEL_NOT_FOUND
    ||| code == GP_ERROR_DIRECTORY_NOT_FOUND
    ||| code == GP_ERROR_FILE_NOT_FOUND
    ||| code == GP_ERROR_DIRECTORY_EXISTS
    ||| code == GP_ERROR_CAMERA_BUSY
    ||| code == GP_ERROR_PATH_NOT_ABSOLUTE
    ||| code == GP_ERROR_CANCEL
    ||| code == GP_ERROR_CAMERA_ERROR
    ||| code == GP_ERROR_OS_FAILURE
    ||| code == GP_ERROR_NO_SPACE
}

/// The kind of a native status; `None` for success.
///
/// Only `GP_OK` is success. Every other status the native layer defines is
/// a device error, but for the two that have a kind of their own; what it
/// does not define is `Unknown`.
pub open spec fn kind_of(code: int) -> Option<ErrorKind> {
    if code == GP_OK {
        None
    } else if code == GP_ERROR_NOT_SUPPORTED {
        Some(ErrorKind::NotSupported)
    } else if code == GP_ERROR_CORRUPTED_DATA {
        Some(ErrorKind::CorruptedData)
    } else if is_port_failure(code) || is_camera_failure(code) {
        Some(ErrorKind::DeviceError)
    } else {
        Some(ErrorKind::Unknown)
    }
}

/// The outcome of a native call that returned `code`.
pub open spec fn outcome(code: int) -> Result<(), Error> {
    match kind_of(code) {
        None => Ok(()),
        Some(kind) => Err(Error { kind, code: code as i32 }),
    }
}

impl Error {
    /// An error carries a failing status and the kind of exactly that status.
    pub open spec fn wf(self) -> bool {
        kind_of(self.code as int) == Some(self.kind)
    }

    pub fn kind(&self) -> (kind: ErrorKind)
        ensures
            kind == self.kind,
    {
        self.kind
    }

    pub fn code(&self) -> (code: i32)
        ensures
            code == self.code,
    {
        self.code
    }

    /// The error for text that is not valid UTF-8.
    pub fn corrupted_data() -> (e: Error)
        ensures
            Err::<(), Error>(e) == outcome(GP_ERROR_CORRUPTED_DATA as int),
            e.kind == ErrorKind::CorruptedData,
            e.wf(),
    {
        Error { kind: ErrorKind::CorruptedData, code: GP_ERROR_CORRUPTED_DATA }
    }
}

/// Whether `code` is a failure that the native layer defines and that
/// has no kind of its own: by range first, then by the gaps in each range.
fn known_failure(code: i32) -> (known: bool)
    ensures
        known == (is_port_failure(code as int) || is_camera_failure(code as int)),
{
    if GP_ERROR_HAL <= code && code <= GP_ERROR {
        code >= GP_ERROR_UNKNOWN_PORT || code == GP_ERROR_IO || code
            == GP_ERROR_FIXED_LIMIT_EXCEEDED || code == GP_ERROR_TIMEOUT || code
            == GP_ERROR_IO_SUPPORTED_SERIAL || code == GP_ERROR_IO_SUPPORTED_USB || code
            == GP_ERROR_IO_INIT || code == GP_ERROR_IO_READ || code == GP_ERROR_IO_WRITE || code
            == GP_ERROR_IO_UPDATE || code == GP_ERROR_IO_SERIAL_SPEED || (GP_ERROR_IO_USB_CLAIM
            <= code && code <= GP_ERROR_IO_USB_CLEAR_HALT) || code == GP_ERROR_IO_LOCK || code
            == GP_ERROR_HAL
    } else if GP_ERROR_NO_SPACE <= code && code <= GP_ERROR_FILE_EXISTS {
        code == GP_ERROR_FILE_EXISTS || code == GP_ERROR_MODEL_NOT_FOUND || code
            <= GP_ERROR_DIRECTORY_NOT_FOUND
    } else {
        false
    }
}

/// Translates the status of a native call.
///
/// The mapping is total: every `i32` is either success or an error of
/// exactly one kind, and the error keeps the status it came from.
pub fn translate(code: i32) -> (r: Result<(), Error>)
    ensures
        r == outcome(code as int),
        r is Ok <==> code == GP_OK,
        r matches Err(e) ==> e.code == code && e.wf(),
{
    if code == GP_OK {
        Ok(())
    } else if code == GP_ERROR_NOT_SUPPORTED {
        Err(Error { kind: ErrorKind::NotSupported, code })
    } else if code == GP_ERROR_CORRUPTED_DATA {
        Err(Error { kind: ErrorKind::CorruptedData, code })
    } else if known_failure(code) {
        Err(Error { kind: ErrorKind::DeviceError, code })
    } else {
        Err(Error { kind: ErrorKind::Unknown, code })
    }
}

} // verus!
