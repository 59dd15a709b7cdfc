use vstd::prelude::*;

verus! {

/// `std::io::Error`, carried opaquely inside `GearError::IOError`.
#[verifier::external_type_specification]
#[verifier::external_body]
pub struct ExIoError(std::io::Error);

/// `laminar::ErrorKind`, carried opaquely inside `GearError::NetworkError`.
#[verifier::external_type_specification]
#[verifier::external_body]
pub struct ExNetworkErrorKind(laminar::ErrorKind);

/// The fixed-capacity GPU buffer whose staged contents would overflow.
#[derive(Clone, Copy, Debug, PartialEq, Eq, Structural)]
pub enum StagingKind {
    Vertex,
    Index,
    Uniform,
}

/// Every error the engine reports.
#[derive(Debug)]
pub enum GearError {
    /// Reading or writing outside the process failed.
    IOError(std::io::Error),
    /// The network socket reported an error.
    NetworkError(laminar::ErrorKind),
    /// A content file could not be opened.
    OpenFileFailed,
    /// A content file is malformed.
    ParseFileFailed,
    /// Loading failed for a reason the loader does not name.
    Unknown,
    /// No graphics adapter is compatible with the window surface.
    AdapterUnavailable,
    /// The adapter refused to hand out a device and queue.
    DeviceRequestFailed,
    /// No frame could be acquired, even after recreating the swapchain once.
    SwapchainUnavailable,
    /// A draw would stage more data than the named GPU buffer holds.
    StagingCapacityExceeded(StagingKind),
}

/// The outcome of an engine operation.
pub type Result<T> = core::result::Result<T, GearError>;

/// The error for an OBJ parse failure, given the failing variant's position
/// in the declaration of `tobj::LoadError`: opening the file, then twelve
/// kinds of malformed content, then an invalid option set and a generic
/// failure.
pub open spec fn obj_error(code: u8) -> GearError {
    if code == 0 {
        GearError::OpenFileFailed
    } else if code <= 13 {
        GearError::ParseFileFailed
    } else {
        GearError::Unknown
    }
}

impl GearError {
    /// Maps an OBJ parse failure, given as its variant's position in
    /// `tobj::LoadError`, to the engine's error.
    pub fn from_obj_code(code: u8) -> (r: GearError)
        ensures
            r == obj_error(code),
    {
        if code == 0 {
            GearError::OpenFileFailed
        } else if code <= 13 {
            GearError::ParseFileFailed
        } else {
            GearError::Unknown
        }
    }
}

} // verus!
