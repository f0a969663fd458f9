//! Plain values that cross the boundary to the native engine: what the
//! library asks of it and what it answers.

use vstd::prelude::*;

verus! {

// The engine's status codes, numbered in the order of its enumeration. A
// code that is not listed here is one that the engine added later; it is
// passed on as it is and described as an unknown error.

/// The status code with which the engine reports success.
pub const STATUS_SUCCESS: u32 = 0;

pub const STATUS_INSUFFICIENT_MEMORY: u32 = 1;

pub const STATUS_CORRUPT_DATA: u32 = 2;

pub const STATUS_INCORRECT_VERSION: u32 = 3;

pub const STATUS_FILE_NOT_FOUND: u32 = 4;

pub const STATUS_FILE_BUSY: u32 = 5;

pub const STATUS_FILE_FAILURE: u32 = 6;

pub const STATUS_NOT_SET: u32 = 7;

pub const STATUS_POINTER_OUT_OF_BOUNDS: u32 = 8;

pub const STATUS_NULL_POINTER: u32 = 9;

pub const STATUS_TOO_MANY_OPEN_FILES: u32 = 10;

pub const STATUS_REQ_PROP_NOT_PRESENT: u32 = 11;

pub const STATUS_PROFILE_EMPTY: u32 = 12;

pub const STATUS_COLLECTION_FAILURE: u32 = 13;

pub const STATUS_FILE_COPY_ERROR: u32 = 14;

pub const STATUS_FILE_EXISTS_ERROR: u32 = 15;

pub const STATUS_FILE_WRITE_ERROR: u32 = 16;

pub const STATUS_FILE_READ_ERROR: u32 = 17;

pub const STATUS_FILE_PERMISSION_DENIED: u32 = 18;

pub const STATUS_FILE_PATH_TOO_LONG: u32 = 19;

pub const STATUS_FILE_END_OF_DOCUMENT: u32 = 20;

pub const STATUS_FILE_END_OF_DOCUMENTS: u32 = 21;

pub const STATUS_FILE_END_OF_FILE: u32 = 22;

pub const STATUS_ENCODING_ERROR: u32 = 23;

pub const STATUS_INVALID_COLLECTION_CONFIG: u32 = 24;

pub const STATUS_INVALID_CONFIG: u32 = 25;

pub const STATUS_INSUFFICIENT_HANDLES: u32 = 26;

pub const STATUS_COLLECTION_INDEX_OUT_OF_RANGE: u32 = 27;

pub const STATUS_COLLECTION_OFFSET_OUT_OF_RANGE: u32 = 28;

pub const STATUS_COLLECTION_FILE_SEEK_FAIL: u32 = 29;

pub const STATUS_COLLECTION_FILE_READ_FAIL: u32 = 30;

pub const STATUS_INCORRECT_IP_ADDRESS_FORMAT: u32 = 31;

pub const STATUS_TEMP_FILE_ERROR: u32 = 32;

/// What the engine left in its exception out-parameter: a status code and,
/// where it set one, the bytes of its message up to the terminator.
#[derive(Debug, Clone, PartialEq, Eq)]
pub struct EngineException {
    pub status: u32,
    pub message: Option<Vec<u8>>,
}

/// One call that a detection asks the engine to perform.
#[derive(Debug, Clone, Copy, PartialEq, Eq)]
pub enum EngineCall {
    /// Allocate an evidence collection for exactly `capacity` entries.
    CreateEvidence { capacity: u32 },
    /// Register, as an HTTP header, the encoded pair at `index` of the
    /// detection's evidence.
    AddEvidence { index: usize },
    /// Allocate a result resource on the manager.
    CreateResults { capacity: u32, overrides: u32 },
    /// Apply the evidence collection to the result resource.
    ApplyEvidence,
}

/// What the engine answered to one call. `handle` says whether the pointer it
/// returned was non-null; `exception` is `None` where the call left no
/// exception behind.
#[derive(Debug, Clone, PartialEq, Eq)]
pub struct EngineReply {
    pub handle: bool,
    pub exception: Option<EngineException>,
}

/// What the engine answered to the loading of a dataset.
#[derive(Debug, Clone, PartialEq, Eq)]
pub struct LoadReply {
    pub status: u32,
    pub exception: Option<EngineException>,
}

/// What the engine answered to the reading of one property: the length the
/// rendered value needs, the buffer as the engine left it, and the exception.
#[derive(Debug, Clone, PartialEq, Eq)]
pub struct ValueReply {
    pub required_len: usize,
    pub buffer: Vec<u8>,
    pub exception: Option<EngineException>,
}

/// What the host's file system says of the dataset path.
#[derive(Debug, Clone, PartialEq, Eq)]
pub struct DataFileProbe {
    pub exists: bool,
    pub is_file: bool,
    pub canonical: CanonicalPath,
}

/// The outcome of canonicalizing the dataset path.
#[derive(Debug, Clone, PartialEq, Eq)]
pub enum CanonicalPath {
    /// The absolute path, as text.
    Resolved(String),
    /// The path was resolved but is not valid Unicode.
    NotUnicode,
    /// The host failed to resolve it; the text is the host's cause.
    Failed(String),
}

} // verus!
