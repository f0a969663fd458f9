//! The error taxonomy, the reading of engine status codes and exceptions,
//! and the encoding and decoding of null-terminated strings.

use crate::engine::{
    EngineException, STATUS_SUCCESS, STATUS_INSUFFICIENT_MEMORY, STATUS_CORRUPT_DATA, STATUS_INCORRECT_VERSION, STATUS_FILE_NOT_FOUND, STATUS_FILE_BUSY, STATUS_FILE_FAILURE, STATUS_NOT_SET, STATUS_POINTER_OUT_OF_BOUNDS, STATUS_NULL_POINTER, STATUS_TOO_MANY_OPEN_FILES, STATUS_REQ_PROP_NOT_PRESENT, STATUS_PROFILE_EMPTY, STATUS_COLLECTION_FAILURE, STATUS_FILE_COPY_ERROR, STATUS_FILE_EXISTS_ERROR, STATUS_FILE_WRITE_ERROR, STATUS_FILE_READ_ERROR, STATUS_FILE_PERMISSION_DENIED, STATUS_FILE_PATH_TOO_LONG, STATUS_FILE_END_OF_DOCUMENT, STATUS_FILE_END_OF_DOCUMENTS, STATUS_FILE_END_OF_FILE, STATUS_ENCODING_ERROR, STATUS_INVALID_COLLECTION_CONFIG, STATUS_INVALID_CONFIG, STATUS_INSUFFICIENT_HANDLES, STATUS_COLLECTION_INDEX_OUT_OF_RANGE, STATUS_COLLECTION_OFFSET_OUT_OF_RANGE, STATUS_COLLECTION_FILE_SEEK_FAIL, STATUS_COLLECTION_FILE_READ_FAIL, STATUS_INCORRECT_IP_ADDRESS_FORMAT, STATUS_TEMP_FILE_ERROR,
};
use vstd::prelude::*;
use vstd::utf8::*;

verus! {

/// What a string was being encoded for when the encoding failed.
#[derive(Debug, Clone, Copy, PartialEq, Eq)]
pub enum CStringKind {
    FilePath,
    EvidenceKey,
    EvidenceValue,
    PropertyName,
    HashResultSeparator,
}

/// The operation during which an error arose.
#[derive(Debug, Clone, Copy, PartialEq, Eq)]
pub enum Operation {
    ReadDataFile,
    InitManager,
    CreateEvidence,
    ApplyEvidence,
    ReadProperty,
}

/// Why a dataset path was refused.
#[derive(Debug, Clone, Copy, PartialEq, Eq)]
pub enum ReadFileError {
    NotExists,
    IsNotFile,
}

impl ReadFileError {
    pub open spec fn text(self) -> Seq<char> {
        match self {
            ReadFileError::NotExists => "file does not exist"@,
            ReadFileError::IsNotFile => "is not a file"@,
        }
    }

    /// The sentence that describes this refusal.
    pub fn as_str(&self) -> (r: &'static str)
        ensures
            r@ == self.text(),
    {
        match self {
            ReadFileError::NotExists => "file does not exist",
            ReadFileError::IsNotFile => "is not a file",
        }
    }
}

/// Every failure this library reports. Each is final for the call that
/// returned it.
#[derive(Debug, Clone, PartialEq, Eq)]
pub enum FiftyOneDegreesError {
    /// A string holds a zero byte and has no null-terminated form.
    CStringCreationError(CStringKind),
    /// The engine reported a status other than success: the operation, the
    /// code, its description, and the engine's own message.
    InternalApiError(Operation, u32, &'static str, String),
    /// The engine returned a null handle or asked for more room than the
    /// buffer has.
    UnsafeOperationError(String),
    /// The caller broke a precondition that is checked before any engine call.
    AssertionError(Operation, &'static str),
    /// The host failed to resolve the dataset path.
    IOError(&'static str, Option<String>),
}

/// The mathematical value of a [`FiftyOneDegreesError`].
pub enum ErrorModel {
    CStringCreation(CStringKind),
    InternalApi(Operation, u32, Seq<char>, Seq<char>),
    UnsafeOperation(Seq<char>),
    Assertion(Operation, Seq<char>),
    IO(Seq<char>, Option<Seq<char>>),
}

impl View for FiftyOneDegreesError {
    type V = ErrorModel;

    open spec fn view(&self) -> ErrorModel {
        match self {
            FiftyOneDegreesError::CStringCreationError(k) => ErrorModel::CStringCreation(*k),
            FiftyOneDegreesError::InternalApiError(op, code, desc, msg) => ErrorModel::InternalApi(
                *op,
                *code,
                desc@,
                msg@,
            ),
            FiftyOneDegreesError::UnsafeOperationError(msg) => ErrorModel::UnsafeOperation(msg@),
            FiftyOneDegreesError::AssertionError(op, msg) => ErrorModel::Assertion(*op, msg@),
            FiftyOneDegreesError::IOError(context, cause) => ErrorModel::IO(
                context@,
                match cause {
                    Some(c) => Some(c@),
                    None => None,
                },
            ),
        }
    }
}

pub type FiftyOneDegreesResult<T> = Result<T, FiftyOneDegreesError>;

impl FiftyOneDegreesError {
    /// The precondition error for a dataset path that was refused.
    pub fn new_read_file_assertion_error(error: &'static ReadFileError) -> (r: Self)
        ensures
            r@ == ErrorModel::Assertion(Operation::ReadDataFile, error.text()),
    {
        FiftyOneDegreesError::AssertionError(Operation::ReadDataFile, error.as_str())
    }
}

/// The description of each status code the engine defines; any other code is
/// an unknown error.
pub open spec fn status_description(status: u32) -> Seq<char> {
    match status {
        0 => "Success"@,
        1 => "Lack of memory"@,
        2 => "Corrupt data"@,
        3 => "Incorrect version"@,
        4 => "File not found"@,
        5 => "File busy"@,
        6 => "File failure"@,
        7 => "Not set (should never be returned)"@,
        8 => "Pointer out of bounds"@,
        9 => "Null pointer"@,
        10 => "Too many open files"@,
        11 => "Required property not present"@,
        12 => "Profile is empty"@,
        13 => "Collection failure"@,
        14 => "File copy error"@,
        15 => "File exists error"@,
        16 => "File write error"@,
        17 => "File read error"@,
        18 => "File permission denied"@,
        19 => "File path too long"@,
        20 => "File end of document"@,
        21 => "File end of documents"@,
        22 => "File end of file"@,
        23 => "Encoding error"@,
        24 => "Invalid collection config"@,
        25 => "Invalid config"@,
        26 => "Insufficient handles"@,
        27 => "Collection index out of range"@,
        28 => "Collection offset out of range"@,
        29 => "Collection file seek fail"@,
        30 => "Collection file read fail"@,
        31 => "Incorrect IP address format"@,
        32 => "Temp file error"@,
        _ => "Unknown error"@,
    }
}

/// Describes an engine status code in words.
pub fn status_to_error_message(status: u32) -> (r: &'static str)
    ensures
        r@ == status_description(status),
{
    match status {
        STATUS_SUCCESS => "Success",
        STATUS_INSUFFICIENT_MEMORY => "Lack of memory",
        STATUS_CORRUPT_DATA => "Corrupt data",
        STATUS_INCORRECT_VERSION => "Incorrect version",
        STATUS_FILE_NOT_FOUND => "File not found",
        STATUS_FILE_BUSY => "File busy",
        STATUS_FILE_FAILURE => "File failure",
        STATUS_NOT_SET => "Not set (should never be returned)",
        STATUS_POINTER_OUT_OF_BOUNDS => "Pointer out of bounds",
        STATUS_NULL_POINTER => "Null pointer",
        STATUS_TOO_MANY_OPEN_FILES => "Too many open files",
        STATUS_REQ_PROP_NOT_PRESENT => "Required property not present",
        STATUS_PROFILE_EMPTY => "Profile is empty",
        STATUS_COLLECTION_FAILURE => "Collection failure",
        STATUS_FILE_COPY_ERROR => "File copy error",
        STATUS_FILE_EXISTS_ERROR => "File exists error",
        STATUS_FILE_WRITE_ERROR => "File write error",
        STATUS_FILE_READ_ERROR => "File read error",
        STATUS_FILE_PERMISSION_DENIED => "File permission denied",
        STATUS_FILE_PATH_TOO_LONG => "File path too long",
        STATUS_FILE_END_OF_DOCUMENT => "File end of document",
        STATUS_FILE_END_OF_DOCUMENTS => "File end of documents",
        STATUS_FILE_END_OF_FILE => "File end of file",
        STATUS_ENCODING_ERROR => "Encoding error",
        STATUS_INVALID_COLLECTION_CONFIG => "Invalid collection config",
        STATUS_INVALID_CONFIG => "Invalid config",
        STATUS_INSUFFICIENT_HANDLES => "Insufficient handles",
        STATUS_COLLECTION_INDEX_OUT_OF_RANGE => "Collection index out of range",
        STATUS_COLLECTION_OFFSET_OUT_OF_RANGE => "Collection offset out of range",
        STATUS_COLLECTION_FILE_SEEK_FAIL => "Collection file seek fail",
        STATUS_COLLECTION_FILE_READ_FAIL => "Collection file read fail",
        STATUS_INCORRECT_IP_ADDRESS_FORMAT => "Incorrect IP address format",
        STATUS_TEMP_FILE_ERROR => "Temp file error",
        _ => "Unknown error",
    }
}

/// Whether a byte string holds a zero byte.
pub open spec fn has_nul(bytes: Seq<u8>) -> bool {
    exists|i: int| 0 <= i < bytes.len() && bytes[i] == 0u8
}

/// A scalar's encoding holds a zero byte only where the scalar is zero.
proof fn lemma_scalar_has_nul(c: u32)
    ensures
        has_nul(encode_scalar(c)) <==> c == 0,
{
    let e = encode_scalar(c);
    assert(c <= 0x7F ==> (((c & 0x7F) as u8 == 0u8) <==> c == 0)) by (bit_vector);
    assert(0xC0u8 | ((c >> 6) & 0x1F) as u8 != 0u8) by (bit_vector);
    assert(0xE0u8 | ((c >> 12) & 0x0F) as u8 != 0u8) by (bit_vector);
    assert(0xF0u8 | ((c >> 18) & 0x7) as u8 != 0u8) by (bit_vector);
    assert(0x80u8 | (c & 0x3F) as u8 != 0u8) by (bit_vector);
    assert(0x80u8 | ((c >> 6) & 0x3F) as u8 != 0u8) by (bit_vector);
    assert(0x80u8 | ((c >> 12) & 0x3F) as u8 != 0u8) by (bit_vector);
    if c == 0 {
        assert(e[0] == 0u8);
    }
}

/// A text has a zero byte among its bytes exactly when it holds the null
/// character.
pub proof fn lemma_nul_byte_is_nul_char(text: Seq<char>)
    ensures
        has_nul(encode_utf8(text)) <==> text.contains('\0'),
    decreases text.len(),
{
    if text.len() > 0 {
        let head = encode_scalar(text[0] as u32);
        let rest = text.drop_first();
        let tail = encode_utf8(rest);
        lemma_scalar_has_nul(text[0] as u32);
        lemma_nul_byte_is_nul_char(rest);
        assert(encode_utf8(text) == head + tail);
        if has_nul(head + tail) {
            let i = choose|i: int| 0 <= i < (head + tail).len() && (head + tail)[i] == 0u8;
            if i < head.len() {
                assert(head[i] == 0u8);
                char_u32_cast(text[0], 0u32);
                assert(text[0] == '\0');
            } else {
                assert(tail[i - head.len()] == 0u8);
                let j = choose|j: int| 0 <= j < rest.len() && rest[j] == '\0';
                assert(text[j + 1] == '\0');
            }
        }
        if text.contains('\0') {
            let j = choose|j: int| 0 <= j < text.len() && text[j] == '\0';
            if j == 0 {
                let k = choose|k: int| 0 <= k < head.len() && head[k] == 0u8;
                assert((head + tail)[k] == 0u8);
            } else {
                assert(rest[j - 1] == '\0');
                let k = choose|k: int| 0 <= k < tail.len() && tail[k] == 0u8;
                assert((head + tail)[head.len() + k] == 0u8);
            }
        }
    }
}

/// The null-terminated form of a byte string: the bytes, then a zero byte.
pub open spec fn c_string(bytes: Seq<u8>) -> Seq<u8> {
    bytes.push(0u8)
}

/// Encodes a string into the null-terminated form the engine reads. A string
/// that holds a zero byte has no such form and is refused.
pub fn build_cstring(kind: CStringKind, s: &str) -> (r: FiftyOneDegreesResult<Vec<u8>>)
    ensures
        r is Err <==> has_nul(encode_utf8(s@)),
        r is Err <==> s@.contains('\0'),
        r matches Ok(v) ==> v@ == c_string(encode_utf8(s@)),
        r matches Err(e) ==> e@ == ErrorModel::CStringCreation(kind),
{
    proof {
        lemma_nul_byte_is_nul_char(s@);
    }
    let bytes = s.as_bytes();
    let mut out: Vec<u8> = Vec::new();
    let mut i: usize = 0;
    while i < bytes.len()
        invariant
            i <= bytes.len(),
            bytes@ == encode_utf8(s@),
            has_nul(bytes@) <==> s@.contains('\0'),
            out@ == bytes@.subrange(0, i as int),
            forall|j: int| 0 <= j < i ==> bytes@[j] != 0u8,
        decreases bytes.len() - i,
    {
        let b: u8 = bytes[i];
        if b == 0 {
            return Err(FiftyOneDegreesError::CStringCreationError(kind));
        }
        out.push(b);
        assert(out@ == bytes@.subrange(0, i + 1));
        i += 1;
    }
    assert(out@ == bytes@);
    out.push(0);
    Ok(out)
}

/// The position of the first zero byte at or after `from`, or the length of
/// `bytes` where there is none.
pub open spec fn nul_index(bytes: Seq<u8>, from: int) -> int
    decreases bytes.len() - from,
{
    if from < 0 || from >= bytes.len() || bytes[from] == 0u8 {
        from
    } else {
        nul_index(bytes, from + 1)
    }
}

/// The bytes of a buffer that come before its first zero byte; the whole
/// buffer where it holds none.
pub open spec fn until_nul(bytes: Seq<u8>) -> Seq<u8> {
    bytes.subrange(0, nul_index(bytes, 0))
}

/// From `from` on, `nul_index` runs over non-zero bytes only and ends on a
/// zero byte or at the end of the buffer.
pub proof fn lemma_nul_index(bytes: Seq<u8>, from: int)
    requires
        0 <= from <= bytes.len(),
    ensures
        from <= nul_index(bytes, from) <= bytes.len(),
        forall|j: int| from <= j < nul_index(bytes, from) ==> bytes[j] != 0u8,
        nul_index(bytes, from) == bytes.len() || bytes[nul_index(bytes, from)] == 0u8,
    decreases bytes.len() - from,
{
    if from < bytes.len() && bytes[from] != 0u8 {
        lemma_nul_index(bytes, from + 1);
    }
}

/// Decoding stops at the first terminator: what `until_nul` keeps is a prefix
/// of the buffer, holds no zero byte, and is followed by a zero byte unless
/// it is the whole buffer.
pub proof fn lemma_until_nul_stops_at_terminator(bytes: Seq<u8>)
    ensures
        until_nul(bytes).len() <= bytes.len(),
        until_nul(bytes) == bytes.subrange(0, until_nul(bytes).len() as int),
        !has_nul(until_nul(bytes)),
        until_nul(bytes).len() == bytes.len() || bytes[until_nul(bytes).len() as int] == 0u8,
{
    lemma_nul_index(bytes, 0);
}

/// Nothing is lost between encoding and decoding: the null-terminated form
/// of a byte string without zero bytes decodes to that byte string, whatever
/// follows the terminator in the buffer.
pub proof fn lemma_until_nul_of_c_string(bytes: Seq<u8>, rest: Seq<u8>)
    requires
        !has_nul(bytes),
    ensures
        until_nul(c_string(bytes) + rest) == bytes,
{
    let buffer = c_string(bytes) + rest;
    lemma_nul_index(buffer, 0);
    let k = nul_index(buffer, 0);
    assert(buffer[bytes.len() as int] == 0u8);
    if k < bytes.len() {
        assert(buffer[k] == bytes[k]);
    }
    assert(k == bytes.len());
    assert(buffer.subrange(0, k) == bytes);
}

/// Copies out of a buffer the bytes before its first zero byte, and never
/// reads past the buffer's end.
pub fn read_until_nul(buffer: &Vec<u8>) -> (r: Vec<u8>)
    ensures
        r@ == until_nul(buffer@),
{
    let mut out: Vec<u8> = Vec::new();
    let mut i: usize = 0;
    while i < buffer.len() && buffer[i] != 0
        invariant
            i <= buffer.len(),
            out@ == buffer@.subrange(0, i as int),
            nul_index(buffer@, 0) == nul_index(buffer@, i as int),
        decreases buffer.len() - i,
    {
        out.push(buffer[i]);
        assert(out@ == buffer@.subrange(0, i + 1));
        i += 1;
    }
    out
}

/// The text that `String::from_utf8_lossy` makes of a byte string.
pub uninterp spec fn lossy_text(bytes: Seq<u8>) -> Seq<char>;

/// Calls `String::from_utf8_lossy`. The result is a function of the bytes
/// alone; where the bytes are valid UTF-8 it is the text they encode, as the
/// standard library documents. What it makes of invalid bytes is not stated.
#[verifier::external_body]
fn utf8_lossy(bytes: &Vec<u8>) -> (r: String)
    ensures
        r@ == lossy_text(bytes@),
        valid_utf8(bytes@) ==> r@ == decode_utf8(bytes@),
{
    String::from_utf8_lossy(bytes.as_slice()).into_owned()
}

/// Calls `std::str::from_utf8`. It succeeds exactly on valid UTF-8 and then
/// gives the text that the bytes encode, as the standard library documents.
#[verifier::external_body]
fn utf8_strict(bytes: &Vec<u8>) -> (r: Option<String>)
    ensures
        r is Some <==> valid_utf8(bytes@),
        r matches Some(s) ==> s@ == decode_utf8(bytes@),
{
    std::str::from_utf8(bytes.as_slice()).ok().map(String::from)
}

/// The character of one decimal digit.
pub open spec fn digit(d: nat) -> char {
    if d == 0 {
        '0'
    } else if d == 1 {
        '1'
    } else if d == 2 {
        '2'
    } else if d == 3 {
        '3'
    } else if d == 4 {
        '4'
    } else if d == 5 {
        '5'
    } else if d == 6 {
        '6'
    } else if d == 7 {
        '7'
    } else if d == 8 {
        '8'
    } else {
        '9'
    }
}

/// A number in decimal, without sign or leading zeros.
pub open spec fn decimal(n: nat) -> Seq<char>
    decreases n,
{
    if n < 10 {
        seq![digit(n)]
    } else {
        decimal(n / 10).push(digit(n % 10))
    }
}

/// Calls `usize::to_string`, which writes a number in decimal without sign or
/// leading zeros, as the standard library's `Display` for integers documents.
#[verifier::external_body]
pub(crate) fn decimal_string(n: usize) -> (r: String)
    ensures
        r@ == decimal(n as nat),
{
    n.to_string()
}

/// The text that a byte string is read as: the text it encodes where it is
/// valid UTF-8, and a lossy reading of it where it is not.
pub open spec fn buffer_text(bytes: Seq<u8>) -> Seq<char> {
    if valid_utf8(bytes) {
        decode_utf8(bytes)
    } else {
        lossy_text(bytes)
    }
}

/// Reads the text that a buffer holds before its first zero byte.
pub fn decode_buffer(buffer: &Vec<u8>) -> (r: String)
    ensures
        r@ == buffer_text(until_nul(buffer@)),
{
    let text = read_until_nul(buffer);
    utf8_lossy(&text)
}

/// The message the engine left with an exception, or the sentence that says
/// why there is none.
pub open spec fn exception_message(exception: Option<EngineException>) -> Seq<char> {
    match exception {
        None => "No exception available"@,
        Some(e) => match e.message {
            None => "No error message available"@,
            Some(bytes) => if valid_utf8(bytes@) {
                decode_utf8(bytes@)
            } else {
                "Unknown error"@
            },
        },
    }
}

/// Reads the engine's message out of an exception.
pub fn get_error_msg(exception: &Option<EngineException>) -> (r: String)
    ensures
        r@ == exception_message(*exception),
{
    match exception {
        None => String::from_str("No exception available"),
        Some(e) => match &e.message {
            None => String::from_str("No error message available"),
            Some(bytes) => match utf8_strict(bytes) {
                Some(text) => text,
                None => String::from_str("Unknown error"),
            },
        },
    }
}

/// Whether the engine left an exception with a status other than success.
pub open spec fn raised(exception: Option<EngineException>) -> bool {
    exception matches Some(e) && e.status != STATUS_SUCCESS
}

/// The error that an exception the engine raised during `operation` becomes.
pub open spec fn exception_error(
    exception: Option<EngineException>,
    operation: Operation,
) -> ErrorModel {
    ErrorModel::InternalApi(
        operation,
        exception.unwrap().status,
        status_description(exception.unwrap().status),
        exception_message(exception),
    )
}

/// Checks the exception out-parameter after an engine call: no exception, or
/// one with the success status, is no error; any other status becomes an
/// error that carries the code, its description and the engine's message.
pub fn verify_exception(exception: &Option<EngineException>, operation: Operation) -> (r:
    FiftyOneDegreesResult<()>)
    ensures
        r is Err <==> raised(*exception),
        r matches Err(e) ==> e@ == exception_error(*exception, operation),
{
    match exception {
        Some(e) => {
            if e.status != STATUS_SUCCESS {
                return Err(
                    FiftyOneDegreesError::InternalApiError(
                        operation,
                        e.status,
                        status_to_error_message(e.status),
                        get_error_msg(exception),
                    ),
                );
            }
        },
        None => {},
    }
    Ok(())
}

/// The error for a dataset path that is refused: one sentence where the path
/// does not exist, another where it exists but is no regular file.
pub open spec fn path_error(exists: bool) -> ErrorModel {
    ErrorModel::Assertion(
        Operation::ReadDataFile,
        if exists {
            ReadFileError::IsNotFile.text()
        } else {
            ReadFileError::NotExists.text()
        },
    )
}

/// Checks that the dataset path names a regular file: a path that does not
/// exist is refused, and so is one that exists but is no regular file, each
/// with its own sentence.
pub fn verify_data_file_path(exists: bool, is_file: bool) -> (r: FiftyOneDegreesResult<()>)
    ensures
        r is Ok <==> exists && is_file,
        r matches Err(e) ==> e@ == path_error(exists),
{
    if !exists {
        return Err(FiftyOneDegreesError::new_read_file_assertion_error(&ReadFileError::NotExists));
    }
    if !is_file {
        return Err(FiftyOneDegreesError::new_read_file_assertion_error(&ReadFileError::IsNotFile));
    }
    Ok(())
}

} // verus!
