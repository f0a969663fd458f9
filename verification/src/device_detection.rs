//! The detection manager, the evidence it collects and the result view it
//! produces.
//!
//! The native engine is not called from here. Where an operation needs the
//! engine, the library says which call it needs and takes what the engine
//! answered as a plain value: [`Manager::new`] takes the answer to the
//! loading of the dataset, [`Detection::advance`] the answer to the call that
//! [`Detection::next_call`] named, and the two reads of a [`ResultData`] the
//! buffer that the engine filled.

use crate::engine::{
    CanonicalPath, DataFileProbe, EngineCall, EngineReply, LoadReply, ValueReply, STATUS_SUCCESS,
};
pub use crate::names::{EvidenceName, PropertyName};
use crate::utils::{
    build_cstring, c_string, decimal, decimal_string, decode_buffer, exception_error, has_nul,
    lemma_nul_byte_is_nul_char, path_error, raised, status_description, status_to_error_message, until_nul,
    verify_data_file_path, verify_exception, CStringKind, ErrorModel, FiftyOneDegreesError,
    FiftyOneDegreesResult, Operation, buffer_text,
};
use vstd::prelude::*;
use vstd::utf8::*;

verus! {

/// The items of `tokens` in order, with `sep` between each two neighbours.
pub open spec fn joined(tokens: Seq<Seq<char>>, sep: Seq<char>) -> Seq<char>
    decreases tokens.len(),
{
    if tokens.len() == 0 {
        Seq::empty()
    } else if tokens.len() == 1 {
        tokens[0]
    } else {
        joined(tokens.drop_last(), sep) + sep + tokens.last()
    }
}

/// The texts of a list of string slices.
pub open spec fn texts(tokens: Seq<&str>) -> Seq<Seq<char>> {
    Seq::new(tokens.len(), |i: int| tokens[i]@)
}

/// The tokens of a list of properties.
pub open spec fn property_tokens(names: Seq<PropertyName>) -> Seq<Seq<char>> {
    Seq::new(names.len(), |i: int| names[i].token())
}

/// Calls `Itertools::join` of the itertools crate on the items of `tokens`.
/// It writes each item as it is, in order, and `sep` before every item but
/// the first; of no items it makes the empty string.
#[verifier::external_body]
fn join_tokens(tokens: &Vec<&str>, sep: &str) -> (r: String)
    ensures
        r@ == joined(texts(tokens@), sep@),
{
    itertools::Itertools::join(&mut tokens.iter(), sep)
}

/// The allow-list as the engine reads it: the tokens of the properties,
/// joined by commas.
pub fn property_list(names: &[PropertyName]) -> (r: String)
    ensures
        r@ == joined(property_tokens(names@), ","@),
{
    let mut tokens: Vec<&str> = Vec::new();
    let mut i: usize = 0;
    while i < names.len()
        invariant
            i <= names.len(),
            tokens@.len() == i,
            forall|j: int| 0 <= j < i ==> tokens@[j]@ == names@[j].token(),
        decreases names.len() - i,
    {
        tokens.push(names[i].to_str());
        i += 1;
    }
    assert(texts(tokens@) =~= property_tokens(names@));
    join_tokens(&tokens, ",")
}

/// What a manager is made from: the path of the dataset file, which must
/// name a regular file, and the properties to report, where `None` asks for
/// all of them.
pub struct ManagerConfig {
    pub data_file_path: &'static str,
    pub property_names: Option<&'static [PropertyName]>,
}

/// What the engine is handed to load a dataset: the canonical path and the
/// allow-list, each in null-terminated form. Without an allow-list the
/// engine reports every property.
#[derive(Debug, Clone, PartialEq, Eq)]
pub struct LoadRequest {
    pub file_path: Vec<u8>,
    pub properties: Option<Vec<u8>>,
}

/// The mathematical value of a [`LoadRequest`].
pub struct LoadRequestView {
    pub file_path: Seq<u8>,
    pub properties: Option<Seq<u8>>,
}

impl View for LoadRequest {
    type V = LoadRequestView;

    open spec fn view(&self) -> LoadRequestView {
        LoadRequestView {
            file_path: self.file_path@,
            properties: match self.properties {
                Some(p) => Some(p@),
                None => None,
            },
        }
    }
}

/// The allow-list of a configuration, null-terminated, where it has one.
pub open spec fn allow_list(config: ManagerConfig) -> Option<Seq<u8>> {
    match config.property_names {
        Some(names) => Some(c_string(encode_utf8(joined(property_tokens(names@), ","@)))),
        None => None,
    }
}

/// The request that a configuration and the state of its path lead to, or
/// the error that stops the loading before the engine is asked.
pub open spec fn load_request_for(config: ManagerConfig, probe: DataFileProbe) -> Result<
    LoadRequestView,
    ErrorModel,
> {
    if !probe.exists || !probe.is_file {
        Err(path_error(probe.exists))
    } else {
        match probe.canonical {
            CanonicalPath::Failed(cause) => Err(
                ErrorModel::IO("Failed to canonicalize data file path"@, Some(cause@)),
            ),
            CanonicalPath::NotUnicode => Err(
                ErrorModel::IO("Failed to convert data file path to string"@, None),
            ),
            CanonicalPath::Resolved(path) => if has_nul(encode_utf8(path@)) {
                Err(ErrorModel::CStringCreation(CStringKind::FilePath))
            } else if config.property_names matches Some(names) && has_nul(
                encode_utf8(joined(property_tokens(names@), ","@)),
            ) {
                Err(ErrorModel::CStringCreation(CStringKind::PropertyName))
            } else {
                Ok(
                    LoadRequestView {
                        file_path: c_string(encode_utf8(path@)),
                        properties: allow_list(config),
                    },
                )
            },
        }
    }
}

/// What the construction of a manager comes to, given what the engine
/// answered to the loading: the request that was loaded, or the error.
pub open spec fn load_outcome(config: ManagerConfig, probe: DataFileProbe, reply: LoadReply) -> Result<
    LoadRequestView,
    ErrorModel,
> {
    match load_request_for(config, probe) {
        Err(e) => Err(e),
        Ok(request) => if raised(reply.exception) {
            Err(exception_error(reply.exception, Operation::InitManager))
        } else if reply.status != STATUS_SUCCESS {
            Err(
                ErrorModel::InternalApi(
                    Operation::InitManager,
                    reply.status,
                    status_description(reply.status),
                    "Status check failed"@,
                ),
            )
        } else {
            Ok(request)
        },
    }
}

/// A loaded dataset. It keeps what the engine was handed to load it.
#[derive(Debug)]
pub struct Manager {
    request: LoadRequest,
}

impl View for Manager {
    type V = LoadRequestView;

    closed spec fn view(&self) -> LoadRequestView {
        self.request@
    }
}

impl Manager {
    /// Validates a configuration against what the host says of its path and
    /// encodes what the engine needs to load the dataset. Every failure here
    /// comes before the engine is asked for anything.
    pub fn load_request(config: &ManagerConfig, probe: &DataFileProbe) -> (r: FiftyOneDegreesResult<
        LoadRequest,
    >)
        ensures
            match load_request_for(*config, *probe) {
                Ok(request) => r matches Ok(q) && q@ == request,
                Err(error) => r matches Err(e) && e@ == error,
            },
    {
        match verify_data_file_path(probe.exists, probe.is_file) {
            Err(e) => {
                return Err(e);
            },
            Ok(_) => {},
        }
        let file_path = match &probe.canonical {
            CanonicalPath::Failed(cause) => {
                return Err(
                    FiftyOneDegreesError::IOError(
                        "Failed to canonicalize data file path",
                        Some(cause.clone()),
                    ),
                );
            },
            CanonicalPath::NotUnicode => {
                return Err(
                    FiftyOneDegreesError::IOError(
                        "Failed to convert data file path to string",
                        None,
                    ),
                );
            },
            CanonicalPath::Resolved(path) => match build_cstring(
                CStringKind::FilePath,
                path.as_str(),
            ) {
                Err(e) => {
                    return Err(e);
                },
                Ok(bytes) => bytes,
            },
        };
        let properties = match config.property_names {
            Some(names) => {
                let list = property_list(names);
                match build_cstring(CStringKind::PropertyName, list.as_str()) {
                    Err(e) => {
                        return Err(e);
                    },
                    Ok(bytes) => Some(bytes),
                }
            },
            None => None,
        };
        Ok(LoadRequest { file_path, properties })
    }

    /// Makes the manager of a dataset from its configuration, from what the
    /// host says of the path, and from what the engine answered to the
    /// loading. A path that is refused, a string that cannot be encoded, an
    /// exception or a status other than success each end the construction
    /// with their error; there is no manager that is half made.
    pub fn new(config: ManagerConfig, probe: &DataFileProbe, reply: &LoadReply) -> (r:
        FiftyOneDegreesResult<Manager>)
        ensures
            match load_outcome(config, *probe, *reply) {
                Ok(request) => r matches Ok(m) && m@ == request,
                Err(error) => r matches Err(e) && e@ == error,
            },
    {
        let request = match Manager::load_request(&config, probe) {
            Err(e) => {
                return Err(e);
            },
            Ok(request) => request,
        };
        match verify_exception(&reply.exception, Operation::InitManager) {
            Err(e) => {
                return Err(e);
            },
            Ok(_) => {},
        }
        if reply.status != STATUS_SUCCESS {
            return Err(
                FiftyOneDegreesError::InternalApiError(
                    Operation::InitManager,
                    reply.status,
                    status_to_error_message(reply.status),
                    String::from_str("Status check failed"),
                ),
            );
        }
        Ok(Manager { request })
    }

    /// What the engine was handed to load this manager's dataset.
    pub fn request(&self) -> (r: &LoadRequest)
        ensures
            r@ == self@,
    {
        &self.request
    }
}

/// One piece of evidence as the engine reads it: the key's text, and the key
/// and the value in null-terminated form.
#[derive(Debug)]
pub struct EvidencePair {
    name: String,
    key: Vec<u8>,
    value: Vec<u8>,
}

/// The mathematical value of an [`EvidencePair`].
pub struct PairView {
    pub name: Seq<char>,
    pub key: Seq<u8>,
    pub value: Seq<u8>,
}

impl View for EvidencePair {
    type V = PairView;

    closed spec fn view(&self) -> PairView {
        PairView { name: self.name@, key: self.key@, value: self.value@ }
    }
}

/// The encoded form of a key and a value.
pub open spec fn encoded_pair(key: Seq<char>, value: Seq<char>) -> PairView {
    PairView { name: key, key: c_string(encode_utf8(key)), value: c_string(encode_utf8(value)) }
}

/// Why a pair cannot be encoded, if it cannot: the key is looked at first.
pub open spec fn pair_refusal(key: Seq<char>, value: Seq<char>) -> Option<CStringKind> {
    if has_nul(encode_utf8(key)) {
        Some(CStringKind::EvidenceKey)
    } else if has_nul(encode_utf8(value)) {
        Some(CStringKind::EvidenceValue)
    } else {
        None
    }
}

/// An ordered collection of evidence with a capacity that is fixed when it
/// is made. It owns the encoded buffers of every pair it was given, for as
/// long as it lives; none is ever given up alone.
#[derive(Debug)]
pub struct Evidence {
    capacity: u32,
    evidence_data: Vec<EvidencePair>,
}

/// The mathematical value of an [`Evidence`].
pub struct EvidenceView {
    pub capacity: u32,
    pub pairs: Seq<PairView>,
}

impl View for Evidence {
    type V = EvidenceView;

    closed spec fn view(&self) -> EvidenceView {
        EvidenceView {
            capacity: self.capacity,
            pairs: Seq::new(self.evidence_data@.len(), |i: int| self.evidence_data@[i]@),
        }
    }
}

impl Evidence {
    /// An empty collection for `capacity` pairs.
    pub fn new(capacity: u32) -> (r: Evidence)
        ensures
            r@ == (EvidenceView { capacity, pairs: Seq::empty() }),
    {
        let r = Evidence { capacity, evidence_data: Vec::new() };
        assert(r@.pairs =~= Seq::empty());
        r
    }

    /// Encodes a key and a value and keeps their buffers. A key or a value
    /// that holds a zero byte is refused, and the collection stays as it was.
    pub fn add(&mut self, key: &str, val: &str) -> (r: FiftyOneDegreesResult<()>)
        ensures
            match pair_refusal(key@, val@) {
                Some(kind) => r matches Err(e) && e@ == ErrorModel::CStringCreation(kind)
                    && final(self)@ == old(self)@,
                None => r is Ok && final(self)@ == (EvidenceView {
                    capacity: old(self)@.capacity,
                    pairs: old(self)@.pairs.push(encoded_pair(key@, val@)),
                }),
            },
    {
        let key_bytes = match build_cstring(CStringKind::EvidenceKey, key) {
            Err(e) => {
                return Err(e);
            },
            Ok(bytes) => bytes,
        };
        let value_bytes = match build_cstring(CStringKind::EvidenceValue, val) {
            Err(e) => {
                return Err(e);
            },
            Ok(bytes) => bytes,
        };
        let pair = EvidencePair { name: String::from_str(key), key: key_bytes, value: value_bytes };
        self.evidence_data.push(pair);
        assert(self@.pairs =~= old(self)@.pairs.push(encoded_pair(key@, val@)));
        Ok(())
    }

    /// The number of pairs the collection was made for.
    pub fn capacity(&self) -> (r: u32)
        ensures
            r == self@.capacity,
    {
        self.capacity
    }

    /// The number of pairs the collection holds.
    pub fn len(&self) -> (r: usize)
        ensures
            r == self@.pairs.len(),
    {
        self.evidence_data.len()
    }

    /// The text of the key at `index`.
    pub fn name(&self, index: usize) -> (r: &str)
        requires
            index < self@.pairs.len(),
        ensures
            r@ == self@.pairs[index as int].name,
    {
        self.evidence_data[index].name.as_str()
    }

    /// The null-terminated key at `index`.
    pub fn key(&self, index: usize) -> (r: &Vec<u8>)
        requires
            index < self@.pairs.len(),
        ensures
            r@ == self@.pairs[index as int].key,
    {
        &self.evidence_data[index].key
    }

    /// The null-terminated value at `index`.
    pub fn value(&self, index: usize) -> (r: &Vec<u8>)
        requires
            index < self@.pairs.len(),
        ensures
            r@ == self@.pairs[index as int].value,
    {
        &self.evidence_data[index].value
    }
}

/// The result of one detection. Its reads take the buffer that the engine
/// filled for one property and turn it into a value or into "no value".
#[derive(Debug)]
pub struct ResultData {
    evidence_len: usize,
}

/// The room, in bytes, that the sentinel-filtering read gives the engine.
pub const STRING_BUFFER_LEN: usize = 64;

/// The room, in bytes, that the plain read gives the engine.
pub const VALUE_BUFFER_LEN: usize = 128;

/// The two texts by which the engine says that a property does not apply.
pub open spec fn is_sentinel(text: Seq<char>) -> bool {
    text == "Unknown"@ || text == "N/A"@
}

/// The value that a decoded text stands for: the empty text is no value, and
/// where sentinels are filtered a sentinel is none either.
pub open spec fn kept_value(text: Seq<char>, filter_sentinels: bool) -> Option<Seq<char>> {
    if text.len() == 0 || (filter_sentinels && is_sentinel(text)) {
        None
    } else {
        Some(text)
    }
}

/// The error for a value that needs more room than the buffer has.
pub open spec fn overflow_message(name: Seq<char>, required: usize, room: usize) -> Seq<char> {
    "Buffer too small for property: "@ + name + ", expected: "@ + decimal(required as nat)
        + ", actual: "@ + decimal(room as nat)
}

/// What the reading of a property comes to, given what the engine answered:
/// a name that cannot be encoded, an exception, and a value that does not
/// fit the buffer are errors, in this order; otherwise the text before the
/// first zero byte of the buffer is the value.
pub open spec fn read_outcome(
    name: Seq<char>,
    room: usize,
    filter_sentinels: bool,
    reply: ValueReply,
) -> Result<Option<Seq<char>>, ErrorModel> {
    if has_nul(encode_utf8(name)) {
        Err(ErrorModel::CStringCreation(CStringKind::PropertyName))
    } else if raised(reply.exception) {
        Err(exception_error(reply.exception, Operation::ReadProperty))
    } else if reply.required_len > room {
        Err(ErrorModel::UnsafeOperation(overflow_message(name, reply.required_len, room)))
    } else {
        Ok(kept_value(buffer_text(until_nul(reply.buffer@)), filter_sentinels))
    }
}

/// The text of an optional string.
pub open spec fn text_of(value: Option<String>) -> Option<Seq<char>> {
    match value {
        Some(s) => Some(s@),
        None => None,
    }
}

/// Whether a result of the library has the given mathematical value.
pub open spec fn read_is(
    r: FiftyOneDegreesResult<Option<String>>,
    outcome: Result<Option<Seq<char>>, ErrorModel>,
) -> bool {
    match outcome {
        Ok(value) => r matches Ok(v) && text_of(v) == value,
        Err(error) => r matches Err(e) && e@ == error,
    }
}

/// What the engine is handed to read one property: the property's token and
/// the separator of multiple values, each in null-terminated form, and the
/// room of the buffer it may fill.
#[derive(Debug, Clone, PartialEq, Eq)]
pub struct ValueRequest {
    pub property: Vec<u8>,
    pub separator: Vec<u8>,
    pub buffer_len: usize,
}

/// Turns a decoded text into a value: the empty text is no value, and where
/// `filter_sentinels` is set neither is `Unknown` or `N/A`.
pub fn keep_value(text: String, filter_sentinels: bool) -> (r: Option<String>)
    ensures
        text_of(r) == kept_value(text@, filter_sentinels),
{
    if text.as_str().is_empty() {
        return None;
    }
    if filter_sentinels {
        let unknown = String::from_str("Unknown");
        let not_applicable = String::from_str("N/A");
        if text == unknown || text == not_applicable {
            return None;
        }
    }
    Some(text)
}

impl ResultData {
    /// The number of evidence pairs that were applied to make this result.
    pub closed spec fn applied(&self) -> nat {
        self.evidence_len as nat
    }

    /// The number of evidence pairs that were applied to make this result.
    pub fn evidence_len(&self) -> (r: usize)
        ensures
            r == self.applied(),
    {
        self.evidence_len
    }

    /// Encodes what the engine needs to render a property into a buffer of
    /// `buffer_len` bytes, with `", "` between multiple values. A name that
    /// holds a zero byte is refused before the engine is asked.
    pub fn value_request(property_name: &str, buffer_len: usize) -> (r: FiftyOneDegreesResult<
        ValueRequest,
    >)
        ensures
            r is Err <==> has_nul(encode_utf8(property_name@)),
            r matches Err(e) ==> e@ == ErrorModel::CStringCreation(CStringKind::PropertyName),
            r matches Ok(q) ==> q.property@ == c_string(encode_utf8(property_name@))
                && q.separator@ == c_string(encode_utf8(", "@)) && q.buffer_len == buffer_len,
    {
        let property = match build_cstring(CStringKind::PropertyName, property_name) {
            Err(e) => {
                return Err(e);
            },
            Ok(bytes) => bytes,
        };
        proof {
            lemma_separator_has_no_nul();
        }
        let separator = match build_cstring(CStringKind::HashResultSeparator, ", ") {
            Err(e) => {
                return Err(e);
            },
            Ok(bytes) => bytes,
        };
        Ok(ValueRequest { property, separator, buffer_len })
    }

    /// Reads a property out of what the engine answered where it was given
    /// a buffer of `room` bytes: the text before the buffer's first zero
    /// byte, or no value where that text is empty or, with
    /// `filter_sentinels`, one of the engine's sentinels.
    pub fn read(property_name: &str, room: usize, filter_sentinels: bool, reply: &ValueReply) -> (r:
        FiftyOneDegreesResult<Option<String>>)
        ensures
            read_is(r, read_outcome(property_name@, room, filter_sentinels, *reply)),
    {
        match ResultData::value_request(property_name, room) {
            Err(e) => {
                return Err(e);
            },
            Ok(_) => {},
        }
        match verify_exception(&reply.exception, Operation::ReadProperty) {
            Err(e) => {
                return Err(e);
            },
            Ok(_) => {},
        }
        if reply.required_len > room {
            let message = String::from_str("Buffer too small for property: ").concat(
                property_name,
            ).concat(", expected: ").concat(decimal_string(reply.required_len).as_str()).concat(
                ", actual: ",
            ).concat(decimal_string(room).as_str());
            return Err(FiftyOneDegreesError::UnsafeOperationError(message));
        }
        Ok(keep_value(decode_buffer(&reply.buffer), filter_sentinels))
    }

    /// Reads a property and takes the engine's two sentinels, `Unknown` and
    /// `N/A`, as no value, like the empty text. The engine was given a buffer
    /// of [`STRING_BUFFER_LEN`] bytes; a value that needs more is an error
    /// and is never cut short.
    pub fn get_value_as_string(&self, property_name: PropertyName, reply: &ValueReply) -> (r:
        FiftyOneDegreesResult<Option<String>>)
        ensures
            read_is(r, read_outcome(property_name.token(), STRING_BUFFER_LEN, true, *reply)),
    {
        ResultData::read(property_name.to_str(), STRING_BUFFER_LEN, true, reply)
    }

    /// Reads a property and takes only the empty text as no value: a
    /// sentinel comes back as the text it is. The engine was given a buffer
    /// of [`VALUE_BUFFER_LEN`] bytes; a value that needs more is an error and
    /// is never cut short.
    pub fn get_value(&self, property_name: &str, reply: &ValueReply) -> (r: FiftyOneDegreesResult<
        Option<String>,
    >)
        ensures
            read_is(r, read_outcome(property_name@, VALUE_BUFFER_LEN, false, *reply)),
    {
        ResultData::read(property_name, VALUE_BUFFER_LEN, false, reply)
    }
}

/// The separator of multiple values can always be encoded.
pub proof fn lemma_separator_has_no_nul()
    ensures
        !has_nul(encode_utf8(", "@)),
{
    reveal_strlit(", ");
    let text = ", "@;
    assert(text.len() == 2 && text[0] == ',' && text[1] == ' ');
    assert(is_ascii_chars(text));
    is_ascii_chars_encode_utf8(text);
    let bytes = encode_utf8(text);
    assert(bytes.len() == 2);
    assert(bytes[0] == 44u8 && bytes[1] == 32u8);
}

/// A detection under way: the evidence, encoded and kept, and the call that
/// the engine is to perform next. Whoever owns the native handles performs
/// that call and hands its answer to [`Detection::advance`].
#[derive(Debug)]
pub struct Detection {
    evidence: Evidence,
    next: EngineCall,
}

/// The mathematical value of a [`Detection`].
pub struct DetectionView {
    pub evidence: EvidenceView,
    pub next: EngineCall,
}

impl DetectionView {
    /// A detection holds at least one pair, was sized for exactly the pairs
    /// it holds, and asks only for calls that its evidence allows.
    pub open spec fn wf(self) -> bool {
        &&& self.evidence.pairs.len() >= 1
        &&& self.evidence.pairs.len() == self.evidence.capacity
        &&& match self.next {
            EngineCall::CreateEvidence { capacity } => capacity == self.evidence.capacity,
            EngineCall::AddEvidence { index } => index < self.evidence.pairs.len(),
            EngineCall::CreateResults { capacity, overrides } => capacity == 1 && overrides == 0,
            EngineCall::ApplyEvidence => true,
        }
    }

    /// The same detection with another call pending.
    pub open spec fn with_next(self, next: EngineCall) -> DetectionView {
        DetectionView { evidence: self.evidence, next }
    }

    /// The number of engine calls that an undisturbed detection still makes.
    pub open spec fn calls_left(self) -> int {
        match self.next {
            EngineCall::CreateEvidence { .. } => (self.evidence.pairs.len() + 3) as int,
            EngineCall::AddEvidence { index } => self.evidence.pairs.len() - index + 2,
            EngineCall::CreateResults { .. } => 2,
            EngineCall::ApplyEvidence => 1,
        }
    }
}

impl View for Detection {
    type V = DetectionView;

    closed spec fn view(&self) -> DetectionView {
        DetectionView { evidence: self.evidence@, next: self.next }
    }
}

/// Where a detection stands after an engine call: another call is pending,
/// or the result is there.
#[derive(Debug)]
pub enum Progress {
    Call(Detection),
    Done(ResultData),
}

/// The mathematical value of a [`Progress`]: the detection that goes on, or
/// the number of pairs that the finished result was made from.
pub enum ProgressView {
    Call(DetectionView),
    Done(nat),
}

impl View for Progress {
    type V = ProgressView;

    open spec fn view(&self) -> ProgressView {
        match self {
            Progress::Call(d) => ProgressView::Call(d@),
            Progress::Done(result) => ProgressView::Done(result.applied()),
        }
    }
}

/// The message for a pair that the engine did not take.
pub open spec fn rejected_pair_message(name: Seq<char>) -> Seq<char> {
    "Failed add evidence key="@ + name + ": got null"@
}

/// One step of a detection: what follows from the engine's answer to the
/// pending call. A null handle and an exception end the detection with an
/// error. Otherwise the collection is created, then every pair is
/// registered in order, then the result resource is created, then the
/// evidence is applied to it, and then the result is there.
pub open spec fn step(d: DetectionView, reply: EngineReply) -> Result<ProgressView, ErrorModel> {
    match d.next {
        EngineCall::CreateEvidence { .. } => if reply.handle {
            Ok(ProgressView::Call(d.with_next(EngineCall::AddEvidence { index: 0 })))
        } else {
            Err(ErrorModel::UnsafeOperation("Failed to create evidence object: got null"@))
        },
        EngineCall::AddEvidence { index } => if !reply.handle {
            Err(
                ErrorModel::UnsafeOperation(
                    rejected_pair_message(d.evidence.pairs[index as int].name),
                ),
            )
        } else if index + 1 < d.evidence.pairs.len() {
            Ok(
                ProgressView::Call(
                    d.with_next(EngineCall::AddEvidence { index: (index + 1) as usize }),
                ),
            )
        } else {
            Ok(ProgressView::Call(d.with_next(EngineCall::CreateResults { capacity: 1, overrides: 0 })))
        },
        EngineCall::CreateResults { .. } => if reply.handle {
            Ok(ProgressView::Call(d.with_next(EngineCall::ApplyEvidence)))
        } else {
            Err(ErrorModel::UnsafeOperation("Failed to create result object: got null"@))
        },
        EngineCall::ApplyEvidence => if raised(reply.exception) {
            Err(exception_error(reply.exception, Operation::ApplyEvidence))
        } else {
            Ok(ProgressView::Done(d.evidence.pairs.len()))
        },
    }
}

impl Detection {
    #[verifier::type_invariant]
    closed spec fn inv(self) -> bool {
        self@.wf()
    }

    /// The call that the engine is to perform next.
    pub fn next_call(&self) -> (r: EngineCall)
        ensures
            r == self@.next,
            self@.wf(),
    {
        proof {
            use_type_invariant(self);
        }
        self.next
    }

    /// The evidence of this detection, whose buffers the engine reads.
    pub fn evidence(&self) -> (r: &Evidence)
        ensures
            r@ == self@.evidence,
            self@.wf(),
    {
        proof {
            use_type_invariant(self);
        }
        &self.evidence
    }

    /// Takes the engine's answer to the pending call and says what follows:
    /// the next call, the result, or the error that ends the detection.
    pub fn advance(self, reply: &EngineReply) -> (r: FiftyOneDegreesResult<Progress>)
        ensures
            match step(self@, *reply) {
                Ok(progress) => r matches Ok(p) && p@ == progress,
                Err(error) => r matches Err(e) && e@ == error,
            },
    {
        proof {
            use_type_invariant(&self);
        }
        let Detection { evidence, next } = self;
        match next {
            EngineCall::CreateEvidence { .. } => {
                if !reply.handle {
                    return Err(
                        FiftyOneDegreesError::UnsafeOperationError(
                            String::from_str("Failed to create evidence object: got null"),
                        ),
                    );
                }
                Ok(Progress::Call(Detection { evidence, next: EngineCall::AddEvidence { index: 0 } }))
            },
            EngineCall::AddEvidence { index } => {
                if !reply.handle {
                    let message = String::from_str("Failed add evidence key=").concat(
                        evidence.name(index),
                    ).concat(": got null");
                    return Err(FiftyOneDegreesError::UnsafeOperationError(message));
                }
                if index + 1 < evidence.len() {
                    Ok(
                        Progress::Call(
                            Detection { evidence, next: EngineCall::AddEvidence { index: index + 1 } },
                        ),
                    )
                } else {
                    Ok(
                        Progress::Call(
                            Detection {
                                evidence,
                                next: EngineCall::CreateResults { capacity: 1, overrides: 0 },
                            },
                        ),
                    )
                }
            },
            EngineCall::CreateResults { .. } => {
                if !reply.handle {
                    return Err(
                        FiftyOneDegreesError::UnsafeOperationError(
                            String::from_str("Failed to create result object: got null"),
                        ),
                    );
                }
                Ok(Progress::Call(Detection { evidence, next: EngineCall::ApplyEvidence }))
            },
            EngineCall::ApplyEvidence => {
                match verify_exception(&reply.exception, Operation::ApplyEvidence) {
                    Err(e) => {
                        return Err(e);
                    },
                    Ok(_) => {},
                }
                Ok(Progress::Done(ResultData { evidence_len: evidence.len() }))
            },
        }
    }
}

/// The pairs of a piece of evidence, each in its encoded form.
pub open spec fn encoded_evidence(evidence_data: Seq<(EvidenceName, &str)>) -> Seq<PairView> {
    Seq::new(
        evidence_data.len(),
        |i: int| encoded_pair(evidence_data[i].0.token(), evidence_data[i].1@),
    )
}

/// Why the first pair that cannot be encoded cannot, if there is such a pair.
pub open spec fn first_refusal(evidence_data: Seq<(EvidenceName, &str)>) -> Option<CStringKind>
    decreases evidence_data.len(),
{
    if evidence_data.len() == 0 {
        None
    } else {
        match pair_refusal(evidence_data[0].0.token(), evidence_data[0].1@) {
            Some(kind) => Some(kind),
            None => first_refusal(evidence_data.drop_first()),
        }
    }
}

/// How a detection begins: no evidence is the caller's error, a pair that
/// cannot be encoded is refused, and both before the engine is asked for
/// anything; otherwise every pair is encoded and the first call asks for a
/// collection of exactly as many entries.
pub open spec fn detect_outcome(evidence_data: Seq<(EvidenceName, &str)>) -> Result<
    DetectionView,
    ErrorModel,
> {
    if evidence_data.len() == 0 {
        Err(
            ErrorModel::Assertion(
                Operation::CreateEvidence,
                "Evidence data must contain at least one item"@,
            ),
        )
    } else if first_refusal(evidence_data) is Some {
        Err(ErrorModel::CStringCreation(first_refusal(evidence_data).unwrap()))
    } else {
        Ok(
            DetectionView {
                evidence: EvidenceView {
                    capacity: evidence_data.len() as u32,
                    pairs: encoded_evidence(evidence_data),
                },
                next: EngineCall::CreateEvidence { capacity: evidence_data.len() as u32 },
            },
        )
    }
}

impl Manager {
    /// Begins a detection on this manager's dataset. The evidence must hold
    /// at least one pair, and every key and value must have a
    /// null-terminated form. The detection that comes back names the first
    /// call for the engine; see [`Detection::advance`].
    ///
    /// The engine works on state that the manager's detections share: run
    /// one detection at a time on one manager.
    pub fn detect(&self, evidence_data: &[(EvidenceName, &str)]) -> (r: FiftyOneDegreesResult<
        Detection,
    >)
        requires
            evidence_data@.len() <= u32::MAX,
        ensures
            match detect_outcome(evidence_data@) {
                Ok(detection) => r matches Ok(d) && d@ == detection && detection.wf(),
                Err(error) => r matches Err(e) && e@ == error,
            },
    {
        if evidence_data.len() == 0 {
            return Err(
                FiftyOneDegreesError::AssertionError(
                    Operation::CreateEvidence,
                    "Evidence data must contain at least one item",
                ),
            );
        }
        let capacity: u32 = evidence_data.len() as u32;
        let mut evidence = Evidence::new(capacity);
        let mut i: usize = 0;
        assert(evidence_data@.subrange(0, evidence_data@.len() as int) == evidence_data@);
        while i < evidence_data.len()
            invariant
                i <= evidence_data.len(),
                evidence@.capacity == capacity,
                evidence@.pairs == encoded_evidence(evidence_data@.subrange(0, i as int)),
                first_refusal(evidence_data@) == first_refusal(
                    evidence_data@.subrange(i as int, evidence_data@.len() as int),
                ),
            decreases evidence_data.len() - i,
        {
            let (key, val) = evidence_data[i];
            let ghost rest = evidence_data@.subrange(i as int, evidence_data@.len() as int);
            assert(rest[0] == evidence_data@[i as int]);
            assert(rest.drop_first() == evidence_data@.subrange(
                i + 1,
                evidence_data@.len() as int,
            ));
            match evidence.add(key.as_str(), val) {
                Err(e) => {
                    return Err(e);
                },
                Ok(_) => {},
            }
            assert(evidence@.pairs == encoded_evidence(evidence_data@.subrange(0, i + 1)));
            i += 1;
        }
        assert(evidence_data@.subrange(0, i as int) == evidence_data@);
        Ok(Detection { evidence, next: EngineCall::CreateEvidence { capacity } })
    }
}

/// A path that does not exist, or that exists and is no regular file, ends
/// the construction of a manager whatever the engine would have answered,
/// and the two cases give different errors.
pub proof fn lemma_refused_path_stops_loading(
    config: ManagerConfig,
    probe: DataFileProbe,
    reply: LoadReply,
)
    requires
        !probe.exists || !probe.is_file,
    ensures
        load_outcome(config, probe, reply) == Err::<LoadRequestView, ErrorModel>(
            path_error(probe.exists),
        ),
        path_error(true) != path_error(false),
{
    reveal_strlit("file does not exist");
    reveal_strlit("is not a file");
    assert("file does not exist"@.len() == 19);
    assert("is not a file"@.len() == 13);
}

/// Evidence can be encoded exactly when each of its pairs can.
pub proof fn lemma_first_refusal(evidence_data: Seq<(EvidenceName, &str)>)
    ensures
        first_refusal(evidence_data) is None <==> forall|i: int|
            0 <= i < evidence_data.len() ==> pair_refusal(
                #[trigger] evidence_data[i].0.token(),
                evidence_data[i].1@,
            ) is None,
    decreases evidence_data.len(),
{
    if evidence_data.len() > 0 {
        let rest = evidence_data.drop_first();
        lemma_first_refusal(rest);
        assert forall|i: int| 0 <= i < rest.len() implies rest[i] == evidence_data[i + 1] by {}
        if first_refusal(evidence_data) is None {
            assert forall|i: int| 0 <= i < evidence_data.len() implies pair_refusal(
                #[trigger] evidence_data[i].0.token(),
                evidence_data[i].1@,
            ) is None by {
                if i > 0 {
                    assert(rest[i - 1] == evidence_data[i]);
                }
            }
        }
    }
}

/// A key or a value that holds the null character always ends a detection
/// with an encoding error, wherever in the evidence it stands, and no call
/// for the engine comes of it.
pub proof fn lemma_detect_refuses_embedded_nul(evidence_data: Seq<(EvidenceName, &str)>, i: int)
    requires
        0 <= i < evidence_data.len(),
        evidence_data[i].0.token().contains('\0') || evidence_data[i].1@.contains('\0'),
    ensures
        detect_outcome(evidence_data) matches Err(ErrorModel::CStringCreation(kind))
            && (kind == CStringKind::EvidenceKey || kind == CStringKind::EvidenceValue),
{
    lemma_nul_byte_is_nul_char(evidence_data[i].0.token());
    lemma_nul_byte_is_nul_char(evidence_data[i].1@);
    lemma_first_refusal(evidence_data);
    lemma_refusal_kind(evidence_data);
}

/// Empty evidence never begins a detection: it is the caller's error, and
/// no call for the engine comes of it.
pub proof fn lemma_empty_evidence_is_refused()
    ensures
        detect_outcome(Seq::empty()) == Err::<DetectionView, ErrorModel>(
            ErrorModel::Assertion(
                Operation::CreateEvidence,
                "Evidence data must contain at least one item"@,
            ),
        ),
{
}

/// A property name that holds the null character is refused with an
/// encoding error in both modes of reading, whatever the engine answered.
pub proof fn lemma_read_refuses_embedded_nul(
    name: Seq<char>,
    room: usize,
    filter_sentinels: bool,
    reply: ValueReply,
)
    requires
        name.contains('\0'),
    ensures
        read_outcome(name, room, filter_sentinels, reply) == Err::<Option<Seq<char>>, ErrorModel>(
            ErrorModel::CStringCreation(CStringKind::PropertyName),
        ),
{
    lemma_nul_byte_is_nul_char(name);
}

/// The refusal of evidence names a key or a value.
pub proof fn lemma_refusal_kind(evidence_data: Seq<(EvidenceName, &str)>)
    ensures
        first_refusal(evidence_data) matches Some(kind) ==> kind == CStringKind::EvidenceKey
            || kind == CStringKind::EvidenceValue,
    decreases evidence_data.len(),
{
    if evidence_data.len() > 0 {
        lemma_refusal_kind(evidence_data.drop_first());
    }
}

/// Every step of a detection that does not fail keeps the evidence as it
/// is and brings the end one call nearer: a detection of `n` pairs is done
/// after `n + 3` calls, and its result was made from all `n` pairs.
pub proof fn lemma_step_progress(d: DetectionView, reply: EngineReply)
    requires
        d.wf(),
    ensures
        d.calls_left() >= 1,
        match step(d, reply) {
            Ok(ProgressView::Call(next)) => next.wf() && next.evidence == d.evidence
                && next.calls_left() == d.calls_left() - 1,
            Ok(ProgressView::Done(applied)) => d.calls_left() == 1 && applied
                == d.evidence.pairs.len(),
            Err(_) => true,
        },
{
}

/// The text that a buffer holds where the engine wrote `text` and its
/// terminator into it is `text` again.
pub proof fn lemma_buffer_text_of_encoding(text: Seq<char>)
    ensures
        buffer_text(encode_utf8(text)) == text,
{
    encode_utf8_valid_utf8(text);
    encode_utf8_decode_utf8(text);
}

/// A property whose value is one of the engine's sentinels reads as no
/// value where sentinels are filtered, and as the sentinel's own text where
/// they are not.
pub proof fn lemma_sentinel_read_modes(name: Seq<char>, reply: ValueReply, sentinel: Seq<char>)
    requires
        is_sentinel(sentinel),
        until_nul(reply.buffer@) == encode_utf8(sentinel),
        !has_nul(encode_utf8(name)),
        !raised(reply.exception),
        reply.required_len <= STRING_BUFFER_LEN,
    ensures
        read_outcome(name, STRING_BUFFER_LEN, true, reply) == Ok::<Option<Seq<char>>, ErrorModel>(
            None,
        ),
        read_outcome(name, VALUE_BUFFER_LEN, false, reply) == Ok::<Option<Seq<char>>, ErrorModel>(
            Some(sentinel),
        ),
{
    lemma_buffer_text_of_encoding(sentinel);
    reveal_strlit("Unknown");
    reveal_strlit("N/A");
    assert("Unknown"@.len() == 7);
    assert("N/A"@.len() == 3);
}

/// A value that is neither empty nor a sentinel reads the same in both
/// modes.
pub proof fn lemma_plain_value_read_modes(name: Seq<char>, reply: ValueReply, room: usize)
    requires
        !is_sentinel(buffer_text(until_nul(reply.buffer@))),
    ensures
        read_outcome(name, room, true, reply) == read_outcome(name, room, false, reply),
{
}

/// The answer of an engine that did what it was asked: a handle, and no
/// exception.
pub open spec fn accepted() -> EngineReply {
    EngineReply { handle: true, exception: None }
}

/// Where a detection ends when the engine accepts every call.
pub open spec fn run_accepted(d: DetectionView) -> Result<ProgressView, ErrorModel>
    decreases d.calls_left(),
    when d.wf()
{
    match step(d, accepted()) {
        Ok(ProgressView::Call(next)) => run_accepted(next),
        Ok(ProgressView::Done(applied)) => Ok(ProgressView::Done(applied)),
        Err(error) => Err(error),
    }
}

/// A detection whose every call the engine accepts ends with a result, and
/// the result was made from all of its evidence.
pub proof fn lemma_accepted_detection_completes(d: DetectionView)
    requires
        d.wf(),
    ensures
        run_accepted(d) == Ok::<ProgressView, ErrorModel>(
            ProgressView::Done(d.evidence.pairs.len()),
        ),
    decreases d.calls_left(),
{
    lemma_step_progress(d, accepted());
    match step(d, accepted()) {
        Ok(ProgressView::Call(next)) => {
            lemma_accepted_detection_completes(next);
        },
        _ => {},
    }
}

/// Evidence of at least one pair, each of which can be encoded, always
/// begins a detection; and where the engine accepts every call, that
/// detection ends with a result made from every pair.
pub proof fn lemma_encodable_evidence_is_detected(evidence_data: Seq<(EvidenceName, &str)>)
    requires
        1 <= evidence_data.len() <= u32::MAX,
        forall|i: int|
            0 <= i < evidence_data.len() ==> pair_refusal(
                #[trigger] evidence_data[i].0.token(),
                evidence_data[i].1@,
            ) is None,
    ensures
        detect_outcome(evidence_data) matches Ok(d) && d.wf() && d.evidence.pairs
            == encoded_evidence(evidence_data) && run_accepted(d) == Ok::<
            ProgressView,
            ErrorModel,
        >(ProgressView::Done(evidence_data.len())),
{
    lemma_first_refusal(evidence_data);
    match detect_outcome(evidence_data) {
        Ok(d) => {
            lemma_accepted_detection_completes(d);
        },
        Err(_) => {},
    }
}

} // verus!
