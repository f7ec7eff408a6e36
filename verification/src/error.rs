//! Error codes and errors reported by zvec operations.
use vstd::prelude::*;

verus! {

/// The status code the zvec C interface returns on success.
pub const ZVEC_OK: u32 = 0;

/// Error codes returned by zvec operations.
#[derive(Debug, Clone, Copy, PartialEq, Eq, Structural)]
pub enum ErrorCode {
    NotFound,
    AlreadyExists,
    InvalidArgument,
    PermissionDenied,
    FailedPrecondition,
    ResourceExhausted,
    Unavailable,
    InternalError,
    NotSupported,
    Unknown,
}

impl ErrorCode {
    /// The numeric code of each error code.
    pub open spec fn code_of(self) -> u32 {
        match self {
            ErrorCode::NotFound => 1,
            ErrorCode::AlreadyExists => 2,
            ErrorCode::InvalidArgument => 3,
            ErrorCode::PermissionDenied => 4,
            ErrorCode::FailedPrecondition => 5,
            ErrorCode::ResourceExhausted => 6,
            ErrorCode::Unavailable => 7,
            ErrorCode::InternalError => 8,
            ErrorCode::NotSupported => 9,
            ErrorCode::Unknown => 10,
        }
    }

    /// The error code a numeric code stands for; every code outside `1..=9`
    /// stands for `Unknown`.
    pub open spec fn of_code(v: u32) -> ErrorCode {
        if v == 1 {
            ErrorCode::NotFound
        } else if v == 2 {
            ErrorCode::AlreadyExists
        } else if v == 3 {
            ErrorCode::InvalidArgument
        } else if v == 4 {
            ErrorCode::PermissionDenied
        } else if v == 5 {
            ErrorCode::FailedPrecondition
        } else if v == 6 {
            ErrorCode::ResourceExhausted
        } else if v == 7 {
            ErrorCode::Unavailable
        } else if v == 8 {
            ErrorCode::InternalError
        } else if v == 9 {
            ErrorCode::NotSupported
        } else {
            ErrorCode::Unknown
        }
    }

    /// The name of each error code.
    pub open spec fn name_of(self) -> Seq<char> {
        match self {
            ErrorCode::NotFound => "NotFound"@,
            ErrorCode::AlreadyExists => "AlreadyExists"@,
            ErrorCode::InvalidArgument => "InvalidArgument"@,
            ErrorCode::PermissionDenied => "PermissionDenied"@,
            ErrorCode::FailedPrecondition => "FailedPrecondition"@,
            ErrorCode::ResourceExhausted => "ResourceExhausted"@,
            ErrorCode::Unavailable => "Unavailable"@,
            ErrorCode::InternalError => "InternalError"@,
            ErrorCode::NotSupported => "NotSupported"@,
            ErrorCode::Unknown => "Unknown"@,
        }
    }

    /// Returns the numeric code of this error code.
    pub fn code(self) -> (c: u32)
        ensures
            c == self.code_of(),
    {
        match self {
            ErrorCode::NotFound => 1,
            ErrorCode::AlreadyExists => 2,
            ErrorCode::InvalidArgument => 3,
            ErrorCode::PermissionDenied => 4,
            ErrorCode::FailedPrecondition => 5,
            ErrorCode::ResourceExhausted => 6,
            ErrorCode::Unavailable => 7,
            ErrorCode::InternalError => 8,
            ErrorCode::NotSupported => 9,
            ErrorCode::Unknown => 10,
        }
    }

    /// Returns the error code a numeric code stands for.
    pub fn from_code(v: u32) -> (r: ErrorCode)
        ensures
            r == ErrorCode::of_code(v),
    {
        match v {
            1 => ErrorCode::NotFound,
            2 => ErrorCode::AlreadyExists,
            3 => ErrorCode::InvalidArgument,
            4 => ErrorCode::PermissionDenied,
            5 => ErrorCode::FailedPrecondition,
            6 => ErrorCode::ResourceExhausted,
            7 => ErrorCode::Unavailable,
            8 => ErrorCode::InternalError,
            9 => ErrorCode::NotSupported,
            _ => ErrorCode::Unknown,
        }
    }

    /// Returns the name of this error code.
    pub fn to_string(&self) -> (s: String)
        ensures
            s@ == self.name_of(),
    {
        match self {
            ErrorCode::NotFound => String::from_str("NotFound"),
            ErrorCode::AlreadyExists => String::from_str("AlreadyExists"),
            ErrorCode::InvalidArgument => String::from_str("InvalidArgument"),
            ErrorCode::PermissionDenied => String::from_str("PermissionDenied"),
            ErrorCode::FailedPrecondition => String::from_str("FailedPrecondition"),
            ErrorCode::ResourceExhausted => String::from_str("ResourceExhausted"),
            ErrorCode::Unavailable => String::from_str("Unavailable"),
            ErrorCode::InternalError => String::from_str("InternalError"),
            ErrorCode::NotSupported => String::from_str("NotSupported"),
            ErrorCode::Unknown => String::from_str("Unknown"),
        }
    }
}

impl From<u32> for ErrorCode {
    fn from(v: u32) -> (r: ErrorCode) {
        ErrorCode::from_code(v)
    }
}

impl vstd::std_specs::convert::FromSpecImpl<u32> for ErrorCode {
    open spec fn obeys_from_spec() -> bool {
        true
    }

    open spec fn from_spec(v: u32) -> ErrorCode {
        ErrorCode::of_code(v)
    }
}

impl From<ErrorCode> for u32 {
    fn from(x: ErrorCode) -> (c: u32) {
        x.code()
    }
}

impl vstd::std_specs::convert::FromSpecImpl<ErrorCode> for u32 {
    open spec fn obeys_from_spec() -> bool {
        true
    }

    open spec fn from_spec(x: ErrorCode) -> u32 {
        x.code_of()
    }
}

/// Every error code survives a trip through its numeric code, its numeric
/// code lies in `1..=10`, and no two error codes share a numeric code.
pub proof fn lemma_error_code_roundtrip(x: ErrorCode, y: ErrorCode)
    ensures
        ErrorCode::of_code(x.code_of()) == x,
        1 <= x.code_of() <= 10,
        x.code_of() == y.code_of() ==> x == y,
{
}

/// A numeric code in `1..=10` converts to an error code and back to itself;
/// every other numeric code converts to `Unknown`.
pub proof fn lemma_error_code_canonical(v: u32)
    ensures
        1 <= v <= 10 ==> ErrorCode::of_code(v).code_of() == v,
        !(1 <= v <= 10) ==> ErrorCode::of_code(v) == ErrorCode::Unknown,
{
}

/// A specialized `Result` type for zvec operations.
pub type Result<T> = std::result::Result<T, Error>;

/// An error returned by zvec operations.
#[derive(Debug, Clone)]
pub struct Error {
    pub code: ErrorCode,
    pub message: String,
}

impl PartialEq for Error {
    fn eq(&self, other: &Error) -> (r: bool) {
        self.code == other.code && self.message == other.message
    }
}

impl vstd::std_specs::cmp::PartialEqSpecImpl for Error {
    open spec fn obeys_eq_spec() -> bool {
        true
    }

    open spec fn eq_spec(&self, other: &Error) -> bool {
        self.code == other.code && self.message@ == other.message@
    }
}

impl Eq for Error {
}

/// The text of an error: `zvec error <code name>: <message>`.
pub open spec fn error_text(code: ErrorCode, message: Seq<char>) -> Seq<char> {
    "zvec error "@ + code.name_of() + ": "@ + message
}

impl Error {
    /// Returns `true` if this is a "not found" error.
    pub fn is_not_found(&self) -> (b: bool)
        ensures
            b == (self.code == ErrorCode::NotFound),
    {
        self.code == ErrorCode::NotFound
    }

    /// Returns `true` if this is an "already exists" error.
    pub fn is_already_exists(&self) -> (b: bool)
        ensures
            b == (self.code == ErrorCode::AlreadyExists),
    {
        self.code == ErrorCode::AlreadyExists
    }

    /// Returns `true` if this is an "invalid argument" error.
    pub fn is_invalid_argument(&self) -> (b: bool)
        ensures
            b == (self.code == ErrorCode::InvalidArgument),
    {
        self.code == ErrorCode::InvalidArgument
    }

    /// Returns the text of this error, `zvec error <code name>: <message>`.
    pub fn to_string(&self) -> (s: String)
        ensures
            s@ == error_text(self.code, self.message@),
    {
        let s = String::from_str("zvec error ");
        let s = s.concat(self.code.to_string().as_str());
        let s = s.concat(": ");
        s.concat(self.message.as_str())
    }
}

/// The message of the error that a string holding a null character gives.
pub open spec fn null_byte_message() -> Seq<char> {
    "string contains null byte"@
}

/// The error that a string holding a null character gives.
pub open spec fn is_null_byte_error(e: Error) -> bool {
    e.code == ErrorCode::InvalidArgument && e.message@ == null_byte_message()
}

/// Whether a string can be handed to the C interface: it holds no null character.
pub open spec fn c_compatible(s: Seq<char>) -> bool {
    !s.contains('\0')
}

/// The error that a string holding a null character gives.
pub fn null_byte_error() -> (e: Error)
    ensures
        is_null_byte_error(e),
{
    Error { code: ErrorCode::InvalidArgument, message: String::from_str("string contains null byte") }
}

/// Returns whether a string holds no null character.
pub fn is_c_compatible(s: &str) -> (b: bool)
    ensures
        b == c_compatible(s@),
{
    let n = s.unicode_len();
    let mut i: usize = 0;
    while i < n
        invariant
            n == s@.len(),
            i <= n,
            forall|j: int| 0 <= j < i ==> s@[j] != '\0',
        decreases n - i,
    {
        if s.get_char(i) == '\0' {
            return false;
        }
        i = i + 1;
    }
    assert(!s@.contains('\0'));
    true
}

/// Checks that a string can be handed to the C interface as a C string.
///
/// Returns a copy of the string when it holds no null character, and an
/// `InvalidArgument` error ("string contains null byte") when it does.
pub fn to_cstring(s: &str) -> (r: Result<String>)
    ensures
        r is Ok <==> c_compatible(s@),
        r matches Ok(v) ==> v@ == s@,
        r matches Err(e) ==> is_null_byte_error(e),
{
    if is_c_compatible(s) {
        Ok(String::from_str(s))
    } else {
        Err(null_byte_error())
    }
}

/// Whether every string of a sequence can be handed to the C interface.
pub open spec fn all_c_compatible(items: Seq<&str>) -> bool {
    forall|i: int| 0 <= i < items.len() ==> c_compatible(#[trigger] items[i]@)
}

/// Checks an optional string as [`to_cstring`] does; an absent string stays
/// absent (the C interface then receives a null pointer, meaning "default").
pub fn to_optional_cstring(s: Option<&str>) -> (r: Result<Option<String>>)
    ensures
        s is None ==> r == Ok::<Option<String>, Error>(None),
        s matches Some(t) ==> (r is Ok <==> c_compatible(t@)),
        s matches Some(t) ==> (r matches Ok(Some(v)) && v@ == t@) || (r matches Err(e)
            && is_null_byte_error(e)),
{
    match s {
        None => Ok(None),
        Some(t) => match to_cstring(t) {
            Ok(v) => Ok(Some(v)),
            Err(e) => Err(e),
        },
    }
}

/// The objects of the C interface whose creation can fail.
#[derive(Debug, Clone, Copy, PartialEq, Eq, Structural)]
pub enum CObject {
    CollectionOptions,
    ConfigData,
    ConsoleLogConfig,
    Document,
    HnswIndexParams,
    IvfIndexParams,
    FlatIndexParams,
    InvertIndexParams,
    FtsIndexParams,
    FieldSchema,
    CollectionSchema,
    FtsQueryParams,
    FtsPayload,
    VectorQuery,
    GroupByVectorQuery,
    MultiQuery,
    SubQuery,
}

impl CObject {
    /// What the creation-failure message calls the object.
    pub open spec fn description(self) -> Seq<char> {
        match self {
            CObject::CollectionOptions => "collection options"@,
            CObject::ConfigData => "config data"@,
            CObject::ConsoleLogConfig => "console log config"@,
            CObject::Document => "document"@,
            CObject::HnswIndexParams => "HNSW index params"@,
            CObject::IvfIndexParams => "IVF index params"@,
            CObject::FlatIndexParams => "Flat index params"@,
            CObject::InvertIndexParams => "Invert index params"@,
            CObject::FtsIndexParams => "FTS index params"@,
            CObject::FieldSchema => "field schema"@,
            CObject::CollectionSchema => "collection schema"@,
            CObject::FtsQueryParams => "FTS query params"@,
            CObject::FtsPayload => "FTS payload"@,
            CObject::VectorQuery => "vector query"@,
            CObject::GroupByVectorQuery => "group by vector query"@,
            CObject::MultiQuery => "multi-query"@,
            CObject::SubQuery => "sub-query"@,
        }
    }

    fn describe(self) -> (s: &'static str)
        ensures
            s@ == self.description(),
    {
        match self {
            CObject::CollectionOptions => "collection options",
            CObject::ConfigData => "config data",
            CObject::ConsoleLogConfig => "console log config",
            CObject::Document => "document",
            CObject::HnswIndexParams => "HNSW index params",
            CObject::IvfIndexParams => "IVF index params",
            CObject::FlatIndexParams => "Flat index params",
            CObject::InvertIndexParams => "Invert index params",
            CObject::FtsIndexParams => "FTS index params",
            CObject::FieldSchema => "field schema",
            CObject::CollectionSchema => "collection schema",
            CObject::FtsQueryParams => "FTS query params",
            CObject::FtsPayload => "FTS payload",
            CObject::VectorQuery => "vector query",
            CObject::GroupByVectorQuery => "group by vector query",
            CObject::MultiQuery => "multi-query",
            CObject::SubQuery => "sub-query",
        }
    }
}

/// Checks the handle the C interface returned when asked to create an object:
/// a null handle gives an `InternalError` "failed to create <object>".
pub fn check_created(handle_is_null: bool, object: CObject) -> (r: Result<()>)
    ensures
        r is Ok <==> !handle_is_null,
        r matches Err(e) ==> e.code == ErrorCode::InternalError && e.message@ == "failed to create "@
            + object.description(),
{
    if handle_is_null {
        let message = String::from_str("failed to create ").concat(object.describe());
        return Err(Error { code: ErrorCode::InternalError, message });
    }
    Ok(())
}

/// Whether a list of owned strings holds the same texts, in the same order, as
/// a list of string slices.
pub open spec fn same_texts(v: Seq<String>, s: Seq<&str>) -> bool {
    v.len() == s.len() && forall|i: int| 0 <= i < v.len() ==> (#[trigger] v[i])@ == s[i]@
}

/// Copies each string of a list into an owned string, in order.
pub fn owned_strings(items: &[&str]) -> (r: Vec<String>)
    ensures
        same_texts(r@, items@),
{
    let mut out: Vec<String> = Vec::new();
    let mut i: usize = 0;
    while i < items.len()
        invariant
            i <= items@.len(),
            out@.len() == i,
            forall|j: int| 0 <= j < i ==> (#[trigger] out@[j])@ == items@[j]@,
        decreases items@.len() - i,
    {
        out.push(String::from_str(items[i]));
        i = i + 1;
    }
    out
}

/// Whether every string of a list of owned strings can be handed to the C interface.
pub open spec fn all_owned_c_compatible(items: Seq<String>) -> bool {
    forall|i: int| 0 <= i < items.len() ==> c_compatible(#[trigger] items[i]@)
}

/// Returns whether every string of a list holds no null character.
pub fn all_strings_c_compatible(items: &Vec<String>) -> (b: bool)
    ensures
        b == all_owned_c_compatible(items@),
{
    let mut i: usize = 0;
    while i < items.len()
        invariant
            i <= items@.len(),
            forall|j: int| 0 <= j < i ==> c_compatible(#[trigger] items@[j]@),
        decreases items@.len() - i,
    {
        if !is_c_compatible(items[i].as_str()) {
            return false;
        }
        i = i + 1;
    }
    true
}

/// Checks each string of a list as [`to_cstring`] does.
///
/// Succeeds, with copies of the strings in the same order, exactly when every
/// string is free of null characters; otherwise returns the null-byte error.
pub fn to_cstrings(items: &[&str]) -> (r: Result<Vec<String>>)
    ensures
        r is Ok <==> all_c_compatible(items@),
        r matches Ok(v) ==> same_texts(v@, items@),
        r matches Err(e) ==> is_null_byte_error(e),
{
    let mut out: Vec<String> = Vec::new();
    let mut i: usize = 0;
    while i < items.len()
        invariant
            i <= items@.len(),
            out@.len() == i,
            forall|j: int| 0 <= j < i ==> (#[trigger] out@[j])@ == items@[j]@,
            forall|j: int| 0 <= j < i ==> c_compatible(#[trigger] items@[j]@),
        decreases items@.len() - i,
    {
        match to_cstring(items[i]) {
            Ok(c) => {
                out.push(c);
            },
            Err(e) => {
                return Err(e);
            },
        }
        i = i + 1;
    }
    Ok(out)
}

/// Converts a status code of the C interface into a `Result`.
///
/// `ZVEC_OK` gives `Ok(())`. Any other code gives an error with the error code
/// that the numeric code stands for and, as message, the last error message
/// that the C interface reported, or "unknown error" where it reported none.
pub fn check_error(code: u32, last_error: Option<String>) -> (r: Result<()>)
    ensures
        r is Ok <==> code == ZVEC_OK,
        r matches Err(e) ==> e.code == ErrorCode::of_code(code) && e.message@ == match last_error {
            Some(m) => m@,
            None => "unknown error"@,
        },
{
    if code == ZVEC_OK {
        return Ok(());
    }
    let message = match last_error {
        Some(m) => m,
        None => String::from_str("unknown error"),
    };
    Err(Error { code: ErrorCode::from_code(code), message })
}

} // verus!
