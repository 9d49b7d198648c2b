use vstd::prelude::*;
use vstd::string::*;
use crate::bigint::{ascii_chars, i64_to_decimal_str, signed_decimal_bytes};
use crate::text::concat2;

verus! {

/// Errors reported by DDS operations.
#[derive(Debug)]
pub enum DdsError {
    ReturnCode(i32),
    InvalidEntity(i32),
    OutOfResources,
    Timeout,
    Unsupported(String),
    BadParameter(String),
    PreconditionNotMet(String),
    OutOfMemory,
    AlreadyDeleted,
    Other(String),
}

pub type DdsResult<T> = Result<T, DdsError>;

/// The error that a (negative) DDS return code stands for, with the text
/// it carries.
pub open spec fn error_of_code(code: i32, e: DdsError) -> bool {
    if code == 0 {
        e matches DdsError::Other(s) && s@ == "unexpected success-to-error conversion"@
    } else if code == -2 {
        e is OutOfMemory
    } else if code == -3 {
        e matches DdsError::BadParameter(s) && s@ == "bad parameter"@
    } else if code == -4 {
        e matches DdsError::PreconditionNotMet(s) && s@ == "precondition not met"@
    } else if code == -5 {
        e is OutOfResources
    } else if code == -6 {
        e matches DdsError::Other(s) && s@ == "not enabled"@
    } else if code == -7 {
        e matches DdsError::Unsupported(s) && s@ == "immutable policy"@
    } else if code == -8 {
        e matches DdsError::Unsupported(s) && s@ == "inconsistent policy"@
    } else if code == -9 {
        e is AlreadyDeleted
    } else if code == -10 {
        e is Timeout
    } else if code == -11 {
        e matches DdsError::Other(s) && s@ == "no data"@
    } else if code == -12 {
        e matches DdsError::Unsupported(s) && s@ == "unsupported"@
    } else {
        e == DdsError::ReturnCode(code)
    }
}

/// The numeric DDS return code that an error carries, if any.
pub open spec fn spec_raw_code(e: DdsError) -> Option<i32> {
    match e {
        DdsError::ReturnCode(code) => Some(code),
        DdsError::InvalidEntity(code) => Some(code),
        DdsError::OutOfMemory => Some(-2i32),
        DdsError::BadParameter(_) => Some(-3i32),
        DdsError::PreconditionNotMet(_) => Some(-4i32),
        DdsError::OutOfResources => Some(-5i32),
        DdsError::AlreadyDeleted => Some(-9i32),
        DdsError::Timeout => Some(-10i32),
        DdsError::Unsupported(_) => None,
        DdsError::Other(_) => None,
    }
}

/// The message of an error, as its `Display` text reads.
pub open spec fn dds_error_text(e: DdsError) -> Seq<char> {
    match e {
        DdsError::ReturnCode(c) => "DDS error code: "@ + ascii_chars(signed_decimal_bytes(c as int)),
        DdsError::InvalidEntity(c) => "invalid entity handle: "@ + ascii_chars(
            signed_decimal_bytes(c as int),
        ),
        DdsError::OutOfResources => "out of resources"@,
        DdsError::Timeout => "operation timed out"@,
        DdsError::Unsupported(s) => "unsupported: "@ + s@,
        DdsError::BadParameter(s) => "bad parameter: "@ + s@,
        DdsError::PreconditionNotMet(s) => "precondition not met: "@ + s@,
        DdsError::OutOfMemory => "out of memory"@,
        DdsError::AlreadyDeleted => "already deleted"@,
        DdsError::Other(s) => "DDS: "@ + s@,
    }
}

impl DdsError {
    /// The error for a DDS return code.
    pub fn from_code(code: i32) -> (e: DdsError)
        ensures
            error_of_code(code, e),
    {
        match code {
            0 => DdsError::Other("unexpected success-to-error conversion".to_owned()),
            -1 => DdsError::ReturnCode(code),
            -2 => DdsError::OutOfMemory,
            -3 => DdsError::BadParameter("bad parameter".to_owned()),
            -4 => DdsError::PreconditionNotMet("precondition not met".to_owned()),
            -5 => DdsError::OutOfResources,
            -6 => DdsError::Other("not enabled".to_owned()),
            -7 => DdsError::Unsupported("immutable policy".to_owned()),
            -8 => DdsError::Unsupported("inconsistent policy".to_owned()),
            -9 => DdsError::AlreadyDeleted,
            -10 => DdsError::Timeout,
            -11 => DdsError::Other("no data".to_owned()),
            -12 => DdsError::Unsupported("unsupported".to_owned()),
            _ => DdsError::ReturnCode(code),
        }
    }

    /// The DDS return code behind this error, when it has one.
    pub fn raw_code(&self) -> (r: Option<i32>)
        ensures
            r == spec_raw_code(*self),
    {
        match self {
            DdsError::ReturnCode(code) => Some(*code),
            DdsError::InvalidEntity(code) => Some(*code),
            DdsError::OutOfMemory => Some(-2),
            DdsError::BadParameter(_) => Some(-3),
            DdsError::PreconditionNotMet(_) => Some(-4),
            DdsError::OutOfResources => Some(-5),
            DdsError::AlreadyDeleted => Some(-9),
            DdsError::Timeout => Some(-10),
            DdsError::Unsupported(_) => None,
            DdsError::Other(_) => None,
        }
    }

    /// True when the error is likely transient, so that the operation may
    /// succeed on retry (a timeout, temporary resource exhaustion).
    pub fn is_transient(&self) -> (r: bool)
        ensures
            r <==> (self is Timeout || self is OutOfResources || self is OutOfMemory
                || self is ReturnCode),
    {
        match self {
            DdsError::Timeout => true,
            DdsError::OutOfResources => true,
            DdsError::OutOfMemory => true,
            DdsError::ReturnCode(_) => true,
            _ => false,
        }
    }

    /// The human-readable message of this error.
    pub fn to_string(&self) -> (r: String)
        ensures
            r@ == dds_error_text(*self),
    {
        match self {
            DdsError::ReturnCode(c) => {
                let d = i64_to_decimal_str(*c as i64);
                concat2("DDS error code: ", d.as_str())
            },
            DdsError::InvalidEntity(c) => {
                let d = i64_to_decimal_str(*c as i64);
                concat2("invalid entity handle: ", d.as_str())
            },
            DdsError::OutOfResources => "out of resources".to_owned(),
            DdsError::Timeout => "operation timed out".to_owned(),
            DdsError::Unsupported(s) => concat2("unsupported: ", s.as_str()),
            DdsError::BadParameter(s) => concat2("bad parameter: ", s.as_str()),
            DdsError::PreconditionNotMet(s) => concat2("precondition not met: ", s.as_str()),
            DdsError::OutOfMemory => "out of memory".to_owned(),
            DdsError::AlreadyDeleted => "already deleted".to_owned(),
            DdsError::Other(s) => concat2("DDS: ", s.as_str()),
        }
    }
}

impl From<i32> for DdsError {
    fn from(code: i32) -> (e: DdsError)
        ensures
            error_of_code(code, e),
    {
        DdsError::from_code(code)
    }
}

impl vstd::std_specs::convert::FromSpecImpl<i32> for DdsError {
    /// The conversion carries text, which a spec value cannot spell, so its
    /// result is stated by [`DdsError::from_code`] instead.
    open spec fn obeys_from_spec() -> bool {
        false
    }

    open spec fn from_spec(code: i32) -> DdsError {
        DdsError::ReturnCode(code)
    }
}

/// Turns a DDS return code into a result: non-negative codes succeed.
pub fn check(ret: i32) -> (r: DdsResult<()>)
    ensures
        r is Ok <==> ret >= 0,
        r matches Err(e) ==> error_of_code(ret, e),
{
    if ret >= 0 {
        Ok(())
    } else {
        Err(DdsError::from_code(ret))
    }
}

/// Turns a DDS entity return value into a result: non-negative values are
/// entity handles and are returned unchanged.
pub fn check_entity(ret: i32) -> (r: DdsResult<i32>)
    ensures
        r is Ok <==> ret >= 0,
        r matches Ok(h) ==> h == ret,
        r matches Err(e) ==> error_of_code(ret, e),
{
    if ret >= 0 {
        Ok(ret)
    } else {
        Err(DdsError::from_code(ret))
    }
}

/// The error number of a DDS return code (`DDS_ERR_NR`, which is the code
/// itself in current CycloneDDS headers).
pub fn err_nr(code: i32) -> (r: i32)
    ensures
        r == code,
{
    code
}

/// The source line recorded in a DDS return code (`DDS_ERR_LINE`; current
/// CycloneDDS headers record none, so this is 0).
pub fn err_line(code: i32) -> (r: u32)
    ensures
        r == 0,
{
    0
}

/// The source file id recorded in a DDS return code (`DDS_ERR_FILE_ID`;
/// current CycloneDDS headers record none, so this is 0).
pub fn err_file_id(code: i32) -> (r: u32)
    ensures
        r == 0,
{
    0
}

/// Every error that a return code maps to reports that code back, except for
/// the codes whose error carries no code of its own (0, -6, -7, -8, -11,
/// -12).
pub proof fn law_raw_code_of_code(code: i32, e: DdsError)
    requires
        error_of_code(code, e),
        code != 0 && code != -6 && code != -7 && code != -8 && code != -11 && code != -12,
    ensures
        spec_raw_code(e) == Some(code),
{
}

} // verus!
