//! The CDR encoding versions that samples can be serialized with.
use vstd::prelude::*;

verus! {

/// CDR encoding version.
#[derive(Debug, Clone, Copy, PartialEq, Eq, Structural)]
pub enum CdrEncoding {
    /// XCDR1 (CDR version 1, used for plain IDL types).
    Xcdr1,
    /// XCDR2 (CDR version 2, required for appendable/mutable types).
    Xcdr2,
}

impl Default for CdrEncoding {
    fn default() -> (r: CdrEncoding)
        ensures
            r == CdrEncoding::Xcdr1,
    {
        CdrEncoding::Xcdr1
    }
}

impl CdrEncoding {
    /// The XCDR version number that the CDR stream API takes.
    pub fn as_xcdr_version(self) -> (r: u32)
        ensures
            r == match self {
                CdrEncoding::Xcdr1 => 1u32,
                CdrEncoding::Xcdr2 => 2u32,
            },
    {
        match self {
            CdrEncoding::Xcdr1 => 1,
            CdrEncoding::Xcdr2 => 2,
        }
    }
}

} // verus!
