use vstd::prelude::*;

verus! {

/// The primitive member types of a dynamic type.
#[derive(Debug, Clone, Copy, PartialEq, Eq, Structural)]
pub enum DynamicPrimitiveKind {
    Boolean,
    Byte,
    Int8,
    UInt8,
    Int16,
    UInt16,
    Int32,
    UInt32,
    Int64,
    UInt64,
    Float32,
    Float64,
    Char8,
    Char16,
}

/// How a dynamic struct may evolve between writer and reader.
#[derive(Debug, Clone, Copy, PartialEq, Eq, Structural)]
pub enum DynamicTypeExtensibility {
    Final,
    Appendable,
    Mutable,
}

/// How member ids of a dynamic type are assigned.
#[derive(Debug, Clone, Copy, PartialEq, Eq, Structural)]
pub enum DynamicTypeAutoId {
    Sequential,
    Hash,
}

/// The value given to a new enum literal.
#[derive(Debug, Clone, Copy, PartialEq, Eq, Structural)]
pub enum DynamicEnumLiteralValue {
    NextAvailable,
    Explicit(i32),
}

} // verus!
