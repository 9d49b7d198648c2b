//! Core DDS types that need neither the native library nor `std`: the
//! opcode table used by embedded targets, helpers that build op words, and
//! the traits that topic types implement.
use vstd::prelude::*;

verus! {

// ---------------------------------------------------------------------------
// Opcode constants
// ---------------------------------------------------------------------------

pub const OP_RTS: u32 = 0x0000_0000;
pub const OP_DLC: u32 = 0x0100_0000;
pub const OP_ADR: u32 = 0x0200_0000;
pub const OP_JEQ4: u32 = 0x0500_0000;
pub const OP_MID: u32 = 0x0600_0000;
pub const OP_KOF: u32 = 0x0700_0000;

pub const VAL_1BY: u32 = 0x01;
pub const VAL_2BY: u32 = 0x02;
pub const VAL_4BY: u32 = 0x04;
pub const VAL_8BY: u32 = 0x05;
pub const VAL_STR: u32 = 0x06;
pub const VAL_BST: u32 = 0x07;
pub const VAL_SEQ: u32 = 0x08;
pub const VAL_BSQ: u32 = 0x09;
pub const VAL_ARR: u32 = 0x0a;

pub const TYPE_1BY: u32 = 0x0001_0000;
pub const TYPE_2BY: u32 = 0x0002_0000;
pub const TYPE_4BY: u32 = 0x0004_0000;
pub const TYPE_8BY: u32 = 0x0005_0000;
pub const TYPE_STR: u32 = 0x0006_0000;
pub const TYPE_BST: u32 = 0x0007_0000;
pub const TYPE_SEQ: u32 = 0x0008_0000;
pub const TYPE_BSQ: u32 = 0x0009_0000;
pub const TYPE_ARR: u32 = 0x000a_0000;
pub const TYPE_ENU: u32 = 0x000b_0000;
pub const TYPE_EXT: u32 = 0x000c_0000;
pub const TYPE_UNI: u32 = 0x000d_0000;

pub const SUBTYPE_1BY: u32 = 0x0001_0000;
pub const SUBTYPE_2BY: u32 = 0x0002_0000;
pub const SUBTYPE_4BY: u32 = 0x0004_0000;
pub const SUBTYPE_8BY: u32 = 0x0005_0000;
pub const SUBTYPE_STR: u32 = 0x0006_0000;
pub const SUBTYPE_BST: u32 = 0x0007_0000;
pub const SUBTYPE_SEQ: u32 = 0x0008_0000;
pub const SUBTYPE_BSQ: u32 = 0x0009_0000;
pub const SUBTYPE_STU: u32 = 0x000a_0000;
pub const SUBTYPE_ENU: u32 = 0x000b_0000;

pub const OP_FLAG_SZ_SHIFT: u32 = 16;
pub const DDS_OP_MASK_CONST: u32 = 0x00ff_ffff;
pub const DDS_OP_TYPE_MASK_CONST: u32 = 0x3f00_0000;
pub const DDS_OP_SUBTYPE_MASK_CONST: u32 = 0x003f_0000;

pub const OP_FLAG_KEY: u32 = 0x01;
pub const OP_FLAG_FP: u32 = 0x02;
pub const OP_FLAG_SGN: u32 = 0x04;
pub const OP_FLAG_EXT: u32 = 0x08;
pub const OP_FLAG_MU: u32 = 0x10;
pub const OP_FLAG_OPT: u32 = 0x20;

// ---------------------------------------------------------------------------
// Helpers that build op words
// ---------------------------------------------------------------------------

/// The ADR words of a simple member: `ADR | typecode` (its low 16 bits are
/// left for the `OP_FLAG_*` bits), then the member's byte offset.
pub fn adr(typecode: u32, offset: u32) -> (r: [u32; 2])
    ensures
        r@ == seq![OP_ADR | typecode, offset],
{
    let r = [OP_ADR | typecode, offset];
    assert(r@ =~= seq![OP_ADR | typecode, offset]);
    r
}

/// The ADR words of a bounded-string member: `ADR | TYPE_BST`, the byte
/// offset, then the maximum length.
pub fn adr_bst(offset: u32, max_len: u32) -> (r: [u32; 3])
    ensures
        r@ == seq![OP_ADR | TYPE_BST, offset, max_len],
{
    let r = [OP_ADR | TYPE_BST, offset, max_len];
    assert(r@ =~= seq![OP_ADR | TYPE_BST, offset, max_len]);
    r
}

/// The ADR words of a key member: `ADR | typecode | KEY`, then the byte
/// offset.
pub fn adr_key(typecode: u32, offset: u32) -> (r: [u32; 2])
    ensures
        r@ == seq![OP_ADR | typecode | OP_FLAG_KEY, offset],
{
    let r = [OP_ADR | typecode | OP_FLAG_KEY, offset];
    assert(r@ =~= seq![OP_ADR | typecode | OP_FLAG_KEY, offset]);
    r
}

/// The op word with its low 16 bits replaced by the low 16 bits of `size`.
pub open spec fn resized(op: u32, size: u32) -> u32 {
    (op & !0xffffu32) | (size & 0xffff)
}

/// Replaces the low 16 bits of each op with the low 16 bits of the size at
/// the same position.
pub fn rebase_ops(ops: &mut [u32], sizes: &[u32])
    requires
        old(ops)@.len() == sizes@.len(),
    ensures
        final(ops)@.len() == old(ops)@.len(),
        forall|i: int|
            0 <= i < sizes@.len() ==> #[trigger] final(ops)@[i] == resized(old(ops)@[i], sizes@[i]),
{
    let n = ops.len();
    let mut i: usize = 0;
    while i < n
        invariant
            n == ops@.len(),
            n == sizes@.len(),
            n == old(ops)@.len(),
            0 <= i <= n,
            forall|j: int| 0 <= j < i ==> #[trigger] ops@[j] == resized(old(ops)@[j], sizes@[j]),
            forall|j: int| i <= j < n ==> #[trigger] ops@[j] == old(ops)@[j],
        decreases n - i,
    {
        let v = (ops[i] & !0xffffu32) | (sizes[i] & 0xffff);
        ops[i] = v;
        i += 1;
    }
}

// ---------------------------------------------------------------------------
// Keys and topic types
// ---------------------------------------------------------------------------

/// A key member: its name and the path of ADR indices that reaches it.
#[derive(Debug, Clone)]
pub struct KeyDescriptor {
    pub name: &'static str,
    pub ops_path: Vec<u32>,
}

/// What a DDS topic type provides: its name, its op stream, and its keys.
pub trait DdsType: Sized {
    fn dds_type_name() -> &'static str;

    fn ops() -> Vec<u32>;

    fn key_count() -> (r: usize)
        default_ensures
            r == 0,
    {
        0
    }

    fn keys() -> (r: Vec<KeyDescriptor>)
        default_ensures
            r@.len() == 0,
    {
        Vec::new()
    }

    fn flagset() -> (r: u32)
        default_ensures
            r == 0,
    {
        0
    }

    fn post_key_ops() -> (r: Vec<u32>)
        default_ensures
            r@.len() == 0,
    {
        Vec::new()
    }
}

/// An enum carried as its discriminant.
pub trait DdsEnumType: Sized + Copy {
    fn max_discriminant() -> u32;

    fn as_u32(self) -> u32;

    fn from_u32(value: u32) -> Option<Self>;
}

/// A union, with the enum that discriminates it.
pub trait DdsUnionType: Sized {
    type Discriminant: DdsEnumType;

    fn discriminant(&self) -> Self::Discriminant;
}

/// A bitmask carried as its bits.
pub trait DdsBitmaskType: Sized + Copy {
    fn as_u32(self) -> u32;

    fn from_u32(value: u32) -> Self;
}

/// The integer type of a union discriminator.
#[derive(Debug, Clone, Copy, PartialEq, Eq, Structural)]
pub enum DiscriminantType {
    U8,
    U16,
    U32,
}

impl DiscriminantType {
    /// The Rust name of the discriminator type (what `Display` prints).
    pub fn to_string(&self) -> (r: String)
        ensures
            r@ == (match *self {
                DiscriminantType::U8 => "u8"@,
                DiscriminantType::U16 => "u16"@,
                DiscriminantType::U32 => "u32"@,
            }),
    {
        match self {
            DiscriminantType::U8 => "u8".to_owned(),
            DiscriminantType::U16 => "u16".to_owned(),
            DiscriminantType::U32 => "u32".to_owned(),
        }
    }
}

} // verus!
