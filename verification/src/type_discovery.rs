//! Reading a struct schema out of a topic descriptor's op stream, and the
//! checks that a dynamic value passes before it is laid out in a native
//! sample.
use vstd::prelude::*;
use vstd::utf8::*;
use crate::bigint::{ascii_chars, decimal_bytes, u64_to_decimal_str};
use crate::dynamic_type::DynamicPrimitiveKind;
use crate::dynamic_value::{
    fields_model, DynamicFieldSchema, DynamicTypeSchema, FieldModel, SchemaModel, ValueModel,
};
use crate::error::{DdsError, DdsResult};
use crate::text::concat2;
use crate::topic::{
    adr_step, adr_width, is_adr, DDS_OP_MASK_CONST, DDS_OP_SUBTYPE_MASK_CONST,
    DDS_OP_TYPE_MASK_CONST, OP_ADR, OP_FLAG_FP, OP_FLAG_KEY, OP_FLAG_OPT, OP_FLAG_SGN,
    SUBTYPE_ENU, TYPE_1BY, TYPE_2BY, TYPE_4BY, TYPE_8BY, TYPE_ARR, TYPE_BST, TYPE_EXT, TYPE_SEQ,
    TYPE_STR,
};

verus! {

// ---------------------------------------------------------------------------
// Bounded strings
// ---------------------------------------------------------------------------

/// The capacity word of the bounded-string ADR at `i`, when it is present
/// and leaves room for the terminator.
pub open spec fn bst_capacity(ops: Seq<u32>, i: int) -> Option<u32> {
    if i + 2 < ops.len() && ops[i + 2] != 0 {
        Some(ops[i + 2])
    } else {
        None
    }
}

/// Why the bounded-string ADR at `i` has no usable capacity.
pub open spec fn capacity_error_text(ops: Seq<u32>, i: int) -> Seq<char> {
    if i + 2 >= ops.len() {
        "bounded string descriptor is missing its capacity"@
    } else {
        "bounded string capacity must include a terminator"@
    }
}

/// The capacity (terminator included) of the bounded-string ADR at
/// `op_index`.
pub fn bounded_string_capacity(ops: &[u32], op_index: usize) -> (r: DdsResult<usize>)
    ensures
        match bst_capacity(ops@, op_index as int) {
            Some(c) => r matches Ok(x) && x == c,
            None => r matches Err(DdsError::BadParameter(m)) && m@ == capacity_error_text(
                ops@,
                op_index as int,
            ),
        },
{
    if op_index >= ops.len() || ops.len() - op_index <= 2 {
        return Err(
            DdsError::BadParameter(
                "bounded string descriptor is missing its capacity".to_owned(),
            ),
        );
    }
    let capacity = ops[op_index + 2] as usize;
    if capacity == 0 {
        return Err(
            DdsError::BadParameter(
                "bounded string capacity must include a terminator".to_owned(),
            ),
        );
    }
    Ok(capacity)
}

/// The text that `String::from_utf8_lossy` makes of a byte string: invalid
/// sequences become U+FFFD.
pub uninterp spec fn utf8_lossy(bytes: Seq<u8>) -> Seq<char>;

/// `String::from_utf8_lossy` from std, made owned.
///
/// Trusted: the result is named `utf8_lossy(bytes)`; std documents that
/// valid UTF-8 comes back unchanged, which the second clause states. What
/// the replacement of invalid sequences produces is left to std.
#[verifier::external_body]
pub(crate) fn string_from_utf8_lossy(bytes: &[u8]) -> (r: String)
    ensures
        r@ == utf8_lossy(bytes@),
        valid_utf8(bytes@) ==> encode_utf8(r@) == bytes@,
{
    String::from_utf8_lossy(bytes).into_owned()
}

/// The position of the first zero byte, if any.
pub open spec fn first_nul(bytes: Seq<u8>) -> int
    decreases bytes.len(),
{
    if bytes.len() == 0 {
        -1
    } else {
        let k = first_nul(bytes.drop_last());
        if k >= 0 {
            k
        } else if bytes.last() == 0 {
            bytes.len() - 1
        } else {
            -1
        }
    }
}

pub(crate) proof fn lemma_first_nul(bytes: Seq<u8>)
    ensures
        first_nul(bytes) == -1 <==> forall|j: int| 0 <= j < bytes.len() ==> bytes[j] != 0,
        first_nul(bytes) != -1 ==> 0 <= first_nul(bytes) < bytes.len() && bytes[first_nul(bytes)]
            == 0 && forall|j: int| 0 <= j < first_nul(bytes) ==> bytes[j] != 0,
    decreases bytes.len(),
{
    if bytes.len() > 0 {
        lemma_first_nul(bytes.drop_last());
        assert(forall|j: int| 0 <= j < bytes.len() - 1 ==> bytes.drop_last()[j] == bytes[j]);
    }
}

/// The text of a native bounded string: the bytes before the first zero
/// byte, decoded as `String::from_utf8_lossy` does; refused with
/// `BadParameter` when there is no zero byte.
pub fn decode_bounded_string(bytes: &[u8]) -> (r: DdsResult<String>)
    ensures
        first_nul(bytes@) == -1 ==> r matches Err(DdsError::BadParameter(_)),
        first_nul(bytes@) != -1 ==> (r matches Ok(s) && s@ == utf8_lossy(
            bytes@.take(first_nul(bytes@)),
        )),
{
    proof {
        lemma_first_nul(bytes@);
    }
    let mut i: usize = 0;
    while i < bytes.len()
        invariant
            0 <= i <= bytes@.len(),
            forall|j: int| 0 <= j < i ==> bytes@[j] != 0,
        decreases bytes@.len() - i,
    {
        if bytes[i] == 0 {
            proof {
                lemma_first_nul(bytes@);
                let k = first_nul(bytes@);
                assert(k != -1);
                if k < i {
                    assert(bytes@[k] != 0);
                }
                if k > i {
                    assert(bytes@[i as int] != 0);
                }
            }
            let mut prefix: Vec<u8> = Vec::new();
            let mut k: usize = 0;
            while k < i
                invariant
                    0 <= k <= i,
                    i < bytes@.len(),
                    prefix@ == bytes@.take(k as int),
                decreases i - k,
            {
                prefix.push(bytes[k]);
                k += 1;
                assert(prefix@ =~= bytes@.take(k as int));
            }
            return Ok(string_from_utf8_lossy(prefix.as_slice()));
        }
        i += 1;
    }
    Err(DdsError::BadParameter("bounded native string is not null-terminated".to_owned()))
}

// ---------------------------------------------------------------------------
// Schemas from op streams
// ---------------------------------------------------------------------------

/// The name given to the member read from the `idx`-th ADR instruction.
pub open spec fn generated_field_name(idx: nat) -> Seq<char> {
    "field_"@ + ascii_chars(decimal_bytes(idx))
}

/// The member type that the ADR instruction at `i` describes; `None` for a
/// bounded string whose capacity word is missing or zero.
pub open spec fn adr_member_schema(ops: Seq<u32>, i: int) -> Option<SchemaModel> {
    let op = ops[i];
    let primary = op & DDS_OP_TYPE_MASK_CONST;
    let subtype = op & DDS_OP_SUBTYPE_MASK_CONST;
    let signed = op & OP_FLAG_SGN != 0;
    let float = op & OP_FLAG_FP != 0;
    if primary == TYPE_1BY {
        Some(
            SchemaModel::Primitive(
                if signed {
                    DynamicPrimitiveKind::Int8
                } else {
                    DynamicPrimitiveKind::UInt8
                },
            ),
        )
    } else if primary == TYPE_2BY {
        Some(
            SchemaModel::Primitive(
                if signed {
                    DynamicPrimitiveKind::Int16
                } else {
                    DynamicPrimitiveKind::UInt16
                },
            ),
        )
    } else if primary == TYPE_4BY {
        if subtype == SUBTYPE_ENU {
            Some(SchemaModel::Enum { name: Seq::empty(), literals: Seq::empty(), bit_bound: None })
        } else {
            Some(
                SchemaModel::Primitive(
                    if float {
                        DynamicPrimitiveKind::Float32
                    } else if signed {
                        DynamicPrimitiveKind::Int32
                    } else {
                        DynamicPrimitiveKind::UInt32
                    },
                ),
            )
        }
    } else if primary == TYPE_8BY {
        Some(
            SchemaModel::Primitive(
                if float {
                    DynamicPrimitiveKind::Float64
                } else if signed {
                    DynamicPrimitiveKind::Int64
                } else {
                    DynamicPrimitiveKind::UInt64
                },
            ),
        )
    } else if primary == TYPE_STR {
        Some(SchemaModel::String { bound: None })
    } else if primary == TYPE_BST {
        match bst_capacity(ops, i) {
            Some(c) => Some(SchemaModel::String { bound: Some((c - 1) as u32) }),
            None => None,
        }
    } else if primary == TYPE_SEQ {
        Some(
            SchemaModel::Sequence {
                name: Seq::empty(),
                bound: None,
                element: Box::new(SchemaModel::Primitive(DynamicPrimitiveKind::Int8)),
            },
        )
    } else if primary == TYPE_ARR {
        Some(
            SchemaModel::Array {
                name: Seq::empty(),
                bounds: seq![0u32],
                element: Box::new(SchemaModel::Primitive(DynamicPrimitiveKind::Int8)),
            },
        )
    } else if primary == TYPE_EXT {
        Some(
            SchemaModel::Struct {
                name: Seq::empty(),
                base: None,
                fields: Seq::empty(),
                extensibility: None,
                autoid: None,
                nested: true,
            },
        )
    } else {
        Some(SchemaModel::Primitive(DynamicPrimitiveKind::Int8))
    }
}

/// The member read from the ADR instruction at `i`, the `idx`-th one.
pub open spec fn adr_field(ops: Seq<u32>, i: int, idx: nat, s: SchemaModel) -> FieldModel {
    FieldModel {
        name: generated_field_name(idx),
        member_id: idx as u32,
        value: s,
        optional: ops[i] & OP_FLAG_OPT != 0,
        key: ops[i] & OP_FLAG_KEY != 0,
        external: false,
        must_understand: false,
        hash_id_name: None,
    }
}

/// The members described by the op stream from position `i` on, the first
/// of them being the `idx`-th; `None` when a bounded string there lacks a
/// usable capacity. Words that are not ADR instructions are skipped one at
/// a time, ADR instructions by their width.
pub open spec fn parsed_fields(ops: Seq<u32>, i: nat, idx: nat) -> Option<Seq<FieldModel>>
    decreases (if i <= ops.len() { ops.len() - i } else { 0 }),
{
    if i >= ops.len() {
        Some(Seq::empty())
    } else if !is_adr(ops[i as int]) {
        parsed_fields(ops, i + 1, idx)
    } else {
        match adr_member_schema(ops, i as int) {
            None => None,
            Some(s) => match parsed_fields(ops, i + adr_width(ops[i as int]), idx + 1) {
                None => None,
                Some(rest) => Some(seq![adr_field(ops, i as int, idx, s)] + rest),
            },
        }
    }
}

/// Why the op parser refuses the bounded-string ADR at `i`.
pub open spec fn descriptor_capacity_error_text(ops: Seq<u32>, i: int) -> Seq<char> {
    if i + 2 >= ops.len() {
        "bounded string descriptor is missing its capacity"@
    } else {
        "bounded string descriptor capacity must include a terminator"@
    }
}

/// The refusal of the op parser from position `i` on: that of the first
/// ADR instruction whose member type cannot be read (empty when there is
/// none).
pub open spec fn parse_failure(ops: Seq<u32>, i: nat) -> Seq<char>
    decreases (if i <= ops.len() { ops.len() - i } else { 0 }),
{
    if i >= ops.len() {
        Seq::empty()
    } else if !is_adr(ops[i as int]) {
        parse_failure(ops, i + 1)
    } else if adr_member_schema(ops, i as int) is None {
        descriptor_capacity_error_text(ops, i as int)
    } else {
        parse_failure(ops, i + adr_width(ops[i as int]))
    }
}

/// The number of bytes a value of a primitive kind occupies.
pub open spec fn primitive_size(k: DynamicPrimitiveKind) -> nat {
    match k {
        DynamicPrimitiveKind::Boolean => 1,
        DynamicPrimitiveKind::Byte => 1,
        DynamicPrimitiveKind::Int8 => 1,
        DynamicPrimitiveKind::UInt8 => 1,
        DynamicPrimitiveKind::Char8 => 1,
        DynamicPrimitiveKind::Int16 => 2,
        DynamicPrimitiveKind::UInt16 => 2,
        DynamicPrimitiveKind::Char16 => 2,
        DynamicPrimitiveKind::Int32 => 4,
        DynamicPrimitiveKind::UInt32 => 4,
        DynamicPrimitiveKind::Float32 => 4,
        DynamicPrimitiveKind::Int64 => 8,
        DynamicPrimitiveKind::UInt64 => 8,
        DynamicPrimitiveKind::Float64 => 8,
    }
}

/// The signed integer kinds.
pub open spec fn is_signed_integer(k: DynamicPrimitiveKind) -> bool {
    k == DynamicPrimitiveKind::Int8 || k == DynamicPrimitiveKind::Int16 || k == DynamicPrimitiveKind::Int32
        || k == DynamicPrimitiveKind::Int64
}

/// The unsigned integer kinds.
pub open spec fn is_unsigned_integer(k: DynamicPrimitiveKind) -> bool {
    k == DynamicPrimitiveKind::UInt8 || k == DynamicPrimitiveKind::UInt16 || k
        == DynamicPrimitiveKind::UInt32 || k == DynamicPrimitiveKind::UInt64
}

/// The floating-point kinds.
pub open spec fn is_float_kind(k: DynamicPrimitiveKind) -> bool {
    k == DynamicPrimitiveKind::Float32 || k == DynamicPrimitiveKind::Float64
}

/// The member type read from a 1-, 2-, 4- or 8-byte ADR instruction (not an
/// enum) is a number of that many bytes: a float exactly when the
/// instruction is a 4- or 8-byte one with the float flag, and otherwise an
/// integer that is signed exactly when the instruction has the sign flag.
/// A string instruction gives an unbounded string, a bounded-string one
/// with capacity `c` (terminator included) a string bounded by `c - 1`, and
/// a 4-byte enum instruction an enum; a sequence instruction an unbounded
/// sequence, an array instruction an array, and an external one a nested
/// struct. Only a bounded string can fail to give a type.
pub proof fn law_discovered_member_follows_op(ops: Seq<u32>, i: int)
    requires
        0 <= i < ops.len(),
    ensures
        ({
            let op = ops[i];
            let primary = op & DDS_OP_TYPE_MASK_CONST;
            let width: nat = if primary == TYPE_1BY {
                1
            } else if primary == TYPE_2BY {
                2
            } else if primary == TYPE_4BY {
                4
            } else {
                8
            };
            &&& (primary == TYPE_1BY || primary == TYPE_2BY || primary == TYPE_8BY || (primary
                == TYPE_4BY && op & DDS_OP_SUBTYPE_MASK_CONST != SUBTYPE_ENU)) ==> (adr_member_schema(
                ops,
                i,
            ) matches Some(SchemaModel::Primitive(k)) && primitive_size(k) == width && (is_float_kind(k)
                <==> ((primary == TYPE_4BY || primary == TYPE_8BY) && op & OP_FLAG_FP != 0)) && (
            !is_float_kind(k) ==> (is_signed_integer(k) || is_unsigned_integer(k)) && (is_signed_integer(k)
                <==> op & OP_FLAG_SGN != 0)))
            &&& primary == TYPE_4BY && op & DDS_OP_SUBTYPE_MASK_CONST == SUBTYPE_ENU ==> (adr_member_schema(
                ops,
                i,
            ) matches Some(SchemaModel::Enum { .. }))
            &&& primary == TYPE_STR ==> adr_member_schema(ops, i) == Some(SchemaModel::String { bound: None })
            &&& primary == TYPE_BST && i + 2 < ops.len() && ops[i + 2] > 0 ==> adr_member_schema(ops, i)
                == Some(SchemaModel::String { bound: Some((ops[i + 2] - 1) as u32) })
            &&& primary == TYPE_BST && !(i + 2 < ops.len() && ops[i + 2] > 0) ==> adr_member_schema(ops, i)
                is None
            &&& primary == TYPE_SEQ ==> (adr_member_schema(ops, i) matches Some(SchemaModel::Sequence { bound, .. })
                && bound is None)
            &&& primary == TYPE_ARR ==> (adr_member_schema(ops, i) matches Some(SchemaModel::Array { .. }))
            &&& primary == TYPE_EXT ==> (adr_member_schema(ops, i) matches Some(SchemaModel::Struct { nested, .. })
                && nested)
            &&& primary != TYPE_BST ==> adr_member_schema(ops, i) is Some
        }),
{
}

/// The fields read from an op stream come one per ADR instruction walked,
/// in order: the `k`-th is named `field_<k>` and has member id `k` (counting
/// from `idx`), and takes its type and its optional and key flags from its
/// instruction.
pub proof fn law_parsed_fields_follow_instructions(ops: Seq<u32>, i: nat, idx: nat)
    requires
        i <= ops.len() ==> idx + (ops.len() - i) <= u32::MAX,
    ensures
        parsed_fields(ops, i, idx) matches Some(fs) ==> forall|k: int|
            0 <= k < fs.len() ==> {
                &&& (#[trigger] fs[k]).name == "field_"@ + ascii_chars(decimal_bytes((idx + k) as nat))
                &&& fs[k].member_id == idx + k
                &&& exists|p: int|
                    i <= p < ops.len() && is_adr(ops[p]) && adr_member_schema(ops, p) == Some(fs[k].value)
                        && fs[k].optional == (ops[p] & OP_FLAG_OPT != 0) && fs[k].key == (ops[p]
                        & OP_FLAG_KEY != 0)
            },
        parsed_fields(ops, i, idx) matches Some(fs) ==> fs.len() + i <= ops.len() || fs.len() == 0,
    decreases (if i <= ops.len() { ops.len() - i } else { 0 }),
{
    if i >= ops.len() {
    } else if !is_adr(ops[i as int]) {
        law_parsed_fields_follow_instructions(ops, i + 1, idx);
    } else {
        match adr_member_schema(ops, i as int) {
            None => {},
            Some(sc) => {
                let w = adr_width(ops[i as int]);
                law_parsed_fields_follow_instructions(ops, i + w, idx + 1);
                match parsed_fields(ops, i + w, idx + 1) {
                    None => {},
                    Some(rest) => {
                        let fs = seq![adr_field(ops, i as int, idx, sc)] + rest;
                        assert forall|k: int| 0 <= k < fs.len() implies {
                            &&& (#[trigger] fs[k]).name == "field_"@ + ascii_chars(decimal_bytes((idx + k) as nat))
                            &&& fs[k].member_id == idx + k
                            &&& exists|p: int|
                                i <= p < ops.len() && is_adr(ops[p]) && adr_member_schema(ops, p) == Some(fs[k].value)
                                    && fs[k].optional == (ops[p] & OP_FLAG_OPT != 0) && fs[k].key == (ops[p]
                                    & OP_FLAG_KEY != 0)
                        } by {
                            if k == 0 {
                                assert(fs[0] == adr_field(ops, i as int, idx, sc));
                            } else {
                                assert(fs[k] == rest[k - 1]);
                                assert(idx + 1 + (k - 1) == idx + k);
                            }
                        }
                    },
                }
            },
        }
    }
}

fn member_schema(ops: &[u32], i: usize) -> (r: DdsResult<DynamicTypeSchema>)
    requires
        i < ops@.len(),
    ensures
        match adr_member_schema(ops@, i as int) {
            Some(s) => r matches Ok(x) && x@ == s,
            None => r matches Err(DdsError::BadParameter(m)) && m@ == descriptor_capacity_error_text(
                ops@,
                i as int,
            ),
        },
{
    let op = ops[i];
    let primary = op & DDS_OP_TYPE_MASK_CONST;
    let subtype = op & DDS_OP_SUBTYPE_MASK_CONST;
    let signed = op & OP_FLAG_SGN != 0;
    let float = op & OP_FLAG_FP != 0;
    assert(crate::dynamic_value::schema_model(
        DynamicTypeSchema::Primitive(DynamicPrimitiveKind::Int8),
    ) == SchemaModel::Primitive(DynamicPrimitiveKind::Int8));
    if primary == TYPE_1BY {
        Ok(
            DynamicTypeSchema::Primitive(
                if signed {
                    DynamicPrimitiveKind::Int8
                } else {
                    DynamicPrimitiveKind::UInt8
                },
            ),
        )
    } else if primary == TYPE_2BY {
        Ok(
            DynamicTypeSchema::Primitive(
                if signed {
                    DynamicPrimitiveKind::Int16
                } else {
                    DynamicPrimitiveKind::UInt16
                },
            ),
        )
    } else if primary == TYPE_4BY {
        if subtype == SUBTYPE_ENU {
            let r = DynamicTypeSchema::Enum {
                name: String::new(),
                literals: Vec::new(),
                bit_bound: None,
            };
            assert(crate::dynamic_value::literals_model(Seq::empty()) =~= Seq::empty());
            Ok(r)
        } else {
            Ok(
                DynamicTypeSchema::Primitive(
                    if float {
                        DynamicPrimitiveKind::Float32
                    } else if signed {
                        DynamicPrimitiveKind::Int32
                    } else {
                        DynamicPrimitiveKind::UInt32
                    },
                ),
            )
        }
    } else if primary == TYPE_8BY {
        Ok(
            DynamicTypeSchema::Primitive(
                if float {
                    DynamicPrimitiveKind::Float64
                } else if signed {
                    DynamicPrimitiveKind::Int64
                } else {
                    DynamicPrimitiveKind::UInt64
                },
            ),
        )
    } else if primary == TYPE_STR {
        Ok(DynamicTypeSchema::String { bound: None })
    } else if primary == TYPE_BST {
        if ops.len() - i <= 2 {
            return Err(
                DdsError::BadParameter(
                    "bounded string descriptor is missing its capacity".to_owned(),
                ),
            );
        }
        let c = ops[i + 2];
        if c == 0 {
            return Err(
                DdsError::BadParameter(
                    "bounded string descriptor capacity must include a terminator".to_owned(),
                ),
            );
        }
        Ok(DynamicTypeSchema::String { bound: Some(c - 1) })
    } else if primary == TYPE_SEQ {
        Ok(
            DynamicTypeSchema::Sequence {
                name: String::new(),
                bound: None,
                element: Box::new(DynamicTypeSchema::Primitive(DynamicPrimitiveKind::Int8)),
            },
        )
    } else if primary == TYPE_ARR {
        let mut bounds: Vec<u32> = Vec::new();
        bounds.push(0);
        assert(bounds@ =~= seq![0u32]);
        Ok(
            DynamicTypeSchema::Array {
                name: String::new(),
                bounds,
                element: Box::new(DynamicTypeSchema::Primitive(DynamicPrimitiveKind::Int8)),
            },
        )
    } else if primary == TYPE_EXT {
        let r = DynamicTypeSchema::Struct {
            name: String::new(),
            base: None,
            fields: Vec::new(),
            extensibility: None,
            autoid: None,
            nested: true,
        };
        assert(fields_model(Seq::<DynamicFieldSchema>::empty()) =~= Seq::empty());
        Ok(r)
    } else {
        Ok(DynamicTypeSchema::Primitive(DynamicPrimitiveKind::Int8))
    }
}

/// The members of a struct described by an op stream (see
/// [`parsed_fields`]); refused with `BadParameter` when a bounded string
/// lacks a usable capacity, with the message of [`parse_failure`].
pub fn parse_ops_to_fields(ops: &[u32], struct_size: u32) -> (r: DdsResult<Vec<DynamicFieldSchema>>)
    requires
        ops@.len() <= u32::MAX,
    ensures
        match parsed_fields(ops@, 0, 0) {
            Some(fs) => r matches Ok(v) && fields_model(v@) == fs,
            None => r matches Err(DdsError::BadParameter(m)) && m@ == parse_failure(ops@, 0),
        },
{
    let mut fields: Vec<DynamicFieldSchema> = Vec::new();
    let mut i: usize = 0;
    let mut idx: u32 = 0;
    while i < ops.len()
        invariant
            ops@.len() <= u32::MAX,
            idx <= i,
            parsed_fields(ops@, 0, 0) == match parsed_fields(ops@, i as nat, idx as nat) {
                Some(rest) => Some(fields_model(fields@) + rest),
                None => None,
            },
            parse_failure(ops@, 0) == parse_failure(ops@, i as nat),
        decreases ops@.len() - i,
    {
        let op = ops[i];
        if (op & DDS_OP_MASK_CONST) != OP_ADR {
            i += 1;
            continue;
        }
        let schema = match member_schema(ops, i) {
            Ok(s) => s,
            Err(e) => {
                return Err(e);
            },
        };
        let name = concat2("field_", u64_to_decimal_str(idx as u64).as_str());
        let f = DynamicFieldSchema {
            name,
            member_id: idx,
            value: schema,
            optional: op & OP_FLAG_OPT != 0,
            key: op & OP_FLAG_KEY != 0,
            external: false,
            must_understand: false,
            hash_id_name: None,
        };
        let ghost before = fields@;
        let ghost sm = schema@;
        fields.push(f);
        assert(fields_model(fields@) =~= fields_model(before) + seq![
            adr_field(ops@, i as int, idx as nat, sm),
        ]);
        let w = adr_step(ops, i);
        assert(parse_failure(ops@, i as nat) == parse_failure(ops@, (i + w) as nat));
        idx += 1;
        if w >= ops.len() - i {
            assert(parsed_fields(ops@, (i + w) as nat, idx as nat) == Some(Seq::<FieldModel>::empty()));
            assert(parsed_fields(ops@, ops@.len(), idx as nat) == Some(Seq::<FieldModel>::empty()));
            assert(parse_failure(ops@, ops@.len()) == Seq::<char>::empty());
            i = ops.len();
        } else {
            i += w;
        }
    }
    Ok(fields)
}

/// The model of a field's type.
pub open spec fn schema_of_field(f: DynamicFieldSchema) -> SchemaModel {
    crate::dynamic_value::schema_model(f.value)
}


// ---------------------------------------------------------------------------
// Native layout checks
// ---------------------------------------------------------------------------

/// No two fields share a name.
pub open spec fn names_distinct(fs: Seq<FieldModel>) -> bool {
    forall|i: int, j: int| 0 <= i < j < fs.len() ==> fs[i].name != fs[j].name
}

/// No two fields share a member id.
pub open spec fn ids_distinct(fs: Seq<FieldModel>) -> bool {
    forall|i: int, j: int| 0 <= i < j < fs.len() ==> fs[i].member_id != fs[j].member_id
}

/// The member for the ADR instruction at `i` can be laid out: a string
/// member (bounded or not) needs a string value without a zero byte, and a
/// bounded one also needs a usable capacity that leaves room for the
/// terminator after the text's bytes.
pub open spec fn native_member_ok(ops: Seq<u32>, i: int, v: ValueModel) -> bool {
    let primary = ops[i] & DDS_OP_TYPE_MASK_CONST;
    if primary == TYPE_STR {
        v matches ValueModel::String(x) && !encode_utf8(x).contains(0u8)
    } else if primary == TYPE_BST {
        &&& v matches ValueModel::String(x)
        &&& bst_capacity(ops, i) is Some
        &&& encode_utf8(v->String_0).len() <= bst_capacity(ops, i).unwrap() - 1
        &&& !encode_utf8(v->String_0).contains(0u8)
    } else {
        true
    }
}

/// The walk over the op stream from position `i`, with `k` members already
/// matched, succeeds: each ADR instruction takes the next schema field,
/// whose member is present in the value and can be laid out, and the
/// fields run out exactly with the instructions.
pub open spec fn native_walk(
    ops: Seq<u32>,
    i: nat,
    k: nat,
    es: Seq<(Seq<char>, crate::dynamic_value::ValueModel)>,
    fields: Seq<FieldModel>,
) -> bool
    decreases (if i <= ops.len() { ops.len() - i } else { 0 }),
{
    if i >= ops.len() {
        k == fields.len()
    } else if !is_adr(ops[i as int]) {
        native_walk(ops, i + 1, k, es, fields)
    } else {
        &&& k < fields.len()
        &&& crate::dynamic_value::entry_lookup(es, fields[k as int].name) is Some
        &&& native_member_ok(
            ops,
            i as int,
            crate::dynamic_value::entry_lookup(es, fields[k as int].name).unwrap(),
        )
        &&& native_walk(ops, i + adr_width(ops[i as int]), k + 1, es, fields)
    }
}

/// Data can be written to a native sample laid out by `ops`: it conforms
/// to its schema, both are structs, the schema's fields have distinct names
/// and member ids, the value has exactly as many members as the schema has
/// fields, and the op stream walks them in order.
pub open spec fn native_ok(d: crate::dynamic_data::DataModel, ops: Seq<u32>) -> bool {
    &&& crate::dynamic_value::conforms(d.value, d.schema)
    &&& d.value matches crate::dynamic_value::ValueModel::Struct(es)
    &&& d.schema matches SchemaModel::Struct { fields, .. }
    &&& names_distinct(fields)
    &&& ids_distinct(fields)
    &&& es.len() == fields.len()
    &&& native_walk(ops, 0, 0, es, fields)
}

/// Whether the text's UTF-8 bytes hold a zero byte.
pub(crate) fn has_nul(s: &str) -> (r: bool)
    ensures
        r == encode_utf8(s@).contains(0u8),
{
    let b = s.as_bytes();
    let mut i: usize = 0;
    while i < b.len()
        invariant
            0 <= i <= b@.len(),
            b@ == encode_utf8(s@),
            forall|j: int| 0 <= j < i ==> b@[j] != 0,
        decreases b@.len() - i,
    {
        if b[i] == 0 {
            assert(b@[i as int] == 0);
            return true;
        }
        i += 1;
    }
    false
}

/// The complaint about field `j`: its name is taken by an earlier field,
/// else its member id is.
pub open spec fn pair_error(fs: Seq<FieldModel>, j: int) -> Option<Seq<char>> {
    if exists|i: int| 0 <= i < j && fs[i].name == fs[j].name {
        Some("duplicate dynamic field name '"@ + fs[j].name + "'"@)
    } else if exists|i: int| 0 <= i < j && fs[i].member_id == fs[j].member_id {
        Some("duplicate dynamic member id "@ + ascii_chars(decimal_bytes(fs[j].member_id as nat)))
    } else {
        None
    }
}

/// The first complaint about duplicate names or member ids, taking the
/// fields from `j` on in order, each against those before it.
pub open spec fn distinct_error(fs: Seq<FieldModel>, j: int) -> Option<Seq<char>>
    decreases fs.len() - j,
{
    if j >= fs.len() || j < 0 {
        None
    } else {
        match pair_error(fs, j) {
            Some(m) => Some(m),
            None => distinct_error(fs, j + 1),
        }
    }
}

/// Checks that the fields have distinct names and member ids.
fn check_distinct(fields: &Vec<DynamicFieldSchema>) -> (r: DdsResult<()>)
    ensures
        r is Ok <==> (names_distinct(fields_model(fields@)) && ids_distinct(fields_model(fields@))),
        match r {
            Err(DdsError::BadParameter(m)) => distinct_error(fields_model(fields@), 0) == Some(m@),
            Err(_) => false,
            Ok(_) => distinct_error(fields_model(fields@), 0) is None,
        },
{
    let ghost fm = fields_model(fields@);
    let mut j: usize = 0;
    while j < fields.len()
        invariant
            0 <= j <= fields@.len(),
            fm == fields_model(fields@),
            forall|a: int, b: int| 0 <= a < b < j ==> fm[a].name != fm[b].name,
            forall|a: int, b: int| 0 <= a < b < j ==> fm[a].member_id != fm[b].member_id,
            distinct_error(fm, 0) == distinct_error(fm, j as int),
        decreases fields@.len() - j,
    {
        let mut i: usize = 0;
        while i < j
            invariant
                0 <= i <= j < fields@.len(),
                fm == fields_model(fields@),
                forall|a: int| 0 <= a < i ==> fm[a].name != fm[j as int].name,
                distinct_error(fm, 0) == distinct_error(fm, j as int),
            decreases j - i,
        {
            if crate::text::str_eq(fields[i].name.as_str(), fields[j].name.as_str()) {
                assert(fm[i as int].name == fm[j as int].name);
                return Err(
                    DdsError::BadParameter(
                        crate::text::concat3(
                            "duplicate dynamic field name '",
                            fields[j].name.as_str(),
                            "'",
                        ),
                    ),
                );
            }
            i += 1;
        }
        let mut i: usize = 0;
        while i < j
            invariant
                0 <= i <= j < fields@.len(),
                fm == fields_model(fields@),
                forall|a: int| 0 <= a < j ==> fm[a].name != fm[j as int].name,
                forall|a: int| 0 <= a < i ==> fm[a].member_id != fm[j as int].member_id,
                distinct_error(fm, 0) == distinct_error(fm, j as int),
            decreases j - i,
        {
            if fields[i].member_id == fields[j].member_id {
                assert(fm[i as int].member_id == fm[j as int].member_id);
                let mut m = "duplicate dynamic member id ".to_owned();
                m.append(u64_to_decimal_str(fields[j].member_id as u64).as_str());
                return Err(DdsError::BadParameter(m));
            }
            i += 1;
        }
        assert(pair_error(fm, j as int) is None);
        j += 1;
    }
    Ok(())
}

/// The complaint about the member for the ADR instruction at `i`, holding
/// `v`, of the field named `name`: a string member needs a string value; a
/// bounded one a usable capacity and room for the terminator after the
/// text's bytes; and no string may hold a zero byte.
pub open spec fn member_error(ops: Seq<u32>, i: int, v: ValueModel, name: Seq<char>) -> Option<Seq<char>> {
    let primary = ops[i] & DDS_OP_TYPE_MASK_CONST;
    if primary == TYPE_STR || primary == TYPE_BST {
        match v {
            ValueModel::String(x) => if primary == TYPE_BST && bst_capacity(ops, i) is None {
                Some(capacity_error_text(ops, i))
            } else if primary == TYPE_BST && encode_utf8(x).len() > bst_capacity(ops, i).unwrap() - 1 {
                Some(
                    "string length "@ + ascii_chars(decimal_bytes(encode_utf8(x).len()))
                        + " exceeds bound "@ + ascii_chars(
                        decimal_bytes((bst_capacity(ops, i).unwrap() - 1) as nat),
                    ),
                )
            } else if encode_utf8(x).contains(0u8) {
                Some("string contains an interior null"@)
            } else {
                None
            },
            _ => Some("dynamic field '"@ + name + "' is not a string"@),
        }
    } else {
        None
    }
}

/// The first complaint of the walk that [`native_walk`] describes, from
/// position `i` with `k` members matched.
pub open spec fn walk_error(
    ops: Seq<u32>,
    i: nat,
    k: nat,
    es: Seq<(Seq<char>, ValueModel)>,
    fields: Seq<FieldModel>,
) -> Option<Seq<char>>
    decreases (if i <= ops.len() { ops.len() - i } else { 0 }),
{
    if i >= ops.len() {
        if k == fields.len() {
            None
        } else {
            Some("dynamic schema has more fields than the native descriptor"@)
        }
    } else if !is_adr(ops[i as int]) {
        walk_error(ops, i + 1, k, es, fields)
    } else if k >= fields.len() {
        Some("native descriptor has more fields than the dynamic schema"@)
    } else {
        match crate::dynamic_value::entry_lookup(es, fields[k as int].name) {
            None => Some("missing required dynamic field '"@ + fields[k as int].name + "'"@),
            Some(v) => match member_error(ops, i as int, v, fields[k as int].name) {
                Some(m) => Some(m),
                None => walk_error(ops, i + adr_width(ops[i as int]), k + 1, es, fields),
            },
        }
    }
}

/// The message with which data that conforms to its schema is refused for
/// the native sample laid out by `ops`.
pub open spec fn native_error_text(d: crate::dynamic_data::DataModel, ops: Seq<u32>) -> Seq<char> {
    match d.value {
        ValueModel::Struct(es) => match d.schema {
            SchemaModel::Struct { fields, .. } => match distinct_error(fields, 0) {
                Some(m) => m,
                None => if es.len() != fields.len() {
                    "dynamic value has "@ + ascii_chars(decimal_bytes(es.len())) + " fields but schema requires "@
                        + ascii_chars(decimal_bytes(fields.len()))
                } else {
                    walk_error(ops, 0, 0, es, fields).unwrap()
                },
            },
            _ => "dynamic native schema must be a struct"@,
        },
        _ => "dynamic native value must be a struct"@,
    }
}

/// Checks that data can be written to a native sample laid out by `ops`
/// (see [`native_ok`]).
#[verifier::loop_isolation(false)]
pub fn validate_data_for_native(data: &crate::dynamic_data::DynamicData, ops: &[u32]) -> (r: DdsResult<()>)
    ensures
        r is Ok <==> native_ok(data@, ops@),
        r matches Err(e) ==> e is BadParameter,
        crate::dynamic_value::conforms(data@.value, data@.schema) ==> match r {
            Err(DdsError::BadParameter(m)) => m@ == native_error_text(data@, ops@),
            _ => true,
        },
{
    let checked = data.validate();
    if checked.is_err() {
        return checked;
    }
    let values = match data.value() {
        crate::dynamic_value::DynamicValue::Struct(v) => v,
        _ => {
            return Err(DdsError::BadParameter("dynamic native value must be a struct".to_owned()));
        },
    };
    let fields = match data.schema() {
        DynamicTypeSchema::Struct { fields, .. } => fields,
        _ => {
            return Err(
                DdsError::BadParameter("dynamic native schema must be a struct".to_owned()),
            );
        },
    };
    let distinct = check_distinct(fields);
    if distinct.is_err() {
        return distinct;
    }
    let ghost es = crate::dynamic_value::entries_model(values@);
    let ghost fm = fields_model(fields@);
    if values.len() != fields.len() {
        assert(es.len() != fm.len());
        let mut m = "dynamic value has ".to_owned();
        m.append(u64_to_decimal_str(values.len() as u64).as_str());
        m.append(" fields but schema requires ");
        m.append(u64_to_decimal_str(fields.len() as u64).as_str());
        return Err(DdsError::BadParameter(m));
    }
    let mut i: usize = 0;
    let mut k: usize = 0;
    while i < ops.len()
        invariant
            k <= fields@.len(),
            native_walk(ops@, 0, 0, es, fm) == native_walk(ops@, i as nat, k as nat, es, fm),
            walk_error(ops@, 0, 0, es, fm) == walk_error(ops@, i as nat, k as nat, es, fm),
        decreases ops@.len() - i,
    {
        let op = ops[i];
        if (op & DDS_OP_MASK_CONST) != OP_ADR {
            i += 1;
            continue;
        }
        if k >= fields.len() {
            return Err(
                DdsError::BadParameter(
                    "native descriptor has more fields than the dynamic schema".to_owned(),
                ),
            );
        }
        let field = &fields[k];
        proof {
            crate::dynamic_value::lemma_entry_index(es, fm[k as int].name);
        }
        let value = match crate::dynamic_value::entry_position(values, field.name.as_str()) {
            Some(p) => &values[p].1,
            None => {
                return Err(
                    DdsError::BadParameter(
                        crate::text::concat3(
                            "missing required dynamic field '",
                            field.name.as_str(),
                            "'",
                        ),
                    ),
                );
            },
        };
        let primary = op & DDS_OP_TYPE_MASK_CONST;
        if primary == TYPE_STR || primary == TYPE_BST {
            match value {
                crate::dynamic_value::DynamicValue::String(text) => {
                    if primary == TYPE_BST {
                        let capacity = bounded_string_capacity(ops, i);
                        let cap = match capacity {
                            Ok(c) => c,
                            Err(e) => {
                                return Err(e);
                            },
                        };
                        let n = text.as_str().as_bytes().len();
                        if n > cap - 1 {
                            let mut m = "string length ".to_owned();
                            m.append(u64_to_decimal_str(n as u64).as_str());
                            m.append(" exceeds bound ");
                            m.append(u64_to_decimal_str((cap - 1) as u64).as_str());
                            return Err(DdsError::BadParameter(m));
                        }
                    }
                    if has_nul(text.as_str()) {
                        return Err(
                            DdsError::BadParameter("string contains an interior null".to_owned()),
                        );
                    }
                },
                _ => {
                    return Err(
                        DdsError::BadParameter(
                            crate::text::concat3(
                                "dynamic field '",
                                field.name.as_str(),
                                "' is not a string",
                            ),
                        ),
                    );
                },
            }
        }
        let w = adr_step(ops, i);
        k += 1;
        if w >= ops.len() - i {
            assert(native_walk(ops@, (i + w) as nat, k as nat, es, fm) == native_walk(
                ops@,
                ops@.len(),
                k as nat,
                es,
                fm,
            ));
            assert(walk_error(ops@, (i + w) as nat, k as nat, es, fm) == walk_error(
                ops@,
                ops@.len(),
                k as nat,
                es,
                fm,
            ));
            i = ops.len();
        } else {
            i += w;
        }
    }
    if k != fields.len() {
        return Err(
            DdsError::BadParameter(
                "dynamic schema has more fields than the native descriptor".to_owned(),
            ),
        );
    }
    Ok(())
}

} // verus!
