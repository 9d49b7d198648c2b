//! The stores that put dynamic data into a native sample: which value goes
//! to which offset, decided by the op stream of the topic descriptor.
//!
//! The stores themselves (raw writes into the sample's memory) are made by
//! the host glue, in the order given here.
use vstd::prelude::*;
use vstd::utf8::encode_utf8;
use crate::dynamic_data::{DataModel, DynamicData};
use crate::dynamic_value::{
    entries_model, entry_lookup, entry_position, fields_model, lemma_entry_index, DynamicTypeSchema,
    DynamicValue, FieldModel, ValueModel,
};
use crate::error::{DdsError, DdsResult};
use crate::bigint::{ascii_chars, decimal_bytes, u64_to_decimal_str};
use crate::defaults::{entries_insert, entries_set};
use crate::dynamic_type::DynamicPrimitiveKind;
use crate::dynamic_value::{schema_model, SchemaModel};
use crate::text::concat2;
use crate::topic::{
    adr_step, adr_width, is_adr, DDS_OP_MASK_CONST, DDS_OP_TYPE_MASK_CONST, OP_ADR, OP_FLAG_FP,
    OP_FLAG_SGN, TYPE_1BY, TYPE_2BY, TYPE_4BY, TYPE_8BY, TYPE_BST, TYPE_STR,
};
use crate::type_discovery::{
    bounded_string_capacity, bst_capacity, decode_bounded_string, first_nul, generated_field_name,
    native_ok, native_walk, string_from_utf8_lossy, utf8_lossy, validate_data_for_native,
};

verus! {

/// One value to store into a native sample.
#[derive(Debug, Clone, PartialEq, Eq)]
pub enum NativeWrite {
    /// A one-byte member (`bool` as 0 or 1, octet, `uint8`).
    Byte(u8),
    Int8(i8),
    Int16(i16),
    UInt16(u16),
    Int32(i32),
    UInt32(u32),
    /// A `float`, by its bit pattern.
    Float32Bits(u32),
    Int64(i64),
    UInt64(u64),
    /// A `double`, by its bit pattern.
    Float64Bits(u64),
    /// An unbounded string: the member holds a pointer to a copy of these
    /// bytes (the text's UTF-8 bytes and a terminating zero).
    Text(Vec<u8>),
    /// A bounded string: these bytes (the text and a terminating zero) are
    /// stored in place.
    Inline(Vec<u8>),
    /// Nothing is stored; the member keeps its zero initialisation.
    Nothing,
}

/// The model of a [`NativeWrite`].
pub ghost enum NativeWriteModel {
    Byte(u8),
    Int8(i8),
    Int16(i16),
    UInt16(u16),
    Int32(i32),
    UInt32(u32),
    Float32Bits(u32),
    Int64(i64),
    UInt64(u64),
    Float64Bits(u64),
    Text(Seq<u8>),
    Inline(Seq<u8>),
    Nothing,
}

impl View for NativeWrite {
    type V = NativeWriteModel;

    open spec fn view(&self) -> NativeWriteModel {
        match self {
            NativeWrite::Byte(x) => NativeWriteModel::Byte(*x),
            NativeWrite::Int8(x) => NativeWriteModel::Int8(*x),
            NativeWrite::Int16(x) => NativeWriteModel::Int16(*x),
            NativeWrite::UInt16(x) => NativeWriteModel::UInt16(*x),
            NativeWrite::Int32(x) => NativeWriteModel::Int32(*x),
            NativeWrite::UInt32(x) => NativeWriteModel::UInt32(*x),
            NativeWrite::Float32Bits(x) => NativeWriteModel::Float32Bits(*x),
            NativeWrite::Int64(x) => NativeWriteModel::Int64(*x),
            NativeWrite::UInt64(x) => NativeWriteModel::UInt64(*x),
            NativeWrite::Float64Bits(x) => NativeWriteModel::Float64Bits(*x),
            NativeWrite::Text(b) => NativeWriteModel::Text(b@),
            NativeWrite::Inline(b) => NativeWriteModel::Inline(b@),
            NativeWrite::Nothing => NativeWriteModel::Nothing,
        }
    }
}

/// A store of `write` at byte `offset` of the native sample.
#[derive(Debug, Clone, PartialEq, Eq)]
pub struct NativeStore {
    pub offset: usize,
    pub write: NativeWrite,
}

/// The model of a list of stores.
pub open spec fn stores_model(s: Seq<NativeStore>) -> Seq<(int, NativeWriteModel)> {
    s.map_values(|x: NativeStore| (x.offset as int, x.write@))
}

/// The offset word of the ADR instruction at `i` (0 when the stream ends
/// before it).
pub open spec fn adr_offset(ops: Seq<u32>, i: int) -> int {
    if i + 1 < ops.len() {
        ops[i + 1] as int
    } else {
        0
    }
}

/// What is stored for a member of the given primary type holding `v`: the
/// value in the width the type names, a string's bytes with a terminating
/// zero, or nothing where the pair does not match.
pub open spec fn write_for(primary: u32, v: ValueModel) -> NativeWriteModel {
    if primary == TYPE_1BY {
        match v {
            ValueModel::Bool(b) => NativeWriteModel::Byte(if b { 1 } else { 0 }),
            ValueModel::Int8(x) => NativeWriteModel::Int8(x),
            ValueModel::UInt8(x) => NativeWriteModel::Byte(x),
            ValueModel::Byte(x) => NativeWriteModel::Byte(x),
            _ => NativeWriteModel::Nothing,
        }
    } else if primary == TYPE_2BY {
        match v {
            ValueModel::Int16(x) => NativeWriteModel::Int16(x),
            ValueModel::UInt16(x) => NativeWriteModel::UInt16(x),
            _ => NativeWriteModel::Nothing,
        }
    } else if primary == TYPE_4BY {
        match v {
            ValueModel::Int32(x) => NativeWriteModel::Int32(x),
            ValueModel::UInt32(x) => NativeWriteModel::UInt32(x),
            ValueModel::Float32(x) => NativeWriteModel::Float32Bits(x),
            ValueModel::Enum { value } => NativeWriteModel::Int32(value),
            _ => NativeWriteModel::Nothing,
        }
    } else if primary == TYPE_8BY {
        match v {
            ValueModel::Int64(x) => NativeWriteModel::Int64(x),
            ValueModel::UInt64(x) => NativeWriteModel::UInt64(x),
            ValueModel::Float64(x) => NativeWriteModel::Float64Bits(x),
            _ => NativeWriteModel::Nothing,
        }
    } else if primary == TYPE_STR {
        match v {
            ValueModel::String(s) => NativeWriteModel::Text(encode_utf8(s).push(0u8)),
            _ => NativeWriteModel::Nothing,
        }
    } else if primary == TYPE_BST {
        match v {
            ValueModel::String(s) => NativeWriteModel::Inline(encode_utf8(s).push(0u8)),
            _ => NativeWriteModel::Nothing,
        }
    } else {
        NativeWriteModel::Nothing
    }
}

/// The stores for the ADR instructions from position `i` on, the `k`-th
/// schema field going to the next one: each instruction stores the member
/// of its field at the instruction's offset.
pub open spec fn planned_stores(
    ops: Seq<u32>,
    i: nat,
    k: nat,
    es: Seq<(Seq<char>, ValueModel)>,
    fields: Seq<FieldModel>,
) -> Seq<(int, NativeWriteModel)>
    decreases (if i <= ops.len() { ops.len() - i } else { 0 }),
{
    if i >= ops.len() {
        Seq::empty()
    } else if !is_adr(ops[i as int]) {
        planned_stores(ops, i + 1, k, es, fields)
    } else {
        seq![
            (
                adr_offset(ops, i as int),
                write_for(
                    ops[i as int] & DDS_OP_TYPE_MASK_CONST,
                    entry_lookup(es, fields[k as int].name).unwrap(),
                ),
            ),
        ] + planned_stores(ops, i + adr_width(ops[i as int]), k + 1, es, fields)
    }
}

/// The stores for data whose value and schema are structs.
pub open spec fn data_stores(d: DataModel, ops: Seq<u32>) -> Seq<(int, NativeWriteModel)> {
    match (d.value, d.schema) {
        (ValueModel::Struct(es), crate::dynamic_value::SchemaModel::Struct { fields, .. }) => {
            planned_stores(ops, 0, 0, es, fields)
        },
        _ => Seq::empty(),
    }
}

/// A string's bytes followed by a terminating zero.
fn terminated_bytes(s: &str) -> (r: Vec<u8>)
    ensures
        r@ == encode_utf8(s@).push(0u8),
{
    let b = s.as_bytes();
    let mut out: Vec<u8> = Vec::new();
    let mut i: usize = 0;
    while i < b.len()
        invariant
            0 <= i <= b@.len(),
            b@ == encode_utf8(s@),
            out@ == b@.take(i as int),
        decreases b@.len() - i,
    {
        out.push(b[i]);
        i += 1;
        assert(out@ =~= b@.take(i as int));
    }
    assert(b@.take(b@.len() as int) =~= b@);
    out.push(0u8);
    out
}

/// What to store for a member of the given primary type (see
/// [`write_for`]).
fn native_write(primary: u32, v: &DynamicValue) -> (r: NativeWrite)
    ensures
        r@ == write_for(primary, v@),
{
    if primary == TYPE_1BY {
        match v {
            DynamicValue::Bool(b) => NativeWrite::Byte(if *b { 1 } else { 0 }),
            DynamicValue::Int8(x) => NativeWrite::Int8(*x),
            DynamicValue::UInt8(x) => NativeWrite::Byte(*x),
            DynamicValue::Byte(x) => NativeWrite::Byte(*x),
            _ => NativeWrite::Nothing,
        }
    } else if primary == TYPE_2BY {
        match v {
            DynamicValue::Int16(x) => NativeWrite::Int16(*x),
            DynamicValue::UInt16(x) => NativeWrite::UInt16(*x),
            _ => NativeWrite::Nothing,
        }
    } else if primary == TYPE_4BY {
        match v {
            DynamicValue::Int32(x) => NativeWrite::Int32(*x),
            DynamicValue::UInt32(x) => NativeWrite::UInt32(*x),
            DynamicValue::Float32(x) => NativeWrite::Float32Bits(*x),
            DynamicValue::Enum { value } => NativeWrite::Int32(*value),
            _ => NativeWrite::Nothing,
        }
    } else if primary == TYPE_8BY {
        match v {
            DynamicValue::Int64(x) => NativeWrite::Int64(*x),
            DynamicValue::UInt64(x) => NativeWrite::UInt64(*x),
            DynamicValue::Float64(x) => NativeWrite::Float64Bits(*x),
            _ => NativeWrite::Nothing,
        }
    } else if primary == TYPE_STR {
        match v {
            DynamicValue::String(s) => NativeWrite::Text(terminated_bytes(s.as_str())),
            _ => NativeWrite::Nothing,
        }
    } else if primary == TYPE_BST {
        match v {
            DynamicValue::String(s) => NativeWrite::Inline(terminated_bytes(s.as_str())),
            _ => NativeWrite::Nothing,
        }
    } else {
        NativeWrite::Nothing
    }
}

/// The stores that write `data` into a native sample laid out by `ops`,
/// after the checks of [`validate_data_for_native`]; nothing is to be
/// stored when those fail.
#[verifier::loop_isolation(false)]
pub fn native_stores(data: &DynamicData, ops: &[u32]) -> (r: DdsResult<Vec<NativeStore>>)
    ensures
        r is Ok <==> native_ok(data@, ops@),
        r matches Ok(v) ==> stores_model(v@) == data_stores(data@, ops@),
        r matches Err(e) ==> e is BadParameter,
        crate::dynamic_value::conforms(data@.value, data@.schema) ==> match r {
            Err(DdsError::BadParameter(m)) => m@ == crate::type_discovery::native_error_text(
                data@,
                ops@,
            ),
            _ => true,
        },
{
    let checked = validate_data_for_native(data, ops);
    if let Err(e) = checked {
        return Err(e);
    }
    let values = match data.value() {
        DynamicValue::Struct(v) => v,
        _ => {
            return Err(DdsError::BadParameter("dynamic native value must be a struct".to_owned()));
        },
    };
    let fields = match data.schema() {
        DynamicTypeSchema::Struct { fields, .. } => fields,
        _ => {
            return Err(
                DdsError::BadParameter("dynamic native schema must be a struct".to_owned()),
            );
        },
    };
    let ghost es = entries_model(values@);
    let ghost fm = fields_model(fields@);
    let nfields = fields.len();
    assert(fm.len() == nfields);
    let mut out: Vec<NativeStore> = Vec::new();
    let mut i: usize = 0;
    let mut k: usize = 0;
    while i < ops.len()
        invariant
            k <= fields@.len(),
            native_walk(ops@, i as nat, k as nat, es, fm),
            planned_stores(ops@, 0, 0, es, fm) == stores_model(out@) + planned_stores(
                ops@,
                i as nat,
                k as nat,
                es,
                fm,
            ),
        decreases ops@.len() - i,
    {
        let op = ops[i];
        if (op & DDS_OP_MASK_CONST) != OP_ADR {
            i += 1;
            continue;
        }
        assert(is_adr(ops@[i as int]));
        assert(k < fm.len());
        proof {
            lemma_entry_index(es, fm[k as int].name);
        }
        let value = match entry_position(values, fields[k].name.as_str()) {
            Some(p) => &values[p].1,
            None => {
                return Err(
                    DdsError::BadParameter("missing required dynamic field".to_owned()),
                );
            },
        };
        let offset: usize = if i + 1 < ops.len() {
            ops[i + 1] as usize
        } else {
            0
        };
        let write = native_write(op & DDS_OP_TYPE_MASK_CONST, value);
        let ghost before = out@;
        out.push(NativeStore { offset, write });
        assert(stores_model(out@) =~= stores_model(before).push(
            (offset as int, write_for(op & DDS_OP_TYPE_MASK_CONST, value@)),
        ));
        let w = adr_step(ops, i);
        k += 1;
        if w >= ops.len() - i {
            assert(planned_stores(ops@, (i + w) as nat, k as nat, es, fm) =~= Seq::empty());
            assert(native_walk(ops@, (i + w) as nat, k as nat, es, fm) == native_walk(
                ops@,
                ops@.len(),
                k as nat,
                es,
                fm,
            ));
            i = ops.len();
        } else {
            i += w;
        }
    }
    Ok(out)
}

// ---------------------------------------------------------------------------
// Reading a native sample
// ---------------------------------------------------------------------------

/// What to read from a native sample for one member.
#[derive(Debug, Clone, Copy, PartialEq, Eq)]
pub enum NativeLoad {
    /// One byte.
    Bits8,
    /// Two bytes, as a `u16`.
    Bits16,
    /// Four bytes, as a `u32`.
    Bits32,
    /// Eight bytes, as a `u64`.
    Bits64,
    /// The pointer to a zero-terminated string, and the bytes before its
    /// terminator.
    Text,
    /// This many bytes stored in place.
    Inline(usize),
    /// Nothing: the member is not read.
    Skip,
}

/// A load at byte `offset` of the native sample.
#[derive(Debug, Clone, Copy, PartialEq, Eq)]
pub struct NativeLoadAt {
    pub offset: usize,
    pub load: NativeLoad,
}

/// What was read for one member, in answer to a [`NativeLoad`].
#[derive(Debug, Clone, PartialEq, Eq)]
pub enum NativeRaw {
    Bits8(u8),
    Bits16(u16),
    Bits32(u32),
    Bits64(u64),
    /// The bytes of the string before its terminator; `None` for a null
    /// pointer.
    Text(Option<Vec<u8>>),
    /// The bytes stored in place.
    Inline(Vec<u8>),
    Skipped,
}

/// The model of a [`NativeRaw`].
pub ghost enum NativeRawModel {
    Bits8(u8),
    Bits16(u16),
    Bits32(u32),
    Bits64(u64),
    Text(Option<Seq<u8>>),
    Inline(Seq<u8>),
    Skipped,
}

impl View for NativeRaw {
    type V = NativeRawModel;

    open spec fn view(&self) -> NativeRawModel {
        match self {
            NativeRaw::Bits8(x) => NativeRawModel::Bits8(*x),
            NativeRaw::Bits16(x) => NativeRawModel::Bits16(*x),
            NativeRaw::Bits32(x) => NativeRawModel::Bits32(*x),
            NativeRaw::Bits64(x) => NativeRawModel::Bits64(*x),
            NativeRaw::Text(b) => NativeRawModel::Text(
                match b {
                    Some(v) => Some(v@),
                    None => None,
                },
            ),
            NativeRaw::Inline(b) => NativeRawModel::Inline(b@),
            NativeRaw::Skipped => NativeRawModel::Skipped,
        }
    }
}

/// The models of what was read.
pub open spec fn raws_model(s: Seq<NativeRaw>) -> Seq<NativeRawModel> {
    s.map_values(|x: NativeRaw| x@)
}

/// What to read for the ADR instruction at `i`; `None` for a bounded
/// string whose capacity word is missing or zero.
pub open spec fn load_of(ops: Seq<u32>, i: int) -> Option<NativeLoad> {
    let primary = ops[i] & DDS_OP_TYPE_MASK_CONST;
    if primary == TYPE_1BY {
        Some(NativeLoad::Bits8)
    } else if primary == TYPE_2BY {
        Some(NativeLoad::Bits16)
    } else if primary == TYPE_4BY {
        Some(NativeLoad::Bits32)
    } else if primary == TYPE_8BY {
        Some(NativeLoad::Bits64)
    } else if primary == TYPE_STR {
        Some(NativeLoad::Text)
    } else if primary == TYPE_BST {
        match bst_capacity(ops, i) {
            Some(c) => Some(NativeLoad::Inline(c as usize)),
            None => None,
        }
    } else {
        Some(NativeLoad::Skip)
    }
}

/// The loads for the ADR instructions from position `i` on; `None` when
/// one of them has no load.
pub open spec fn planned_loads(ops: Seq<u32>, i: nat) -> Option<Seq<(int, NativeLoad)>>
    decreases (if i <= ops.len() { ops.len() - i } else { 0 }),
{
    if i >= ops.len() {
        Some(Seq::empty())
    } else if !is_adr(ops[i as int]) {
        planned_loads(ops, i + 1)
    } else {
        match load_of(ops, i as int) {
            None => None,
            Some(l) => match planned_loads(ops, i + adr_width(ops[i as int])) {
                None => None,
                Some(rest) => Some(seq![(adr_offset(ops, i as int), l)] + rest),
            },
        }
    }
}

/// The model of a list of loads.
pub open spec fn loads_model(s: Seq<NativeLoadAt>) -> Seq<(int, NativeLoad)> {
    s.map_values(|x: NativeLoadAt| (x.offset as int, x.load))
}

/// The loads that read a native sample laid out by `ops` from position
/// `start`: none for a schema that is not a struct, whose value is its
/// default; refused with `BadParameter` where a bounded string has no
/// usable capacity.
pub fn native_loads(schema: &DynamicTypeSchema, ops: &[u32], start: usize) -> (r: DdsResult<Vec<NativeLoadAt>>)
    ensures
        !(schema@ is Struct) ==> (r matches Ok(v) && v@.len() == 0),
        schema@ is Struct ==> match planned_loads(ops@, start as nat) {
            Some(ls) => r matches Ok(v) && loads_model(v@) == ls,
            None => r matches Err(DdsError::BadParameter(_)),
        },
{
    match schema {
        DynamicTypeSchema::Struct { .. } => {},
        _ => {
            return Ok(Vec::new());
        },
    }
    let mut out: Vec<NativeLoadAt> = Vec::new();
    let mut i: usize = start;
    while i < ops.len()
        invariant
            schema@ is Struct,
            planned_loads(ops@, start as nat) == match planned_loads(ops@, i as nat) {
                Some(rest) => Some(loads_model(out@) + rest),
                None => None,
            },
        decreases ops@.len() - i,
    {
        let op = ops[i];
        if (op & DDS_OP_MASK_CONST) != OP_ADR {
            i += 1;
            continue;
        }
        let primary = op & DDS_OP_TYPE_MASK_CONST;
        let load = if primary == TYPE_1BY {
            NativeLoad::Bits8
        } else if primary == TYPE_2BY {
            NativeLoad::Bits16
        } else if primary == TYPE_4BY {
            NativeLoad::Bits32
        } else if primary == TYPE_8BY {
            NativeLoad::Bits64
        } else if primary == TYPE_STR {
            NativeLoad::Text
        } else if primary == TYPE_BST {
            match bounded_string_capacity(ops, i) {
                Ok(c) => NativeLoad::Inline(c),
                Err(e) => {
                    return Err(e);
                },
            }
        } else {
            NativeLoad::Skip
        };
        let offset: usize = if i + 1 < ops.len() {
            ops[i + 1] as usize
        } else {
            0
        };
        let ghost before = out@;
        out.push(NativeLoadAt { offset, load });
        assert(loads_model(out@) =~= loads_model(before).push((offset as int, load)));
        let w = adr_step(ops, i);
        if w >= ops.len() - i {
            assert(planned_loads(ops@, (i + w) as nat) == Some(Seq::<(int, NativeLoad)>::empty()));
            i = ops.len();
        } else {
            i += w;
        }
        assert(planned_loads(ops@, start as nat) == match planned_loads(ops@, i as nat) {
            Some(rest) => Some(loads_model(out@) + rest),
            None => None,
        }) by {
            match planned_loads(ops@, i as nat) {
                Some(rest) => {
                    assert(loads_model(before) + (seq![(offset as int, load)] + rest) =~= loads_model(out@) + rest);
                },
                None => {},
            }
        }
    }
    Ok(out)
}

/// The value of a one-byte member: a `bool` or `int8` where the field says
/// so, else an octet; without a field, the sign flag decides.
pub open spec fn one_byte_value(op: u32, field: Option<FieldModel>, v: u8) -> ValueModel {
    match field {
        Some(f) => match f.value {
            SchemaModel::Primitive(DynamicPrimitiveKind::Boolean) => ValueModel::Bool(v != 0),
            SchemaModel::Primitive(DynamicPrimitiveKind::Int8) => ValueModel::Int8(v as i8),
            _ => ValueModel::Byte(v),
        },
        None => if op & OP_FLAG_SGN != 0 {
            ValueModel::Int8(v as i8)
        } else {
            ValueModel::Byte(v)
        },
    }
}

/// The value read for the ADR instruction at `i`, from what was read for
/// it; `None` when what was read does not answer the instruction's load,
/// or a bounded string has no terminator.
pub open spec fn raw_value(ops: Seq<u32>, i: int, field: Option<FieldModel>, raw: NativeRawModel) -> Option<ValueModel> {
    let op = ops[i];
    let primary = op & DDS_OP_TYPE_MASK_CONST;
    if primary == TYPE_1BY {
        match raw {
            NativeRawModel::Bits8(v) => Some(one_byte_value(op, field, v)),
            _ => None,
        }
    } else if primary == TYPE_2BY {
        match raw {
            NativeRawModel::Bits16(v) => Some(
                if op & OP_FLAG_SGN != 0 {
                    ValueModel::Int16(v as i16)
                } else {
                    ValueModel::UInt16(v)
                },
            ),
            _ => None,
        }
    } else if primary == TYPE_4BY {
        match raw {
            NativeRawModel::Bits32(v) => Some(
                if op & OP_FLAG_FP != 0 {
                    ValueModel::Float32(v)
                } else if field matches Some(f) && f.value is Enum {
                    ValueModel::Enum { value: v as i32 }
                } else if op & OP_FLAG_SGN != 0 {
                    ValueModel::Int32(v as i32)
                } else {
                    ValueModel::UInt32(v)
                },
            ),
            _ => None,
        }
    } else if primary == TYPE_8BY {
        match raw {
            NativeRawModel::Bits64(v) => Some(
                if op & OP_FLAG_FP != 0 {
                    ValueModel::Float64(v)
                } else if op & OP_FLAG_SGN != 0 {
                    ValueModel::Int64(v as i64)
                } else {
                    ValueModel::UInt64(v)
                },
            ),
            _ => None,
        }
    } else if primary == TYPE_STR {
        match raw {
            NativeRawModel::Text(None) => Some(ValueModel::String(Seq::empty())),
            NativeRawModel::Text(Some(b)) => Some(ValueModel::String(utf8_lossy(b))),
            _ => None,
        }
    } else if primary == TYPE_BST {
        match raw {
            NativeRawModel::Inline(b) => if bst_capacity(ops, i) matches Some(c) && c == b.len()
                && first_nul(b) != -1 {
                Some(ValueModel::String(utf8_lossy(b.take(first_nul(b)))))
            } else {
                None
            },
            _ => None,
        }
    } else {
        match raw {
            NativeRawModel::Skipped => Some(ValueModel::Null),
            _ => None,
        }
    }
}

/// The schema field for the `idx`-th ADR instruction, if there is one.
pub open spec fn field_at(fields: Seq<FieldModel>, idx: nat) -> Option<FieldModel> {
    if idx < fields.len() {
        Some(fields[idx as int])
    } else {
        None
    }
}

/// The name under which the `idx`-th member is read: its field's name, or
/// `field_<idx>` past the schema's fields.
pub open spec fn read_name(fields: Seq<FieldModel>, idx: nat) -> Seq<char> {
    if idx < fields.len() {
        fields[idx as int].name
    } else {
        generated_field_name(idx)
    }
}

/// The members read from position `i` on, the `idx`-th ADR instruction
/// answered by `raws[j]`, added to `es`; `None` when what was read does not
/// answer the loads (one for each ADR instruction, in order).
pub open spec fn assembled(
    ops: Seq<u32>,
    i: nat,
    idx: nat,
    fields: Seq<FieldModel>,
    raws: Seq<NativeRawModel>,
    es: Seq<(Seq<char>, ValueModel)>,
) -> Option<Seq<(Seq<char>, ValueModel)>>
    decreases (if i <= ops.len() { ops.len() - i } else { 0 }),
{
    if i >= ops.len() {
        if idx == raws.len() {
            Some(es)
        } else {
            None
        }
    } else if !is_adr(ops[i as int]) {
        assembled(ops, i + 1, idx, fields, raws, es)
    } else if idx >= raws.len() {
        None
    } else {
        match raw_value(ops, i as int, field_at(fields, idx), raws[idx as int]) {
            None => None,
            Some(v) => assembled(
                ops,
                i + adr_width(ops[i as int]),
                idx + 1,
                fields,
                raws,
                entries_insert(es, read_name(fields, idx), v),
            ),
        }
    }
}

/// The value of a native sample of `schema`, from position `start` of its
/// op stream and what was read for each of [`native_loads`]: a struct of
/// the members read (in name order), or the schema's default for a
/// schema that is not a struct.
pub open spec fn native_value_of(
    schema: SchemaModel,
    ops: Seq<u32>,
    start: nat,
    raws: Seq<NativeRawModel>,
) -> Option<ValueModel> {
    match schema {
        SchemaModel::Struct { fields, .. } => match assembled(ops, start, 0, fields, raws, Seq::empty()) {
            Some(es) => Some(ValueModel::Struct(es)),
            None => None,
        },
        _ => Some(crate::defaults::default_of(schema)),
    }
}

/// Reading members by name keeps them in name order, one per name.
proof fn lemma_assembled_sorted(
    ops: Seq<u32>,
    i: nat,
    idx: nat,
    fields: Seq<FieldModel>,
    raws: Seq<NativeRawModel>,
    es: Seq<(Seq<char>, ValueModel)>,
)
    requires
        crate::dynamic_value::members_sorted(es),
    ensures
        assembled(ops, i, idx, fields, raws, es) matches Some(es2)
            ==> crate::dynamic_value::members_sorted(es2),
    decreases (if i <= ops.len() { ops.len() - i } else { 0 }),
{
    if i >= ops.len() {
    } else if !is_adr(ops[i as int]) {
        lemma_assembled_sorted(ops, i + 1, idx, fields, raws, es);
    } else if idx >= raws.len() {
    } else {
        match raw_value(ops, i as int, field_at(fields, idx), raws[idx as int]) {
            None => {},
            Some(v) => {
                crate::defaults::law_member_write_keeps_order(es, read_name(fields, idx), v);
                lemma_assembled_sorted(
                    ops,
                    i + adr_width(ops[i as int]),
                    idx + 1,
                    fields,
                    raws,
                    entries_insert(es, read_name(fields, idx), v),
                );
            },
        }
    }
}

/// The value for one ADR instruction (see [`raw_value`]).
fn value_from_raw(ops: &[u32], i: usize, field: Option<&crate::dynamic_value::DynamicFieldSchema>, raw: &NativeRaw) -> (r: Option<DynamicValue>)
    requires
        i < ops@.len(),
    ensures
        match r {
            Some(v) => raw_value(ops@, i as int, match field { Some(f) => Some(f@), None => None }, raw@) == Some(v@),
            None => raw_value(ops@, i as int, match field { Some(f) => Some(f@), None => None }, raw@) is None,
        },
{
    let op = ops[i];
    let primary = op & DDS_OP_TYPE_MASK_CONST;
    if primary == TYPE_1BY {
        match raw {
            NativeRaw::Bits8(v) => {
                let v = *v;
                Some(
                    match field {
                        Some(f) => match &f.value {
                            DynamicTypeSchema::Primitive(DynamicPrimitiveKind::Boolean) => DynamicValue::Bool(v != 0),
                            DynamicTypeSchema::Primitive(DynamicPrimitiveKind::Int8) => DynamicValue::Int8(v as i8),
                            _ => DynamicValue::Byte(v),
                        },
                        None => if op & OP_FLAG_SGN != 0 {
                            DynamicValue::Int8(v as i8)
                        } else {
                            DynamicValue::Byte(v)
                        },
                    },
                )
            },
            _ => None,
        }
    } else if primary == TYPE_2BY {
        match raw {
            NativeRaw::Bits16(v) => Some(
                if op & OP_FLAG_SGN != 0 {
                    DynamicValue::Int16(*v as i16)
                } else {
                    DynamicValue::UInt16(*v)
                },
            ),
            _ => None,
        }
    } else if primary == TYPE_4BY {
        match raw {
            NativeRaw::Bits32(v) => {
                let is_enum = match field {
                    Some(f) => match &f.value {
                        DynamicTypeSchema::Enum { .. } => true,
                        _ => false,
                    },
                    None => false,
                };
                Some(
                    if op & OP_FLAG_FP != 0 {
                        DynamicValue::Float32(*v)
                    } else if is_enum {
                        DynamicValue::Enum { value: *v as i32 }
                    } else if op & OP_FLAG_SGN != 0 {
                        DynamicValue::Int32(*v as i32)
                    } else {
                        DynamicValue::UInt32(*v)
                    },
                )
            },
            _ => None,
        }
    } else if primary == TYPE_8BY {
        match raw {
            NativeRaw::Bits64(v) => Some(
                if op & OP_FLAG_FP != 0 {
                    DynamicValue::Float64(*v)
                } else if op & OP_FLAG_SGN != 0 {
                    DynamicValue::Int64(*v as i64)
                } else {
                    DynamicValue::UInt64(*v)
                },
            ),
            _ => None,
        }
    } else if primary == TYPE_STR {
        match raw {
            NativeRaw::Text(None) => Some(DynamicValue::String(String::new())),
            NativeRaw::Text(Some(b)) => Some(DynamicValue::String(string_from_utf8_lossy(b.as_slice()))),
            _ => None,
        }
    } else if primary == TYPE_BST {
        match raw {
            NativeRaw::Inline(b) => {
                let cap = match bounded_string_capacity(ops, i) {
                    Ok(c) => c,
                    Err(_) => {
                        return None;
                    },
                };
                if cap != b.len() {
                    return None;
                }
                match decode_bounded_string(b.as_slice()) {
                    Ok(s) => Some(DynamicValue::String(s)),
                    Err(_) => None,
                }
            },
            _ => None,
        }
    } else {
        match raw {
            NativeRaw::Skipped => Some(DynamicValue::Null),
            _ => None,
        }
    }
}

/// The value of a native sample of `schema` laid out by `ops` from
/// position `start`, from what was read for each of its loads (see
/// [`native_loads`]); refused with `BadParameter` when what was read does
/// not answer the loads, or a bounded string has no terminator.
pub fn native_value(
    schema: &DynamicTypeSchema,
    ops: &[u32],
    start: usize,
    raws: &[NativeRaw],
) -> (r: DdsResult<DynamicValue>)
    ensures
        match native_value_of(schema@, ops@, start as nat, raws_model(raws@)) {
            Some(v) => r matches Ok(x) && x@ == v,
            None => r matches Err(DdsError::BadParameter(_)),
        },
        match r {
            Ok(x) => x@ matches ValueModel::Struct(es) ==> crate::dynamic_value::members_sorted(es),
            Err(_) => true,
        },
{
    proof {
        crate::defaults::law_default_members_sorted(schema@);
        if schema@ is Struct {
            lemma_assembled_sorted(ops@, start as nat, 0, schema@->Struct_fields, raws_model(raws@), Seq::empty());
        }
    }
    let fields = match schema {
        DynamicTypeSchema::Struct { fields, .. } => fields,
        _ => {
            return Ok(schema.default_value());
        },
    };
    let ghost fm = fields_model(fields@);
    let ghost rm = raws_model(raws@);
    let mut values: Vec<(String, DynamicValue)> = Vec::new();
    assert(entries_model(values@) =~= Seq::empty());
    let mut i: usize = start;
    let mut idx: usize = 0;
    while i < ops.len()
        invariant
            schema@ is Struct,
            schema@->Struct_fields == fm,
            fm == fields_model(fields@),
            rm == raws_model(raws@),
            idx <= raws@.len(),
            assembled(ops@, start as nat, 0, fm, rm, Seq::empty()) == assembled(
                ops@,
                i as nat,
                idx as nat,
                fm,
                rm,
                entries_model(values@),
            ),
        decreases ops@.len() - i,
    {
        let op = ops[i];
        if (op & DDS_OP_MASK_CONST) != OP_ADR {
            i += 1;
            continue;
        }
        assert(is_adr(ops@[i as int]));
        if idx >= raws.len() {
            return Err(DdsError::BadParameter("native read is missing a member".to_owned()));
        }
        let field = if idx < fields.len() {
            Some(&fields[idx])
        } else {
            None
        };
        assert(field_at(fm, idx as nat) == match field { Some(f) => Some(f@), None => None });
        let v = match value_from_raw(ops, i, field, &raws[idx]) {
            Some(v) => v,
            None => {
                return Err(
                    DdsError::BadParameter("native member does not match its descriptor".to_owned()),
                );
            },
        };
        let name = match field {
            Some(f) => f.name.clone(),
            None => concat2("field_", u64_to_decimal_str(idx as u64).as_str()),
        };
        assert(name@ == read_name(fm, idx as nat));
        entries_set(&mut values, name, v);
        let w = adr_step(ops, i);
        idx += 1;
        if w >= ops.len() - i {
            assert(assembled(ops@, (i + w) as nat, idx as nat, fm, rm, entries_model(values@))
                == assembled(ops@, ops@.len(), idx as nat, fm, rm, entries_model(values@)));
            i = ops.len();
        } else {
            i += w;
        }
    }
    if idx != raws.len() {
        return Err(DdsError::BadParameter("native read has more members than its descriptor".to_owned()));
    }
    Ok(DynamicValue::Struct(values))
}

/// [`native_value`], with `Bool(false)` in place of a refused read: a value
/// that no struct schema accepts, so that it cannot pass for valid data.
pub fn native_value_or_invalid(
    schema: &DynamicTypeSchema,
    ops: &[u32],
    start: usize,
    raws: &[NativeRaw],
) -> (r: DynamicValue)
    ensures
        match native_value_of(schema@, ops@, start as nat, raws_model(raws@)) {
            Some(v) => r@ == v,
            None => r@ == ValueModel::Bool(false),
        },
{
    match native_value(schema, ops, start, raws) {
        Ok(v) => v,
        Err(_) => DynamicValue::Bool(false),
    }
}

} // verus!
