use vstd::prelude::*;
use vstd::string::*;
use vstd::utf8::*;
use vstd::arithmetic::power2::pow2;
use crate::dynamic_type::{DynamicPrimitiveKind, DynamicTypeAutoId, DynamicTypeExtensibility};
use crate::error::{DdsError, DdsResult};
use crate::bigint::{
    ascii_chars, decimal_bytes, i64_to_decimal_str, signed_decimal_bytes, u64_to_decimal_str,
};
use crate::text::{concat2, concat3, debug_string, str_eq};

verus! {

// ---------------------------------------------------------------------------
// Schemas
// ---------------------------------------------------------------------------

/// A member of a dynamic struct.
#[derive(Debug, PartialEq, Eq)]
pub struct DynamicFieldSchema {
    pub name: String,
    pub member_id: u32,
    pub value: DynamicTypeSchema,
    pub optional: bool,
    pub key: bool,
    pub external: bool,
    pub must_understand: bool,
    pub hash_id_name: Option<String>,
}

/// A case of a dynamic union.
#[derive(Debug, PartialEq, Eq)]
pub struct DynamicUnionCaseSchema {
    pub name: String,
    pub member_id: u32,
    pub value: DynamicTypeSchema,
    pub labels: Vec<i32>,
    pub default: bool,
    pub external: bool,
    pub hash_id_name: Option<String>,
}

/// A literal of a dynamic enum.
#[derive(Debug, PartialEq, Eq)]
pub struct DynamicEnumLiteralSchema {
    pub name: String,
    pub value: i32,
    pub default: bool,
}

/// A named bit of a dynamic bitmask.
#[derive(Debug, PartialEq, Eq)]
pub struct DynamicBitmaskFieldSchema {
    pub name: String,
    pub position: u16,
}

/// The shape of a dynamic type, as far as values are checked against it.
#[derive(Debug, PartialEq, Eq)]
#[allow(inconsistent_fields)]
pub enum DynamicTypeSchema {
    Primitive(DynamicPrimitiveKind),
    String { bound: Option<u32> },
    Sequence { name: String, bound: Option<u32>, element: Box<DynamicTypeSchema> },
    Array { name: String, bounds: Vec<u32>, element: Box<DynamicTypeSchema> },
    Struct {
        name: String,
        base: Option<Box<DynamicTypeSchema>>,
        fields: Vec<DynamicFieldSchema>,
        extensibility: Option<DynamicTypeExtensibility>,
        autoid: Option<DynamicTypeAutoId>,
        nested: bool,
    },
    Enum { name: String, literals: Vec<DynamicEnumLiteralSchema>, bit_bound: Option<u16> },
    Bitmask { name: String, fields: Vec<DynamicBitmaskFieldSchema>, bit_bound: Option<u16> },
    Alias { name: String, target: Box<DynamicTypeSchema> },
    Union {
        name: String,
        discriminator: Box<DynamicTypeSchema>,
        cases: Vec<DynamicUnionCaseSchema>,
        autoid: Option<DynamicTypeAutoId>,
        nested: bool,
    },
    Mapping {
        name: String,
        bound: Option<u32>,
        key: Box<DynamicTypeSchema>,
        value: Box<DynamicTypeSchema>,
    },
}

// ---------------------------------------------------------------------------
// Values
// ---------------------------------------------------------------------------

/// A runtime-typed data value.
///
/// Floating-point members are carried as their IEEE-754 bit patterns
/// (`f32::to_bits` / `f64::to_bits`). The members of a struct value are
/// name/value pairs, one per name, in name order (see [`members_sorted`]):
/// every struct value that the library builds is so, and setting a member
/// keeps it so, which makes two such values with the same members equal
/// whatever order the members were set in.
#[derive(Debug, PartialEq)]
#[allow(inconsistent_fields)]
pub enum DynamicValue {
    Bool(bool),
    Byte(u8),
    Int8(i8),
    UInt8(u8),
    Int16(i16),
    UInt16(u16),
    Int32(i32),
    UInt32(u32),
    Int64(i64),
    UInt64(u64),
    Float32(u32),
    Float64(u64),
    Char8(u8),
    Char16(u16),
    String(String),
    Sequence(Vec<DynamicValue>),
    Array(Vec<DynamicValue>),
    Struct(Vec<(String, DynamicValue)>),
    Enum { value: i32 },
    Bitmask(u64),
    Union { discriminator: i32, field: String, value: Box<DynamicValue> },
    Mapping(Vec<(DynamicValue, DynamicValue)>),
    Null,
}

// ---------------------------------------------------------------------------
// Mathematical models
// ---------------------------------------------------------------------------

#[verifier::ext_equal]
pub ghost struct FieldModel {
    pub name: Seq<char>,
    pub member_id: u32,
    pub value: SchemaModel,
    pub optional: bool,
    pub key: bool,
    pub external: bool,
    pub must_understand: bool,
    pub hash_id_name: Option<Seq<char>>,
}

#[verifier::ext_equal]
pub ghost struct CaseModel {
    pub name: Seq<char>,
    pub member_id: u32,
    pub value: SchemaModel,
    pub labels: Seq<i32>,
    pub default: bool,
    pub external: bool,
    pub hash_id_name: Option<Seq<char>>,
}

#[verifier::ext_equal]
pub ghost struct LiteralModel {
    pub name: Seq<char>,
    pub value: i32,
    pub default: bool,
}

#[verifier::ext_equal]
pub ghost struct BitFieldModel {
    pub name: Seq<char>,
    pub position: u16,
}

/// The model of a [`DynamicTypeSchema`]: names are character sequences and
/// lists are sequences.
#[verifier::ext_equal]
#[allow(inconsistent_fields)]
pub ghost enum SchemaModel {
    Primitive(DynamicPrimitiveKind),
    String { bound: Option<u32> },
    Sequence { name: Seq<char>, bound: Option<u32>, element: Box<SchemaModel> },
    Array { name: Seq<char>, bounds: Seq<u32>, element: Box<SchemaModel> },
    Struct {
        name: Seq<char>,
        base: Option<Box<SchemaModel>>,
        fields: Seq<FieldModel>,
        extensibility: Option<DynamicTypeExtensibility>,
        autoid: Option<DynamicTypeAutoId>,
        nested: bool,
    },
    Enum { name: Seq<char>, literals: Seq<LiteralModel>, bit_bound: Option<u16> },
    Bitmask { name: Seq<char>, fields: Seq<BitFieldModel>, bit_bound: Option<u16> },
    Alias { name: Seq<char>, target: Box<SchemaModel> },
    Union {
        name: Seq<char>,
        discriminator: Box<SchemaModel>,
        cases: Seq<CaseModel>,
        autoid: Option<DynamicTypeAutoId>,
        nested: bool,
    },
    Mapping { name: Seq<char>, bound: Option<u32>, key: Box<SchemaModel>, value: Box<SchemaModel> },
}

/// The model of a [`DynamicValue`].
#[verifier::ext_equal]
#[allow(inconsistent_fields)]
pub ghost enum ValueModel {
    Bool(bool),
    Byte(u8),
    Int8(i8),
    UInt8(u8),
    Int16(i16),
    UInt16(u16),
    Int32(i32),
    UInt32(u32),
    Int64(i64),
    UInt64(u64),
    Float32(u32),
    Float64(u64),
    Char8(u8),
    Char16(u16),
    String(Seq<char>),
    Sequence(Seq<ValueModel>),
    Array(Seq<ValueModel>),
    Struct(Seq<(Seq<char>, ValueModel)>),
    Enum { value: i32 },
    Bitmask(u64),
    Union { discriminator: i32, field: Seq<char>, value: Box<ValueModel> },
    Mapping(Seq<(ValueModel, ValueModel)>),
    Null,
}

pub open spec fn opt_str_model(s: Option<String>) -> Option<Seq<char>> {
    match s {
        Some(x) => Some(x@),
        None => None,
    }
}

pub open spec fn literal_model(l: DynamicEnumLiteralSchema) -> LiteralModel {
    LiteralModel { name: l.name@, value: l.value, default: l.default }
}

pub open spec fn literals_model(s: Seq<DynamicEnumLiteralSchema>) -> Seq<LiteralModel> {
    s.map_values(|l: DynamicEnumLiteralSchema| literal_model(l))
}

pub open spec fn bit_field_model(f: DynamicBitmaskFieldSchema) -> BitFieldModel {
    BitFieldModel { name: f.name@, position: f.position }
}

pub open spec fn bit_fields_model(s: Seq<DynamicBitmaskFieldSchema>) -> Seq<BitFieldModel> {
    s.map_values(|f: DynamicBitmaskFieldSchema| bit_field_model(f))
}

pub open spec fn field_model(f: DynamicFieldSchema) -> FieldModel
    decreases f, 0nat,
{
    FieldModel {
        name: f.name@,
        member_id: f.member_id,
        value: schema_model(f.value),
        optional: f.optional,
        key: f.key,
        external: f.external,
        must_understand: f.must_understand,
        hash_id_name: opt_str_model(f.hash_id_name),
    }
}

pub open spec fn case_model(c: DynamicUnionCaseSchema) -> CaseModel
    decreases c, 0nat,
{
    CaseModel {
        name: c.name@,
        member_id: c.member_id,
        value: schema_model(c.value),
        labels: c.labels@,
        default: c.default,
        external: c.external,
        hash_id_name: opt_str_model(c.hash_id_name),
    }
}

pub open spec fn fields_model(s: Seq<DynamicFieldSchema>) -> Seq<FieldModel>
    decreases s, 2nat,
{
    Seq::new(s.len(), |i: int| if 0 <= i < s.len() { field_model(s[i]) } else { arbitrary() })
}

pub open spec fn cases_model(s: Seq<DynamicUnionCaseSchema>) -> Seq<CaseModel>
    decreases s, 2nat,
{
    Seq::new(s.len(), |i: int| if 0 <= i < s.len() { case_model(s[i]) } else { arbitrary() })
}

pub open spec fn schema_model(s: DynamicTypeSchema) -> SchemaModel
    decreases s, 1nat,
{
    match s {
        DynamicTypeSchema::Primitive(k) => SchemaModel::Primitive(k),
        DynamicTypeSchema::String { bound } => SchemaModel::String { bound },
        DynamicTypeSchema::Sequence { name, bound, element } => SchemaModel::Sequence {
            name: name@,
            bound,
            element: Box::new(schema_model(*element)),
        },
        DynamicTypeSchema::Array { name, bounds, element } => SchemaModel::Array {
            name: name@,
            bounds: bounds@,
            element: Box::new(schema_model(*element)),
        },
        DynamicTypeSchema::Struct { name, base, fields, extensibility, autoid, nested } =>
            SchemaModel::Struct {
            name: name@,
            base: match base {
                Some(b) => Some(Box::new(schema_model(*b))),
                None => None,
            },
            fields: fields_model(fields@),
            extensibility,
            autoid,
            nested,
        },
        DynamicTypeSchema::Enum { name, literals, bit_bound } => SchemaModel::Enum {
            name: name@,
            literals: literals_model(literals@),
            bit_bound,
        },
        DynamicTypeSchema::Bitmask { name, fields, bit_bound } => SchemaModel::Bitmask {
            name: name@,
            fields: bit_fields_model(fields@),
            bit_bound,
        },
        DynamicTypeSchema::Alias { name, target } => SchemaModel::Alias {
            name: name@,
            target: Box::new(schema_model(*target)),
        },
        DynamicTypeSchema::Union { name, discriminator, cases, autoid, nested } =>
            SchemaModel::Union {
            name: name@,
            discriminator: Box::new(schema_model(*discriminator)),
            cases: cases_model(cases@),
            autoid,
            nested,
        },
        DynamicTypeSchema::Mapping { name, bound, key, value } => SchemaModel::Mapping {
            name: name@,
            bound,
            key: Box::new(schema_model(*key)),
            value: Box::new(schema_model(*value)),
        },
    }
}

pub open spec fn values_model(s: Seq<DynamicValue>) -> Seq<ValueModel>
    decreases s, 1nat,
{
    Seq::new(s.len(), |i: int| if 0 <= i < s.len() { value_model(s[i]) } else { arbitrary() })
}

/// No two members of a struct value share a name.
pub open spec fn members_distinct(es: Seq<(Seq<char>, ValueModel)>) -> bool {
    forall|i: int, j: int| 0 <= i < j < es.len() ==> #[trigger] es[i].0 != #[trigger] es[j].0
}

/// The members of a struct value are one per name and in name order, as the
/// entries of a `BTreeMap<String, _>` are.
pub open spec fn members_sorted(es: Seq<(Seq<char>, ValueModel)>) -> bool {
    &&& members_distinct(es)
    &&& forall|i: int, j: int|
        0 <= i < j < es.len() ==> crate::text::name_less(#[trigger] es[i].0, #[trigger] es[j].0)
}

pub open spec fn entries_model(s: Seq<(String, DynamicValue)>) -> Seq<(Seq<char>, ValueModel)>
    decreases s, 1nat,
{
    Seq::new(
        s.len(),
        |i: int| if 0 <= i < s.len() { (s[i].0@, value_model(s[i].1)) } else { arbitrary() },
    )
}

pub open spec fn pairs_model(s: Seq<(DynamicValue, DynamicValue)>) -> Seq<(ValueModel, ValueModel)>
    decreases s, 1nat,
{
    Seq::new(
        s.len(),
        |i: int|
            if 0 <= i < s.len() {
                (value_model(s[i].0), value_model(s[i].1))
            } else {
                arbitrary()
            },
    )
}

pub open spec fn value_model(v: DynamicValue) -> ValueModel
    decreases v, 0nat,
{
    match v {
        DynamicValue::Bool(x) => ValueModel::Bool(x),
        DynamicValue::Byte(x) => ValueModel::Byte(x),
        DynamicValue::Int8(x) => ValueModel::Int8(x),
        DynamicValue::UInt8(x) => ValueModel::UInt8(x),
        DynamicValue::Int16(x) => ValueModel::Int16(x),
        DynamicValue::UInt16(x) => ValueModel::UInt16(x),
        DynamicValue::Int32(x) => ValueModel::Int32(x),
        DynamicValue::UInt32(x) => ValueModel::UInt32(x),
        DynamicValue::Int64(x) => ValueModel::Int64(x),
        DynamicValue::UInt64(x) => ValueModel::UInt64(x),
        DynamicValue::Float32(x) => ValueModel::Float32(x),
        DynamicValue::Float64(x) => ValueModel::Float64(x),
        DynamicValue::Char8(x) => ValueModel::Char8(x),
        DynamicValue::Char16(x) => ValueModel::Char16(x),
        DynamicValue::String(s) => ValueModel::String(s@),
        DynamicValue::Sequence(vs) => ValueModel::Sequence(values_model(vs@)),
        DynamicValue::Array(vs) => ValueModel::Array(values_model(vs@)),
        DynamicValue::Struct(es) => ValueModel::Struct(entries_model(es@)),
        DynamicValue::Enum { value } => ValueModel::Enum { value },
        DynamicValue::Bitmask(x) => ValueModel::Bitmask(x),
        DynamicValue::Union { discriminator, field, value } => ValueModel::Union {
            discriminator,
            field: field@,
            value: Box::new(value_model(*value)),
        },
        DynamicValue::Mapping(ps) => ValueModel::Mapping(pairs_model(ps@)),
        DynamicValue::Null => ValueModel::Null,
    }
}

impl View for DynamicFieldSchema {
    type V = FieldModel;

    open spec fn view(&self) -> FieldModel {
        field_model(*self)
    }
}

impl View for DynamicUnionCaseSchema {
    type V = CaseModel;

    open spec fn view(&self) -> CaseModel {
        case_model(*self)
    }
}

impl View for DynamicEnumLiteralSchema {
    type V = LiteralModel;

    open spec fn view(&self) -> LiteralModel {
        literal_model(*self)
    }
}

impl View for DynamicBitmaskFieldSchema {
    type V = BitFieldModel;

    open spec fn view(&self) -> BitFieldModel {
        bit_field_model(*self)
    }
}

impl View for DynamicTypeSchema {
    type V = SchemaModel;

    open spec fn view(&self) -> SchemaModel {
        schema_model(*self)
    }
}

impl View for DynamicValue {
    type V = ValueModel;

    open spec fn view(&self) -> ValueModel {
        value_model(*self)
    }
}

// ---------------------------------------------------------------------------
// Copies
// ---------------------------------------------------------------------------

fn opt_string_dup(s: &Option<String>) -> (r: Option<String>)
    ensures
        opt_str_model(r) == opt_str_model(*s),
{
    match s {
        Some(x) => Some(x.clone()),
        None => None,
    }
}

fn i32_vec_dup(v: &Vec<i32>) -> (r: Vec<i32>)
    ensures
        r@ == v@,
{
    let mut r: Vec<i32> = Vec::new();
    let mut i: usize = 0;
    while i < v.len()
        invariant
            0 <= i <= v@.len(),
            r@ == v@.take(i as int),
        decreases v@.len() - i,
    {
        r.push(v[i]);
        i += 1;
        assert(r@ =~= v@.take(i as int));
    }
    assert(v@.take(v@.len() as int) =~= v@);
    r
}

fn u32_vec_dup(v: &Vec<u32>) -> (r: Vec<u32>)
    ensures
        r@ == v@,
{
    let mut r: Vec<u32> = Vec::new();
    let mut i: usize = 0;
    while i < v.len()
        invariant
            0 <= i <= v@.len(),
            r@ == v@.take(i as int),
        decreases v@.len() - i,
    {
        r.push(v[i]);
        i += 1;
        assert(r@ =~= v@.take(i as int));
    }
    assert(v@.take(v@.len() as int) =~= v@);
    r
}

fn literals_dup(v: &Vec<DynamicEnumLiteralSchema>) -> (r: Vec<DynamicEnumLiteralSchema>)
    ensures
        literals_model(r@) == literals_model(v@),
{
    let mut r: Vec<DynamicEnumLiteralSchema> = Vec::new();
    let mut i: usize = 0;
    while i < v.len()
        invariant
            0 <= i <= v@.len(),
            r@.len() == i,
            forall|j: int| 0 <= j < i ==> literal_model(#[trigger] r@[j]) == literal_model(v@[j]),
        decreases v@.len() - i,
    {
        let l = DynamicEnumLiteralSchema {
            name: v[i].name.clone(),
            value: v[i].value,
            default: v[i].default,
        };
        r.push(l);
        i += 1;
    }
    assert(literals_model(r@) =~= literals_model(v@));
    r
}

fn bit_fields_dup(v: &Vec<DynamicBitmaskFieldSchema>) -> (r: Vec<DynamicBitmaskFieldSchema>)
    ensures
        bit_fields_model(r@) == bit_fields_model(v@),
{
    let mut r: Vec<DynamicBitmaskFieldSchema> = Vec::new();
    let mut i: usize = 0;
    while i < v.len()
        invariant
            0 <= i <= v@.len(),
            r@.len() == i,
            forall|j: int| 0 <= j < i ==> bit_field_model(#[trigger] r@[j]) == bit_field_model(v@[j]),
        decreases v@.len() - i,
    {
        let f = DynamicBitmaskFieldSchema { name: v[i].name.clone(), position: v[i].position };
        r.push(f);
        i += 1;
    }
    assert(bit_fields_model(r@) =~= bit_fields_model(v@));
    r
}

fn fields_dup(v: &Vec<DynamicFieldSchema>) -> (r: Vec<DynamicFieldSchema>)
    ensures
        fields_model(r@) == fields_model(v@),
    decreases v, 1nat,
{
    let mut r: Vec<DynamicFieldSchema> = Vec::new();
    let mut i: usize = 0;
    while i < v.len()
        invariant
            0 <= i <= v@.len(),
            r@.len() == i,
            forall|j: int| 0 <= j < i ==> field_model(#[trigger] r@[j]) == field_model(v@[j]),
        decreases v@.len() - i,
    {
        proof {
            vstd::std_specs::vec::axiom_vec_index_decreases(*v, i as int);
        }
        let f = field_dup(&v[i]);
        r.push(f);
        i += 1;
    }
    assert(fields_model(r@) =~= fields_model(v@));
    r
}

fn field_dup(f: &DynamicFieldSchema) -> (r: DynamicFieldSchema)
    ensures
        field_model(r) == field_model(*f),
    decreases f, 0nat,
{
    DynamicFieldSchema {
        name: f.name.clone(),
        member_id: f.member_id,
        value: schema_dup(&f.value),
        optional: f.optional,
        key: f.key,
        external: f.external,
        must_understand: f.must_understand,
        hash_id_name: opt_string_dup(&f.hash_id_name),
    }
}

fn cases_dup(v: &Vec<DynamicUnionCaseSchema>) -> (r: Vec<DynamicUnionCaseSchema>)
    ensures
        cases_model(r@) == cases_model(v@),
    decreases v, 1nat,
{
    let mut r: Vec<DynamicUnionCaseSchema> = Vec::new();
    let mut i: usize = 0;
    while i < v.len()
        invariant
            0 <= i <= v@.len(),
            r@.len() == i,
            forall|j: int| 0 <= j < i ==> case_model(#[trigger] r@[j]) == case_model(v@[j]),
        decreases v@.len() - i,
    {
        proof {
            vstd::std_specs::vec::axiom_vec_index_decreases(*v, i as int);
        }
        let c = case_dup(&v[i]);
        r.push(c);
        i += 1;
    }
    assert(cases_model(r@) =~= cases_model(v@));
    r
}

fn case_dup(c: &DynamicUnionCaseSchema) -> (r: DynamicUnionCaseSchema)
    ensures
        case_model(r) == case_model(*c),
    decreases c, 0nat,
{
    DynamicUnionCaseSchema {
        name: c.name.clone(),
        member_id: c.member_id,
        value: schema_dup(&c.value),
        labels: i32_vec_dup(&c.labels),
        default: c.default,
        external: c.external,
        hash_id_name: opt_string_dup(&c.hash_id_name),
    }
}

fn schema_dup(s: &DynamicTypeSchema) -> (r: DynamicTypeSchema)
    ensures
        schema_model(r) == schema_model(*s),
    decreases s, 2nat,
{
    match s {
        DynamicTypeSchema::Primitive(k) => DynamicTypeSchema::Primitive(*k),
        DynamicTypeSchema::String { bound } => DynamicTypeSchema::String { bound: *bound },
        DynamicTypeSchema::Sequence { name, bound, element } => DynamicTypeSchema::Sequence {
            name: name.clone(),
            bound: *bound,
            element: Box::new(schema_dup(element)),
        },
        DynamicTypeSchema::Array { name, bounds, element } => DynamicTypeSchema::Array {
            name: name.clone(),
            bounds: u32_vec_dup(bounds),
            element: Box::new(schema_dup(element)),
        },
        DynamicTypeSchema::Struct { name, base, fields, extensibility, autoid, nested } => {
            let b = match base {
                Some(b) => Some(Box::new(schema_dup(b))),
                None => None,
            };
            DynamicTypeSchema::Struct {
                name: name.clone(),
                base: b,
                fields: fields_dup(fields),
                extensibility: *extensibility,
                autoid: *autoid,
                nested: *nested,
            }
        },
        DynamicTypeSchema::Enum { name, literals, bit_bound } => DynamicTypeSchema::Enum {
            name: name.clone(),
            literals: literals_dup(literals),
            bit_bound: *bit_bound,
        },
        DynamicTypeSchema::Bitmask { name, fields, bit_bound } => DynamicTypeSchema::Bitmask {
            name: name.clone(),
            fields: bit_fields_dup(fields),
            bit_bound: *bit_bound,
        },
        DynamicTypeSchema::Alias { name, target } => DynamicTypeSchema::Alias {
            name: name.clone(),
            target: Box::new(schema_dup(target)),
        },
        DynamicTypeSchema::Union { name, discriminator, cases, autoid, nested } =>
            DynamicTypeSchema::Union {
            name: name.clone(),
            discriminator: Box::new(schema_dup(discriminator)),
            cases: cases_dup(cases),
            autoid: *autoid,
            nested: *nested,
        },
        DynamicTypeSchema::Mapping { name, bound, key, value } => DynamicTypeSchema::Mapping {
            name: name.clone(),
            bound: *bound,
            key: Box::new(schema_dup(key)),
            value: Box::new(schema_dup(value)),
        },
    }
}

impl Clone for DynamicFieldSchema {
    fn clone(&self) -> (r: Self)
        ensures
            r@ == self@,
    {
        field_dup(self)
    }
}

impl Clone for DynamicUnionCaseSchema {
    fn clone(&self) -> (r: Self)
        ensures
            r@ == self@,
    {
        case_dup(self)
    }
}

impl Clone for DynamicEnumLiteralSchema {
    fn clone(&self) -> (r: Self)
        ensures
            r@ == self@,
    {
        DynamicEnumLiteralSchema { name: self.name.clone(), value: self.value, default: self.default }
    }
}

impl Clone for DynamicBitmaskFieldSchema {
    fn clone(&self) -> (r: Self)
        ensures
            r@ == self@,
    {
        DynamicBitmaskFieldSchema { name: self.name.clone(), position: self.position }
    }
}

impl Clone for DynamicTypeSchema {
    fn clone(&self) -> (r: Self)
        ensures
            r@ == self@,
    {
        schema_dup(self)
    }
}

pub(crate) fn values_dup(v: &Vec<DynamicValue>) -> (r: Vec<DynamicValue>)
    ensures
        values_model(r@) == values_model(v@),
    decreases v, 1nat,
{
    let mut r: Vec<DynamicValue> = Vec::new();
    let mut i: usize = 0;
    while i < v.len()
        invariant
            0 <= i <= v@.len(),
            r@.len() == i,
            forall|j: int| 0 <= j < i ==> value_model(#[trigger] r@[j]) == value_model(v@[j]),
        decreases v@.len() - i,
    {
        proof {
            vstd::std_specs::vec::axiom_vec_index_decreases(*v, i as int);
        }
        let x = value_dup(&v[i]);
        r.push(x);
        i += 1;
    }
    assert(values_model(r@) =~= values_model(v@));
    r
}

pub(crate) fn entries_dup(v: &Vec<(String, DynamicValue)>) -> (r: Vec<(String, DynamicValue)>)
    ensures
        entries_model(r@) == entries_model(v@),
    decreases v, 1nat,
{
    let mut r: Vec<(String, DynamicValue)> = Vec::new();
    let mut i: usize = 0;
    while i < v.len()
        invariant
            0 <= i <= v@.len(),
            r@.len() == i,
            forall|j: int|
                0 <= j < i ==> (#[trigger] r@[j]).0@ == v@[j].0@ && value_model(r@[j].1)
                    == value_model(v@[j].1),
        decreases v@.len() - i,
    {
        proof {
            vstd::std_specs::vec::axiom_vec_index_decreases(*v, i as int);
        }
        let x = value_dup(&v[i].1);
        r.push((v[i].0.clone(), x));
        i += 1;
    }
    assert(entries_model(r@) =~= entries_model(v@));
    r
}

fn pairs_dup(v: &Vec<(DynamicValue, DynamicValue)>) -> (r: Vec<(DynamicValue, DynamicValue)>)
    ensures
        pairs_model(r@) == pairs_model(v@),
    decreases v, 1nat,
{
    let mut r: Vec<(DynamicValue, DynamicValue)> = Vec::new();
    let mut i: usize = 0;
    while i < v.len()
        invariant
            0 <= i <= v@.len(),
            r@.len() == i,
            forall|j: int|
                0 <= j < i ==> value_model((#[trigger] r@[j]).0) == value_model(v@[j].0)
                    && value_model(r@[j].1) == value_model(v@[j].1),
        decreases v@.len() - i,
    {
        proof {
            vstd::std_specs::vec::axiom_vec_index_decreases(*v, i as int);
        }
        let a = value_dup(&v[i].0);
        let b = value_dup(&v[i].1);
        r.push((a, b));
        i += 1;
    }
    assert(pairs_model(r@) =~= pairs_model(v@));
    r
}

fn value_dup(v: &DynamicValue) -> (r: DynamicValue)
    ensures
        value_model(r) == value_model(*v),
    decreases v, 0nat,
{
    match v {
        DynamicValue::Bool(x) => DynamicValue::Bool(*x),
        DynamicValue::Byte(x) => DynamicValue::Byte(*x),
        DynamicValue::Int8(x) => DynamicValue::Int8(*x),
        DynamicValue::UInt8(x) => DynamicValue::UInt8(*x),
        DynamicValue::Int16(x) => DynamicValue::Int16(*x),
        DynamicValue::UInt16(x) => DynamicValue::UInt16(*x),
        DynamicValue::Int32(x) => DynamicValue::Int32(*x),
        DynamicValue::UInt32(x) => DynamicValue::UInt32(*x),
        DynamicValue::Int64(x) => DynamicValue::Int64(*x),
        DynamicValue::UInt64(x) => DynamicValue::UInt64(*x),
        DynamicValue::Float32(x) => DynamicValue::Float32(*x),
        DynamicValue::Float64(x) => DynamicValue::Float64(*x),
        DynamicValue::Char8(x) => DynamicValue::Char8(*x),
        DynamicValue::Char16(x) => DynamicValue::Char16(*x),
        DynamicValue::String(s) => DynamicValue::String(s.clone()),
        DynamicValue::Sequence(vs) => DynamicValue::Sequence(values_dup(vs)),
        DynamicValue::Array(vs) => DynamicValue::Array(values_dup(vs)),
        DynamicValue::Struct(es) => DynamicValue::Struct(entries_dup(es)),
        DynamicValue::Enum { value } => DynamicValue::Enum { value: *value },
        DynamicValue::Bitmask(x) => DynamicValue::Bitmask(*x),
        DynamicValue::Union { discriminator, field, value } => DynamicValue::Union {
            discriminator: *discriminator,
            field: field.clone(),
            value: Box::new(value_dup(value)),
        },
        DynamicValue::Mapping(ps) => DynamicValue::Mapping(pairs_dup(ps)),
        DynamicValue::Null => DynamicValue::Null,
    }
}

impl Clone for DynamicValue {
    fn clone(&self) -> (r: Self)
        ensures
            r@ == self@,
    {
        value_dup(self)
    }
}

// ---------------------------------------------------------------------------
// Lookups by name
// ---------------------------------------------------------------------------

/// `i` is the first position of a struct member named `k`.
pub open spec fn is_first_entry(es: Seq<(Seq<char>, ValueModel)>, k: Seq<char>, i: int) -> bool {
    &&& 0 <= i < es.len()
    &&& es[i].0 == k
    &&& forall|j: int| 0 <= j < i ==> es[j].0 != k
}

/// The position of the member named `k` in a struct value, or -1.
pub open spec fn entry_index(es: Seq<(Seq<char>, ValueModel)>, k: Seq<char>) -> int {
    if exists|i: int| is_first_entry(es, k, i) {
        choose|i: int| is_first_entry(es, k, i)
    } else {
        -1
    }
}

/// The value of the member named `k` in a struct value.
pub open spec fn entry_lookup(es: Seq<(Seq<char>, ValueModel)>, k: Seq<char>) -> Option<ValueModel> {
    let i = entry_index(es, k);
    if i >= 0 {
        Some(es[i].1)
    } else {
        None
    }
}

/// Some position holds a name `k`, so a first such position exists.
proof fn lemma_first_entry_exists(es: Seq<(Seq<char>, ValueModel)>, k: Seq<char>, j: int)
    requires
        0 <= j < es.len(),
        es[j].0 == k,
    ensures
        exists|i: int| is_first_entry(es, k, i),
    decreases j,
{
    if forall|n: int| 0 <= n < j ==> es[n].0 != k {
        assert(is_first_entry(es, k, j));
    } else {
        let n = choose|n: int| 0 <= n < j && es[n].0 == k;
        lemma_first_entry_exists(es, k, n);
    }
}

pub proof fn lemma_entry_index(es: Seq<(Seq<char>, ValueModel)>, k: Seq<char>)
    ensures
        entry_index(es, k) == -1 <==> forall|j: int| 0 <= j < es.len() ==> es[j].0 != k,
        entry_index(es, k) != -1 ==> is_first_entry(es, k, entry_index(es, k)),
        forall|i: int| is_first_entry(es, k, i) ==> entry_index(es, k) == i,
{
    if exists|i: int| is_first_entry(es, k, i) {
        let i = choose|i: int| is_first_entry(es, k, i);
        assert forall|i2: int| is_first_entry(es, k, i2) implies i2 == i by {
            if i2 < i {
            } else if i < i2 {
            }
        }
    } else {
        assert forall|j: int| 0 <= j < es.len() implies es[j].0 != k by {
            if es[j].0 == k {
                lemma_first_entry_exists(es, k, j);
            }
        }
    }
}

/// `i` is the first field named `k`.
pub open spec fn is_first_field(fs: Seq<FieldModel>, k: Seq<char>, i: int) -> bool {
    &&& 0 <= i < fs.len()
    &&& fs[i].name == k
    &&& forall|j: int| 0 <= j < i ==> fs[j].name != k
}

pub open spec fn field_index(fs: Seq<FieldModel>, k: Seq<char>) -> int {
    if exists|i: int| is_first_field(fs, k, i) {
        choose|i: int| is_first_field(fs, k, i)
    } else {
        -1
    }
}

/// `i` is the first union case named `k`.
pub open spec fn is_first_case(cs: Seq<CaseModel>, k: Seq<char>, i: int) -> bool {
    &&& 0 <= i < cs.len()
    &&& cs[i].name == k
    &&& forall|j: int| 0 <= j < i ==> cs[j].name != k
}

pub open spec fn case_index(cs: Seq<CaseModel>, k: Seq<char>) -> int {
    if exists|i: int| is_first_case(cs, k, i) {
        choose|i: int| is_first_case(cs, k, i)
    } else {
        -1
    }
}

/// Finds the first member named `name` of a struct value.
pub(crate) fn entry_position(es: &Vec<(String, DynamicValue)>, name: &str) -> (r: Option<usize>)
    ensures
        r matches Some(i) ==> i as int == entry_index(entries_model(es@), name@),
        r is None ==> entry_index(entries_model(es@), name@) == -1,
{
    let ghost m = entries_model(es@);
    let mut i: usize = 0;
    while i < es.len()
        invariant
            0 <= i <= es@.len(),
            m == entries_model(es@),
            forall|j: int| 0 <= j < i ==> m[j].0 != name@,
        decreases es@.len() - i,
    {
        if str_eq(es[i].0.as_str(), name) {
            proof {
                assert(is_first_entry(m, name@, i as int));
                lemma_entry_index(m, name@);
            }
            return Some(i);
        }
        i += 1;
    }
    proof {
        lemma_entry_index(m, name@);
    }
    None
}

/// Some position holds a name `k`, so a first such position exists.
proof fn lemma_first_field_exists(fs: Seq<FieldModel>, k: Seq<char>, j: int)
    requires
        0 <= j < fs.len(),
        fs[j].name == k,
    ensures
        exists|i: int| is_first_field(fs, k, i),
    decreases j,
{
    if forall|n: int| 0 <= n < j ==> fs[n].name != k {
        assert(is_first_field(fs, k, j));
    } else {
        let n = choose|n: int| 0 <= n < j && fs[n].name == k;
        lemma_first_field_exists(fs, k, n);
    }
}

pub proof fn lemma_field_index(fs: Seq<FieldModel>, k: Seq<char>)
    ensures
        field_index(fs, k) == -1 <==> forall|j: int| 0 <= j < fs.len() ==> fs[j].name != k,
        field_index(fs, k) != -1 ==> is_first_field(fs, k, field_index(fs, k)),
        forall|i: int| is_first_field(fs, k, i) ==> field_index(fs, k) == i,
{
    if exists|i: int| is_first_field(fs, k, i) {
        let i = choose|i: int| is_first_field(fs, k, i);
        assert forall|i2: int| is_first_field(fs, k, i2) implies i2 == i by {
            if i2 < i {
            } else if i < i2 {
            }
        }
    } else {
        assert forall|j: int| 0 <= j < fs.len() implies fs[j].name != k by {
            if fs[j].name == k {
                lemma_first_field_exists(fs, k, j);
            }
        }
    }
}

/// Some position holds a name `k`, so a first such position exists.
proof fn lemma_first_case_exists(cs: Seq<CaseModel>, k: Seq<char>, j: int)
    requires
        0 <= j < cs.len(),
        cs[j].name == k,
    ensures
        exists|i: int| is_first_case(cs, k, i),
    decreases j,
{
    if forall|n: int| 0 <= n < j ==> cs[n].name != k {
        assert(is_first_case(cs, k, j));
    } else {
        let n = choose|n: int| 0 <= n < j && cs[n].name == k;
        lemma_first_case_exists(cs, k, n);
    }
}

pub proof fn lemma_case_index(cs: Seq<CaseModel>, k: Seq<char>)
    ensures
        case_index(cs, k) == -1 <==> forall|j: int| 0 <= j < cs.len() ==> cs[j].name != k,
        case_index(cs, k) != -1 ==> is_first_case(cs, k, case_index(cs, k)),
        forall|i: int| is_first_case(cs, k, i) ==> case_index(cs, k) == i,
{
    if exists|i: int| is_first_case(cs, k, i) {
        let i = choose|i: int| is_first_case(cs, k, i);
        assert forall|i2: int| is_first_case(cs, k, i2) implies i2 == i by {
            if i2 < i {
            } else if i < i2 {
            }
        }
    } else {
        assert forall|j: int| 0 <= j < cs.len() implies cs[j].name != k by {
            if cs[j].name == k {
                lemma_first_case_exists(cs, k, j);
            }
        }
    }
}

/// Finds the first field named `name` among a struct schema's own fields.
pub(crate) fn field_position(fs: &Vec<DynamicFieldSchema>, name: &str) -> (r: Option<usize>)
    ensures
        r matches Some(i) ==> i as int == field_index(fields_model(fs@), name@),
        r is None ==> field_index(fields_model(fs@), name@) == -1,
{
    let ghost m = fields_model(fs@);
    let mut i: usize = 0;
    while i < fs.len()
        invariant
            0 <= i <= fs@.len(),
            m == fields_model(fs@),
            forall|j: int| 0 <= j < i ==> m[j].name != name@,
        decreases fs@.len() - i,
    {
        if str_eq(fs[i].name.as_str(), name) {
            proof {
                assert(is_first_field(m, name@, i as int));
                lemma_field_index(m, name@);
            }
            return Some(i);
        }
        i += 1;
    }
    proof {
        lemma_field_index(m, name@);
    }
    None
}

/// Finds the first case named `name` of a union schema.
pub(crate) fn case_position(cs: &Vec<DynamicUnionCaseSchema>, name: &str) -> (r: Option<usize>)
    ensures
        r matches Some(i) ==> i as int == case_index(cases_model(cs@), name@),
        r is None ==> case_index(cases_model(cs@), name@) == -1,
{
    let ghost m = cases_model(cs@);
    let mut i: usize = 0;
    while i < cs.len()
        invariant
            0 <= i <= cs@.len(),
            m == cases_model(cs@),
            forall|j: int| 0 <= j < i ==> m[j].name != name@,
        decreases cs@.len() - i,
    {
        if str_eq(cs[i].name.as_str(), name) {
            proof {
                assert(is_first_case(m, name@, i as int));
                lemma_case_index(m, name@);
            }
            return Some(i);
        }
        i += 1;
    }
    proof {
        lemma_case_index(m, name@);
    }
    None
}

// ---------------------------------------------------------------------------
// Validation
// ---------------------------------------------------------------------------

/// The number of bytes in the UTF-8 encoding of a string.
pub open spec fn byte_len(s: Seq<char>) -> nat {
    encode_utf8(s).len()
}

/// Multiplication that stops at `usize::MAX` (`usize::saturating_mul`).
pub open spec fn sat_mul(a: nat, b: nat) -> nat {
    if a * b > usize::MAX {
        usize::MAX as nat
    } else {
        a * b
    }
}

/// The number of elements of an array with the given dimensions, counted
/// as `usize` does (saturating).
pub open spec fn flattened_len(bounds: Seq<u32>) -> nat
    decreases bounds.len(),
{
    if bounds.len() == 0 {
        1
    } else {
        sat_mul(flattened_len(bounds.drop_last()), bounds.last() as nat)
    }
}

/// True when one of the literals has the value `v`.
pub open spec fn has_literal_value(ls: Seq<LiteralModel>, v: i32) -> bool {
    exists|i: int| 0 <= i < ls.len() && ls[i].value == v
}

/// The largest enum value that a bit bound below 32 admits.
pub open spec fn enum_bound_max(bb: u16) -> int {
    if bb == 31 {
        i32::MAX as int
    } else {
        pow2(bb as nat) - 1
    }
}

/// An enum value fits its bit bound.
pub open spec fn enum_fits(v: i32, bit_bound: Option<u16>) -> bool {
    match bit_bound {
        Some(bb) => bb < 32 ==> v <= enum_bound_max(bb),
        None => true,
    }
}

/// A bitmask value fits its bit bound.
pub open spec fn bitmask_fits(v: u64, bit_bound: Option<u16>) -> bool {
    match bit_bound {
        Some(bb) => bb < 64 ==> v < pow2(bb as nat),
        None => true,
    }
}

/// A length respects an optional bound.
pub open spec fn within_bound(len: nat, bound: Option<u32>) -> bool {
    match bound {
        Some(b) => len <= b,
        None => true,
    }
}

/// The primitive kind that a primitive value has, if it is one.
pub open spec fn primitive_kind_of(v: ValueModel) -> Option<DynamicPrimitiveKind> {
    match v {
        ValueModel::Bool(_) => Some(DynamicPrimitiveKind::Boolean),
        ValueModel::Byte(_) => Some(DynamicPrimitiveKind::Byte),
        ValueModel::Int8(_) => Some(DynamicPrimitiveKind::Int8),
        ValueModel::UInt8(_) => Some(DynamicPrimitiveKind::UInt8),
        ValueModel::Int16(_) => Some(DynamicPrimitiveKind::Int16),
        ValueModel::UInt16(_) => Some(DynamicPrimitiveKind::UInt16),
        ValueModel::Int32(_) => Some(DynamicPrimitiveKind::Int32),
        ValueModel::UInt32(_) => Some(DynamicPrimitiveKind::UInt32),
        ValueModel::Int64(_) => Some(DynamicPrimitiveKind::Int64),
        ValueModel::UInt64(_) => Some(DynamicPrimitiveKind::UInt64),
        ValueModel::Float32(_) => Some(DynamicPrimitiveKind::Float32),
        ValueModel::Float64(_) => Some(DynamicPrimitiveKind::Float64),
        ValueModel::Char8(_) => Some(DynamicPrimitiveKind::Char8),
        ValueModel::Char16(_) => Some(DynamicPrimitiveKind::Char16),
        _ => None,
    }
}

/// Whether a value conforms to a schema.
///
/// An alias is checked through its target; an unset (`Null`) value conforms
/// to every schema; a struct conforms when it conforms to its base and each
/// field is present with a conforming value (an optional field may be
/// missing or `Null`).
pub open spec fn conforms(v: ValueModel, s: SchemaModel) -> bool
    decreases v, s,
{
    if let SchemaModel::Alias { target, .. } = s {
        conforms(v, *target)
    } else {
        match (v, s) {
            (_, SchemaModel::Primitive(k)) => primitive_kind_of(v) == Some(k) || v is Null,
            (ValueModel::String(x), SchemaModel::String { bound }) => within_bound(
                byte_len(x),
                bound,
            ),
            (ValueModel::Sequence(xs), SchemaModel::Sequence { bound, element, .. }) => {
                within_bound(xs.len(), bound) && all_conform(xs, *element)
            },
            (ValueModel::Array(xs), SchemaModel::Array { bounds, element, .. }) => {
                xs.len() == flattened_len(bounds) && all_conform(xs, *element)
            },
            (ValueModel::Struct(es), SchemaModel::Struct { base, fields, .. }) => {
                &&& match base {
                    Some(b) => conforms(v, *b),
                    None => true,
                }
                &&& fields_conform(es, fields)
            },
            (ValueModel::Enum { value }, SchemaModel::Enum { literals, bit_bound, .. }) => {
                has_literal_value(literals, value) && enum_fits(value, bit_bound)
            },
            (ValueModel::Bitmask(x), SchemaModel::Bitmask { bit_bound, .. }) => bitmask_fits(
                x,
                bit_bound,
            ),
            (
                ValueModel::Union { discriminator, field, value },
                SchemaModel::Union { cases, .. },
            ) => {
                let k = case_index(cases, field);
                &&& 0 <= k < cases.len()
                &&& (cases[k].default || cases[k].labels.contains(discriminator))
                &&& conforms(*value, cases[k].value)
            },
            (ValueModel::Mapping(ps), SchemaModel::Mapping { bound, key, value, .. }) => {
                within_bound(ps.len(), bound) && pairs_conform(ps, *key, *value)
            },
            (ValueModel::Null, _) => true,
            _ => false,
        }
    }
}

/// Every value of `xs` conforms to `s`.
pub open spec fn all_conform(xs: Seq<ValueModel>, s: SchemaModel) -> bool
    decreases xs, s,
{
    forall|i: int| #![trigger xs[i]] 0 <= i < xs.len() ==> conforms(xs[i], s)
}

/// A struct field is satisfied by the members `es`: a present member
/// conforms to the field's type (or is `Null` for an optional field), and
/// only an optional field may be missing.
pub open spec fn field_conforms(es: Seq<(Seq<char>, ValueModel)>, f: FieldModel) -> bool
    decreases es, f,
{
    let k = entry_index(es, f.name);
    if 0 <= k < es.len() {
        (f.optional && es[k].1 is Null) || conforms(es[k].1, f.value)
    } else {
        f.optional
    }
}

/// Every field of a struct schema is satisfied by the members `es`.
pub open spec fn fields_conform(es: Seq<(Seq<char>, ValueModel)>, fields: Seq<FieldModel>) -> bool
    decreases es, fields,
{
    forall|i: int| #![trigger fields[i]] 0 <= i < fields.len() ==> field_conforms(es, fields[i])
}

/// Every key and value of a map conforms to the key and value types.
pub open spec fn pairs_conform(
    ps: Seq<(ValueModel, ValueModel)>,
    key: SchemaModel,
    value: SchemaModel,
) -> bool
    decreases ps, key,
{
    forall|i: int|
        #![trigger ps[i]]
        0 <= i < ps.len() ==> conforms(ps[i].0, key) && conforms(ps[i].1, value)
}


// ---------------------------------------------------------------------------
// Validation (executable)
// ---------------------------------------------------------------------------

/// `<what> length <len> exceeds bound <bound>`.
pub open spec fn length_exceeds_text(what: Seq<char>, len: nat, bound: nat) -> Seq<char> {
    what + " length "@ + ascii_chars(decimal_bytes(len)) + " exceeds bound "@ + ascii_chars(
        decimal_bytes(bound),
    )
}

/// `<prefix><v> exceeds bit bound <bb>`, with `v` in decimal.
pub open spec fn bit_bound_text(prefix: Seq<char>, v: Seq<char>, bb: u16) -> Seq<char> {
    prefix + v + " exceeds bit bound "@ + ascii_chars(decimal_bytes(bb as nat))
}

/// The complaint that validation makes at the level of the schema itself
/// (not of a member or element, and not a mismatch of kinds), for a schema
/// that is not an alias: a length over its bound, an array of the wrong
/// length, an enum value that is not a literal or exceeds the bit bound, a
/// bitmask over its bit bound, a union member that the schema lacks or
/// whose label the discriminator does not match.
pub open spec fn local_error(v: ValueModel, s: SchemaModel) -> Option<Seq<char>> {
    match (v, s) {
        (ValueModel::String(x), SchemaModel::String { bound: Some(b) }) => if byte_len(x) > b {
            Some(length_exceeds_text("string"@, byte_len(x), b as nat))
        } else {
            None
        },
        (ValueModel::Sequence(xs), SchemaModel::Sequence { bound: Some(b), .. }) => if xs.len() > b {
            Some(length_exceeds_text("sequence"@, xs.len(), b as nat))
        } else {
            None
        },
        (ValueModel::Array(xs), SchemaModel::Array { bounds, .. }) => if xs.len() != flattened_len(
            bounds,
        ) {
            Some(
                "array value length "@ + ascii_chars(decimal_bytes(xs.len()))
                    + " does not match expected flattened length "@ + ascii_chars(
                    decimal_bytes(flattened_len(bounds)),
                ),
            )
        } else {
            None
        },
        (ValueModel::Enum { value }, SchemaModel::Enum { literals, bit_bound, .. }) => {
            let text = ascii_chars(signed_decimal_bytes(value as int));
            if !has_literal_value(literals, value) {
                Some("enum value "@ + text + " not defined in schema"@)
            } else if !enum_fits(value, bit_bound) {
                Some(bit_bound_text("enum value "@, text, bit_bound.unwrap()))
            } else {
                None
            }
        },
        (ValueModel::Bitmask(x), SchemaModel::Bitmask { bit_bound, .. }) => if !bitmask_fits(
            x,
            bit_bound,
        ) {
            Some(
                bit_bound_text("bitmask value "@, ascii_chars(decimal_bytes(x as nat)), bit_bound.unwrap()),
            )
        } else {
            None
        },
        (
            ValueModel::Union { discriminator, field, .. },
            SchemaModel::Union { cases, .. },
        ) => {
            let k = case_index(cases, field);
            if !(0 <= k < cases.len()) {
                Some("union field '"@ + field + "' not defined in schema"@)
            } else if !(cases[k].default || cases[k].labels.contains(discriminator)) {
                Some(
                    "union discriminator "@ + ascii_chars(signed_decimal_bytes(discriminator as int))
                        + " does not match field '"@ + field + "'"@,
                )
            } else {
                None
            }
        },
        (ValueModel::Mapping(ps), SchemaModel::Mapping { bound: Some(b), .. }) => if ps.len() > b {
            Some(length_exceeds_text("map"@, ps.len(), b as nat))
        } else {
            None
        },
        _ => None,
    }
}

/// `BadParameter("<what> length <len> exceeds bound <bound>")`.
fn length_exceeds(what: &str, len: usize, bound: u32) -> (e: DdsError)
    ensures
        e matches DdsError::BadParameter(m) && m@ == length_exceeds_text(what@, len as nat, bound as nat),
{
    let mut m = concat2(what, " length ");
    m.append(u64_to_decimal_str(len as u64).as_str());
    m.append(" exceeds bound ");
    m.append(u64_to_decimal_str(bound as u64).as_str());
    DdsError::BadParameter(m)
}

/// `BadParameter("dynamic value <value> does not match schema <schema>")`.
fn mismatch(value: &DynamicValue, schema: &DynamicTypeSchema) -> (e: DdsError)
    ensures
        e is BadParameter,
{
    let mut m = concat2("dynamic value ", debug_string(value).as_str());
    m.append(" does not match schema ");
    m.append(debug_string(schema).as_str());
    DdsError::BadParameter(m)
}

/// The element count of an array with the given dimensions
/// (`usize::saturating_mul` over the dimensions, starting from 1).
pub fn flattened_array_len(bounds: &Vec<u32>) -> (r: usize)
    ensures
        r as nat == flattened_len(bounds@),
{
    let mut acc: usize = 1;
    let mut i: usize = 0;
    while i < bounds.len()
        invariant
            0 <= i <= bounds@.len(),
            acc as nat == flattened_len(bounds@.take(i as int)),
        decreases bounds@.len() - i,
    {
        let b: usize = bounds[i] as usize;
        proof {
            assert(bounds@.take(i as int + 1).drop_last() =~= bounds@.take(i as int));
        }
        acc = match acc.checked_mul(b) {
            Some(x) => x,
            None => usize::MAX,
        };
        i += 1;
    }
    proof {
        assert(bounds@.take(bounds@.len() as int) =~= bounds@);
    }
    acc
}

impl DynamicValue {
    /// The primitive kind of this value, if it is a primitive value.
    pub fn primitive_kind(&self) -> (r: Option<DynamicPrimitiveKind>)
        ensures
            r == primitive_kind_of(self@),
    {
        match self {
            DynamicValue::Bool(_) => Some(DynamicPrimitiveKind::Boolean),
            DynamicValue::Byte(_) => Some(DynamicPrimitiveKind::Byte),
            DynamicValue::Int8(_) => Some(DynamicPrimitiveKind::Int8),
            DynamicValue::UInt8(_) => Some(DynamicPrimitiveKind::UInt8),
            DynamicValue::Int16(_) => Some(DynamicPrimitiveKind::Int16),
            DynamicValue::UInt16(_) => Some(DynamicPrimitiveKind::UInt16),
            DynamicValue::Int32(_) => Some(DynamicPrimitiveKind::Int32),
            DynamicValue::UInt32(_) => Some(DynamicPrimitiveKind::UInt32),
            DynamicValue::Int64(_) => Some(DynamicPrimitiveKind::Int64),
            DynamicValue::UInt64(_) => Some(DynamicPrimitiveKind::UInt64),
            DynamicValue::Float32(_) => Some(DynamicPrimitiveKind::Float32),
            DynamicValue::Float64(_) => Some(DynamicPrimitiveKind::Float64),
            DynamicValue::Char8(_) => Some(DynamicPrimitiveKind::Char8),
            DynamicValue::Char16(_) => Some(DynamicPrimitiveKind::Char16),
            _ => None,
        }
    }
}

/// Checks every value of a sequence or array against the element type.
fn validate_all(values: &Vec<DynamicValue>, element: &DynamicTypeSchema) -> (r: DdsResult<()>)
    ensures
        r is Ok <==> all_conform(values_model(values@), element@),
        r matches Err(e) ==> e is BadParameter,
    decreases values, element,
{
    let ghost xs = values_model(values@);
    let mut i: usize = 0;
    while i < values.len()
        invariant
            0 <= i <= values@.len(),
            xs == values_model(values@),
            forall|j: int| 0 <= j < i ==> conforms(#[trigger] xs[j], element@),
        decreases values@.len() - i,
    {
        proof {
            vstd::std_specs::vec::axiom_vec_index_decreases(*values, i as int);
        }
        let r = values[i].validate_against(element);
        if r.is_err() {
            assert(!conforms(xs[i as int], element@));
            assert(!all_conform(xs, element@));
            return r;
        }
        i += 1;
    }
    Ok(())
}

/// Checks the members of a struct value against the fields of its schema.
fn validate_fields(
    values: &Vec<(String, DynamicValue)>,
    fields: &Vec<DynamicFieldSchema>,
) -> (r: DdsResult<()>)
    ensures
        r is Ok <==> fields_conform(entries_model(values@), fields_model(fields@)),
        r matches Err(e) ==> e is BadParameter,
    decreases values, fields,
{
    let ghost es = entries_model(values@);
    let ghost fs = fields_model(fields@);
    let mut i: usize = 0;
    while i < fields.len()
        invariant
            0 <= i <= fields@.len(),
            es == entries_model(values@),
            fs == fields_model(fields@),
            forall|j: int| 0 <= j < i ==> field_conforms(es, #[trigger] fs[j]),
        decreases fields@.len() - i,
    {
        let field = &fields[i];
        let ghost f = fs[i as int];
        match entry_position(values, field.name.as_str()) {
            Some(k) => {
                proof {
                    lemma_entry_index(es, f.name);
                    vstd::std_specs::vec::axiom_vec_index_decreases(*values, k as int);
                }
                let value = &values[k].1;
                let skip = field.optional && matches!(value, DynamicValue::Null);
                if !skip {
                    let r = value.validate_against(&field.value);
                    if r.is_err() {
                        assert(!field_conforms(es, fs[i as int]));
                        return r;
                    }
                }
            },
            None => {
                if !field.optional {
                    assert(!field_conforms(es, fs[i as int]));
                    return Err(
                        DdsError::BadParameter(
                            concat3("missing required dynamic field '", field.name.as_str(), "'"),
                        ),
                    );
                }
            },
        }
        assert(field_conforms(es, fs[i as int]));
        i += 1;
    }
    Ok(())
}

/// Checks every key and value of a map value.
fn validate_pairs(
    entries: &Vec<(DynamicValue, DynamicValue)>,
    key: &DynamicTypeSchema,
    value: &DynamicTypeSchema,
) -> (r: DdsResult<()>)
    ensures
        r is Ok <==> pairs_conform(pairs_model(entries@), key@, value@),
        r matches Err(e) ==> e is BadParameter,
    decreases entries, key,
{
    let ghost ps = pairs_model(entries@);
    let mut i: usize = 0;
    while i < entries.len()
        invariant
            0 <= i <= entries@.len(),
            ps == pairs_model(entries@),
            forall|j: int|
                #![trigger ps[j]]
                0 <= j < i ==> conforms(ps[j].0, key@) && conforms(ps[j].1, value@),
        decreases entries@.len() - i,
    {
        proof {
            vstd::std_specs::vec::axiom_vec_index_decreases(*entries, i as int);
        }
        let rk = entries[i].0.validate_against(key);
        if rk.is_err() {
            assert(!conforms(ps[i as int].0, key@));
            return rk;
        }
        let rv = entries[i].1.validate_against(value);
        if rv.is_err() {
            assert(!conforms(ps[i as int].1, value@));
            return rv;
        }
        i += 1;
    }
    Ok(())
}


/// Whether some literal of an enum schema has the value `v`.
fn has_literal(literals: &Vec<DynamicEnumLiteralSchema>, v: i32) -> (r: bool)
    ensures
        r == has_literal_value(literals_model(literals@), v),
{
    let ghost ls = literals_model(literals@);
    let mut i: usize = 0;
    while i < literals.len()
        invariant
            0 <= i <= literals@.len(),
            ls == literals_model(literals@),
            forall|j: int| 0 <= j < i ==> (#[trigger] ls[j]).value != v,
        decreases literals@.len() - i,
    {
        if literals[i].value == v {
            assert(ls[i as int].value == v);
            return true;
        }
        i += 1;
    }
    false
}

/// Whether an enum value fits the schema's bit bound.
fn enum_within_bit_bound(value: i32, bit_bound: Option<u16>) -> (r: bool)
    ensures
        r == enum_fits(value, bit_bound),
{
    match bit_bound {
        Some(bb) => {
            if bb < 32 {
                let max: i64 = if bb == 31 {
                    i32::MAX as i64
                } else {
                    proof {
                        vstd::bits::lemma_u64_pow2_no_overflow(bb as nat);
                        vstd::bits::lemma_u64_shl_is_mul(1, bb as u64);
                        vstd::arithmetic::power2::lemma_pow2_strictly_increases(bb as nat, 31);
                        vstd::arithmetic::power2::lemma2_to64();
                    }
                    ((1u64 << (bb as u64)) - 1) as i64
                };
                (value as i64) <= max
            } else {
                true
            }
        },
        None => true,
    }
}

/// Whether a bitmask value fits the schema's bit bound.
fn bitmask_within_bit_bound(value: u64, bit_bound: Option<u16>) -> (r: bool)
    ensures
        r == bitmask_fits(value, bit_bound),
{
    match bit_bound {
        Some(bb) => {
            if bb < 64 {
                proof {
                    vstd::bits::lemma_u64_pow2_no_overflow(bb as nat);
                    vstd::bits::lemma_u64_shl_is_mul(1, bb as u64);
                }
                value < (1u64 << (bb as u64))
            } else {
                true
            }
        },
        None => true,
    }
}

/// Whether `x` is one of the labels.
fn has_label(labels: &Vec<i32>, x: i32) -> (r: bool)
    ensures
        r == labels@.contains(x),
{
    let mut i: usize = 0;
    while i < labels.len()
        invariant
            0 <= i <= labels@.len(),
            forall|j: int| 0 <= j < i ==> labels@[j] != x,
        decreases labels@.len() - i,
    {
        if labels[i] == x {
            assert(labels@[i as int] == x);
            return true;
        }
        i += 1;
    }
    false
}

impl DynamicValue {
    /// Checks this value against a schema.
    ///
    /// Succeeds exactly when the value conforms to the schema (see
    /// [`conforms`]); otherwise reports `BadParameter` with a description of
    /// the first mismatch found.
    pub fn validate_against(&self, schema: &DynamicTypeSchema) -> (r: DdsResult<()>)
        ensures
            r is Ok <==> conforms(self@, schema@),
            r matches Err(e) ==> e is BadParameter,
            match local_error(self@, schema@) {
                Some(t) => !(schema@ is Alias) ==> (r matches Err(DdsError::BadParameter(m)) && m@
                    == t),
                None => true,
            },
        decreases self, schema,
    {
        match schema {
            DynamicTypeSchema::Alias { target, .. } => {
                let r = self.validate_against(target);
                assert(r is Ok <==> conforms(self@, schema@));
                r
            },
            DynamicTypeSchema::Primitive(k) => {
                let same = match self.primitive_kind() {
                    Some(p) => p == *k,
                    None => false,
                };
                if same || matches!(self, DynamicValue::Null) {
                    assert(conforms(self@, schema@));
                    Ok(())
                } else {
                    assert(!conforms(self@, schema@));
                    Err(mismatch(self, schema))
                }
            },
            DynamicTypeSchema::String { bound } => match self {
                DynamicValue::String(x) => {
                    if let Some(b) = bound {
                        let n = x.as_str().as_bytes().len();
                        if n > *b as usize {
                            return Err(length_exceeds("string", n, *b));
                        }
                    }
                    assert(conforms(self@, schema@));
                    Ok(())
                },
                DynamicValue::Null => Ok(()),
                _ => Err(mismatch(self, schema)),
            },
            DynamicTypeSchema::Sequence { bound, element, .. } => match self {
                DynamicValue::Sequence(values) => {
                    assert(values_model(values@).len() == values@.len());
                    if let Some(b) = bound {
                        if values.len() > *b as usize {
                            return Err(length_exceeds("sequence", values.len(), *b));
                        }
                    }
                    let r = validate_all(values, element);
                    assert(r is Ok <==> conforms(self@, schema@));
                    r
                },
                DynamicValue::Null => Ok(()),
                _ => Err(mismatch(self, schema)),
            },
            DynamicTypeSchema::Array { bounds, element, .. } => match self {
                DynamicValue::Array(values) => {
                    assert(values_model(values@).len() == values@.len());
                    let expected = flattened_array_len(bounds);
                    if values.len() != expected {
                        let mut m = concat2(
                            "array value length ",
                            u64_to_decimal_str(values.len() as u64).as_str(),
                        );
                        m.append(" does not match expected flattened length ");
                        m.append(u64_to_decimal_str(expected as u64).as_str());
                        return Err(DdsError::BadParameter(m));
                    }
                    let r = validate_all(values, element);
                    assert(r is Ok <==> conforms(self@, schema@));
                    r
                },
                DynamicValue::Null => Ok(()),
                _ => Err(mismatch(self, schema)),
            },
            DynamicTypeSchema::Struct { base, fields, .. } => match self {
                DynamicValue::Struct(values) => {
                    if let Some(b) = base {
                        let rb = self.validate_against(b);
                        if rb.is_err() {
                            return rb;
                        }
                    }
                    let r = validate_fields(values, fields);
                    assert(r is Ok <==> conforms(self@, schema@));
                    r
                },
                DynamicValue::Null => Ok(()),
                _ => Err(mismatch(self, schema)),
            },
            DynamicTypeSchema::Enum { literals, bit_bound, .. } => match self {
                DynamicValue::Enum { value } => {
                    if !has_literal(literals, *value) {
                        return Err(
                            DdsError::BadParameter(
                                concat3(
                                    "enum value ",
                                    i64_to_decimal_str(*value as i64).as_str(),
                                    " not defined in schema",
                                ),
                            ),
                        );
                    }
                    if !enum_within_bit_bound(*value, *bit_bound) {
                        let mut m = concat3(
                            "enum value ",
                            i64_to_decimal_str(*value as i64).as_str(),
                            " exceeds bit bound ",
                        );
                        let bb: u16 = match bit_bound {
                            Some(bb) => *bb,
                            None => 0,
                        };
                        m.append(u64_to_decimal_str(bb as u64).as_str());
                        return Err(DdsError::BadParameter(m));
                    }
                    Ok(())
                },
                DynamicValue::Null => Ok(()),
                _ => Err(mismatch(self, schema)),
            },
            DynamicTypeSchema::Bitmask { bit_bound, .. } => match self {
                DynamicValue::Bitmask(value) => {
                    if !bitmask_within_bit_bound(*value, *bit_bound) {
                        let mut m = concat3(
                            "bitmask value ",
                            u64_to_decimal_str(*value).as_str(),
                            " exceeds bit bound ",
                        );
                        let bb: u16 = match bit_bound {
                            Some(bb) => *bb,
                            None => 0,
                        };
                        m.append(u64_to_decimal_str(bb as u64).as_str());
                        return Err(DdsError::BadParameter(m));
                    }
                    Ok(())
                },
                DynamicValue::Null => Ok(()),
                _ => Err(mismatch(self, schema)),
            },
            DynamicTypeSchema::Union { cases, .. } => match self {
                DynamicValue::Union { discriminator, field, value } => {
                    let k = match case_position(cases, field.as_str()) {
                        Some(k) => k,
                        None => {
                            return Err(
                                DdsError::BadParameter(
                                    concat3(
                                        "union field '",
                                        field.as_str(),
                                        "' not defined in schema",
                                    ),
                                ),
                            );
                        },
                    };
                    proof {
                        lemma_case_index(cases_model(cases@), field@);
                    }
                    let case = &cases[k];
                    if !(case.default || has_label(&case.labels, *discriminator)) {
                        let mut m = concat3(
                            "union discriminator ",
                            i64_to_decimal_str(*discriminator as i64).as_str(),
                            " does not match field '",
                        );
                        m.append(field.as_str());
                        m.append("'");
                        return Err(DdsError::BadParameter(m));
                    }
                    let r = value.validate_against(&case.value);
                    assert(r is Ok <==> conforms(self@, schema@));
                    r
                },
                DynamicValue::Null => Ok(()),
                _ => Err(mismatch(self, schema)),
            },
            DynamicTypeSchema::Mapping { bound, key, value, .. } => match self {
                DynamicValue::Mapping(entries) => {
                    assert(pairs_model(entries@).len() == entries@.len());
                    if let Some(b) = bound {
                        if entries.len() > *b as usize {
                            return Err(length_exceeds("map", entries.len(), *b));
                        }
                    }
                    let r = validate_pairs(entries, key, value);
                    assert(r is Ok <==> conforms(self@, schema@));
                    r
                },
                DynamicValue::Null => Ok(()),
                _ => Err(mismatch(self, schema)),
            },
        }
    }
}

} // verus!
