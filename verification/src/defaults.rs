//! The default value of each schema, and insertion of struct members by
//! name.
use vstd::prelude::*;
use crate::dynamic_type::DynamicPrimitiveKind;
use vstd::utf8::encode_utf8;
use crate::text::{name_less, str_less};
use crate::value_ops::{
    has_member, hierarchy_names_distinct, lemma_conforms_frame, law_member_read_after_write,
    law_member_write_keeps_others,
};
use crate::dynamic_value::{
    members_distinct, members_sorted, case_index, conforms, enum_fits, entry_lookup, field_conforms, fields_conform, cases_model, entries_model, entry_index, entry_position, fields_model, flattened_array_len,
    flattened_len, lemma_entry_index, literals_model, value_model, values_model,
    CaseModel, DynamicEnumLiteralSchema, DynamicFieldSchema, DynamicTypeSchema,
    DynamicUnionCaseSchema, DynamicValue, FieldModel, LiteralModel, SchemaModel, ValueModel,
};

verus! {

// ---------------------------------------------------------------------------
// Struct members by name
// ---------------------------------------------------------------------------

/// Where a new member named `k` goes: before the first member whose name
/// comes after `k`, else at the end. Among members kept in name order this
/// is the place that keeps them so.
pub open spec fn member_slot(es: Seq<(Seq<char>, ValueModel)>, k: Seq<char>) -> int
    decreases es.len(),
{
    if es.len() == 0 {
        0
    } else {
        let p = member_slot(es.drop_last(), k);
        if p < es.len() - 1 {
            p
        } else if name_less(k, es.last().0) {
            es.len() - 1
        } else {
            es.len() as int
        }
    }
}

/// `p` is before the first member whose name comes after `k`.
pub open spec fn is_member_slot(es: Seq<(Seq<char>, ValueModel)>, k: Seq<char>, p: int) -> bool {
    &&& 0 <= p <= es.len()
    &&& forall|j: int| 0 <= j < p ==> !name_less(k, #[trigger] es[j].0)
    &&& p < es.len() ==> name_less(k, es[p].0)
}

pub proof fn lemma_member_slot(es: Seq<(Seq<char>, ValueModel)>, k: Seq<char>)
    ensures
        is_member_slot(es, k, member_slot(es, k)),
        forall|q: int| is_member_slot(es, k, q) ==> q == member_slot(es, k),
    decreases es.len(),
{
    if es.len() > 0 {
        let rest = es.drop_last();
        lemma_member_slot(rest, k);
        let p = member_slot(es, k);
        assert forall|j: int| 0 <= j < p implies !name_less(k, #[trigger] es[j].0) by {
            if j < es.len() - 1 {
                assert(es[j] == rest[j]);
            }
        }
        if p < es.len() - 1 {
            assert(es[p] == rest[p]);
        }
    }
    let p = member_slot(es, k);
    assert forall|q: int| is_member_slot(es, k, q) implies q == p by {
        if q < p {
            assert(!name_less(k, es[q].0));
        } else if q > p {
            assert(!name_less(k, es[p].0));
        }
    }
}

/// The members of a struct value after setting member `k` to `v`: an
/// existing member takes the new value; a new member is placed by
/// [`member_slot`], so that members kept in name order stay so.
pub open spec fn entries_insert(
    es: Seq<(Seq<char>, ValueModel)>,
    k: Seq<char>,
    v: ValueModel,
) -> Seq<(Seq<char>, ValueModel)> {
    let i = entry_index(es, k);
    if i >= 0 {
        es.update(i, (k, v))
    } else {
        es.insert(member_slot(es, k), (k, v))
    }
}

/// The position at which a new member named `name` goes.
fn slot_position(values: &Vec<(String, DynamicValue)>, name: &str) -> (r: usize)
    ensures
        r as int == member_slot(entries_model(values@), name@),
{
    let ghost es = entries_model(values@);
    let mut i: usize = 0;
    while i < values.len()
        invariant
            0 <= i <= values@.len(),
            es == entries_model(values@),
            forall|j: int| 0 <= j < i ==> !name_less(name@, #[trigger] es[j].0),
        decreases values@.len() - i,
    {
        if str_less(name, values[i].0.as_str()) {
            proof {
                lemma_member_slot(es, name@);
                assert(is_member_slot(es, name@, i as int));
            }
            return i;
        }
        i += 1;
    }
    proof {
        lemma_member_slot(es, name@);
        assert(is_member_slot(es, name@, i as int));
    }
    i
}

/// Sets member `name` of a struct value's members to `v`.
pub fn entries_set(values: &mut Vec<(String, DynamicValue)>, name: String, v: DynamicValue)
    ensures
        entries_model(final(values)@) == entries_insert(entries_model(old(values)@), name@, v@),
{
    let ghost es = entries_model(values@);
    let ghost k = name@;
    let ghost vm = v@;
    proof {
        lemma_entry_index(es, k);
    }
    match entry_position(values, name.as_str()) {
        Some(i) => {
            values.set(i, (name, v));
            assert(entries_model(values@) =~= es.update(i as int, (k, vm)));
        },
        None => {
            let p = slot_position(values, name.as_str());
            values.insert(p, (name, v));
            assert(entries_model(values@) =~= es.insert(p as int, (k, vm)));
        },
    }
}

// ---------------------------------------------------------------------------
// Default values
// ---------------------------------------------------------------------------

/// The zero value of a primitive kind (floating-point zero is the all-zero
/// bit pattern).
pub open spec fn primitive_default(k: DynamicPrimitiveKind) -> ValueModel {
    match k {
        DynamicPrimitiveKind::Boolean => ValueModel::Bool(false),
        DynamicPrimitiveKind::Byte => ValueModel::Byte(0),
        DynamicPrimitiveKind::Int8 => ValueModel::Int8(0),
        DynamicPrimitiveKind::UInt8 => ValueModel::UInt8(0),
        DynamicPrimitiveKind::Int16 => ValueModel::Int16(0),
        DynamicPrimitiveKind::UInt16 => ValueModel::UInt16(0),
        DynamicPrimitiveKind::Int32 => ValueModel::Int32(0),
        DynamicPrimitiveKind::UInt32 => ValueModel::UInt32(0),
        DynamicPrimitiveKind::Int64 => ValueModel::Int64(0),
        DynamicPrimitiveKind::UInt64 => ValueModel::UInt64(0),
        DynamicPrimitiveKind::Float32 => ValueModel::Float32(0),
        DynamicPrimitiveKind::Float64 => ValueModel::Float64(0),
        DynamicPrimitiveKind::Char8 => ValueModel::Char8(0),
        DynamicPrimitiveKind::Char16 => ValueModel::Char16(0),
    }
}

/// The position of the first literal marked default, else 0 (the first
/// literal), else -1 when there is none.
pub open spec fn default_literal_index(ls: Seq<LiteralModel>) -> int {
    if exists|i: int| 0 <= i < ls.len() && ls[i].default {
        choose|i: int|
            0 <= i < ls.len() && ls[i].default && forall|j: int| 0 <= j < i ==> !ls[j].default
    } else if ls.len() > 0 {
        0
    } else {
        -1
    }
}

/// The position of the first case marked default, else 0 (the first case),
/// else -1 when there is none.
pub open spec fn default_case_index(cs: Seq<CaseModel>) -> int {
    if exists|i: int| 0 <= i < cs.len() && cs[i].default {
        choose|i: int|
            0 <= i < cs.len() && cs[i].default && forall|j: int| 0 <= j < i ==> !cs[j].default
    } else if cs.len() > 0 {
        0
    } else {
        -1
    }
}

/// The members that a struct's base contributes to its default value.
pub open spec fn base_defaults(base: Option<Box<SchemaModel>>) -> Seq<(Seq<char>, ValueModel)>
    decreases base,
{
    match base {
        Some(b) => if *b is Struct {
            match default_of(*b) {
                ValueModel::Struct(es) => es,
                _ => Seq::empty(),
            }
        } else {
            Seq::empty()
        },
        None => Seq::empty(),
    }
}

/// The members `es` after each of the fields has been set, in order, to
/// its default (`Null` for an optional field).
pub open spec fn fields_defaults(
    es: Seq<(Seq<char>, ValueModel)>,
    fields: Seq<FieldModel>,
) -> Seq<(Seq<char>, ValueModel)>
    decreases fields,
{
    if fields.len() == 0 {
        es
    } else {
        let f = fields.last();
        proof {
            vstd::seq::axiom_seq_subrange_decreases(fields, 0, fields.len() - 1);
        }
        entries_insert(
            fields_defaults(es, fields.drop_last()),
            f.name,
            if f.optional {
                ValueModel::Null
            } else {
                default_of(f.value)
            },
        )
    }
}

/// The default value of a schema:
/// - zero for a primitive, empty for a string, sequence or map, and
///   `Bitmask(0)`;
/// - an array of the flattened length filled with the element's default;
/// - for a struct, the base's members (when the base is a struct), then each
///   field set to its default, optional fields to `Null`;
/// - for an enum, the value of the first literal marked default, else of
///   the first literal, else 0;
/// - for a union, the first case marked default, else the first case, with
///   its first label (or 0) as discriminator and its member's default; `Null`
///   when there is no case;
/// - an alias has its target's default.
pub open spec fn default_of(s: SchemaModel) -> ValueModel
    decreases s,
{
    match s {
        SchemaModel::Primitive(k) => primitive_default(k),
        SchemaModel::String { .. } => ValueModel::String(Seq::empty()),
        SchemaModel::Sequence { .. } => ValueModel::Sequence(Seq::empty()),
        SchemaModel::Array { bounds, element, .. } => ValueModel::Array(
            Seq::new(flattened_len(bounds), |i: int| default_of(*element)),
        ),
        SchemaModel::Struct { base, fields, .. } => ValueModel::Struct(
            fields_defaults(base_defaults(base), fields),
        ),
        SchemaModel::Enum { literals, .. } => {
            let i = default_literal_index(literals);
            ValueModel::Enum { value: if i >= 0 { literals[i].value } else { 0 } }
        },
        SchemaModel::Bitmask { .. } => ValueModel::Bitmask(0),
        SchemaModel::Alias { target, .. } => default_of(*target),
        SchemaModel::Union { cases, .. } => {
            let i = default_case_index(cases);
            if 0 <= i < cases.len() {
                ValueModel::Union {
                    discriminator: if cases[i].labels.len() > 0 {
                        cases[i].labels[0]
                    } else {
                        0
                    },
                    field: cases[i].name,
                    value: Box::new(default_of(cases[i].value)),
                }
            } else {
                ValueModel::Null
            }
        },
        SchemaModel::Mapping { .. } => ValueModel::Mapping(Seq::empty()),
    }
}

fn default_literal_position(ls: &Vec<DynamicEnumLiteralSchema>) -> (r: Option<usize>)
    ensures
        match r {
            Some(i) => i as int == default_literal_index(literals_model(ls@)) && i < ls@.len(),
            None => default_literal_index(literals_model(ls@)) == -1,
        },
{
    let ghost m = literals_model(ls@);
    let mut i: usize = 0;
    while i < ls.len()
        invariant
            0 <= i <= ls@.len(),
            m == literals_model(ls@),
            forall|j: int| 0 <= j < i ==> !(#[trigger] m[j]).default,
        decreases ls@.len() - i,
    {
        if ls[i].default {
            assert(m[i as int].default);
            let ghost c = choose|c: int|
                0 <= c < m.len() && m[c].default && forall|j: int| 0 <= j < c ==> !m[j].default;
            assert(c == i) by {
                if c < i {
                    assert(!m[c].default);
                }
                if c > i {
                    assert(!m[i as int].default);
                }
            }
            return Some(i);
        }
        i += 1;
    }
    if ls.len() > 0 {
        Some(0)
    } else {
        None
    }
}

fn default_case_position(cs: &Vec<DynamicUnionCaseSchema>) -> (r: Option<usize>)
    ensures
        match r {
            Some(i) => i as int == default_case_index(cases_model(cs@)) && i < cs@.len(),
            None => default_case_index(cases_model(cs@)) == -1,
        },
{
    let ghost m = cases_model(cs@);
    let mut i: usize = 0;
    while i < cs.len()
        invariant
            0 <= i <= cs@.len(),
            m == cases_model(cs@),
            forall|j: int| 0 <= j < i ==> !(#[trigger] m[j]).default,
        decreases cs@.len() - i,
    {
        if cs[i].default {
            assert(m[i as int].default);
            let ghost c = choose|c: int|
                0 <= c < m.len() && m[c].default && forall|j: int| 0 <= j < c ==> !m[j].default;
            assert(c == i) by {
                if c < i {
                    assert(!m[c].default);
                }
                if c > i {
                    assert(!m[i as int].default);
                }
            }
            return Some(i);
        }
        i += 1;
    }
    if cs.len() > 0 {
        Some(0)
    } else {
        None
    }
}

fn primitive_default_value(k: DynamicPrimitiveKind) -> (r: DynamicValue)
    ensures
        r@ == primitive_default(k),
{
    match k {
        DynamicPrimitiveKind::Boolean => DynamicValue::Bool(false),
        DynamicPrimitiveKind::Byte => DynamicValue::Byte(0),
        DynamicPrimitiveKind::Int8 => DynamicValue::Int8(0),
        DynamicPrimitiveKind::UInt8 => DynamicValue::UInt8(0),
        DynamicPrimitiveKind::Int16 => DynamicValue::Int16(0),
        DynamicPrimitiveKind::UInt16 => DynamicValue::UInt16(0),
        DynamicPrimitiveKind::Int32 => DynamicValue::Int32(0),
        DynamicPrimitiveKind::UInt32 => DynamicValue::UInt32(0),
        DynamicPrimitiveKind::Int64 => DynamicValue::Int64(0),
        DynamicPrimitiveKind::UInt64 => DynamicValue::UInt64(0),
        DynamicPrimitiveKind::Float32 => DynamicValue::Float32(0),
        DynamicPrimitiveKind::Float64 => DynamicValue::Float64(0),
        DynamicPrimitiveKind::Char8 => DynamicValue::Char8(0),
        DynamicPrimitiveKind::Char16 => DynamicValue::Char16(0),
    }
}

impl DynamicTypeSchema {
    /// The default value of this schema (see [`default_of`]).
    pub fn default_value(&self) -> (r: DynamicValue)
        ensures
            r@ == default_of(self@),
        decreases self, 1nat,
    {
        match self {
            DynamicTypeSchema::Primitive(k) => primitive_default_value(*k),
            DynamicTypeSchema::String { .. } => DynamicValue::String(String::new()),
            DynamicTypeSchema::Sequence { .. } => {
                let r = DynamicValue::Sequence(Vec::new());
                assert(values_model(Seq::<DynamicValue>::empty()) =~= Seq::empty());
                r
            },
            DynamicTypeSchema::Array { .. } => Self::array_default(self),
            DynamicTypeSchema::Struct { .. } => Self::struct_default(self),
            DynamicTypeSchema::Enum { literals, .. } => {
                let value = match default_literal_position(literals) {
                    Some(i) => literals[i].value,
                    None => 0,
                };
                DynamicValue::Enum { value }
            },
            DynamicTypeSchema::Bitmask { .. } => DynamicValue::Bitmask(0),
            DynamicTypeSchema::Alias { target, .. } => target.default_value(),
            DynamicTypeSchema::Union { .. } => Self::union_default(self),
            DynamicTypeSchema::Mapping { .. } => {
                let r = DynamicValue::Mapping(Vec::new());
                assert(crate::dynamic_value::pairs_model(Seq::<(DynamicValue, DynamicValue)>::empty())
                    =~= Seq::empty());
                r
            },
        }
    }

    #[verifier::loop_isolation(false)]
    fn array_default(s: &DynamicTypeSchema) -> (r: DynamicValue)
        requires
            s is Array,
        ensures
            r@ == default_of(s@),
        decreases s, 0nat,
    {
        match s {
            DynamicTypeSchema::Array { bounds, element, .. } => {
                let len = flattened_array_len(bounds);
                let mut items: Vec<DynamicValue> = Vec::new();
                let mut i: usize = 0;
                while i < len
                    invariant
                        0 <= i <= len,
                        items@.len() == i,
                        forall|j: int|
                            0 <= j < i ==> value_model(#[trigger] items@[j]) == default_of(
                                schema_model_of(element),
                            ),
                    decreases len - i,
                {
                    let d = element.default_value();
                    items.push(d);
                    i += 1;
                }
                assert(values_model(items@) =~= Seq::new(
                    flattened_len(bounds@),
                    |j: int| default_of(schema_model_of(element)),
                ));
                DynamicValue::Array(items)
            },
            _ => DynamicValue::Null,
        }
    }

    #[verifier::loop_isolation(false)]
    fn struct_default(s: &DynamicTypeSchema) -> (r: DynamicValue)
        requires
            s is Struct,
        ensures
            r@ == default_of(s@),
        decreases s, 0nat,
    {
        match s {
            DynamicTypeSchema::Struct { base, fields, .. } => {
                let mut values: Vec<(String, DynamicValue)> = match base {
                    Some(b) => {
                        if matches!(**b, DynamicTypeSchema::Struct { .. }) {
                            match b.default_value() {
                                DynamicValue::Struct(m) => m,
                                _ => Vec::new(),
                            }
                        } else {
                            Vec::new()
                        }
                    },
                    None => Vec::new(),
                };
                let ghost fm = fields_model(fields@);
                assert(entries_model(values@) =~= base_defaults(base_model_of(base)));
                let mut i: usize = 0;
                while i < fields.len()
                    invariant
                        0 <= i <= fields@.len(),
                        fm == fields_model(fields@),
                        entries_model(values@) == fields_defaults(
                            base_defaults(base_model_of(base)),
                            fm.take(i as int),
                        ),
                    decreases fields@.len() - i,
                {
                    proof {
                        vstd::std_specs::vec::axiom_vec_index_decreases(*fields, i as int);
                    }
                    let f = &fields[i];
                    let v = if f.optional {
                        DynamicValue::Null
                    } else {
                        f.value.default_value()
                    };
                    assert(fm.take(i as int + 1).drop_last() =~= fm.take(i as int));
                    assert(fm.take(i as int + 1).last() == fm[i as int]);
                    entries_set(&mut values, f.name.clone(), v);
                    i += 1;
                }
                assert(fm.take(fields@.len() as int) =~= fm);
                DynamicValue::Struct(values)
            },
            _ => DynamicValue::Null,
        }
    }

    fn union_default(s: &DynamicTypeSchema) -> (r: DynamicValue)
        requires
            s is Union,
        ensures
            r@ == default_of(s@),
        decreases s, 0nat,
    {
        match s {
            DynamicTypeSchema::Union { cases, .. } => match default_case_position(cases) {
                Some(i) => {
                    proof {
                        vstd::std_specs::vec::axiom_vec_index_decreases(*cases, i as int);
                    }
                    let case = &cases[i];
                    let discriminator = if case.labels.len() > 0 {
                        case.labels[0]
                    } else {
                        0
                    };
                    DynamicValue::Union {
                        discriminator,
                        field: case.name.clone(),
                        value: Box::new(case.value.default_value()),
                    }
                },
                None => DynamicValue::Null,
            },
            _ => DynamicValue::Null,
        }
    }
}

/// The model of a boxed schema.
pub open spec fn schema_model_of(b: &Box<DynamicTypeSchema>) -> SchemaModel {
    crate::dynamic_value::schema_model(**b)
}

/// The model of an optional boxed base schema.
pub open spec fn base_model_of(b: &Option<Box<DynamicTypeSchema>>) -> Option<Box<SchemaModel>> {
    match *b {
        Some(x) => Some(Box::new(crate::dynamic_value::schema_model(*x))),
        None => None,
    }
}

impl DynamicValue {
    /// The default value of a schema (see [`default_of`]).
    pub fn new(schema: &DynamicTypeSchema) -> (r: Self)
        ensures
            r@ == default_of(schema@),
            r@ matches ValueModel::Struct(es) ==> members_sorted(es),
    {
        proof {
            law_default_members_sorted(schema@);
        }
        schema.default_value()
    }
}

// ---------------------------------------------------------------------------
// Default values are valid
// ---------------------------------------------------------------------------

/// Whether the default value of a schema is one that validation accepts.
/// It is not for an enum without literals, or whose default literal's value
/// exceeds its bit bound; for a union whose chosen case is neither marked
/// default nor labelled, or shares its name with an earlier case; for a
/// struct whose member names are ambiguous (see
/// [`hierarchy_names_distinct`]) or whose base is not itself a struct; and
/// for any schema that contains one of these where a default is built.
pub open spec fn default_valid(s: SchemaModel) -> bool
    decreases s,
{
    match s {
        SchemaModel::Array { element, .. } => default_valid(*element),
        SchemaModel::Struct { base, fields, .. } => {
            &&& hierarchy_names_distinct(s)
            &&& fields_default_valid(fields)
            &&& match base {
                Some(b) => *b is Struct && default_valid(*b),
                None => true,
            }
        },
        SchemaModel::Enum { literals, bit_bound, .. } => {
            &&& literals.len() > 0
            &&& enum_fits(literals[default_literal_index(literals)].value, bit_bound)
        },
        SchemaModel::Union { cases, .. } => union_default_valid(cases, default_case_index(cases)),
        SchemaModel::Alias { target, .. } => default_valid(*target),
        _ => true,
    }
}

/// Whether each required field's default is valid (see [`default_valid`]).
pub open spec fn fields_default_valid(fields: Seq<FieldModel>) -> bool
    decreases fields,
{
    forall|i: int|
        #![trigger fields[i]]
        0 <= i < fields.len() ==> (fields[i].optional || default_valid(fields[i].value))
}

/// Whether case `i` of a union, the one its default value selects, gives a
/// valid default.
pub open spec fn union_default_valid(cases: Seq<CaseModel>, i: int) -> bool
    decreases cases,
{
    if 0 <= i < cases.len() {
        &&& case_index(cases, cases[i].name) == i
        &&& (cases[i].default || cases[i].labels.len() > 0)
        &&& default_valid(cases[i].value)
    } else {
        true
    }
}

/// The value a field gets in a default struct value.
pub open spec fn field_default(f: FieldModel) -> ValueModel {
    if f.optional {
        ValueModel::Null
    } else {
        default_of(f.value)
    }
}

proof fn lemma_default_literal_index(ls: Seq<LiteralModel>)
    ensures
        ls.len() > 0 ==> 0 <= default_literal_index(ls) < ls.len(),
{
    if exists|i: int| 0 <= i < ls.len() && ls[i].default {
        let i = choose|i: int| 0 <= i < ls.len() && ls[i].default;
        lemma_first_default_literal(ls, i);
    }
}

proof fn lemma_first_default_literal(ls: Seq<LiteralModel>, i: int)
    requires
        0 <= i < ls.len(),
        ls[i].default,
    ensures
        exists|c: int| 0 <= c < ls.len() && ls[c].default && forall|j: int| 0 <= j < c ==> !ls[j].default,
    decreases i,
{
    if forall|j: int| 0 <= j < i ==> !ls[j].default {
    } else {
        let j = choose|j: int| 0 <= j < i && ls[j].default;
        lemma_first_default_literal(ls, j);
    }
}

proof fn lemma_default_case_index(cs: Seq<CaseModel>)
    ensures
        cs.len() > 0 ==> 0 <= default_case_index(cs) < cs.len(),
{
    if exists|i: int| 0 <= i < cs.len() && cs[i].default {
        let i = choose|i: int| 0 <= i < cs.len() && cs[i].default;
        lemma_first_default_case(cs, i);
    }
}

proof fn lemma_first_default_case(cs: Seq<CaseModel>, i: int)
    requires
        0 <= i < cs.len(),
        cs[i].default,
    ensures
        exists|c: int| 0 <= c < cs.len() && cs[c].default && forall|j: int| 0 <= j < c ==> !cs[j].default,
    decreases i,
{
    if forall|j: int| 0 <= j < i ==> !cs[j].default {
    } else {
        let j = choose|j: int| 0 <= j < i && cs[j].default;
        lemma_first_default_case(cs, j);
    }
}

/// Setting the fields to their defaults leaves other members as they were.
proof fn lemma_fields_defaults_other(es: Seq<(Seq<char>, ValueModel)>, fields: Seq<FieldModel>, n: Seq<char>)
    requires
        forall|j: int| 0 <= j < fields.len() ==> (#[trigger] fields[j]).name != n,
    ensures
        entry_lookup(fields_defaults(es, fields), n) == entry_lookup(es, n),
    decreases fields.len(),
{
    if fields.len() > 0 {
        let f = fields.last();
        assert(f.name != n);
        let rest = fields.drop_last();
        assert forall|j: int| 0 <= j < rest.len() implies (#[trigger] rest[j]).name != n by {
            assert(rest[j] == fields[j]);
        }
        lemma_fields_defaults_other(es, rest, n);
        law_member_write_keeps_others(fields_defaults(es, rest), f.name, field_default(f), n);
    }
}

/// With distinct names, each field ends up holding its default.
proof fn lemma_fields_defaults_own(es: Seq<(Seq<char>, ValueModel)>, fields: Seq<FieldModel>, i: int)
    requires
        0 <= i < fields.len(),
        forall|a: int, b: int| 0 <= a < b < fields.len() ==> #[trigger] fields[a].name != #[trigger] fields[b].name,
    ensures
        entry_lookup(fields_defaults(es, fields), fields[i].name) == Some(field_default(fields[i])),
    decreases fields.len(),
{
    let f = fields.last();
    let rest = fields.drop_last();
    if i == fields.len() - 1 {
        law_member_read_after_write(fields_defaults(es, rest), f.name, field_default(f));
    } else {
        assert(rest[i] == fields[i]);
        assert forall|a: int, b: int| 0 <= a < b < rest.len() implies #[trigger] rest[a].name != #[trigger] rest[b].name by {
            assert(rest[a] == fields[a]);
            assert(rest[b] == fields[b]);
        }
        lemma_fields_defaults_own(es, rest, i);
        assert(fields[i].name != f.name);
        law_member_write_keeps_others(fields_defaults(es, rest), f.name, field_default(f), fields[i].name);
    }
}

/// Setting fields that a schema does not have keeps a struct value's
/// conformance to it.
proof fn lemma_fields_defaults_frame(es: Seq<(Seq<char>, ValueModel)>, fields: Seq<FieldModel>, b: SchemaModel)
    requires
        forall|j: int| 0 <= j < fields.len() ==> !has_member(b, (#[trigger] fields[j]).name),
        conforms(ValueModel::Struct(es), b),
    ensures
        conforms(ValueModel::Struct(fields_defaults(es, fields)), b),
    decreases fields.len(),
{
    if fields.len() > 0 {
        let f = fields.last();
        let rest = fields.drop_last();
        assert forall|j: int| 0 <= j < rest.len() implies !has_member(b, (#[trigger] rest[j]).name) by {
            assert(rest[j] == fields[j]);
        }
        lemma_fields_defaults_frame(es, rest, b);
        assert(!has_member(b, fields[fields.len() - 1].name));
        lemma_conforms_frame(fields_defaults(es, rest), b, f.name, field_default(f));
    }
}

/// A struct's default conforms once each required field's default and the
/// base's default do.
proof fn lemma_struct_default_conforms(
    base: Option<Box<SchemaModel>>,
    fields: Seq<FieldModel>,
    s: SchemaModel,
)
    requires
        s is Struct,
        s->Struct_base == base,
        s->Struct_fields == fields,
        hierarchy_names_distinct(s),
        forall|i: int|
            0 <= i < fields.len() && !fields[i].optional ==> conforms(
                default_of(#[trigger] fields[i].value),
                fields[i].value,
            ),
        match base {
            Some(b) => *b is Struct && conforms(default_of(*b), *b),
            None => true,
        },
    ensures
        conforms(default_of(s), s),
{
    let bes = base_defaults(base);
    let es = fields_defaults(bes, fields);
    assert(default_of(s) == ValueModel::Struct(es));
    assert forall|i: int| 0 <= i < fields.len() implies field_conforms(es, #[trigger] fields[i]) by {
        lemma_fields_defaults_own(bes, fields, i);
        lemma_entry_index(es, fields[i].name);
    }
    assert(fields_conform(es, fields));
    match base {
        Some(b) => {
            assert(default_of(*b) == ValueModel::Struct(bes));
            assert(forall|j: int| 0 <= j < fields.len() ==> !has_member(*b, (#[trigger] fields[j]).name));
            lemma_fields_defaults_frame(bes, fields, *b);
        },
        None => {},
    }
}

/// The default value of a schema passes validation against that schema,
/// wherever [`default_valid`] holds.
pub proof fn law_default_value_conforms(s: SchemaModel)
    requires
        default_valid(s),
    ensures
        conforms(default_of(s), s),
    decreases s,
{
    match s {
        SchemaModel::Primitive(k) => {
            assert(crate::dynamic_value::primitive_kind_of(primitive_default(k)) == Some(k));
        },
        SchemaModel::String { .. } => {
            assert(encode_utf8(Seq::<char>::empty()) =~= Seq::<u8>::empty());
        },
        SchemaModel::Sequence { element, .. } => {
            assert(crate::dynamic_value::all_conform(Seq::empty(), *element));
        },
        SchemaModel::Mapping { key, value, .. } => {
            assert(crate::dynamic_value::pairs_conform(Seq::empty(), *key, *value));
        },
        SchemaModel::Array { bounds, element, .. } => {
            law_default_value_conforms(*element);
            let xs = Seq::new(flattened_len(bounds), |i: int| default_of(*element));
            assert forall|i: int| 0 <= i < xs.len() implies conforms(#[trigger] xs[i], *element) by {}
            assert(crate::dynamic_value::all_conform(xs, *element));
        },
        SchemaModel::Struct { base, fields, .. } => {
            assert forall|i: int|
                0 <= i < fields.len() && !fields[i].optional implies conforms(
                default_of(#[trigger] fields[i].value),
                fields[i].value,
            ) by {
                assert(fields_default_valid(fields));
                law_default_value_conforms(fields[i].value);
            }
            match base {
                Some(b) => {
                    law_default_value_conforms(*b);
                },
                None => {},
            }
            lemma_struct_default_conforms(base, fields, s);
        },
        SchemaModel::Enum { literals, .. } => {
            lemma_default_literal_index(literals);
        },
        SchemaModel::Bitmask { bit_bound, .. } => {
            match bit_bound {
                Some(bb) => {
                    vstd::arithmetic::power2::lemma_pow2_pos(bb as nat);
                },
                None => {},
            }
        },
        SchemaModel::Alias { target, .. } => {
            law_default_value_conforms(*target);
        },
        SchemaModel::Union { cases, .. } => {
            lemma_default_case_index(cases);
            if cases.len() > 0 {
                let i = default_case_index(cases);
                assert(union_default_valid(cases, i));
                law_default_value_conforms(cases[i].value);
                if cases[i].labels.len() > 0 {
                    assert(cases[i].labels.contains(cases[i].labels[0]));
                }
            }
        },
        _ => {},
    }
}

/// A schema whose every part is well formed: each struct's member names are
/// unambiguous (see [`hierarchy_names_distinct`]) and its base, if any, is
/// a struct; each enum has a literal and all its literal values fit its bit
/// bound; each union's case names are distinct and the case its default
/// value selects (the first marked default, else the first) is marked
/// default or has a label.
pub open spec fn schema_well_formed(s: SchemaModel) -> bool
    decreases s,
{
    match s {
        SchemaModel::Sequence { element, .. } => schema_well_formed(*element),
        SchemaModel::Array { element, .. } => schema_well_formed(*element),
        SchemaModel::Mapping { key, value, .. } => schema_well_formed(*key) && schema_well_formed(*value),
        SchemaModel::Struct { base, fields, .. } => {
            &&& hierarchy_names_distinct(s)
            &&& fields_well_formed(fields)
            &&& match base {
                Some(b) => *b is Struct && schema_well_formed(*b),
                None => true,
            }
        },
        SchemaModel::Enum { literals, bit_bound, .. } => {
            &&& literals.len() > 0
            &&& forall|i: int| 0 <= i < literals.len() ==> enum_fits(#[trigger] literals[i].value, bit_bound)
        },
        SchemaModel::Union { cases, .. } => {
            &&& forall|i: int, j: int| 0 <= i < j < cases.len() ==> #[trigger] cases[i].name != #[trigger] cases[j].name
            &&& cases_well_formed(cases)
            &&& (0 <= default_case_index(cases) < cases.len() ==> (cases[default_case_index(cases)].default
                || cases[default_case_index(cases)].labels.len() > 0))
        },
        SchemaModel::Alias { target, .. } => schema_well_formed(*target),
        _ => true,
    }
}

/// Every field's type is well formed.
pub open spec fn fields_well_formed(fields: Seq<FieldModel>) -> bool
    decreases fields,
{
    forall|i: int| #![trigger fields[i]] 0 <= i < fields.len() ==> schema_well_formed(fields[i].value)
}

/// Every case's type is well formed.
pub open spec fn cases_well_formed(cases: Seq<CaseModel>) -> bool
    decreases cases,
{
    forall|i: int| #![trigger cases[i]] 0 <= i < cases.len() ==> schema_well_formed(cases[i].value)
}

proof fn lemma_well_formed_default_valid(s: SchemaModel)
    requires
        schema_well_formed(s),
    ensures
        default_valid(s),
    decreases s,
{
    match s {
        SchemaModel::Array { element, .. } => {
            lemma_well_formed_default_valid(*element);
        },
        SchemaModel::Struct { base, fields, .. } => {
            assert forall|i: int| 0 <= i < fields.len() implies (#[trigger] fields[i].optional
                || default_valid(fields[i].value)) by {
                assert(fields_well_formed(fields));
                lemma_well_formed_default_valid(fields[i].value);
            }
            assert(fields_default_valid(fields));
            match base {
                Some(b) => {
                    lemma_well_formed_default_valid(*b);
                },
                None => {},
            }
        },
        SchemaModel::Enum { literals, bit_bound, .. } => {
            lemma_default_literal_index(literals);
            let d = default_literal_index(literals);
            assert(enum_fits(literals[d].value, bit_bound));
        },
        SchemaModel::Union { cases, .. } => {
            lemma_default_case_index(cases);
            let d = default_case_index(cases);
            if 0 <= d < cases.len() {
                assert(cases_well_formed(cases));
                lemma_well_formed_default_valid(cases[d].value);
                crate::dynamic_value::lemma_case_index(cases, cases[d].name);
                assert(crate::dynamic_value::is_first_case(cases, cases[d].name, d));
                assert(union_default_valid(cases, d));
            } else {
                assert(union_default_valid(cases, d));
            }
            assert(default_valid(s));
        },
        SchemaModel::Alias { target, .. } => {
            lemma_well_formed_default_valid(*target);
        },
        _ => {},
    }
}

/// The default value of a well-formed schema passes validation against
/// that schema.
pub proof fn law_default_conforms_when_well_formed(s: SchemaModel)
    requires
        schema_well_formed(s),
    ensures
        conforms(default_of(s), s),
{
    lemma_well_formed_default_valid(s);
    law_default_value_conforms(s);
}

/// A zero value: `false`, or a number (or character code, or float bit
/// pattern) equal to zero.
pub open spec fn is_zero_value(v: ValueModel) -> bool {
    match v {
        ValueModel::Bool(b) => !b,
        ValueModel::Byte(x) => x == 0,
        ValueModel::Int8(x) => x == 0,
        ValueModel::UInt8(x) => x == 0,
        ValueModel::Int16(x) => x == 0,
        ValueModel::UInt16(x) => x == 0,
        ValueModel::Int32(x) => x == 0,
        ValueModel::UInt32(x) => x == 0,
        ValueModel::Int64(x) => x == 0,
        ValueModel::UInt64(x) => x == 0,
        ValueModel::Float32(x) => x == 0,
        ValueModel::Float64(x) => x == 0,
        ValueModel::Char8(x) => x == 0,
        ValueModel::Char16(x) => x == 0,
        _ => false,
    }
}

/// The default of every primitive kind is the zero value of that kind:
/// `false` for a boolean, 0 for every number and character, positive zero
/// for a float.
pub proof fn law_primitive_default_is_zero(k: DynamicPrimitiveKind)
    ensures
        is_zero_value(default_of(SchemaModel::Primitive(k))),
        conforms(default_of(SchemaModel::Primitive(k)), SchemaModel::Primitive(k)),
        k == DynamicPrimitiveKind::Boolean ==> default_of(SchemaModel::Primitive(k)) == ValueModel::Bool(false),
{
    law_default_value_conforms(SchemaModel::Primitive(k));
}

/// The defaults of the other kinds: strings, sequences and maps are empty,
/// a bitmask has no bit set, an array holds the product of its dimensions
/// of its element's default, and an enum takes the value of its first
/// literal marked default, else of its first literal.
pub proof fn law_default_shapes(s: SchemaModel)
    ensures
        s is String ==> default_of(s) == ValueModel::String(Seq::empty()),
        s is Sequence ==> default_of(s) == ValueModel::Sequence(Seq::empty()),
        s is Mapping ==> default_of(s) == ValueModel::Mapping(Seq::empty()),
        s is Bitmask ==> default_of(s) == ValueModel::Bitmask(0),
        s is Alias ==> default_of(s) == default_of(*s->Alias_target),
        s is Array ==> (default_of(s) matches ValueModel::Array(xs) && xs.len() == flattened_len(
            s->Array_bounds,
        ) && forall|i: int| 0 <= i < xs.len() ==> #[trigger] xs[i] == default_of(*s->Array_element)),
        s is Enum && s->Enum_literals.len() > 0 ==> (default_of(s) matches ValueModel::Enum { value }
            && exists|i: int|
            0 <= i < s->Enum_literals.len() && value == s->Enum_literals[i].value && (if exists|j: int|
                0 <= j < s->Enum_literals.len() && (#[trigger] s->Enum_literals[j]).default {
                s->Enum_literals[i].default && forall|j: int| 0 <= j < i ==> !s->Enum_literals[j].default
            } else {
                i == 0
            })),
{
    if let SchemaModel::Enum { literals, .. } = s {
        if literals.len() > 0 {
            lemma_default_literal_index(literals);
            let i = default_literal_index(literals);
            if exists|j: int| 0 <= j < literals.len() && (#[trigger] literals[j]).default {
                let j = choose|j: int| 0 <= j < literals.len() && (#[trigger] literals[j]).default;
                lemma_first_default_literal(literals, j);
            }
            assert(0 <= i < literals.len());
        }
    }
}

/// Setting fields with distinct names, none of them a member yet, adds one
/// member per field.
proof fn lemma_fields_defaults_len(es: Seq<(Seq<char>, ValueModel)>, fields: Seq<FieldModel>)
    requires
        forall|a: int, b: int| 0 <= a < b < fields.len() ==> #[trigger] fields[a].name != #[trigger] fields[b].name,
        forall|j: int| 0 <= j < fields.len() ==> entry_lookup(es, (#[trigger] fields[j]).name) is None,
    ensures
        fields_defaults(es, fields).len() == es.len() + fields.len(),
    decreases fields.len(),
{
    if fields.len() > 0 {
        let rest = fields.drop_last();
        let f = fields.last();
        assert forall|a: int, b: int| 0 <= a < b < rest.len() implies #[trigger] rest[a].name != #[trigger] rest[b].name by {
            assert(rest[a] == fields[a]);
            assert(rest[b] == fields[b]);
        }
        assert forall|j: int| 0 <= j < rest.len() implies entry_lookup(es, (#[trigger] rest[j]).name) is None by {
            assert(rest[j] == fields[j]);
        }
        lemma_fields_defaults_len(es, rest);
        assert forall|j: int| 0 <= j < rest.len() implies (#[trigger] rest[j]).name != f.name by {
            assert(rest[j] == fields[j]);
            assert(fields[j].name != fields[fields.len() - 1].name);
        }
        lemma_fields_defaults_other(es, rest, f.name);
        assert(entry_lookup(es, fields[fields.len() - 1].name) is None);
        let prev = fields_defaults(es, rest);
        lemma_entry_index(prev, f.name);
        lemma_entry_index(es, f.name);
        lemma_member_slot(prev, f.name);
        assert(entry_lookup(prev, f.name) is None);
        assert(entry_index(prev, f.name) < 0);
    }
}

/// The default of a struct whose own fields have distinct names holds, for
/// each of them, `Null` when it is optional and else the default of its
/// type; without a base it holds nothing else.
pub proof fn law_struct_default_members(s: SchemaModel)
    requires
        s is Struct,
        forall|a: int, b: int|
            0 <= a < b < s->Struct_fields.len() ==> #[trigger] s->Struct_fields[a].name
                != #[trigger] s->Struct_fields[b].name,
    ensures
        (default_of(s) is Struct),
        forall|i: int|
            0 <= i < s->Struct_fields.len() ==> entry_lookup(
                default_of(s)->Struct_0,
                (#[trigger] s->Struct_fields[i]).name,
            ) == Some(
                if s->Struct_fields[i].optional {
                    ValueModel::Null
                } else {
                    default_of(s->Struct_fields[i].value)
                },
            ),
        s->Struct_base is None ==> default_of(s)->Struct_0.len() == s->Struct_fields.len(),
{
    let fields = s->Struct_fields;
    let bes = base_defaults(s->Struct_base);
    assert forall|i: int| 0 <= i < fields.len() implies entry_lookup(
        default_of(s)->Struct_0,
        (#[trigger] fields[i]).name,
    ) == Some(if fields[i].optional { ValueModel::Null } else { default_of(fields[i].value) }) by {
        lemma_fields_defaults_own(bes, fields, i);
    }
    if s->Struct_base is None {
        assert forall|j: int| 0 <= j < fields.len() implies entry_lookup(bes, (#[trigger] fields[j]).name) is None by {
            lemma_entry_index(bes, fields[j].name);
        }
        lemma_fields_defaults_len(bes, fields);
    }
}

/// The default of a struct with a struct base holds each member of the
/// base's default whose name none of its own fields takes, as it is there.
pub proof fn law_struct_default_keeps_base_members(s: SchemaModel, n: Seq<char>)
    requires
        s is Struct,
        s->Struct_base matches Some(b) && *b is Struct,
        forall|j: int| 0 <= j < s->Struct_fields.len() ==> (#[trigger] s->Struct_fields[j]).name != n,
    ensures
        (default_of(s) is Struct),
        (default_of(*s->Struct_base.unwrap()) is Struct),
        entry_lookup(default_of(s)->Struct_0, n) == entry_lookup(default_of(*s->Struct_base.unwrap())->Struct_0, n),
{
    let b = *s->Struct_base.unwrap();
    lemma_default_is_struct(b);
    lemma_fields_defaults_other(base_defaults(s->Struct_base), s->Struct_fields, n);
}

proof fn lemma_default_is_struct(s: SchemaModel)
    requires
        s is Struct,
    ensures
        (default_of(s) is Struct),
{
}

/// The default of a union with cases selects its first case marked
/// default, else its first case; its discriminator is that case's first
/// label (0 when it has none) and its member is the default of that case's
/// type. A union without cases defaults to `Null`.
pub proof fn law_union_default(s: SchemaModel)
    requires
        s is Union,
    ensures
        s->Union_cases.len() == 0 ==> default_of(s) == ValueModel::Null,
        s->Union_cases.len() > 0 ==> exists|c: int|
            #![trigger s->Union_cases[c]]
            0 <= c < s->Union_cases.len() && (if exists|j: int|
                0 <= j < s->Union_cases.len() && (#[trigger] s->Union_cases[j]).default {
                s->Union_cases[c].default && forall|j: int| 0 <= j < c ==> !s->Union_cases[j].default
            } else {
                c == 0
            }) && default_of(s) == (ValueModel::Union {
                discriminator: if s->Union_cases[c].labels.len() > 0 {
                    s->Union_cases[c].labels[0]
                } else {
                    0
                },
                field: s->Union_cases[c].name,
                value: Box::new(default_of(s->Union_cases[c].value)),
            }),
{
    let cases = s->Union_cases;
    lemma_default_case_index(cases);
    if cases.len() > 0 {
        if exists|j: int| 0 <= j < cases.len() && (#[trigger] cases[j]).default {
            let j = choose|j: int| 0 <= j < cases.len() && (#[trigger] cases[j]).default;
            lemma_first_default_case(cases, j);
        }
        let c = default_case_index(cases);
        assert(0 <= c < cases.len());
    }
}

// ---------------------------------------------------------------------------
// Member names stay distinct
// ---------------------------------------------------------------------------

/// Setting a member by name never introduces a second member of that name.
pub proof fn lemma_insert_keeps_members_distinct(
    es: Seq<(Seq<char>, ValueModel)>,
    k: Seq<char>,
    v: ValueModel,
)
    requires
        members_distinct(es),
    ensures
        members_distinct(entries_insert(es, k, v)),
{
    lemma_entry_index(es, k);
    let es2 = entries_insert(es, k, v);
    let i = entry_index(es, k);
    assert forall|a: int, b: int| 0 <= a < b < es2.len() implies #[trigger] es2[a].0
        != #[trigger] es2[b].0 by {
        if i >= 0 {
            assert(es2[a].0 == es[a].0);
            assert(es2[b].0 == es[b].0);
        } else {
            lemma_member_slot(es, k);
            let p = member_slot(es, k);
            let a0 = if a < p { a } else { a - 1 };
            let b0 = if b < p { b } else { b - 1 };
            if a != p && b != p {
                assert(es2[a] == es[a0]);
                assert(es2[b] == es[b0]);
                assert(es[a0].0 != es[b0].0);
            } else if a == p {
                assert(es2[b] == es[b0]);
            } else {
                assert(es2[a] == es[a0]);
            }
        }
    }
}

/// Setting a member by name keeps members that are in name order so.
pub proof fn law_member_write_keeps_order(
    es: Seq<(Seq<char>, ValueModel)>,
    k: Seq<char>,
    v: ValueModel,
)
    requires
        members_sorted(es),
    ensures
        members_sorted(entries_insert(es, k, v)),
{
    lemma_insert_keeps_members_distinct(es, k, v);
    lemma_entry_index(es, k);
    let es2 = entries_insert(es, k, v);
    let i = entry_index(es, k);
    assert forall|a: int, b: int| 0 <= a < b < es2.len() implies name_less(
        #[trigger] es2[a].0,
        #[trigger] es2[b].0,
    ) by {
        if i >= 0 {
            assert(es2[a].0 == es[a].0);
            assert(es2[b].0 == es[b].0);
        } else {
            lemma_member_slot(es, k);
            let p = member_slot(es, k);
            let a0 = if a < p { a } else { a - 1 };
            let b0 = if b < p { b } else { b - 1 };
            if a != p && b != p {
                assert(es2[a] == es[a0]);
                assert(es2[b] == es[b0]);
            } else if a == p {
                assert(es2[b] == es[b0]);
                assert(name_less(k, es[p].0));
                if b0 > p {
                    assert(name_less(es[p].0, es[b0].0));
                    crate::text::lemma_name_order(k, es[p].0, es[b0].0);
                }
            } else {
                assert(es2[a] == es[a0]);
                assert(!name_less(k, es[a0].0));
                assert(es[a0].0 != k);
                crate::text::lemma_name_order(es[a0].0, k, k);
            }
        }
    }
}

proof fn lemma_fields_defaults_sorted(es: Seq<(Seq<char>, ValueModel)>, fields: Seq<FieldModel>)
    requires
        members_sorted(es),
    ensures
        members_sorted(fields_defaults(es, fields)),
    decreases fields.len(),
{
    if fields.len() > 0 {
        lemma_fields_defaults_sorted(es, fields.drop_last());
        law_member_write_keeps_order(
            fields_defaults(es, fields.drop_last()),
            fields.last().name,
            field_default(fields.last()),
        );
    }
}

/// The default value of a struct schema has its members in name order, one
/// per name.
pub proof fn law_default_members_sorted(s: SchemaModel)
    ensures
        default_of(s) matches ValueModel::Struct(es) ==> members_sorted(es),
    decreases s,
{
    match s {
        SchemaModel::Struct { base, fields, .. } => {
            match base {
                Some(b) => {
                    law_default_members_sorted(*b);
                },
                None => {},
            }
            let bes = base_defaults(base);
            assert(members_sorted(bes));
            lemma_fields_defaults_sorted(bes, fields);
        },
        SchemaModel::Alias { target, .. } => {
            law_default_members_sorted(*target);
        },
        _ => {},
    }
}

} // verus!
