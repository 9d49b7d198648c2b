//! Reading and changing dynamic values under the rules of their schema.
use vstd::prelude::*;
use crate::defaults::{entries_insert, entries_set};
use crate::dynamic_value::{
    field_conforms, fields_conform, case_index, case_position, cases_model, conforms, entries_model, entry_index,
    entry_lookup, entry_position, field_index, field_position, fields_model, lemma_case_index,
    lemma_entry_index, lemma_field_index, values_model, CaseModel, DynamicFieldSchema,
    DynamicTypeSchema, DynamicUnionCaseSchema, DynamicValue, FieldModel, SchemaModel,
    ValueModel,
};
use crate::error::{DdsError, DdsResult};
use crate::bigint::u64_to_decimal_str;
use crate::text::concat3;

verus! {

// ---------------------------------------------------------------------------
// Schema lookups
// ---------------------------------------------------------------------------

/// The field named `k` of a struct schema: the first of its own fields with
/// that name, else the field found in its base; `None` for other schemas.
pub open spec fn schema_field(s: SchemaModel, k: Seq<char>) -> Option<FieldModel>
    decreases s,
{
    match s {
        SchemaModel::Struct { base, fields, .. } => {
            let i = field_index(fields, k);
            if 0 <= i < fields.len() {
                Some(fields[i])
            } else {
                match base {
                    Some(b) => schema_field(*b, k),
                    None => None,
                }
            }
        },
        _ => None,
    }
}

/// The case named `k` of a union schema (the first with that name).
pub open spec fn schema_case(s: SchemaModel, k: Seq<char>) -> Option<CaseModel> {
    match s {
        SchemaModel::Union { cases, .. } => {
            let i = case_index(cases, k);
            if 0 <= i < cases.len() {
                Some(cases[i])
            } else {
                None
            }
        },
        _ => None,
    }
}

impl DynamicTypeSchema {
    /// The field named `name` (see [`schema_field`]).
    pub fn field(&self, name: &str) -> (r: Option<&DynamicFieldSchema>)
        ensures
            match r {
                Some(f) => schema_field(self@, name@) == Some(f@),
                None => schema_field(self@, name@) is None,
            },
        decreases self,
    {
        match self {
            DynamicTypeSchema::Struct { base, fields, .. } => {
                proof {
                    lemma_field_index(fields_model(fields@), name@);
                }
                match field_position(fields, name) {
                    Some(i) => Some(&fields[i]),
                    None => match base {
                        Some(b) => b.field(name),
                        None => None,
                    },
                }
            },
            _ => None,
        }
    }

    /// The case named `name` of a union schema.
    pub fn union_case(&self, name: &str) -> (r: Option<&DynamicUnionCaseSchema>)
        ensures
            match r {
                Some(c) => schema_case(self@, name@) == Some(c@),
                None => schema_case(self@, name@) is None,
            },
    {
        match self {
            DynamicTypeSchema::Union { cases, .. } => {
                proof {
                    lemma_case_index(cases_model(cases@), name@);
                }
                match case_position(cases, name) {
                    Some(i) => Some(&cases[i]),
                    None => None,
                }
            },
            _ => None,
        }
    }
}

// ---------------------------------------------------------------------------
// Value accessors
// ---------------------------------------------------------------------------

/// The member named `k` of a struct value; `None` for other values.
pub open spec fn value_field(v: ValueModel, k: Seq<char>) -> Option<ValueModel> {
    match v {
        ValueModel::Struct(es) => entry_lookup(es, k),
        _ => None,
    }
}

/// The elements of a sequence or array value.
pub open spec fn value_elements(v: ValueModel) -> Option<Seq<ValueModel>> {
    match v {
        ValueModel::Sequence(xs) => Some(xs),
        ValueModel::Array(xs) => Some(xs),
        _ => None,
    }
}

/// The message `field '<name>' not present in dynamic schema`.
pub open spec fn field_not_in_schema_text(name: Seq<char>) -> Seq<char> {
    "field '"@ + name + "' not present in dynamic schema"@
}

/// Whether `set_field` accepts a value for member `k`: the schema has the
/// field, the value conforms to its type, and the target is a struct value.
pub open spec fn set_field_ok(target: ValueModel, s: SchemaModel, k: Seq<char>, v: ValueModel) -> bool {
    &&& schema_field(s, k) is Some
    &&& conforms(v, schema_field(s, k).unwrap().value)
    &&& target is Struct
}

/// The value after `set_field` succeeded.
pub open spec fn with_field(target: ValueModel, k: Seq<char>, v: ValueModel) -> ValueModel {
    match target {
        ValueModel::Struct(es) => ValueModel::Struct(entries_insert(es, k, v)),
        _ => target,
    }
}

/// Whether `push` accepts a value: the schema is a sequence whose element
/// type the value conforms to, the target is a sequence or array value, and
/// it is below the sequence's bound.
pub open spec fn push_ok(target: ValueModel, s: SchemaModel, v: ValueModel) -> bool {
    match s {
        SchemaModel::Sequence { bound, element, .. } => {
            &&& conforms(v, *element)
            &&& value_elements(target) is Some
            &&& match bound {
                Some(b) => value_elements(target).unwrap().len() < b,
                None => true,
            }
        },
        _ => false,
    }
}

/// The value after `push` succeeded.
pub open spec fn with_pushed(target: ValueModel, v: ValueModel) -> ValueModel {
    match target {
        ValueModel::Sequence(xs) => ValueModel::Sequence(xs.push(v)),
        ValueModel::Array(xs) => ValueModel::Array(xs.push(v)),
        _ => target,
    }
}

/// Appends a value to the elements unless they are already at the bound.
fn push_bounded(xs: &mut Vec<DynamicValue>, bound: Option<u32>, value: DynamicValue) -> (r: DdsResult<()>)
    ensures
        r is Ok <==> match bound {
            Some(b) => old(xs)@.len() < b,
            None => true,
        },
        r is Ok ==> values_model(final(xs)@) == values_model(old(xs)@).push(value@),
        r is Err ==> final(xs)@ == old(xs)@,
        r matches Err(e) ==> e is BadParameter,
{
    if let Some(b) = bound {
        if xs.len() >= b as usize {
            let mut m = "sequence already at bound ".to_owned();
            m.append(u64_to_decimal_str(b as u64).as_str());
            return Err(DdsError::BadParameter(m));
        }
    }
    let ghost old_xs = xs@;
    let ghost vm = value@;
    xs.push(value);
    assert(values_model(xs@) =~= values_model(old_xs).push(vm));
    Ok(())
}

impl DynamicValue {
    /// The members of a struct value.
    pub fn as_struct(&self) -> (r: Option<&Vec<(String, DynamicValue)>>)
        ensures
            match r {
                Some(es) => self@ == ValueModel::Struct(entries_model(es@)),
                None => !(self@ is Struct),
            },
    {
        match self {
            DynamicValue::Struct(es) => Some(es),
            _ => None,
        }
    }

    /// The member named `name` of a struct value.
    pub fn field(&self, name: &str) -> (r: Option<&DynamicValue>)
        ensures
            match r {
                Some(v) => value_field(self@, name@) == Some(v@),
                None => value_field(self@, name@) is None,
            },
    {
        match self {
            DynamicValue::Struct(es) => {
                proof {
                    lemma_entry_index(entries_model(es@), name@);
                }
                match entry_position(es, name) {
                    Some(i) => Some(&es[i].1),
                    None => None,
                }
            },
            _ => None,
        }
    }

    /// The members of a struct value, for changing them in place.
    pub fn as_struct_mut(&mut self) -> (r: Option<&mut Vec<(String, DynamicValue)>>)
        ensures
            match r {
                Some(es) => old(self)@ == ValueModel::Struct(entries_model(es@))
                    && final(self)@ == ValueModel::Struct(entries_model(final(es)@)),
                None => !(old(self)@ is Struct) && final(self)@ == old(self)@,
            },
    {
        match self {
            DynamicValue::Struct(es) => Some(es),
            _ => None,
        }
    }

    /// The elements of a sequence or array value.
    pub fn as_sequence(&self) -> (r: Option<&Vec<DynamicValue>>)
        ensures
            match r {
                Some(xs) => value_elements(self@) == Some(values_model(xs@)),
                None => value_elements(self@) is None,
            },
    {
        match self {
            DynamicValue::Sequence(xs) => Some(xs),
            DynamicValue::Array(xs) => Some(xs),
            _ => None,
        }
    }

    /// The elements of a sequence or array value, for changing them in
    /// place; the value stays a sequence or an array respectively.
    pub fn as_sequence_mut(&mut self) -> (r: Option<&mut Vec<DynamicValue>>)
        ensures
            match r {
                Some(xs) => value_elements(old(self)@) == Some(values_model(xs@)) && final(self)@
                    == (if old(self)@ is Sequence {
                    ValueModel::Sequence(values_model(final(xs)@))
                } else {
                    ValueModel::Array(values_model(final(xs)@))
                }),
                None => value_elements(old(self)@) is None && final(self)@ == old(self)@,
            },
    {
        match self {
            DynamicValue::Sequence(xs) => Some(xs),
            DynamicValue::Array(xs) => Some(xs),
            _ => None,
        }
    }

    /// Sets member `name` of this struct value to `value`, after checking
    /// that the schema has such a field and that the value conforms to its
    /// type. On an error the value is left as it was.
    pub fn set_field(&mut self, schema: &DynamicTypeSchema, name: &str, value: DynamicValue) -> (r: DdsResult<()>)
        ensures
            r is Ok <==> set_field_ok(old(self)@, schema@, name@, value@),
            r is Ok ==> final(self)@ == with_field(old(self)@, name@, value@),
            r is Err ==> final(self)@ == old(self)@,
            schema_field(schema@, name@) is None ==> (r matches Err(DdsError::BadParameter(m))
                && m@ == field_not_in_schema_text(name@)),
            r matches Err(e) ==> e is BadParameter,
    {
        let field = match schema.field(name) {
            Some(f) => f,
            None => {
                return Err(
                    DdsError::BadParameter(
                        concat3("field '", name, "' not present in dynamic schema"),
                    ),
                );
            },
        };
        let checked = value.validate_against(&field.value);
        if checked.is_err() {
            return checked;
        }
        match self {
            DynamicValue::Struct(es) => {
                entries_set(es, name.to_owned(), value);
                Ok(())
            },
            _ => Err(DdsError::BadParameter("dynamic value is not a struct".to_owned())),
        }
    }

    /// Appends `value` to this sequence value, after checking it against the
    /// element type of the sequence schema and the sequence's bound. On an
    /// error the value is left as it was.
    pub fn push(&mut self, schema: &DynamicTypeSchema, value: DynamicValue) -> (r: DdsResult<()>)
        ensures
            r is Ok <==> push_ok(old(self)@, schema@, value@),
            r is Ok ==> final(self)@ == with_pushed(old(self)@, value@),
            r is Err ==> final(self)@ == old(self)@,
            r matches Err(e) ==> e is BadParameter,
    {
        let (bound, element) = match schema {
            DynamicTypeSchema::Sequence { bound, element, .. } => (*bound, element),
            DynamicTypeSchema::Mapping { .. } | DynamicTypeSchema::Array { .. } => {
                return Err(
                    DdsError::BadParameter(
                        "push is only supported for dynamic sequences".to_owned(),
                    ),
                );
            },
            _ => {
                return Err(
                    DdsError::BadParameter(
                        "dynamic value is not backed by a sequence schema".to_owned(),
                    ),
                );
            },
        };
        let checked = value.validate_against(element);
        if checked.is_err() {
            return checked;
        }
        match self {
            DynamicValue::Sequence(xs) => {
                assert(values_model(xs@).len() == xs@.len());
                push_bounded(xs, bound, value)
            },
            DynamicValue::Array(xs) => {
                assert(values_model(xs@).len() == xs@.len());
                push_bounded(xs, bound, value)
            },
            _ => Err(DdsError::BadParameter("dynamic value is not a sequence".to_owned())),
        }
    }

    /// Builds a union value, checking the member against its case and the
    /// whole value against the union schema.
    pub fn union(schema: &DynamicTypeSchema, discriminator: i32, field: &str, value: DynamicValue) -> (r: DdsResult<Self>)
        ensures
            r is Ok <==> (schema_case(schema@, field@) is Some && conforms(
                value@,
                schema_case(schema@, field@).unwrap().value,
            ) && conforms(
                ValueModel::Union {
                    discriminator,
                    field: field@,
                    value: Box::new(value@),
                },
                schema@,
            )),
            r matches Ok(u) ==> u@ == (ValueModel::Union {
                discriminator,
                field: field@,
                value: Box::new(value@),
            }),
            r matches Err(e) ==> e is BadParameter,
    {
        let case = match schema.union_case(field) {
            Some(c) => c,
            None => {
                return Err(
                    DdsError::BadParameter(
                        concat3("union field '", field, "' not present in schema"),
                    ),
                );
            },
        };
        let checked = value.validate_against(&case.value);
        if checked.is_err() {
            return Err(DdsError::BadParameter(match checked {
                Err(DdsError::BadParameter(m)) => m,
                _ => "union value does not match its case".to_owned(),
            }));
        }
        let union_value = DynamicValue::Union {
            discriminator,
            field: field.to_owned(),
            value: Box::new(value),
        };
        let whole = union_value.validate_against(schema);
        if whole.is_err() {
            return Err(DdsError::BadParameter(match whole {
                Err(DdsError::BadParameter(m)) => m,
                _ => "union value does not match its schema".to_owned(),
            }));
        }
        Ok(union_value)
    }

    /// The discriminator of a union value.
    pub fn union_discriminator(&self) -> (r: Option<i32>)
        ensures
            match self@ {
                ValueModel::Union { discriminator, .. } => r == Some(discriminator),
                _ => r is None,
            },
    {
        match self {
            DynamicValue::Union { discriminator, .. } => Some(*discriminator),
            _ => None,
        }
    }

    /// The name of the selected member of a union value.
    pub fn union_field_name(&self) -> (r: Option<&str>)
        ensures
            match self@ {
                ValueModel::Union { field, .. } => r matches Some(s) && s@ == field,
                _ => r is None,
            },
    {
        match self {
            DynamicValue::Union { field, .. } => Some(field.as_str()),
            _ => None,
        }
    }

    /// The selected member of a union value.
    pub fn union_field_value(&self) -> (r: Option<&DynamicValue>)
        ensures
            match self@ {
                ValueModel::Union { value, .. } => r matches Some(v) && v@ == *value,
                _ => r is None,
            },
    {
        match self {
            DynamicValue::Union { value, .. } => Some(&**value),
            _ => None,
        }
    }
}

// ---------------------------------------------------------------------------
// Laws of struct members
// ---------------------------------------------------------------------------

/// Reading a struct member after setting it gives back the value that was
/// set.
pub proof fn law_member_read_after_write(es: Seq<(Seq<char>, ValueModel)>, k: Seq<char>, v: ValueModel)
    ensures
        entry_lookup(entries_insert(es, k, v), k) == Some(v),
{
    lemma_entry_index(es, k);
    let es2 = entries_insert(es, k, v);
    lemma_entry_index(es2, k);
    let i = entry_index(es, k);
    if i >= 0 {
        assert(crate::dynamic_value::is_first_entry(es2, k, i));
    } else {
        crate::defaults::lemma_member_slot(es, k);
        let p = crate::defaults::member_slot(es, k);
        assert forall|j: int| 0 <= j < p implies es2[j].0 != k by {
            assert(es2[j] == es[j]);
        }
        assert(crate::dynamic_value::is_first_entry(es2, k, p));
    }
}

/// Setting one struct member leaves every other member as it was.
pub proof fn law_member_write_keeps_others(
    es: Seq<(Seq<char>, ValueModel)>,
    k: Seq<char>,
    v: ValueModel,
    other: Seq<char>,
)
    requires
        other != k,
    ensures
        entry_lookup(entries_insert(es, k, v), other) == entry_lookup(es, other),
{
    lemma_entry_index(es, k);
    lemma_entry_index(es, other);
    let es2 = entries_insert(es, k, v);
    lemma_entry_index(es2, other);
    let j = entry_index(es, other);
    let i = entry_index(es, k);
    crate::defaults::lemma_member_slot(es, k);
    let p = crate::defaults::member_slot(es, k);
    if j >= 0 {
        if i >= 0 {
            assert(crate::dynamic_value::is_first_entry(es2, other, j));
        } else if j < p {
            assert forall|n: int| 0 <= n < j implies es2[n].0 != other by {
                assert(es2[n] == es[n]);
            }
            assert(crate::dynamic_value::is_first_entry(es2, other, j));
        } else {
            assert forall|n: int| 0 <= n < j + 1 implies es2[n].0 != other by {
                if n < p {
                    assert(es2[n] == es[n]);
                } else if n > p {
                    assert(es2[n] == es[n - 1]);
                }
            }
            assert(es2[j + 1] == es[j]);
            assert(crate::dynamic_value::is_first_entry(es2, other, j + 1));
        }
    } else {
        assert forall|n: int| 0 <= n < es2.len() implies es2[n].0 != other by {
            if i >= 0 {
                if n != i {
                    assert(es2[n] == es[n]);
                }
            } else if n < p {
                assert(es2[n] == es[n]);
            } else if n > p {
                assert(es2[n] == es[n - 1]);
            }
        }
    }
}

/// Dropping the first member leaves the lookups of other names as they were
/// and, where names are distinct, removes the first member's name.
proof fn lemma_lookup_drop_first(es: Seq<(Seq<char>, ValueModel)>, k: Seq<char>)
    requires
        es.len() > 0,
    ensures
        es[0].0 != k ==> entry_lookup(es.drop_first(), k) == entry_lookup(es, k),
        crate::dynamic_value::members_distinct(es) && es[0].0 == k ==> entry_lookup(es.drop_first(), k) is None,
{
    let r = es.drop_first();
    lemma_entry_index(es, k);
    lemma_entry_index(r, k);
    if es[0].0 != k {
        let i = entry_index(es, k);
        if i >= 0 {
            assert forall|j: int| 0 <= j < i - 1 implies r[j].0 != k by {
                assert(r[j] == es[j + 1]);
            }
            assert(crate::dynamic_value::is_first_entry(r, k, i - 1));
        } else {
            assert forall|j: int| 0 <= j < r.len() implies r[j].0 != k by {
                assert(r[j] == es[j + 1]);
            }
        }
    } else if crate::dynamic_value::members_distinct(es) {
        assert forall|j: int| 0 <= j < r.len() implies r[j].0 != k by {
            assert(r[j] == es[j + 1]);
            assert(es[0].0 != es[j + 1].0);
        }
    }
}

/// Members kept in name order are determined by what each name looks up:
/// two such member lists that agree on every name are the same, as two
/// `BTreeMap`s with the same entries are equal.
pub proof fn law_sorted_members_by_lookup(es1: Seq<(Seq<char>, ValueModel)>, es2: Seq<(Seq<char>, ValueModel)>)
    requires
        crate::dynamic_value::members_sorted(es1),
        crate::dynamic_value::members_sorted(es2),
        forall|k: Seq<char>| #[trigger] entry_lookup(es1, k) == entry_lookup(es2, k),
    ensures
        es1 == es2,
    decreases es1.len(),
{
    if es1.len() == 0 || es2.len() == 0 {
        if es1.len() > 0 {
            lemma_entry_index(es1, es1[0].0);
            lemma_entry_index(es2, es1[0].0);
            assert(entry_lookup(es1, es1[0].0) == entry_lookup(es2, es1[0].0));
        }
        if es2.len() > 0 {
            lemma_entry_index(es1, es2[0].0);
            lemma_entry_index(es2, es2[0].0);
            assert(entry_lookup(es1, es2[0].0) == entry_lookup(es2, es2[0].0));
        }
        assert(es1 =~= es2);
    } else {
        let k1 = es1[0].0;
        let k2 = es2[0].0;
        lemma_entry_index(es1, k1);
        lemma_entry_index(es2, k1);
        lemma_entry_index(es1, k2);
        lemma_entry_index(es2, k2);
        assert(crate::dynamic_value::is_first_entry(es1, k1, 0));
        assert(crate::dynamic_value::is_first_entry(es2, k2, 0));
        assert(entry_lookup(es1, k1) == entry_lookup(es2, k1));
        assert(entry_lookup(es1, k2) == entry_lookup(es2, k2));
        if k1 != k2 {
            let j = entry_index(es2, k1);
            let m = entry_index(es1, k2);
            assert(j > 0);
            assert(m > 0);
            assert(crate::text::name_less(es2[0].0, es2[j].0));
            assert(crate::text::name_less(es1[0].0, es1[m].0));
            crate::text::lemma_name_order(k1, k2, k1);
        }
        assert(es1[0] == es2[0]);
        let r1 = es1.drop_first();
        let r2 = es2.drop_first();
        assert forall|k: Seq<char>| #[trigger] entry_lookup(r1, k) == entry_lookup(r2, k) by {
            lemma_lookup_drop_first(es1, k);
            lemma_lookup_drop_first(es2, k);
            assert(entry_lookup(es1, k) == entry_lookup(es2, k));
        }
        assert forall|a: int, b: int| 0 <= a < b < r1.len() implies crate::text::name_less(
            #[trigger] r1[a].0,
            #[trigger] r1[b].0,
        ) && r1[a].0 != r1[b].0 by {
            assert(r1[a] == es1[a + 1] && r1[b] == es1[b + 1]);
        }
        assert forall|a: int, b: int| 0 <= a < b < r2.len() implies crate::text::name_less(
            #[trigger] r2[a].0,
            #[trigger] r2[b].0,
        ) && r2[a].0 != r2[b].0 by {
            assert(r2[a] == es2[a + 1] && r2[b] == es2[b + 1]);
        }
        law_sorted_members_by_lookup(r1, r2);
        assert(es1 =~= seq![es1[0]] + r1);
        assert(es2 =~= seq![es2[0]] + r2);
    }
}

/// Setting two different members of a struct value whose members are in
/// name order gives the same value in either order.
pub proof fn law_member_writes_commute(
    es: Seq<(Seq<char>, ValueModel)>,
    a: Seq<char>,
    x: ValueModel,
    b: Seq<char>,
    y: ValueModel,
)
    requires
        crate::dynamic_value::members_sorted(es),
        a != b,
    ensures
        entries_insert(entries_insert(es, a, x), b, y) == entries_insert(entries_insert(es, b, y), a, x),
{
    let e1 = entries_insert(es, a, x);
    let e2 = entries_insert(es, b, y);
    crate::defaults::law_member_write_keeps_order(es, a, x);
    crate::defaults::law_member_write_keeps_order(es, b, y);
    crate::defaults::law_member_write_keeps_order(e1, b, y);
    crate::defaults::law_member_write_keeps_order(e2, a, x);
    let l = entries_insert(e1, b, y);
    let r = entries_insert(e2, a, x);
    assert forall|k: Seq<char>| #[trigger] entry_lookup(l, k) == entry_lookup(r, k) by {
        if k == a {
            law_member_read_after_write(e2, a, x);
            law_member_write_keeps_others(e1, b, y, a);
            law_member_read_after_write(es, a, x);
        } else if k == b {
            law_member_read_after_write(e1, b, y);
            law_member_write_keeps_others(e2, a, x, b);
            law_member_read_after_write(es, b, y);
        } else {
            law_member_write_keeps_others(e1, b, y, k);
            law_member_write_keeps_others(es, a, x, k);
            law_member_write_keeps_others(e2, a, x, k);
            law_member_write_keeps_others(es, b, y, k);
        }
    }
    law_sorted_members_by_lookup(l, r);
}

// ---------------------------------------------------------------------------
// Setting a member keeps a value valid
// ---------------------------------------------------------------------------

/// Whether a struct schema, its bases, or the struct an alias names, has a
/// field named `k`.
pub open spec fn has_member(s: SchemaModel, k: Seq<char>) -> bool
    decreases s,
{
    match s {
        SchemaModel::Struct { base, fields, .. } => {
            ||| field_index(fields, k) != -1
            ||| match base {
                Some(b) => has_member(*b, k),
                None => false,
            }
        },
        SchemaModel::Alias { target, .. } => has_member(*target, k),
        _ => false,
    }
}

/// Member names are unambiguous throughout a struct hierarchy: the fields
/// of each struct have distinct names, and none of them is also a member of
/// its base.
pub open spec fn hierarchy_names_distinct(s: SchemaModel) -> bool
    decreases s,
{
    match s {
        SchemaModel::Struct { base, fields, .. } => {
            &&& forall|i: int, j: int|
                0 <= i < j < fields.len() ==> #[trigger] fields[i].name != #[trigger] fields[j].name
            &&& match base {
                Some(b) => {
                    &&& hierarchy_names_distinct(*b)
                    &&& forall|i: int| 0 <= i < fields.len() ==> !has_member(*b, #[trigger] fields[i].name)
                },
                None => true,
            }
        },
        SchemaModel::Alias { target, .. } => hierarchy_names_distinct(*target),
        _ => true,
    }
}

/// Whether a field is satisfied depends only on the member of its name.
pub(crate) proof fn lemma_field_conforms_by_lookup(
    es1: Seq<(Seq<char>, ValueModel)>,
    es2: Seq<(Seq<char>, ValueModel)>,
    f: FieldModel,
)
    requires
        entry_lookup(es1, f.name) == entry_lookup(es2, f.name),
    ensures
        field_conforms(es1, f) == field_conforms(es2, f),
{
    lemma_entry_index(es1, f.name);
    lemma_entry_index(es2, f.name);
}

/// Setting a member that a schema does not have leaves a struct value's
/// conformance to that schema as it was.
pub(crate) proof fn lemma_conforms_frame(es: Seq<(Seq<char>, ValueModel)>, s: SchemaModel, k: Seq<char>, v: ValueModel)
    requires
        !has_member(s, k),
        conforms(ValueModel::Struct(es), s),
    ensures
        conforms(ValueModel::Struct(entries_insert(es, k, v)), s),
    decreases s,
{
    let es2 = entries_insert(es, k, v);
    match s {
        SchemaModel::Struct { base, fields, .. } => {
            lemma_field_index(fields, k);
            assert(fields_conform(es, fields));
            assert forall|i: int| 0 <= i < fields.len() implies field_conforms(es2, #[trigger] fields[i]) by {
                assert(field_conforms(es, fields[i]));
                assert(fields[i].name != k);
                law_member_write_keeps_others(es, k, v, fields[i].name);
                lemma_field_conforms_by_lookup(es, es2, fields[i]);
            }
            assert(fields_conform(es2, fields));
            match base {
                Some(b) => {
                    lemma_conforms_frame(es, *b, k, v);
                },
                None => {},
            }
        },
        SchemaModel::Alias { target, .. } => {
            lemma_conforms_frame(es, *target, k, v);
        },
        _ => {},
    }
}

/// A value that conforms to its struct schema still conforms after a
/// member is set the way `set_field` accepts, provided member names are
/// unambiguous throughout the struct hierarchy.
pub proof fn law_set_field_keeps_conformance(target: ValueModel, s: SchemaModel, k: Seq<char>, v: ValueModel)
    requires
        hierarchy_names_distinct(s),
        conforms(target, s),
        set_field_ok(target, s, k, v),
    ensures
        conforms(with_field(target, k, v), s),
    decreases s,
{
    let es = target->Struct_0;
    let es2 = entries_insert(es, k, v);
    match s {
        SchemaModel::Struct { base, fields, .. } => {
            lemma_field_index(fields, k);
            let ik = field_index(fields, k);
            assert(target == ValueModel::Struct(es));
            assert(fields_conform(es, fields));
            assert forall|i: int| 0 <= i < fields.len() implies field_conforms(es2, #[trigger] fields[i]) by {
                assert(field_conforms(es, fields[i]));
                if fields[i].name == k {
                    assert(ik == i) by {
                        if ik < i {
                            assert(fields[ik].name != fields[i].name);
                        } else if ik > i {
                            assert(fields[i].name != fields[ik].name);
                        }
                    }
                    law_member_read_after_write(es, k, v);
                    lemma_entry_index(es2, k);
                } else {
                    law_member_write_keeps_others(es, k, v, fields[i].name);
                    lemma_field_conforms_by_lookup(es, es2, fields[i]);
                }
            }
            assert(fields_conform(es2, fields));
            match base {
                Some(b) => {
                    if ik != -1 {
                        assert(!has_member(*b, fields[ik].name));
                        lemma_conforms_frame(es, *b, k, v);
                    } else {
                        law_set_field_keeps_conformance(target, *b, k, v);
                    }
                },
                None => {},
            }
        },
        _ => {},
    }
}

/// A sequence value that conforms to its schema still conforms after an
/// element is appended the way `push` accepts.
pub proof fn law_push_keeps_conformance(target: ValueModel, s: SchemaModel, v: ValueModel)
    requires
        conforms(target, s),
        push_ok(target, s, v),
    ensures
        conforms(with_pushed(target, v), s),
{
    match (target, s) {
        (ValueModel::Sequence(xs), SchemaModel::Sequence { element, .. }) => {
            assert(crate::dynamic_value::all_conform(xs, *element));
            let ys = xs.push(v);
            assert forall|i: int| 0 <= i < ys.len() implies conforms(#[trigger] ys[i], *element) by {
                if i < xs.len() {
                    assert(ys[i] == xs[i]);
                }
            }
            assert(crate::dynamic_value::all_conform(ys, *element));
        },
        _ => {},
    }
}

} // verus!
