//! Structural equality of schemas, and the DDS-XTypes rules that decide
//! whether data of one type can be received as another.
use vstd::prelude::*;
use crate::dynamic_type::DynamicTypeExtensibility;
use crate::dynamic_value::{
    bit_fields_model, case_model, cases_model, field_index, field_model, fields_model,
    field_position, lemma_field_index, literals_model, opt_str_model, schema_model,
    BitFieldModel, CaseModel, DynamicBitmaskFieldSchema, DynamicEnumLiteralSchema,
    DynamicFieldSchema, DynamicTypeSchema, DynamicUnionCaseSchema, FieldModel, LiteralModel,
    SchemaModel,
};
use crate::text::str_eq;

verus! {

// ---------------------------------------------------------------------------
// Equality
// ---------------------------------------------------------------------------

fn opt_str_eq(a: &Option<String>, b: &Option<String>) -> (r: bool)
    ensures
        r == (opt_str_model(*a) == opt_str_model(*b)),
{
    match (a, b) {
        (Some(x), Some(y)) => str_eq(x.as_str(), y.as_str()),
        (None, None) => true,
        _ => false,
    }
}

fn u32s_eq(a: &Vec<u32>, b: &Vec<u32>) -> (r: bool)
    ensures
        r == (a@ == b@),
{
    if a.len() != b.len() {
        return false;
    }
    let mut i: usize = 0;
    while i < a.len()
        invariant
            0 <= i <= a@.len(),
            a@.len() == b@.len(),
            forall|j: int| 0 <= j < i ==> a@[j] == b@[j],
        decreases a@.len() - i,
    {
        if a[i] != b[i] {
            return false;
        }
        i += 1;
    }
    assert(a@ =~= b@);
    true
}

fn i32s_eq(a: &Vec<i32>, b: &Vec<i32>) -> (r: bool)
    ensures
        r == (a@ == b@),
{
    if a.len() != b.len() {
        return false;
    }
    let mut i: usize = 0;
    while i < a.len()
        invariant
            0 <= i <= a@.len(),
            a@.len() == b@.len(),
            forall|j: int| 0 <= j < i ==> a@[j] == b@[j],
        decreases a@.len() - i,
    {
        if a[i] != b[i] {
            return false;
        }
        i += 1;
    }
    assert(a@ =~= b@);
    true
}

fn literals_eq(a: &Vec<DynamicEnumLiteralSchema>, b: &Vec<DynamicEnumLiteralSchema>) -> (r: bool)
    ensures
        r == (literals_model(a@) == literals_model(b@)),
{
    let ghost ma = literals_model(a@);
    let ghost mb = literals_model(b@);
    if a.len() != b.len() {
        assert(ma.len() != mb.len());
        return false;
    }
    let mut i: usize = 0;
    while i < a.len()
        invariant
            0 <= i <= a@.len(),
            a@.len() == b@.len(),
            ma == literals_model(a@),
            mb == literals_model(b@),
            forall|j: int| 0 <= j < i ==> #[trigger] ma[j] == mb[j],
        decreases a@.len() - i,
    {
        let same = str_eq(a[i].name.as_str(), b[i].name.as_str()) && a[i].value == b[i].value
            && a[i].default == b[i].default;
        if !same {
            assert(ma[i as int] != mb[i as int]);
            return false;
        }
        assert(ma[i as int] == mb[i as int]);
        i += 1;
    }
    assert(ma =~= mb);
    true
}

fn bit_fields_eq(a: &Vec<DynamicBitmaskFieldSchema>, b: &Vec<DynamicBitmaskFieldSchema>) -> (r: bool)
    ensures
        r == (bit_fields_model(a@) == bit_fields_model(b@)),
{
    let ghost ma = bit_fields_model(a@);
    let ghost mb = bit_fields_model(b@);
    if a.len() != b.len() {
        assert(ma.len() != mb.len());
        return false;
    }
    let mut i: usize = 0;
    while i < a.len()
        invariant
            0 <= i <= a@.len(),
            a@.len() == b@.len(),
            ma == bit_fields_model(a@),
            mb == bit_fields_model(b@),
            forall|j: int| 0 <= j < i ==> #[trigger] ma[j] == mb[j],
        decreases a@.len() - i,
    {
        let same = str_eq(a[i].name.as_str(), b[i].name.as_str()) && a[i].position
            == b[i].position;
        if !same {
            assert(ma[i as int] != mb[i as int]);
            return false;
        }
        assert(ma[i as int] == mb[i as int]);
        i += 1;
    }
    assert(ma =~= mb);
    true
}

fn field_eq(a: &DynamicFieldSchema, b: &DynamicFieldSchema) -> (r: bool)
    ensures
        r == (field_model(*a) == field_model(*b)),
    decreases a, 0nat,
{
    str_eq(a.name.as_str(), b.name.as_str()) && a.member_id == b.member_id && schema_eq(
        &a.value,
        &b.value,
    ) && a.optional == b.optional && a.key == b.key && a.external == b.external
        && a.must_understand == b.must_understand && opt_str_eq(&a.hash_id_name, &b.hash_id_name)
}

fn fields_eq(a: &Vec<DynamicFieldSchema>, b: &Vec<DynamicFieldSchema>) -> (r: bool)
    ensures
        r == (fields_model(a@) == fields_model(b@)),
    decreases a, 1nat,
{
    let ghost ma = fields_model(a@);
    let ghost mb = fields_model(b@);
    if a.len() != b.len() {
        assert(ma.len() != mb.len());
        return false;
    }
    let mut i: usize = 0;
    while i < a.len()
        invariant
            0 <= i <= a@.len(),
            a@.len() == b@.len(),
            ma == fields_model(a@),
            mb == fields_model(b@),
            forall|j: int| 0 <= j < i ==> #[trigger] ma[j] == mb[j],
        decreases a@.len() - i,
    {
        proof {
            vstd::std_specs::vec::axiom_vec_index_decreases(*a, i as int);
        }
        if !field_eq(&a[i], &b[i]) {
            assert(ma[i as int] != mb[i as int]);
            return false;
        }
        i += 1;
    }
    assert(ma =~= mb);
    true
}

fn case_eq(a: &DynamicUnionCaseSchema, b: &DynamicUnionCaseSchema) -> (r: bool)
    ensures
        r == (case_model(*a) == case_model(*b)),
    decreases a, 0nat,
{
    str_eq(a.name.as_str(), b.name.as_str()) && a.member_id == b.member_id && schema_eq(
        &a.value,
        &b.value,
    ) && i32s_eq(&a.labels, &b.labels) && a.default == b.default && a.external == b.external
        && opt_str_eq(&a.hash_id_name, &b.hash_id_name)
}

fn cases_eq(a: &Vec<DynamicUnionCaseSchema>, b: &Vec<DynamicUnionCaseSchema>) -> (r: bool)
    ensures
        r == (cases_model(a@) == cases_model(b@)),
    decreases a, 1nat,
{
    let ghost ma = cases_model(a@);
    let ghost mb = cases_model(b@);
    if a.len() != b.len() {
        assert(ma.len() != mb.len());
        return false;
    }
    let mut i: usize = 0;
    while i < a.len()
        invariant
            0 <= i <= a@.len(),
            a@.len() == b@.len(),
            ma == cases_model(a@),
            mb == cases_model(b@),
            forall|j: int| 0 <= j < i ==> #[trigger] ma[j] == mb[j],
        decreases a@.len() - i,
    {
        proof {
            vstd::std_specs::vec::axiom_vec_index_decreases(*a, i as int);
        }
        if !case_eq(&a[i], &b[i]) {
            assert(ma[i as int] != mb[i as int]);
            return false;
        }
        i += 1;
    }
    assert(ma =~= mb);
    true
}

/// Structural equality of two schemas (what `==` on the schema types
/// compares).
pub fn schema_eq(a: &DynamicTypeSchema, b: &DynamicTypeSchema) -> (r: bool)
    ensures
        r == (a@ == b@),
    decreases a, 2nat,
{
    match (a, b) {
        (DynamicTypeSchema::Primitive(x), DynamicTypeSchema::Primitive(y)) => *x == *y,
        (DynamicTypeSchema::String { bound: x }, DynamicTypeSchema::String { bound: y }) => {
            *x == *y
        },
        (
            DynamicTypeSchema::Sequence { name: n1, bound: b1, element: e1 },
            DynamicTypeSchema::Sequence { name: n2, bound: b2, element: e2 },
        ) => str_eq(n1.as_str(), n2.as_str()) && *b1 == *b2 && schema_eq(e1, e2),
        (
            DynamicTypeSchema::Array { name: n1, bounds: b1, element: e1 },
            DynamicTypeSchema::Array { name: n2, bounds: b2, element: e2 },
        ) => str_eq(n1.as_str(), n2.as_str()) && u32s_eq(b1, b2) && schema_eq(e1, e2),
        (
            DynamicTypeSchema::Struct {
                name: n1,
                base: b1,
                fields: f1,
                extensibility: x1,
                autoid: a1,
                nested: s1,
            },
            DynamicTypeSchema::Struct {
                name: n2,
                base: b2,
                fields: f2,
                extensibility: x2,
                autoid: a2,
                nested: s2,
            },
        ) => {
            let bases = match (b1, b2) {
                (Some(p), Some(q)) => schema_eq(p, q),
                (None, None) => true,
                _ => false,
            };
            str_eq(n1.as_str(), n2.as_str()) && bases && fields_eq(f1, f2) && *x1 == *x2 && *a1
                == *a2 && *s1 == *s2
        },
        (
            DynamicTypeSchema::Enum { name: n1, literals: l1, bit_bound: b1 },
            DynamicTypeSchema::Enum { name: n2, literals: l2, bit_bound: b2 },
        ) => str_eq(n1.as_str(), n2.as_str()) && literals_eq(l1, l2) && *b1 == *b2,
        (
            DynamicTypeSchema::Bitmask { name: n1, fields: f1, bit_bound: b1 },
            DynamicTypeSchema::Bitmask { name: n2, fields: f2, bit_bound: b2 },
        ) => str_eq(n1.as_str(), n2.as_str()) && bit_fields_eq(f1, f2) && *b1 == *b2,
        (
            DynamicTypeSchema::Alias { name: n1, target: t1 },
            DynamicTypeSchema::Alias { name: n2, target: t2 },
        ) => str_eq(n1.as_str(), n2.as_str()) && schema_eq(t1, t2),
        (
            DynamicTypeSchema::Union {
                name: n1,
                discriminator: d1,
                cases: c1,
                autoid: a1,
                nested: s1,
            },
            DynamicTypeSchema::Union {
                name: n2,
                discriminator: d2,
                cases: c2,
                autoid: a2,
                nested: s2,
            },
        ) => str_eq(n1.as_str(), n2.as_str()) && schema_eq(d1, d2) && cases_eq(c1, c2) && *a1
            == *a2 && *s1 == *s2,
        (
            DynamicTypeSchema::Mapping { name: n1, bound: b1, key: k1, value: v1 },
            DynamicTypeSchema::Mapping { name: n2, bound: b2, key: k2, value: v2 },
        ) => str_eq(n1.as_str(), n2.as_str()) && *b1 == *b2 && schema_eq(k1, k2) && schema_eq(
            v1,
            v2,
        ),
        _ => false,
    }
}


// ---------------------------------------------------------------------------
// Assignability
// ---------------------------------------------------------------------------

/// A bound of the receiving type admits every length that the sending
/// bound admits: an unbounded receiver takes anything, a bounded one needs
/// a bounded sender with no larger bound.
pub open spec fn bound_admits(a: Option<u32>, b: Option<u32>) -> bool {
    match (a, b) {
        (None, _) => true,
        (Some(x), Some(y)) => x >= y,
        (Some(_), None) => false,
    }
}

/// A struct without a stated extensibility is final.
pub open spec fn ext_or_final(e: Option<DynamicTypeExtensibility>) -> DynamicTypeExtensibility {
    match e {
        Some(x) => x,
        None => DynamicTypeExtensibility::Final,
    }
}

/// Whether data of type `b` can be received as type `a`, by the DDS-XTypes
/// assignability rules:
/// - primitives, enums and bitmasks must match exactly (enums and bitmasks
///   literal for literal, with the same bit bound);
/// - strings, sequences and maps need a receiving bound that admits the
///   sending one, and assignable elements;
/// - arrays need the same dimensions and assignable elements;
/// - unions need assignable discriminators and the same cases in the same
///   order (names, labels, default flag) with assignable members;
/// - a final struct takes only a final struct with an equal base and the
///   same fields in the same order (names, optional and key flags) with
///   assignable types;
/// - an appendable struct takes a struct whose bases are assignable (or
///   both absent) and whose fields are a prefix of its own;
/// - a mutable struct takes a struct whose bases are assignable (or both
///   absent), each of whose fields it has by name with an assignable type,
///   and which has each of its own non-optional fields by name;
/// - an alias is looked through on either side.
pub open spec fn assignable(a: SchemaModel, b: SchemaModel) -> bool
    decreases a, b,
{
    match (a, b) {
        (SchemaModel::Primitive(x), SchemaModel::Primitive(y)) => x == y,
        (SchemaModel::String { bound: x }, SchemaModel::String { bound: y }) => bound_admits(x, y),
        (
            SchemaModel::Sequence { bound: x, element: ea, .. },
            SchemaModel::Sequence { bound: y, element: eb, .. },
        ) => bound_admits(x, y) && assignable(*ea, *eb),
        (
            SchemaModel::Array { bounds: x, element: ea, .. },
            SchemaModel::Array { bounds: y, element: eb, .. },
        ) => x == y && assignable(*ea, *eb),
        (
            SchemaModel::Struct { base: ab, fields: af, extensibility: ae, .. },
            SchemaModel::Struct { base: bb, fields: bf, extensibility: be, .. },
        ) => {
            if ext_or_final(ae) == DynamicTypeExtensibility::Final {
                &&& ext_or_final(be) == DynamicTypeExtensibility::Final
                &&& ab == bb
                &&& af.len() == bf.len()
                &&& forall|i: int|
                    #![trigger af[i]]
                    0 <= i < af.len() ==> {
                        &&& af[i].name == bf[i].name
                        &&& assignable(af[i].value, bf[i].value)
                        &&& af[i].optional == bf[i].optional
                        &&& af[i].key == bf[i].key
                    }
            } else {
                &&& match (ab, bb) {
                    (Some(x), Some(y)) => assignable(*x, *y),
                    (None, None) => true,
                    _ => false,
                }
                &&& if ext_or_final(ae) == DynamicTypeExtensibility::Appendable {
                    &&& bf.len() <= af.len()
                    &&& forall|i: int|
                        #![trigger bf[i]]
                        0 <= i < bf.len() ==> {
                            &&& af[i].name == bf[i].name
                            &&& assignable(af[i].value, bf[i].value)
                            &&& af[i].optional == bf[i].optional
                            &&& af[i].key == bf[i].key
                        }
                } else {
                    &&& forall|j: int|
                        #![trigger bf[j]]
                        0 <= j < bf.len() ==> {
                            let k = field_index(af, bf[j].name);
                            0 <= k < af.len() && assignable(af[k].value, bf[j].value)
                        }
                    &&& forall|i: int|
                        #![trigger af[i]]
                        0 <= i < af.len() ==> (!af[i].optional ==> field_index(bf, af[i].name)
                            >= 0)
                }
            }
        },
        (
            SchemaModel::Enum { literals: x, bit_bound: xb, .. },
            SchemaModel::Enum { literals: y, bit_bound: yb, .. },
        ) => x == y && xb == yb,
        (
            SchemaModel::Bitmask { fields: x, bit_bound: xb, .. },
            SchemaModel::Bitmask { fields: y, bit_bound: yb, .. },
        ) => x == y && xb == yb,
        (
            SchemaModel::Union { discriminator: da, cases: ca, .. },
            SchemaModel::Union { discriminator: db, cases: cb, .. },
        ) => {
            &&& assignable(*da, *db)
            &&& ca.len() == cb.len()
            &&& forall|i: int|
                #![trigger ca[i]]
                0 <= i < ca.len() ==> {
                    &&& ca[i].name == cb[i].name
                    &&& ca[i].labels == cb[i].labels
                    &&& ca[i].default == cb[i].default
                    &&& assignable(ca[i].value, cb[i].value)
                }
        },
        (
            SchemaModel::Mapping { bound: x, key: ka, value: va, .. },
            SchemaModel::Mapping { bound: y, key: kb, value: vb, .. },
        ) => bound_admits(x, y) && assignable(*ka, *kb) && assignable(*va, *vb),
        (SchemaModel::Alias { target, .. }, _) => assignable(*target, b),
        (_, SchemaModel::Alias { target, .. }) => assignable(a, *target),
        _ => false,
    }
}

fn bound_admits_exec(a: Option<u32>, b: Option<u32>) -> (r: bool)
    ensures
        r == bound_admits(a, b),
{
    match (a, b) {
        (None, _) => true,
        (Some(x), Some(y)) => x >= y,
        (Some(_), None) => false,
    }
}

fn ext_or_final_exec(e: Option<DynamicTypeExtensibility>) -> (r: DynamicTypeExtensibility)
    ensures
        r == ext_or_final(e),
{
    match e {
        Some(x) => x,
        None => DynamicTypeExtensibility::Final,
    }
}

/// Whether some field has the given name.
fn has_field_named(fs: &Vec<DynamicFieldSchema>, name: &str) -> (r: bool)
    ensures
        r == (field_index(fields_model(fs@), name@) >= 0),
{
    match field_position(fs, name) {
        Some(_) => true,
        None => false,
    }
}

impl DynamicTypeSchema {
    /// Whether a reader of this type can receive data written with type
    /// `other` (see [`assignable`]).
    #[verifier::loop_isolation(false)]
    pub fn is_assignable_from(&self, other: &DynamicTypeSchema) -> (r: bool)
        ensures
            r == assignable(self@, other@),
        decreases self, other, 1nat,
    {
        match (self, other) {
            (DynamicTypeSchema::Primitive(x), DynamicTypeSchema::Primitive(y)) => *x == *y,
            (DynamicTypeSchema::String { bound: x }, DynamicTypeSchema::String { bound: y }) => {
                bound_admits_exec(*x, *y)
            },
            (
                DynamicTypeSchema::Sequence { bound: x, element: ea, .. },
                DynamicTypeSchema::Sequence { bound: y, element: eb, .. },
            ) => bound_admits_exec(*x, *y) && ea.is_assignable_from(eb),
            (
                DynamicTypeSchema::Array { bounds: x, element: ea, .. },
                DynamicTypeSchema::Array { bounds: y, element: eb, .. },
            ) => u32s_eq(x, y) && ea.is_assignable_from(eb),
            (DynamicTypeSchema::Struct { .. }, DynamicTypeSchema::Struct { .. }) => {
                Self::is_struct_assignable_from(self, other)
            },
            (
                DynamicTypeSchema::Enum { literals: x, bit_bound: xb, .. },
                DynamicTypeSchema::Enum { literals: y, bit_bound: yb, .. },
            ) => literals_eq(x, y) && *xb == *yb,
            (
                DynamicTypeSchema::Bitmask { fields: x, bit_bound: xb, .. },
                DynamicTypeSchema::Bitmask { fields: y, bit_bound: yb, .. },
            ) => bit_fields_eq(x, y) && *xb == *yb,
            (
                DynamicTypeSchema::Union { discriminator: da, cases: ca, .. },
                DynamicTypeSchema::Union { discriminator: db, cases: cb, .. },
            ) => {
                if !da.is_assignable_from(db) {
                    return false;
                }
                if ca.len() != cb.len() {
                    assert(cases_model(ca@).len() != cases_model(cb@).len());
                    return false;
                }
                let ghost ma = cases_model(ca@);
                let ghost mb = cases_model(cb@);
                let mut i: usize = 0;
                while i < ca.len()
                    invariant
                        0 <= i <= ca@.len(),
                        ca@.len() == cb@.len(),
                        ma == cases_model(ca@),
                        mb == cases_model(cb@),
                        forall|j: int|
                            #![trigger ma[j]]
                            0 <= j < i ==> {
                                &&& ma[j].name == mb[j].name
                                &&& ma[j].labels == mb[j].labels
                                &&& ma[j].default == mb[j].default
                                &&& assignable(ma[j].value, mb[j].value)
                            },
                    decreases ca@.len() - i,
                {
                    proof {
                        vstd::std_specs::vec::axiom_vec_index_decreases(*ca, i as int);
                    }
                    let a = &ca[i];
                    let b = &cb[i];
                    let ok = str_eq(a.name.as_str(), b.name.as_str()) && i32s_eq(
                        &a.labels,
                        &b.labels,
                    ) && a.default == b.default && a.value.is_assignable_from(&b.value);
                    if !ok {
                        assert(!(ma[i as int].name == mb[i as int].name && ma[i as int].labels
                            == mb[i as int].labels && ma[i as int].default == mb[i as int].default
                            && assignable(ma[i as int].value, mb[i as int].value)));
                        return false;
                    }
                    i += 1;
                }
                true
            },
            (
                DynamicTypeSchema::Mapping { bound: x, key: ka, value: va, .. },
                DynamicTypeSchema::Mapping { bound: y, key: kb, value: vb, .. },
            ) => bound_admits_exec(*x, *y) && ka.is_assignable_from(kb) && va.is_assignable_from(
                vb,
            ),
            (DynamicTypeSchema::Alias { target, .. }, _) => target.is_assignable_from(other),
            (_, DynamicTypeSchema::Alias { target, .. }) => self.is_assignable_from(target),
            _ => false,
        }
    }

    /// The struct rules of [`assignable`], for two struct schemas.
    #[verifier::loop_isolation(false)]
    fn is_struct_assignable_from(a: &DynamicTypeSchema, b: &DynamicTypeSchema) -> (r: bool)
        requires
            a is Struct,
            b is Struct,
        ensures
            r == assignable(a@, b@),
        decreases a, b, 0nat,
    {
        match (a, b) {
            (
                DynamicTypeSchema::Struct { base: ab, fields: af, extensibility: ae, .. },
                DynamicTypeSchema::Struct { base: bb, fields: bf, extensibility: be, .. },
            ) => {
                let ghost fa = fields_model(af@);
                let ghost fb = fields_model(bf@);
                let a_ext = ext_or_final_exec(*ae);
                let b_ext = ext_or_final_exec(*be);
                if a_ext == DynamicTypeExtensibility::Final {
                    if b_ext != DynamicTypeExtensibility::Final {
                        return false;
                    }
                    let bases_equal = match (ab, bb) {
                        (Some(x), Some(y)) => schema_eq(x, y),
                        (None, None) => true,
                        _ => false,
                    };
                    if !bases_equal {
                        return false;
                    }
                    if af.len() != bf.len() {
                        return false;
                    }
                    let mut i: usize = 0;
                    while i < af.len()
                        invariant
                            0 <= i <= af@.len(),
                            af@.len() == bf@.len(),
                            fa == fields_model(af@),
                            fb == fields_model(bf@),
                            forall|j: int|
                                #![trigger fa[j]]
                                0 <= j < i ==> {
                                    &&& fa[j].name == fb[j].name
                                    &&& assignable(fa[j].value, fb[j].value)
                                    &&& fa[j].optional == fb[j].optional
                                    &&& fa[j].key == fb[j].key
                                },
                        decreases af@.len() - i,
                    {
                        proof {
                            vstd::std_specs::vec::axiom_vec_index_decreases(*af, i as int);
                        }
                        let x = &af[i];
                        let y = &bf[i];
                        let ok = str_eq(x.name.as_str(), y.name.as_str())
                            && x.value.is_assignable_from(&y.value) && x.optional == y.optional
                            && x.key == y.key;
                        if !ok {
                            assert(!(fa[i as int].name == fb[i as int].name && assignable(
                                fa[i as int].value,
                                fb[i as int].value,
                            ) && fa[i as int].optional == fb[i as int].optional && fa[i as int].key
                                == fb[i as int].key));
                            return false;
                        }
                        i += 1;
                    }
                    return true;
                }
                let bases_ok = match (ab, bb) {
                    (Some(x), Some(y)) => x.is_assignable_from(y),
                    (None, None) => true,
                    _ => false,
                };
                if !bases_ok {
                    return false;
                }
                if a_ext == DynamicTypeExtensibility::Appendable {
                    if bf.len() > af.len() {
                        return false;
                    }
                    let mut i: usize = 0;
                    while i < bf.len()
                        invariant
                            0 <= i <= bf@.len(),
                            bf@.len() <= af@.len(),
                            fa == fields_model(af@),
                            fb == fields_model(bf@),
                            forall|j: int|
                                #![trigger fb[j]]
                                0 <= j < i ==> {
                                    &&& fa[j].name == fb[j].name
                                    &&& assignable(fa[j].value, fb[j].value)
                                    &&& fa[j].optional == fb[j].optional
                                    &&& fa[j].key == fb[j].key
                                },
                        decreases bf@.len() - i,
                    {
                        proof {
                            vstd::std_specs::vec::axiom_vec_index_decreases(*af, i as int);
                        }
                        let x = &af[i];
                        let y = &bf[i];
                        let ok = str_eq(x.name.as_str(), y.name.as_str())
                            && x.value.is_assignable_from(&y.value) && x.optional == y.optional
                            && x.key == y.key;
                        if !ok {
                            assert(!(fa[i as int].name == fb[i as int].name && assignable(
                                fa[i as int].value,
                                fb[i as int].value,
                            ) && fa[i as int].optional == fb[i as int].optional && fa[i as int].key
                                == fb[i as int].key));
                            return false;
                        }
                        i += 1;
                    }
                    return true;
                }
                let mut j: usize = 0;
                while j < bf.len()
                    invariant
                        0 <= j <= bf@.len(),
                        fa == fields_model(af@),
                        fb == fields_model(bf@),
                        forall|m: int|
                            #![trigger fb[m]]
                            0 <= m < j ==> {
                                let k = field_index(fa, fb[m].name);
                                0 <= k < fa.len() && assignable(fa[k].value, fb[m].value)
                            },
                    decreases bf@.len() - j,
                {
                    let y = &bf[j];
                    match field_position(af, y.name.as_str()) {
                        Some(k) => {
                            proof {
                                lemma_field_index(fa, fb[j as int].name);
                                vstd::std_specs::vec::axiom_vec_index_decreases(*af, k as int);
                            }
                            if !af[k].value.is_assignable_from(&y.value) {
                                assert(!assignable(fa[k as int].value, fb[j as int].value));
                                return false;
                            }
                        },
                        None => {
                            return false;
                        },
                    }
                    j += 1;
                }
                let mut i: usize = 0;
                while i < af.len()
                    invariant
                        0 <= i <= af@.len(),
                        fa == fields_model(af@),
                        fb == fields_model(bf@),
                        forall|m: int|
                            #![trigger fa[m]]
                            0 <= m < i ==> (!fa[m].optional ==> field_index(fb, fa[m].name) >= 0),
                    decreases af@.len() - i,
                {
                    if !af[i].optional && !has_field_named(bf, af[i].name.as_str()) {
                        assert(fa[i as int].name == af@[i as int].name@);
                        assert(!(!fa[i as int].optional ==> field_index(fb, fa[i as int].name)
                            >= 0));
                        return false;
                    }
                    i += 1;
                }
                true
            },
            _ => false,
        }
    }
}


// ---------------------------------------------------------------------------
// Laws
// ---------------------------------------------------------------------------

/// A schema with its aliases looked through.
pub open spec fn unalias(s: SchemaModel) -> SchemaModel
    decreases s,
{
    match s {
        SchemaModel::Alias { target, .. } => unalias(*target),
        _ => s,
    }
}

/// Every mutable struct in the schema (at any depth) has fields with
/// distinct names, so that matching fields by name is unambiguous.
pub open spec fn mutable_names_distinct(s: SchemaModel) -> bool
    decreases s,
{
    match s {
        SchemaModel::Sequence { element, .. } => mutable_names_distinct(*element),
        SchemaModel::Array { element, .. } => mutable_names_distinct(*element),
        SchemaModel::Struct { base, fields, extensibility, .. } => {
            &&& (ext_or_final(extensibility) == DynamicTypeExtensibility::Mutable ==> forall|
                i: int,
                j: int,
            | 0 <= i < j < fields.len() ==> fields[i].name != fields[j].name)
            &&& match base {
                Some(b) => mutable_names_distinct(*b),
                None => true,
            }
            &&& forall|i: int|
                #![trigger fields[i]]
                0 <= i < fields.len() ==> mutable_names_distinct(fields[i].value)
        },
        SchemaModel::Alias { target, .. } => mutable_names_distinct(*target),
        SchemaModel::Union { discriminator, cases, .. } => {
            &&& mutable_names_distinct(*discriminator)
            &&& forall|i: int|
                #![trigger cases[i]]
                0 <= i < cases.len() ==> mutable_names_distinct(cases[i].value)
        },
        SchemaModel::Mapping { key, value, .. } => mutable_names_distinct(*key)
            && mutable_names_distinct(*value),
        _ => true,
    }
}

/// Aliases are transparent to assignability: on either side, a type and
/// the type it aliases are interchangeable.
pub proof fn law_assignable_looks_through_aliases(a: SchemaModel, b: SchemaModel)
    ensures
        assignable(a, b) == assignable(unalias(a), unalias(b)),
    decreases a, b,
{
    if let SchemaModel::Alias { target, .. } = a {
        law_assignable_looks_through_aliases(*target, b);
    } else if let SchemaModel::Alias { target, .. } = b {
        law_assignable_looks_through_aliases(a, *target);
    }
}

/// A type is assignable from itself, provided the names of the fields of
/// each of its mutable structs are distinct.
pub proof fn law_assignable_reflexive(s: SchemaModel)
    requires
        mutable_names_distinct(s),
    ensures
        assignable(s, s),
    decreases s,
{
    match s {
        SchemaModel::Alias { target, .. } => {
            law_assignable_reflexive(*target);
            law_assignable_looks_through_aliases(s, s);
            law_assignable_looks_through_aliases(*target, *target);
        },
        SchemaModel::Sequence { element, .. } => {
            law_assignable_reflexive(*element);
        },
        SchemaModel::Array { element, .. } => {
            law_assignable_reflexive(*element);
        },
        SchemaModel::Mapping { key, value, .. } => {
            law_assignable_reflexive(*key);
            law_assignable_reflexive(*value);
        },
        SchemaModel::Union { discriminator, cases, .. } => {
            law_assignable_reflexive(*discriminator);
            assert forall|i: int| #![trigger cases[i]] 0 <= i < cases.len() implies assignable(
                cases[i].value,
                cases[i].value,
            ) by {
                law_assignable_reflexive(cases[i].value);
            }
        },
        SchemaModel::Struct { base, fields, extensibility, .. } => {
            assert forall|i: int| #![trigger fields[i]] 0 <= i < fields.len() implies assignable(
                fields[i].value,
                fields[i].value,
            ) by {
                law_assignable_reflexive(fields[i].value);
            }
            if let Some(b) = base {
                law_assignable_reflexive(*b);
            }
            if ext_or_final(extensibility) == DynamicTypeExtensibility::Mutable {
                assert forall|j: int| #![trigger fields[j]] 0 <= j < fields.len() implies {
                    let k = field_index(fields, fields[j].name);
                    0 <= k < fields.len() && assignable(fields[k].value, fields[j].value)
                } by {
                    lemma_field_index(fields, fields[j].name);
                    assert(crate::dynamic_value::is_first_field(fields, fields[j].name, j));
                }
                assert forall|i: int| #![trigger fields[i]] 0 <= i < fields.len() implies (
                !fields[i].optional ==> field_index(fields, fields[i].name) >= 0) by {
                    lemma_field_index(fields, fields[i].name);
                }
            }
        },
        _ => {},
    }
}


/// The same kind of type, by variant.
pub open spec fn same_kind(a: SchemaModel, b: SchemaModel) -> bool {
    &&& (a is Primitive <==> b is Primitive)
    &&& (a is String <==> b is String)
    &&& (a is Sequence <==> b is Sequence)
    &&& (a is Array <==> b is Array)
    &&& (a is Struct <==> b is Struct)
    &&& (a is Enum <==> b is Enum)
    &&& (a is Bitmask <==> b is Bitmask)
    &&& (a is Union <==> b is Union)
    &&& (a is Mapping <==> b is Mapping)
}

/// Whether a receiving bound `a` admits every length that a sending bound
/// `b` allows: an unbounded receiver takes anything, a bounded one only a
/// sender bounded no higher.
pub open spec fn receives_within(a: Option<u32>, b: Option<u32>) -> bool {
    match a {
        None => true,
        Some(x) => match b {
            Some(y) => y <= x,
            None => false,
        },
    }
}

/// Apart from aliases, only types of the same kind are assignable.
pub proof fn law_assignable_needs_same_kind(a: SchemaModel, b: SchemaModel)
    requires
        !(a is Alias),
        !(b is Alias),
        assignable(a, b),
    ensures
        same_kind(a, b),
{
}

/// Primitives are assignable exactly when they are the same kind.
pub proof fn law_primitive_assignable(x: crate::dynamic_type::DynamicPrimitiveKind, y: crate::dynamic_type::DynamicPrimitiveKind)
    ensures
        assignable(SchemaModel::Primitive(x), SchemaModel::Primitive(y)) <==> x == y,
{
}

/// Strings are assignable exactly when the receiver's bound admits the
/// sender's.
pub proof fn law_string_assignable(x: Option<u32>, y: Option<u32>)
    ensures
        assignable(SchemaModel::String { bound: x }, SchemaModel::String { bound: y }) <==> receives_within(x, y),
{
}

/// Enums, and bitmasks, are assignable exactly when they have the same
/// literals (or bit fields) and the same bit bound.
pub proof fn law_enum_and_bitmask_assignable(a: SchemaModel, b: SchemaModel)
    ensures
        a is Enum && b is Enum ==> (assignable(a, b) <==> (a->Enum_literals == b->Enum_literals
            && a->Enum_bit_bound == b->Enum_bit_bound)),
        a is Bitmask && b is Bitmask ==> (assignable(a, b) <==> (a->Bitmask_fields == b->Bitmask_fields
            && a->Bitmask_bit_bound == b->Bitmask_bit_bound)),
{
}

/// Assignable sequences and maps have a receiving bound that admits the
/// sending one and assignable elements (keys and values); assignable
/// arrays have the same dimensions and assignable elements.
pub proof fn law_collection_assignable(a: SchemaModel, b: SchemaModel)
    ensures
        a is Sequence && b is Sequence ==> (assignable(a, b) <==> (receives_within(
            a->Sequence_bound,
            b->Sequence_bound,
        ) && assignable(*a->Sequence_element, *b->Sequence_element))),
        a is Array && b is Array ==> (assignable(a, b) <==> (a->Array_bounds == b->Array_bounds
            && assignable(*a->Array_element, *b->Array_element))),
        a is Mapping && b is Mapping ==> (assignable(a, b) <==> (receives_within(
            a->Mapping_bound,
            b->Mapping_bound,
        ) && assignable(*a->Mapping_key, *b->Mapping_key) && assignable(
            *a->Mapping_value,
            *b->Mapping_value,
        ))),
{
}

/// The bases of two extensible structs match: both absent, or both present
/// and assignable.
pub open spec fn bases_assignable(a: Option<Box<SchemaModel>>, b: Option<Box<SchemaModel>>) -> bool {
    ||| (a is None && b is None)
    ||| (a is Some && b is Some && assignable(*a.unwrap(), *b.unwrap()))
}

/// Unions are assignable exactly when their discriminators are assignable
/// and they have the same cases in the same order: equal names, equal
/// labels, equal default flags, and assignable member types. Two unions
/// whose cases differ in any of these are not assignable.
pub proof fn law_union_assignable(a: SchemaModel, b: SchemaModel)
    requires
        a is Union,
        b is Union,
    ensures
        assignable(a, b) <==> {
            &&& assignable(*a->Union_discriminator, *b->Union_discriminator)
            &&& a->Union_cases.len() == b->Union_cases.len()
            &&& forall|i: int|
                0 <= i < a->Union_cases.len() ==> {
                    &&& (#[trigger] a->Union_cases[i]).name == b->Union_cases[i].name
                    &&& a->Union_cases[i].labels == b->Union_cases[i].labels
                    &&& a->Union_cases[i].default == b->Union_cases[i].default
                    &&& assignable(a->Union_cases[i].value, b->Union_cases[i].value)
                }
        },
{
}

/// A final struct (one without an extensibility is final) takes, apart
/// from an alias, exactly the final structs with an equal base and the
/// same fields in the same order: equal names, optional and key flags, and
/// assignable types.
pub proof fn law_final_struct_assignable(a: SchemaModel, b: SchemaModel)
    requires
        a is Struct,
        a->Struct_extensibility is None || a->Struct_extensibility == Some(DynamicTypeExtensibility::Final),
        !(b is Alias),
    ensures
        assignable(a, b) <==> {
            &&& b is Struct
            &&& b->Struct_extensibility is None || b->Struct_extensibility == Some(DynamicTypeExtensibility::Final)
            &&& a->Struct_base == b->Struct_base
            &&& a->Struct_fields.len() == b->Struct_fields.len()
            &&& forall|i: int|
                0 <= i < a->Struct_fields.len() ==> {
                    &&& (#[trigger] a->Struct_fields[i]).name == b->Struct_fields[i].name
                    &&& a->Struct_fields[i].optional == b->Struct_fields[i].optional
                    &&& a->Struct_fields[i].key == b->Struct_fields[i].key
                    &&& assignable(a->Struct_fields[i].value, b->Struct_fields[i].value)
                }
        },
{
}

/// An appendable struct takes, apart from an alias, exactly the structs
/// whose base matches its own (see [`bases_assignable`]) and whose fields
/// are a prefix of its own: field by field the same names, optional and
/// key flags, and assignable types.
pub proof fn law_appendable_struct_assignable(a: SchemaModel, b: SchemaModel)
    requires
        a is Struct,
        a->Struct_extensibility == Some(DynamicTypeExtensibility::Appendable),
        !(b is Alias),
    ensures
        assignable(a, b) <==> {
            &&& b is Struct
            &&& bases_assignable(a->Struct_base, b->Struct_base)
            &&& b->Struct_fields.len() <= a->Struct_fields.len()
            &&& forall|i: int|
                0 <= i < b->Struct_fields.len() ==> {
                    &&& (#[trigger] b->Struct_fields[i]).name == a->Struct_fields[i].name
                    &&& a->Struct_fields[i].optional == b->Struct_fields[i].optional
                    &&& a->Struct_fields[i].key == b->Struct_fields[i].key
                    &&& assignable(a->Struct_fields[i].value, b->Struct_fields[i].value)
                }
        },
{
}

/// What a mutable struct takes from a struct: its base matches (see
/// [`bases_assignable`]), it has each of the sender's fields by name with
/// an assignable type, and the sender has each of its required fields.
pub open spec fn mutable_takes(a: SchemaModel, b: SchemaModel) -> bool {
    &&& b is Struct
    &&& bases_assignable(a->Struct_base, b->Struct_base)
    &&& forall|j: int|
        0 <= j < b->Struct_fields.len() ==> exists|k: int|
            0 <= k < a->Struct_fields.len() && a->Struct_fields[k].name == (#[trigger] b->Struct_fields[j]).name
                && assignable(a->Struct_fields[k].value, b->Struct_fields[j].value)
    &&& forall|i: int|
        0 <= i < a->Struct_fields.len() && !(#[trigger] a->Struct_fields[i]).optional ==> exists|k: int|
            0 <= k < b->Struct_fields.len() && b->Struct_fields[k].name == a->Struct_fields[i].name
}

/// A mutable struct takes, apart from an alias, only structs it can match
/// by name (see [`mutable_takes`]); when its own field names are distinct,
/// it takes exactly those.
pub proof fn law_mutable_struct_assignable(a: SchemaModel, b: SchemaModel)
    requires
        a is Struct,
        a->Struct_extensibility == Some(DynamicTypeExtensibility::Mutable),
        !(b is Alias),
    ensures
        assignable(a, b) ==> mutable_takes(a, b),
        (forall|i: int, j: int|
            0 <= i < j < a->Struct_fields.len() ==> a->Struct_fields[i].name != a->Struct_fields[j].name)
            ==> (mutable_takes(a, b) ==> assignable(a, b)),
{
    let af = a->Struct_fields;
    if assignable(a, b) {
        let bf = b->Struct_fields;
        assert forall|j: int| 0 <= j < bf.len() implies exists|k: int|
            0 <= k < af.len() && af[k].name == (#[trigger] bf[j]).name && assignable(af[k].value, bf[j].value) by {
            let k = field_index(af, bf[j].name);
            lemma_field_index(af, bf[j].name);
            assert(0 <= k < af.len() && assignable(af[k].value, bf[j].value));
        }
        assert forall|i: int| 0 <= i < af.len() && !(#[trigger] af[i]).optional implies exists|k: int|
            0 <= k < bf.len() && bf[k].name == af[i].name by {
            lemma_field_index(bf, af[i].name);
            let k = field_index(bf, af[i].name);
            assert(0 <= k < bf.len() && bf[k].name == af[i].name);
        }
    }
    if (forall|i: int, j: int| 0 <= i < j < af.len() ==> af[i].name != af[j].name) && mutable_takes(a, b) {
        let bf = b->Struct_fields;
        assert forall|j: int| #![trigger bf[j]] 0 <= j < bf.len() implies {
            let k = field_index(af, bf[j].name);
            0 <= k < af.len() && assignable(af[k].value, bf[j].value)
        } by {
            let m = choose|m: int|
                0 <= m < af.len() && af[m].name == bf[j].name && assignable(af[m].value, bf[j].value);
            lemma_field_index(af, bf[j].name);
            let k = field_index(af, bf[j].name);
            if k != m {
                if k < m {
                    assert(af[k].name != af[m].name);
                } else {
                    assert(af[m].name != af[k].name);
                }
            }
        }
        assert forall|i: int| #![trigger af[i]] 0 <= i < af.len() implies (!af[i].optional ==> field_index(
            bf,
            af[i].name,
        ) >= 0) by {
            if !af[i].optional {
                let m = choose|m: int| 0 <= m < bf.len() && bf[m].name == af[i].name;
                lemma_field_index(bf, af[i].name);
            }
        }
    }
}

} // verus!
