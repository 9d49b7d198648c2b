//! `DynamicData`: a dynamic value together with its schema, with access to
//! struct members by name.
use vstd::prelude::*;
use crate::dynamic_value::{
    conforms, entries_model, fields_model, values_model, DynamicTypeSchema, DynamicValue,
    SchemaModel, ValueModel,
};
use crate::error::{DdsError, DdsResult};
use crate::text::concat3;
use crate::value_ops::{
    field_not_in_schema_text, schema_field, set_field_ok, value_field, with_field,
};

verus! {

/// A runtime-typed data value with the schema that describes it.
#[derive(Debug)]
pub struct DynamicData {
    schema: DynamicTypeSchema,
    value: DynamicValue,
}

/// What a [`DynamicData`] holds.
pub ghost struct DataModel {
    pub value: ValueModel,
    pub schema: SchemaModel,
}

impl View for DynamicData {
    type V = DataModel;

    closed spec fn view(&self) -> DataModel {
        DataModel { value: self.value@, schema: self.schema@ }
    }
}

/// `field '<name>' not found`.
pub open spec fn not_found_text(name: Seq<char>) -> Seq<char> {
    "field '"@ + name + "' not found"@
}

/// `field '<name>' is not <what>`.
pub open spec fn wrong_kind_text(name: Seq<char>, what: Seq<char>) -> Seq<char> {
    "field '"@ + name + "' is not "@ + what
}

/// The outcome of a typed read of member `name` whose value `pick` extracts
/// when it has the right kind: the value, else the wrong-kind error, else
/// the not-found error.
pub open spec fn read_outcome<T>(
    r: DdsResult<T>,
    found: Option<ValueModel>,
    pick: spec_fn(ValueModel) -> Option<T>,
    name: Seq<char>,
    what: Seq<char>,
) -> bool {
    match found {
        Some(v) => match pick(v) {
            Some(x) => r matches Ok(y) && y == x,
            None => r matches Err(DdsError::BadParameter(m)) && m@ == wrong_kind_text(name, what),
        },
        None => r matches Err(DdsError::BadParameter(m)) && m@ == not_found_text(name),
    }
}

/// An unset value conforms to every schema.
pub proof fn law_unset_value_conforms(s: SchemaModel)
    ensures
        conforms(ValueModel::Null, s),
    decreases s,
{
    if let SchemaModel::Alias { target, .. } = s {
        law_unset_value_conforms(*target);
    }
}

fn not_found(name: &str) -> (e: DdsError)
    ensures
        e matches DdsError::BadParameter(m) && m@ == not_found_text(name@),
{
    DdsError::BadParameter(concat3("field '", name, "' not found"))
}

fn wrong_kind(name: &str, what: &str) -> (e: DdsError)
    ensures
        e matches DdsError::BadParameter(m) && m@ == wrong_kind_text(name@, what@),
{
    let mut m = concat3("field '", name, "' is not ");
    m.append(what);
    DdsError::BadParameter(m)
}

impl DynamicData {
    /// Data holding the schema's default value.
    pub fn new(schema: &DynamicTypeSchema) -> (r: Self)
        ensures
            r@ == (DataModel { value: crate::defaults::default_of(schema@), schema: schema@ }),
            r@.value matches ValueModel::Struct(es) ==> crate::dynamic_value::members_sorted(es),
    {
        proof {
            crate::defaults::law_default_members_sorted(schema@);
        }
        DynamicData { value: schema.default_value(), schema: schema.clone() }
    }

    /// Data holding `value`, if it conforms to the schema.
    pub fn from_value(schema: &DynamicTypeSchema, value: DynamicValue) -> (r: DdsResult<Self>)
        ensures
            r is Ok <==> conforms(value@, schema@),
            r matches Ok(d) ==> d@ == (DataModel { value: value@, schema: schema@ }),
            r matches Err(e) ==> e is BadParameter,
    {
        let checked = value.validate_against(schema);
        match checked {
            Ok(()) => Ok(DynamicData { value, schema: schema.clone() }),
            Err(e) => Err(e),
        }
    }

    /// The value.
    pub fn value(&self) -> (r: &DynamicValue)
        ensures
            r@ == self@.value,
    {
        &self.value
    }

    /// The value, for changing it in place; keeping it valid for the schema
    /// is then up to the caller.
    pub fn value_mut(&mut self) -> (r: &mut DynamicValue)
        ensures
            (*r)@ == old(self)@.value,
            final(self)@ == (DataModel { value: (*final(r))@, schema: old(self)@.schema }),
    {
        &mut self.value
    }

    /// The schema.
    pub fn schema(&self) -> (r: &DynamicTypeSchema)
        ensures
            r@ == self@.schema,
    {
        &self.schema
    }

    /// The `Bool` member named `name`.
    pub fn get_bool(&self, name: &str) -> (r: DdsResult<bool>)
        ensures
            read_outcome(
                r,
                value_field(self@.value, name@),
                |v: ValueModel|
                    match v {
                        ValueModel::Bool(x) => Some(x),
                        _ => None,
                    },
                name@,
                "a bool"@,
            ),
    {
        match self.value.field(name) {
            Some(DynamicValue::Bool(x)) => Ok(*x),
            Some(_) => Err(wrong_kind(name, "a bool")),
            None => Err(not_found(name)),
        }
    }

    /// The `Int32` member named `name`.
    pub fn get_i32(&self, name: &str) -> (r: DdsResult<i32>)
        ensures
            read_outcome(
                r,
                value_field(self@.value, name@),
                |v: ValueModel|
                    match v {
                        ValueModel::Int32(x) => Some(x),
                        _ => None,
                    },
                name@,
                "an i32"@,
            ),
    {
        match self.value.field(name) {
            Some(DynamicValue::Int32(x)) => Ok(*x),
            Some(_) => Err(wrong_kind(name, "an i32")),
            None => Err(not_found(name)),
        }
    }

    /// The `UInt32` member named `name`.
    pub fn get_u32(&self, name: &str) -> (r: DdsResult<u32>)
        ensures
            read_outcome(
                r,
                value_field(self@.value, name@),
                |v: ValueModel|
                    match v {
                        ValueModel::UInt32(x) => Some(x),
                        _ => None,
                    },
                name@,
                "a u32"@,
            ),
    {
        match self.value.field(name) {
            Some(DynamicValue::UInt32(x)) => Ok(*x),
            Some(_) => Err(wrong_kind(name, "a u32")),
            None => Err(not_found(name)),
        }
    }

    /// The `Int64` member named `name`.
    pub fn get_i64(&self, name: &str) -> (r: DdsResult<i64>)
        ensures
            read_outcome(
                r,
                value_field(self@.value, name@),
                |v: ValueModel|
                    match v {
                        ValueModel::Int64(x) => Some(x),
                        _ => None,
                    },
                name@,
                "an i64"@,
            ),
    {
        match self.value.field(name) {
            Some(DynamicValue::Int64(x)) => Ok(*x),
            Some(_) => Err(wrong_kind(name, "an i64")),
            None => Err(not_found(name)),
        }
    }

    /// The `UInt64` member named `name`.
    pub fn get_u64(&self, name: &str) -> (r: DdsResult<u64>)
        ensures
            read_outcome(
                r,
                value_field(self@.value, name@),
                |v: ValueModel|
                    match v {
                        ValueModel::UInt64(x) => Some(x),
                        _ => None,
                    },
                name@,
                "a u64"@,
            ),
    {
        match self.value.field(name) {
            Some(DynamicValue::UInt64(x)) => Ok(*x),
            Some(_) => Err(wrong_kind(name, "a u64")),
            None => Err(not_found(name)),
        }
    }

    /// The bit pattern of the `Float32` member named `name`.
    pub fn get_f32_bits(&self, name: &str) -> (r: DdsResult<u32>)
        ensures
            read_outcome(
                r,
                value_field(self@.value, name@),
                |v: ValueModel|
                    match v {
                        ValueModel::Float32(x) => Some(x),
                        _ => None,
                    },
                name@,
                "an f32"@,
            ),
    {
        match self.value.field(name) {
            Some(DynamicValue::Float32(x)) => Ok(*x),
            Some(_) => Err(wrong_kind(name, "an f32")),
            None => Err(not_found(name)),
        }
    }

    /// The bit pattern of the `Float64` member named `name`.
    pub fn get_f64_bits(&self, name: &str) -> (r: DdsResult<u64>)
        ensures
            read_outcome(
                r,
                value_field(self@.value, name@),
                |v: ValueModel|
                    match v {
                        ValueModel::Float64(x) => Some(x),
                        _ => None,
                    },
                name@,
                "an f64"@,
            ),
    {
        match self.value.field(name) {
            Some(DynamicValue::Float64(x)) => Ok(*x),
            Some(_) => Err(wrong_kind(name, "an f64")),
            None => Err(not_found(name)),
        }
    }

    /// The `Bitmask` member named `name`.
    pub fn get_bitmask(&self, name: &str) -> (r: DdsResult<u64>)
        ensures
            read_outcome(
                r,
                value_field(self@.value, name@),
                |v: ValueModel|
                    match v {
                        ValueModel::Bitmask(x) => Some(x),
                        _ => None,
                    },
                name@,
                "a bitmask"@,
            ),
    {
        match self.value.field(name) {
            Some(DynamicValue::Bitmask(x)) => Ok(*x),
            Some(_) => Err(wrong_kind(name, "a bitmask")),
            None => Err(not_found(name)),
        }
    }

    /// The `Enum` member named `name`, as its integer value.
    pub fn get_enum(&self, name: &str) -> (r: DdsResult<i32>)
        ensures
            read_outcome(
                r,
                value_field(self@.value, name@),
                |v: ValueModel|
                    match v {
                        ValueModel::Enum { value } => Some(value),
                        _ => None,
                    },
                name@,
                "an enum"@,
            ),
    {
        match self.value.field(name) {
            Some(DynamicValue::Enum { value }) => Ok(*value),
            Some(_) => Err(wrong_kind(name, "an enum")),
            None => Err(not_found(name)),
        }
    }

    /// A copy of the `String` member named `name`.
    pub fn get_string(&self, name: &str) -> (r: DdsResult<String>)
        ensures
            match value_field(self@.value, name@) {
                Some(ValueModel::String(s)) => r matches Ok(t) && t@ == s,
                Some(_) => r matches Err(DdsError::BadParameter(m)) && m@ == wrong_kind_text(
                    name@,
                    "a string"@,
                ),
                None => r matches Err(DdsError::BadParameter(m)) && m@ == not_found_text(name@),
            },
    {
        match self.value.field(name) {
            Some(DynamicValue::String(s)) => Ok(s.clone()),
            Some(_) => Err(wrong_kind(name, "a string")),
            None => Err(not_found(name)),
        }
    }

    /// Copies of the elements of the sequence or array member named `name`.
    pub fn get_sequence(&self, name: &str) -> (r: DdsResult<Vec<DynamicValue>>)
        ensures
            match value_field(self@.value, name@) {
                Some(ValueModel::Sequence(xs)) => r matches Ok(t) && values_model(t@) == xs,
                Some(ValueModel::Array(xs)) => r matches Ok(t) && values_model(t@) == xs,
                Some(_) => r matches Err(DdsError::BadParameter(m)) && m@ == wrong_kind_text(
                    name@,
                    "a sequence"@,
                ),
                None => r matches Err(DdsError::BadParameter(m)) && m@ == not_found_text(name@),
            },
    {
        match self.value.field(name) {
            Some(DynamicValue::Sequence(xs)) => Ok(crate::dynamic_value::values_dup(xs)),
            Some(DynamicValue::Array(xs)) => Ok(crate::dynamic_value::values_dup(xs)),
            Some(_) => Err(wrong_kind(name, "a sequence")),
            None => Err(not_found(name)),
        }
    }

    /// The struct member named `name` as data of its own, with the field's
    /// schema.
    pub fn get_struct(&self, name: &str) -> (r: DdsResult<DynamicData>)
        ensures
            match schema_field(self@.schema, name@) {
                None => r matches Err(DdsError::BadParameter(m)) && m@ == "field '"@ + name@
                    + "' not found in schema"@,
                Some(f) => match value_field(self@.value, name@) {
                    Some(ValueModel::Struct(es)) => r matches Ok(d) && d@ == (DataModel {
                        value: ValueModel::Struct(es),
                        schema: f.value,
                    }),
                    Some(ValueModel::Null) => f.optional ==> (r matches Err(
                        DdsError::BadParameter(m),
                    ) && m@ == "optional field '"@ + name@ + "' is not set"@),
                    Some(_) => r matches Err(DdsError::BadParameter(_)),
                    None => r matches Err(DdsError::BadParameter(m)) && m@ == not_found_text(
                        name@,
                    ),
                },
            },
            r is Err ==> r matches Err(DdsError::BadParameter(_)),
    {
        let field = match self.schema.field(name) {
            Some(f) => f,
            None => {
                return Err(
                    DdsError::BadParameter(concat3("field '", name, "' not found in schema")),
                );
            },
        };
        match self.value.field(name) {
            Some(DynamicValue::Struct(es)) => {
                let copy = crate::dynamic_value::entries_dup(es);
                Ok(DynamicData { value: DynamicValue::Struct(copy), schema: field.value.clone() })
            },
            Some(DynamicValue::Null) => {
                if field.optional {
                    Err(
                        DdsError::BadParameter(
                            concat3("optional field '", name, "' is not set"),
                        ),
                    )
                } else {
                    Err(
                        DdsError::BadParameter(
                            concat3("field '", name, "' is Null, expected struct"),
                        ),
                    )
                }
            },
            Some(v) => {
                let mut m = concat3("field '", name, "' is ");
                m.append(crate::text::debug_string(v).as_str());
                m.append(", expected struct");
                Err(DdsError::BadParameter(m))
            },
            None => Err(not_found(name)),
        }
    }

    /// Sets the member named `name` to `value`, after checking it against
    /// the field's type (see [`DynamicValue::set_field`]).
    pub fn set_field(&mut self, name: &str, value: DynamicValue) -> (r: DdsResult<()>)
        ensures
            r is Ok <==> set_field_ok(old(self)@.value, old(self)@.schema, name@, value@),
            r is Ok ==> final(self)@ == (DataModel {
                value: with_field(old(self)@.value, name@, value@),
                schema: old(self)@.schema,
            }),
            r is Err ==> final(self)@ == old(self)@,
            schema_field(old(self)@.schema, name@) is None ==> (r matches Err(DdsError::BadParameter(m))
                && m@ == field_not_in_schema_text(name@)),
            r matches Err(e) ==> e is BadParameter,
    {
        self.value.set_field(&self.schema, name, value)
    }

    pub fn set_bool(&mut self, name: &str, value: bool) -> (r: DdsResult<()>)
        ensures
            r is Ok <==> set_field_ok(old(self)@.value, old(self)@.schema, name@, ValueModel::Bool(value)),
            r is Ok ==> final(self)@ == (DataModel {
                value: with_field(old(self)@.value, name@, ValueModel::Bool(value)),
                schema: old(self)@.schema,
            }),
            r is Err ==> final(self)@ == old(self)@,
            schema_field(old(self)@.schema, name@) is None ==> (r matches Err(DdsError::BadParameter(m))
                && m@ == field_not_in_schema_text(name@)),
            r matches Err(e) ==> e is BadParameter,
    {
        self.set_field(name, DynamicValue::Bool(value))
    }

    pub fn set_i32(&mut self, name: &str, value: i32) -> (r: DdsResult<()>)
        ensures
            r is Ok <==> set_field_ok(old(self)@.value, old(self)@.schema, name@, ValueModel::Int32(value)),
            r is Ok ==> final(self)@ == (DataModel {
                value: with_field(old(self)@.value, name@, ValueModel::Int32(value)),
                schema: old(self)@.schema,
            }),
            r is Err ==> final(self)@ == old(self)@,
            schema_field(old(self)@.schema, name@) is None ==> (r matches Err(DdsError::BadParameter(m))
                && m@ == field_not_in_schema_text(name@)),
            r matches Err(e) ==> e is BadParameter,
    {
        self.set_field(name, DynamicValue::Int32(value))
    }

    pub fn set_u32(&mut self, name: &str, value: u32) -> (r: DdsResult<()>)
        ensures
            r is Ok <==> set_field_ok(old(self)@.value, old(self)@.schema, name@, ValueModel::UInt32(value)),
            r is Ok ==> final(self)@ == (DataModel {
                value: with_field(old(self)@.value, name@, ValueModel::UInt32(value)),
                schema: old(self)@.schema,
            }),
            r is Err ==> final(self)@ == old(self)@,
            schema_field(old(self)@.schema, name@) is None ==> (r matches Err(DdsError::BadParameter(m))
                && m@ == field_not_in_schema_text(name@)),
            r matches Err(e) ==> e is BadParameter,
    {
        self.set_field(name, DynamicValue::UInt32(value))
    }

    pub fn set_i64(&mut self, name: &str, value: i64) -> (r: DdsResult<()>)
        ensures
            r is Ok <==> set_field_ok(old(self)@.value, old(self)@.schema, name@, ValueModel::Int64(value)),
            r is Ok ==> final(self)@ == (DataModel {
                value: with_field(old(self)@.value, name@, ValueModel::Int64(value)),
                schema: old(self)@.schema,
            }),
            r is Err ==> final(self)@ == old(self)@,
            schema_field(old(self)@.schema, name@) is None ==> (r matches Err(DdsError::BadParameter(m))
                && m@ == field_not_in_schema_text(name@)),
            r matches Err(e) ==> e is BadParameter,
    {
        self.set_field(name, DynamicValue::Int64(value))
    }

    pub fn set_u64(&mut self, name: &str, value: u64) -> (r: DdsResult<()>)
        ensures
            r is Ok <==> set_field_ok(old(self)@.value, old(self)@.schema, name@, ValueModel::UInt64(value)),
            r is Ok ==> final(self)@ == (DataModel {
                value: with_field(old(self)@.value, name@, ValueModel::UInt64(value)),
                schema: old(self)@.schema,
            }),
            r is Err ==> final(self)@ == old(self)@,
            schema_field(old(self)@.schema, name@) is None ==> (r matches Err(DdsError::BadParameter(m))
                && m@ == field_not_in_schema_text(name@)),
            r matches Err(e) ==> e is BadParameter,
    {
        self.set_field(name, DynamicValue::UInt64(value))
    }

    pub fn set_f32_bits(&mut self, name: &str, value: u32) -> (r: DdsResult<()>)
        ensures
            r is Ok <==> set_field_ok(old(self)@.value, old(self)@.schema, name@, ValueModel::Float32(value)),
            r is Ok ==> final(self)@ == (DataModel {
                value: with_field(old(self)@.value, name@, ValueModel::Float32(value)),
                schema: old(self)@.schema,
            }),
            r is Err ==> final(self)@ == old(self)@,
            schema_field(old(self)@.schema, name@) is None ==> (r matches Err(DdsError::BadParameter(m))
                && m@ == field_not_in_schema_text(name@)),
            r matches Err(e) ==> e is BadParameter,
    {
        self.set_field(name, DynamicValue::Float32(value))
    }

    pub fn set_f64_bits(&mut self, name: &str, value: u64) -> (r: DdsResult<()>)
        ensures
            r is Ok <==> set_field_ok(old(self)@.value, old(self)@.schema, name@, ValueModel::Float64(value)),
            r is Ok ==> final(self)@ == (DataModel {
                value: with_field(old(self)@.value, name@, ValueModel::Float64(value)),
                schema: old(self)@.schema,
            }),
            r is Err ==> final(self)@ == old(self)@,
            schema_field(old(self)@.schema, name@) is None ==> (r matches Err(DdsError::BadParameter(m))
                && m@ == field_not_in_schema_text(name@)),
            r matches Err(e) ==> e is BadParameter,
    {
        self.set_field(name, DynamicValue::Float64(value))
    }

    pub fn set_bitmask(&mut self, name: &str, value: u64) -> (r: DdsResult<()>)
        ensures
            r is Ok <==> set_field_ok(old(self)@.value, old(self)@.schema, name@, ValueModel::Bitmask(value)),
            r is Ok ==> final(self)@ == (DataModel {
                value: with_field(old(self)@.value, name@, ValueModel::Bitmask(value)),
                schema: old(self)@.schema,
            }),
            r is Err ==> final(self)@ == old(self)@,
            schema_field(old(self)@.schema, name@) is None ==> (r matches Err(DdsError::BadParameter(m))
                && m@ == field_not_in_schema_text(name@)),
            r matches Err(e) ==> e is BadParameter,
    {
        self.set_field(name, DynamicValue::Bitmask(value))
    }

    pub fn set_enum(&mut self, name: &str, value: i32) -> (r: DdsResult<()>)
        ensures
            r is Ok <==> set_field_ok(old(self)@.value, old(self)@.schema, name@, ValueModel::Enum { value }),
            r is Ok ==> final(self)@ == (DataModel {
                value: with_field(old(self)@.value, name@, ValueModel::Enum { value }),
                schema: old(self)@.schema,
            }),
            r is Err ==> final(self)@ == old(self)@,
            schema_field(old(self)@.schema, name@) is None ==> (r matches Err(DdsError::BadParameter(m))
                && m@ == field_not_in_schema_text(name@)),
            r matches Err(e) ==> e is BadParameter,
    {
        self.set_field(name, DynamicValue::Enum { value })
    }

    pub fn set_string(&mut self, name: &str, value: &str) -> (r: DdsResult<()>)
        ensures
            r is Ok <==> set_field_ok(old(self)@.value, old(self)@.schema, name@, ValueModel::String(value@)),
            r is Ok ==> final(self)@ == (DataModel {
                value: with_field(old(self)@.value, name@, ValueModel::String(value@)),
                schema: old(self)@.schema,
            }),
            r is Err ==> final(self)@ == old(self)@,
            schema_field(old(self)@.schema, name@) is None ==> (r matches Err(DdsError::BadParameter(m))
                && m@ == field_not_in_schema_text(name@)),
            r matches Err(e) ==> e is BadParameter,
    {
        self.set_field(name, DynamicValue::String(value.to_owned()))
    }

    /// Unsets the optional member named `name` (sets it to `Null`).
    pub fn set_null(&mut self, name: &str) -> (r: DdsResult<()>)
        ensures
            r is Ok <==> (schema_field(old(self)@.schema, name@) matches Some(f) && f.optional
                && old(self)@.value is Struct),
            r is Ok ==> final(self)@ == (DataModel {
                value: with_field(old(self)@.value, name@, ValueModel::Null),
                schema: old(self)@.schema,
            }),
            r is Err ==> final(self)@ == old(self)@,
            schema_field(old(self)@.schema, name@) is None ==> (r matches Err(
                DdsError::BadParameter(m),
            ) && m@ == "field '"@ + name@ + "' not found in schema"@),
            schema_field(old(self)@.schema, name@) matches Some(f) && !f.optional ==> (r matches Err(
                DdsError::BadParameter(m),
            ) && m@ == "field '"@ + name@ + "' is not optional, cannot set to null"@),
            r matches Err(e) ==> e is BadParameter,
    {
        let optional = match self.schema.field(name) {
            Some(f) => f.optional,
            None => {
                return Err(
                    DdsError::BadParameter(concat3("field '", name, "' not found in schema")),
                );
            },
        };
        if !optional {
            return Err(
                DdsError::BadParameter(
                    concat3("field '", name, "' is not optional, cannot set to null"),
                ),
            );
        }
        proof {
            law_unset_value_conforms(schema_field(self@.schema, name@).unwrap().value);
        }
        self.value.set_field(&self.schema, name, DynamicValue::Null)
    }

    /// Whether the member named `name` is present and not `Null`.
    pub fn is_set(&self, name: &str) -> (r: bool)
        ensures
            r == (value_field(self@.value, name@) matches Some(v) && !(v is Null)),
    {
        match self.value.field(name) {
            Some(DynamicValue::Null) => false,
            Some(_) => true,
            None => false,
        }
    }

    /// The names of the schema's own fields, in declaration order (empty
    /// for a schema that is not a struct).
    pub fn field_names(&self) -> (r: Vec<&str>)
        ensures
            match self@.schema {
                SchemaModel::Struct { fields, .. } => r@.len() == fields.len() && forall|i: int|
                    0 <= i < fields.len() ==> (#[trigger] r@[i])@ == fields[i].name,
                _ => r@.len() == 0,
            },
    {
        match &self.schema {
            DynamicTypeSchema::Struct { fields, .. } => {
                let ghost fm = fields_model(fields@);
                let mut r: Vec<&str> = Vec::new();
                let mut i: usize = 0;
                while i < fields.len()
                    invariant
                        0 <= i <= fields@.len(),
                        fm == fields_model(fields@),
                        r@.len() == i,
                        forall|j: int| 0 <= j < i ==> (#[trigger] r@[j])@ == fm[j].name,
                    decreases fields@.len() - i,
                {
                    r.push(fields[i].name.as_str());
                    i += 1;
                }
                r
            },
            _ => Vec::new(),
        }
    }

    /// Checks the value against the schema.
    pub fn validate(&self) -> (r: DdsResult<()>)
        ensures
            r is Ok <==> conforms(self@.value, self@.schema),
            r matches Err(e) ==> e is BadParameter,
    {
        self.value.validate_against(&self.schema)
    }
}

} // verus!
