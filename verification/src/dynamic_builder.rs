//! Building dynamic types: the builders for types and members, and the
//! library's description of a built type, which every change to the type
//! keeps up to date.
use vstd::prelude::*;
use crate::dynamic_type::{
    DynamicEnumLiteralValue, DynamicPrimitiveKind, DynamicTypeAutoId, DynamicTypeExtensibility,
};
use crate::dynamic_value::{
    bit_fields_model, case_model, cases_model, field_model, fields_model, literals_model,
    opt_str_model, schema_model, BitFieldModel, CaseModel, DynamicBitmaskFieldSchema,
    DynamicEnumLiteralSchema, DynamicFieldSchema, DynamicTypeSchema, DynamicUnionCaseSchema,
    FieldModel, LiteralModel, SchemaModel,
};
use crate::error::{DdsError, DdsResult};
use crate::type_discovery::has_nul;
use vstd::utf8::encode_utf8;

verus! {

/// The member id that asks for an automatically assigned id.
pub const DYNAMIC_MEMBER_ID_AUTO: u32 = 0x7fff_ffff;

/// The member index that inserts at the start.
pub const DYNAMIC_MEMBER_INDEX_START: u32 = 0;

/// The member index that appends at the end.
pub const DYNAMIC_MEMBER_INDEX_END: u32 = 0xffff_ffff;

/// The kind of type a builder makes.
#[derive(Debug, Clone, Copy, PartialEq, Eq, Structural)]
pub enum DynamicTypeKind {
    Structure,
    Enumeration,
    Bitmask,
    Alias,
    Array,
    Sequence,
    String8,
    Union,
    Mapping,
}

/// A member or element type: a primitive, or a type that was built before
/// (by its schema).
#[derive(Debug)]
pub enum DynamicTypeSpec {
    Primitive(DynamicPrimitiveKind),
    Dynamic(DynamicTypeSchema),
}

/// The schema that a type spec stands for.
pub open spec fn spec_schema(s: DynamicTypeSpec) -> SchemaModel {
    match s {
        DynamicTypeSpec::Primitive(k) => SchemaModel::Primitive(k),
        DynamicTypeSpec::Dynamic(x) => schema_model(x),
    }
}

impl DynamicTypeSpec {
    pub fn primitive(kind: DynamicPrimitiveKind) -> (r: Self)
        ensures
            r == DynamicTypeSpec::Primitive(kind),
    {
        DynamicTypeSpec::Primitive(kind)
    }

    /// The spec of a type that was built before.
    pub fn from_type(dynamic_type: &DynamicType) -> (r: Self)
        ensures
            spec_schema(r) == dynamic_type@,
    {
        DynamicTypeSpec::Dynamic(dynamic_type.schema.clone())
    }

    /// A copy of the schema this spec stands for.
    pub fn schema_clone(&self) -> (r: DynamicTypeSchema)
        ensures
            r@ == spec_schema(*self),
    {
        match self {
            DynamicTypeSpec::Primitive(k) => DynamicTypeSchema::Primitive(*k),
            DynamicTypeSpec::Dynamic(s) => s.clone(),
        }
    }
}

// ---------------------------------------------------------------------------
// Type builder
// ---------------------------------------------------------------------------

/// The description of a type to build.
#[derive(Debug)]
pub struct DynamicTypeBuilder {
    pub kind: DynamicTypeKind,
    pub name: Option<String>,
    pub base_type: Option<DynamicTypeSpec>,
    pub discriminator_type: Option<DynamicTypeSpec>,
    pub bounds: Vec<u32>,
    pub element_type: Option<DynamicTypeSpec>,
    pub key_element_type: Option<DynamicTypeSpec>,
    pub extensibility: Option<DynamicTypeExtensibility>,
    pub autoid: Option<DynamicTypeAutoId>,
    pub nested: Option<bool>,
    pub bit_bound: Option<u16>,
}

/// Whether a name's UTF-8 bytes hold a zero byte, which a C string cannot
/// carry.
pub open spec fn text_has_nul(s: Seq<char>) -> bool {
    encode_utf8(s).contains(0u8)
}

/// Whether an optional name holds a zero byte.
pub open spec fn name_has_nul(n: Option<String>) -> bool {
    n matches Some(x) && text_has_nul(x@)
}

/// The name of a builder, empty when there is none.
pub open spec fn name_or_empty(n: Option<String>) -> Seq<char> {
    match n {
        Some(s) => s@,
        None => Seq::empty(),
    }
}

/// The first bound, if any.
pub open spec fn first_bound(b: Seq<u32>) -> Option<u32> {
    if b.len() > 0 {
        Some(b[0])
    } else {
        None
    }
}

/// The spec's schema, boxed.
pub open spec fn boxed(s: Option<DynamicTypeSpec>) -> Box<SchemaModel> {
    Box::new(spec_schema(s.unwrap()))
}

/// A builder has what its kind needs: an alias its target, an array or
/// sequence its element type, a union its discriminator type, a map its
/// key and value types.
pub open spec fn builder_complete(b: DynamicTypeBuilder) -> bool {
    match b.kind {
        DynamicTypeKind::Alias => b.base_type is Some,
        DynamicTypeKind::Array => b.element_type is Some,
        DynamicTypeKind::Sequence => b.element_type is Some,
        DynamicTypeKind::Union => b.discriminator_type is Some,
        DynamicTypeKind::Mapping => b.key_element_type is Some && b.element_type is Some,
        _ => true,
    }
}

/// The schema of the type a builder describes, before any member is added.
pub open spec fn built_schema(b: DynamicTypeBuilder) -> SchemaModel {
    let name = name_or_empty(b.name);
    match b.kind {
        DynamicTypeKind::Structure => SchemaModel::Struct {
            name,
            base: match b.base_type {
                Some(t) => Some(Box::new(spec_schema(t))),
                None => None,
            },
            fields: Seq::empty(),
            extensibility: b.extensibility,
            autoid: b.autoid,
            nested: match b.nested {
                Some(x) => x,
                None => false,
            },
        },
        DynamicTypeKind::Enumeration => SchemaModel::Enum {
            name,
            literals: Seq::empty(),
            bit_bound: b.bit_bound,
        },
        DynamicTypeKind::Bitmask => SchemaModel::Bitmask {
            name,
            fields: Seq::empty(),
            bit_bound: b.bit_bound,
        },
        DynamicTypeKind::Alias => SchemaModel::Alias { name, target: boxed(b.base_type) },
        DynamicTypeKind::Array => SchemaModel::Array {
            name,
            bounds: b.bounds@,
            element: boxed(b.element_type),
        },
        DynamicTypeKind::Sequence => SchemaModel::Sequence {
            name,
            bound: first_bound(b.bounds@),
            element: boxed(b.element_type),
        },
        DynamicTypeKind::String8 => SchemaModel::String { bound: first_bound(b.bounds@) },
        DynamicTypeKind::Union => SchemaModel::Union {
            name,
            discriminator: boxed(b.discriminator_type),
            cases: Seq::empty(),
            autoid: b.autoid,
            nested: match b.nested {
                Some(x) => x,
                None => false,
            },
        },
        DynamicTypeKind::Mapping => SchemaModel::Mapping {
            name,
            bound: first_bound(b.bounds@),
            key: boxed(b.key_element_type),
            value: boxed(b.element_type),
        },
    }
}

impl DynamicTypeBuilder {
    fn new(kind: DynamicTypeKind, name: Option<String>) -> (r: Self)
        ensures
            r.kind == kind && r.name == name && r.base_type is None && r.discriminator_type is None,
            r.bounds@.len() == 0 && r.element_type is None && r.key_element_type is None,
            r.extensibility is None && r.autoid is None && r.nested is None && r.bit_bound is None,
    {
        DynamicTypeBuilder {
            kind,
            name,
            base_type: None,
            discriminator_type: None,
            bounds: Vec::new(),
            element_type: None,
            key_element_type: None,
            extensibility: None,
            autoid: None,
            nested: None,
            bit_bound: None,
        }
    }

    pub fn structure(name: &str) -> (r: Self)
        ensures
            r.kind == DynamicTypeKind::Structure,
            r.name is Some && name_or_empty(r.name) == name@,
            r.base_type is None && r.bounds@.len() == 0 && r.extensibility is None,
            r.autoid is None && r.nested is None && r.bit_bound is None,
    {
        Self::new(DynamicTypeKind::Structure, Some(name.to_owned()))
    }

    pub fn enumeration(name: &str) -> (r: Self)
        ensures
            r.kind == DynamicTypeKind::Enumeration,
            r.name is Some && name_or_empty(r.name) == name@,
            r.bit_bound is None,
    {
        Self::new(DynamicTypeKind::Enumeration, Some(name.to_owned()))
    }

    pub fn bitmask(name: &str) -> (r: Self)
        ensures
            r.kind == DynamicTypeKind::Bitmask,
            r.name is Some && name_or_empty(r.name) == name@,
            r.bit_bound is None,
    {
        Self::new(DynamicTypeKind::Bitmask, Some(name.to_owned()))
    }

    pub fn alias(name: &str, base_type: DynamicTypeSpec) -> (r: Self)
        ensures
            r.kind == DynamicTypeKind::Alias,
            r.name is Some && name_or_empty(r.name) == name@,
            r.base_type == Some(base_type),
    {
        Self::new(DynamicTypeKind::Alias, Some(name.to_owned())).base_type(base_type)
    }

    pub fn string8(bound: Option<u32>) -> (r: Self)
        ensures
            r.kind == DynamicTypeKind::String8 && r.name is None,
            first_bound(r.bounds@) == bound,
    {
        let mut b = Self::new(DynamicTypeKind::String8, None);
        if let Some(x) = bound {
            b.bounds.push(x);
        }
        b
    }

    pub fn bounded_string8(bound: u32) -> (r: Self)
        ensures
            r.kind == DynamicTypeKind::String8 && r.name is None,
            first_bound(r.bounds@) == Some(bound),
    {
        Self::string8(Some(bound))
    }

    pub fn unbounded_string8() -> (r: Self)
        ensures
            r.kind == DynamicTypeKind::String8 && r.name is None,
            first_bound(r.bounds@) is None,
    {
        Self::string8(None)
    }

    pub fn sequence(name: &str, element_type: DynamicTypeSpec, bound: Option<u32>) -> (r: Self)
        ensures
            r.kind == DynamicTypeKind::Sequence,
            r.name is Some && name_or_empty(r.name) == name@,
            r.element_type == Some(element_type),
            first_bound(r.bounds@) == bound,
    {
        let mut b = Self::new(DynamicTypeKind::Sequence, Some(name.to_owned())).element_type(
            element_type,
        );
        if let Some(x) = bound {
            b.bounds.push(x);
        }
        b
    }

    pub fn array(name: &str, element_type: DynamicTypeSpec, bounds: Vec<u32>) -> (r: Self)
        ensures
            r.kind == DynamicTypeKind::Array,
            r.name is Some && name_or_empty(r.name) == name@,
            r.element_type == Some(element_type),
            r.bounds@ == bounds@,
    {
        Self::new(DynamicTypeKind::Array, Some(name.to_owned())).element_type(element_type).bounds(
            bounds,
        )
    }

    pub fn unbounded_sequence(name: &str, element_type: DynamicTypeSpec) -> (r: Self)
        ensures
            r.kind == DynamicTypeKind::Sequence,
            r.name is Some && name_or_empty(r.name) == name@,
            r.element_type == Some(element_type),
            first_bound(r.bounds@) is None,
    {
        Self::sequence(name, element_type, None)
    }

    pub fn bounded_sequence(name: &str, element_type: DynamicTypeSpec, bound: u32) -> (r: Self)
        ensures
            r.kind == DynamicTypeKind::Sequence,
            r.name is Some && name_or_empty(r.name) == name@,
            r.element_type == Some(element_type),
            first_bound(r.bounds@) == Some(bound),
    {
        Self::sequence(name, element_type, Some(bound))
    }

    pub fn union(name: &str, discriminator_type: DynamicTypeSpec) -> (r: Self)
        ensures
            r.kind == DynamicTypeKind::Union,
            r.name is Some && name_or_empty(r.name) == name@,
            r.discriminator_type == Some(discriminator_type),
            r.autoid is None && r.nested is None,
    {
        Self::new(DynamicTypeKind::Union, Some(name.to_owned())).discriminator_type(
            discriminator_type,
        )
    }

    pub fn map(
        name: &str,
        key_element_type: DynamicTypeSpec,
        element_type: DynamicTypeSpec,
        bound: Option<u32>,
    ) -> (r: Self)
        ensures
            r.kind == DynamicTypeKind::Mapping,
            r.name is Some && name_or_empty(r.name) == name@,
            r.key_element_type == Some(key_element_type),
            r.element_type == Some(element_type),
            first_bound(r.bounds@) == bound,
    {
        let mut b = Self::new(DynamicTypeKind::Mapping, Some(name.to_owned())).key_element_type(
            key_element_type,
        ).element_type(element_type);
        if let Some(x) = bound {
            b.bounds.push(x);
        }
        b
    }

    pub fn bounded_map(
        name: &str,
        key_element_type: DynamicTypeSpec,
        element_type: DynamicTypeSpec,
        bound: u32,
    ) -> (r: Self)
        ensures
            r.kind == DynamicTypeKind::Mapping,
            r.name is Some && name_or_empty(r.name) == name@,
            r.key_element_type == Some(key_element_type),
            r.element_type == Some(element_type),
            first_bound(r.bounds@) == Some(bound),
    {
        Self::map(name, key_element_type, element_type, Some(bound))
    }

    pub fn unbounded_map(
        name: &str,
        key_element_type: DynamicTypeSpec,
        element_type: DynamicTypeSpec,
    ) -> (r: Self)
        ensures
            r.kind == DynamicTypeKind::Mapping,
            r.name is Some && name_or_empty(r.name) == name@,
            r.key_element_type == Some(key_element_type),
            r.element_type == Some(element_type),
            first_bound(r.bounds@) is None,
    {
        Self::map(name, key_element_type, element_type, None)
    }

    pub fn base_type(self, base_type: DynamicTypeSpec) -> (r: Self)
        ensures
            r == (DynamicTypeBuilder { base_type: Some(base_type), ..self }),
    {
        DynamicTypeBuilder { base_type: Some(base_type), ..self }
    }

    pub fn discriminator_type(self, discriminator_type: DynamicTypeSpec) -> (r: Self)
        ensures
            r == (DynamicTypeBuilder { discriminator_type: Some(discriminator_type), ..self }),
    {
        DynamicTypeBuilder { discriminator_type: Some(discriminator_type), ..self }
    }

    pub fn bounds(self, bounds: Vec<u32>) -> (r: Self)
        ensures
            r == (DynamicTypeBuilder { bounds, ..self }),
    {
        DynamicTypeBuilder { bounds, ..self }
    }

    pub fn element_type(self, element_type: DynamicTypeSpec) -> (r: Self)
        ensures
            r == (DynamicTypeBuilder { element_type: Some(element_type), ..self }),
    {
        DynamicTypeBuilder { element_type: Some(element_type), ..self }
    }

    pub fn key_element_type(self, key_element_type: DynamicTypeSpec) -> (r: Self)
        ensures
            r == (DynamicTypeBuilder { key_element_type: Some(key_element_type), ..self }),
    {
        DynamicTypeBuilder { key_element_type: Some(key_element_type), ..self }
    }

    pub fn final_extensibility(self) -> (r: Self)
        ensures
            r == (DynamicTypeBuilder {
                extensibility: Some(DynamicTypeExtensibility::Final),
                ..self
            }),
    {
        self.extensibility(DynamicTypeExtensibility::Final)
    }

    pub fn appendable(self) -> (r: Self)
        ensures
            r == (DynamicTypeBuilder {
                extensibility: Some(DynamicTypeExtensibility::Appendable),
                ..self
            }),
    {
        self.extensibility(DynamicTypeExtensibility::Appendable)
    }

    pub fn mutable_extensibility(self) -> (r: Self)
        ensures
            r == (DynamicTypeBuilder {
                extensibility: Some(DynamicTypeExtensibility::Mutable),
                ..self
            }),
    {
        self.extensibility(DynamicTypeExtensibility::Mutable)
    }

    pub fn extensibility(self, extensibility: DynamicTypeExtensibility) -> (r: Self)
        ensures
            r == (DynamicTypeBuilder { extensibility: Some(extensibility), ..self }),
    {
        DynamicTypeBuilder { extensibility: Some(extensibility), ..self }
    }

    pub fn autoid_sequential(self) -> (r: Self)
        ensures
            r == (DynamicTypeBuilder { autoid: Some(DynamicTypeAutoId::Sequential), ..self }),
    {
        self.autoid(DynamicTypeAutoId::Sequential)
    }

    pub fn autoid_hash(self) -> (r: Self)
        ensures
            r == (DynamicTypeBuilder { autoid: Some(DynamicTypeAutoId::Hash), ..self }),
    {
        self.autoid(DynamicTypeAutoId::Hash)
    }

    pub fn autoid(self, autoid: DynamicTypeAutoId) -> (r: Self)
        ensures
            r == (DynamicTypeBuilder { autoid: Some(autoid), ..self }),
    {
        DynamicTypeBuilder { autoid: Some(autoid), ..self }
    }

    pub fn nested(self, is_nested: bool) -> (r: Self)
        ensures
            r == (DynamicTypeBuilder { nested: Some(is_nested), ..self }),
    {
        DynamicTypeBuilder { nested: Some(is_nested), ..self }
    }

    pub fn bit_bound(self, bit_bound: u16) -> (r: Self)
        ensures
            r == (DynamicTypeBuilder { bit_bound: Some(bit_bound), ..self }),
    {
        DynamicTypeBuilder { bit_bound: Some(bit_bound), ..self }
    }

    /// The schema of the type this builder describes (see
    /// [`built_schema`]).
    pub fn to_schema(&self) -> (r: DynamicTypeSchema)
        requires
            builder_complete(*self),
        ensures
            r@ == built_schema(*self),
    {
        let name = match &self.name {
            Some(n) => n.clone(),
            None => String::new(),
        };
        match self.kind {
            DynamicTypeKind::Structure => {
                let base = match &self.base_type {
                    Some(b) => Some(Box::new(b.schema_clone())),
                    None => None,
                };
                let r = DynamicTypeSchema::Struct {
                    name,
                    base,
                    fields: Vec::new(),
                    extensibility: self.extensibility,
                    autoid: self.autoid,
                    nested: match self.nested {
                        Some(x) => x,
                        None => false,
                    },
                };
                assert(fields_model(Seq::<DynamicFieldSchema>::empty()) =~= Seq::empty());
                r
            },
            DynamicTypeKind::Enumeration => {
                let r = DynamicTypeSchema::Enum {
                    name,
                    literals: Vec::new(),
                    bit_bound: self.bit_bound,
                };
                assert(literals_model(Seq::<DynamicEnumLiteralSchema>::empty()) =~= Seq::empty());
                r
            },
            DynamicTypeKind::Bitmask => {
                let r = DynamicTypeSchema::Bitmask {
                    name,
                    fields: Vec::new(),
                    bit_bound: self.bit_bound,
                };
                assert(bit_fields_model(Seq::<DynamicBitmaskFieldSchema>::empty()) =~= Seq::empty());
                r
            },
            DynamicTypeKind::Alias => {
                let target = match &self.base_type {
                    Some(b) => b.schema_clone(),
                    None => DynamicTypeSchema::Primitive(DynamicPrimitiveKind::Int8),
                };
                DynamicTypeSchema::Alias { name, target: Box::new(target) }
            },
            DynamicTypeKind::Array => {
                let element = match &self.element_type {
                    Some(b) => b.schema_clone(),
                    None => DynamicTypeSchema::Primitive(DynamicPrimitiveKind::Int8),
                };
                let mut bounds: Vec<u32> = Vec::new();
                let mut i: usize = 0;
                while i < self.bounds.len()
                    invariant
                        0 <= i <= self.bounds@.len(),
                        bounds@ == self.bounds@.take(i as int),
                    decreases self.bounds@.len() - i,
                {
                    bounds.push(self.bounds[i]);
                    i += 1;
                    assert(bounds@ =~= self.bounds@.take(i as int));
                }
                assert(self.bounds@.take(self.bounds@.len() as int) =~= self.bounds@);
                DynamicTypeSchema::Array { name, bounds, element: Box::new(element) }
            },
            DynamicTypeKind::Sequence => {
                let element = match &self.element_type {
                    Some(b) => b.schema_clone(),
                    None => DynamicTypeSchema::Primitive(DynamicPrimitiveKind::Int8),
                };
                let bound = if self.bounds.len() > 0 {
                    Some(self.bounds[0])
                } else {
                    None
                };
                DynamicTypeSchema::Sequence { name, bound, element: Box::new(element) }
            },
            DynamicTypeKind::String8 => {
                let bound = if self.bounds.len() > 0 {
                    Some(self.bounds[0])
                } else {
                    None
                };
                DynamicTypeSchema::String { bound }
            },
            DynamicTypeKind::Union => {
                let discriminator = match &self.discriminator_type {
                    Some(b) => b.schema_clone(),
                    None => DynamicTypeSchema::Primitive(DynamicPrimitiveKind::Int8),
                };
                let r = DynamicTypeSchema::Union {
                    name,
                    discriminator: Box::new(discriminator),
                    cases: Vec::new(),
                    autoid: self.autoid,
                    nested: match self.nested {
                        Some(x) => x,
                        None => false,
                    },
                };
                assert(cases_model(Seq::<DynamicUnionCaseSchema>::empty()) =~= Seq::empty());
                r
            },
            DynamicTypeKind::Mapping => {
                let key = match &self.key_element_type {
                    Some(b) => b.schema_clone(),
                    None => DynamicTypeSchema::Primitive(DynamicPrimitiveKind::Int8),
                };
                let value = match &self.element_type {
                    Some(b) => b.schema_clone(),
                    None => DynamicTypeSchema::Primitive(DynamicPrimitiveKind::Int8),
                };
                let bound = if self.bounds.len() > 0 {
                    Some(self.bounds[0])
                } else {
                    None
                };
                DynamicTypeSchema::Mapping { name, bound, key: Box::new(key), value: Box::new(value) }
            },
        }
    }
}


// ---------------------------------------------------------------------------
// Member builder
// ---------------------------------------------------------------------------

/// The description of a member to add to a struct or union.
#[derive(Debug)]
pub struct DynamicMemberBuilder {
    pub name: String,
    pub id: u32,
    pub type_spec: DynamicTypeSpec,
    pub index: u32,
    pub labels: Vec<i32>,
    pub default_label: bool,
    pub is_key: bool,
    pub is_optional: bool,
    pub is_external: bool,
    pub is_must_understand: bool,
    pub hash_id_name: Option<String>,
}

impl DynamicMemberBuilder {
    /// A member with an automatic id, added at the end, with no labels and
    /// no flags.
    pub fn new(name: &str, type_spec: DynamicTypeSpec) -> (r: Self)
        ensures
            r.name@ == name@ && r.id == DYNAMIC_MEMBER_ID_AUTO && r.type_spec == type_spec,
            r.index == DYNAMIC_MEMBER_INDEX_END && r.labels@.len() == 0 && !r.default_label,
            !r.is_key && !r.is_optional && !r.is_external && !r.is_must_understand,
            r.hash_id_name is None,
    {
        DynamicMemberBuilder {
            name: name.to_owned(),
            id: DYNAMIC_MEMBER_ID_AUTO,
            type_spec,
            index: DYNAMIC_MEMBER_INDEX_END,
            labels: Vec::new(),
            default_label: false,
            is_key: false,
            is_optional: false,
            is_external: false,
            is_must_understand: false,
            hash_id_name: None,
        }
    }

    pub fn primitive(name: &str, kind: DynamicPrimitiveKind) -> (r: Self)
        ensures
            r.name@ == name@ && r.id == DYNAMIC_MEMBER_ID_AUTO,
            r.type_spec == DynamicTypeSpec::Primitive(kind),
            r.index == DYNAMIC_MEMBER_INDEX_END && r.labels@.len() == 0 && !r.default_label,
            !r.is_key && !r.is_optional && !r.is_external && !r.is_must_understand,
            r.hash_id_name is None,
    {
        Self::new(name, DynamicTypeSpec::primitive(kind))
    }

    pub fn id(self, id: u32) -> (r: Self)
        ensures
            r == (DynamicMemberBuilder { id, ..self }),
    {
        DynamicMemberBuilder { id, ..self }
    }

    pub fn at_index(self, index: u32) -> (r: Self)
        ensures
            r == (DynamicMemberBuilder { index, ..self }),
    {
        DynamicMemberBuilder { index, ..self }
    }

    pub fn at_start(self) -> (r: Self)
        ensures
            r == (DynamicMemberBuilder { index: DYNAMIC_MEMBER_INDEX_START, ..self }),
    {
        self.at_index(DYNAMIC_MEMBER_INDEX_START)
    }

    pub fn first(self) -> (r: Self)
        ensures
            r == (DynamicMemberBuilder { index: DYNAMIC_MEMBER_INDEX_START, ..self }),
    {
        self.at_start()
    }

    pub fn at_end(self) -> (r: Self)
        ensures
            r == (DynamicMemberBuilder { index: DYNAMIC_MEMBER_INDEX_END, ..self }),
    {
        self.at_index(DYNAMIC_MEMBER_INDEX_END)
    }

    pub fn last(self) -> (r: Self)
        ensures
            r == (DynamicMemberBuilder { index: DYNAMIC_MEMBER_INDEX_END, ..self }),
    {
        self.at_end()
    }

    pub fn labels(self, labels: &[i32]) -> (r: Self)
        ensures
            r == (DynamicMemberBuilder { labels: r.labels, ..self }),
            r.labels@ == labels@,
    {
        let mut v: Vec<i32> = Vec::new();
        let mut i: usize = 0;
        while i < labels.len()
            invariant
                0 <= i <= labels@.len(),
                v@ == labels@.take(i as int),
            decreases labels@.len() - i,
        {
            v.push(labels[i]);
            i += 1;
            assert(v@ =~= labels@.take(i as int));
        }
        assert(labels@.take(labels@.len() as int) =~= labels@);
        DynamicMemberBuilder { labels: v, ..self }
    }

    /// Marks the member as the default case, dropping its labels.
    pub fn default_label(self) -> (r: Self)
        ensures
            r == (DynamicMemberBuilder { default_label: true, labels: r.labels, ..self }),
            r.labels@.len() == 0,
    {
        DynamicMemberBuilder { default_label: true, labels: Vec::new(), ..self }
    }

    pub fn union_labels(self, labels: &[i32]) -> (r: Self)
        ensures
            r == (DynamicMemberBuilder { labels: r.labels, ..self }),
            r.labels@ == labels@,
    {
        self.labels(labels)
    }

    pub fn union_default(self) -> (r: Self)
        ensures
            r == (DynamicMemberBuilder { default_label: true, labels: r.labels, ..self }),
            r.labels@.len() == 0,
    {
        self.default_label()
    }

    pub fn key(self) -> (r: Self)
        ensures
            r == (DynamicMemberBuilder { is_key: true, ..self }),
    {
        DynamicMemberBuilder { is_key: true, ..self }
    }

    pub fn optional(self) -> (r: Self)
        ensures
            r == (DynamicMemberBuilder { is_optional: true, ..self }),
    {
        DynamicMemberBuilder { is_optional: true, ..self }
    }

    pub fn external(self) -> (r: Self)
        ensures
            r == (DynamicMemberBuilder { is_external: true, ..self }),
    {
        DynamicMemberBuilder { is_external: true, ..self }
    }

    pub fn must_understand(self) -> (r: Self)
        ensures
            r == (DynamicMemberBuilder { is_must_understand: true, ..self }),
    {
        DynamicMemberBuilder { is_must_understand: true, ..self }
    }

    pub fn hash_id(self, hash_id_name: &str) -> (r: Self)
        ensures
            r == (DynamicMemberBuilder { hash_id_name: r.hash_id_name, ..self }),
            r.hash_id_name matches Some(h) && h@ == hash_id_name@,
    {
        DynamicMemberBuilder { hash_id_name: Some(hash_id_name.to_owned()), ..self }
    }
}

// ---------------------------------------------------------------------------
// Built types
// ---------------------------------------------------------------------------

/// What the library knows of a built dynamic type: its schema, which each
/// change to the type updates.
#[derive(Debug)]
pub struct DynamicType {
    schema: DynamicTypeSchema,
}

impl View for DynamicType {
    type V = SchemaModel;

    closed spec fn view(&self) -> SchemaModel {
        self.schema@
    }
}

/// The first field with member id `id`, or -1.
pub open spec fn field_with_id(fs: Seq<FieldModel>, id: u32) -> int
    decreases fs.len(),
{
    if fs.len() == 0 {
        -1
    } else {
        let k = field_with_id(fs.drop_last(), id);
        if k >= 0 {
            k
        } else if fs.last().member_id == id {
            fs.len() - 1
        } else {
            -1
        }
    }
}

/// The first case with member id `id`, or -1.
pub open spec fn case_with_id(cs: Seq<CaseModel>, id: u32) -> int
    decreases cs.len(),
{
    if cs.len() == 0 {
        -1
    } else {
        let k = case_with_id(cs.drop_last(), id);
        if k >= 0 {
            k
        } else if cs.last().member_id == id {
            cs.len() - 1
        } else {
            -1
        }
    }
}

proof fn lemma_field_with_id(fs: Seq<FieldModel>, id: u32)
    ensures
        field_with_id(fs, id) == -1 <==> forall|j: int| 0 <= j < fs.len() ==> fs[j].member_id != id,
        field_with_id(fs, id) != -1 ==> 0 <= field_with_id(fs, id) < fs.len() && fs[field_with_id(fs, id)].member_id == id
            && forall|j: int| 0 <= j < field_with_id(fs, id) ==> fs[j].member_id != id,
    decreases fs.len(),
{
    if fs.len() > 0 {
        lemma_field_with_id(fs.drop_last(), id);
        assert(forall|j: int| 0 <= j < fs.len() - 1 ==> fs.drop_last()[j] == fs[j]);
    }
}

proof fn lemma_case_with_id(cs: Seq<CaseModel>, id: u32)
    ensures
        case_with_id(cs, id) == -1 <==> forall|j: int| 0 <= j < cs.len() ==> cs[j].member_id != id,
        case_with_id(cs, id) != -1 ==> 0 <= case_with_id(cs, id) < cs.len() && cs[case_with_id(cs, id)].member_id == id
            && forall|j: int| 0 <= j < case_with_id(cs, id) ==> cs[j].member_id != id,
    decreases cs.len(),
{
    if cs.len() > 0 {
        lemma_case_with_id(cs.drop_last(), id);
        assert(forall|j: int| 0 <= j < cs.len() - 1 ==> cs.drop_last()[j] == cs[j]);
    }
}

fn field_position_by_id(fs: &Vec<DynamicFieldSchema>, id: u32) -> (r: Option<usize>)
    ensures
        match r {
            Some(i) => i as int == field_with_id(fields_model(fs@), id) && i < fs@.len(),
            None => field_with_id(fields_model(fs@), id) == -1,
        },
{
    let ghost m = fields_model(fs@);
    proof {
        lemma_field_with_id(m, id);
    }
    let mut i: usize = 0;
    while i < fs.len()
        invariant
            0 <= i <= fs@.len(),
            m == fields_model(fs@),
            forall|j: int| 0 <= j < i ==> m[j].member_id != id,
        decreases fs@.len() - i,
    {
        if fs[i].member_id == id {
            proof {
                lemma_field_with_id(m, id);
                let k = field_with_id(m, id);
                assert(m[i as int].member_id == id);
                if k < i {
                    assert(m[k].member_id != id);
                }
                if k > i {
                    assert(m[i as int].member_id != id);
                }
            }
            return Some(i);
        }
        i += 1;
    }
    None
}

fn case_position_by_id(cs: &Vec<DynamicUnionCaseSchema>, id: u32) -> (r: Option<usize>)
    ensures
        match r {
            Some(i) => i as int == case_with_id(cases_model(cs@), id) && i < cs@.len(),
            None => case_with_id(cases_model(cs@), id) == -1,
        },
{
    let ghost m = cases_model(cs@);
    proof {
        lemma_case_with_id(m, id);
    }
    let mut i: usize = 0;
    while i < cs.len()
        invariant
            0 <= i <= cs@.len(),
            m == cases_model(cs@),
            forall|j: int| 0 <= j < i ==> m[j].member_id != id,
        decreases cs@.len() - i,
    {
        if cs[i].member_id == id {
            proof {
                lemma_case_with_id(m, id);
                let k = case_with_id(m, id);
                assert(m[i as int].member_id == id);
                if k < i {
                    assert(m[k].member_id != id);
                }
                if k > i {
                    assert(m[i as int].member_id != id);
                }
            }
            return Some(i);
        }
        i += 1;
    }
    None
}

/// The schema after a struct field chosen by id has been changed by `f`
/// (no change when no field has that id, or for other schemas).
pub open spec fn with_field_by_id(
    s: SchemaModel,
    id: u32,
    f: spec_fn(FieldModel) -> FieldModel,
) -> SchemaModel {
    match s {
        SchemaModel::Struct { name, base, fields, extensibility, autoid, nested } => {
            let k = field_with_id(fields, id);
            if k >= 0 {
                SchemaModel::Struct {
                    name,
                    base,
                    fields: fields.update(k, f(fields[k])),
                    extensibility,
                    autoid,
                    nested,
                }
            } else {
                s
            }
        },
        _ => s,
    }
}

/// The schema after a union case chosen by id has been changed by `f`.
pub open spec fn with_case_by_id(
    s: SchemaModel,
    id: u32,
    f: spec_fn(CaseModel) -> CaseModel,
) -> SchemaModel {
    match s {
        SchemaModel::Union { name, discriminator, cases, autoid, nested } => {
            let k = case_with_id(cases, id);
            if k >= 0 {
                SchemaModel::Union {
                    name,
                    discriminator,
                    cases: cases.update(k, f(cases[k])),
                    autoid,
                    nested,
                }
            } else {
                s
            }
        },
        _ => s,
    }
}

/// The value given to a new enum literal: the explicit one, or one more
/// than the largest value so far (0 for the first literal).
pub open spec fn resolved_literal_value(ls: Seq<LiteralModel>, v: DynamicEnumLiteralValue) -> int {
    match v {
        DynamicEnumLiteralValue::Explicit(x) => x as int,
        DynamicEnumLiteralValue::NextAvailable => max_literal_value(ls) + 1,
    }
}

/// The largest literal value, or -1 when there is none (so that the next
/// available value after no literal is 0).
pub open spec fn max_literal_value(ls: Seq<LiteralModel>) -> int
    decreases ls.len(),
{
    if ls.len() == 0 {
        -1
    } else if ls.len() == 1 {
        ls[0].value as int
    } else {
        let m = max_literal_value(ls.drop_last());
        if ls.last().value as int > m {
            ls.last().value as int
        } else {
            m
        }
    }
}

/// The largest bit position, or `u16::MAX` when there is none.
pub open spec fn max_position(fs: Seq<BitFieldModel>) -> u16
    decreases fs.len(),
{
    if fs.len() == 0 {
        u16::MAX
    } else {
        let m = if fs.len() == 1 {
            fs.last().position
        } else {
            let p = max_position(fs.drop_last());
            if fs.last().position > p {
                fs.last().position
            } else {
                p
            }
        };
        m
    }
}

/// The position given to a new bitmask field: the one asked for, or one
/// past the largest so far (wrapping; 0 for the first field).
pub open spec fn resolved_position(fs: Seq<BitFieldModel>, p: Option<u16>) -> u16 {
    match p {
        Some(x) => x,
        None => if max_position(fs) == u16::MAX {
            0
        } else {
            (max_position(fs) + 1) as u16
        },
    }
}

/// Whether a member's properties need an explicit member id.
pub open spec fn needs_member_id(m: DynamicMemberBuilder) -> bool {
    m.is_key || m.is_optional || m.is_external || m.is_must_understand || m.hash_id_name is Some
}

/// The schema after a member has been added: a field appended to a struct
/// or a case appended to a union, then each property set on the first
/// member with the member's id (a hashed-id name that holds a zero byte is
/// refused, so that step is left out); other schemas are unchanged.
pub open spec fn with_member(s: SchemaModel, m: DynamicMemberBuilder) -> SchemaModel {
    let appended = match s {
        SchemaModel::Struct { name, base, fields, extensibility, autoid, nested } =>
            SchemaModel::Struct {
            name,
            base,
            fields: fields.push(
                FieldModel {
                    name: m.name@,
                    member_id: m.id,
                    value: spec_schema(m.type_spec),
                    optional: m.is_optional,
                    key: m.is_key,
                    external: m.is_external,
                    must_understand: m.is_must_understand,
                    hash_id_name: opt_str_model(m.hash_id_name),
                },
            ),
            extensibility,
            autoid,
            nested,
        },
        SchemaModel::Union { name, discriminator, cases, autoid, nested } => SchemaModel::Union {
            name,
            discriminator,
            cases: cases.push(
                CaseModel {
                    name: m.name@,
                    member_id: m.id,
                    value: spec_schema(m.type_spec),
                    labels: m.labels@,
                    default: m.default_label,
                    external: m.is_external,
                    hash_id_name: opt_str_model(m.hash_id_name),
                },
            ),
            autoid,
            nested,
        },
        _ => s,
    };
    let s1 = if m.is_key {
        with_field_by_id(appended, m.id, |f: FieldModel| FieldModel { key: true, ..f })
    } else {
        appended
    };
    let s2 = if m.is_optional {
        with_field_by_id(s1, m.id, |f: FieldModel| FieldModel { optional: true, ..f })
    } else {
        s1
    };
    let s3 = if m.is_external {
        external_set(s2, m.id, true)
    } else {
        s2
    };
    let s4 = if m.is_must_understand {
        with_field_by_id(s3, m.id, |f: FieldModel| FieldModel { must_understand: true, ..f })
    } else {
        s3
    };
    match m.hash_id_name {
        Some(h) => if text_has_nul(h@) {
            s4
        } else {
            hash_id_set(s4, m.id, h@)
        },
        None => s4,
    }
}

/// The schema after the external flag of member `id` was set to `v`.
pub open spec fn external_set(s: SchemaModel, id: u32, v: bool) -> SchemaModel {
    match s {
        SchemaModel::Struct { .. } => with_field_by_id(
            s,
            id,
            |f: FieldModel| FieldModel { external: v, ..f },
        ),
        SchemaModel::Union { .. } => with_case_by_id(
            s,
            id,
            |c: CaseModel| CaseModel { external: v, ..c },
        ),
        _ => s,
    }
}

/// The schema after the hashed-id name of member `id` was set to `h`.
pub open spec fn hash_id_set(s: SchemaModel, id: u32, h: Seq<char>) -> SchemaModel {
    match s {
        SchemaModel::Struct { .. } => with_field_by_id(
            s,
            id,
            |f: FieldModel| FieldModel { hash_id_name: Some(h), ..f },
        ),
        SchemaModel::Union { .. } => with_case_by_id(
            s,
            id,
            |c: CaseModel| CaseModel { hash_id_name: Some(h), ..c },
        ),
        _ => s,
    }
}


impl DynamicType {
    /// The type a complete builder describes (see [`built_schema`]); a name
    /// whose UTF-8 bytes hold a zero byte is refused with `BadParameter`.
    pub fn create(builder: DynamicTypeBuilder) -> (r: DdsResult<Self>)
        requires
            builder_complete(builder),
        ensures
            name_has_nul(builder.name) ==> (r matches Err(DdsError::BadParameter(m))
                && m@ == "dynamic type name contains null"@),
            !name_has_nul(builder.name) ==> (r matches Ok(t) && t@ == built_schema(builder)),
    {
        let schema = builder.to_schema();
        let refused = match &builder.name {
            Some(n) => has_nul(n.as_str()),
            None => false,
        };
        if refused {
            return Err(DdsError::BadParameter("dynamic type name contains null".to_owned()));
        }
        Ok(DynamicType { schema })
    }

    /// An independent copy of this type.
    pub fn duplicate(&self) -> (r: Self)
        ensures
            r@ == self@,
    {
        DynamicType { schema: self.schema.clone() }
    }

    /// This type as a member or element type of another.
    pub fn as_spec(&self) -> (r: DynamicTypeSpec)
        ensures
            spec_schema(r) == self@,
    {
        DynamicTypeSpec::from_type(self)
    }

    /// The schema of this type.
    pub fn schema(&self) -> (r: &DynamicTypeSchema)
        ensures
            r@ == self@,
    {
        &self.schema
    }

    /// Sets a struct's extensibility (other kinds keep none in their
    /// schema).
    pub fn set_extensibility(&mut self, extensibility: DynamicTypeExtensibility) -> (r: DdsResult<()>)
        ensures
            r is Ok,
            final(self)@ == match old(self)@ {
                SchemaModel::Struct { name, base, fields, autoid, nested, .. } => SchemaModel::Struct {
                    name,
                    base,
                    fields,
                    extensibility: Some(extensibility),
                    autoid,
                    nested,
                },
                other => other,
            },
    {
        match &mut self.schema {
            DynamicTypeSchema::Struct { extensibility: current, .. } => {
                *current = Some(extensibility);
            },
            _ => {},
        }
        Ok(())
    }

    /// Sets the member-id assignment of a struct or union.
    pub fn set_autoid(&mut self, autoid: DynamicTypeAutoId) -> (r: DdsResult<()>)
        ensures
            r is Ok,
            final(self)@ == match old(self)@ {
                SchemaModel::Struct { name, base, fields, extensibility, nested, .. } =>
                    SchemaModel::Struct {
                    name,
                    base,
                    fields,
                    extensibility,
                    autoid: Some(autoid),
                    nested,
                },
                SchemaModel::Union { name, discriminator, cases, nested, .. } => SchemaModel::Union {
                    name,
                    discriminator,
                    cases,
                    autoid: Some(autoid),
                    nested,
                },
                other => other,
            },
    {
        match &mut self.schema {
            DynamicTypeSchema::Struct { autoid: current, .. } => {
                *current = Some(autoid);
            },
            DynamicTypeSchema::Union { autoid: current, .. } => {
                *current = Some(autoid);
            },
            _ => {},
        }
        Ok(())
    }

    /// Marks a struct or union as nested (or not).
    pub fn set_nested(&mut self, is_nested: bool) -> (r: DdsResult<()>)
        ensures
            r is Ok,
            final(self)@ == match old(self)@ {
                SchemaModel::Struct { name, base, fields, extensibility, autoid, .. } =>
                    SchemaModel::Struct { name, base, fields, extensibility, autoid, nested: is_nested },
                SchemaModel::Union { name, discriminator, cases, autoid, .. } => SchemaModel::Union {
                    name,
                    discriminator,
                    cases,
                    autoid,
                    nested: is_nested,
                },
                other => other,
            },
    {
        match &mut self.schema {
            DynamicTypeSchema::Struct { nested, .. } => {
                *nested = is_nested;
            },
            DynamicTypeSchema::Union { nested, .. } => {
                *nested = is_nested;
            },
            _ => {},
        }
        Ok(())
    }

    /// Sets the bit bound of an enum or bitmask.
    pub fn set_bit_bound(&mut self, bit_bound: u16) -> (r: DdsResult<()>)
        ensures
            r is Ok,
            final(self)@ == match old(self)@ {
                SchemaModel::Enum { name, literals, .. } => SchemaModel::Enum {
                    name,
                    literals,
                    bit_bound: Some(bit_bound),
                },
                SchemaModel::Bitmask { name, fields, .. } => SchemaModel::Bitmask {
                    name,
                    fields,
                    bit_bound: Some(bit_bound),
                },
                other => other,
            },
    {
        match &mut self.schema {
            DynamicTypeSchema::Enum { bit_bound: current, .. } => {
                *current = Some(bit_bound);
            },
            DynamicTypeSchema::Bitmask { bit_bound: current, .. } => {
                *current = Some(bit_bound);
            },
            _ => {},
        }
        Ok(())
    }

    /// Sets the key flag of the struct field with the given member id.
    pub fn set_member_key(&mut self, member_id: u32, is_key: bool) -> (r: DdsResult<()>)
        ensures
            r is Ok,
            final(self)@ == with_field_by_id(
                old(self)@,
                member_id,
                |f: FieldModel| FieldModel { key: is_key, ..f },
            ),
    {
        if let DynamicTypeSchema::Struct { fields, .. } = &mut self.schema {
            if let Some(k) = field_position_by_id(fields, member_id) {
                let mut f = fields[k].clone();
                f.key = is_key;
                fields.set(k, f);
                assert(fields_model(fields@) =~= fields_model(old(self).schema->Struct_fields@).update(
                    k as int,
                    FieldModel { key: is_key, ..fields_model(old(self).schema->Struct_fields@)[k as int] },
                ));
            }
        }
        Ok(())
    }

    /// Sets the optional flag of the struct field with the given member id.
    pub fn set_member_optional(&mut self, member_id: u32, is_optional: bool) -> (r: DdsResult<()>)
        ensures
            r is Ok,
            final(self)@ == with_field_by_id(
                old(self)@,
                member_id,
                |f: FieldModel| FieldModel { optional: is_optional, ..f },
            ),
    {
        if let DynamicTypeSchema::Struct { fields, .. } = &mut self.schema {
            if let Some(k) = field_position_by_id(fields, member_id) {
                let mut f = fields[k].clone();
                f.optional = is_optional;
                fields.set(k, f);
                assert(fields_model(fields@) =~= fields_model(old(self).schema->Struct_fields@).update(
                    k as int,
                    FieldModel {
                        optional: is_optional,
                        ..fields_model(old(self).schema->Struct_fields@)[k as int]
                    },
                ));
            }
        }
        Ok(())
    }

    /// Sets the must-understand flag of the struct field with the given
    /// member id.
    pub fn set_member_must_understand(&mut self, member_id: u32, is_must_understand: bool) -> (r: DdsResult<()>)
        ensures
            r is Ok,
            final(self)@ == with_field_by_id(
                old(self)@,
                member_id,
                |f: FieldModel| FieldModel { must_understand: is_must_understand, ..f },
            ),
    {
        if let DynamicTypeSchema::Struct { fields, .. } = &mut self.schema {
            if let Some(k) = field_position_by_id(fields, member_id) {
                let mut f = fields[k].clone();
                f.must_understand = is_must_understand;
                fields.set(k, f);
                assert(fields_model(fields@) =~= fields_model(old(self).schema->Struct_fields@).update(
                    k as int,
                    FieldModel {
                        must_understand: is_must_understand,
                        ..fields_model(old(self).schema->Struct_fields@)[k as int]
                    },
                ));
            }
        }
        Ok(())
    }

    /// Sets the external flag of the struct field or union case with the
    /// given member id.
    pub fn set_member_external(&mut self, member_id: u32, is_external: bool) -> (r: DdsResult<()>)
        ensures
            r is Ok,
            final(self)@ == external_set(old(self)@, member_id, is_external),
    {
        match &mut self.schema {
            DynamicTypeSchema::Struct { fields, .. } => {
                if let Some(k) = field_position_by_id(fields, member_id) {
                    let mut f = fields[k].clone();
                    f.external = is_external;
                    fields.set(k, f);
                    assert(fields_model(fields@) =~= fields_model(
                        old(self).schema->Struct_fields@,
                    ).update(
                        k as int,
                        FieldModel {
                            external: is_external,
                            ..fields_model(old(self).schema->Struct_fields@)[k as int]
                        },
                    ));
                }
            },
            DynamicTypeSchema::Union { cases, .. } => {
                if let Some(k) = case_position_by_id(cases, member_id) {
                    let mut c = cases[k].clone();
                    c.external = is_external;
                    cases.set(k, c);
                    assert(cases_model(cases@) =~= cases_model(old(self).schema->Union_cases@).update(
                        k as int,
                        CaseModel {
                            external: is_external,
                            ..cases_model(old(self).schema->Union_cases@)[k as int]
                        },
                    ));
                }
            },
            _ => {},
        }
        Ok(())
    }

    /// Sets the hashed-id name of the struct field or union case with the
    /// given member id.
    pub fn set_member_hash_id(&mut self, member_id: u32, hash_name: &str) -> (r: DdsResult<()>)
        ensures
            text_has_nul(hash_name@) ==> (r matches Err(DdsError::BadParameter(m))
                && m@ == "hash member name contains null"@ && final(self)@ == old(self)@),
            !text_has_nul(hash_name@) ==> (r is Ok && final(self)@ == hash_id_set(
                old(self)@,
                member_id,
                hash_name@,
            )),
    {
        if has_nul(hash_name) {
            return Err(DdsError::BadParameter("hash member name contains null".to_owned()));
        }
        match &mut self.schema {
            DynamicTypeSchema::Struct { fields, .. } => {
                if let Some(k) = field_position_by_id(fields, member_id) {
                    let mut f = fields[k].clone();
                    f.hash_id_name = Some(hash_name.to_owned());
                    fields.set(k, f);
                    assert(fields_model(fields@) =~= fields_model(
                        old(self).schema->Struct_fields@,
                    ).update(
                        k as int,
                        FieldModel {
                            hash_id_name: Some(hash_name@),
                            ..fields_model(old(self).schema->Struct_fields@)[k as int]
                        },
                    ));
                }
            },
            DynamicTypeSchema::Union { cases, .. } => {
                if let Some(k) = case_position_by_id(cases, member_id) {
                    let mut c = cases[k].clone();
                    c.hash_id_name = Some(hash_name.to_owned());
                    cases.set(k, c);
                    assert(cases_model(cases@) =~= cases_model(old(self).schema->Union_cases@).update(
                        k as int,
                        CaseModel {
                            hash_id_name: Some(hash_name@),
                            ..cases_model(old(self).schema->Union_cases@)[k as int]
                        },
                    ));
                }
            },
            _ => {},
        }
        Ok(())
    }
}


fn max_literal(ls: &Vec<DynamicEnumLiteralSchema>) -> (r: i64)
    ensures
        r == max_literal_value(literals_model(ls@)),
{
    let ghost m = literals_model(ls@);
    let mut best: i64 = -1;
    let mut i: usize = 0;
    while i < ls.len()
        invariant
            0 <= i <= ls@.len(),
            m == literals_model(ls@),
            best == max_literal_value(m.take(i as int)),
        decreases ls@.len() - i,
    {
        assert(m.take(i as int + 1).drop_last() =~= m.take(i as int));
        let v = ls[i].value as i64;
        if i == 0 || v > best {
            best = v;
        }
        i += 1;
    }
    assert(m.take(ls@.len() as int) =~= m);
    best
}

fn max_bit_position(fs: &Vec<DynamicBitmaskFieldSchema>) -> (r: u16)
    ensures
        r == max_position(bit_fields_model(fs@)),
{
    let ghost m = bit_fields_model(fs@);
    if fs.len() == 0 {
        return u16::MAX;
    }
    let mut best: u16 = fs[0].position;
    assert(m.take(1) =~= seq![m[0]]);
    let mut i: usize = 1;
    while i < fs.len()
        invariant
            1 <= i <= fs@.len(),
            m == bit_fields_model(fs@),
            best == max_position(m.take(i as int)),
        decreases fs@.len() - i,
    {
        assert(m.take(i as int + 1).drop_last() =~= m.take(i as int));
        let p = fs[i].position;
        if p > best {
            best = p;
        }
        i += 1;
    }
    assert(m.take(fs@.len() as int) =~= m);
    best
}

impl DynamicType {
    /// Adds a member: a field to a struct, a case to a union. Properties
    /// (key, optional, external, must-understand, hashed id) are refused
    /// with `BadParameter` on a member whose id is automatic, and the type
    /// is then left as it was.
    pub fn add_member(&mut self, member: DynamicMemberBuilder) -> (r: DdsResult<()>)
        ensures
            text_has_nul(member.name@) ==> (r matches Err(DdsError::BadParameter(m))
                && m@ == "dynamic member name contains null"@ && final(self)@ == old(self)@),
            !text_has_nul(member.name@) && needs_member_id(member) && member.id
                == DYNAMIC_MEMBER_ID_AUTO ==> (r matches Err(DdsError::BadParameter(m)) && m@
                == "dynamic member properties require an explicit member id"@ && final(self)@
                == old(self)@),
            !text_has_nul(member.name@) && !(needs_member_id(member) && member.id
                == DYNAMIC_MEMBER_ID_AUTO) ==> final(self)@ == with_member(old(self)@, member)
                && (r is Ok <==> !name_has_nul(member.hash_id_name)),
            r matches Err(e) ==> e is BadParameter,
    {
        if has_nul(member.name.as_str()) {
            return Err(DdsError::BadParameter("dynamic member name contains null".to_owned()));
        }
        let needs_id = member.is_key || member.is_optional || member.is_external
            || member.is_must_understand || member.hash_id_name.is_some();
        if needs_id && member.id == DYNAMIC_MEMBER_ID_AUTO {
            return Err(
                DdsError::BadParameter(
                    "dynamic member properties require an explicit member id".to_owned(),
                ),
            );
        }
        let ghost m = member;
        let DynamicMemberBuilder {
            name,
            id,
            type_spec,
            index: _,
            labels,
            default_label,
            is_key,
            is_optional,
            is_external,
            is_must_understand,
            hash_id_name,
        } = member;
        let value_schema = type_spec.schema_clone();
        let hash_copy = match &hash_id_name {
            Some(h) => Some(h.clone()),
            None => None,
        };
        match &mut self.schema {
            DynamicTypeSchema::Struct { fields, .. } => {
                let ghost before = fields_model(fields@);
                let f = DynamicFieldSchema {
                    name,
                    member_id: id,
                    value: value_schema,
                    optional: is_optional,
                    key: is_key,
                    external: is_external,
                    must_understand: is_must_understand,
                    hash_id_name: hash_copy,
                };
                let ghost fm = field_model(f);
                fields.push(f);
                assert(fields_model(fields@) =~= before.push(fm));
            },
            DynamicTypeSchema::Union { cases, .. } => {
                let ghost before = cases_model(cases@);
                let c = DynamicUnionCaseSchema {
                    name,
                    member_id: id,
                    value: value_schema,
                    labels,
                    default: default_label,
                    external: is_external,
                    hash_id_name: hash_copy,
                };
                let ghost cm = case_model(c);
                cases.push(c);
                assert(cases_model(cases@) =~= before.push(cm));
            },
            _ => {},
        }
        if is_key {
            let _ = self.set_member_key(id, true);
        }
        if is_optional {
            let _ = self.set_member_optional(id, true);
        }
        if is_external {
            let _ = self.set_member_external(id, true);
        }
        if is_must_understand {
            let _ = self.set_member_must_understand(id, true);
        }
        if let Some(h) = hash_id_name {
            let set = self.set_member_hash_id(id, h.as_str());
            if set.is_err() {
                return set;
            }
        }
        Ok(())
    }

    /// Adds a literal to an enum, with the explicit value or the next one
    /// after the largest so far.
    pub fn add_enum_literal(&mut self, name: &str, value: DynamicEnumLiteralValue, is_default: bool) -> (r: DdsResult<()>)
        requires
            old(self)@ matches SchemaModel::Enum { literals, .. } ==> resolved_literal_value(
                literals,
                value,
            ) <= i32::MAX,
        ensures
            text_has_nul(name@) ==> (r matches Err(DdsError::BadParameter(m))
                && m@ == "enum literal name contains null"@ && final(self)@ == old(self)@),
            !text_has_nul(name@) ==> r is Ok,
            !text_has_nul(name@) ==> final(self)@ == match old(self)@ {
                SchemaModel::Enum { name: n, literals, bit_bound } => SchemaModel::Enum {
                    name: n,
                    literals: literals.push(
                        LiteralModel {
                            name: name@,
                            value: resolved_literal_value(literals, value) as i32,
                            default: is_default,
                        },
                    ),
                    bit_bound,
                },
                other => other,
            },
    {
        if has_nul(name) {
            return Err(DdsError::BadParameter("enum literal name contains null".to_owned()));
        }
        if let DynamicTypeSchema::Enum { literals, .. } = &mut self.schema {
            let resolved: i32 = match value {
                DynamicEnumLiteralValue::Explicit(v) => v,
                DynamicEnumLiteralValue::NextAvailable => (max_literal(literals) + 1) as i32,
            };
            let ghost before = literals_model(literals@);
            literals.push(
                DynamicEnumLiteralSchema { name: name.to_owned(), value: resolved, default: is_default },
            );
            assert(literals_model(literals@) =~= before.push(
                LiteralModel { name: name@, value: resolved, default: is_default },
            ));
        }
        Ok(())
    }

    /// Adds a named bit to a bitmask, at the given position or one past the
    /// largest so far.
    pub fn add_bitmask_field(&mut self, name: &str, position: Option<u16>) -> (r: DdsResult<()>)
        ensures
            text_has_nul(name@) ==> (r matches Err(DdsError::BadParameter(m))
                && m@ == "bitmask field name contains null"@ && final(self)@ == old(self)@),
            !text_has_nul(name@) ==> r is Ok,
            !text_has_nul(name@) ==> final(self)@ == match old(self)@ {
                SchemaModel::Bitmask { name: n, fields, bit_bound } => SchemaModel::Bitmask {
                    name: n,
                    fields: fields.push(
                        BitFieldModel { name: name@, position: resolved_position(fields, position) },
                    ),
                    bit_bound,
                },
                other => other,
            },
    {
        if has_nul(name) {
            return Err(DdsError::BadParameter("bitmask field name contains null".to_owned()));
        }
        if let DynamicTypeSchema::Bitmask { fields, .. } = &mut self.schema {
            let resolved: u16 = match position {
                Some(p) => p,
                None => {
                    let m = max_bit_position(fields);
                    if m == u16::MAX {
                        0
                    } else {
                        m + 1
                    }
                },
            };
            let ghost before = bit_fields_model(fields@);
            fields.push(DynamicBitmaskFieldSchema { name: name.to_owned(), position: resolved });
            assert(bit_fields_model(fields@) =~= before.push(
                BitFieldModel { name: name@, position: resolved },
            ));
        }
        Ok(())
    }
}


/// The schema of a builder is of the builder's kind and carries what was
/// given to it: the name (empty when none was given), for a string,
/// sequence or map the first of its bounds (unbounded when none was given),
/// for an array all of its bounds, and the element, key, value, target and
/// discriminator types that were set.
pub proof fn law_built_schema_follows_builder(b: DynamicTypeBuilder)
    ensures
        ({
            let name = match b.name {
                Some(n) => n@,
                None => Seq::<char>::empty(),
            };
            let bound = if b.bounds@.len() > 0 {
                Some(b.bounds@[0])
            } else {
                None
            };
            &&& b.kind == DynamicTypeKind::Mapping ==> built_schema(b) == SchemaModel::Mapping {
                name,
                bound,
                key: Box::new(spec_schema(b.key_element_type.unwrap())),
                value: Box::new(spec_schema(b.element_type.unwrap())),
            }
            &&& b.kind == DynamicTypeKind::Sequence ==> built_schema(b) == SchemaModel::Sequence {
                name,
                bound,
                element: Box::new(spec_schema(b.element_type.unwrap())),
            }
            &&& b.kind == DynamicTypeKind::String8 ==> built_schema(b) == SchemaModel::String { bound }
            &&& b.kind == DynamicTypeKind::Array ==> built_schema(b) == SchemaModel::Array {
                name,
                bounds: b.bounds@,
                element: Box::new(spec_schema(b.element_type.unwrap())),
            }
            &&& b.kind == DynamicTypeKind::Alias ==> built_schema(b) == SchemaModel::Alias {
                name,
                target: Box::new(spec_schema(b.base_type.unwrap())),
            }
            &&& b.kind == DynamicTypeKind::Union ==> built_schema(b) is Union
                && built_schema(b)->Union_name == name
                && built_schema(b)->Union_cases.len() == 0
                && *built_schema(b)->Union_discriminator == spec_schema(b.discriminator_type.unwrap())
            &&& b.kind == DynamicTypeKind::Structure ==> built_schema(b) is Struct
                && built_schema(b)->Struct_name == name
                && built_schema(b)->Struct_fields.len() == 0
                && built_schema(b)->Struct_extensibility == b.extensibility
            &&& b.kind == DynamicTypeKind::Enumeration ==> built_schema(b) is Enum
                && built_schema(b)->Enum_name == name
                && built_schema(b)->Enum_literals.len() == 0
                && built_schema(b)->Enum_bit_bound == b.bit_bound
            &&& b.kind == DynamicTypeKind::Bitmask ==> built_schema(b) is Bitmask
                && built_schema(b)->Bitmask_name == name
                && built_schema(b)->Bitmask_fields.len() == 0
                && built_schema(b)->Bitmask_bit_bound == b.bit_bound
        }),
{
}


/// The largest literal value is one of the values and no value exceeds it.
proof fn lemma_max_literal_value(ls: Seq<LiteralModel>)
    ensures
        forall|j: int| 0 <= j < ls.len() ==> (#[trigger] ls[j]).value <= max_literal_value(ls),
        ls.len() > 0 ==> exists|j: int| 0 <= j < ls.len() && (#[trigger] ls[j]).value == max_literal_value(ls),
        ls.len() == 0 ==> max_literal_value(ls) == -1,
    decreases ls.len(),
{
    if ls.len() == 1 {
        assert(ls[0] == ls.last());
    } else if ls.len() > 1 {
        let d = ls.drop_last();
        lemma_max_literal_value(d);
        assert forall|j: int| 0 <= j < ls.len() implies (#[trigger] ls[j]).value <= max_literal_value(ls) by {
            if j < ls.len() - 1 {
                assert(ls[j] == d[j]);
            }
        }
        if ls.last().value as int > max_literal_value(d) {
            assert(ls[ls.len() - 1].value == max_literal_value(ls));
        } else {
            let j = choose|j: int| 0 <= j < d.len() && (#[trigger] d[j]).value == max_literal_value(d);
            assert(ls[j] == d[j]);
        }
    }
}

/// A literal added with the next available value gets a value above every
/// value so far: 0 for the first literal, else one more than the largest
/// (negative values included).
/// An explicit value is kept as given.
pub proof fn law_next_literal_value(ls: Seq<LiteralModel>, v: DynamicEnumLiteralValue)
    ensures
        v matches DynamicEnumLiteralValue::Explicit(x) ==> resolved_literal_value(ls, v) == x,
        v is NextAvailable ==> forall|j: int| 0 <= j < ls.len() ==> (#[trigger] ls[j]).value < resolved_literal_value(ls, v),
        v is NextAvailable && ls.len() == 0 ==> resolved_literal_value(ls, v) == 0,
        v is NextAvailable && ls.len() > 0 ==> exists|j: int|
            0 <= j < ls.len() && resolved_literal_value(ls, v) == (#[trigger] ls[j]).value + 1,
{
    lemma_max_literal_value(ls);
}

/// The largest bit position is one of the positions and none exceeds it.
proof fn lemma_max_position(fs: Seq<BitFieldModel>)
    ensures
        fs.len() > 0 ==> forall|j: int| 0 <= j < fs.len() ==> (#[trigger] fs[j]).position <= max_position(fs),
        fs.len() > 0 ==> exists|j: int| 0 <= j < fs.len() && (#[trigger] fs[j]).position == max_position(fs),
    decreases fs.len(),
{
    if fs.len() > 1 {
        let d = fs.drop_last();
        lemma_max_position(d);
        assert forall|j: int| 0 <= j < fs.len() implies (#[trigger] fs[j]).position <= max_position(fs) by {
            if j < fs.len() - 1 {
                assert(fs[j] == d[j]);
            }
        }
        if fs.last().position > max_position(d) {
            assert(fs[fs.len() - 1].position == max_position(fs));
        } else {
            let j = choose|j: int| 0 <= j < d.len() && (#[trigger] d[j]).position == max_position(d);
            assert(fs[j] == d[j]);
        }
    } else if fs.len() == 1 {
        assert(fs[0] == fs.last());
    }
}

/// A bitmask field added without a position goes one past the largest
/// position so far (0 for the first field, and 0 again when the largest is
/// `u16::MAX`); one added with a position keeps it.
pub proof fn law_next_bit_position(fs: Seq<BitFieldModel>, p: Option<u16>)
    ensures
        p matches Some(x) ==> resolved_position(fs, p) == x,
        p is None && fs.len() == 0 ==> resolved_position(fs, p) == 0,
        p is None && fs.len() > 0 && (forall|j: int| 0 <= j < fs.len() ==> (#[trigger] fs[j]).position < u16::MAX)
            ==> (forall|j: int| 0 <= j < fs.len() ==> (#[trigger] fs[j]).position < resolved_position(fs, p))
            && exists|j: int| 0 <= j < fs.len() && resolved_position(fs, p) == (#[trigger] fs[j]).position + 1,
        p is None && (exists|j: int| 0 <= j < fs.len() && (#[trigger] fs[j]).position == u16::MAX)
            ==> resolved_position(fs, p) == 0,
{
    lemma_max_position(fs);
    if p is None && fs.len() > 0 {
        let j = choose|j: int| 0 <= j < fs.len() && (#[trigger] fs[j]).position == max_position(fs);
        if exists|i: int| 0 <= i < fs.len() && (#[trigger] fs[i]).position == u16::MAX {
            let i = choose|i: int| 0 <= i < fs.len() && (#[trigger] fs[i]).position == u16::MAX;
            assert(fs[i].position <= max_position(fs));
        }
    }
}


/// A member with an id that no field of a struct has yet is added as one
/// more field at the end, with the member's name, id, type and properties;
/// the struct's other fields and attributes stay as they were.
pub proof fn law_member_added_to_struct(s: SchemaModel, m: DynamicMemberBuilder)
    requires
        s is Struct,
        forall|j: int| 0 <= j < s->Struct_fields.len() ==> (#[trigger] s->Struct_fields[j]).member_id != m.id,
    ensures
        ({
            let r = with_member(s, m);
            let fs = s->Struct_fields;
            &&& r is Struct
            &&& r->Struct_name == s->Struct_name
            &&& r->Struct_base == s->Struct_base
            &&& r->Struct_extensibility == s->Struct_extensibility
            &&& r->Struct_autoid == s->Struct_autoid
            &&& r->Struct_nested == s->Struct_nested
            &&& r->Struct_fields.len() == fs.len() + 1
            &&& forall|j: int| 0 <= j < fs.len() ==> r->Struct_fields[j] == #[trigger] fs[j]
            &&& r->Struct_fields[fs.len() as int] == (FieldModel {
                name: m.name@,
                member_id: m.id,
                value: spec_schema(m.type_spec),
                optional: m.is_optional,
                key: m.is_key,
                external: m.is_external,
                must_understand: m.is_must_understand,
                hash_id_name: match m.hash_id_name {
                    Some(h) => Some(h@),
                    None => None,
                },
            })
        }),
{
    let fs = s->Struct_fields;
    let f0 = FieldModel {
        name: m.name@,
        member_id: m.id,
        value: spec_schema(m.type_spec),
        optional: m.is_optional,
        key: m.is_key,
        external: m.is_external,
        must_understand: m.is_must_understand,
        hash_id_name: opt_str_model(m.hash_id_name),
    };
    let fs1 = fs.push(f0);
    lemma_field_with_id(fs1, m.id);
    let k = field_with_id(fs1, m.id);
    assert(fs1[fs.len() as int].member_id == m.id);
    assert(k == fs.len()) by {
        if k == -1 {
            assert(fs1[fs.len() as int].member_id != m.id);
        } else if k < fs.len() {
            assert(fs1[k] == fs[k]);
        }
    }
    assert(fs1.update(k, FieldModel { key: true, ..fs1[k] }) =~= fs1 || !m.is_key);
    assert(fs1.update(k, FieldModel { optional: true, ..fs1[k] }) =~= fs1 || !m.is_optional);
    assert(fs1.update(k, FieldModel { external: true, ..fs1[k] }) =~= fs1 || !m.is_external);
    assert(fs1.update(k, FieldModel { must_understand: true, ..fs1[k] }) =~= fs1 || !m.is_must_understand);
    if let Some(h) = m.hash_id_name {
        assert(fs1.update(k, FieldModel { hash_id_name: Some(h@), ..fs1[k] }) =~= fs1);
    }
    let r = with_member(s, m);
    assert(r->Struct_fields =~= fs1);
}

/// A member with an id that no case of a union has yet is added as one
/// more case at the end, with the member's name, id, type, labels, default
/// flag, external flag and hashed-id name; the union's other cases and
/// attributes stay as they were.
pub proof fn law_member_added_to_union(s: SchemaModel, m: DynamicMemberBuilder)
    requires
        s is Union,
        forall|j: int| 0 <= j < s->Union_cases.len() ==> (#[trigger] s->Union_cases[j]).member_id != m.id,
    ensures
        ({
            let r = with_member(s, m);
            let cs = s->Union_cases;
            &&& r is Union
            &&& r->Union_name == s->Union_name
            &&& r->Union_discriminator == s->Union_discriminator
            &&& r->Union_autoid == s->Union_autoid
            &&& r->Union_nested == s->Union_nested
            &&& r->Union_cases.len() == cs.len() + 1
            &&& forall|j: int| 0 <= j < cs.len() ==> r->Union_cases[j] == #[trigger] cs[j]
            &&& r->Union_cases[cs.len() as int] == (CaseModel {
                name: m.name@,
                member_id: m.id,
                value: spec_schema(m.type_spec),
                labels: m.labels@,
                default: m.default_label,
                external: m.is_external,
                hash_id_name: match m.hash_id_name {
                    Some(h) => Some(h@),
                    None => None,
                },
            })
        }),
{
    let cs = s->Union_cases;
    let c0 = CaseModel {
        name: m.name@,
        member_id: m.id,
        value: spec_schema(m.type_spec),
        labels: m.labels@,
        default: m.default_label,
        external: m.is_external,
        hash_id_name: opt_str_model(m.hash_id_name),
    };
    let cs1 = cs.push(c0);
    lemma_case_with_id(cs1, m.id);
    let k = case_with_id(cs1, m.id);
    assert(cs1[cs.len() as int].member_id == m.id);
    assert(k == cs.len()) by {
        if k == -1 {
            assert(cs1[cs.len() as int].member_id != m.id);
        } else if k < cs.len() {
            assert(cs1[k] == cs[k]);
        }
    }
    assert(cs1.update(k, CaseModel { external: true, ..cs1[k] }) =~= cs1 || !m.is_external);
    if let Some(h) = m.hash_id_name {
        assert(cs1.update(k, CaseModel { hash_id_name: Some(h@), ..cs1[k] }) =~= cs1);
    }
    let r = with_member(s, m);
    assert(r->Union_cases =~= cs1);
}

} // verus!
