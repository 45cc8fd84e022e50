//! The JSON form of inferred value shapes: encoding a counted shape tree as
//! a JSON document and decoding it back. The JSON document is modeled as an
//! explicit tree of plain values, with object fields in writing order.

use vstd::prelude::*;

verus! {

/// A JSON document, as far as shape serialization reads and writes one.
#[derive(PartialEq, Eq, Debug)]
pub enum Json {
    Bool(bool),
    U64(u64),
    String(String),
    Array(Vec<Json>),
    Object(Vec<(String, Json)>),
}

/// One field of an object shape: the shape of its values, and whether the
/// field may be absent.
#[derive(PartialEq, Eq, Debug)]
pub struct ObjectField {
    pub value_shape: CountedShape,
    pub optional: bool,
}

/// A shape annotated with how many values it counts.
#[derive(PartialEq, Eq, Debug)]
pub struct CountedShape {
    pub num_values: u64,
    pub variant: Box<CountedShapeEnum>,
}

/// The variants a counted shape can take.
#[derive(PartialEq, Eq, Debug)]
pub enum CountedShapeEnum {
    Never,
    Null,
    Int64,
    Float64,
    NegativeInf,
    PositiveInf,
    NegativeZero,
    NaN,
    NormalFloat64,
    Boolean,
    /// A literal string. A real inference additionally folds certain
    /// literals into more specific shapes; which ones is the engine's own
    /// rule, not modeled here, so well-formedness accepts every literal.
    StringLiteral { literal: String },
    /// Values of one table's id type. A well-formed shape names a real
    /// table, and no table carries the number zero.
    Id { table_number: u32 },
    FieldName,
    String,
    Bytes,
    Array { element: CountedShape },
    SetOf { element: CountedShape },
    MapOf { key: CountedShape, value: CountedShape },
    Object { fields: Vec<(String, ObjectField)> },
    Record { field: CountedShape, value: CountedShape },
    /// One of several shapes. A well-formed union has at least two members;
    /// a real inference additionally keeps its members merged and distinct,
    /// which is not modeled here, so any such list is accepted.
    Union { types: Vec<CountedShape> },
    Unknown,
}

/// A JSON object of exactly one field, `kind`, naming a variant.
pub open spec fn kind_only_json(j: Json, kind: Seq<char>) -> bool {
    j matches Json::Object(fields) && fields@.len() == 1 && fields@[0].0@ == "kind"@
        && (fields@[0].1 matches Json::String(s) && s@ == kind)
}

/// The shape's JSON form, related to the shape it encodes: a two-field
/// object with the count under `numValues` and the variant under `variant`.
pub open spec fn shape_matches_json(s: CountedShape, pii: bool, opt: bool, j: Json) -> bool
    decreases s,
{
    j matches Json::Object(fields) && fields@.len() == 2 && fields@[0].0@ == "numValues"@
        && fields@[0].1 == Json::U64(s.num_values) && fields@[1].0@ == "variant"@
        && variant_matches_json(*s.variant, pii, opt, fields@[1].1)
}

/// The variant's JSON form, related to the variant it encodes. `pii` says
/// whether string literals appear in the output; `opt` says whether object
/// fields carry an explicit optionality flag.
pub open spec fn variant_matches_json(e: CountedShapeEnum, pii: bool, opt: bool, j: Json) -> bool
    decreases e,
{
    match e {
        CountedShapeEnum::Never => kind_only_json(j, "Never"@),
        CountedShapeEnum::Null => kind_only_json(j, "Null"@),
        CountedShapeEnum::Int64 => kind_only_json(j, "Int64"@),
        CountedShapeEnum::Float64 => kind_only_json(j, "Float64"@),
        CountedShapeEnum::NegativeInf => kind_only_json(j, "NegativeInf"@),
        CountedShapeEnum::PositiveInf => kind_only_json(j, "PositiveInf"@),
        CountedShapeEnum::NegativeZero => kind_only_json(j, "NegativeZero"@),
        CountedShapeEnum::NaN => kind_only_json(j, "NaN"@),
        CountedShapeEnum::NormalFloat64 => kind_only_json(j, "NormalFloat64"@),
        CountedShapeEnum::Boolean => kind_only_json(j, "Boolean"@),
        CountedShapeEnum::StringLiteral { literal } => {
            if pii {
                j matches Json::Object(fields) && fields@.len() == 2 && fields@[0].0@ == "kind"@
                    && (fields@[0].1 matches Json::String(s) && s@ == "StringLiteral"@)
                    && fields@[1].0@ == "literal"@ && (fields@[1].1 matches Json::String(s) && s@
                    == literal@)
            } else {
                kind_only_json(j, "StringLiteral"@)
            }
        },
        CountedShapeEnum::Id { table_number } => {
            j matches Json::Object(fields) && fields@.len() == 2 && fields@[0].0@ == "kind"@ && (
            fields@[0].1 matches Json::String(s) && s@ == "Id"@) && fields@[1].0@ == "tableNumber"@
                && fields@[1].1 == Json::U64(table_number as u64)
        },
        CountedShapeEnum::FieldName => kind_only_json(j, "FieldName"@),
        CountedShapeEnum::String => kind_only_json(j, "String"@),
        CountedShapeEnum::Bytes => kind_only_json(j, "Bytes"@),
        CountedShapeEnum::Array { element } => {
            j matches Json::Object(fields) && fields@.len() == 2 && fields@[0].0@ == "kind"@ && (
            fields@[0].1 matches Json::String(s) && s@ == "Array"@) && fields@[1].0@
                == "elementType"@ && shape_matches_json(element, pii, opt, fields@[1].1)
        },
        CountedShapeEnum::SetOf { element } => {
            j matches Json::Object(fields) && fields@.len() == 2 && fields@[0].0@ == "kind"@ && (
            fields@[0].1 matches Json::String(s) && s@ == "Set"@) && fields@[1].0@
                == "elementType"@ && shape_matches_json(element, pii, opt, fields@[1].1)
        },
        CountedShapeEnum::MapOf { key, value } => {
            j matches Json::Object(fields) && fields@.len() == 3 && fields@[0].0@ == "kind"@ && (
            fields@[0].1 matches Json::String(s) && s@ == "Map"@) && fields@[1].0@ == "keyType"@
                && shape_matches_json(key, pii, opt, fields@[1].1) && fields@[2].0@ == "valueType"@
                && shape_matches_json(value, pii, opt, fields@[2].1)
        },
        CountedShapeEnum::Object { fields: shape_fields } => {
            j matches Json::Object(fields) && fields@.len() == 2 && fields@[0].0@ == "kind"@ && (
            fields@[0].1 matches Json::String(s) && s@ == "Object"@) && fields@[1].0@ == "fields"@
                && (fields@[1].1 matches Json::Array(entries) && entries@.len()
                == shape_fields@.len() && (forall|i: int|
                0 <= i < shape_fields@.len() ==> object_field_matches_json(
                    #[trigger] shape_fields@[i].0,
                    shape_fields@[i].1,
                    pii,
                    opt,
                    entries@[i],
                )))
        },
        CountedShapeEnum::Record { field, value } => {
            j matches Json::Object(fields) && fields@.len() == 3 && fields@[0].0@ == "kind"@ && (
            fields@[0].1 matches Json::String(s) && s@ == "Record"@) && fields@[1].0@
                == "fieldType"@ && shape_matches_json(field, pii, opt, fields@[1].1)
                && fields@[2].0@ == "valueType"@ && shape_matches_json(value, pii, opt, fields@[2].1)
        },
        CountedShapeEnum::Union { types } => {
            j matches Json::Object(fields) && fields@.len() == 2 && fields@[0].0@ == "kind"@ && (
            fields@[0].1 matches Json::String(s) && s@ == "Union"@) && fields@[1].0@ == "types"@
                && (fields@[1].1 matches Json::Array(entries) && entries@.len() == types@.len() && (
            forall|i: int|
                0 <= i < types@.len() ==> shape_matches_json(
                    #[trigger] types@[i],
                    pii,
                    opt,
                    entries@[i],
                )))
        },
        CountedShapeEnum::Unknown => kind_only_json(j, "Unknown"@),
    }
}

/// One entry of an object shape's field list: the field's name and, when
/// optionality is tracked, an object carrying the value shape and the flag;
/// otherwise the value shape directly.
pub open spec fn object_field_matches_json(
    name: String,
    field: ObjectField,
    pii: bool,
    opt: bool,
    j: Json,
) -> bool
    decreases field,
{
    j matches Json::Object(entry) && entry@.len() == 2 && entry@[0].0@ == "fieldName"@ && (
    entry@[0].1 matches Json::String(s) && s@ == name@) && entry@[1].0@ == "type"@ && (if opt {
        entry@[1].1 matches Json::Object(t) && t@.len() == 2 && t@[0].0@ == "type"@
            && shape_matches_json(field.value_shape, pii, opt, t@[0].1) && t@[1].0@ == "optional"@
            && t@[1].1 == Json::Bool(field.optional)
    } else {
        shape_matches_json(field.value_shape, pii, opt, entry@[1].1)
    })
}

/// An ASCII letter or underscore: what an identifier may start with.
pub open spec fn is_identifier_start(c: char) -> bool {
    (97 <= c as u32 && c as u32 <= 122) || (65 <= c as u32 && c as u32 <= 90) || c as u32 == 95
}

/// An ASCII letter, digit, or underscore: what an identifier continues
/// with.
pub open spec fn is_identifier_char(c: char) -> bool {
    is_identifier_start(c) || (48 <= c as u32 && c as u32 <= 57)
}

/// A valid identifier field name: nonempty, starting with an ASCII letter
/// or underscore, continuing with ASCII letters, digits, or underscores.
pub open spec fn is_identifier(name: Seq<char>) -> bool {
    &&& name.len() > 0
    &&& is_identifier_start(name[0])
    &&& forall|i: int| 0 <= i < name.len() ==> is_identifier_char(#[trigger] name[i])
}

impl CountedShape {
    /// Structurally valid: every id shape names a nonzero table, every
    /// object field name is a valid identifier, and every union has at
    /// least two members.
    pub open spec fn wf(&self) -> bool
        decreases *self,
    {
        (*self.variant).wf()
    }
}

impl CountedShapeEnum {
    /// Structurally valid; see [`CountedShape::wf`]. String-literal folding
    /// and union merging are the inference engine's own rules, not modeled
    /// here: on those two points this accepts a superset.
    pub open spec fn wf(&self) -> bool
        decreases *self,
    {
        match self {
            CountedShapeEnum::Id { table_number } => *table_number != 0,
            CountedShapeEnum::Array { element } => element.wf(),
            CountedShapeEnum::SetOf { element } => element.wf(),
            CountedShapeEnum::MapOf { key, value } => key.wf() && value.wf(),
            CountedShapeEnum::Object { fields } => forall|i: int|
                0 <= i < fields@.len() ==> is_identifier((#[trigger] fields@[i]).0@)
                    && fields@[i].1.value_shape.wf(),
            CountedShapeEnum::Record { field, value } => field.wf() && value.wf(),
            CountedShapeEnum::Union { types } => types@.len() >= 2 && (forall|i: int|
                0 <= i < types@.len() ==> (#[trigger] types@[i]).wf()),
            _ => true,
        }
    }
}

/// Whether one character may start an identifier.
fn char_starts_identifier(c: char) -> (r: bool)
    ensures
        r == is_identifier_start(c),
{
    let u: u32 = c as u32;
    (97 <= u && u <= 122) || (65 <= u && u <= 90) || u == 95
}

/// Whether one character may continue an identifier.
fn char_continues_identifier(c: char) -> (r: bool)
    ensures
        r == is_identifier_char(c),
{
    let u: u32 = c as u32;
    char_starts_identifier(c) || (48 <= u && u <= 57)
}

/// Whether a string is a valid identifier field name.
#[verifier::loop_isolation(false)]
fn is_identifier_name(s: &String) -> (r: bool)
    ensures
        r == is_identifier(s@),
{
    let text = s.as_str();
    let len = text.unicode_len();
    if len == 0 {
        return false;
    }
    if !char_starts_identifier(text.get_char(0)) {
        return false;
    }
    let mut i: usize = 0;
    while i < len
        invariant
            0 <= i <= len,
            forall|k: int| 0 <= k < i ==> is_identifier_char(#[trigger] s@[k]),
        decreases len - i,
    {
        if !char_continues_identifier(text.get_char(i)) {
            proof {
                assert(!is_identifier_char(s@[i as int]));
            }
            return false;
        }
        i = i + 1;
    }
    true
}

/// A one-field JSON object naming a variant.
fn kind_json(kind: &'static str) -> (j: Json)
    ensures
        kind_only_json(j, kind@),
{
    let mut fields: Vec<(String, Json)> = Vec::new();
    fields.push(("kind".to_owned(), Json::String(kind.to_owned())));
    Json::Object(fields)
}

impl CountedShape {
    /// Encodes the shape: its count under `numValues` and its variant under
    /// `variant`. With `include_pii` false, string literals are left out of
    /// the output; `allow_optional` says whether object fields carry their
    /// optionality flag.
    pub fn to_json(&self, include_pii: bool, allow_optional: bool) -> (j: Json)
        ensures
            shape_matches_json(*self, include_pii, allow_optional, j),
        decreases *self,
    {
        let variant_json = self.variant.to_json(include_pii, allow_optional);
        let mut fields: Vec<(String, Json)> = Vec::new();
        fields.push(("numValues".to_owned(), Json::U64(self.num_values)));
        fields.push(("variant".to_owned(), variant_json));
        Json::Object(fields)
    }
}

impl CountedShapeEnum {
    /// Encodes one variant as its JSON object.
    #[verifier::loop_isolation(false)]
    pub fn to_json(&self, include_pii: bool, allow_optional: bool) -> (j: Json)
        ensures
            variant_matches_json(*self, include_pii, allow_optional, j),
        decreases *self,
    {
        match self {
            CountedShapeEnum::Never => kind_json("Never"),
            CountedShapeEnum::Null => kind_json("Null"),
            CountedShapeEnum::Int64 => kind_json("Int64"),
            CountedShapeEnum::Float64 => kind_json("Float64"),
            CountedShapeEnum::NegativeInf => kind_json("NegativeInf"),
            CountedShapeEnum::PositiveInf => kind_json("PositiveInf"),
            CountedShapeEnum::NegativeZero => kind_json("NegativeZero"),
            CountedShapeEnum::NaN => kind_json("NaN"),
            CountedShapeEnum::NormalFloat64 => kind_json("NormalFloat64"),
            CountedShapeEnum::Boolean => kind_json("Boolean"),
            CountedShapeEnum::StringLiteral { literal } => {
                if include_pii {
                    let mut fields: Vec<(String, Json)> = Vec::new();
                    fields.push(("kind".to_owned(), Json::String("StringLiteral".to_owned())));
                    fields.push(("literal".to_owned(), Json::String(clone_string(literal))));
                    Json::Object(fields)
                } else {
                    kind_json("StringLiteral")
                }
            },
            CountedShapeEnum::Id { table_number } => {
                let mut fields: Vec<(String, Json)> = Vec::new();
                fields.push(("kind".to_owned(), Json::String("Id".to_owned())));
                fields.push(("tableNumber".to_owned(), Json::U64(*table_number as u64)));
                Json::Object(fields)
            },
            CountedShapeEnum::FieldName => kind_json("FieldName"),
            CountedShapeEnum::String => kind_json("String"),
            CountedShapeEnum::Bytes => kind_json("Bytes"),
            CountedShapeEnum::Array { element } => {
                let nested = element.to_json(include_pii, allow_optional);
                let mut fields: Vec<(String, Json)> = Vec::new();
                fields.push(("kind".to_owned(), Json::String("Array".to_owned())));
                fields.push(("elementType".to_owned(), nested));
                Json::Object(fields)
            },
            CountedShapeEnum::SetOf { element } => {
                let nested = element.to_json(include_pii, allow_optional);
                let mut fields: Vec<(String, Json)> = Vec::new();
                fields.push(("kind".to_owned(), Json::String("Set".to_owned())));
                fields.push(("elementType".to_owned(), nested));
                Json::Object(fields)
            },
            CountedShapeEnum::MapOf { key, value } => {
                let key_json = key.to_json(include_pii, allow_optional);
                let value_json = value.to_json(include_pii, allow_optional);
                let mut fields: Vec<(String, Json)> = Vec::new();
                fields.push(("kind".to_owned(), Json::String("Map".to_owned())));
                fields.push(("keyType".to_owned(), key_json));
                fields.push(("valueType".to_owned(), value_json));
                Json::Object(fields)
            },
            CountedShapeEnum::Object { fields: shape_fields } => {
                let mut entries: Vec<Json> = Vec::new();
                let mut i: usize = 0;
                while i < shape_fields.len()
                    invariant
                        0 <= i <= shape_fields@.len(),
                        entries@.len() == i,
                        forall|k: int|
                            0 <= k < i ==> object_field_matches_json(
                                #[trigger] shape_fields@[k].0,
                                shape_fields@[k].1,
                                include_pii,
                                allow_optional,
                                entries@[k],
                            ),
                    decreases shape_fields@.len() - i,
                {
                    let (name, field) = &shape_fields[i];
                    proof {
                        vstd::std_specs::vec::axiom_vec_index_decreases(*shape_fields, i as int);
                        assert(*shape_fields == (*self)->Object_fields);
                        assert(decreases_to!(*self => (*self)->Object_fields));
                        assert(decreases_to!(*self => shape_fields@[i as int].1.value_shape));
                    }
                    let shape_json = field.value_shape.to_json(include_pii, allow_optional);
                    let type_json: Json = if allow_optional {
                        let mut t: Vec<(String, Json)> = Vec::new();
                        t.push(("type".to_owned(), shape_json));
                        t.push(("optional".to_owned(), Json::Bool(field.optional)));
                        Json::Object(t)
                    } else {
                        shape_json
                    };
                    let mut entry: Vec<(String, Json)> = Vec::new();
                    entry.push(("fieldName".to_owned(), Json::String(clone_string(name))));
                    entry.push(("type".to_owned(), type_json));
                    entries.push(Json::Object(entry));
                    i = i + 1;
                }
                let mut fields: Vec<(String, Json)> = Vec::new();
                fields.push(("kind".to_owned(), Json::String("Object".to_owned())));
                fields.push(("fields".to_owned(), Json::Array(entries)));
                Json::Object(fields)
            },
            CountedShapeEnum::Record { field, value } => {
                let field_json = field.to_json(include_pii, allow_optional);
                let value_json = value.to_json(include_pii, allow_optional);
                let mut fields: Vec<(String, Json)> = Vec::new();
                fields.push(("kind".to_owned(), Json::String("Record".to_owned())));
                fields.push(("fieldType".to_owned(), field_json));
                fields.push(("valueType".to_owned(), value_json));
                Json::Object(fields)
            },
            CountedShapeEnum::Union { types } => {
                let mut entries: Vec<Json> = Vec::new();
                let mut i: usize = 0;
                while i < types.len()
                    invariant
                        0 <= i <= types@.len(),
                        entries@.len() == i,
                        forall|k: int|
                            0 <= k < i ==> shape_matches_json(
                                #[trigger] types@[k],
                                include_pii,
                                allow_optional,
                                entries@[k],
                            ),
                    decreases types@.len() - i,
                {
                    proof {
                        vstd::std_specs::vec::axiom_vec_index_decreases(*types, i as int);
                        assert(decreases_to!(*self => (*self)->Union_types));
                        assert(decreases_to!(*self => types@[i as int]));
                    }
                    let entry = types[i].to_json(include_pii, allow_optional);
                    entries.push(entry);
                    i = i + 1;
                }
                let mut fields: Vec<(String, Json)> = Vec::new();
                fields.push(("kind".to_owned(), Json::String("Union".to_owned())));
                fields.push(("types".to_owned(), Json::Array(entries)));
                Json::Object(fields)
            },
            CountedShapeEnum::Unknown => kind_json("Unknown"),
        }
    }
}

/// Copies a string character for character.
fn clone_string(s: &String) -> (r: String)
    ensures
        r@ == s@,
{
    s.as_str().to_owned()
}

/// The 22 kind names are pairwise distinct, so a `kind` field names at
/// most one variant.
#[verifier::rlimit(100)]
proof fn lemma_kind_literals_distinct()
    ensures
        "Never"@ != "Null"@,
        "Never"@ != "Int64"@,
        "Never"@ != "Float64"@,
        "Never"@ != "NegativeInf"@,
        "Never"@ != "PositiveInf"@,
        "Never"@ != "NegativeZero"@,
        "Never"@ != "NaN"@,
        "Never"@ != "NormalFloat64"@,
        "Never"@ != "Boolean"@,
        "Never"@ != "StringLiteral"@,
        "Never"@ != "Id"@,
        "Never"@ != "FieldName"@,
        "Never"@ != "String"@,
        "Never"@ != "Bytes"@,
        "Never"@ != "Array"@,
        "Never"@ != "Set"@,
        "Never"@ != "Map"@,
        "Never"@ != "Object"@,
        "Never"@ != "Record"@,
        "Never"@ != "Union"@,
        "Never"@ != "Unknown"@,
        "Null"@ != "Int64"@,
        "Null"@ != "Float64"@,
        "Null"@ != "NegativeInf"@,
        "Null"@ != "PositiveInf"@,
        "Null"@ != "NegativeZero"@,
        "Null"@ != "NaN"@,
        "Null"@ != "NormalFloat64"@,
        "Null"@ != "Boolean"@,
        "Null"@ != "StringLiteral"@,
        "Null"@ != "Id"@,
        "Null"@ != "FieldName"@,
        "Null"@ != "String"@,
        "Null"@ != "Bytes"@,
        "Null"@ != "Array"@,
        "Null"@ != "Set"@,
        "Null"@ != "Map"@,
        "Null"@ != "Object"@,
        "Null"@ != "Record"@,
        "Null"@ != "Union"@,
        "Null"@ != "Unknown"@,
        "Int64"@ != "Float64"@,
        "Int64"@ != "NegativeInf"@,
        "Int64"@ != "PositiveInf"@,
        "Int64"@ != "NegativeZero"@,
        "Int64"@ != "NaN"@,
        "Int64"@ != "NormalFloat64"@,
        "Int64"@ != "Boolean"@,
        "Int64"@ != "StringLiteral"@,
        "Int64"@ != "Id"@,
        "Int64"@ != "FieldName"@,
        "Int64"@ != "String"@,
        "Int64"@ != "Bytes"@,
        "Int64"@ != "Array"@,
        "Int64"@ != "Set"@,
        "Int64"@ != "Map"@,
        "Int64"@ != "Object"@,
        "Int64"@ != "Record"@,
        "Int64"@ != "Union"@,
        "Int64"@ != "Unknown"@,
        "Float64"@ != "NegativeInf"@,
        "Float64"@ != "PositiveInf"@,
        "Float64"@ != "NegativeZero"@,
        "Float64"@ != "NaN"@,
        "Float64"@ != "NormalFloat64"@,
        "Float64"@ != "Boolean"@,
        "Float64"@ != "StringLiteral"@,
        "Float64"@ != "Id"@,
        "Float64"@ != "FieldName"@,
        "Float64"@ != "String"@,
        "Float64"@ != "Bytes"@,
        "Float64"@ != "Array"@,
        "Float64"@ != "Set"@,
        "Float64"@ != "Map"@,
        "Float64"@ != "Object"@,
        "Float64"@ != "Record"@,
        "Float64"@ != "Union"@,
        "Float64"@ != "Unknown"@,
        "NegativeInf"@ != "PositiveInf"@,
        "NegativeInf"@ != "NegativeZero"@,
        "NegativeInf"@ != "NaN"@,
        "NegativeInf"@ != "NormalFloat64"@,
        "NegativeInf"@ != "Boolean"@,
        "NegativeInf"@ != "StringLiteral"@,
        "NegativeInf"@ != "Id"@,
        "NegativeInf"@ != "FieldName"@,
        "NegativeInf"@ != "String"@,
        "NegativeInf"@ != "Bytes"@,
        "NegativeInf"@ != "Array"@,
        "NegativeInf"@ != "Set"@,
        "NegativeInf"@ != "Map"@,
        "NegativeInf"@ != "Object"@,
        "NegativeInf"@ != "Record"@,
        "NegativeInf"@ != "Union"@,
        "NegativeInf"@ != "Unknown"@,
        "PositiveInf"@ != "NegativeZero"@,
        "PositiveInf"@ != "NaN"@,
        "PositiveInf"@ != "NormalFloat64"@,
        "PositiveInf"@ != "Boolean"@,
        "PositiveInf"@ != "StringLiteral"@,
        "PositiveInf"@ != "Id"@,
        "PositiveInf"@ != "FieldName"@,
        "PositiveInf"@ != "String"@,
        "PositiveInf"@ != "Bytes"@,
        "PositiveInf"@ != "Array"@,
        "PositiveInf"@ != "Set"@,
        "PositiveInf"@ != "Map"@,
        "PositiveInf"@ != "Object"@,
        "PositiveInf"@ != "Record"@,
        "PositiveInf"@ != "Union"@,
        "PositiveInf"@ != "Unknown"@,
        "NegativeZero"@ != "NaN"@,
        "NegativeZero"@ != "NormalFloat64"@,
        "NegativeZero"@ != "Boolean"@,
        "NegativeZero"@ != "StringLiteral"@,
        "NegativeZero"@ != "Id"@,
        "NegativeZero"@ != "FieldName"@,
        "NegativeZero"@ != "String"@,
        "NegativeZero"@ != "Bytes"@,
        "NegativeZero"@ != "Array"@,
        "NegativeZero"@ != "Set"@,
        "NegativeZero"@ != "Map"@,
        "NegativeZero"@ != "Object"@,
        "NegativeZero"@ != "Record"@,
        "NegativeZero"@ != "Union"@,
        "NegativeZero"@ != "Unknown"@,
        "NaN"@ != "NormalFloat64"@,
        "NaN"@ != "Boolean"@,
        "NaN"@ != "StringLiteral"@,
        "NaN"@ != "Id"@,
        "NaN"@ != "FieldName"@,
        "NaN"@ != "String"@,
        "NaN"@ != "Bytes"@,
        "NaN"@ != "Array"@,
        "NaN"@ != "Set"@,
        "NaN"@ != "Map"@,
        "NaN"@ != "Object"@,
        "NaN"@ != "Record"@,
        "NaN"@ != "Union"@,
        "NaN"@ != "Unknown"@,
        "NormalFloat64"@ != "Boolean"@,
        "NormalFloat64"@ != "StringLiteral"@,
        "NormalFloat64"@ != "Id"@,
        "NormalFloat64"@ != "FieldName"@,
        "NormalFloat64"@ != "String"@,
        "NormalFloat64"@ != "Bytes"@,
        "NormalFloat64"@ != "Array"@,
        "NormalFloat64"@ != "Set"@,
        "NormalFloat64"@ != "Map"@,
        "NormalFloat64"@ != "Object"@,
        "NormalFloat64"@ != "Record"@,
        "NormalFloat64"@ != "Union"@,
        "NormalFloat64"@ != "Unknown"@,
        "Boolean"@ != "StringLiteral"@,
        "Boolean"@ != "Id"@,
        "Boolean"@ != "FieldName"@,
        "Boolean"@ != "String"@,
        "Boolean"@ != "Bytes"@,
        "Boolean"@ != "Array"@,
        "Boolean"@ != "Set"@,
        "Boolean"@ != "Map"@,
        "Boolean"@ != "Object"@,
        "Boolean"@ != "Record"@,
        "Boolean"@ != "Union"@,
        "Boolean"@ != "Unknown"@,
        "StringLiteral"@ != "Id"@,
        "StringLiteral"@ != "FieldName"@,
        "StringLiteral"@ != "String"@,
        "StringLiteral"@ != "Bytes"@,
        "StringLiteral"@ != "Array"@,
        "StringLiteral"@ != "Set"@,
        "StringLiteral"@ != "Map"@,
        "StringLiteral"@ != "Object"@,
        "StringLiteral"@ != "Record"@,
        "StringLiteral"@ != "Union"@,
        "StringLiteral"@ != "Unknown"@,
        "Id"@ != "FieldName"@,
        "Id"@ != "String"@,
        "Id"@ != "Bytes"@,
        "Id"@ != "Array"@,
        "Id"@ != "Set"@,
        "Id"@ != "Map"@,
        "Id"@ != "Object"@,
        "Id"@ != "Record"@,
        "Id"@ != "Union"@,
        "Id"@ != "Unknown"@,
        "FieldName"@ != "String"@,
        "FieldName"@ != "Bytes"@,
        "FieldName"@ != "Array"@,
        "FieldName"@ != "Set"@,
        "FieldName"@ != "Map"@,
        "FieldName"@ != "Object"@,
        "FieldName"@ != "Record"@,
        "FieldName"@ != "Union"@,
        "FieldName"@ != "Unknown"@,
        "String"@ != "Bytes"@,
        "String"@ != "Array"@,
        "String"@ != "Set"@,
        "String"@ != "Map"@,
        "String"@ != "Object"@,
        "String"@ != "Record"@,
        "String"@ != "Union"@,
        "String"@ != "Unknown"@,
        "Bytes"@ != "Array"@,
        "Bytes"@ != "Set"@,
        "Bytes"@ != "Map"@,
        "Bytes"@ != "Object"@,
        "Bytes"@ != "Record"@,
        "Bytes"@ != "Union"@,
        "Bytes"@ != "Unknown"@,
        "Array"@ != "Set"@,
        "Array"@ != "Map"@,
        "Array"@ != "Object"@,
        "Array"@ != "Record"@,
        "Array"@ != "Union"@,
        "Array"@ != "Unknown"@,
        "Set"@ != "Map"@,
        "Set"@ != "Object"@,
        "Set"@ != "Record"@,
        "Set"@ != "Union"@,
        "Set"@ != "Unknown"@,
        "Map"@ != "Object"@,
        "Map"@ != "Record"@,
        "Map"@ != "Union"@,
        "Map"@ != "Unknown"@,
        "Object"@ != "Record"@,
        "Object"@ != "Union"@,
        "Object"@ != "Unknown"@,
        "Record"@ != "Union"@,
        "Record"@ != "Unknown"@,
        "Union"@ != "Unknown"@,
{
    reveal_strlit("Never");
    reveal_strlit("Null");
    reveal_strlit("Int64");
    reveal_strlit("Float64");
    reveal_strlit("NegativeInf");
    reveal_strlit("PositiveInf");
    reveal_strlit("NegativeZero");
    reveal_strlit("NaN");
    reveal_strlit("NormalFloat64");
    reveal_strlit("Boolean");
    reveal_strlit("StringLiteral");
    reveal_strlit("Id");
    reveal_strlit("FieldName");
    reveal_strlit("String");
    reveal_strlit("Bytes");
    reveal_strlit("Array");
    reveal_strlit("Set");
    reveal_strlit("Map");
    reveal_strlit("Object");
    reveal_strlit("Record");
    reveal_strlit("Union");
    reveal_strlit("Unknown");
    assert("Never"@.len() == 5);
    assert("Null"@.len() == 4);
    assert("Int64"@.len() == 5);
    assert("Float64"@.len() == 7);
    assert("NegativeInf"@.len() == 11);
    assert("PositiveInf"@.len() == 11);
    assert("NegativeZero"@.len() == 12);
    assert("NaN"@.len() == 3);
    assert("NormalFloat64"@.len() == 13);
    assert("Boolean"@.len() == 7);
    assert("StringLiteral"@.len() == 13);
    assert("Id"@.len() == 2);
    assert("FieldName"@.len() == 9);
    assert("String"@.len() == 6);
    assert("Bytes"@.len() == 5);
    assert("Array"@.len() == 5);
    assert("Set"@.len() == 3);
    assert("Map"@.len() == 3);
    assert("Object"@.len() == 6);
    assert("Record"@.len() == 6);
    assert("Union"@.len() == 5);
    assert("Unknown"@.len() == 7);
    assert("Never"@[0] == 'N');
    assert("Null"@[0] == 'N');
    assert("Int64"@[0] == 'I');
    assert("Float64"@[0] == 'F');
    assert("NegativeInf"@[0] == 'N');
    assert("PositiveInf"@[0] == 'P');
    assert("NegativeZero"@[0] == 'N');
    assert("NaN"@[0] == 'N');
    assert("NormalFloat64"@[0] == 'N');
    assert("Boolean"@[0] == 'B');
    assert("StringLiteral"@[0] == 'S');
    assert("Id"@[0] == 'I');
    assert("FieldName"@[0] == 'F');
    assert("String"@[0] == 'S');
    assert("Bytes"@[0] == 'B');
    assert("Array"@[0] == 'A');
    assert("Set"@[0] == 'S');
    assert("Map"@[0] == 'M');
    assert("Object"@[0] == 'O');
    assert("Record"@[0] == 'R');
    assert("Union"@[0] == 'U');
    assert("Unknown"@[0] == 'U');
}

/// Why a JSON document does not decode as a shape: it departs somewhere
/// from the canonical form the encoder writes.
#[derive(Clone, Copy, PartialEq, Eq, Structural, Debug)]
pub enum ShapeJsonError {
    Malformed,
}

/// Whether a string spells a literal.
fn string_is(s: &String, literal: &str) -> (r: bool)
    ensures
        r == (s@ == literal@),
{
    let owned: String = literal.to_owned();
    *s == owned
}

impl CountedShape {
    /// Decodes the canonical JSON form of a shape: the count under
    /// `numValues`, then the variant under `variant`. Succeeds exactly on
    /// the documents some well-formed shape encodes to.
    pub fn try_from_json(j: &Json, allow_optional: bool) -> (r: Result<
        CountedShape,
        ShapeJsonError,
    >)
        ensures
            match r {
                Ok(s) => shape_matches_json(s, true, allow_optional, *j) && s.wf(),
                Err(_) => forall|s: CountedShape|
                    !(s.wf() && shape_matches_json(s, true, allow_optional, *j)),
            },
        decreases *j,
    {
        let fields = match j {
            Json::Object(fields) => fields,
            _ => {
                return Err(ShapeJsonError::Malformed);
            },
        };
        if fields.len() != 2 {
            return Err(ShapeJsonError::Malformed);
        }
        if !string_is(&fields[0].0, "numValues") {
            return Err(ShapeJsonError::Malformed);
        }
        let num_values: u64 = match &fields[0].1 {
            Json::U64(n) => *n,
            _ => {
                return Err(ShapeJsonError::Malformed);
            },
        };
        if !string_is(&fields[1].0, "variant") {
            return Err(ShapeJsonError::Malformed);
        }
        proof {
            vstd::std_specs::vec::axiom_vec_index_decreases(*fields, 1int);
            assert(decreases_to!(*j => (*j)->Object_0));
            assert(decreases_to!(*j => fields@[1int].1));
        }
        match CountedShapeEnum::try_from_json(&fields[1].1, allow_optional) {
            Ok(variant) => Ok(CountedShape { num_values, variant: Box::new(variant) }),
            Err(e) => {
                proof {
                    assert forall|s: CountedShape|
                        !(s.wf() && shape_matches_json(s, true, allow_optional, *j)) by {
                        if s.wf() && shape_matches_json(s, true, allow_optional, *j) {
                            assert((*s.variant).wf());
                            assert(variant_matches_json(
                                *s.variant,
                                true,
                                allow_optional,
                                fields@[1int].1,
                            ));
                        }
                    };
                }
                Err(e)
            },
        }
    }
}

/// Decodes one entry of an object shape's field list; succeeds exactly on
/// the documents some identifier-named, well-formed field encodes to.
#[verifier::loop_isolation(false)]
fn decode_object_field(entry: &Json, allow_optional: bool) -> (r: Result<
    (String, ObjectField),
    ShapeJsonError,
>)
    ensures
        match r {
            Ok(p) => object_field_matches_json(p.0, p.1, true, allow_optional, *entry)
                && is_identifier(p.0@) && p.1.value_shape.wf(),
            Err(_) => forall|n: String, f: ObjectField|
                !(is_identifier(n@) && f.value_shape.wf() && object_field_matches_json(
                    n,
                    f,
                    true,
                    allow_optional,
                    *entry,
                )),
        },
    decreases *entry,
{
    let entry_fields = match entry {
        Json::Object(entry_fields) => entry_fields,
        _ => {
            return Err(ShapeJsonError::Malformed);
        },
    };
    if entry_fields.len() != 2 {
        return Err(ShapeJsonError::Malformed);
    }
    if !string_is(&entry_fields[0].0, "fieldName") {
        return Err(ShapeJsonError::Malformed);
    }
    let name = match &entry_fields[0].1 {
        Json::String(s) => clone_string(s),
        _ => {
            return Err(ShapeJsonError::Malformed);
        },
    };
    if !is_identifier_name(&name) {
        proof {
            assert forall|n: String, f: ObjectField|
                !(is_identifier(n@) && f.value_shape.wf() && object_field_matches_json(
                    n,
                    f,
                    true,
                    allow_optional,
                    *entry,
                )) by {
                if is_identifier(n@) && object_field_matches_json(
                    n,
                    f,
                    true,
                    allow_optional,
                    *entry,
                ) {
                    assert(n@ == name@);
                }
            };
        }
        return Err(ShapeJsonError::Malformed);
    }
    if !string_is(&entry_fields[1].0, "type") {
        return Err(ShapeJsonError::Malformed);
    }
    proof {
        vstd::std_specs::vec::axiom_vec_index_decreases(*entry_fields, 1int);
        assert(decreases_to!(*entry => (*entry)->Object_0));
        assert(decreases_to!(*entry => entry_fields@[1int].1));
    }
    if allow_optional {
        let type_fields = match &entry_fields[1].1 {
            Json::Object(type_fields) => type_fields,
            _ => {
                return Err(ShapeJsonError::Malformed);
            },
        };
        if type_fields.len() != 2 {
            return Err(ShapeJsonError::Malformed);
        }
        if !string_is(&type_fields[0].0, "type") {
            return Err(ShapeJsonError::Malformed);
        }
        if !string_is(&type_fields[1].0, "optional") {
            return Err(ShapeJsonError::Malformed);
        }
        let optional = match &type_fields[1].1 {
            Json::Bool(b) => *b,
            _ => {
                return Err(ShapeJsonError::Malformed);
            },
        };
        proof {
            vstd::std_specs::vec::axiom_vec_index_decreases(*type_fields, 0int);
            assert(decreases_to!(*entry => entry_fields@[1int].1));
            assert(decreases_to!(*entry => type_fields@[0int].1));
        }
        match CountedShape::try_from_json(&type_fields[0].1, allow_optional) {
            Ok(value_shape) => Ok((name, ObjectField { value_shape, optional })),
            Err(e) => {
                proof {
                    assert forall|n: String, f: ObjectField|
                        !(is_identifier(n@) && f.value_shape.wf() && object_field_matches_json(
                            n,
                            f,
                            true,
                            allow_optional,
                            *entry,
                        )) by {
                        if is_identifier(n@) && f.value_shape.wf() && object_field_matches_json(
                            n,
                            f,
                            true,
                            allow_optional,
                            *entry,
                        ) {
                            assert(f.value_shape.wf() && shape_matches_json(
                                f.value_shape,
                                true,
                                allow_optional,
                                type_fields@[0int].1,
                            ));
                        }
                    };
                }
                Err(e)
            },
        }
    } else {
        match CountedShape::try_from_json(&entry_fields[1].1, allow_optional) {
            Ok(value_shape) => Ok((name, ObjectField { value_shape, optional: false })),
            Err(e) => {
                proof {
                    assert forall|n: String, f: ObjectField|
                        !(is_identifier(n@) && f.value_shape.wf() && object_field_matches_json(
                            n,
                            f,
                            true,
                            allow_optional,
                            *entry,
                        )) by {
                        if is_identifier(n@) && f.value_shape.wf() && object_field_matches_json(
                            n,
                            f,
                            true,
                            allow_optional,
                            *entry,
                        ) {
                            assert(f.value_shape.wf() && shape_matches_json(
                                f.value_shape,
                                true,
                                allow_optional,
                                entry_fields@[1int].1,
                            ));
                        }
                    };
                }
                Err(e)
            },
        }
    }
}

impl CountedShapeEnum {
    /// Decodes the canonical JSON form of one variant, dispatching on its
    /// `kind` field. Succeeds exactly on the documents some well-formed
    /// variant encodes to.
    #[verifier::loop_isolation(false)]
    #[verifier::rlimit(100)]
    pub fn try_from_json(j: &Json, allow_optional: bool) -> (r: Result<
        CountedShapeEnum,
        ShapeJsonError,
    >)
        ensures
            match r {
                Ok(e) => variant_matches_json(e, true, allow_optional, *j) && e.wf(),
                Err(_) => forall|e: CountedShapeEnum|
                    !(e.wf() && variant_matches_json(e, true, allow_optional, *j)),
            },
        decreases *j,
    {
        proof {
            lemma_kind_literals_distinct();
        }
        let fields = match j {
            Json::Object(fields) => fields,
            _ => {
                return Err(ShapeJsonError::Malformed);
            },
        };
        if fields.len() < 1 {
            return Err(ShapeJsonError::Malformed);
        }
        if !string_is(&fields[0].0, "kind") {
            return Err(ShapeJsonError::Malformed);
        }
        let kind = match &fields[0].1 {
            Json::String(kind) => kind,
            _ => {
                return Err(ShapeJsonError::Malformed);
            },
        };
        proof {
            vstd::std_specs::vec::axiom_vec_index_decreases(*fields, 0int);
            assert(decreases_to!(*j => (*j)->Object_0));
        }
        if string_is(kind, "Never") {
            if fields.len() != 1 {
                return Err(ShapeJsonError::Malformed);
            }
            Ok(CountedShapeEnum::Never)
        } else if string_is(kind, "Null") {
            if fields.len() != 1 {
                return Err(ShapeJsonError::Malformed);
            }
            Ok(CountedShapeEnum::Null)
        } else if string_is(kind, "Int64") {
            if fields.len() != 1 {
                return Err(ShapeJsonError::Malformed);
            }
            Ok(CountedShapeEnum::Int64)
        } else if string_is(kind, "Float64") {
            if fields.len() != 1 {
                return Err(ShapeJsonError::Malformed);
            }
            Ok(CountedShapeEnum::Float64)
        } else if string_is(kind, "NegativeInf") {
            if fields.len() != 1 {
                return Err(ShapeJsonError::Malformed);
            }
            Ok(CountedShapeEnum::NegativeInf)
        } else if string_is(kind, "PositiveInf") {
            if fields.len() != 1 {
                return Err(ShapeJsonError::Malformed);
            }
            Ok(CountedShapeEnum::PositiveInf)
        } else if string_is(kind, "NegativeZero") {
            if fields.len() != 1 {
                return Err(ShapeJsonError::Malformed);
            }
            Ok(CountedShapeEnum::NegativeZero)
        } else if string_is(kind, "NaN") {
            if fields.len() != 1 {
                return Err(ShapeJsonError::Malformed);
            }
            Ok(CountedShapeEnum::NaN)
        } else if string_is(kind, "NormalFloat64") {
            if fields.len() != 1 {
                return Err(ShapeJsonError::Malformed);
            }
            Ok(CountedShapeEnum::NormalFloat64)
        } else if string_is(kind, "Boolean") {
            if fields.len() != 1 {
                return Err(ShapeJsonError::Malformed);
            }
            Ok(CountedShapeEnum::Boolean)
        } else if string_is(kind, "StringLiteral") {
            if fields.len() != 2 {
                return Err(ShapeJsonError::Malformed);
            }
            if !string_is(&fields[1].0, "literal") {
                return Err(ShapeJsonError::Malformed);
            }
            let literal = match &fields[1].1 {
                Json::String(s) => clone_string(s),
                _ => {
                    return Err(ShapeJsonError::Malformed);
                },
            };
            Ok(CountedShapeEnum::StringLiteral { literal })
        } else if string_is(kind, "Id") {
            if fields.len() != 2 {
                return Err(ShapeJsonError::Malformed);
            }
            if !string_is(&fields[1].0, "tableNumber") {
                return Err(ShapeJsonError::Malformed);
            }
            let table_number: u32 = match &fields[1].1 {
                Json::U64(n) => {
                    if *n == 0 || *n > u32::MAX as u64 {
                        return Err(ShapeJsonError::Malformed);
                    }
                    *n as u32
                },
                _ => {
                    return Err(ShapeJsonError::Malformed);
                },
            };
            Ok(CountedShapeEnum::Id { table_number })
        } else if string_is(kind, "FieldName") {
            if fields.len() != 1 {
                return Err(ShapeJsonError::Malformed);
            }
            Ok(CountedShapeEnum::FieldName)
        } else if string_is(kind, "String") {
            if fields.len() != 1 {
                return Err(ShapeJsonError::Malformed);
            }
            Ok(CountedShapeEnum::String)
        } else if string_is(kind, "Bytes") {
            if fields.len() != 1 {
                return Err(ShapeJsonError::Malformed);
            }
            Ok(CountedShapeEnum::Bytes)
        } else if string_is(kind, "Array") {
            if fields.len() != 2 {
                return Err(ShapeJsonError::Malformed);
            }
            if !string_is(&fields[1].0, "elementType") {
                return Err(ShapeJsonError::Malformed);
            }
            proof {
                vstd::std_specs::vec::axiom_vec_index_decreases(*fields, 1int);
                assert(decreases_to!(*j => fields@[1int].1));
            }
            match CountedShape::try_from_json(&fields[1].1, allow_optional) {
                Ok(element) => Ok(CountedShapeEnum::Array { element }),
                Err(e) => {
                    proof {
                        assert forall|e2: CountedShapeEnum|
                            !(e2.wf() && variant_matches_json(e2, true, allow_optional, *j)) by {
                            if e2.wf() && variant_matches_json(e2, true, allow_optional, *j) {
                                if let CountedShapeEnum::Array { element: el2 } = e2 {
                                    assert(el2.wf());
                                    assert(shape_matches_json(
                                        el2,
                                        true,
                                        allow_optional,
                                        fields@[1int].1,
                                    ));
                                }
                            }
                        };
                    }
                    Err(e)
                },
            }
        } else if string_is(kind, "Set") {
            if fields.len() != 2 {
                return Err(ShapeJsonError::Malformed);
            }
            if !string_is(&fields[1].0, "elementType") {
                return Err(ShapeJsonError::Malformed);
            }
            proof {
                vstd::std_specs::vec::axiom_vec_index_decreases(*fields, 1int);
                assert(decreases_to!(*j => fields@[1int].1));
            }
            match CountedShape::try_from_json(&fields[1].1, allow_optional) {
                Ok(element) => Ok(CountedShapeEnum::SetOf { element }),
                Err(e) => {
                    proof {
                        assert forall|e2: CountedShapeEnum|
                            !(e2.wf() && variant_matches_json(e2, true, allow_optional, *j)) by {
                            if e2.wf() && variant_matches_json(e2, true, allow_optional, *j) {
                                if let CountedShapeEnum::SetOf { element: el2 } = e2 {
                                    assert(el2.wf());
                                    assert(shape_matches_json(
                                        el2,
                                        true,
                                        allow_optional,
                                        fields@[1int].1,
                                    ));
                                }
                            }
                        };
                    }
                    Err(e)
                },
            }
        } else if string_is(kind, "Map") {
            if fields.len() != 3 {
                return Err(ShapeJsonError::Malformed);
            }
            if !string_is(&fields[1].0, "keyType") {
                return Err(ShapeJsonError::Malformed);
            }
            if !string_is(&fields[2].0, "valueType") {
                return Err(ShapeJsonError::Malformed);
            }
            proof {
                vstd::std_specs::vec::axiom_vec_index_decreases(*fields, 1int);
                vstd::std_specs::vec::axiom_vec_index_decreases(*fields, 2int);
                assert(decreases_to!(*j => fields@[1int].1));
                assert(decreases_to!(*j => fields@[2int].1));
            }
            let key = match CountedShape::try_from_json(&fields[1].1, allow_optional) {
                Ok(key) => key,
                Err(e) => {
                    proof {
                        assert forall|e2: CountedShapeEnum|
                            !(e2.wf() && variant_matches_json(e2, true, allow_optional, *j)) by {
                            if e2.wf() && variant_matches_json(e2, true, allow_optional, *j) {
                                if let CountedShapeEnum::MapOf { key: k2, .. } = e2 {
                                    assert(k2.wf());
                                    assert(shape_matches_json(
                                        k2,
                                        true,
                                        allow_optional,
                                        fields@[1int].1,
                                    ));
                                }
                            }
                        };
                    }
                    return Err(e);
                },
            };
            match CountedShape::try_from_json(&fields[2].1, allow_optional) {
                Ok(value) => Ok(CountedShapeEnum::MapOf { key, value }),
                Err(e) => {
                    proof {
                        assert forall|e2: CountedShapeEnum|
                            !(e2.wf() && variant_matches_json(e2, true, allow_optional, *j)) by {
                            if e2.wf() && variant_matches_json(e2, true, allow_optional, *j) {
                                if let CountedShapeEnum::MapOf { value: v2, .. } = e2 {
                                    assert(v2.wf());
                                    assert(shape_matches_json(
                                        v2,
                                        true,
                                        allow_optional,
                                        fields@[2int].1,
                                    ));
                                }
                            }
                        };
                    }
                    Err(e)
                },
            }
        } else if string_is(kind, "Object") {
            if fields.len() != 2 {
                return Err(ShapeJsonError::Malformed);
            }
            if !string_is(&fields[1].0, "fields") {
                return Err(ShapeJsonError::Malformed);
            }
            let entries = match &fields[1].1 {
                Json::Array(entries) => entries,
                _ => {
                    return Err(ShapeJsonError::Malformed);
                },
            };
            let mut shape_fields: Vec<(String, ObjectField)> = Vec::new();
            let mut i: usize = 0;
            while i < entries.len()
                invariant
                    0 <= i <= entries@.len(),
                    shape_fields@.len() == i,
                    forall|k: int|
                        0 <= k < i ==> object_field_matches_json(
                            #[trigger] shape_fields@[k].0,
                            shape_fields@[k].1,
                            true,
                            allow_optional,
                            entries@[k],
                        ),
                    forall|k: int|
                        0 <= k < i ==> is_identifier((#[trigger] shape_fields@[k]).0@)
                            && shape_fields@[k].1.value_shape.wf(),
                decreases entries@.len() - i,
            {
                proof {
                    vstd::std_specs::vec::axiom_vec_index_decreases(*fields, 1int);
                    vstd::std_specs::vec::axiom_vec_index_decreases(*entries, i as int);
                    assert(decreases_to!(*j => fields@[1int].1));
                    assert(decreases_to!(*j => entries@[i as int]));
                }
                match decode_object_field(&entries[i], allow_optional) {
                    Ok(p) => {
                        shape_fields.push(p);
                    },
                    Err(e) => {
                        proof {
                            assert forall|e2: CountedShapeEnum|
                                !(e2.wf() && variant_matches_json(e2, true, allow_optional, *j)) by {
                                if e2.wf() && variant_matches_json(e2, true, allow_optional, *j) {
                                    if let CountedShapeEnum::Object { fields: f2 } = e2 {
                                        assert(is_identifier(f2@[i as int].0@)
                                            && f2@[i as int].1.value_shape.wf());
                                        assert(object_field_matches_json(
                                            f2@[i as int].0,
                                            f2@[i as int].1,
                                            true,
                                            allow_optional,
                                            entries@[i as int],
                                        ));
                                    }
                                }
                            };
                        }
                        return Err(e);
                    },
                }
                i = i + 1;
            }
            Ok(CountedShapeEnum::Object { fields: shape_fields })
        } else if string_is(kind, "Record") {
            if fields.len() != 3 {
                return Err(ShapeJsonError::Malformed);
            }
            if !string_is(&fields[1].0, "fieldType") {
                return Err(ShapeJsonError::Malformed);
            }
            if !string_is(&fields[2].0, "valueType") {
                return Err(ShapeJsonError::Malformed);
            }
            proof {
                vstd::std_specs::vec::axiom_vec_index_decreases(*fields, 1int);
                vstd::std_specs::vec::axiom_vec_index_decreases(*fields, 2int);
                assert(decreases_to!(*j => fields@[1int].1));
                assert(decreases_to!(*j => fields@[2int].1));
            }
            let field = match CountedShape::try_from_json(&fields[1].1, allow_optional) {
                Ok(field) => field,
                Err(e) => {
                    proof {
                        assert forall|e2: CountedShapeEnum|
                            !(e2.wf() && variant_matches_json(e2, true, allow_optional, *j)) by {
                            if e2.wf() && variant_matches_json(e2, true, allow_optional, *j) {
                                if let CountedShapeEnum::Record { field: f2, .. } = e2 {
                                    assert(f2.wf());
                                    assert(shape_matches_json(
                                        f2,
                                        true,
                                        allow_optional,
                                        fields@[1int].1,
                                    ));
                                }
                            }
                        };
                    }
                    return Err(e);
                },
            };
            match CountedShape::try_from_json(&fields[2].1, allow_optional) {
                Ok(value) => Ok(CountedShapeEnum::Record { field, value }),
                Err(e) => {
                    proof {
                        assert forall|e2: CountedShapeEnum|
                            !(e2.wf() && variant_matches_json(e2, true, allow_optional, *j)) by {
                            if e2.wf() && variant_matches_json(e2, true, allow_optional, *j) {
                                if let CountedShapeEnum::Record { value: v2, .. } = e2 {
                                    assert(v2.wf());
                                    assert(shape_matches_json(
                                        v2,
                                        true,
                                        allow_optional,
                                        fields@[2int].1,
                                    ));
                                }
                            }
                        };
                    }
                    Err(e)
                },
            }
        } else if string_is(kind, "Union") {
            if fields.len() != 2 {
                return Err(ShapeJsonError::Malformed);
            }
            if !string_is(&fields[1].0, "types") {
                return Err(ShapeJsonError::Malformed);
            }
            let entries = match &fields[1].1 {
                Json::Array(entries) => entries,
                _ => {
                    return Err(ShapeJsonError::Malformed);
                },
            };
            let mut types: Vec<CountedShape> = Vec::new();
            let mut i: usize = 0;
            while i < entries.len()
                invariant
                    0 <= i <= entries@.len(),
                    types@.len() == i,
                    forall|k: int|
                        0 <= k < i ==> shape_matches_json(
                            #[trigger] types@[k],
                            true,
                            allow_optional,
                            entries@[k],
                        ) && types@[k].wf(),
                decreases entries@.len() - i,
            {
                proof {
                    vstd::std_specs::vec::axiom_vec_index_decreases(*fields, 1int);
                    vstd::std_specs::vec::axiom_vec_index_decreases(*entries, i as int);
                    assert(decreases_to!(*j => fields@[1int].1));
                    assert(decreases_to!(*j => entries@[i as int]));
                }
                match CountedShape::try_from_json(&entries[i], allow_optional) {
                    Ok(element) => {
                        types.push(element);
                    },
                    Err(e) => {
                        proof {
                            assert forall|e2: CountedShapeEnum|
                                !(e2.wf() && variant_matches_json(e2, true, allow_optional, *j)) by {
                                if e2.wf() && variant_matches_json(e2, true, allow_optional, *j) {
                                    if let CountedShapeEnum::Union { types: t2 } = e2 {
                                        assert((t2@[i as int]).wf());
                                        assert(shape_matches_json(
                                            t2@[i as int],
                                            true,
                                            allow_optional,
                                            entries@[i as int],
                                        ));
                                    }
                                }
                            };
                        }
                        return Err(e);
                    },
                }
                i = i + 1;
            }
            if types.len() < 2 {
                proof {
                    assert forall|e2: CountedShapeEnum|
                        !(e2.wf() && variant_matches_json(e2, true, allow_optional, *j)) by {
                        if e2.wf() && variant_matches_json(e2, true, allow_optional, *j) {
                            if let CountedShapeEnum::Union { types: t2 } = e2 {
                                assert(t2@.len() == entries@.len());
                            }
                        }
                    };
                }
                return Err(ShapeJsonError::Malformed);
            }
            Ok(CountedShapeEnum::Union { types })
        } else if string_is(kind, "Unknown") {
            if fields.len() != 1 {
                return Err(ShapeJsonError::Malformed);
            }
            Ok(CountedShapeEnum::Unknown)
        } else {
            Err(ShapeJsonError::Malformed)
        }
    }
}

} // verus!
