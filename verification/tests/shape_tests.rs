//! The shape JSON codec: canonical encoding, decoding, round trips, and
//! rejection of malformed documents.

use isolate_host::shape_json::CountedShape;
use isolate_host::shape_json::CountedShapeEnum;
use isolate_host::shape_json::Json;
use isolate_host::shape_json::ObjectField;
use isolate_host::shape_json::ShapeJsonError;

fn counted(num_values: u64, variant: CountedShapeEnum) -> CountedShape {
    CountedShape { num_values, variant: Box::new(variant) }
}

fn field_of<'a>(j: &'a Json, name: &str) -> &'a Json {
    match j {
        Json::Object(fields) => {
            for (k, v) in fields {
                if k == name {
                    return v;
                }
            }
            panic!("no field {name}");
        }
        _ => panic!("not an object"),
    }
}

#[test]
fn kind_only_variants_encode_as_a_single_kind_field() {
    let j = counted(3, CountedShapeEnum::Int64).to_json(true, true);
    assert_eq!(*field_of(&j, "numValues"), Json::U64(3));
    let variant = field_of(&j, "variant");
    assert_eq!(*field_of(variant, "kind"), Json::String("Int64".to_string()));
    match variant {
        Json::Object(fields) => assert_eq!(fields.len(), 1),
        _ => panic!(),
    }
}

#[test]
fn string_literals_are_kept_only_with_pii() {
    let shape = counted(
        1,
        CountedShapeEnum::StringLiteral { literal: "hello".to_string() },
    );
    let with = shape.to_json(true, true);
    let variant = field_of(&with, "variant");
    assert_eq!(*field_of(variant, "literal"), Json::String("hello".to_string()));

    let shape = counted(
        1,
        CountedShapeEnum::StringLiteral { literal: "hello".to_string() },
    );
    let without = shape.to_json(false, true);
    let variant = field_of(&without, "variant");
    match variant {
        Json::Object(fields) => {
            assert_eq!(fields.len(), 1);
            assert_eq!(fields[0].0, "kind");
        }
        _ => panic!(),
    }
}

fn nested_shape() -> CountedShape {
    counted(
        12,
        CountedShapeEnum::Union {
            types: vec![
                counted(5, CountedShapeEnum::Id { table_number: 10016 }),
                counted(
                    7,
                    CountedShapeEnum::Object {
                        fields: vec![
                            (
                                "name".to_string(),
                                ObjectField {
                                    value_shape: counted(7, CountedShapeEnum::String),
                                    optional: false,
                                },
                            ),
                            (
                                "tags".to_string(),
                                ObjectField {
                                    value_shape: counted(
                                        4,
                                        CountedShapeEnum::Array {
                                            element: counted(9, CountedShapeEnum::String),
                                        },
                                    ),
                                    optional: true,
                                },
                            ),
                        ],
                    },
                ),
            ],
        },
    )
}

#[test]
fn nested_shapes_round_trip_with_optional_fields() {
    let shape = nested_shape();
    let expected = nested_shape();
    let encoded = shape.to_json(true, true);
    let decoded = CountedShape::try_from_json(&encoded, true).unwrap();
    assert_eq!(decoded, expected);
}

#[test]
fn nested_shapes_round_trip_without_optional_fields() {
    // without optionality tracking, every decoded field is non-optional
    let shape = counted(
        2,
        CountedShapeEnum::Object {
            fields: vec![(
                "n".to_string(),
                ObjectField {
                    value_shape: counted(2, CountedShapeEnum::Int64),
                    optional: false,
                },
            )],
        },
    );
    let encoded = shape.to_json(true, false);
    let decoded = CountedShape::try_from_json(&encoded, false).unwrap();
    match *decoded.variant {
        CountedShapeEnum::Object { ref fields } => {
            assert_eq!(fields.len(), 1);
            assert!(!fields[0].1.optional);
        }
        _ => panic!(),
    }
}

#[test]
fn map_set_and_record_round_trip() {
    let shape = counted(
        1,
        CountedShapeEnum::MapOf {
            key: counted(1, CountedShapeEnum::String),
            value: counted(
                1,
                CountedShapeEnum::SetOf { element: counted(1, CountedShapeEnum::Int64) },
            ),
        },
    );
    let encoded = shape.to_json(true, true);
    let variant = field_of(&encoded, "variant");
    assert_eq!(*field_of(variant, "kind"), Json::String("Map".to_string()));
    let decoded = CountedShape::try_from_json(&encoded, true).unwrap();
    match *decoded.variant {
        CountedShapeEnum::MapOf { .. } => {}
        _ => panic!("a map decodes as a map"),
    }

    let record = counted(
        1,
        CountedShapeEnum::Record {
            field: counted(1, CountedShapeEnum::FieldName),
            value: counted(1, CountedShapeEnum::NormalFloat64),
        },
    );
    let encoded = record.to_json(true, true);
    let decoded = CountedShape::try_from_json(&encoded, true).unwrap();
    match *decoded.variant {
        CountedShapeEnum::Record { .. } => {}
        _ => panic!("a record decodes as a record"),
    }
}

#[test]
fn malformed_documents_are_rejected() {
    // not an object at all
    assert_eq!(
        CountedShape::try_from_json(&Json::U64(3), true).unwrap_err(),
        ShapeJsonError::Malformed
    );

    // an unknown kind
    let mut fields: Vec<(String, Json)> = Vec::new();
    fields.push(("numValues".to_string(), Json::U64(1)));
    let mut variant: Vec<(String, Json)> = Vec::new();
    variant.push(("kind".to_string(), Json::String("Fish".to_string())));
    fields.push(("variant".to_string(), Json::Object(variant)));
    assert_eq!(
        CountedShape::try_from_json(&Json::Object(fields), true).unwrap_err(),
        ShapeJsonError::Malformed
    );

    // a table number too large for the id variant
    let mut fields: Vec<(String, Json)> = Vec::new();
    fields.push(("numValues".to_string(), Json::U64(1)));
    let mut variant: Vec<(String, Json)> = Vec::new();
    variant.push(("kind".to_string(), Json::String("Id".to_string())));
    variant.push(("tableNumber".to_string(), Json::U64(u64::MAX)));
    fields.push(("variant".to_string(), Json::Object(variant)));
    assert_eq!(
        CountedShape::try_from_json(&Json::Object(fields), true).unwrap_err(),
        ShapeJsonError::Malformed
    );
}

fn id_document(table_number: u64) -> Json {
    let mut fields: Vec<(String, Json)> = Vec::new();
    fields.push(("numValues".to_string(), Json::U64(1)));
    let mut variant: Vec<(String, Json)> = Vec::new();
    variant.push(("kind".to_string(), Json::String("Id".to_string())));
    variant.push(("tableNumber".to_string(), Json::U64(table_number)));
    fields.push(("variant".to_string(), Json::Object(variant)));
    Json::Object(fields)
}

#[test]
fn zero_table_numbers_are_rejected() {
    // no table carries the number zero, so no well-formed shape encodes this
    assert_eq!(
        CountedShape::try_from_json(&id_document(0), true).unwrap_err(),
        ShapeJsonError::Malformed
    );
    assert!(CountedShape::try_from_json(&id_document(1), true).is_ok());
}

fn object_document(field_name: &str) -> Json {
    let inner = counted(1, CountedShapeEnum::Int64).to_json(true, false);
    let mut entry: Vec<(String, Json)> = Vec::new();
    entry.push(("fieldName".to_string(), Json::String(field_name.to_string())));
    entry.push(("type".to_string(), inner));
    let mut variant: Vec<(String, Json)> = Vec::new();
    variant.push(("kind".to_string(), Json::String("Object".to_string())));
    variant.push(("fields".to_string(), Json::Array(vec![Json::Object(entry)])));
    let mut fields: Vec<(String, Json)> = Vec::new();
    fields.push(("numValues".to_string(), Json::U64(1)));
    fields.push(("variant".to_string(), Json::Object(variant)));
    Json::Object(fields)
}

#[test]
fn field_names_must_be_identifiers() {
    assert!(CountedShape::try_from_json(&object_document("author_2"), false).is_ok());
    for bad in ["", "9lives", "has space", "dotted.name", "caf\u{e9}"] {
        assert_eq!(
            CountedShape::try_from_json(&object_document(bad), false).unwrap_err(),
            ShapeJsonError::Malformed,
            "{bad:?} is not an identifier"
        );
    }
}

fn union_document(member_count: usize) -> Json {
    let mut members: Vec<Json> = Vec::new();
    let mut n: usize = 0;
    while n < member_count {
        members.push(counted(1, CountedShapeEnum::Int64).to_json(true, true));
        n += 1;
    }
    let mut variant: Vec<(String, Json)> = Vec::new();
    variant.push(("kind".to_string(), Json::String("Union".to_string())));
    variant.push(("types".to_string(), Json::Array(members)));
    let mut fields: Vec<(String, Json)> = Vec::new();
    fields.push(("numValues".to_string(), Json::U64(2)));
    fields.push(("variant".to_string(), Json::Object(variant)));
    Json::Object(fields)
}

#[test]
fn unions_need_at_least_two_members() {
    assert_eq!(
        CountedShape::try_from_json(&union_document(0), true).unwrap_err(),
        ShapeJsonError::Malformed
    );
    assert_eq!(
        CountedShape::try_from_json(&union_document(1), true).unwrap_err(),
        ShapeJsonError::Malformed
    );
    assert!(CountedShape::try_from_json(&union_document(2), true).is_ok());
}
