//! Conversions of index metadata, snapshot versions, and document ids:
//! round trips and each rejection.

use isolate_host::document_id::DeveloperDocumentId;
use isolate_host::document_id::DocumentIdError;
use isolate_host::document_id::InternalId;
use isolate_host::document_id::PbDeveloperDocumentId;
use isolate_host::document_id::PbResolvedDocumentId;
use isolate_host::document_id::PbTabletIdAndTableNumber;
use isolate_host::document_id::ResolvedDocumentId;
use isolate_host::document_id::TableNumber;
use isolate_host::document_id::TabletId;
use isolate_host::document_id::TabletIdAndTableNumber;
use isolate_host::index_config::DeveloperDatabaseIndexConfig;
use isolate_host::index_config::DeveloperIndexConfig;
use isolate_host::index_config::DeveloperVectorIndexConfig;
use isolate_host::index_config::IndexConfig;
use isolate_host::index_config::IndexOnDiskState;
use isolate_host::index_config::SerializedDeveloperIndexConfig;
use isolate_host::text_index::FragmentedTextSegment;
use isolate_host::text_index::ObjectKey;
use isolate_host::text_index::PbFragmentedTextSegment;
use isolate_host::text_index::PersistenceVersion;
use isolate_host::text_index::SerializedFragmentedTextSegment;
use isolate_host::text_index::SerializedTextIndexSnapshot;
use isolate_host::text_index::TextIndexError;
use isolate_host::text_index::TextIndexSnapshot;
use isolate_host::text_index::TextIndexSnapshotData;
use isolate_host::text_index::TextSnapshotVersion;
use isolate_host::text_index::Timestamp;
use isolate_host::text_index::WithUnknown;
use isolate_host::values::ConvexObject;
use isolate_host::values::ConvexValue;

#[test]
fn snapshot_version_codes_round_trip() {
    for version in [
        TextSnapshotVersion::V0,
        TextSnapshotVersion::V1MissingAsUndefined,
        TextSnapshotVersion::V2UseStringIds,
    ] {
        let code = version.to_code();
        assert_eq!(TextSnapshotVersion::from_code(code).unwrap(), version);
    }
    assert_eq!(TextSnapshotVersion::V0.to_code(), 0);
    assert_eq!(TextSnapshotVersion::V1MissingAsUndefined.to_code(), 1);
    assert_eq!(TextSnapshotVersion::V2UseStringIds.to_code(), 2);
}

#[test]
fn unrecognized_version_codes_are_rejected() {
    for code in [-1, 3, i64::MAX] {
        match TextSnapshotVersion::from_code(code) {
            Err(TextIndexError::UnrecognizedVersion { code: c }) => assert_eq!(c, code),
            _ => panic!("code {code} names no version"),
        }
    }
}

#[test]
fn current_persistence_version_uses_string_ids() {
    assert_eq!(
        TextSnapshotVersion::new(PersistenceVersion::V5),
        TextSnapshotVersion::V2UseStringIds
    );
}

fn segment(tag: &str) -> FragmentedTextSegment {
    FragmentedTextSegment {
        segment_key: ObjectKey::try_from_string(format!("{tag}-segment")).unwrap(),
        id_tracker_key: ObjectKey::try_from_string(format!("{tag}-ids")).unwrap(),
        deleted_terms_table_key: ObjectKey::try_from_string(format!("{tag}-deleted")).unwrap(),
        alive_bitset_key: ObjectKey::try_from_string(format!("{tag}-alive")).unwrap(),
        num_indexed_documents: 100,
        num_deleted_documents: 3,
        size_bytes_total: 4096,
        id: format!("{tag}-uuid"),
    }
}

#[test]
fn segment_round_trips_through_its_proto_form() {
    let original = segment("a");
    let expected = segment("a");
    let proto = original.to_proto();
    let decoded = FragmentedTextSegment::try_from_proto(proto).unwrap();
    assert_eq!(decoded, expected);
}

#[test]
fn segment_round_trips_through_its_serialized_form() {
    let original = segment("b");
    let expected = segment("b");
    let serialized = original.to_serialized();
    assert_eq!(serialized.segment_key, "b-segment");
    assert_eq!(serialized.num_indexed_documents, 100);
    let decoded = FragmentedTextSegment::try_from_serialized(serialized).unwrap();
    assert_eq!(decoded, expected);
}

#[test]
fn missing_proto_fields_are_each_rejected() {
    let complete = segment("c").to_proto();

    let mut p = complete.clone();
    p.segment = None;
    assert_eq!(
        FragmentedTextSegment::try_from_proto(p).unwrap_err(),
        TextIndexError::MissingSegment
    );

    let mut p = complete.clone();
    p.id_tracker = None;
    assert_eq!(
        FragmentedTextSegment::try_from_proto(p).unwrap_err(),
        TextIndexError::MissingIdTracker
    );

    let mut p = complete.clone();
    p.deleted_terms_table = None;
    assert_eq!(
        FragmentedTextSegment::try_from_proto(p).unwrap_err(),
        TextIndexError::MissingDeletedTerms
    );

    let mut p = complete.clone();
    p.alive_bitset = None;
    assert_eq!(
        FragmentedTextSegment::try_from_proto(p).unwrap_err(),
        TextIndexError::MissingAliveBitset
    );

    let mut p = complete.clone();
    p.num_indexed_documents = None;
    assert_eq!(
        FragmentedTextSegment::try_from_proto(p).unwrap_err(),
        TextIndexError::MissingNumIndexed
    );

    let mut p = complete.clone();
    p.num_deleted_documents = None;
    assert_eq!(
        FragmentedTextSegment::try_from_proto(p).unwrap_err(),
        TextIndexError::MissingNumDeleted
    );

    let mut p = complete.clone();
    p.size_bytes_total = None;
    assert_eq!(
        FragmentedTextSegment::try_from_proto(p).unwrap_err(),
        TextIndexError::MissingSizeBytesTotal
    );

    let mut p = complete.clone();
    p.id = None;
    assert_eq!(FragmentedTextSegment::try_from_proto(p).unwrap_err(), TextIndexError::MissingId);

    // the first missing field wins
    let mut p = complete;
    p.segment = None;
    p.id = None;
    assert_eq!(
        FragmentedTextSegment::try_from_proto(p).unwrap_err(),
        TextIndexError::MissingSegment
    );
}

#[test]
fn empty_object_keys_are_rejected() {
    assert_eq!(
        ObjectKey::try_from_string(String::new()).unwrap_err(),
        TextIndexError::InvalidObjectKey
    );
    let serialized = SerializedFragmentedTextSegment {
        segment_key: String::new(),
        id_tracker_key: "ids".to_string(),
        deleted_terms_table_key: "deleted".to_string(),
        alive_bitset_key: "alive".to_string(),
        num_indexed_documents: 1,
        num_deleted_documents: 1,
        size_bytes_total: 1,
        id: "u".to_string(),
    };
    assert_eq!(
        FragmentedTextSegment::try_from_serialized(serialized).unwrap_err(),
        TextIndexError::InvalidObjectKey
    );
    let mut p = segment("d").to_proto();
    p.alive_bitset = Some(isolate_host::text_index::PbStorageKey { storage_key: String::new() });
    assert_eq!(
        FragmentedTextSegment::try_from_proto(p).unwrap_err(),
        TextIndexError::InvalidObjectKey
    );
}

#[test]
fn whole_snapshot_round_trips() {
    let snapshot = TextIndexSnapshot {
        data: TextIndexSnapshotData::MultiSegment(vec![segment("x"), segment("y")]),
        ts: Timestamp::new(1_700_000_000),
        version: TextSnapshotVersion::V2UseStringIds,
    };
    let expected = TextIndexSnapshot {
        data: TextIndexSnapshotData::MultiSegment(vec![segment("x"), segment("y")]),
        ts: Timestamp::new(1_700_000_000),
        version: TextSnapshotVersion::V2UseStringIds,
    };
    let serialized = snapshot.to_serialized();
    assert_eq!(serialized.ts, 1_700_000_000);
    assert_eq!(serialized.version, 2);
    let decoded = TextIndexSnapshot::try_from_serialized(serialized).unwrap();
    assert_eq!(decoded, expected);
}

#[test]
fn unknown_snapshot_data_survives_a_round_trip_unmodified() {
    let unknown = ConvexObject {
        fields: vec![(
            "futureFormat".to_string(),
            ConvexValue::String("not yet understood".to_string()),
        )],
    };
    let expected = ConvexObject {
        fields: vec![(
            "futureFormat".to_string(),
            ConvexValue::String("not yet understood".to_string()),
        )],
    };
    let decoded =
        TextIndexSnapshotData::try_from_unknown(WithUnknown::Unknown(unknown)).unwrap();
    match &decoded {
        TextIndexSnapshotData::Unknown(o) => assert_eq!(*o, expected),
        _ => panic!("unknown data stays unknown"),
    }
    match decoded.to_unknown() {
        WithUnknown::Unknown(o) => assert_eq!(o, expected),
        _ => panic!("unknown data stays unknown"),
    }
}

#[test]
fn negative_timestamps_are_rejected() {
    let snapshot = SerializedTextIndexSnapshot {
        data: WithUnknown::Unknown(ConvexObject { fields: vec![] }),
        ts: -5,
        version: 2,
    };
    assert_eq!(
        TextIndexSnapshot::try_from_serialized(snapshot).unwrap_err(),
        TextIndexError::NegativeTimestamp
    );
}

#[test]
fn developer_index_config_round_trips() {
    let config = DeveloperIndexConfig::Vector(DeveloperVectorIndexConfig {
        dimensions: 1536,
        vector_field: "embedding".to_string(),
        filter_fields: vec!["author".to_string()],
    });
    let serialized = config.to_serialized();
    match &serialized {
        SerializedDeveloperIndexConfig::Vector { dimensions, vector_field, filter_fields } => {
            assert_eq!(*dimensions, 1536);
            assert_eq!(vector_field, "embedding");
            assert_eq!(filter_fields, &vec!["author".to_string()]);
        }
        _ => panic!("a vector config serializes as a vector config"),
    }
    let decoded = DeveloperIndexConfig::from_serialized(serialized);
    match decoded {
        DeveloperIndexConfig::Vector(c) => assert_eq!(c.dimensions, 1536),
        _ => panic!(),
    }
}

#[test]
fn index_config_drops_its_on_disk_state() {
    let config = IndexConfig::Database {
        developer_config: DeveloperDatabaseIndexConfig { fields: vec!["owner".to_string()] },
        on_disk_state: IndexOnDiskState::Backfilling,
    };
    match DeveloperIndexConfig::from_index_config(config) {
        DeveloperIndexConfig::Database(c) => assert_eq!(c.fields, vec!["owner".to_string()]),
        _ => panic!("the database variant maps to the database variant"),
    }
}

fn internal_id(seed: u8) -> InternalId {
    InternalId::try_from_bytes((0..16).map(|i| seed.wrapping_add(i)).collect()).unwrap()
}

#[test]
fn test_developer_document_id_roundtrips() {
    let id = DeveloperDocumentId::new(TableNumber::try_from_u32(10016).unwrap(), internal_id(7));
    let expected =
        DeveloperDocumentId::new(TableNumber::try_from_u32(10016).unwrap(), internal_id(7));
    let proto = id.to_proto();
    assert_eq!(proto.table_number, Some(10016));
    let decoded = DeveloperDocumentId::try_from_proto(proto).unwrap();
    assert_eq!(decoded, expected);
}

#[test]
fn test_resolved_document_id_roundtrips() {
    let id = ResolvedDocumentId {
        tablet_id: TabletId(internal_id(40)),
        developer_id: DeveloperDocumentId::new(
            TableNumber::try_from_u32(3).unwrap(),
            internal_id(9),
        ),
    };
    let expected = ResolvedDocumentId {
        tablet_id: TabletId(internal_id(40)),
        developer_id: DeveloperDocumentId::new(
            TableNumber::try_from_u32(3).unwrap(),
            internal_id(9),
        ),
    };
    let proto = id.to_proto();
    let decoded = ResolvedDocumentId::try_from_proto(proto).unwrap();
    assert_eq!(decoded, expected);
}

#[test]
fn document_id_protos_reject_each_malformation() {
    let missing_number = PbDeveloperDocumentId { table_number: None, internal_id: Some(vec![0; 16]) };
    assert_eq!(
        DeveloperDocumentId::try_from_proto(missing_number).unwrap_err(),
        DocumentIdError::MissingTableNumber
    );

    let zero_number = PbDeveloperDocumentId { table_number: Some(0), internal_id: Some(vec![0; 16]) };
    assert_eq!(
        DeveloperDocumentId::try_from_proto(zero_number).unwrap_err(),
        DocumentIdError::ZeroTableNumber
    );

    let missing_id = PbDeveloperDocumentId { table_number: Some(1), internal_id: None };
    assert_eq!(
        DeveloperDocumentId::try_from_proto(missing_id).unwrap_err(),
        DocumentIdError::MissingInternalId
    );

    let short_id = PbDeveloperDocumentId { table_number: Some(1), internal_id: Some(vec![0; 15]) };
    assert_eq!(
        DeveloperDocumentId::try_from_proto(short_id).unwrap_err(),
        DocumentIdError::WrongInternalIdLength
    );

    let missing_table = PbResolvedDocumentId { table: None, internal_id: Some(vec![0; 16]) };
    assert_eq!(
        ResolvedDocumentId::try_from_proto(missing_table).unwrap_err(),
        DocumentIdError::MissingTable
    );

    let missing_tablet = PbResolvedDocumentId {
        table: Some(PbTabletIdAndTableNumber { table_id: None, table_number: Some(2) }),
        internal_id: Some(vec![0; 16]),
    };
    assert_eq!(
        ResolvedDocumentId::try_from_proto(missing_tablet).unwrap_err(),
        DocumentIdError::MissingTableId
    );
}

#[test]
fn tablet_and_table_number_round_trips() {
    let pair = TabletIdAndTableNumber {
        tablet_id: TabletId(internal_id(1)),
        table_number: TableNumber::try_from_u32(77).unwrap(),
    };
    let expected = TabletIdAndTableNumber {
        tablet_id: TabletId(internal_id(1)),
        table_number: TableNumber::try_from_u32(77).unwrap(),
    };
    let decoded = TabletIdAndTableNumber::try_from_proto(pair.to_proto()).unwrap();
    assert_eq!(decoded, expected);
}
