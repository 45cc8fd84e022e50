//! Text search index snapshots: the segments a snapshot is made of, the
//! snapshot version vocabulary, and lossless conversions between the in-memory
//! form, its serialized document form, and its protobuf form. Unrecognized
//! serialized data round-trips unmodified, so rolling services backwards or
//! forwards never destroys index metadata.

use vstd::prelude::*;

use crate::values::ConvexObject;

verus! {

/// Why a snapshot, segment, or version could not be decoded.
#[derive(Clone, Copy, PartialEq, Eq, Structural, Debug)]
pub enum TextIndexError {
    /// A version code outside the known range.
    UnrecognizedVersion { code: i64 },
    /// A storage key that is not a valid object key.
    InvalidObjectKey,
    /// A timestamp below zero.
    NegativeTimestamp,
    /// The protobuf form lacked its `segment` field.
    MissingSegment,
    /// The protobuf form lacked its `id_tracker` field.
    MissingIdTracker,
    /// The protobuf form lacked its `deleted_terms_table` field.
    MissingDeletedTerms,
    /// The protobuf form lacked its `alive_bitset` field.
    MissingAliveBitset,
    /// The protobuf form lacked its `num_indexed_documents` field.
    MissingNumIndexed,
    /// The protobuf form lacked its `num_deleted_documents` field.
    MissingNumDeleted,
    /// The protobuf form lacked its `size_bytes_total` field.
    MissingSizeBytesTotal,
    /// The protobuf form lacked its `id` field.
    MissingId,
}

/// What this crate requires of a storage object key: a nonempty string.
pub open spec fn valid_object_key(key: Seq<char>) -> bool {
    key.len() > 0
}

/// A key under which a segment file is stored. Always nonempty.
#[derive(Clone, PartialEq, Eq, Debug)]
pub struct ObjectKey {
    key: String,
}

impl ObjectKey {
    /// The key's characters.
    pub closed spec fn spec_key(&self) -> Seq<char> {
        self.key@
    }

    /// A key is well-formed when it is a valid object key.
    pub open spec fn wf(&self) -> bool {
        valid_object_key(self.spec_key())
    }

    /// Validates a string as an object key; rejects exactly the invalid ones.
    pub fn try_from_string(key: String) -> (r: Result<ObjectKey, TextIndexError>)
        ensures
            match r {
                Ok(k) => valid_object_key(key@) && k.spec_key() == key@ && k.wf(),
                Err(e) => !valid_object_key(key@) && e == TextIndexError::InvalidObjectKey,
            },
    {
        if key.as_str().unicode_len() == 0 {
            Err(TextIndexError::InvalidObjectKey)
        } else {
            Ok(ObjectKey { key })
        }
    }

    /// Hands the key back as the string it wraps.
    pub fn into_string(self) -> (r: String)
        ensures
            r@ == self.spec_key(),
    {
        self.key
    }
}

/// A database timestamp in nanoseconds. Always representable as a signed
/// 64-bit value, the form it is serialized in.
#[derive(Clone, Copy, PartialEq, Eq, Structural, Debug)]
pub struct Timestamp {
    nanos: u64,
}

impl Timestamp {
    /// The timestamp's value in nanoseconds.
    pub closed spec fn spec_nanos(&self) -> u64 {
        self.nanos
    }

    /// The value fits the signed serialized form.
    pub open spec fn wf(&self) -> bool {
        self.spec_nanos() <= i64::MAX
    }

    /// Wraps a nanosecond count that fits the serialized form.
    pub fn new(nanos: u64) -> (r: Timestamp)
        requires
            nanos <= i64::MAX,
        ensures
            r.spec_nanos() == nanos,
            r.wf(),
    {
        Timestamp { nanos }
    }

    /// The serialized form.
    pub fn to_i64(&self) -> (r: i64)
        requires
            self.wf(),
        ensures
            r == self.spec_nanos() as i64,
            r >= 0,
    {
        self.nanos as i64
    }

    /// Decodes the serialized form; rejects exactly the negative values.
    pub fn try_from_i64(ts: i64) -> (r: Result<Timestamp, TextIndexError>)
        ensures
            match r {
                Ok(t) => ts >= 0 && t.spec_nanos() == ts && t.wf(),
                Err(e) => ts < 0 && e == TextIndexError::NegativeTimestamp,
            },
    {
        if ts < 0 {
            Err(TextIndexError::NegativeTimestamp)
        } else {
            Ok(Timestamp { nanos: ts as u64 })
        }
    }
}

/// The version of the persistence format an index snapshot was written under.
#[derive(Clone, Copy, PartialEq, Eq, Structural, Debug)]
pub enum PersistenceVersion {
    V5,
}

/// The version vocabulary for search snapshots. A new version is added
/// whenever the index key format changes between persistence versions.
#[derive(Clone, Copy, PartialEq, Eq, Structural, Debug)]
pub enum TextSnapshotVersion {
    /// The original version; interprets missing fields as null.
    V0,
    /// Interprets missing fields as undefined.
    V1MissingAsUndefined,
    /// Uses string IDs.
    V2UseStringIds,
}

impl TextSnapshotVersion {
    /// The code this version is serialized as.
    pub open spec fn spec_code(&self) -> i64 {
        match self {
            TextSnapshotVersion::V0 => 0,
            TextSnapshotVersion::V1MissingAsUndefined => 1,
            TextSnapshotVersion::V2UseStringIds => 2,
        }
    }

    /// The snapshot version in force for a persistence version.
    pub fn new(persistence_version: PersistenceVersion) -> (r: Self)
        ensures
            persistence_version == PersistenceVersion::V5 ==> r
                == TextSnapshotVersion::V2UseStringIds,
    {
        match persistence_version {
            PersistenceVersion::V5 => Self::V2UseStringIds,
        }
    }

    /// Encodes the version as its code.
    pub fn to_code(&self) -> (r: i64)
        ensures
            r == self.spec_code(),
    {
        match self {
            Self::V0 => 0,
            Self::V1MissingAsUndefined => 1,
            Self::V2UseStringIds => 2,
        }
    }

    /// Decodes a version code; rejects exactly the codes no version carries.
    pub fn from_code(code: i64) -> (r: Result<Self, TextIndexError>)
        ensures
            match r {
                Ok(v) => v.spec_code() == code,
                Err(e) => !(0 <= code <= 2) && e == (TextIndexError::UnrecognizedVersion { code }),
            },
    {
        match code {
            0 => Ok(Self::V0),
            1 => Ok(Self::V1MissingAsUndefined),
            2 => Ok(Self::V2UseStringIds),
            _ => Err(TextIndexError::UnrecognizedVersion { code }),
        }
    }
}

/// One fragment of a text index: where its files are stored, how much it
/// holds, and a random identifier telling compacted segments apart.
#[derive(Clone, PartialEq, Eq, Debug)]
pub struct FragmentedTextSegment {
    pub segment_key: ObjectKey,
    pub id_tracker_key: ObjectKey,
    pub deleted_terms_table_key: ObjectKey,
    pub alive_bitset_key: ObjectKey,
    pub num_indexed_documents: u64,
    pub num_deleted_documents: u64,
    /// The total size of the segment's files when it was first built.
    pub size_bytes_total: u64,
    pub id: String,
}

impl FragmentedTextSegment {
    /// All four storage keys are valid.
    pub open spec fn wf(&self) -> bool {
        &&& self.segment_key.wf()
        &&& self.id_tracker_key.wf()
        &&& self.deleted_terms_table_key.wf()
        &&& self.alive_bitset_key.wf()
    }
}

/// The serialized document form of one segment: plain strings and counters.
#[derive(Clone, PartialEq, Eq, Debug)]
pub struct SerializedFragmentedTextSegment {
    pub segment_key: String,
    pub id_tracker_key: String,
    pub deleted_terms_table_key: String,
    pub alive_bitset_key: String,
    pub num_indexed_documents: u64,
    pub num_deleted_documents: u64,
    pub size_bytes_total: u64,
    pub id: String,
}

/// The protobuf form of a storage key.
#[derive(Clone, PartialEq, Eq, Debug)]
pub struct PbStorageKey {
    pub storage_key: String,
}

/// The protobuf form of one segment: every field optional, as generated
/// protobuf message types have them.
#[derive(Clone, PartialEq, Eq, Debug)]
pub struct PbFragmentedTextSegment {
    pub segment: Option<PbStorageKey>,
    pub id_tracker: Option<PbStorageKey>,
    pub deleted_terms_table: Option<PbStorageKey>,
    pub alive_bitset: Option<PbStorageKey>,
    pub num_indexed_documents: Option<u64>,
    pub num_deleted_documents: Option<u64>,
    pub size_bytes_total: Option<u64>,
    pub id: Option<String>,
}

/// A segment and its serialized document form carry the same data.
pub open spec fn segment_matches_serialized(
    s: FragmentedTextSegment,
    v: SerializedFragmentedTextSegment,
) -> bool {
    &&& s.segment_key.spec_key() == v.segment_key@
    &&& s.id_tracker_key.spec_key() == v.id_tracker_key@
    &&& s.deleted_terms_table_key.spec_key() == v.deleted_terms_table_key@
    &&& s.alive_bitset_key.spec_key() == v.alive_bitset_key@
    &&& s.num_indexed_documents == v.num_indexed_documents
    &&& s.num_deleted_documents == v.num_deleted_documents
    &&& s.size_bytes_total == v.size_bytes_total
    &&& s.id@ == v.id@
}

/// All four keys of the serialized form are valid object keys.
pub open spec fn serialized_segment_keys_valid(v: SerializedFragmentedTextSegment) -> bool {
    &&& valid_object_key(v.segment_key@)
    &&& valid_object_key(v.id_tracker_key@)
    &&& valid_object_key(v.deleted_terms_table_key@)
    &&& valid_object_key(v.alive_bitset_key@)
}

/// The first reason decoding the protobuf form of a segment fails, or
/// nothing if it decodes: fields are demanded and validated in declaration
/// order.
pub open spec fn pb_segment_decode_error(p: PbFragmentedTextSegment) -> Option<TextIndexError> {
    if p.segment is None {
        Some(TextIndexError::MissingSegment)
    } else if !valid_object_key(p.segment->0.storage_key@) {
        Some(TextIndexError::InvalidObjectKey)
    } else if p.id_tracker is None {
        Some(TextIndexError::MissingIdTracker)
    } else if !valid_object_key(p.id_tracker->0.storage_key@) {
        Some(TextIndexError::InvalidObjectKey)
    } else if p.deleted_terms_table is None {
        Some(TextIndexError::MissingDeletedTerms)
    } else if !valid_object_key(p.deleted_terms_table->0.storage_key@) {
        Some(TextIndexError::InvalidObjectKey)
    } else if p.alive_bitset is None {
        Some(TextIndexError::MissingAliveBitset)
    } else if !valid_object_key(p.alive_bitset->0.storage_key@) {
        Some(TextIndexError::InvalidObjectKey)
    } else if p.num_indexed_documents is None {
        Some(TextIndexError::MissingNumIndexed)
    } else if p.num_deleted_documents is None {
        Some(TextIndexError::MissingNumDeleted)
    } else if p.size_bytes_total is None {
        Some(TextIndexError::MissingSizeBytesTotal)
    } else if p.id is None {
        Some(TextIndexError::MissingId)
    } else {
        None
    }
}

/// A segment and its protobuf form carry the same data.
pub open spec fn segment_matches_pb(s: FragmentedTextSegment, p: PbFragmentedTextSegment) -> bool {
    &&& p.segment matches Some(k) && k.storage_key@ == s.segment_key.spec_key()
    &&& p.id_tracker matches Some(k) && k.storage_key@ == s.id_tracker_key.spec_key()
    &&& p.deleted_terms_table matches Some(k) && k.storage_key@
        == s.deleted_terms_table_key.spec_key()
    &&& p.alive_bitset matches Some(k) && k.storage_key@ == s.alive_bitset_key.spec_key()
    &&& p.num_indexed_documents == Some(s.num_indexed_documents)
    &&& p.num_deleted_documents == Some(s.num_deleted_documents)
    &&& p.size_bytes_total == Some(s.size_bytes_total)
    &&& p.id matches Some(id) && id@ == s.id@
}

impl FragmentedTextSegment {
    /// Encodes the segment as its protobuf form: every field present.
    pub fn to_proto(self) -> (r: PbFragmentedTextSegment)
        ensures
            segment_matches_pb(self, r),
            pb_segment_decode_error(r) is None <== self.wf(),
    {
        PbFragmentedTextSegment {
            segment: Some(PbStorageKey { storage_key: self.segment_key.into_string() }),
            id_tracker: Some(PbStorageKey { storage_key: self.id_tracker_key.into_string() }),
            deleted_terms_table: Some(
                PbStorageKey { storage_key: self.deleted_terms_table_key.into_string() },
            ),
            alive_bitset: Some(PbStorageKey { storage_key: self.alive_bitset_key.into_string() }),
            num_indexed_documents: Some(self.num_indexed_documents),
            num_deleted_documents: Some(self.num_deleted_documents),
            size_bytes_total: Some(self.size_bytes_total),
            id: Some(self.id),
        }
    }

    /// Decodes the protobuf form, demanding every field and validating each
    /// storage key; fails with exactly the first reason of
    /// [`pb_segment_decode_error`].
    pub fn try_from_proto(proto: PbFragmentedTextSegment) -> (r: Result<
        FragmentedTextSegment,
        TextIndexError,
    >)
        ensures
            match r {
                Ok(s) => pb_segment_decode_error(proto) is None && segment_matches_pb(s, proto)
                    && s.wf(),
                Err(e) => pb_segment_decode_error(proto) == Some(e),
            },
    {
        let PbFragmentedTextSegment {
            segment,
            id_tracker,
            deleted_terms_table,
            alive_bitset,
            num_indexed_documents,
            num_deleted_documents,
            size_bytes_total,
            id,
        } = proto;
        let segment_key = match segment {
            None => {
                return Err(TextIndexError::MissingSegment);
            },
            Some(k) => ObjectKey::try_from_string(k.storage_key)?,
        };
        let id_tracker_key = match id_tracker {
            None => {
                return Err(TextIndexError::MissingIdTracker);
            },
            Some(k) => ObjectKey::try_from_string(k.storage_key)?,
        };
        let deleted_terms_table_key = match deleted_terms_table {
            None => {
                return Err(TextIndexError::MissingDeletedTerms);
            },
            Some(k) => ObjectKey::try_from_string(k.storage_key)?,
        };
        let alive_bitset_key = match alive_bitset {
            None => {
                return Err(TextIndexError::MissingAliveBitset);
            },
            Some(k) => ObjectKey::try_from_string(k.storage_key)?,
        };
        let num_indexed_documents = match num_indexed_documents {
            None => {
                return Err(TextIndexError::MissingNumIndexed);
            },
            Some(n) => n,
        };
        let num_deleted_documents = match num_deleted_documents {
            None => {
                return Err(TextIndexError::MissingNumDeleted);
            },
            Some(n) => n,
        };
        let size_bytes_total = match size_bytes_total {
            None => {
                return Err(TextIndexError::MissingSizeBytesTotal);
            },
            Some(n) => n,
        };
        let id = match id {
            None => {
                return Err(TextIndexError::MissingId);
            },
            Some(s) => s,
        };
        Ok(FragmentedTextSegment {
            segment_key,
            id_tracker_key,
            deleted_terms_table_key,
            alive_bitset_key,
            num_indexed_documents,
            num_deleted_documents,
            size_bytes_total,
            id,
        })
    }

    /// Encodes the segment as its serialized document form.
    pub fn to_serialized(self) -> (r: SerializedFragmentedTextSegment)
        ensures
            segment_matches_serialized(self, r),
            self.wf() ==> serialized_segment_keys_valid(r),
    {
        SerializedFragmentedTextSegment {
            segment_key: self.segment_key.into_string(),
            id_tracker_key: self.id_tracker_key.into_string(),
            deleted_terms_table_key: self.deleted_terms_table_key.into_string(),
            alive_bitset_key: self.alive_bitset_key.into_string(),
            num_indexed_documents: self.num_indexed_documents,
            num_deleted_documents: self.num_deleted_documents,
            size_bytes_total: self.size_bytes_total,
            id: self.id,
        }
    }

    /// Decodes the serialized document form, validating each storage key;
    /// fails exactly when one of the four keys is invalid.
    pub fn try_from_serialized(v: SerializedFragmentedTextSegment) -> (r: Result<
        FragmentedTextSegment,
        TextIndexError,
    >)
        ensures
            match r {
                Ok(s) => serialized_segment_keys_valid(v) && segment_matches_serialized(s, v)
                    && s.wf(),
                Err(e) => !serialized_segment_keys_valid(v) && e == TextIndexError::InvalidObjectKey,
            },
    {
        Ok(FragmentedTextSegment {
            segment_key: ObjectKey::try_from_string(v.segment_key)?,
            id_tracker_key: ObjectKey::try_from_string(v.id_tracker_key)?,
            deleted_terms_table_key: ObjectKey::try_from_string(v.deleted_terms_table_key)?,
            alive_bitset_key: ObjectKey::try_from_string(v.alive_bitset_key)?,
            num_indexed_documents: v.num_indexed_documents,
            num_deleted_documents: v.num_deleted_documents,
            size_bytes_total: v.size_bytes_total,
            id: v.id,
        })
    }
}

/// The serialized form determines the segment: two segments matching one
/// serialized value agree on every storage key, every counter, and the id —
/// the round trip through the document form loses nothing.
pub proof fn lemma_serialized_segment_determines(
    s1: FragmentedTextSegment,
    s2: FragmentedTextSegment,
    v: SerializedFragmentedTextSegment,
)
    requires
        segment_matches_serialized(s1, v),
        segment_matches_serialized(s2, v),
    ensures
        s1.segment_key.spec_key() == s2.segment_key.spec_key(),
        s1.id_tracker_key.spec_key() == s2.id_tracker_key.spec_key(),
        s1.deleted_terms_table_key.spec_key() == s2.deleted_terms_table_key.spec_key(),
        s1.alive_bitset_key.spec_key() == s2.alive_bitset_key.spec_key(),
        s1.num_indexed_documents == s2.num_indexed_documents,
        s1.num_deleted_documents == s2.num_deleted_documents,
        s1.size_bytes_total == s2.size_bytes_total,
        s1.id@ == s2.id@,
{
}

/// The protobuf form determines the segment in the same way.
pub proof fn lemma_pb_segment_determines(
    s1: FragmentedTextSegment,
    s2: FragmentedTextSegment,
    p: PbFragmentedTextSegment,
)
    requires
        segment_matches_pb(s1, p),
        segment_matches_pb(s2, p),
    ensures
        s1.segment_key.spec_key() == s2.segment_key.spec_key(),
        s1.id_tracker_key.spec_key() == s2.id_tracker_key.spec_key(),
        s1.deleted_terms_table_key.spec_key() == s2.deleted_terms_table_key.spec_key(),
        s1.alive_bitset_key.spec_key() == s2.alive_bitset_key.spec_key(),
        s1.num_indexed_documents == s2.num_indexed_documents,
        s1.num_deleted_documents == s2.num_deleted_documents,
        s1.size_bytes_total == s2.size_bytes_total,
        s1.id@ == s2.id@,
{
}

/// The serialized document form of a snapshot's data. Only the multi-segment
/// format is a known serialization; anything else is carried as unknown.
#[derive(PartialEq, Eq, Debug)]
pub enum SerializedTextIndexSnapshotData {
    MultiSegment { segments: Vec<SerializedFragmentedTextSegment> },
}

/// A serialized value that is either of a known shape or an unrecognized
/// document carried through unmodified — the same idea as a protobuf message
/// with unknown fields.
#[derive(PartialEq, Eq, Debug)]
pub enum WithUnknown<T> {
    Known(T),
    Unknown(ConvexObject),
}

/// The data of one text index snapshot.
#[derive(PartialEq, Eq, Debug)]
pub enum TextIndexSnapshotData {
    /// The multi-segment format that can be built incrementally.
    MultiSegment(Vec<FragmentedTextSegment>),
    /// An unrecognized format, round-tripped without being modified, so
    /// index metadata survives rolling services backwards or forwards.
    Unknown(ConvexObject),
}

impl TextIndexSnapshotData {
    /// Every segment's storage keys are valid.
    pub open spec fn wf(&self) -> bool {
        self matches TextIndexSnapshotData::MultiSegment(segs) ==> forall|i: int|
            0 <= i < segs@.len() ==> (#[trigger] segs@[i]).wf()
    }
}

/// The serialized form decodes: every segment of a known multi-segment value
/// carries valid storage keys. Unknown data always decodes.
pub open spec fn serialized_data_decodes(w: WithUnknown<SerializedTextIndexSnapshotData>) -> bool {
    match w {
        WithUnknown::Known(SerializedTextIndexSnapshotData::MultiSegment { segments }) => forall|
            i: int,
        |
            0 <= i < segments@.len() ==> serialized_segment_keys_valid(#[trigger] segments@[i]),
        WithUnknown::Unknown(_) => true,
    }
}

/// Snapshot data and its serialized form carry the same segments, in order;
/// unknown data is the same document on both sides.
pub open spec fn data_matches_serialized(
    d: TextIndexSnapshotData,
    w: WithUnknown<SerializedTextIndexSnapshotData>,
) -> bool {
    match w {
        WithUnknown::Unknown(o) => d == TextIndexSnapshotData::Unknown(o),
        WithUnknown::Known(SerializedTextIndexSnapshotData::MultiSegment { segments }) => d matches
            TextIndexSnapshotData::MultiSegment(segs) && segs@.len() == segments@.len() && forall|
            i: int,
        |
            0 <= i < segments@.len() ==> segment_matches_serialized(
                #[trigger] segs@[i],
                segments@[i],
            ),
    }
}

impl TextIndexSnapshotData {
    /// Decodes the serialized form: known multi-segment data segment by
    /// segment, unknown data unmodified. Fails exactly when some segment
    /// carries an invalid storage key.
    #[verifier::loop_isolation(false)]
    pub fn try_from_unknown(value: WithUnknown<SerializedTextIndexSnapshotData>) -> (r: Result<
        TextIndexSnapshotData,
        TextIndexError,
    >)
        ensures
            match r {
                Ok(d) => serialized_data_decodes(value) && data_matches_serialized(d, value)
                    && d.wf(),
                Err(e) => !serialized_data_decodes(value) && e == TextIndexError::InvalidObjectKey,
            },
    {
        match value {
            WithUnknown::Known(SerializedTextIndexSnapshotData::MultiSegment { segments }) => {
                proof {
                    assert(value == WithUnknown::Known(
                        SerializedTextIndexSnapshotData::MultiSegment { segments },
                    ));
                }
                let ghost orig = segments@;
                let mut rest = segments;
                let mut segs: Vec<FragmentedTextSegment> = Vec::new();
                while rest.len() > 0
                    invariant
                        segs@.len() + rest@.len() == orig.len(),
                        rest@ == orig.skip(segs@.len() as int),
                        forall|i: int|
                            0 <= i < segs@.len() ==> serialized_segment_keys_valid(
                                #[trigger] orig[i],
                            ) && segment_matches_serialized(segs@[i], orig[i]) && segs@[i].wf(),
                    decreases rest@.len(),
                {
                    let ghost done = segs@.len() as int;
                    let v = rest.remove(0);
                    proof {
                        assert(v == orig[done]);
                        assert(rest@ =~= orig.skip(done + 1));
                    }
                    match FragmentedTextSegment::try_from_serialized(v) {
                        Ok(s) => {
                            segs.push(s);
                            proof {
                                assert forall|i: int|
                                    0 <= i < segs@.len() implies serialized_segment_keys_valid(
                                    #[trigger] orig[i],
                                ) && segment_matches_serialized(segs@[i], orig[i])
                                    && segs@[i].wf() by {
                                    if i < done {
                                        assert(segs@[i] == segs@.drop_last()[i]);
                                    } else {
                                        assert(segs@[i] == s);
                                    }
                                };
                            }
                        },
                        Err(e) => {
                            proof {
                                assert(0 <= done < orig.len());
                                assert(!serialized_data_decodes(value)) by {
                                    if serialized_data_decodes(value) {
                                        assert(serialized_segment_keys_valid(orig[done]));
                                    }
                                };
                            }
                            return Err(e);
                        },
                    }
                }
                Ok(TextIndexSnapshotData::MultiSegment(segs))
            },
            WithUnknown::Unknown(unknown) => Ok(TextIndexSnapshotData::Unknown(unknown)),
        }
    }

    /// Encodes the data as its serialized form: known multi-segment data
    /// segment by segment, unknown data unmodified.
    pub fn to_unknown(self) -> (r: WithUnknown<SerializedTextIndexSnapshotData>)
        ensures
            data_matches_serialized(self, r),
            self.wf() ==> serialized_data_decodes(r),
    {
        match self {
            TextIndexSnapshotData::MultiSegment(segs) => {
                let ghost orig = segs@;
                let mut rest = segs;
                let mut segments: Vec<SerializedFragmentedTextSegment> = Vec::new();
                while rest.len() > 0
                    invariant
                        segments@.len() + rest@.len() == orig.len(),
                        rest@ == orig.skip(segments@.len() as int),
                        forall|i: int|
                            0 <= i < segments@.len() ==> segment_matches_serialized(
                                #[trigger] orig[i],
                                segments@[i],
                            ) && (orig[i].wf() ==> serialized_segment_keys_valid(segments@[i])),
                    decreases rest@.len(),
                {
                    let ghost done = segments@.len() as int;
                    let s = rest.remove(0);
                    proof {
                        assert(s == orig[done]);
                        assert(rest@ =~= orig.skip(done + 1));
                    }
                    segments.push(s.to_serialized());
                }
                let ghost segv = segments@;
                let r = WithUnknown::Known(
                    SerializedTextIndexSnapshotData::MultiSegment { segments },
                );
                proof {
                    if self.wf() {
                        assert forall|i: int|
                            0 <= i < segv.len() implies serialized_segment_keys_valid(
                            #[trigger] segv[i],
                        ) by {
                            assert((#[trigger] orig[i]).wf());
                        };
                        assert(serialized_data_decodes(r));
                    }
                }
                r
            },
            TextIndexSnapshotData::Unknown(unknown) => WithUnknown::Unknown(unknown),
        }
    }
}

/// A snapshot of one text search index: its data, the timestamp it covers,
/// and the snapshot version it was written under.
#[derive(PartialEq, Eq, Debug)]
pub struct TextIndexSnapshot {
    pub data: TextIndexSnapshotData,
    pub ts: Timestamp,
    pub version: TextSnapshotVersion,
}

/// The serialized document form of a whole snapshot.
#[derive(PartialEq, Eq, Debug)]
pub struct SerializedTextIndexSnapshot {
    pub data: WithUnknown<SerializedTextIndexSnapshotData>,
    pub ts: i64,
    pub version: i64,
}

impl TextIndexSnapshot {
    /// Encodes the snapshot: its data, its timestamp, and its version code.
    pub fn to_serialized(self) -> (r: SerializedTextIndexSnapshot)
        requires
            self.ts.wf(),
        ensures
            data_matches_serialized(self.data, r.data),
            self.data.wf() ==> serialized_data_decodes(r.data),
            r.ts == self.ts.spec_nanos(),
            r.ts >= 0,
            r.version == self.version.spec_code(),
    {
        let ts = self.ts.to_i64();
        let version = self.version.to_code();
        SerializedTextIndexSnapshot { data: self.data.to_unknown(), ts, version }
    }

    /// Decodes a serialized snapshot: first its data, then the timestamp,
    /// then the version code, failing with the first reason in that order.
    pub fn try_from_serialized(serialized: SerializedTextIndexSnapshot) -> (r: Result<
        TextIndexSnapshot,
        TextIndexError,
    >)
        ensures
            match r {
                Ok(t) => {
                    &&& serialized_data_decodes(serialized.data)
                    &&& data_matches_serialized(t.data, serialized.data)
                    &&& serialized.ts >= 0
                    &&& t.ts.spec_nanos() == serialized.ts
                    &&& t.version.spec_code() == serialized.version
                },
                Err(e) => {
                    if !serialized_data_decodes(serialized.data) {
                        e == TextIndexError::InvalidObjectKey
                    } else if serialized.ts < 0 {
                        e == TextIndexError::NegativeTimestamp
                    } else {
                        !(0 <= serialized.version <= 2) && e == (TextIndexError::UnrecognizedVersion {
                            code: serialized.version,
                        })
                    }
                },
            },
    {
        let data = TextIndexSnapshotData::try_from_unknown(serialized.data)?;
        let ts = Timestamp::try_from_i64(serialized.ts)?;
        let version = TextSnapshotVersion::from_code(serialized.version)?;
        Ok(TextIndexSnapshot { data, ts, version })
    }
}

} // verus!
