//! Document identifiers and their protobuf forms: a developer-visible id is
//! a table number plus a 16-byte internal id; a resolved id additionally
//! carries the tablet the document lives in. Conversions validate exactly
//! what the wire cannot enforce: presence of every field, a nonzero table
//! number, and the fixed internal-id width.

use vstd::prelude::*;

verus! {

/// Why a protobuf document id could not be decoded.
#[derive(Clone, Copy, PartialEq, Eq, Structural, Debug)]
pub enum DocumentIdError {
    /// The `table_number` field was absent.
    MissingTableNumber,
    /// The `internal_id` field was absent.
    MissingInternalId,
    /// The `table` field was absent.
    MissingTable,
    /// The `table_id` field was absent.
    MissingTableId,
    /// A table number of zero, which no table carries.
    ZeroTableNumber,
    /// An internal id that is not exactly sixteen bytes.
    WrongInternalIdLength,
}

/// The width of an internal id, in bytes.
pub const INTERNAL_ID_LEN: usize = 16;

/// A 16-byte unique identifier.
#[derive(Clone, PartialEq, Eq, Debug)]
pub struct InternalId {
    bytes: Vec<u8>,
}

impl InternalId {
    /// The identifier's bytes.
    pub closed spec fn spec_bytes(&self) -> Seq<u8> {
        self.bytes@
    }

    /// An internal id is always exactly sixteen bytes.
    pub open spec fn wf(&self) -> bool {
        self.spec_bytes().len() == INTERNAL_ID_LEN
    }

    /// Validates a byte string as an internal id; rejects exactly the wrong
    /// widths.
    pub fn try_from_bytes(bytes: Vec<u8>) -> (r: Result<InternalId, DocumentIdError>)
        ensures
            match r {
                Ok(id) => bytes@.len() == INTERNAL_ID_LEN && id.spec_bytes() == bytes@ && id.wf(),
                Err(e) => bytes@.len() != INTERNAL_ID_LEN && e
                    == DocumentIdError::WrongInternalIdLength,
            },
    {
        if bytes.len() != INTERNAL_ID_LEN {
            Err(DocumentIdError::WrongInternalIdLength)
        } else {
            Ok(InternalId { bytes })
        }
    }

    /// Copies the identifier out as a byte vector.
    pub fn to_bytes(&self) -> (r: Vec<u8>)
        ensures
            r@ == self.spec_bytes(),
    {
        let mut out: Vec<u8> = Vec::new();
        let mut i: usize = 0;
        while i < self.bytes.len()
            invariant
                0 <= i <= self.bytes.len(),
                out@ == self.bytes@.take(i as int),
            decreases self.bytes.len() - i,
        {
            out.push(self.bytes[i]);
            i = i + 1;
            proof {
                assert(out@ =~= self.bytes@.take(i as int));
            }
        }
        proof {
            assert(out@ =~= self.bytes@);
        }
        out
    }
}

/// The number of the table a document belongs to; never zero.
#[derive(Clone, Copy, PartialEq, Eq, Structural, Debug)]
pub struct TableNumber {
    number: u32,
}

impl TableNumber {
    /// The numeric value.
    pub closed spec fn spec_number(&self) -> u32 {
        self.number
    }

    /// A table number is never zero.
    pub open spec fn wf(&self) -> bool {
        self.spec_number() != 0
    }

    /// Validates a number as a table number; rejects exactly zero.
    pub fn try_from_u32(number: u32) -> (r: Result<TableNumber, DocumentIdError>)
        ensures
            match r {
                Ok(t) => number != 0 && t.spec_number() == number && t.wf(),
                Err(e) => number == 0 && e == DocumentIdError::ZeroTableNumber,
            },
    {
        if number == 0 {
            Err(DocumentIdError::ZeroTableNumber)
        } else {
            Ok(TableNumber { number })
        }
    }

    /// The numeric value.
    pub fn to_u32(&self) -> (r: u32)
        ensures
            r == self.spec_number(),
    {
        self.number
    }
}

/// The id of the tablet a document physically lives in.
#[derive(Clone, PartialEq, Eq, Debug)]
pub struct TabletId(pub InternalId);

/// A document id as the developer sees it: which table, and which document
/// within it.
#[derive(Clone, PartialEq, Eq, Debug)]
pub struct DeveloperDocumentId {
    table_number: TableNumber,
    internal_id: InternalId,
}

impl DeveloperDocumentId {
    /// The table part.
    pub closed spec fn spec_table_number(&self) -> TableNumber {
        self.table_number
    }

    /// The per-document part.
    pub closed spec fn spec_internal_id(&self) -> InternalId {
        self.internal_id
    }

    /// Both parts are well-formed.
    pub open spec fn wf(&self) -> bool {
        self.spec_table_number().wf() && self.spec_internal_id().wf()
    }

    /// Assembles an id from its parts.
    pub fn new(table_number: TableNumber, internal_id: InternalId) -> (r: Self)
        ensures
            r.spec_table_number() == table_number,
            r.spec_internal_id() == internal_id,
    {
        DeveloperDocumentId { table_number, internal_id }
    }

    /// Takes the id apart into its parts.
    pub fn into_table_and_id(self) -> (r: (TableNumber, InternalId))
        ensures
            r.0 == self.spec_table_number(),
            r.1 == self.spec_internal_id(),
    {
        (self.table_number, self.internal_id)
    }

    /// The table part.
    pub fn table(&self) -> (r: TableNumber)
        ensures
            r == self.spec_table_number(),
    {
        self.table_number
    }

    /// Copies the per-document part's bytes out.
    pub fn internal_id_bytes(&self) -> (r: Vec<u8>)
        ensures
            r@ == self.spec_internal_id().spec_bytes(),
    {
        self.internal_id.to_bytes()
    }
}

/// Tablet and table number together: where a document lives physically and
/// which table it belongs to.
#[derive(Clone, PartialEq, Eq, Debug)]
pub struct TabletIdAndTableNumber {
    pub tablet_id: TabletId,
    pub table_number: TableNumber,
}

/// A fully resolved document id: the tablet holding the document plus its
/// developer-visible id.
#[derive(Clone, PartialEq, Eq, Debug)]
pub struct ResolvedDocumentId {
    pub tablet_id: TabletId,
    pub developer_id: DeveloperDocumentId,
}

/// The protobuf form of a developer document id: every field optional.
#[derive(Clone, PartialEq, Eq, Debug)]
pub struct PbDeveloperDocumentId {
    pub table_number: Option<u32>,
    pub internal_id: Option<Vec<u8>>,
}

/// The protobuf form of tablet-and-table-number: every field optional.
#[derive(Clone, PartialEq, Eq, Debug)]
pub struct PbTabletIdAndTableNumber {
    pub table_id: Option<Vec<u8>>,
    pub table_number: Option<u32>,
}

/// The protobuf form of a resolved document id: every field optional.
#[derive(Clone, PartialEq, Eq, Debug)]
pub struct PbResolvedDocumentId {
    pub table: Option<PbTabletIdAndTableNumber>,
    pub internal_id: Option<Vec<u8>>,
}

/// A developer id and its protobuf form carry the same data.
pub open spec fn developer_id_matches_pb(
    v: DeveloperDocumentId,
    p: PbDeveloperDocumentId,
) -> bool {
    &&& p.table_number == Some(v.spec_table_number().spec_number())
    &&& p.internal_id matches Some(b) && b@ == v.spec_internal_id().spec_bytes()
}

/// The first reason decoding a protobuf developer id fails, or nothing:
/// the table number is demanded and validated before the internal id.
pub open spec fn pb_developer_id_decode_error(p: PbDeveloperDocumentId) -> Option<
    DocumentIdError,
> {
    if p.table_number is None {
        Some(DocumentIdError::MissingTableNumber)
    } else if p.table_number->0 == 0 {
        Some(DocumentIdError::ZeroTableNumber)
    } else if p.internal_id is None {
        Some(DocumentIdError::MissingInternalId)
    } else if p.internal_id->0@.len() != INTERNAL_ID_LEN {
        Some(DocumentIdError::WrongInternalIdLength)
    } else {
        None
    }
}

impl DeveloperDocumentId {
    /// Encodes the id as its protobuf form: both fields present.
    pub fn to_proto(self) -> (r: PbDeveloperDocumentId)
        ensures
            developer_id_matches_pb(self, r),
            self.wf() ==> pb_developer_id_decode_error(r) is None,
    {
        let (table_number, internal_id) = self.into_table_and_id();
        PbDeveloperDocumentId {
            table_number: Some(table_number.to_u32()),
            internal_id: Some(internal_id.to_bytes()),
        }
    }

    /// Decodes the protobuf form, demanding both fields and validating each;
    /// fails with exactly the first reason of [`pb_developer_id_decode_error`].
    pub fn try_from_proto(p: PbDeveloperDocumentId) -> (r: Result<
        DeveloperDocumentId,
        DocumentIdError,
    >)
        ensures
            match r {
                Ok(v) => pb_developer_id_decode_error(p) is None && developer_id_matches_pb(v, p)
                    && v.wf(),
                Err(e) => pb_developer_id_decode_error(p) == Some(e),
            },
    {
        let table_number = match p.table_number {
            None => {
                return Err(DocumentIdError::MissingTableNumber);
            },
            Some(n) => TableNumber::try_from_u32(n)?,
        };
        let internal_id = match p.internal_id {
            None => {
                return Err(DocumentIdError::MissingInternalId);
            },
            Some(b) => InternalId::try_from_bytes(b)?,
        };
        Ok(DeveloperDocumentId::new(table_number, internal_id))
    }
}

/// A tablet-and-table-number and its protobuf form carry the same data.
pub open spec fn tablet_and_number_matches_pb(
    v: TabletIdAndTableNumber,
    p: PbTabletIdAndTableNumber,
) -> bool {
    &&& p.table_id matches Some(b) && b@ == v.tablet_id.0.spec_bytes()
    &&& p.table_number == Some(v.table_number.spec_number())
}

/// The first reason decoding a protobuf tablet-and-table-number fails, or
/// nothing: the table number is demanded and validated before the tablet id.
pub open spec fn pb_tablet_and_number_decode_error(p: PbTabletIdAndTableNumber) -> Option<
    DocumentIdError,
> {
    if p.table_number is None {
        Some(DocumentIdError::MissingTableNumber)
    } else if p.table_number->0 == 0 {
        Some(DocumentIdError::ZeroTableNumber)
    } else if p.table_id is None {
        Some(DocumentIdError::MissingTableId)
    } else if p.table_id->0@.len() != INTERNAL_ID_LEN {
        Some(DocumentIdError::WrongInternalIdLength)
    } else {
        None
    }
}

impl TabletIdAndTableNumber {
    /// Both parts are well-formed.
    pub open spec fn wf(&self) -> bool {
        self.tablet_id.0.wf() && self.table_number.wf()
    }

    /// Encodes the pair as its protobuf form: both fields present.
    pub fn to_proto(self) -> (r: PbTabletIdAndTableNumber)
        ensures
            tablet_and_number_matches_pb(self, r),
            self.wf() ==> pb_tablet_and_number_decode_error(r) is None,
    {
        PbTabletIdAndTableNumber {
            table_number: Some(self.table_number.to_u32()),
            table_id: Some(self.tablet_id.0.to_bytes()),
        }
    }

    /// Decodes the protobuf form, demanding both fields and validating each;
    /// fails with exactly the first reason of
    /// [`pb_tablet_and_number_decode_error`].
    pub fn try_from_proto(p: PbTabletIdAndTableNumber) -> (r: Result<
        TabletIdAndTableNumber,
        DocumentIdError,
    >)
        ensures
            match r {
                Ok(v) => pb_tablet_and_number_decode_error(p) is None
                    && tablet_and_number_matches_pb(v, p) && v.wf(),
                Err(e) => pb_tablet_and_number_decode_error(p) == Some(e),
            },
    {
        let table_number = match p.table_number {
            None => {
                return Err(DocumentIdError::MissingTableNumber);
            },
            Some(n) => TableNumber::try_from_u32(n)?,
        };
        let tablet_id = match p.table_id {
            None => {
                return Err(DocumentIdError::MissingTableId);
            },
            Some(b) => TabletId(InternalId::try_from_bytes(b)?),
        };
        Ok(TabletIdAndTableNumber { tablet_id, table_number })
    }
}

/// A resolved id and its protobuf form carry the same data.
pub open spec fn resolved_id_matches_pb(v: ResolvedDocumentId, p: PbResolvedDocumentId) -> bool {
    &&& p.table matches Some(t) && tablet_and_number_matches_pb(
        TabletIdAndTableNumber {
            tablet_id: v.tablet_id,
            table_number: v.developer_id.spec_table_number(),
        },
        t,
    )
    &&& p.internal_id matches Some(b) && b@ == v.developer_id.spec_internal_id().spec_bytes()
}

/// The first reason decoding a protobuf resolved id fails, or nothing: the
/// tablet-and-table-number part is demanded and decoded before the internal
/// id.
pub open spec fn pb_resolved_id_decode_error(p: PbResolvedDocumentId) -> Option<DocumentIdError> {
    if p.table is None {
        Some(DocumentIdError::MissingTable)
    } else if pb_tablet_and_number_decode_error(p.table->0) is Some {
        pb_tablet_and_number_decode_error(p.table->0)
    } else if p.internal_id is None {
        Some(DocumentIdError::MissingInternalId)
    } else if p.internal_id->0@.len() != INTERNAL_ID_LEN {
        Some(DocumentIdError::WrongInternalIdLength)
    } else {
        None
    }
}

impl ResolvedDocumentId {
    /// All parts are well-formed.
    pub open spec fn wf(&self) -> bool {
        self.tablet_id.0.wf() && self.developer_id.wf()
    }

    /// Encodes the id as its protobuf form: every field present.
    pub fn to_proto(self) -> (r: PbResolvedDocumentId)
        ensures
            resolved_id_matches_pb(self, r),
            self.wf() ==> pb_resolved_id_decode_error(r) is None,
    {
        let tablet_id_and_number = TabletIdAndTableNumber {
            tablet_id: self.tablet_id,
            table_number: self.developer_id.table(),
        };
        let internal_id = self.developer_id.internal_id_bytes();
        PbResolvedDocumentId {
            table: Some(tablet_id_and_number.to_proto()),
            internal_id: Some(internal_id),
        }
    }

    /// Decodes the protobuf form, demanding every field and validating each;
    /// fails with exactly the first reason of [`pb_resolved_id_decode_error`].
    pub fn try_from_proto(p: PbResolvedDocumentId) -> (r: Result<
        ResolvedDocumentId,
        DocumentIdError,
    >)
        ensures
            match r {
                Ok(v) => pb_resolved_id_decode_error(p) is None && resolved_id_matches_pb(v, p)
                    && v.wf(),
                Err(e) => pb_resolved_id_decode_error(p) == Some(e),
            },
    {
        let table = match p.table {
            None => {
                return Err(DocumentIdError::MissingTable);
            },
            Some(t) => TabletIdAndTableNumber::try_from_proto(t)?,
        };
        let internal_id = match p.internal_id {
            None => {
                return Err(DocumentIdError::MissingInternalId);
            },
            Some(b) => InternalId::try_from_bytes(b)?,
        };
        let developer_id = DeveloperDocumentId::new(table.table_number, internal_id);
        Ok(ResolvedDocumentId { tablet_id: table.tablet_id, developer_id })
    }
}

/// The protobuf form determines the developer id: two ids matching one
/// protobuf value agree on the table number and on every byte of the
/// internal id — the round trip through the wire loses nothing.
pub proof fn lemma_developer_id_proto_roundtrip(
    v1: DeveloperDocumentId,
    v2: DeveloperDocumentId,
    p: PbDeveloperDocumentId,
)
    requires
        developer_id_matches_pb(v1, p),
        developer_id_matches_pb(v2, p),
    ensures
        v1.spec_table_number() == v2.spec_table_number(),
        v1.spec_internal_id().spec_bytes() == v2.spec_internal_id().spec_bytes(),
{
}

/// The protobuf form determines the resolved id: two ids matching one
/// protobuf value agree on the tablet, the table number, and every byte of
/// the internal id.
pub proof fn lemma_resolved_id_proto_roundtrip(
    v1: ResolvedDocumentId,
    v2: ResolvedDocumentId,
    p: PbResolvedDocumentId,
)
    requires
        resolved_id_matches_pb(v1, p),
        resolved_id_matches_pb(v2, p),
    ensures
        v1.tablet_id.0.spec_bytes() == v2.tablet_id.0.spec_bytes(),
        v1.developer_id.spec_table_number() == v2.developer_id.spec_table_number(),
        v1.developer_id.spec_internal_id().spec_bytes()
            == v2.developer_id.spec_internal_id().spec_bytes(),
{
}

} // verus!
