//! Streaming-export vocabulary and the computations behind the export API
//! calls: assembling query parameters (with decimal-formatted cursors),
//! dropping absent parameters, classifying responses, and deriving the
//! column list of a table. The HTTP transport itself is out of scope.

use vstd::prelude::*;

verus! {

/// An opaque cursor into a consistent snapshot listing.
#[derive(Clone, PartialEq, Eq, Debug)]
pub struct ListSnapshotCursor(pub String);

/// A cursor into the document delta stream: an exclusive timestamp.
#[derive(Clone, Copy, PartialEq, Eq, Structural, Debug)]
pub struct DocumentDeltasCursor(pub i64);

/// The name of an exported table.
#[derive(Clone, PartialEq, Eq, PartialOrd, Ord, Hash, Debug)]
pub struct TableName(pub String);

/// The name of one column of an exported table.
#[derive(Clone, PartialEq, Eq, Debug)]
pub struct FieldName(pub String);

/// One document from the snapshot or delta APIs: its table, whether it was
/// deleted (always false in snapshot listings), and its fields, carried
/// through as structured values.
#[derive(Debug)]
pub struct SnapshotValue {
    pub table: String,
    pub deleted: bool,
    pub fields: Vec<(String, serde_json::Value)>,
}

/// A page of a consistent snapshot listing.
#[derive(Debug)]
pub struct ListSnapshotResponse {
    /// Documents, in (id, ts) order.
    pub values: Vec<SnapshotValue>,
    /// The snapshot timestamp; pass it to subsequent calls.
    pub snapshot: i64,
    /// Exclusive cursor for the next call.
    pub cursor: Option<String>,
    /// Whether another page follows.
    pub has_more: bool,
}

/// A page of document deltas.
#[derive(Debug)]
pub struct DocumentDeltasResponse {
    /// Document deltas, in timestamp order.
    pub values: Vec<SnapshotValue>,
    /// Exclusive cursor for the next call.
    pub cursor: i64,
    /// Whether another page follows.
    pub has_more: bool,
}

/// The ASCII byte of one decimal digit.
pub open spec fn decimal_digit(d: nat) -> u8
    recommends
        d < 10,
{
    (d + 48) as u8
}

/// The decimal representation of a number, as ASCII bytes, most significant
/// digit first, with no leading zeros (zero itself is a single digit).
pub open spec fn u64_decimal_bytes(n: nat) -> Seq<u8>
    decreases n,
{
    if n < 10 {
        seq![decimal_digit(n)]
    } else {
        u64_decimal_bytes(n / 10).push(decimal_digit(n % 10))
    }
}

/// The decimal representation of a signed number: a minus sign before the
/// magnitude when negative.
pub open spec fn i64_decimal_bytes(n: int) -> Seq<u8> {
    if n >= 0 {
        u64_decimal_bytes(n as nat)
    } else {
        seq![45u8] + u64_decimal_bytes((-n) as nat)
    }
}

/// The characters spell exactly the given ASCII bytes.
pub open spec fn chars_match_bytes(s: Seq<char>, b: Seq<u8>) -> bool {
    s.len() == b.len() && forall|i: int| 0 <= i < s.len() ==> (#[trigger] s[i]) as u32 == b[i] as u32
}

/// Relies on `String::from_utf8`: ASCII bytes decode to exactly one
/// character per byte, each with the byte's code point. The requires keeps
/// every input valid UTF-8, so the decode cannot fail.
#[verifier::external_body]
fn ascii_bytes_to_string(bytes: Vec<u8>) -> (r: String)
    requires
        forall|i: int| 0 <= i < bytes@.len() ==> bytes@[i] < 0x80,
    ensures
        chars_match_bytes(r@, bytes@),
{
    String::from_utf8(bytes).unwrap()
}

/// Every byte of a decimal representation is an ASCII digit.
proof fn lemma_u64_decimal_bytes_ascii(n: nat)
    ensures
        forall|i: int|
            0 <= i < u64_decimal_bytes(n).len() ==> 48 <= #[trigger] u64_decimal_bytes(n)[i] <= 57,
    decreases n,
{
    if n < 10 {
        assert(u64_decimal_bytes(n)[0] == decimal_digit(n));
    } else {
        lemma_u64_decimal_bytes_ascii(n / 10);
        let prefix = u64_decimal_bytes(n / 10);
        assert forall|i: int|
            0 <= i < u64_decimal_bytes(n).len() implies 48 <= #[trigger] u64_decimal_bytes(n)[i]
            <= 57 by {
            if i < prefix.len() {
                assert(u64_decimal_bytes(n)[i] == prefix[i]);
            } else {
                assert(u64_decimal_bytes(n)[i] == decimal_digit(n % 10));
            }
        };
    }
}

/// The decimal digits of a number, as ASCII bytes.
fn u64_decimal_byte_vec(n: u64) -> (r: Vec<u8>)
    ensures
        r@ == u64_decimal_bytes(n as nat),
{
    let mut reversed: Vec<u8> = Vec::new();
    let mut m: u64 = n;
    let ghost mut suffix: Seq<u8> = Seq::empty();
    proof {
        assert(u64_decimal_bytes(n as nat) =~= u64_decimal_bytes(n as nat) + suffix);
    }
    loop
        invariant_except_break
            suffix.len() == reversed@.len(),
            forall|k: int| 0 <= k < suffix.len() ==> suffix[k] == reversed@[suffix.len() - 1 - k],
            u64_decimal_bytes(n as nat) == u64_decimal_bytes(m as nat) + suffix,
            m > 0 || suffix.len() == 0,
        ensures
            suffix.len() == reversed@.len(),
            forall|k: int| 0 <= k < suffix.len() ==> suffix[k] == reversed@[suffix.len() - 1 - k],
            u64_decimal_bytes(n as nat) == suffix,
        decreases m, (if suffix.len() == 0 { 1int } else { 0int }),
    {
        let d: u8 = (m % 10) as u8 + 48;
        reversed.push(d);
        proof {
            let old_suffix = suffix;
            suffix = seq![d] + suffix;
            assert forall|k: int|
                0 <= k < suffix.len() implies suffix[k] == reversed@[suffix.len() - 1 - k] by {
                if k == 0 {
                    assert(suffix[0] == d);
                } else {
                    assert(suffix[k] == old_suffix[k - 1]);
                    assert(old_suffix[k - 1] == reversed@.drop_last()[old_suffix.len() - k]);
                }
            };
            if m >= 10 {
                assert(u64_decimal_bytes((m / 10) as nat).push(decimal_digit((m % 10) as nat))
                    == u64_decimal_bytes(m as nat));
                assert(u64_decimal_bytes(m as nat) + old_suffix =~= u64_decimal_bytes(
                    (m / 10) as nat,
                ) + suffix);
                assert(u64_decimal_bytes(n as nat) == u64_decimal_bytes((m / 10) as nat) + suffix);
            } else {
                assert(u64_decimal_bytes(m as nat) =~= seq![d]);
                assert(u64_decimal_bytes(m as nat) + old_suffix =~= suffix);
                assert(u64_decimal_bytes(n as nat) == suffix);
            }
        }
        m = m / 10;
        if m == 0 {
            break;
        }
        proof {
            assert(suffix.len() > 0);
        }
    }
    let mut out: Vec<u8> = Vec::new();
    let mut i: usize = reversed.len();
    while i > 0
        invariant
            0 <= i <= reversed@.len(),
            suffix.len() == reversed@.len(),
            forall|k: int| 0 <= k < suffix.len() ==> suffix[k] == reversed@[suffix.len() - 1 - k],
            out@.len() == reversed@.len() - i,
            forall|k: int| 0 <= k < out@.len() ==> out@[k] == suffix[k],
        decreases i,
    {
        i = i - 1;
        out.push(reversed[i]);
    }
    proof {
        assert(out@ =~= suffix);
    }
    out
}

/// The decimal string of an unsigned number.
pub fn decimal_string_u64(n: u64) -> (r: String)
    ensures
        chars_match_bytes(r@, u64_decimal_bytes(n as nat)),
{
    let digits = u64_decimal_byte_vec(n);
    proof {
        lemma_u64_decimal_bytes_ascii(n as nat);
    }
    ascii_bytes_to_string(digits)
}

/// The decimal string of a signed number, with a minus sign when negative.
pub fn decimal_string_i64(n: i64) -> (r: String)
    ensures
        chars_match_bytes(r@, i64_decimal_bytes(n as int)),
{
    if n >= 0 {
        decimal_string_u64(n as u64)
    } else {
        let magnitude: u64 = if n == i64::MIN {
            9223372036854775808u64
        } else {
            (-n) as u64
        };
        let mut digits: Vec<u8> = Vec::new();
        digits.push(45);
        let mut rest = u64_decimal_byte_vec(magnitude);
        digits.append(&mut rest);
        proof {
            lemma_u64_decimal_bytes_ascii(magnitude as nat);
            assert(digits@ =~= i64_decimal_bytes(n as int));
        }
        ascii_bytes_to_string(digits)
    }
}

/// The parameters that are present: pairs whose value is absent are dropped,
/// and the rest keep their order and values.
pub open spec fn present_parameters(params: Seq<(String, Option<String>)>) -> Seq<
    (String, String),
> {
    params.filter(|p: (String, Option<String>)| p.1 is Some).map_values(
        |p: (String, Option<String>)| (p.0, p.1->0),
    )
}

/// Drops the parameters without a value, keeping the others in order.
pub fn non_null_parameters(params: Vec<(String, Option<String>)>) -> (r: Vec<(String, String)>)
    ensures
        r@ == present_parameters(params@),
{
    let ghost orig = params@;
    let mut rest = params;
    let mut out: Vec<(String, String)> = Vec::new();
    proof {
        reveal_with_fuel(Seq::<(String, Option<String>)>::filter, 2);
        assert(orig.take(0) =~= Seq::<(String, Option<String>)>::empty());
        assert(present_parameters(orig.take(0)) =~= Seq::<(String, String)>::empty());
    }
    while rest.len() > 0
        invariant
            rest@.len() <= orig.len(),
            rest@ == orig.skip(orig.len() - rest@.len()),
            out@ == present_parameters(orig.take(orig.len() - rest@.len())),
        decreases rest@.len(),
    {
        let ghost done = orig.len() - rest@.len();
        let (key, value) = rest.remove(0);
        proof {
            assert(rest@ =~= orig.skip(done + 1));
            assert(orig.take(done + 1) =~= orig.take(done).push((key, value)));
            lemma_present_parameters_push(orig.take(done), (key, value));
        }
        match value {
            Some(v) => {
                out.push((key, v));
            },
            None => {},
        }
    }
    proof {
        assert(orig.take(orig.len() as int) =~= orig);
    }
    out
}

/// The query parameters of a snapshot listing call, in the order the API's
/// sorted parameter map sends them. Absent values stay absent; the cursor
/// passes through; the snapshot timestamp is formatted in decimal; the
/// format is always convex-encoded JSON.
pub fn list_snapshot_parameters(
    snapshot: Option<i64>,
    cursor: Option<ListSnapshotCursor>,
    table_name: Option<String>,
) -> (r: Vec<(String, Option<String>)>)
    ensures
        r@.len() == 4,
        r@[0].0@ == "cursor"@,
        (match cursor {
            Some(c) => r@[0].1 matches Some(v) && v == c.0,
            None => r@[0].1 is None,
        }),
        r@[1].0@ == "format"@,
        (r@[1].1 matches Some(v) && v@ == "convex_encoded_json"@),
        r@[2].0@ == "snapshot"@,
        (match snapshot {
            Some(s) => r@[2].1 matches Some(v) && chars_match_bytes(v@, i64_decimal_bytes(s as int)),
            None => r@[2].1 is None,
        }),
        r@[3].0@ == "tableName"@,
        r@[3].1 == table_name,
{
    let mut r: Vec<(String, Option<String>)> = Vec::new();
    let cursor_value: Option<String> = match cursor {
        Some(c) => Some(c.0),
        None => None,
    };
    r.push(("cursor".to_owned(), cursor_value));
    r.push(("format".to_owned(), Some("convex_encoded_json".to_owned())));
    let snapshot_value: Option<String> = match snapshot {
        Some(s) => Some(decimal_string_i64(s)),
        None => None,
    };
    r.push(("snapshot".to_owned(), snapshot_value));
    r.push(("tableName".to_owned(), table_name));
    r
}

/// The query parameters of a document deltas call, in the order the API's
/// sorted parameter map sends them: the cursor is always present, formatted
/// in decimal.
pub fn document_deltas_parameters(cursor: DocumentDeltasCursor, table_name: Option<String>) -> (r:
    Vec<(String, Option<String>)>)
    ensures
        r@.len() == 3,
        r@[0].0@ == "cursor"@,
        (r@[0].1 matches Some(v) && chars_match_bytes(v@, i64_decimal_bytes(cursor.0 as int))),
        r@[1].0@ == "format"@,
        (r@[1].1 matches Some(v) && v@ == "convex_encoded_json"@),
        r@[2].0@ == "tableName"@,
        r@[2].1 == table_name,
{
    let mut r: Vec<(String, Option<String>)> = Vec::new();
    r.push(("cursor".to_owned(), Some(decimal_string_i64(cursor.0))));
    r.push(("format".to_owned(), Some("convex_encoded_json".to_owned())));
    r.push(("tableName".to_owned(), table_name));
    r
}

/// A column name reserved for the system: prefixed with an underscore.
pub open spec fn is_underscore_column(name: Seq<char>) -> bool {
    name.len() > 0 && name[0] == '_'
}

/// The user columns kept from a table's raw column list: those without an
/// underscore prefix, in order.
pub open spec fn user_columns(columns: Seq<String>) -> Seq<String>
    decreases columns.len(),
{
    if columns.len() == 0 {
        Seq::empty()
    } else {
        let rest = user_columns(columns.drop_last());
        if is_underscore_column(columns.last()@) {
            rest
        } else {
            rest.push(columns.last())
        }
    }
}

/// The exported columns of one table: the two system columns every document
/// carries, then the table's own columns with every other underscore-prefixed
/// name dropped.
pub fn columns_for_table(all_columns: Vec<String>) -> (r: Vec<FieldName>)
    ensures
        r@.len() == 2 + user_columns(all_columns@).len(),
        r@[0].0@ == "_id"@,
        r@[1].0@ == "_creationTime"@,
        forall|k: int|
            0 <= k < user_columns(all_columns@).len() ==> (#[trigger] r@[k + 2]).0
                == user_columns(all_columns@)[k],
{
    let mut r: Vec<FieldName> = Vec::new();
    r.push(FieldName("_id".to_owned()));
    r.push(FieldName("_creationTime".to_owned()));
    let ghost orig = all_columns@;
    let mut rest = all_columns;
    proof {
        assert(orig.take(0) =~= Seq::<String>::empty());
    }
    while rest.len() > 0
        invariant
            rest@.len() <= orig.len(),
            rest@ == orig.skip(orig.len() - rest@.len()),
            r@.len() == 2 + user_columns(orig.take(orig.len() - rest@.len())).len(),
            r@[0].0@ == "_id"@,
            r@[1].0@ == "_creationTime"@,
            forall|k: int|
                0 <= k < r@.len() - 2 ==> (#[trigger] r@[k + 2]).0 == user_columns(
                    orig.take(orig.len() - rest@.len()),
                )[k],
        decreases rest@.len(),
    {
        let ghost done = orig.len() - rest@.len();
        let column = rest.remove(0);
        proof {
            assert(column == orig[done]);
            assert(rest@ =~= orig.skip(done + 1));
            assert(orig.take(done + 1).drop_last() =~= orig.take(done));
            assert(orig.take(done + 1).last() == column);
        }
        let keep: bool = if column.as_str().unicode_len() == 0 {
            true
        } else {
            column.as_str().get_char(0) != '_'
        };
        if keep {
            proof {
                assert(user_columns(orig.take(done + 1)) == user_columns(orig.take(done)).push(
                    column,
                ));
            }
            r.push(FieldName(column));
        } else {
            proof {
                assert(user_columns(orig.take(done + 1)) == user_columns(orig.take(done)));
            }
        }
    }
    proof {
        assert(orig.take(orig.len() as int) =~= orig);
    }
    r
}

/// How an export API response is classified: a failure keeps whatever text
/// the backend sent, so the host can report it.
#[derive(PartialEq, Eq, Debug)]
pub enum ApiError {
    /// The backend answered with an unsuccessful status and this body.
    UnsuccessfulResponse { text: String },
    /// The backend answered with an unsuccessful status and no readable
    /// body.
    NoResponseBody,
    /// The backend answered successfully but the body did not deserialize
    /// as the expected response.
    FailedDeserialization { message: String },
    /// The transport itself failed, with its message.
    Transport { message: String },
}

/// Decides what a response status and body mean: success passes, an
/// unsuccessful status fails with the body if one could be read.
pub fn classify_response(status_success: bool, text: Option<String>) -> (r: Result<(), ApiError>)
    ensures
        match r {
            Ok(()) => status_success,
            Err(ApiError::UnsuccessfulResponse { text: t }) => !status_success && (text matches Some(
                b,
            ) && t == b),
            Err(ApiError::NoResponseBody) => !status_success && text is None,
            Err(_) => false,
        },
{
    if status_success {
        Ok(())
    } else {
        match text {
            Some(body) => Err(ApiError::UnsuccessfulResponse { text: body }),
            None => Err(ApiError::NoResponseBody),
        }
    }
}

/// Appending one parameter appends its pair when the value is present and
/// nothing otherwise.
proof fn lemma_present_parameters_push(params: Seq<(String, Option<String>)>, p: (String, Option<String>))
    ensures
        present_parameters(params.push(p)) == (if p.1 is Some {
            present_parameters(params).push((p.0, p.1->0))
        } else {
            present_parameters(params)
        }),
{
    reveal_with_fuel(Seq::<(String, Option<String>)>::filter, 2);
    let pred = |q: (String, Option<String>)| q.1 is Some;
    let s2 = params.push(p);
    assert(s2.drop_last() =~= params);
    assert(s2.last() == p);
    if pred(p) {
        assert(s2.filter(pred) == params.filter(pred).push(p));
        assert(present_parameters(s2) =~= present_parameters(params).push((p.0, p.1->0)));
    } else {
        assert(s2.filter(pred) == params.filter(pred));
        assert(present_parameters(s2) =~= present_parameters(params));
    }
}

} // verus!
