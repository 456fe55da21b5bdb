use base64::Engine;
use vstd::prelude::*;

use crate::db::Store;
use crate::error::AppError;
use crate::util::dup_bytes;

verus! {

/// The persisted shape of the signing key: base64 text under a well-known
/// fixed slot in the store, exactly one logical instance per deployment.
#[derive(Clone, Debug)]
pub struct KeyRecord {
    pub key: String,
}

/// The canonical base64 text of a byte sequence, as produced by the
/// standard padded alphabet. A function of the bytes alone.
pub uninterp spec fn base64_of(bytes: Seq<u8>) -> Seq<char>;

/// Relies on `base64::engine::Engine::encode` with the `STANDARD` engine:
/// the canonical padded base64 text of the bytes, a pure function of
/// them.
#[verifier::external_body]
fn base64_encode(bytes: &[u8]) -> (r: String)
    ensures
        r@ == base64_of(bytes@),
{
    base64::engine::general_purpose::STANDARD.encode(bytes)
}

/// Relies on `base64::engine::Engine::decode` with the `STANDARD` engine:
/// it requires canonical padding and rejects non-canonical trailing bits,
/// so exactly the canonical encodings are accepted, and decoding one
/// returns the bytes it encodes.
#[verifier::external_body]
fn base64_decode(text: &str) -> (r: Option<Vec<u8>>)
    ensures
        r is Some ==> base64_of(r.unwrap()@) == text@,
        forall|bytes: Seq<u8>| text@ == base64_of(bytes) ==> r is Some && r.unwrap()@ == bytes,
{
    base64::engine::general_purpose::STANDARD.decode(text).ok()
}

/// Encode raw key material into its persisted record.
pub fn encode_key_record(bytes: &Vec<u8>) -> (rec: KeyRecord)
    ensures
        rec.key@ == base64_of(bytes@),
{
    KeyRecord { key: base64_encode(bytes.as_slice()) }
}

/// Decode a persisted record back into raw key material. Encoding and
/// then decoding recovers byte-identical key material: any record whose
/// text is the encoding of some bytes decodes to exactly those bytes.
pub fn decode_key_record(rec: &KeyRecord) -> (r: Option<Vec<u8>>)
    ensures
        forall|bytes: Seq<u8>| rec.key@ == base64_of(bytes) ==> (r matches Some(k) && k@ == bytes),
        r matches Some(k) ==> base64_of(k@) == rec.key@,
{
    base64_decode(rec.key.as_str())
}

/// Read the persisted signing key, or persist the freshly generated
/// material `fresh` when none is there, and return the key material in
/// use. A persisted record is never overwritten; a record that is not
/// canonical base64 is rejected as a persistence failure, with nothing
/// changed.
///
/// Within one process the single-initialization cell (see `cookie_key`)
/// serializes callers, so this branch runs at most once. Across
/// processes nothing serializes it: two processes that both observe an
/// empty slot would each persist their own key, last write winning.
/// Closing that gap needs a conditional write at the store, which the
/// persistence collaborator does not offer here.
pub fn get_key_from_db_or_generate(store: &mut Store, fresh: Vec<u8>) -> (r: Result<
    Vec<u8>,
    AppError,
>)
    ensures
        final(store).same_but_key(*old(store)),
        old(store).key_record is None ==> (r matches Ok(k) && k@ == fresh@)
            && (final(store).key_record matches Some(rec) && rec.key@ == base64_of(fresh@)),
        old(store).key_record is Some ==> final(store).key_record == old(store).key_record,
        old(store).key_record matches Some(rec) ==> {
            &&& (forall|bytes: Seq<u8>|
                rec.key@ == base64_of(bytes) ==> (r matches Ok(k) && k@ == bytes))
            &&& (r matches Ok(k) ==> base64_of(k@) == rec.key@)
            &&& (r is Err ==> r == Err::<Vec<u8>, AppError>(AppError::PersistenceFailure))
        },
        r is Err ==> old(store).key_record is Some,
{
    if store.key_record.is_none() {
        let rec = encode_key_record(&fresh);
        store.key_record = Some(rec);
        return Ok(fresh);
    }
    let rec = store.key_record.as_ref().unwrap();
    match decode_key_record(rec) {
        Some(bytes) => Ok(bytes),
        None => Err(AppError::PersistenceFailure),
    }
}

/// The process-local single-initialization cell for the signing key:
/// `Uninitialized` is an empty cache, `Ready` a filled one. The cell
/// serializes concurrent first callers, so the generate-or-load branch
/// runs at most once per process; later callers observe the cached key.
pub struct KeyCustody {
    pub cached: Option<Vec<u8>>,
}

/// One call of `cookie_key`, as a relation between the cell, the store
/// and the result before and after.
pub open spec fn custody_ok(
    pre_cell: KeyCustody,
    pre_store: Store,
    fresh: Seq<u8>,
    post_cell: KeyCustody,
    post_store: Store,
    r: Result<Vec<u8>, AppError>,
) -> bool {
    &&& post_store.same_but_key(pre_store)
    // a cached key is returned as is, and nothing is touched
    &&& (pre_cell.cached matches Some(k) ==> (r matches Ok(k2) && k2@ == k@) && post_cell
        == pre_cell && post_store == pre_store)
    // first caller on a fresh store: the fresh bytes are persisted and returned
    &&& (pre_cell.cached is None && pre_store.key_record is None ==> (r matches Ok(k) && k@
        == fresh) && (post_store.key_record matches Some(rec) && rec.key@ == base64_of(fresh)))
    // first caller on a store with a record: read only, never overwrite
    &&& (pre_cell.cached is None && pre_store.key_record is Some ==> post_store.key_record
        == pre_store.key_record)
    &&& (pre_cell.cached is None ==> (pre_store.key_record matches Some(rec) ==> {
        &&& (forall|bytes: Seq<u8>| rec.key@ == base64_of(bytes) ==> (r matches Ok(k) && k@ == bytes))
        &&& (r matches Ok(k) ==> base64_of(k@) == rec.key@)
        &&& (r is Err ==> r == Err::<Vec<u8>, AppError>(AppError::PersistenceFailure) && post_cell
            == pre_cell)
    }))
    // whatever key is returned is cached for the rest of the process
    &&& (r matches Ok(k) ==> (post_cell.cached matches Some(k2) && k2@ == k@))
    &&& (r is Err ==> pre_cell.cached is None && pre_store.key_record is Some)
}

impl KeyCustody {
    /// A fresh, uninitialized cell.
    pub fn new() -> (c: KeyCustody)
        ensures
            c.cached is None,
    {
        KeyCustody { cached: None }
    }
}

/// The signing key for this process: the cached key if the cell is
/// already initialized, otherwise the key read from or persisted to the
/// store, cached for the remainder of the process lifetime.
pub fn cookie_key(cell: &mut KeyCustody, store: &mut Store, fresh: Vec<u8>) -> (r: Result<
    Vec<u8>,
    AppError,
>)
    ensures
        custody_ok(*old(cell), *old(store), fresh@, *final(cell), *final(store), r),
{
    if let Some(k) = &cell.cached {
        return Ok(dup_bytes(k));
    }
    match get_key_from_db_or_generate(store, fresh) {
        Ok(k) => {
            cell.cached = Some(dup_bytes(&k));
            Ok(k)
        },
        Err(e) => Err(e),
    }
}

/// Two first-time callers, serialized by the single-initialization cell,
/// on a process whose store starts without a persisted key: exactly one
/// record is persisted (by the first call; the second changes nothing),
/// and both callers observe the same key bytes.
pub proof fn lemma_custody_exactly_once(
    cell0: KeyCustody,
    store0: Store,
    fresh1: Seq<u8>,
    cell1: KeyCustody,
    store1: Store,
    r1: Result<Vec<u8>, AppError>,
    fresh2: Seq<u8>,
    cell2: KeyCustody,
    store2: Store,
    r2: Result<Vec<u8>, AppError>,
)
    requires
        cell0.cached is None,
        store0.key_record is None,
        custody_ok(cell0, store0, fresh1, cell1, store1, r1),
        custody_ok(cell1, store1, fresh2, cell2, store2, r2),
    ensures
        r1 matches Ok(k1) && k1@ == fresh1,
        store1.key_record matches Some(rec) && rec.key@ == base64_of(fresh1),
        store2 == store1,
        r2 matches Ok(k2) && k2@ == fresh1,
{
}

/// A second process, with its own uninitialized cell, that reads the
/// record persisted by the first process recovers byte-identical key
/// material: the two processes converge on the same key bytes.
pub proof fn lemma_key_record_round_trip(
    cell0: KeyCustody,
    store0: Store,
    fresh1: Seq<u8>,
    cell1: KeyCustody,
    store1: Store,
    r1: Result<Vec<u8>, AppError>,
    other_cell: KeyCustody,
    fresh2: Seq<u8>,
    cell2: KeyCustody,
    store2: Store,
    r2: Result<Vec<u8>, AppError>,
)
    requires
        cell0.cached is None,
        store0.key_record is None,
        custody_ok(cell0, store0, fresh1, cell1, store1, r1),
        other_cell.cached is None,
        custody_ok(other_cell, store1, fresh2, cell2, store2, r2),
    ensures
        r2 matches Ok(k2) && k2@ == fresh1,
        store2.key_record == store1.key_record,
{
    assert(store1.key_record matches Some(rec) && rec.key@ == base64_of(fresh1));
}

} // verus!
