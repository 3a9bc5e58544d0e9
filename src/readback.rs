use vstd::prelude::*;
use crate::document::{Document, DocumentView, NewDocument};
use crate::error::StoreError;

verus! {

/// How many of `rows` bear the external identifier `id`.
pub open spec fn id_count(rows: Seq<DocumentView>, id: Seq<char>) -> nat
    decreases rows.len(),
{
    if rows.len() == 0 {
        0
    } else {
        id_count(rows.drop_last(), id) + if rows.last().external_id == id {
            1nat
        } else {
            0nat
        }
    }
}

/// The views of a list of rows.
pub open spec fn views(rows: Seq<Document>) -> Seq<DocumentView> {
    rows.map_values(|d: Document| d@)
}

/// `d` is the stored form of `row`: same identifier, same payload text.
pub open spec fn stores(d: DocumentView, row: NewDocument) -> bool {
    d.external_id == row.external_id@ && d.payload == row.payload@
}

/// The rows read back show `row` stored exactly once and intact: exactly one
/// row bears its identifier, and that row holds its payload text.
pub open spec fn read_back_ok(row: NewDocument, rows: Seq<DocumentView>) -> bool {
    &&& id_count(rows, row.external_id@) == 1
    &&& exists|i: int| 0 <= i < rows.len() && #[trigger] stores(rows[i], row)
}

proof fn lemma_id_count_step(rows: Seq<DocumentView>, id: Seq<char>, i: int)
    requires
        0 <= i < rows.len(),
    ensures
        id_count(rows.take(i + 1), id) == id_count(rows.take(i), id) + if rows[i].external_id == id {
            1nat
        } else {
            0nat
        },
{
    assert(rows.take(i + 1).drop_last() =~= rows.take(i));
}

/// Two distinct rows that bear `id` make its count at least two.
proof fn lemma_id_count_other(rows: Seq<DocumentView>, id: Seq<char>, j: int, k: int)
    requires
        0 <= j < rows.len(),
        0 <= k < rows.len(),
        j != k,
        rows[j].external_id == id,
        rows[k].external_id == id,
    ensures
        id_count(rows, id) >= 2,
    decreases rows.len(),
{
    let n = rows.len() - 1;
    if j == n || k == n {
        let o = if j == n { k } else { j };
        lemma_id_count_has(rows.drop_last(), id, o);
    } else {
        lemma_id_count_other(rows.drop_last(), id, j, k);
    }
}

proof fn lemma_id_count_has(rows: Seq<DocumentView>, id: Seq<char>, j: int)
    requires
        0 <= j < rows.len(),
        rows[j].external_id == id,
    ensures
        id_count(rows, id) >= 1,
    decreases rows.len(),
{
    if j < rows.len() - 1 {
        lemma_id_count_has(rows.drop_last(), id, j);
    }
}

/// Picks, from the rows read back by `row`'s identifier, the row that stores it.
/// Fails with `ReadBackError` unless exactly one row bears the identifier and
/// that row holds the payload text that was written.
pub fn select_stored(row: &NewDocument, fetched: &Vec<Document>) -> (r: Result<Document, StoreError>)
    ensures
        r is Ok <==> read_back_ok(*row, views(fetched@)),
        r matches Ok(d) ==> stores(d@, *row) && views(fetched@).contains(d@),
        r is Err ==> r == Err::<Document, StoreError>(StoreError::ReadBackError),
{
    let ghost rows = views(fetched@);
    let mut count: usize = 0;
    let mut found: Option<usize> = None;
    let mut i: usize = 0;
    while i < fetched.len()
        invariant
            rows == views(fetched@),
            i <= fetched@.len(),
            count as nat == id_count(rows.take(i as int), row.external_id@),
            count <= i,
            match found {
                Some(k) => k < i && stores(rows[k as int], *row),
                None => forall|k: int| 0 <= k < i ==> !#[trigger] stores(rows[k], *row),
            },
        decreases fetched@.len() - i,
    {
        let d = &fetched[i];
        proof {
            lemma_id_count_step(rows, row.external_id@, i as int);
        }
        if d.external_id == row.external_id {
            count = count + 1;
            if d.payload == row.payload && found.is_none() {
                found = Some(i);
            }
        }
        i = i + 1;
    }
    assert(rows.take(i as int) =~= rows);
    match found {
        Some(k) => {
            if count == 1 {
                Ok(fetched[k].duplicate())
            } else {
                Err(StoreError::ReadBackError)
            }
        },
        None => Err(StoreError::ReadBackError),
    }
}

/// Two distinct rows of one read-back never share an identifier when the
/// read-back succeeds: the stored row is the only one that bears it.
pub proof fn lemma_read_back_unique(row: NewDocument, rows: Seq<DocumentView>, j: int, k: int)
    requires
        read_back_ok(row, rows),
        0 <= j < rows.len(),
        0 <= k < rows.len(),
        rows[j].external_id == row.external_id@,
        rows[k].external_id == row.external_id@,
    ensures
        j == k,
{
    if j != k {
        lemma_id_count_other(rows, row.external_id@, j, k);
    }
}

/// The rows of `db` that bear the identifier `id`, in table order: what a
/// read-back by that identifier returns.
pub open spec fn with_id(db: Seq<DocumentView>, id: Seq<char>) -> Seq<DocumentView>
    decreases db.len(),
{
    if db.len() == 0 {
        db
    } else if db.last().external_id == id {
        with_id(db.drop_last(), id).push(db.last())
    } else {
        with_id(db.drop_last(), id)
    }
}

/// No two rows of `db` share an external identifier.
pub open spec fn unique_ids(db: Seq<DocumentView>) -> bool {
    forall|i: int, j: int|
        0 <= i < db.len() && 0 <= j < db.len() && i != j ==> #[trigger] db[i].external_id
            != #[trigger] db[j].external_id
}

proof fn lemma_with_id_count(db: Seq<DocumentView>, id: Seq<char>)
    ensures
        id_count(with_id(db, id), id) == id_count(db, id),
    decreases db.len(),
{
    if db.len() > 0 {
        lemma_with_id_count(db.drop_last(), id);
        if db.last().external_id == id {
            assert(with_id(db, id).drop_last() =~= with_id(db.drop_last(), id));
        }
    }
}

/// A successful insert keeps identifiers unique: when the table held unique
/// identifiers, the new row was appended, and the read-back of every row
/// bearing the new identifier succeeds, then no earlier row bore that
/// identifier and the table still holds unique identifiers.
pub proof fn lemma_insert_keeps_ids_unique(db: Seq<DocumentView>, row: NewDocument, stored: DocumentView)
    requires
        unique_ids(db),
        stores(stored, row),
        read_back_ok(row, with_id(db.push(stored), row.external_id@)),
    ensures
        forall|i: int| 0 <= i < db.len() ==> #[trigger] db[i].external_id != row.external_id@,
        unique_ids(db.push(stored)),
{
    let id = row.external_id@;
    let after = db.push(stored);
    lemma_with_id_count(after, id);
    assert(after.drop_last() =~= db);
    assert forall|i: int| 0 <= i < db.len() implies #[trigger] db[i].external_id != id by {
        if db[i].external_id == id {
            lemma_id_count_has(db, id, i);
        }
    }
    assert forall|i: int, j: int|
        0 <= i < after.len() && 0 <= j < after.len() && i != j implies #[trigger] after[i].external_id
        != #[trigger] after[j].external_id by {
        if i < db.len() && j < db.len() {
            assert(db[i].external_id != db[j].external_id);
        } else if i < db.len() {
            assert(db[i].external_id != id);
        } else {
            assert(db[j].external_id != id);
        }
    }
}

/// Inserting the same payload twice gives two documents: when a document
/// `first` is in the table and a second insert succeeds as above, the second
/// row bears an identifier other than `first`'s.
pub proof fn lemma_two_inserts_distinct(
    db: Seq<DocumentView>,
    first: DocumentView,
    row: NewDocument,
    stored: DocumentView,
)
    requires
        unique_ids(db),
        db.contains(first),
        stores(stored, row),
        read_back_ok(row, with_id(db.push(stored), row.external_id@)),
    ensures
        first.external_id != row.external_id@,
        first.external_id != stored.external_id,
{
    lemma_insert_keeps_ids_unique(db, row, stored);
    let i = choose|i: int| 0 <= i < db.len() && db[i] == first;
    assert(db[i].external_id != row.external_id@);
}

} // verus!
