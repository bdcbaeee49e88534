//! The laws that relate the operations on the collection.

use vstd::prelude::*;

use crate::quote::QuoteView;
use crate::table::{
    contains_id, count_id, distinct_ids, lemma_count_distinct, update_rows, updated_row, wf_rows,
};

verus! {

/// Creating a record whose identifier is fresh and then reading every
/// row yields the old rows unchanged plus exactly one new record: its
/// texts are the input's, its identifier equals no pre-existing one, and
/// its `inserted_at` equals its `updated_at`. Identifiers stay pairwise
/// distinct.
pub proof fn lemma_create_then_read(rows: Seq<QuoteView>, q: QuoteView)
    requires
        distinct_ids(rows),
        !contains_id(rows, q.id),
        q.inserted_at == q.updated_at,
    ensures
        rows.push(q).len() == rows.len() + 1,
        rows.push(q).last() == q,
        forall|i: int| 0 <= i < rows.len() ==> rows.push(q)[i] == rows[i],
        forall|i: int| 0 <= i < rows.len() ==> rows[i].id != q.id,
        distinct_ids(rows.push(q)),
{
    let after = rows.push(q);
    assert forall|i: int, j: int| 0 <= i < j < after.len() implies after[i].id != after[j].id by {
        if j < rows.len() {
            assert(distinct_ids(rows));
        } else {
            assert(after[i] == rows[i]);
            assert(after[j] == q);
        }
    }
}

/// Updating an existing record and then reading every row shows the
/// same identifiers in the same places; the matched record carries the
/// new texts, its `inserted_at` unchanged and its `updated_at` strictly
/// greater than before; every other record is untouched. Exactly one
/// row is affected, so the statement signals success, never Not Found.
///
/// The strict growth of `updated_at` asks that the new instant lies
/// after the record's previous update, as it does whenever the clock
/// has advanced.
pub proof fn lemma_update_then_read(
    rows: Seq<QuoteView>,
    id: u128,
    book: Seq<char>,
    quote: Seq<char>,
    now: int,
)
    requires
        distinct_ids(rows),
        wf_rows(rows),
        contains_id(rows, id),
        forall|i: int| 0 <= i < rows.len() && rows[i].id == id ==> rows[i].updated_at < now,
    ensures
        update_rows(rows, id, book, quote, now).len() == rows.len(),
        forall|i: int|
            0 <= i < rows.len() ==> update_rows(rows, id, book, quote, now)[i].id == rows[i].id,
        forall|i: int|
            0 <= i < rows.len() && rows[i].id == id ==> update_rows(rows, id, book, quote, now)[i]
                == updated_row(rows[i], book, quote, now),
        forall|i: int|
            0 <= i < rows.len() && rows[i].id == id ==> update_rows(
                rows,
                id,
                book,
                quote,
                now,
            )[i].inserted_at == rows[i].inserted_at && update_rows(
                rows,
                id,
                book,
                quote,
                now,
            )[i].updated_at > rows[i].updated_at,
        forall|i: int|
            0 <= i < rows.len() && rows[i].id != id ==> update_rows(rows, id, book, quote, now)[i]
                == rows[i],
        distinct_ids(update_rows(rows, id, book, quote, now)),
        wf_rows(update_rows(rows, id, book, quote, now)),
        count_id(rows, id) == 1,
{
    lemma_count_distinct(rows, id);
}

/// An update aimed at an identifier no row carries affects zero rows —
/// so it signals Not Found — and leaves the collection exactly as it
/// was: a no-op, however often it is retried.
pub proof fn lemma_update_absent(
    rows: Seq<QuoteView>,
    id: u128,
    book: Seq<char>,
    quote: Seq<char>,
    now: int,
)
    requires
        !contains_id(rows, id),
    ensures
        update_rows(rows, id, book, quote, now) == rows,
        count_id(rows, id) == 0,
{
    lemma_count_zero(rows, id);
    assert(update_rows(rows, id, book, quote, now) =~= rows);
}

/// An update statement on an identifier no row carries matches nothing.
pub proof fn lemma_count_zero(rows: Seq<QuoteView>, id: u128)
    requires
        !contains_id(rows, id),
    ensures
        count_id(rows, id) == 0,
    decreases rows.len(),
{
    if rows.len() > 0 {
        let head = rows.drop_last();
        assert(!contains_id(head, id)) by {
            if contains_id(head, id) {
                let i = choose|i: int| 0 <= i < head.len() && head[i].id == id;
                assert(rows[i].id == id);
            }
        }
        lemma_count_zero(head, id);
        assert(rows.last().id != id) by {
            assert(rows[rows.len() - 1] == rows.last());
        }
    }
}

/// The uniqueness invariant, read row against row: a well-formed table
/// of n rows holds n pairwise distinct identifiers, so n creates —
/// however interleaved — that all succeeded yield n records no two of
/// which share an identifier.
pub proof fn lemma_ids_distinct(rows: Seq<QuoteView>)
    requires
        distinct_ids(rows),
    ensures
        forall|i: int, j: int|
            0 <= i < rows.len() && 0 <= j < rows.len() && i != j ==> rows[i].id != rows[j].id,
{
    assert forall|i: int, j: int|
        0 <= i < rows.len() && 0 <= j < rows.len() && i != j implies rows[i].id
        != rows[j].id by {
        if i < j {
            assert(distinct_ids(rows));
        } else {
            assert(rows[j].id != rows[i].id);
        }
    }
}

} // verus!
