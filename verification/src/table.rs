//! A model of the quotes table: the exact effect of each of the three
//! statements the handlers issue, with the table's unique-key invariant.
//!
//! The store of truth is an external collaborator; the handlers assume of
//! it precisely the single-statement semantics written down here. The
//! model is executable so that the semantics can be exercised end to end.

use vstd::prelude::*;

use crate::quote::{Quote, QuoteView};
use crate::DbError;

verus! {

/// Whether some row of `rows` carries the identifier `id`.
pub open spec fn contains_id(rows: Seq<QuoteView>, id: u128) -> bool {
    exists|i: int| 0 <= i < rows.len() && rows[i].id == id
}

/// All identifiers in `rows` are pairwise distinct.
pub open spec fn distinct_ids(rows: Seq<QuoteView>) -> bool {
    forall|i: int, j: int| 0 <= i < j < rows.len() ==> rows[i].id != rows[j].id
}

/// Every row of `rows` is well formed.
pub open spec fn wf_rows(rows: Seq<QuoteView>) -> bool {
    forall|i: int| 0 <= i < rows.len() ==> rows[i].wf()
}

/// The row `r` after an update statement overwrote its texts and its
/// `updated_at`; `id` and `inserted_at` are kept.
pub open spec fn updated_row(r: QuoteView, book: Seq<char>, quote: Seq<char>, now: int) -> QuoteView {
    QuoteView { id: r.id, book, quote, inserted_at: r.inserted_at, updated_at: now }
}

/// The table after an update statement matched `id`: every row carrying
/// `id` is overwritten, every other row is kept as it was.
pub open spec fn update_rows(
    rows: Seq<QuoteView>,
    id: u128,
    book: Seq<char>,
    quote: Seq<char>,
    now: int,
) -> Seq<QuoteView> {
    rows.map(
        |i: int, r: QuoteView|
            if r.id == id {
                updated_row(r, book, quote, now)
            } else {
                r
            },
    )
}

/// How many rows of `rows` an update statement on `id` matches.
pub open spec fn count_id(rows: Seq<QuoteView>, id: u128) -> nat
    decreases rows.len(),
{
    if rows.len() == 0 {
        0
    } else {
        count_id(rows.drop_last(), id) + if rows.last().id == id {
            1nat
        } else {
            0nat
        }
    }
}

/// The quotes table: one row per record, keyed by the unique identifier.
pub struct QuoteTable {
    rows: Vec<Quote>,
}

impl View for QuoteTable {
    type V = Seq<QuoteView>;

    closed spec fn view(&self) -> Seq<QuoteView> {
        self.rows@.map(|i: int, q: Quote| q@)
    }
}

impl QuoteTable {
    /// The table's invariant: identifiers are unique across all rows —
    /// an identifier is never reused — and every row is well formed.
    pub open spec fn wf(&self) -> bool {
        distinct_ids(self@) && wf_rows(self@)
    }

    /// An empty table.
    pub fn new() -> (r: QuoteTable)
        ensures
            r@ == Seq::<QuoteView>::empty(),
            r.wf(),
    {
        let r = QuoteTable { rows: Vec::new() };
        proof {
            assert(r@ =~= Seq::<QuoteView>::empty());
        }
        r
    }

    /// The insert statement: adds `q` as a new row. The unique key
    /// refuses a duplicate identifier: then nothing changes and the
    /// statement fails with a constraint violation, which surfaces as
    /// the one opaque persistence error.
    #[verifier::loop_isolation(false)]
    pub fn insert(&mut self, q: Quote) -> (r: Result<(), DbError>)
        requires
            old(self).wf(),
            q@.wf(),
        ensures
            final(self).wf(),
            !contains_id(old(self)@, q@.id) ==> (r is Ok && final(self)@ == old(self)@.push(q@)),
            contains_id(old(self)@, q@.id) ==> (r is Err && final(self)@ == old(self)@),
    {
        let ghost rows0 = self@;
        let n = self.rows.len();
        let mut i: usize = 0;
        while i < n
            invariant
                n == self.rows.len(),
                self@ == rows0,
                0 <= i <= n,
                forall|k: int| 0 <= k < i ==> rows0[k].id != q@.id,
            decreases n - i,
        {
            if self.rows[i].id() == q.id() {
                proof {
                    assert(self@[i as int].id == q@.id);
                    assert(contains_id(old(self)@, q@.id));
                }
                return Err(DbError::Failure);
            }
            i += 1;
        }
        assert(!contains_id(rows0, q@.id));
        self.rows.push(q);
        proof {
            assert(self@ =~= rows0.push(q@));
            assert forall|a: int, b: int| 0 <= a < b < self@.len() implies self@[a].id
                != self@[b].id by {
                if b < rows0.len() {
                    assert(distinct_ids(rows0));
                } else {
                    assert(self@[a] == rows0[a]);
                    assert(self@[b] == q@);
                }
            }
        }
        Ok(())
    }

    /// The select statement: every row of the table, as the store holds
    /// it. No ordering is imposed beyond the store's own.
    #[verifier::loop_isolation(false)]
    pub fn select_all(&self) -> (r: Vec<Quote>)
        ensures
            r@.map(|i: int, q: Quote| q@) == self@,
    {
        let mut out: Vec<Quote> = Vec::new();
        let n = self.rows.len();
        let mut i: usize = 0;
        while i < n
            invariant
                n == self.rows.len(),
                0 <= i <= n,
                out@.len() == i,
                forall|k: int| 0 <= k < i ==> out@[k]@ == self@[k],
            decreases n - i,
        {
            out.push(self.rows[i].duplicate());
            i += 1;
        }
        proof {
            assert(out@.map(|i: int, q: Quote| q@) =~= self@);
        }
        out
    }

    /// The update statement: overwrites `book`, `quote` and `updated_at`
    /// of every row matching `id` — by the unique key, at most one — and
    /// returns how many rows it affected. A statement matching no row
    /// affects zero rows and changes nothing.
    ///
    /// `now` must not precede the matched row's creation: the clock the
    /// service reads does not run backwards past a record's birth.
    #[verifier::loop_isolation(false)]
    pub fn update(&mut self, id: u128, book: String, quote: String, now: i64) -> (r: u64)
        requires
            old(self).wf(),
            forall|i: int|
                0 <= i < old(self)@.len() && old(self)@[i].id == id ==> old(
                    self,
                )@[i].inserted_at <= now,
        ensures
            final(self).wf(),
            final(self)@ == update_rows(old(self)@, id, book@, quote@, now as int),
            r == count_id(old(self)@, id),
            contains_id(old(self)@, id) ==> r == 1,
            !contains_id(old(self)@, id) ==> (r == 0 && final(self)@ == old(self)@),
    {
        let ghost rows0 = self@;
        let n = self.rows.len();
        let mut out: Vec<Quote> = Vec::new();
        let mut i: usize = 0;
        let mut affected: u64 = 0;
        while i < n
            invariant
                n == self.rows.len(),
                self@ == rows0,
                0 <= i <= n,
                out@.len() == i,
                affected == count_id(rows0.take(i as int), id),
                affected <= i,
                forall|k: int|
                    0 <= k < i ==> out@[k]@ == (if rows0[k].id == id {
                        updated_row(rows0[k], book@, quote@, now as int)
                    } else {
                        rows0[k]
                    }),
            decreases n - i,
        {
            proof {
                assert(rows0.take(i + 1).drop_last() =~= rows0.take(i as int));
                assert(rows0.take(i + 1).last() == rows0[i as int]);
            }
            let row = self.rows[i].duplicate();
            if row.id() == id {
                out.push(Quote::with_fields(row.id(), book.clone(), quote.clone(), row.inserted_at(), now));
                affected += 1;
            } else {
                out.push(row);
            }
            i += 1;
        }
        self.rows = out;
        proof {
            assert(rows0.take(n as int) =~= rows0);
            assert(self@ =~= update_rows(rows0, id, book@, quote@, now as int));
            lemma_count_distinct(rows0, id);
            if !contains_id(rows0, id) {
                assert(self@ =~= rows0);
            }
        }
        affected
    }
}

/// In a table with pairwise distinct identifiers, an update statement
/// matches exactly one row when the identifier is present and none when
/// it is absent.
pub proof fn lemma_count_distinct(rows: Seq<QuoteView>, id: u128)
    requires
        distinct_ids(rows),
    ensures
        contains_id(rows, id) ==> count_id(rows, id) == 1,
        !contains_id(rows, id) ==> count_id(rows, id) == 0,
    decreases rows.len(),
{
    if rows.len() > 0 {
        let head = rows.drop_last();
        assert(distinct_ids(head));
        lemma_count_distinct(head, id);
        if rows.last().id == id {
            assert(!contains_id(head, id)) by {
                if contains_id(head, id) {
                    let i = choose|i: int| 0 <= i < head.len() && head[i].id == id;
                    assert(rows[i].id == rows[rows.len() - 1].id);
                }
            }
        } else {
            if contains_id(rows, id) {
                let i = choose|i: int| 0 <= i < rows.len() && rows[i].id == id;
                assert(0 <= i < head.len() && head[i].id == id);
            }
        }
    }
}

} // verus!
