//! The entity model: the `Quote` record and its construction rule.

use vstd::prelude::*;

verus! {

/// The mathematical value of a [`Quote`]: the identifier, the two text
/// fields, and the two timestamps as unbounded integers.
pub struct QuoteView {
    pub id: u128,
    pub book: Seq<char>,
    pub quote: Seq<char>,
    pub inserted_at: int,
    pub updated_at: int,
}

impl QuoteView {
    /// A record is well formed when it was never updated to a moment
    /// before its creation.
    pub open spec fn wf(self) -> bool {
        self.inserted_at <= self.updated_at
    }
}

/// The sole persisted entity: a quoted excerpt with its source work,
/// a server-assigned unique identifier and two timestamps.
///
/// `id` is assigned at construction and never changes afterwards;
/// `inserted_at` is set once, at construction; `updated_at` starts equal
/// to `inserted_at` and is rewritten on every successful update.
/// Timestamps count microseconds since the Unix epoch.
#[derive(Debug)]
pub struct Quote {
    id: u128,
    book: String,
    quote: String,
    inserted_at: i64,
    updated_at: i64,
}

impl View for Quote {
    type V = QuoteView;

    closed spec fn view(&self) -> QuoteView {
        QuoteView {
            id: self.id,
            book: self.book@,
            quote: self.quote@,
            inserted_at: self.inserted_at as int,
            updated_at: self.updated_at as int,
        }
    }
}

/// Relies on `uuid::Uuid::new_v4`, which draws a random identifier, and
/// `Uuid::as_u128`, which returns its value as one integer. The result is
/// random, so nothing is promised of it.
#[verifier::external_body]
fn fresh_id() -> u128 {
    uuid::Uuid::new_v4().as_u128()
}

/// Relies on `chrono::Utc::now` for the current instant and
/// `DateTime::timestamp_micros` for its value in microseconds since the
/// Unix epoch. The result depends on the clock, so nothing is promised
/// of it.
#[verifier::external_body]
pub(crate) fn now_micros() -> i64 {
    chrono::Utc::now().timestamp_micros()
}

impl Quote {
    /// Constructs a brand-new record: a fresh server-assigned identifier,
    /// the given texts, and both timestamps set to the same instant.
    pub fn new(book: String, quote: String) -> (r: Quote)
        ensures
            r@.book == book@,
            r@.quote == quote@,
            r@.inserted_at == r@.updated_at,
            r@.wf(),
    {
        let now = now_micros();
        Quote { id: fresh_id(), book, quote, inserted_at: now, updated_at: now }
    }

    /// The server-assigned identifier.
    pub fn id(&self) -> (r: u128)
        ensures
            r == self@.id,
    {
        self.id
    }

    /// The source work.
    pub fn book(&self) -> (r: &String)
        ensures
            r@ == self@.book,
    {
        &self.book
    }

    /// The quoted excerpt.
    pub fn quote(&self) -> (r: &String)
        ensures
            r@ == self@.quote,
    {
        &self.quote
    }

    /// The creation instant, in microseconds since the Unix epoch.
    pub fn inserted_at(&self) -> (r: i64)
        ensures
            r == self@.inserted_at,
    {
        self.inserted_at
    }

    /// The instant of the last update, in microseconds since the Unix epoch.
    pub fn updated_at(&self) -> (r: i64)
        ensures
            r == self@.updated_at,
    {
        self.updated_at
    }

    /// A record as a fetched row holds it. The record is returned only
    /// when the row respects the model's invariant — it was never
    /// updated to a moment before its creation; a row that breaks it
    /// cannot be one this service wrote.
    pub fn from_row(
        id: u128,
        book: String,
        quote: String,
        inserted_at: i64,
        updated_at: i64,
    ) -> (r: Option<Quote>)
        ensures
            r is Some <==> inserted_at <= updated_at,
            r matches Some(q) ==> q@ == (QuoteView {
                id,
                book: book@,
                quote: quote@,
                inserted_at: inserted_at as int,
                updated_at: updated_at as int,
            }),
    {
        if inserted_at <= updated_at {
            Some(Quote { id, book, quote, inserted_at, updated_at })
        } else {
            None
        }
    }

    /// A record assembled field by field; realizes the update
    /// statement's overwrite of an existing row.
    pub(crate) fn with_fields(
        id: u128,
        book: String,
        quote: String,
        inserted_at: i64,
        updated_at: i64,
    ) -> (r: Quote)
        ensures
            r@ == (QuoteView {
                id,
                book: book@,
                quote: quote@,
                inserted_at: inserted_at as int,
                updated_at: updated_at as int,
            }),
    {
        Quote { id, book, quote, inserted_at, updated_at }
    }

    /// An exact copy of the record.
    pub fn duplicate(&self) -> (r: Quote)
        ensures
            r@ == self@,
    {
        Quote {
            id: self.id,
            book: self.book.clone(),
            quote: self.quote.clone(),
            inserted_at: self.inserted_at,
            updated_at: self.updated_at,
        }
    }
}

/// The parsed body of a create or update request: both fields are
/// required; a body missing either never reaches the handlers.
#[derive(Debug)]
pub struct CreateQuote {
    pub book: String,
    pub quote: String,
}

} // verus!
