//! The request handlers' decision logic.
//!
//! Each handler of the service performs exactly one persistence statement.
//! The functions here are its verified halves: what runs before the
//! statement (constructing the row to write) and what runs after it
//! (mapping the statement's outcome to a status and a body). The caller
//! issues the statement between the two and hands its outcome in as a
//! plain value.

use vstd::prelude::*;

use crate::quote::{now_micros, CreateQuote, Quote};
use crate::{DbError, Status};

verus! {

/// The health check: always signals OK, whatever the state of the
/// database — it touches nothing.
pub fn health() -> (r: Status)
    ensures
        r == Status::Okay,
{
    Status::Okay
}

/// The first half of the create handler: builds the record that the
/// insert statement will write, from the parsed request body. The
/// identifier is fresh and both timestamps are one instant.
pub fn create_quote(payload: CreateQuote) -> (r: Quote)
    ensures
        r@.book == payload.book@,
        r@.quote == payload.quote@,
        r@.inserted_at == r@.updated_at,
        r@.wf(),
{
    Quote::new(payload.book, payload.quote)
}

/// The second half of the create handler: if the insert succeeded, the
/// response is Created with the full record as body; any persistence
/// error collapses to Internal Server Error with no body.
pub fn create_quote_response(quote: Quote, res: Result<(), DbError>) -> (r: Result<
    (Status, Quote),
    Status,
>)
    ensures
        res is Ok ==> (r matches Ok(ok) && ok.0 == Status::Created && ok.1 == quote),
        res is Err ==> r == Result::<(Status, Quote), Status>::Err(Status::InternalServerError),
{
    match res {
        Ok(()) => Ok((Status::Created, quote)),
        Err(_) => Err(Status::InternalServerError),
    }
}

/// The list handler's decision: if the select succeeded, the response is
/// OK with every row the store returned, in the store's order (none is
/// imposed); any persistence error collapses to Internal Server Error.
pub fn read_quotes(res: Result<Vec<Quote>, DbError>) -> (r: Result<(Status, Vec<Quote>), Status>)
    ensures
        res matches Ok(rows) ==> (r matches Ok(ok) && ok.0 == Status::Okay && ok.1 == rows),
        res is Err ==> (r matches Err(e) && e == Status::InternalServerError),
{
    match res {
        Ok(rows) => Ok((Status::Okay, rows)),
        Err(_) => Err(Status::InternalServerError),
    }
}

/// The values the update statement binds: the two new texts, the new
/// `updated_at`, and the identifier of the row to match.
#[derive(Debug)]
pub struct UpdateCommand {
    pub id: u128,
    pub book: String,
    pub quote: String,
    pub updated_at: i64,
}

/// The first half of the update handler: builds the statement that
/// overwrites `book`, `quote` and `updated_at` for the row whose
/// identifier matches; `id` and `inserted_at` are never touched.
pub fn update_quote(id: u128, payload: CreateQuote) -> (r: UpdateCommand)
    ensures
        r.id == id,
        r.book@ == payload.book@,
        r.quote@ == payload.quote@,
{
    UpdateCommand { id, book: payload.book, quote: payload.quote, updated_at: now_micros() }
}

/// The second half of the update handler: a statement that matched no
/// row signals Not Found, one that matched a row signals OK, and any
/// persistence error collapses to Internal Server Error; no body in any
/// case.
pub fn update_quote_response(res: Result<u64, DbError>) -> (r: Status)
    ensures
        res == Result::<u64, DbError>::Ok(0u64) ==> r == Status::NotFound,
        (res matches Ok(n) && n > 0) ==> r == Status::Okay,
        res is Err ==> r == Status::InternalServerError,
{
    match res {
        Ok(0) => Status::NotFound,
        Ok(_) => Status::Okay,
        Err(_) => Status::InternalServerError,
    }
}

} // verus!
