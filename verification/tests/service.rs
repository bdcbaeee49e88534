use quotes::handlers::{
    create_quote, create_quote_response, health, read_quotes, update_quote, update_quote_response,
};
use quotes::quote::{CreateQuote, Quote};
use quotes::table::QuoteTable;
use quotes::{DbError, Status};

fn body(book: &str, quote: &str) -> CreateQuote {
    CreateQuote { book: book.to_string(), quote: quote.to_string() }
}

#[test]
fn health_always_ok() {
    assert_eq!(health(), Status::Okay);
    assert_eq!(health().code(), 200);
}

#[test]
fn health_ok_even_when_store_fails() {
    // The store is unreachable: every statement errors. Health is untouched.
    assert_eq!(update_quote_response(Err(DbError::Failure)), Status::InternalServerError);
    assert_eq!(health(), Status::Okay);
}

#[test]
fn status_codes() {
    assert_eq!(Status::Okay.code(), 200);
    assert_eq!(Status::Created.code(), 201);
    assert_eq!(Status::NotFound.code(), 404);
    assert_eq!(Status::InternalServerError.code(), 500);
}

#[test]
fn new_quote_has_equal_timestamps() {
    let q = Quote::new("Dune".to_string(), "Fear is the mind-killer".to_string());
    assert_eq!(q.book(), "Dune");
    assert_eq!(q.quote(), "Fear is the mind-killer");
    assert_eq!(q.inserted_at(), q.updated_at());
}

#[test]
fn create_then_read_all_adds_exactly_one_matching_record() {
    let mut table = QuoteTable::new();
    let first = create_quote(body("Emma", "Silly things do cease to be silly"));
    let first_id = first.id();
    assert!(table.insert(first).is_ok());

    let q = create_quote(body("Dune", "Fear is the mind-killer"));
    let id = q.id();
    let stamp = q.inserted_at();
    assert!(table.insert(q).is_ok());

    let rows = table.select_all();
    assert_eq!(rows.len(), 2);
    let new_row = rows.iter().find(|r| r.id() == id).unwrap();
    assert_eq!(new_row.book(), "Dune");
    assert_eq!(new_row.quote(), "Fear is the mind-killer");
    assert_eq!(new_row.inserted_at(), new_row.updated_at());
    assert_eq!(new_row.inserted_at(), stamp);
    assert_ne!(id, first_id);
    let old_row = rows.iter().find(|r| r.id() == first_id).unwrap();
    assert_eq!(old_row.book(), "Emma");
}

#[test]
fn update_then_read_all_shows_new_texts_and_later_stamp() {
    let mut table = QuoteTable::new();
    let q = Quote::new("Dune".to_string(), "Fear is the mind-killer".to_string());
    let id = q.id();
    let born = q.inserted_at();
    let prior = q.updated_at();
    assert!(table.insert(q).is_ok());

    let later = prior + 1;
    let affected = table.update(id, "Dune".to_string(), "I must not fear".to_string(), later);
    assert_eq!(affected, 1);
    assert_eq!(update_quote_response(Ok(affected)), Status::Okay);

    let rows = table.select_all();
    assert_eq!(rows.len(), 1);
    assert_eq!(rows[0].id(), id);
    assert_eq!(rows[0].book(), "Dune");
    assert_eq!(rows[0].quote(), "I must not fear");
    assert_eq!(rows[0].inserted_at(), born);
    assert!(rows[0].updated_at() > prior);
    assert_eq!(rows[0].updated_at(), later);
}

#[test]
fn update_unknown_id_is_not_found_and_changes_nothing() {
    let mut table = QuoteTable::new();
    let q = Quote::new("Dune".to_string(), "Fear is the mind-killer".to_string());
    let id = q.id();
    let stamp = q.updated_at();
    assert!(table.insert(q).is_ok());

    let unknown = id ^ 1;
    let affected = table.update(unknown, "Other".to_string(), "Other".to_string(), stamp + 1);
    assert_eq!(affected, 0);
    assert_eq!(update_quote_response(Ok(affected)), Status::NotFound);
    assert_eq!(update_quote_response(Ok(affected)).code(), 404);

    let rows = table.select_all();
    assert_eq!(rows.len(), 1);
    assert_eq!(rows[0].id(), id);
    assert_eq!(rows[0].book(), "Dune");
    assert_eq!(rows[0].quote(), "Fear is the mind-killer");
    assert_eq!(rows[0].updated_at(), stamp);
}

#[test]
fn many_creates_yield_as_many_distinct_ids() {
    let mut table = QuoteTable::new();
    let n = 8;
    for i in 0..n {
        let q = create_quote(body("Book", &format!("Quote {}", i)));
        assert!(table.insert(q).is_ok());
    }
    let rows = table.select_all();
    assert_eq!(rows.len(), n);
    for a in 0..n {
        for b in 0..n {
            if a != b {
                assert_ne!(rows[a].id(), rows[b].id());
            }
        }
    }
}

#[test]
fn inserting_one_id_twice_is_a_constraint_violation() {
    let mut table = QuoteTable::new();
    let q = Quote::new("Dune".to_string(), "Fear is the mind-killer".to_string());
    let copy = q.duplicate();
    assert!(table.insert(q).is_ok());
    assert_eq!(table.insert(copy), Err(DbError::Failure));
    assert_eq!(table.select_all().len(), 1);
}

#[test]
fn post_quotes_scenario_created_with_full_body() {
    let payload = body("Dune", "Fear is the mind-killer");
    let q = create_quote(payload);
    let response = create_quote_response(q, Ok(()));
    let (status, quote) = response.unwrap();
    assert_eq!(status, Status::Created);
    assert_eq!(status.code(), 201);
    assert_eq!(quote.book(), "Dune");
    assert_eq!(quote.quote(), "Fear is the mind-killer");
    assert_eq!(quote.inserted_at(), quote.updated_at());
}

#[test]
fn post_quotes_scenario_store_failure_is_500() {
    let q = create_quote(body("Dune", "Fear is the mind-killer"));
    let response = create_quote_response(q, Err(DbError::Failure));
    assert_eq!(response.unwrap_err(), Status::InternalServerError);
}

#[test]
fn put_unknown_id_scenario_404_no_body() {
    let mut table = QuoteTable::new();
    let payload = body("Dune", "I must not fear");
    let command = update_quote(42, payload);
    assert_eq!(command.id, 42);
    assert_eq!(command.book, "Dune");
    assert_eq!(command.quote, "I must not fear");
    let affected = table.update(command.id, command.book, command.quote, command.updated_at);
    assert_eq!(update_quote_response(Ok(affected)), Status::NotFound);
    assert_eq!(update_quote_response(Ok(affected)).code(), 404);
}

#[test]
fn get_quotes_scenario_empty_collection_is_200_and_empty() {
    let table = QuoteTable::new();
    let rows = table.select_all();
    let response = read_quotes(Ok(rows));
    let (status, listed) = response.unwrap();
    assert_eq!(status, Status::Okay);
    assert_eq!(status.code(), 200);
    assert!(listed.is_empty());
}

#[test]
fn get_quotes_scenario_store_failure_is_500() {
    let response = read_quotes(Err(DbError::Failure));
    assert_eq!(response.unwrap_err(), Status::InternalServerError);
}
