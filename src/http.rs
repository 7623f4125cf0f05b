//! The decisions of the HTTP surface: which status each outcome gets, and
//! which ids a batch insert reports.

use vstd::prelude::*;
use crate::domain::DeleteResult;
use crate::protocol::{DbError, ErrorKind};

verus! {

pub const OK: u16 = 200;

pub const CREATED: u16 = 201;

pub const NOT_FOUND: u16 = 404;

pub const INTERNAL_SERVER_ERROR: u16 = 500;

/// The largest request body the server accepts: 2 GiB.
pub const BODY_LIMIT: usize = 2147483648;

/// A delete answers 404 when it removed no file row, 200 otherwise.
pub open spec fn delete_status_of(r: DeleteResult) -> u16 {
    if r.files == 0 {
        NOT_FOUND
    } else {
        OK
    }
}

/// The status of a delete response.
pub fn delete_status(r: &DeleteResult) -> (s: u16)
    ensures
        s == delete_status_of(*r),
{
    if r.files == 0 {
        NOT_FOUND
    } else {
        OK
    }
}

/// A failed operation answers 404 when its target is absent, 500 when the
/// engine failed.
pub open spec fn failure_status_of(e: DbError) -> u16 {
    if e.kind == ErrorKind::NotFound {
        NOT_FOUND
    } else {
        INTERNAL_SERVER_ERROR
    }
}

/// The status of a failed operation.
pub fn failure_status(e: &DbError) -> (s: u16)
    ensures
        s == failure_status_of(*e),
{
    if e.kind == ErrorKind::NotFound {
        NOT_FOUND
    } else {
        INTERNAL_SERVER_ERROR
    }
}

/// The status of a delete: by the rows it removed, or by its failure.
pub fn delete_outcome_status(r: &Result<DeleteResult, DbError>) -> (s: u16)
    ensures
        s == match r {
            Ok(d) => delete_status_of(*d),
            Err(e) => failure_status_of(*e),
        },
{
    match r {
        Ok(d) => delete_status(d),
        Err(e) => failure_status(e),
    }
}

/// A collection answers 404 when it is empty, 200 otherwise.
pub fn collection_status(len: usize) -> (s: u16)
    ensures
        s == if len == 0 {
            NOT_FOUND
        } else {
            OK
        },
{
    if len == 0 {
        NOT_FOUND
    } else {
        OK
    }
}

/// The status of a collection read: by its size, or by its failure.
pub fn collection_outcome_status<T>(r: &Result<Vec<T>, DbError>) -> (s: u16)
    ensures
        s == match r {
            Ok(v) => if v@.len() == 0 {
                NOT_FOUND
            } else {
                OK
            },
            Err(e) => failure_status_of(*e),
        },
{
    match r {
        Ok(v) => collection_status(v.len()),
        Err(e) => failure_status(e),
    }
}

/// A single record answers 200 when found; else by its failure.
pub fn lookup_status<T>(r: &Result<T, DbError>) -> (s: u16)
    ensures
        s == match r {
            Ok(_) => OK,
            Err(e) => failure_status_of(*e),
        },
{
    match r {
        Ok(_) => OK,
        Err(e) => failure_status(e),
    }
}

/// The id an insert contributes to a batch response: a failed insert
/// contributes none and the batch goes on.
pub fn inserted_id(r: &Result<i64, DbError>) -> (id: Option<i64>)
    ensures
        id == match r {
            Ok(i) => Some(*i),
            Err(_) => None::<i64>,
        },
{
    match r {
        Ok(i) => Some(*i),
        Err(_) => None,
    }
}

/// The ids of the successful inserts among `results`, in order.
pub open spec fn created_ids_of(results: Seq<Result<i64, DbError>>) -> Seq<i64>
    decreases results.len(),
{
    if results.len() == 0 {
        Seq::empty()
    } else {
        let rest = created_ids_of(results.drop_last());
        match results.last() {
            Ok(i) => rest.push(i),
            Err(_) => rest,
        }
    }
}

/// Appends to `ids` the id of one more insert of a batch.
pub fn record_insert(ids: &mut Vec<i64>, r: &Result<i64, DbError>)
    ensures
        final(ids)@ == match r {
            Ok(i) => old(ids)@.push(*i),
            Err(_) => old(ids)@,
        },
{
    if let Some(id) = inserted_id(r) {
        ids.push(id);
    }
}

/// The body of a batch insert response: the ids of the inserts that
/// succeeded, in the order of the batch.
pub fn created_ids(results: &Vec<Result<i64, DbError>>) -> (ids: Vec<i64>)
    ensures
        ids@ == created_ids_of(results@),
{
    let mut ids: Vec<i64> = Vec::new();
    let mut i: usize = 0;
    while i < results.len()
        invariant
            i <= results@.len(),
            ids@ == created_ids_of(results@.subrange(0, i as int)),
        decreases results@.len() - i,
    {
        assert(results@.subrange(0, i as int + 1).drop_last() == results@.subrange(0, i as int));
        record_insert(&mut ids, &results[i]);
        i = i + 1;
    }
    assert(results@.subrange(0, results@.len() as int) == results@);
    ids
}

} // verus!
