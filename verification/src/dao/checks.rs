//! What the engine concludes from the counts and rows that the store returns.

use vstd::prelude::*;
use crate::error::{AppError, ErrorCode, is_error};
use crate::text::{decimal, push_decimal, push_str};

verus! {

/// The message for an update that did not change exactly one row.
pub open spec fn not_updated_msg(table: Seq<char>, id: Seq<char>, affected: nat) -> Seq<char> {
    table + "("@ + id + ") is not updated correctly, affects ("@ + decimal(affected) + ") != 1"@
}

/// The message for an update of a task's history that did not change exactly
/// one row.
pub open spec fn taskinst_not_updated_msg(id: Seq<char>, affected: nat) -> Seq<char> {
    "apf_hi_taskinst("@ + id + ") is not updated correctly, affects("@ + decimal(affected) + ") != 1"@
}

/// The message for a process instance whose own identifiers were not set.
pub open spec fn proc_inst_not_updated_msg(id: Seq<char>) -> Seq<char> {
    "apf_ru_execution("@ + id + ") is not updated"@
}

/// The message for a missing row.
pub open spec fn not_exist_msg(what: Seq<char>) -> Seq<char> {
    what + " is not exist"@
}

/// An update of the row `id` of `table` must change exactly one row (a row
/// changed concurrently keeps its old revision and is not changed): the
/// count, or an `InternalError` saying how many rows changed.
pub fn check_updated(table: &str, id: &str, affected: u64) -> (r: Result<u64, AppError>)
    ensures
        affected == 1 ==> r == Ok::<u64, AppError>(1),
        affected != 1 ==> (r matches Err(e) && is_error(e, ErrorCode::InternalError, not_updated_msg(table@, id@, affected as nat))),
{
    if affected != 1 {
        let mut msg = String::from_str(table);
        push_str(&mut msg, "(");
        push_str(&mut msg, id);
        push_str(&mut msg, ") is not updated correctly, affects (");
        push_decimal(&mut msg, affected);
        push_str(&mut msg, ") != 1");
        return Err(AppError::new(ErrorCode::InternalError, Some(msg.as_str()), "dao::check_updated", None));
    }
    Ok(affected)
}

/// As `check_updated`, for the history of the task `id`.
pub fn check_taskinst_updated(id: &str, affected: u64) -> (r: Result<u64, AppError>)
    ensures
        affected == 1 ==> r == Ok::<u64, AppError>(1),
        affected != 1 ==> (r matches Err(e) && is_error(e, ErrorCode::InternalError, taskinst_not_updated_msg(id@, affected as nat))),
{
    if affected != 1 {
        let mut msg = String::from_str("apf_hi_taskinst(");
        push_str(&mut msg, id);
        push_str(&mut msg, ") is not updated correctly, affects(");
        push_decimal(&mut msg, affected);
        push_str(&mut msg, ") != 1");
        return Err(AppError::new(ErrorCode::InternalError, Some(msg.as_str()), "ApfHiTaskinstDao::mark_end", None));
    }
    Ok(affected)
}

/// Setting the process instance of a new process instance `id` to itself must
/// change its row: a `NotFound` error otherwise.
pub fn check_proc_inst_updated(id: &str, affected: u64) -> (r: Result<(), AppError>)
    ensures
        affected == 1 ==> r is Ok,
        affected != 1 ==> (r matches Err(e) && is_error(e, ErrorCode::NotFound, proc_inst_not_updated_msg(id@))),
{
    if affected != 1 {
        let mut msg = String::from_str("apf_ru_execution(");
        push_str(&mut msg, id);
        push_str(&mut msg, ") is not updated");
        return Err(AppError::new(ErrorCode::NotFound, Some(msg.as_str()), "ApfRuExecutionDao::create_proc_inst", None));
    }
    Ok(())
}

/// The first of the rows found, or a `NotFound` error saying that `what` does
/// not exist where none was found.
pub fn first_row<T>(rows: Vec<T>, what: &str) -> (r: Result<T, AppError>)
    ensures
        rows@.len() > 0 ==> r == Ok::<T, AppError>(rows@[0]),
        rows@.len() == 0 ==> (r matches Err(e) && is_error(e, ErrorCode::NotFound, not_exist_msg(what@))),
{
    let mut rows = rows;
    if rows.len() == 0 {
        let mut msg = String::from_str(what);
        push_str(&mut msg, " is not exist");
        return Err(AppError::new(ErrorCode::NotFound, Some(msg.as_str()), "dao::first_row", None));
    }
    Ok(rows.remove(0))
}

/// The time from `start` to `end`, in milliseconds.
pub fn duration(start: i64, end: i64) -> (r: i64)
    requires
        i64::MIN <= end - start <= i64::MAX,
    ensures
        r == end - start,
{
    end - start
}

} // verus!
