use vstd::prelude::*;
use crate::db;
use crate::db::{Row, lists_result, items_result, created_result, check_result};
use crate::errors::{AppError, generic_message, INTERNAL_SERVER_ERROR};
use crate::models::{Status, TodoList, TodoItem, ResultResponse};

verus! {

/// Severity of a log entry.
#[derive(Debug, Clone, Copy, PartialEq, Eq, Structural)]
pub enum LogLevel {
    Critical,
    Error,
}

/// The logging context of one request: the name of the handler serving it.
#[derive(Debug)]
pub struct RequestLog {
    pub handler: String,
}

/// One structured log entry, tagged with the handler and the failure's cause.
#[derive(Debug)]
pub struct LogRecord {
    pub level: LogLevel,
    pub handler: String,
    pub cause: Option<String>,
    pub message: String,
}

impl RequestLog {
    pub fn new(handler: &str) -> (r: RequestLog)
        ensures
            r.handler@ == handler@,
    {
        RequestLog { handler: handler.to_string() }
    }
}

/// `rec` is the error-level entry for `e`: its cause and the message the client sees.
pub open spec fn is_error_entry(log: RequestLog, e: AppError, rec: LogRecord) -> bool {
    &&& rec.level == LogLevel::Error
    &&& rec.handler@ == log.handler@
    &&& rec.cause == e.cause
    &&& rec.message@ == e.resolved_message()
}

/// A failure is logged exactly once, a success not at all.
pub open spec fn logged<T>(log: RequestLog, r: Result<T, AppError>, rec: Option<LogRecord>) -> bool {
    match r {
        Ok(_) => rec is None,
        Err(e) => rec matches Some(x) && is_error_entry(log, e, x),
    }
}

fn copy_cause(cause: &Option<String>) -> (r: Option<String>)
    ensures
        r == *cause,
{
    match cause {
        Some(c) => Some(c.clone()),
        None => None,
    }
}

/// Turns the pool's answer into a client or a database error.
///
/// A failure carries the pool's message as its cause, maps to a 500 with the
/// generic message, and yields one critical entry holding that cause.
pub fn get_client<C>(log: &RequestLog, acquired: Result<C, String>) -> (r: (
    Result<C, AppError>,
    Option<LogRecord>,
))
    ensures
        match acquired {
            Ok(c) => r.0 == Ok::<C, AppError>(c) && r.1 is None,
            Err(m) => {
                &&& r.0 matches Err(e) && {
                    &&& e.is_db_error_with_cause(m@)
                    &&& e.status_of() == INTERNAL_SERVER_ERROR
                    &&& e.resolved_message() == generic_message()
                }
                &&& r.1 matches Some(rec) && {
                    &&& rec.level == LogLevel::Critical
                    &&& rec.handler@ == log.handler@
                    &&& rec.cause matches Some(c) && c@ == m@
                    &&& rec.message@ == "Error creating client"@
                }
            },
        },
{
    match acquired {
        Ok(client) => (Ok(client), None),
        Err(m) => {
            let rec = LogRecord {
                level: LogLevel::Critical,
                handler: log.handler.clone(),
                cause: Some(m.clone()),
                message: "Error creating client".to_string(),
            };
            (Err(AppError::db_error(m.as_str())), Some(rec))
        },
    }
}

/// The error handler of a request: hands the error back unchanged, with the
/// error-level entry that records it.
pub fn log_error(log: &RequestLog, err: AppError) -> (r: (AppError, LogRecord))
    ensures
        r.0 == err,
        is_error_entry(*log, err, r.1),
{
    let rec = LogRecord {
        level: LogLevel::Error,
        handler: log.handler.clone(),
        cause: copy_cause(&err.cause),
        message: err.message(),
    };
    (err, rec)
}

/// Passes a result through, logging it if it is a failure.
pub fn respond<T>(log: &RequestLog, result: Result<T, AppError>) -> (r: (
    Result<T, AppError>,
    Option<LogRecord>,
))
    ensures
        r.0 == result,
        logged(*log, r.0, r.1),
{
    match result {
        Ok(v) => (Ok(v), None),
        Err(e) => {
            let (e, rec) = log_error(log, e);
            (Err(e), Some(rec))
        },
    }
}

/// The liveness probe's body.
pub fn status() -> (r: Status)
    ensures
        r.status@ == "UP"@,
{
    Status { status: "UP".to_string() }
}

/// The response to a request for the recent lists.
pub fn get_todos(log: &RequestLog, outcome: Result<Vec<Row>, String>) -> (r: (
    Result<Vec<TodoList>, AppError>,
    Option<LogRecord>,
))
    ensures
        lists_result(outcome, r.0),
        logged(*log, r.0, r.1),
{
    respond(log, db::get_todos(outcome))
}

/// The response to a request for the items of a list.
pub fn get_itmes(log: &RequestLog, outcome: Result<Vec<Row>, String>) -> (r: (
    Result<Vec<TodoItem>, AppError>,
    Option<LogRecord>,
))
    ensures
        items_result(outcome, r.0),
        logged(*log, r.0, r.1),
{
    respond(log, db::get_itmes(outcome))
}

/// The response to a request that creates a list.
pub fn create_todo(log: &RequestLog, outcome: Result<Vec<Row>, String>) -> (r: (
    Result<TodoList, AppError>,
    Option<LogRecord>,
))
    ensures
        created_result(outcome, r.0),
        logged(*log, r.0, r.1),
{
    respond(log, db::create_todo(outcome))
}

/// The response to a request that checks an item.
pub fn check_itme(log: &RequestLog, outcome: Result<u64, String>) -> (r: (
    Result<ResultResponse, AppError>,
    Option<LogRecord>,
))
    ensures
        match outcome {
            Ok(n) if n == 0 || n == 1 => r.0 matches Ok(body) && body.success == (n == 1),
            _ => exists|e: AppError| check_result(outcome, Err(e)) && r.0 == Err::<ResultResponse, AppError>(e),
        },
        logged(*log, r.0, r.1),
{
    let result = match db::check_item(outcome) {
        Ok(updated) => Ok(ResultResponse { success: updated }),
        Err(e) => Err(e),
    };
    respond(log, result)
}

} // verus!
