use vstd::prelude::*;
use crate::errors::{AppError, AppErrorType};
use crate::models::{TodoList, TodoItem};

verus! {

/// The ten most recent lists, newest first.
pub const SELECT_TODO_LISTS: &'static str = "select * from todo_list order by id desc limit 10";

/// The items of one list, in ascending id order.
pub const SELECT_TODO_ITEMS: &'static str = "select * from todo_item where list_id = $1 order by id";

/// Inserts a list and returns its generated id and title in the same round trip.
pub const INSERT_TODO_LIST: &'static str = "insert into todo_list (title) values ($1) returning id, title";

/// Checks an item only if it belongs to the list and is not checked yet.
pub const CHECK_TODO_ITEM: &'static str = "update todo_item set checked = true where list_id = $1 and id = $2 and checked = false";

/// The value of one column of a result row.
#[derive(Debug)]
pub enum SqlValue {
    Int(i32),
    Text(String),
    Bool(bool),
    Null,
}

/// One named column of a result row.
#[derive(Debug)]
pub struct Column {
    pub name: String,
    pub value: SqlValue,
}

/// A result row, as the driver hands it over.
#[derive(Debug)]
pub struct Row {
    pub columns: Vec<Column>,
}

/// The value of the first column named `name`, if any.
pub open spec fn lookup(cols: Seq<Column>, name: Seq<char>) -> Option<SqlValue>
    decreases cols.len(),
{
    if cols.len() == 0 {
        None
    } else if cols[0].name@ == name {
        Some(cols[0].value)
    } else {
        lookup(cols.drop_first(), name)
    }
}

/// The list a row describes, if its `id` and `title` columns are present and typed.
pub open spec fn list_from_row(row: Row) -> Option<TodoList> {
    match (lookup(row.columns@, "id"@), lookup(row.columns@, "title"@)) {
        (Some(SqlValue::Int(id)), Some(SqlValue::Text(title))) => Some(TodoList { id, title }),
        _ => None,
    }
}

/// The item a row describes, if its four columns are present and typed.
pub open spec fn item_from_row(row: Row) -> Option<TodoItem> {
    match (
        lookup(row.columns@, "id"@),
        lookup(row.columns@, "title"@),
        lookup(row.columns@, "checked"@),
        lookup(row.columns@, "list_id"@),
    ) {
        (
            Some(SqlValue::Int(id)),
            Some(SqlValue::Text(title)),
            Some(SqlValue::Bool(checked)),
            Some(SqlValue::Int(list_id)),
        ) => Some(TodoItem { id, title, checked, list_id }),
        _ => None,
    }
}

pub open spec fn all_lists(rows: Seq<Row>) -> bool {
    forall|i: int| 0 <= i < rows.len() ==> (#[trigger] list_from_row(rows[i])) is Some
}

pub open spec fn all_items(rows: Seq<Row>) -> bool {
    forall|i: int| 0 <= i < rows.len() ==> (#[trigger] item_from_row(rows[i])) is Some
}

pub open spec fn lists_of(rows: Seq<Row>) -> Seq<TodoList> {
    rows.map_values(|row: Row| list_from_row(row)->0)
}

pub open spec fn items_of(rows: Seq<Row>) -> Seq<TodoItem> {
    rows.map_values(|row: Row| item_from_row(row)->0)
}

/// A database failure that does not come from the driver's own error.
pub open spec fn is_data_error(e: AppError) -> bool {
    &&& e.message is None
    &&& e.cause is Some
    &&& e.error_type == AppErrorType::DbError
}

/// What the list query's outcome becomes.
pub open spec fn lists_result(
    outcome: Result<Vec<Row>, String>,
    r: Result<Vec<TodoList>, AppError>,
) -> bool {
    match outcome {
        Err(m) => r matches Err(e) && e.is_db_error_with_cause(m@),
        Ok(rows) => if all_lists(rows@) {
            r matches Ok(v) && v@ == lists_of(rows@)
        } else {
            r matches Err(e) && is_data_error(e)
        },
    }
}

/// What the item query's outcome becomes.
pub open spec fn items_result(
    outcome: Result<Vec<Row>, String>,
    r: Result<Vec<TodoItem>, AppError>,
) -> bool {
    match outcome {
        Err(m) => r matches Err(e) && e.is_db_error_with_cause(m@),
        Ok(rows) => if all_items(rows@) {
            r matches Ok(v) && v@ == items_of(rows@)
        } else {
            r matches Err(e) && is_data_error(e)
        },
    }
}

/// What the insert's outcome becomes: the last row returned, which must exist.
pub open spec fn created_result(outcome: Result<Vec<Row>, String>, r: Result<TodoList, AppError>) -> bool {
    match outcome {
        Err(m) => r matches Err(e) && e.is_db_error_with_cause(m@),
        Ok(rows) => if all_lists(rows@) && rows@.len() > 0 {
            r == Ok::<TodoList, AppError>(lists_of(rows@).last())
        } else {
            r matches Err(e) && is_data_error(e)
        },
    }
}

/// What the conditional update's row count becomes.
pub open spec fn check_result(outcome: Result<u64, String>, r: Result<bool, AppError>) -> bool {
    match outcome {
        Err(m) => r matches Err(e) && e.is_db_error_with_cause(m@),
        Ok(n) => if n == 0 {
            r == Ok::<bool, AppError>(false)
        } else if n == 1 {
            r == Ok::<bool, AppError>(true)
        } else {
            r matches Err(e) && is_data_error(e)
        },
    }
}

proof fn lemma_lookup_skip(cols: Seq<Column>, name: Seq<char>, i: int)
    requires
        0 <= i <= cols.len(),
        forall|j: int| 0 <= j < i ==> cols[j].name@ != name,
    ensures
        lookup(cols, name) == lookup(cols.subrange(i, cols.len() as int), name),
    decreases i,
{
    if i > 0 {
        let rest = cols.drop_first();
        assert forall|j: int| 0 <= j < i - 1 implies rest[j].name@ != name by {
            assert(rest[j] == cols[j + 1]);
        }
        lemma_lookup_skip(rest, name, i - 1);
        assert(rest.subrange(i - 1, rest.len() as int) =~= cols.subrange(i, cols.len() as int));
    } else {
        assert(cols.subrange(0, cols.len() as int) =~= cols);
    }
}

/// Position of the first column named `name`.
fn find_column(row: &Row, name: &String) -> (r: Option<usize>)
    ensures
        match r {
            Some(i) => i < row.columns@.len() && lookup(row.columns@, name@) == Some(
                row.columns@[i as int].value,
            ),
            None => lookup(row.columns@, name@) is None,
        },
{
    let mut i: usize = 0;
    while i < row.columns.len()
        invariant
            0 <= i <= row.columns@.len(),
            forall|j: int| 0 <= j < i ==> row.columns@[j].name@ != name@,
        decreases row.columns@.len() - i,
    {
        if row.columns[i].name == *name {
            proof {
                lemma_lookup_skip(row.columns@, name@, i as int);
                let sub = row.columns@.subrange(i as int, row.columns@.len() as int);
                assert(sub[0] == row.columns@[i as int]);
                assert(lookup(sub, name@) == Some(sub[0].value));
            }
            return Some(i);
        }
        i = i + 1;
    }
    proof {
        lemma_lookup_skip(row.columns@, name@, i as int);
    }
    None
}

fn int_column(row: &Row, name: &str) -> (r: Option<i32>)
    ensures
        match lookup(row.columns@, name@) {
            Some(SqlValue::Int(v)) => r == Some(v),
            _ => r is None,
        },
{
    let key = name.to_string();
    match find_column(row, &key) {
        Some(i) => match &row.columns[i].value {
            SqlValue::Int(v) => Some(*v),
            _ => None,
        },
        None => None,
    }
}

fn text_column(row: &Row, name: &str) -> (r: Option<String>)
    ensures
        match lookup(row.columns@, name@) {
            Some(SqlValue::Text(v)) => r == Some(v),
            _ => r is None,
        },
{
    let key = name.to_string();
    match find_column(row, &key) {
        Some(i) => match &row.columns[i].value {
            SqlValue::Text(v) => Some(v.clone()),
            _ => None,
        },
        None => None,
    }
}

fn bool_column(row: &Row, name: &str) -> (r: Option<bool>)
    ensures
        match lookup(row.columns@, name@) {
            Some(SqlValue::Bool(v)) => r == Some(v),
            _ => r is None,
        },
{
    let key = name.to_string();
    match find_column(row, &key) {
        Some(i) => match &row.columns[i].value {
            SqlValue::Bool(v) => Some(*v),
            _ => None,
        },
        None => None,
    }
}

/// A database failure raised by this library, with `cause` for the log.
pub(crate) fn data_error(cause: &str) -> (r: AppError)
    ensures
        r.is_db_error_with_cause(cause@),
{
    AppError { message: None, cause: Some(cause.to_string()), error_type: AppErrorType::DbError }
}

/// Reads a `todo_list` row; fails when a column is absent or of the wrong type.
pub fn todo_list_from_row(row: &Row) -> (r: Result<TodoList, AppError>)
    ensures
        match list_from_row(*row) {
            Some(l) => r == Ok::<TodoList, AppError>(l),
            None => r matches Err(e) && is_data_error(e),
        },
{
    let id = int_column(row, "id");
    let title = text_column(row, "title");
    match (id, title) {
        (Some(id), Some(title)) => Ok(TodoList { id, title }),
        _ => Err(data_error("row does not match the todo_list table")),
    }
}

/// Reads a `todo_item` row; fails when a column is absent or of the wrong type.
pub fn todo_item_from_row(row: &Row) -> (r: Result<TodoItem, AppError>)
    ensures
        match item_from_row(*row) {
            Some(it) => r == Ok::<TodoItem, AppError>(it),
            None => r matches Err(e) && is_data_error(e),
        },
{
    let id = int_column(row, "id");
    let title = text_column(row, "title");
    let checked = bool_column(row, "checked");
    let list_id = int_column(row, "list_id");
    match (id, title, checked, list_id) {
        (Some(id), Some(title), Some(checked), Some(list_id)) => Ok(
            TodoItem { id, title, checked, list_id },
        ),
        _ => Err(data_error("row does not match the todo_item table")),
    }
}

fn lists_from_rows(rows: &Vec<Row>) -> (r: Result<Vec<TodoList>, AppError>)
    ensures
        if all_lists(rows@) {
            r matches Ok(v) && v@ == lists_of(rows@)
        } else {
            r matches Err(e) && is_data_error(e)
        },
{
    let mut out: Vec<TodoList> = Vec::new();
    let mut i: usize = 0;
    while i < rows.len()
        invariant
            0 <= i <= rows@.len(),
            out@.len() == i,
            forall|j: int| 0 <= j < i ==> list_from_row(rows@[j]) == Some(#[trigger] out@[j]),
        decreases rows@.len() - i,
    {
        match todo_list_from_row(&rows[i]) {
            Ok(l) => out.push(l),
            Err(e) => {
                assert(list_from_row(rows@[i as int]) is None);
                return Err(e);
            },
        }
        i = i + 1;
    }
    assert forall|j: int| 0 <= j < rows@.len() implies (#[trigger] list_from_row(rows@[j])) is Some by {
        assert(list_from_row(rows@[j]) == Some(out@[j]));
    }
    assert(out@ =~= lists_of(rows@));
    Ok(out)
}

fn items_from_rows(rows: &Vec<Row>) -> (r: Result<Vec<TodoItem>, AppError>)
    ensures
        if all_items(rows@) {
            r matches Ok(v) && v@ == items_of(rows@)
        } else {
            r matches Err(e) && is_data_error(e)
        },
{
    let mut out: Vec<TodoItem> = Vec::new();
    let mut i: usize = 0;
    while i < rows.len()
        invariant
            0 <= i <= rows@.len(),
            out@.len() == i,
            forall|j: int| 0 <= j < i ==> item_from_row(rows@[j]) == Some(#[trigger] out@[j]),
        decreases rows@.len() - i,
    {
        match todo_item_from_row(&rows[i]) {
            Ok(it) => out.push(it),
            Err(e) => {
                assert(item_from_row(rows@[i as int]) is None);
                return Err(e);
            },
        }
        i = i + 1;
    }
    assert forall|j: int| 0 <= j < rows@.len() implies (#[trigger] item_from_row(rows@[j])) is Some by {
        assert(item_from_row(rows@[j]) == Some(out@[j]));
    }
    assert(out@ =~= items_of(rows@));
    Ok(out)
}

/// The lists returned by the list query, in the order the store returned them.
///
/// A failed query, or a row that does not describe a list, is a database error.
pub fn get_todos(outcome: Result<Vec<Row>, String>) -> (r: Result<Vec<TodoList>, AppError>)
    ensures
        lists_result(outcome, r),
{
    match outcome {
        Err(m) => Err(AppError::db_error(m.as_str())),
        Ok(rows) => lists_from_rows(&rows),
    }
}

/// The items returned by the item query, in the order the store returned them.
///
/// An unknown list yields no rows and so an empty sequence, not an error.
pub fn get_itmes(outcome: Result<Vec<Row>, String>) -> (r: Result<Vec<TodoItem>, AppError>)
    ensures
        items_result(outcome, r),
{
    match outcome {
        Err(m) => Err(AppError::db_error(m.as_str())),
        Ok(rows) => items_from_rows(&rows),
    }
}

/// The list that the insert returned.
///
/// An insert that returns no row is a database error.
pub fn create_todo(outcome: Result<Vec<Row>, String>) -> (r: Result<TodoList, AppError>)
    ensures
        created_result(outcome, r),
{
    match outcome {
        Err(m) => Err(AppError::db_error(m.as_str())),
        Ok(rows) => match lists_from_rows(&rows) {
            Ok(mut lists) => match lists.pop() {
                Some(l) => Ok(l),
                None => Err(data_error("Error creating todo list")),
            },
            Err(e) => Err(e),
        },
    }
}

/// Whether the conditional update took effect.
///
/// One row updated is success, none is a logical failure (the item is
/// missing, belongs to another list or is already checked); any other
/// count is a database error.
pub fn check_item(outcome: Result<u64, String>) -> (r: Result<bool, AppError>)
    ensures
        check_result(outcome, r),
{
    match outcome {
        Err(m) => Err(AppError::db_error(m.as_str())),
        Ok(0) => Ok(false),
        Ok(1) => Ok(true),
        Ok(_) => Err(data_error("unexpected number of updated rows")),
    }
}

} // verus!
