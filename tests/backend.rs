use todo_backend::db::{self, Column, Row, SqlValue};
use todo_backend::errors::{AppError, AppErrorType};
use todo_backend::handlers::{self, LogLevel, RequestLog};
use todo_backend::store::TodoStore;

fn col(name: &str, value: SqlValue) -> Column {
    Column { name: name.to_string(), value }
}

fn list_row(id: i32, title: &str) -> Row {
    Row { columns: vec![col("id", SqlValue::Int(id)), col("title", SqlValue::Text(title.to_string()))] }
}

fn item_row(id: i32, title: &str, checked: bool, list_id: i32) -> Row {
    Row {
        columns: vec![
            col("id", SqlValue::Int(id)),
            col("title", SqlValue::Text(title.to_string())),
            col("checked", SqlValue::Bool(checked)),
            col("list_id", SqlValue::Int(list_id)),
        ],
    }
}

fn err(message: Option<&str>, error_type: AppErrorType) -> AppError {
    AppError { message: message.map(|m| m.to_string()), cause: Some("secret cause".to_string()), error_type }
}

#[test]
fn message_explicit_wins() {
    let e = err(Some("custom"), AppErrorType::NotFoundError);
    assert_eq!(e.message(), "custom");
    let e = err(Some("custom"), AppErrorType::DbError);
    assert_eq!(e.message(), "custom");
}

#[test]
fn message_kind_defaults() {
    assert_eq!(err(None, AppErrorType::NotFoundError).message(), "The requested item was not found");
    assert_eq!(err(None, AppErrorType::DbError).message(), "An unexpected error has occurred");
}

#[test]
fn status_codes_by_kind() {
    assert_eq!(err(None, AppErrorType::DbError).status_code(), 500);
    assert_eq!(err(None, AppErrorType::NotFoundError).status_code(), 404);
}

#[test]
fn error_response_hides_cause() {
    let body = err(None, AppErrorType::DbError).error_response();
    assert_eq!(body.error, "An unexpected error has occurred");
    let body = err(Some("shown"), AppErrorType::DbError).error_response();
    assert_eq!(body.error, "shown");
}

#[test]
fn db_error_keeps_cause() {
    let e = AppError::db_error("connection refused");
    assert_eq!(e.cause.as_deref(), Some("connection refused"));
    assert!(e.message.is_none());
    assert_eq!(e.error_type, AppErrorType::DbError);
}

#[test]
fn list_row_maps_by_name() {
    let row = Row { columns: vec![col("title", SqlValue::Text("Groceries".to_string())), col("id", SqlValue::Int(7))] };
    let l = db::todo_list_from_row(&row).unwrap();
    assert_eq!(l.id, 7);
    assert_eq!(l.title, "Groceries");
}

#[test]
fn list_row_missing_column_is_db_error() {
    let row = Row { columns: vec![col("id", SqlValue::Int(7))] };
    let e = db::todo_list_from_row(&row).unwrap_err();
    assert_eq!(e.error_type, AppErrorType::DbError);
    assert!(e.cause.is_some());
    assert_eq!(e.status_code(), 500);
}

#[test]
fn item_row_wrong_type_is_db_error() {
    let row = Row {
        columns: vec![
            col("id", SqlValue::Int(1)),
            col("title", SqlValue::Text("milk".to_string())),
            col("checked", SqlValue::Null),
            col("list_id", SqlValue::Int(1)),
        ],
    };
    let e = db::todo_item_from_row(&row).unwrap_err();
    assert_eq!(e.error_type, AppErrorType::DbError);
}

#[test]
fn item_row_maps_all_columns() {
    let it = db::todo_item_from_row(&item_row(5, "milk", true, 1)).unwrap();
    assert_eq!((it.id, it.title.as_str(), it.checked, it.list_id), (5, "milk", true, 1));
}

#[test]
fn get_todos_keeps_row_order() {
    let rows = vec![list_row(3, "c"), list_row(2, "b"), list_row(1, "a")];
    let lists = db::get_todos(Ok(rows)).unwrap();
    let ids: Vec<i32> = lists.iter().map(|l| l.id).collect();
    assert_eq!(ids, vec![3, 2, 1]);
}

#[test]
fn get_todos_empty_is_ok() {
    assert!(db::get_todos(Ok(vec![])).unwrap().is_empty());
}

#[test]
fn get_todos_query_failure_carries_cause() {
    let e = db::get_todos(Err("relation does not exist".to_string())).unwrap_err();
    assert_eq!(e.cause.as_deref(), Some("relation does not exist"));
    assert_eq!(e.message(), "An unexpected error has occurred");
}

#[test]
fn get_itmes_unknown_list_is_empty() {
    assert!(db::get_itmes(Ok(vec![])).unwrap().is_empty());
    let items = db::get_itmes(Ok(vec![item_row(1, "x", false, 4), item_row(2, "y", true, 4)])).unwrap();
    assert_eq!(items.len(), 2);
    assert!(items[1].checked);
}

#[test]
fn create_todo_returns_inserted_row() {
    let l = db::create_todo(Ok(vec![list_row(11, "Groceries")])).unwrap();
    assert_eq!(l.id, 11);
    assert_eq!(l.title, "Groceries");
}

#[test]
fn create_todo_without_row_is_db_error() {
    let e = db::create_todo(Ok(vec![])).unwrap_err();
    assert_eq!(e.error_type, AppErrorType::DbError);
    assert_eq!(e.cause.as_deref(), Some("Error creating todo list"));
}

#[test]
fn check_item_row_counts() {
    assert!(db::check_item(Ok(1)).unwrap());
    assert!(!db::check_item(Ok(0)).unwrap());
    let e = db::check_item(Ok(2)).unwrap_err();
    assert_eq!(e.error_type, AppErrorType::DbError);
    let e = db::check_item(Err("deadlock".to_string())).unwrap_err();
    assert_eq!(e.cause.as_deref(), Some("deadlock"));
}

#[test]
fn status_is_up() {
    assert_eq!(handlers::status().status, "UP");
}

#[test]
fn pool_failure_maps_to_500_and_critical_log() {
    let log = RequestLog::new("get_todos");
    let (client, rec) = handlers::get_client::<u32>(&log, Err("pool timed out".to_string()));
    let e = client.unwrap_err();
    assert_eq!(e.status_code(), 500);
    assert_eq!(e.error_response().error, "An unexpected error has occurred");
    let rec = rec.unwrap();
    assert_eq!(rec.level, LogLevel::Critical);
    assert_eq!(rec.cause.as_deref(), Some("pool timed out"));
    assert_eq!(rec.handler, "get_todos");
    assert_eq!(rec.message, "Error creating client");
}

#[test]
fn pool_success_logs_nothing() {
    let log = RequestLog::new("get_todos");
    let (client, rec) = handlers::get_client::<u32>(&log, Ok(9));
    assert_eq!(client.unwrap(), 9);
    assert!(rec.is_none());
}

#[test]
fn log_error_records_cause_and_message() {
    let log = RequestLog::new("create_todo");
    let (e, rec) = handlers::log_error(&log, err(None, AppErrorType::NotFoundError));
    assert_eq!(e.error_type, AppErrorType::NotFoundError);
    assert_eq!(rec.level, LogLevel::Error);
    assert_eq!(rec.cause.as_deref(), Some("secret cause"));
    assert_eq!(rec.message, "The requested item was not found");
    assert_eq!(rec.handler, "create_todo");
}

#[test]
fn handler_failure_logged_once() {
    let log = RequestLog::new("get_itmes");
    let (r, rec) = handlers::get_itmes(&log, Err("broken pipe".to_string()));
    let e = r.unwrap_err();
    assert_eq!(e.status_code(), 500);
    let rec = rec.unwrap();
    assert_eq!(rec.level, LogLevel::Error);
    assert_eq!(rec.cause.as_deref(), Some("broken pipe"));
    let (r, rec) = handlers::get_todos(&log, Ok(vec![list_row(1, "a")]));
    assert_eq!(r.unwrap().len(), 1);
    assert!(rec.is_none());
}

#[test]
fn check_handler_wraps_result() {
    let log = RequestLog::new("check_item");
    let (r, rec) = handlers::check_itme(&log, Ok(1));
    assert!(r.unwrap().success);
    assert!(rec.is_none());
    let (r, _) = handlers::check_itme(&log, Ok(0));
    assert!(!r.unwrap().success);
    let (r, rec) = handlers::check_itme(&log, Ok(3));
    assert!(r.is_err());
    assert!(rec.is_some());
}

#[test]
fn create_handler_returns_record() {
    let log = RequestLog::new("create_todo");
    let (r, rec) = handlers::create_todo(&log, Ok(vec![list_row(2, "Groceries")]));
    assert_eq!(r.unwrap().title, "Groceries");
    assert!(rec.is_none());
}

#[test]
fn twelve_lists_give_ten_newest_first() {
    let mut s = TodoStore::new();
    for i in 0..12 {
        s.insert_todo_list(format!("list {}", i)).unwrap();
    }
    let lists = s.select_todo_lists();
    let ids: Vec<i32> = lists.iter().map(|l| l.id).collect();
    assert_eq!(ids, vec![12, 11, 10, 9, 8, 7, 6, 5, 4, 3]);
}

#[test]
fn empty_store_lists_nothing() {
    let s = TodoStore::new();
    assert!(s.select_todo_lists().is_empty());
    assert!(s.select_todo_items(1).is_empty());
}

#[test]
fn items_come_in_ascending_id_order() {
    let mut s = TodoStore::new();
    let a = s.insert_todo_list("a".to_string()).unwrap();
    let b = s.insert_todo_list("b".to_string()).unwrap();
    for t in ["x", "y", "z"] {
        s.insert_todo_item(b.id, t.to_string()).unwrap();
        s.insert_todo_item(a.id, t.to_string()).unwrap();
    }
    let ids: Vec<i32> = s.select_todo_items(a.id).iter().map(|i| i.id).collect();
    assert_eq!(ids, vec![2, 4, 6]);
    assert!(s.select_todo_items(a.id).iter().all(|i| i.list_id == a.id && !i.checked));
    assert!(s.select_todo_items(99).is_empty());
}

#[test]
fn item_for_missing_list_is_refused() {
    let mut s = TodoStore::new();
    let e = s.insert_todo_item(3, "orphan".to_string()).unwrap_err();
    assert_eq!(e.error_type, AppErrorType::DbError);
}

#[test]
fn created_list_round_trips() {
    let mut s = TodoStore::new();
    s.insert_todo_list("Chores".to_string()).unwrap();
    let l = s.insert_todo_list("Groceries".to_string()).unwrap();
    assert_eq!(l.title, "Groceries");
    let lists = s.select_todo_lists();
    assert!(lists.iter().any(|x| x.id == l.id && x.title == "Groceries"));
    assert_eq!(lists[0].id, l.id);
}

fn store_with_item_five() -> TodoStore {
    let mut s = TodoStore::new();
    s.insert_todo_list("one".to_string()).unwrap();
    s.insert_todo_list("two".to_string()).unwrap();
    for i in 1..=5 {
        let it = s.insert_todo_item(1, format!("item {}", i)).unwrap();
        assert_eq!(it.id, i);
    }
    s
}

#[test]
fn check_unchecked_item_succeeds() {
    let mut s = store_with_item_five();
    let n = s.update_checked(1, 5);
    assert!(db::check_item(Ok(n)).unwrap());
    let item = s.select_todo_items(1).into_iter().find(|i| i.id == 5).unwrap();
    assert!(item.checked);
}

#[test]
fn second_check_reports_false() {
    let mut s = store_with_item_five();
    assert!(db::check_item(Ok(s.update_checked(1, 5))).unwrap());
    assert!(!db::check_item(Ok(s.update_checked(1, 5))).unwrap());
    let item = s.select_todo_items(1).into_iter().find(|i| i.id == 5).unwrap();
    assert!(item.checked);
}

#[test]
fn check_under_wrong_list_changes_nothing() {
    let mut s = store_with_item_five();
    assert!(!db::check_item(Ok(s.update_checked(2, 5))).unwrap());
    assert!(s.select_todo_items(1).iter().all(|i| !i.checked));
}

#[test]
fn racing_checks_one_wins() {
    let mut s = store_with_item_five();
    let first = db::check_item(Ok(s.update_checked(1, 5))).unwrap();
    let second = db::check_item(Ok(s.update_checked(1, 5))).unwrap();
    assert_eq!([first, second].iter().filter(|b| **b).count(), 1);
    let checked: Vec<i32> = s.select_todo_items(1).iter().filter(|i| i.checked).map(|i| i.id).collect();
    assert_eq!(checked, vec![5]);
}

#[test]
fn statements_are_fixed() {
    assert_eq!(db::SELECT_TODO_LISTS, "select * from todo_list order by id desc limit 10");
    assert!(db::CHECK_TODO_ITEM.contains("checked = false"));
}
