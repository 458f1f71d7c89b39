use notion::ids::DatabaseId;
use notion_todo::model::config::{Opts, SubCommand};
use notion_todo::model::data::{TASK_FIELDS, TITLE_FIELD};
use notion_todo::model::property::PropertyValue;
use notion_todo::request::{add_task_to_inbox, request_for, Request};
use std::str::FromStr;

fn database() -> DatabaseId {
    DatabaseId::from_str("0123456789abcdef0123456789abcdef").unwrap()
}

fn title_of(value: Option<&PropertyValue>) -> String {
    match value {
        Some(PropertyValue::Title { title, .. }) => {
            assert_eq!(title.len(), 1);
            title[0].content.clone()
        }
        other => panic!("no title: {:?}", other),
    }
}

#[test]
fn list_queries_the_database() {
    let request = request_for(Opts { command: SubCommand::List }, database());
    match request {
        Request::Query { database_id } => assert_eq!(database_id, database()),
        _ => panic!("a listing must query"),
    }
}

#[test]
fn add_without_a_name_sends_nothing() {
    let request = request_for(Opts { command: SubCommand::Add { task_name: None } }, database());
    assert!(matches!(request, Request::Nothing));
}

#[test]
fn add_with_a_name_creates_a_page() {
    let opts = Opts { command: SubCommand::Add { task_name: Some("call home".to_string()) } };
    match request_for(opts, database()) {
        Request::Create { page } => {
            assert_eq!(page.database_id, database());
            assert_eq!(page.properties.len(), 6);
            assert_eq!(title_of(page.properties.get(TITLE_FIELD)), "call home");
        }
        _ => panic!("an addition with a name must create a page"),
    }
}

#[test]
fn add_with_an_empty_name_still_creates_a_page() {
    let opts = Opts { command: SubCommand::Add { task_name: Some(String::new()) } };
    match request_for(opts, database()) {
        Request::Create { page } => {
            assert_eq!(title_of(page.properties.get(TITLE_FIELD)), "");
        }
        _ => panic!("an addition with a name must create a page"),
    }
}

#[test]
fn add_task_to_inbox_targets_the_database() {
    let page = add_task_to_inbox(database(), "tidy desk");
    assert_eq!(page.database_id, database());
    for name in TASK_FIELDS {
        assert!(page.properties.contains_key(name));
    }
    assert_eq!(title_of(page.properties.get(TITLE_FIELD)), "tidy desk");
}
