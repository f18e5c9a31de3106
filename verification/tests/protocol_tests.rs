use todo_tasks::adapter::{greeting_name, task_texts};
use todo_tasks::protocol::{apply_update, plan_update, UpdateOutcome, UpdateRequest};
use todo_tasks::store::TaskStore;

fn texts(store: &TaskStore) -> Vec<String> {
    task_texts(store.list_all())
}

#[test]
fn empty_insert_is_a_no_op() {
    let mut store = TaskStore::new();
    store.insert("a".to_string());
    let outcome = apply_update(
        &mut store,
        UpdateRequest { id: None, task: Some(String::new()) },
    );
    assert_eq!(outcome, UpdateOutcome::RedirectToListing);
    assert_eq!(texts(&store).len(), 1);
    assert_eq!(texts(&store), vec!["a"]);
}

#[test]
fn absent_task_field_performs_no_insert() {
    let mut store = TaskStore::new();
    let outcome = apply_update(&mut store, UpdateRequest { id: None, task: None });
    assert_eq!(outcome, UpdateOutcome::RedirectToListing);
    assert!(texts(&store).is_empty());
}

#[test]
fn combined_request_deletes_old_and_inserts_new() {
    let mut store = TaskStore::new();
    store.insert("A".to_string());
    store.insert("other".to_string());
    let outcome = apply_update(
        &mut store,
        UpdateRequest { id: Some("A".to_string()), task: Some("B".to_string()) },
    );
    assert_eq!(outcome, UpdateOutcome::RedirectToListing);
    let listed = texts(&store);
    assert_eq!(listed.iter().filter(|t| *t == "A").count(), 0);
    assert_eq!(listed.iter().filter(|t| *t == "B").count(), 1);
    assert_eq!(listed, vec!["other", "B"]);
}

#[test]
fn update_with_both_fields_absent_leaves_listing_unchanged() {
    let mut store = TaskStore::new();
    store.insert("stay".to_string());
    let before = texts(&store);
    let outcome = apply_update(&mut store, UpdateRequest { id: None, task: None });
    assert_eq!(outcome, UpdateOutcome::RedirectToListing);
    assert_eq!(texts(&store), before);
}

#[test]
fn delete_fires_even_when_id_is_the_empty_string() {
    let mut store = TaskStore::new();
    store.insert(String::new());
    store.insert("keep".to_string());
    let outcome = apply_update(
        &mut store,
        UpdateRequest { id: Some(String::new()), task: None },
    );
    assert_eq!(outcome, UpdateOutcome::RedirectToListing);
    assert_eq!(texts(&store), vec!["keep"]);
}

#[test]
fn both_steps_fire_in_one_request() {
    let mut store = TaskStore::new();
    store.insert("dup".to_string());
    store.insert("dup".to_string());
    let outcome = apply_update(
        &mut store,
        UpdateRequest { id: Some("dup".to_string()), task: Some("fresh".to_string()) },
    );
    assert_eq!(outcome, UpdateOutcome::RedirectToListing);
    assert_eq!(texts(&store), vec!["fresh"]);
}

#[test]
fn plan_keeps_delete_key_and_non_empty_task() {
    let plan = plan_update(UpdateRequest {
        id: Some("gone".to_string()),
        task: Some("added".to_string()),
    });
    assert_eq!(plan.delete_key, Some("gone".to_string()));
    assert_eq!(plan.insert_text, Some("added".to_string()));
}

#[test]
fn plan_drops_empty_task_text() {
    let plan = plan_update(UpdateRequest { id: None, task: Some(String::new()) });
    assert_eq!(plan.delete_key, None);
    assert_eq!(plan.insert_text, None);
}

#[test]
fn plan_with_absent_fields_is_empty() {
    let plan = plan_update(UpdateRequest { id: None, task: None });
    assert_eq!(plan.delete_key, None);
    assert_eq!(plan.insert_text, None);
}

#[test]
fn greeting_passes_the_name_through_unchanged() {
    assert_eq!(greeting_name("world".to_string()), "world");
}

#[test]
fn listing_projects_tasks_to_their_texts_in_order() {
    let mut store = TaskStore::new();
    store.insert("one".to_string());
    store.insert("two".to_string());
    let listed = store.list_all();
    assert_eq!(listed.len(), 2);
    assert_eq!(listed[0].text, "one");
    assert_eq!(listed[1].text, "two");
    assert_eq!(task_texts(listed), vec!["one", "two"]);
}
