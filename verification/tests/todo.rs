use todo_layout::todo::{resolve_action, EditAction, TodoApp, TodoItem};

fn item(id: u32, name: &str, body: &str) -> TodoItem {
    TodoItem { id, name: name.to_owned(), body: body.to_owned() }
}

#[test]
fn fresh_app_is_empty() {
    let app = TodoApp::new();
    assert_eq!(app.label, "Hello World!");
    assert!(app.items.is_empty());
    assert_eq!(app.next_id, 0);
    assert!(app.currently_edited.is_none());
}

#[test]
fn add_item_stores_under_counter() {
    let mut app = TodoApp::new();
    app.add_item(item(7, "groceries", "milk"));
    app.add_item(item(9, "chores", "sweep"));
    assert_eq!(app.next_id, 2);
    assert_eq!(app.items.len(), 2);
    assert_eq!(app.items.get(&0).unwrap().name, "groceries");
    assert_eq!(app.items.get(&1).unwrap().name, "chores");
}

#[test]
fn add_new_item_uses_clock_name() {
    let mut app = TodoApp::new();
    app.add_new_item();
    let stored = app.items.get(&0).unwrap();
    assert_eq!(stored.name, format!("Todo Item {}", stored.id));
    assert_eq!(stored.body, "");
    assert_eq!(app.next_id, 1);
}

#[test]
fn fresh_item_name_holds_the_id() {
    let it = TodoItem::fresh(42);
    assert_eq!(it.id, 42);
    assert_eq!(it.name, "Todo Item 42");
    assert_eq!(it.body, "");
    let zero = TodoItem::fresh(0);
    assert_eq!(zero.name, "Todo Item 0");
    let top = TodoItem::fresh(u32::MAX);
    assert_eq!(top.name, "Todo Item 4294967295");
}

#[test]
fn select_checks_out_a_copy() {
    let mut app = TodoApp::new();
    app.add_item(item(7, "groceries", "milk"));
    app.select_item(0);
    let (id, draft) = app.currently_edited.as_ref().unwrap();
    assert_eq!(*id, 0);
    assert_eq!(draft.name, "groceries");
    // the stored entry is untouched by the checkout
    assert_eq!(app.items.get(&0).unwrap().name, "groceries");
}

#[test]
fn commit_stores_the_last_draft() {
    let mut app = TodoApp::new();
    app.add_item(item(7, "groceries", "milk"));
    app.select_item(0);
    // two frames of reworking the draft, then a save
    app.edit_step(item(7, "groceries!", "milk, eggs"), EditAction::Keep);
    app.edit_step(item(7, "groceries!!", "milk, eggs, tea"), EditAction::Keep);
    app.edit_step(item(7, "errands", "post office"), EditAction::Save);
    assert!(app.currently_edited.is_none());
    let stored = app.items.get(&0).unwrap();
    assert_eq!(stored.name, "errands");
    assert_eq!(stored.body, "post office");
}

#[test]
fn cancel_discards_the_draft() {
    let mut app = TodoApp::new();
    app.add_item(item(7, "groceries", "milk"));
    app.select_item(0);
    app.edit_step(item(7, "scribbles", "half-typed"), EditAction::Keep);
    app.edit_step(item(7, "scribbles", "half-typed"), EditAction::Cancel);
    assert!(app.currently_edited.is_none());
    let stored = app.items.get(&0).unwrap();
    assert_eq!(stored.name, "groceries");
    assert_eq!(stored.body, "milk");
}

#[test]
fn remove_deletes_the_entry() {
    let mut app = TodoApp::new();
    app.add_item(item(7, "groceries", "milk"));
    app.add_item(item(9, "chores", "sweep"));
    app.select_item(0);
    app.edit_step(item(7, "groceries", "milk"), EditAction::Remove);
    assert!(app.currently_edited.is_none());
    assert!(!app.items.contains_key(&0));
    assert_eq!(app.items.get(&1).unwrap().name, "chores");
}

#[test]
fn keep_holds_the_draft_across_frames() {
    let mut app = TodoApp::new();
    app.add_item(item(7, "groceries", "milk"));
    app.select_item(0);
    app.edit_step(item(7, "gro", ""), EditAction::Keep);
    let (id, draft) = app.currently_edited.as_ref().unwrap();
    assert_eq!(*id, 0);
    assert_eq!(draft.name, "gro");
    // the stored entry still holds the last committed value
    assert_eq!(app.items.get(&0).unwrap().name, "groceries");
}

#[test]
fn resolve_action_priority_order() {
    assert_eq!(resolve_action(true, true, true, true), EditAction::Save);
    assert_eq!(resolve_action(false, true, false, true), EditAction::Cancel);
    assert_eq!(resolve_action(false, false, true, true), EditAction::Cancel);
    assert_eq!(resolve_action(false, false, false, true), EditAction::Remove);
    assert_eq!(resolve_action(false, false, false, false), EditAction::Keep);
}

#[test]
fn default_item_draws_id_from_clock() {
    let it = TodoItem::default();
    assert!(it.id <= 1_999_999_999);
    assert_eq!(it.name, format!("Todo Item {}", it.id));
    assert_eq!(it.body, "");
}

#[test]
fn duplicate_is_a_value_copy() {
    let source = item(3, "a name", "a body");
    let copy = source.duplicate();
    assert_eq!(copy.id, 3);
    assert_eq!(copy.name, "a name");
    assert_eq!(copy.body, "a body");
}
