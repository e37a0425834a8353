use todo_service::response::{Body, Response};
use todo_service::service::{Request, TodoService};
use todo_service::table::{TodoTable, MAX_ID};
use todo_service::todo::Todo;

fn todo(title: &str, description: Option<&str>, done: bool) -> Todo {
    Todo { id: None, title: title.to_string(), description: description.map(str::to_string), done }
}

fn listed(service: &mut TodoService) -> Vec<Todo> {
    let response = service.handle(Request::List);
    assert_eq!(response.status, 200);
    match response.body {
        Body::Todos(todos) => todos,
        other => panic!("a list request was answered with {:?}", other),
    }
}

#[test]
fn test_create_todo() {
    let mut service = TodoService::new();
    let new_todo = todo("Test Todo", Some("This is a test todo"), false);

    let response = service.handle(Request::Create(new_todo));

    assert_eq!(response.status, 200);
    match response.body {
        Body::Todo(created) => {
            assert_eq!(created.title, "Test Todo");
            assert_eq!(created.description.as_deref(), Some("This is a test todo"));
            assert_eq!(created.done, false);
        }
        other => panic!("a create request was answered with {:?}", other),
    }
}

#[test]
fn test_get_todos() {
    let mut service = TodoService::new();
    service.handle(Request::Create(todo("Test Todo", Some("This is a test todo"), false)));

    let response = service.handle(Request::List);

    assert_eq!(response.status, 200);
    match response.body {
        Body::Todos(todos) => assert!(todos.len() > 0),
        other => panic!("a list request was answered with {:?}", other),
    }
}

#[test]
fn test_update_todo() {
    let mut service = TodoService::new();
    service.handle(Request::Create(todo("Test Todo", Some("This is a test todo"), false)));
    let updated_todo = todo("Updated Test Todo", Some("This is an updated test todo"), true);

    let response = service.handle(Request::Update(1, updated_todo));

    assert_eq!(response.status, 200);
    match response.body {
        Body::Todo(updated) => {
            assert_eq!(updated.title, "Updated Test Todo");
            assert_eq!(updated.description.as_deref(), Some("This is an updated test todo"));
            assert_eq!(updated.done, true);
        }
        other => panic!("an update request was answered with {:?}", other),
    }
}

#[test]
fn test_delete_todo() {
    let mut service = TodoService::new();
    service.handle(Request::Create(todo("Test Todo", Some("This is a test todo"), false)));

    let response = service.handle(Request::Delete(1));

    assert_eq!(response.status, 200);
    assert_eq!(response.body, Body::Text("Todo deleted"));
}

#[test]
fn create_echoes_the_submitted_body_without_the_assigned_id() {
    let mut service = TodoService::new();
    let response = service.create(todo("Buy milk", None, false));
    assert_eq!(response, Response { status: 200, body: Body::Todo(todo("Buy milk", None, false)) });
}

#[test]
fn create_echoes_a_submitted_id_but_the_store_assigns_its_own() {
    let mut service = TodoService::new();
    let mut submitted = todo("Buy milk", None, false);
    submitted.id = Some(42);

    let response = service.create(submitted.clone());

    assert_eq!(response, Response { status: 200, body: Body::Todo(submitted) });
    let todos = listed(&mut service);
    assert_eq!(todos.len(), 1);
    assert_eq!(todos[0].id, Some(1));
}

#[test]
fn list_on_an_empty_table_is_an_empty_collection() {
    let service = TodoService::new();
    let response = service.list();
    assert_eq!(response, Response { status: 200, body: Body::Todos(vec![]) });
}

#[test]
fn a_created_todo_is_listed_with_its_fields() {
    let mut service = TodoService::new();
    service.create(todo("Buy milk", Some("two litres"), false));
    service.create(todo("Call home", None, true));

    let todos = listed(&mut service);

    assert_eq!(
        todos,
        vec![
            Todo {
                id: Some(1),
                title: "Buy milk".to_string(),
                description: Some("two litres".to_string()),
                done: false,
            },
            Todo { id: Some(2), title: "Call home".to_string(), description: None, done: true },
        ]
    );
}

#[test]
fn an_update_is_reflected_in_the_listing() {
    let mut service = TodoService::new();
    service.create(todo("Buy milk", Some("two litres"), false));
    service.create(todo("Call home", None, false));

    let response = service.update(2, todo("Call home tonight", Some("after eight"), true));

    assert_eq!(
        response,
        Response { status: 200, body: Body::Todo(todo("Call home tonight", Some("after eight"), true)) }
    );
    let todos = listed(&mut service);
    assert_eq!(todos.len(), 2);
    assert_eq!(
        todos[0],
        Todo {
            id: Some(1),
            title: "Buy milk".to_string(),
            description: Some("two litres".to_string()),
            done: false,
        }
    );
    assert_eq!(
        todos[1],
        Todo {
            id: Some(2),
            title: "Call home tonight".to_string(),
            description: Some("after eight".to_string()),
            done: true,
        }
    );
}

#[test]
fn an_update_replaces_every_field_and_clears_an_absent_description() {
    let mut service = TodoService::new();
    service.create(todo("Buy milk", Some("two litres"), true));

    service.update(1, todo("Buy bread", None, false));

    let todos = listed(&mut service);
    assert_eq!(
        todos,
        vec![Todo { id: Some(1), title: "Buy bread".to_string(), description: None, done: false }]
    );
}

#[test]
fn an_update_addresses_by_path_and_not_by_the_id_in_the_body() {
    let mut service = TodoService::new();
    service.create(todo("first", None, false));
    service.create(todo("second", None, false));
    let mut body = todo("changed", None, true);
    body.id = Some(1);

    let response = service.update(2, body.clone());

    assert_eq!(response, Response { status: 200, body: Body::Todo(body) });
    let todos = listed(&mut service);
    assert_eq!(todos[0], Todo { id: Some(1), title: "first".to_string(), description: None, done: false });
    assert_eq!(todos[1], Todo { id: Some(2), title: "changed".to_string(), description: None, done: true });
}

#[test]
fn an_update_of_a_missing_id_still_succeeds_and_changes_nothing() {
    let mut service = TodoService::new();
    service.create(todo("Buy milk", None, false));

    let response = service.update(99, todo("ghost", Some("nobody home"), true));

    assert_eq!(
        response,
        Response { status: 200, body: Body::Todo(todo("ghost", Some("nobody home"), true)) }
    );
    assert_eq!(
        listed(&mut service),
        vec![Todo { id: Some(1), title: "Buy milk".to_string(), description: None, done: false }]
    );
}

#[test]
fn a_delete_removes_the_row_and_keeps_the_others() {
    let mut service = TodoService::new();
    service.create(todo("first", None, false));
    service.create(todo("second", None, false));
    service.create(todo("third", None, false));

    let response = service.delete(2);

    assert_eq!(response, Response { status: 200, body: Body::Text("Todo deleted") });
    let todos = listed(&mut service);
    assert_eq!(
        todos,
        vec![
            Todo { id: Some(1), title: "first".to_string(), description: None, done: false },
            Todo { id: Some(3), title: "third".to_string(), description: None, done: false },
        ]
    );
}

#[test]
fn a_delete_of_a_missing_id_gives_the_same_confirmation() {
    let mut service = TodoService::new();
    service.create(todo("first", None, false));

    let response = service.delete(-5);

    assert_eq!(response, Response { status: 200, body: Body::Text("Todo deleted") });
    assert_eq!(listed(&mut service).len(), 1);

    let mut empty = TodoService::new();
    let response = empty.delete(1);
    assert_eq!(response, Response { status: 200, body: Body::Text("Todo deleted") });
}

#[test]
fn creates_get_distinct_ids_and_none_is_lost() {
    let mut service = TodoService::new();
    for k in 0..50 {
        let response = service.create(todo(&format!("todo {}", k), None, k % 2 == 0));
        assert_eq!(response.status, 200);
    }

    let todos = listed(&mut service);

    assert_eq!(todos.len(), 50);
    for (k, listed_todo) in todos.iter().enumerate() {
        assert_eq!(listed_todo.id, Some(k as i32 + 1));
        assert_eq!(listed_todo.title, format!("todo {}", k));
        assert_eq!(listed_todo.done, k % 2 == 0);
    }
    for a in 0..todos.len() {
        for b in a + 1..todos.len() {
            assert_ne!(todos[a].id, todos[b].id);
        }
    }
}

#[test]
fn an_id_is_not_assigned_again_after_its_row_was_deleted() {
    let mut service = TodoService::new();
    service.create(todo("first", None, false));
    service.create(todo("second", None, false));
    service.delete(2);

    service.create(todo("third", None, false));

    let todos = listed(&mut service);
    assert_eq!(todos.len(), 2);
    assert_eq!(todos[0].id, Some(1));
    assert_eq!(todos[1].id, Some(3));
    assert_eq!(todos[1].title, "third");
}

#[test]
fn a_create_that_the_store_refuses_is_answered_with_500() {
    let table = TodoTable::resuming_after(MAX_ID).expect("a table for a last id of MAX_ID");
    let mut service = TodoService::over(table);

    let response = service.create(todo("one too many", None, false));

    assert_eq!(response, Response { status: 500, body: Body::Text("Error creating todo") });
    assert_eq!(listed(&mut service), vec![]);
}

#[test]
fn the_last_id_can_still_be_assigned() {
    let table = TodoTable::resuming_after(MAX_ID - 1).expect("a table for a last id below MAX_ID");
    let mut service = TodoService::over(table);

    let first = service.create(todo("last one in", None, false));
    let second = service.create(todo("one too many", None, false));

    assert_eq!(first.status, 200);
    assert_eq!(second, Response { status: 500, body: Body::Text("Error creating todo") });
    let todos = listed(&mut service);
    assert_eq!(todos.len(), 1);
    assert_eq!(todos[0].id, Some(2147483647));
}

#[test]
fn handle_answers_each_request_as_its_own_method_does() {
    let mut by_handle = TodoService::new();
    let mut by_method = TodoService::new();

    assert_eq!(
        by_handle.handle(Request::Create(todo("a", Some("b"), false))),
        by_method.create(todo("a", Some("b"), false))
    );
    assert_eq!(
        by_handle.handle(Request::Update(1, todo("c", None, true))),
        by_method.update(1, todo("c", None, true))
    );
    assert_eq!(by_handle.handle(Request::List), by_method.list());
    assert_eq!(by_handle.handle(Request::Delete(1)), by_method.delete(1));
    assert_eq!(by_handle.handle(Request::List), by_method.list());
    assert_eq!(by_handle.list(), Response { status: 200, body: Body::Todos(vec![]) });
}
