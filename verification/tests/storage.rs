//! The six operations answered from a storage provider that keeps its
//! records in memory.

use crud_endpoint::server;
use crud_endpoint::{Endpoint, Error, Provider};

#[derive(Clone, Debug, Default, PartialEq)]
struct Task {
    id: u64,
    title: String,
}

impl Endpoint for Task {
    type Id = u64;
    const ENDPOINT: &'static str = "/tasks";
}

/// The backend: the tasks it holds, and the last identifier it gave out.
#[derive(Debug, Default, PartialEq, Clone)]
struct Shelf {
    tasks: Vec<Task>,
    last: u64,
}

/// A template selects a task when each of its fields is empty or equal to
/// the task's.
fn selects(query: &Task, task: &Task) -> bool {
    (query.id == 0 || query.id == task.id) && (query.title.is_empty() || query.title == task.title)
}

struct Tasks;

impl Provider<Shelf> for Tasks {
    type Data = Task;

    fn get(provider: &Shelf, id: u64) -> Result<Task, Error> {
        match provider.tasks.iter().find(|task| task.id == id) {
            Some(task) => Ok(task.clone()),
            None => Err(Error::NotFound(format!("no task {}", id))),
        }
    }

    fn list(provider: &Shelf, query: Task) -> Vec<Task> {
        provider.tasks.iter().filter(|task| selects(&query, task)).cloned().collect()
    }

    fn create(provider: &mut Shelf, query: Task) -> Result<Task, Error> {
        if query.title.is_empty() {
            return Err(Error::Authorization(String::from("a task needs a title")));
        }
        provider.last += 1;
        let made = Task { id: provider.last, title: query.title };
        provider.tasks.push(made.clone());
        Ok(made)
    }

    fn update(provider: &mut Shelf, id: u64, new_data: Task) -> Result<Task, Error> {
        match provider.tasks.iter_mut().find(|task| task.id == id) {
            Some(task) => {
                task.title = new_data.title;
                Ok(task.clone())
            }
            None => Err(Error::NotFound(format!("no task {}", id))),
        }
    }

    fn delete(provider: &mut Shelf, id: u64) {
        provider.tasks.retain(|task| task.id != id);
    }
}

fn task(id: u64, title: &str) -> Task {
    Task { id, title: String::from(title) }
}

fn shelf_with(titles: &[&str]) -> Shelf {
    let mut shelf = Shelf::default();
    for title in titles {
        let made = server::create::<Tasks, Shelf>(&mut shelf, task(0, title));
        assert!(made.is_ok());
    }
    shelf
}

#[test]
fn task_scenario() {
    let mut shelf = Shelf::default();

    let made = server::create::<Tasks, Shelf>(&mut shelf, task(0, "write spec"));
    assert_eq!(made.ok(), Some(task(1, "write spec")));

    let again = server::get::<Tasks, Shelf>(&shelf, 1);
    assert_eq!(again.ok(), Some(task(1, "write spec")));

    let missing = server::get::<Tasks, Shelf>(&shelf, 2);
    assert!(matches!(missing, Err(Error::NotFound(_))));

    server::delete::<Tasks, Shelf>(&mut shelf, 2);
    assert_eq!(shelf.tasks, vec![task(1, "write spec")]);

    let hits = server::find::<Tasks, Shelf>(&shelf, task(0, "write spec"));
    assert_eq!(hits, vec![task(1, "write spec")]);
}

#[test]
fn create_then_get_returns_the_created_record() {
    let mut shelf = shelf_with(&["first", "second"]);
    let made = server::create::<Tasks, Shelf>(&mut shelf, task(0, "third")).ok();
    assert_eq!(made, Some(task(3, "third")));
    assert_eq!(server::get::<Tasks, Shelf>(&shelf, 3).ok(), made);
}

#[test]
fn create_takes_an_identifier_that_was_free() {
    let mut shelf = shelf_with(&["first", "second"]);
    let before: Vec<u64> = shelf.tasks.iter().map(|task| task.id).collect();
    let made = server::create::<Tasks, Shelf>(&mut shelf, task(0, "third")).ok();
    let id = made.map(|task| task.id);
    assert_eq!(id, Some(3));
    assert!(!before.contains(&3));
    assert_eq!(shelf.tasks.len(), 3);
}

#[test]
fn failed_create_changes_nothing() {
    let mut shelf = shelf_with(&["first"]);
    let before = shelf.clone();
    let refused = server::create::<Tasks, Shelf>(&mut shelf, task(0, ""));
    assert!(matches!(refused, Err(Error::Authorization(_))));
    assert_eq!(shelf, before);
}

#[test]
fn get_of_absent_id_is_not_found_never_a_default() {
    let shelf = Shelf::default();
    match server::get::<Tasks, Shelf>(&shelf, 0) {
        Err(Error::NotFound(message)) => assert_eq!(message, "no task 0"),
        other => panic!("expected NotFound, got {:?}", other),
    }
}

#[test]
fn update_replaces_the_record() {
    let mut shelf = shelf_with(&["first", "second"]);
    let kept = server::update::<Tasks, Shelf>(&mut shelf, 2, task(0, "second, revised"));
    assert_eq!(kept.ok(), Some(task(2, "second, revised")));
    assert_eq!(shelf.tasks, vec![task(1, "first"), task(2, "second, revised")]);
    assert_eq!(server::get::<Tasks, Shelf>(&shelf, 2).ok(), Some(task(2, "second, revised")));
}

#[test]
fn update_of_absent_id_is_not_found_and_creates_nothing() {
    let mut shelf = shelf_with(&["first"]);
    let before = shelf.clone();
    let outcome = server::update::<Tasks, Shelf>(&mut shelf, 9, task(9, "ghost"));
    assert!(matches!(outcome, Err(Error::NotFound(_))));
    assert_eq!(shelf, before);
    assert!(matches!(server::get::<Tasks, Shelf>(&shelf, 9), Err(Error::NotFound(_))));
}

#[test]
fn find_without_match_is_empty() {
    let shelf = shelf_with(&["first", "second"]);
    let hits = server::find::<Tasks, Shelf>(&shelf, task(0, "third"));
    assert_eq!(hits, Vec::<Task>::new());
}

#[test]
fn list_of_empty_backend_is_empty() {
    let shelf = Shelf::default();
    assert_eq!(server::list::<Tasks, Shelf>(&shelf), Vec::<Task>::new());
    assert_eq!(Tasks::list(&shelf, Task::default()), Vec::<Task>::new());
}

#[test]
fn list_uses_the_empty_template() {
    let shelf = shelf_with(&["first", "second", "third"]);
    let all = server::list::<Tasks, Shelf>(&shelf);
    assert_eq!(all, vec![task(1, "first"), task(2, "second"), task(3, "third")]);
    assert_eq!(all, Tasks::list(&shelf, Task::default()));
}

#[test]
fn find_goes_to_the_providers_list() {
    let shelf = shelf_with(&["first", "second", "first"]);
    let hits = server::find::<Tasks, Shelf>(&shelf, task(0, "first"));
    assert_eq!(hits, vec![task(1, "first"), task(3, "first")]);
    assert_eq!(hits, Tasks::list(&shelf, task(0, "first")));
    assert_eq!(server::find::<Tasks, Shelf>(&shelf, task(3, "")), vec![task(3, "first")]);
}

#[test]
fn delete_removes_the_record_and_no_other() {
    let mut shelf = shelf_with(&["first", "second", "third"]);
    server::delete::<Tasks, Shelf>(&mut shelf, 2);
    assert_eq!(shelf.tasks, vec![task(1, "first"), task(3, "third")]);
    assert!(matches!(server::get::<Tasks, Shelf>(&shelf, 2), Err(Error::NotFound(_))));
}

#[test]
fn delete_of_absent_id_changes_nothing() {
    let mut shelf = shelf_with(&["first"]);
    let before = shelf.clone();
    server::delete::<Tasks, Shelf>(&mut shelf, 7);
    assert_eq!(shelf, before);
    server::delete::<Tasks, Shelf>(&mut shelf, 1);
    server::delete::<Tasks, Shelf>(&mut shelf, 1);
    assert_eq!(shelf.tasks, Vec::<Task>::new());
}
