use users_api::error::StoreError;
use users_api::handlers::by_id;
use users_api::ident::render;
use users_api::model::User;
use users_api::query::SetParam;
use users_api::store::MemoryStore;

fn user(id: &str, name: &str, username: &str, email: &str, password: &str) -> User {
    User {
        id: id.to_string(),
        name: name.to_string(),
        username: username.to_string(),
        email: email.to_string(),
        password: password.to_string(),
    }
}

fn add(store: &mut MemoryStore, name: &str) -> User {
    store
        .create(
            name.to_string(),
            format!("{}1", name),
            format!("{}@x.com", name),
            "pw".to_string(),
        )
        .unwrap()
}

#[test]
fn render_writes_decimal_numerals() {
    assert_eq!(render(0), "0");
    assert_eq!(render(7), "7");
    assert_eq!(render(9), "9");
    assert_eq!(render(10), "10");
    assert_eq!(render(109), "109");
    assert_eq!(render(12345), "12345");
    assert_eq!(render(u64::MAX), "18446744073709551615");
}

#[test]
fn new_store_is_empty() {
    let store = MemoryStore::new();
    assert_eq!(store.find_many(), Ok(Vec::new()));
    assert_eq!(store.find_unique(&by_id("0")), Ok(None));
}

#[test]
fn create_issues_identifiers_in_sequence() {
    let mut store = MemoryStore::new();
    let a = add(&mut store, "ann");
    let b = add(&mut store, "bob");
    assert_eq!(a, user("0", "ann", "ann1", "ann@x.com", "pw"));
    assert_eq!(b, user("1", "bob", "bob1", "bob@x.com", "pw"));
    assert_eq!(store.find_many(), Ok(vec![a, b]));
}

#[test]
fn identifiers_are_not_issued_again_after_a_delete() {
    let mut store = MemoryStore::new();
    add(&mut store, "ann");
    let b = add(&mut store, "bob");
    assert_eq!(store.delete(&by_id("1")), Ok(b));
    let c = add(&mut store, "cy");
    assert_eq!(c.id, "2");
}

#[test]
fn create_fails_when_no_identifier_is_left() {
    let mut store = MemoryStore::starting_at(u64::MAX - 1);
    let last = add(&mut store, "ann");
    assert_eq!(last.id, "18446744073709551614");
    let r = store.create("n".to_string(), "u".to_string(), "e".to_string(), "p".to_string());
    assert_eq!(r, Err(StoreError::Constraint));
    assert_eq!(store.find_many(), Ok(vec![last]));
}

#[test]
fn find_unique_finds_by_identifier() {
    let mut store = MemoryStore::starting_at(10);
    let a = add(&mut store, "ann");
    let b = add(&mut store, "bob");
    assert_eq!(store.find_unique(&by_id("10")), Ok(Some(a)));
    assert_eq!(store.find_unique(&by_id("11")), Ok(Some(b)));
    assert_eq!(store.find_unique(&by_id("12")), Ok(None));
    assert_eq!(store.find_unique(&by_id("1")), Ok(None));
    assert_eq!(store.find_unique(&by_id("")), Ok(None));
    assert_eq!(store.find_unique(&by_id("ann")), Ok(None));
}

#[test]
fn update_applies_the_changes_in_order() {
    let mut store = MemoryStore::new();
    add(&mut store, "ann");
    add(&mut store, "bob");
    let r = store.update(
        &by_id("1"),
        vec![
            SetParam::Name("Rob".to_string()),
            SetParam::Email("rob@x.com".to_string()),
            SetParam::Name("Robert".to_string()),
        ],
    );
    let expected = user("1", "Robert", "bob1", "rob@x.com", "pw");
    assert_eq!(r, Ok(expected.clone()));
    assert_eq!(store.find_unique(&by_id("1")), Ok(Some(expected.clone())));
    assert_eq!(
        store.find_many(),
        Ok(vec![user("0", "ann", "ann1", "ann@x.com", "pw"), expected])
    );
}

#[test]
fn update_without_changes_returns_the_record() {
    let mut store = MemoryStore::new();
    let a = add(&mut store, "ann");
    assert_eq!(store.update(&by_id("0"), Vec::new()), Ok(a.clone()));
    assert_eq!(store.find_many(), Ok(vec![a]));
}

#[test]
fn update_of_a_missing_record_changes_nothing() {
    let mut store = MemoryStore::new();
    let a = add(&mut store, "ann");
    let r = store.update(&by_id("5"), vec![SetParam::Password("x".to_string())]);
    assert_eq!(r, Err(StoreError::RecordNotFound));
    assert_eq!(store.find_many(), Ok(vec![a]));
}

#[test]
fn delete_removes_one_record_and_keeps_the_order() {
    let mut store = MemoryStore::new();
    let a = add(&mut store, "ann");
    let b = add(&mut store, "bob");
    let c = add(&mut store, "cy");
    assert_eq!(store.delete(&by_id("1")), Ok(b));
    assert_eq!(store.find_many(), Ok(vec![a, c]));
    assert_eq!(store.find_unique(&by_id("1")), Ok(None));
}

#[test]
fn delete_of_a_missing_record_changes_nothing() {
    let mut store = MemoryStore::new();
    let a = add(&mut store, "ann");
    assert_eq!(store.delete(&by_id("9")), Err(StoreError::RecordNotFound));
    assert_eq!(store.delete(&by_id("")), Err(StoreError::RecordNotFound));
    assert_eq!(store.find_many(), Ok(vec![a]));
}
