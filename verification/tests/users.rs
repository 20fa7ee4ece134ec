use session_auth::errors::StoreError;
use session_auth::repositories::user_repository::create_user;
use session_auth::repositories::user_repository::get_by_email;
use session_auth::repositories::user_repository::get_by_id;
use session_auth::repositories::user_repository::get_users;
use session_auth::repositories::user_repository::NewUserDb;
use session_auth::repositories::user_repository::UserDb;
use session_auth::repositories::user_repository::UserTable;

fn new_user(name: &str, email: &str, password: &str) -> NewUserDb {
    NewUserDb { name: name.to_string(), email: email.to_string(), password: password.to_string() }
}

#[test]
fn empty_table_has_no_users() {
    let table = UserTable::new();
    assert_eq!(get_users(&table), Ok(vec![]));
    assert_eq!(get_by_id(&table, 7), Err(StoreError::NotFound));
    assert_eq!(get_by_email(&table, "alice@example.com".to_string()), Err(StoreError::NotFound));
}

#[test]
fn create_user_stores_a_hash_not_the_password() {
    let mut table = UserTable::new();
    let created = create_user(&mut table, new_user("Alice", "alice@example.com", "secret123")).unwrap();
    assert_eq!(created.name, "Alice");
    assert_eq!(created.email, "alice@example.com");
    assert_ne!(created.password, "secret123");
    assert!(created.password.starts_with("$argon2"));
    assert_eq!(get_users(&table), Ok(vec![created]));
}

#[test]
fn create_user_twice_gives_different_salts() {
    let mut table = UserTable::new();
    let first = create_user(&mut table, new_user("A", "a@example.com", "same")).unwrap();
    let second = create_user(&mut table, new_user("B", "b@example.com", "same")).unwrap();
    assert_ne!(first.password, second.password);
    assert_ne!(first.id, second.id);
}

#[test]
fn second_registration_with_same_email_is_duplicate() {
    let mut table = UserTable::new();
    let first = create_user(&mut table, new_user("Alice", "alice@example.com", "secret123"));
    let second = create_user(&mut table, new_user("Alice again", "alice@example.com", "other"));
    assert!(first.is_ok());
    assert_eq!(second, Err(StoreError::DuplicateEmail));
    assert_eq!(get_users(&table).unwrap().len(), 1);
    assert_eq!(get_users(&table).unwrap()[0].name, "Alice");
}

#[test]
fn emails_are_compared_exactly() {
    let mut table = UserTable::new();
    table.insert(1, "Alice".to_string(), "alice@example.com".to_string(), "h1".to_string()).unwrap();
    let upper = table.insert(2, "Alice".to_string(), "Alice@example.com".to_string(), "h2".to_string());
    assert!(upper.is_ok());
    assert_eq!(get_by_email(&table, "ALICE@example.com".to_string()), Err(StoreError::NotFound));
    assert_eq!(get_by_email(&table, "Alice@example.com".to_string()).unwrap().id, 2);
}

#[test]
fn insert_reports_duplicate_email_before_taken_id() {
    let mut table = UserTable::new();
    let row = table.insert(1, "Alice".to_string(), "alice@example.com".to_string(), "h1".to_string());
    assert_eq!(
        row,
        Ok(UserDb {
            id: 1,
            name: "Alice".to_string(),
            email: "alice@example.com".to_string(),
            password: "h1".to_string(),
        })
    );
    assert_eq!(
        table.insert(1, "Bob".to_string(), "alice@example.com".to_string(), "h2".to_string()),
        Err(StoreError::DuplicateEmail)
    );
    assert_eq!(
        table.insert(2, "Bob".to_string(), "alice@example.com".to_string(), "h2".to_string()),
        Err(StoreError::DuplicateEmail)
    );
    assert_eq!(
        table.insert(1, "Bob".to_string(), "bob@example.com".to_string(), "h2".to_string()),
        Err(StoreError::StorageFailure)
    );
    assert_eq!(get_users(&table).unwrap().len(), 1);
}

#[test]
fn lookups_find_the_registered_user() {
    let mut table = UserTable::new();
    table.insert(10, "Alice".to_string(), "alice@example.com".to_string(), "h1".to_string()).unwrap();
    table.insert(20, "Bob".to_string(), "bob@example.com".to_string(), "h2".to_string()).unwrap();
    assert_eq!(get_by_id(&table, 20).unwrap().email, "bob@example.com");
    assert_eq!(get_by_id(&table, 10).unwrap().name, "Alice");
    assert_eq!(get_by_id(&table, 30), Err(StoreError::NotFound));
    assert_eq!(get_by_email(&table, "alice@example.com".to_string()).unwrap().id, 10);
    assert_eq!(get_by_email(&table, "carol@example.com".to_string()), Err(StoreError::NotFound));
}

#[test]
fn get_users_keeps_the_order_of_registration() {
    let mut table = UserTable::new();
    table.insert(3, "C".to_string(), "c@example.com".to_string(), "h3".to_string()).unwrap();
    table.insert(1, "A".to_string(), "a@example.com".to_string(), "h1".to_string()).unwrap();
    table.insert(2, "B".to_string(), "b@example.com".to_string(), "h2".to_string()).unwrap();
    let ids: Vec<u128> = get_users(&table).unwrap().iter().map(|user| user.id).collect();
    assert_eq!(ids, vec![3, 1, 2]);
}

#[test]
fn to_model_leaves_the_hash_out() {
    let user = UserDb {
        id: 5,
        name: "Alice".to_string(),
        email: "alice@example.com".to_string(),
        password: "hash".to_string(),
    };
    let model = user.to_model();
    assert_eq!(model.id, 5);
    assert_eq!(model.name, "Alice");
    assert_eq!(model.email, "alice@example.com");
    assert_eq!(user.id(), 5);
    assert_eq!(user.session_auth_hash(), "hash".as_bytes());
    assert_eq!(user.clone(), user);
}

#[test]
fn first_registration_in_an_empty_table_succeeds() {
    let mut table = UserTable::new();
    let created = create_user(&mut table, new_user("Zed", "zed@example.com", "pw"));
    assert!(created.is_ok());
    assert_eq!(get_by_id(&table, created.unwrap().id).unwrap().email, "zed@example.com");
}
