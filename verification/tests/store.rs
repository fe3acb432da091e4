use devstack::auth::{AuthError, CreateUserRequest, LoginRequest, RegisterRequest};
use devstack::database::Database;

fn register(db: &mut Database, username: &str, password: &str) -> Result<devstack::auth::User, AuthError> {
    db.register_user(RegisterRequest {
        username: username.to_string(),
        password: password.to_string(),
    })
}

fn login(db: &Database, username: &str, password: &str) -> Result<devstack::auth::User, AuthError> {
    db.login_user(LoginRequest {
        username: username.to_string(),
        password: password.to_string(),
    })
}

#[test]
fn register_then_login_returns_matching_user() {
    let mut db = Database::new();
    let registered = register(&mut db, "alice", "correct").expect("registration should succeed");
    assert_eq!(registered.username, "alice");
    assert!(registered.id > 0);

    let logged_in = login(&db, "alice", "correct").expect("login should succeed");
    assert_eq!(logged_in.username, "alice");
    assert_eq!(logged_in.id, registered.id);
}

#[test]
fn duplicate_username_rejected_and_stored_once() {
    let mut db = Database::new();
    register(&mut db, "alice", "first").expect("first registration should succeed");
    let second = register(&mut db, "alice", "second");
    assert!(matches!(second, Err(AuthError::UsernameTaken)));

    let users = db.get_all_users();
    let alice_rows = users.iter().filter(|u| u.username == "alice").count();
    assert_eq!(alice_rows, 1);
}

#[test]
fn wrong_password_and_unknown_user_are_indistinguishable() {
    let mut db = Database::new();
    register(&mut db, "alice", "correct").expect("registration should succeed");

    let wrong_password = login(&db, "alice", "wrong");
    let unknown_user = login(&db, "nobody", "anything");
    assert!(matches!(wrong_password, Err(AuthError::InvalidCredentials)));
    assert!(matches!(unknown_user, Err(AuthError::InvalidCredentials)));

    let m1 = wrong_password.err().unwrap().message();
    let m2 = unknown_user.err().unwrap().message();
    assert_eq!(m1, m2);
    assert_eq!(m1, "Invalid credentials");
}

#[test]
fn users_listed_most_recent_first() {
    let mut db = Database::new();
    register(&mut db, "a", "pw-a").expect("registration should succeed");
    register(&mut db, "b", "pw-b").expect("registration should succeed");

    let users = db.get_all_users();
    let names: Vec<&str> = users.iter().map(|u| u.username.as_str()).collect();
    assert_eq!(names, vec!["b", "a"]);
    assert!(users[0].id > users[1].id);
}

#[test]
fn create_user_persists_profile_fields_and_rejects_duplicates() {
    let mut db = Database::new();
    let created = db
        .create_user(CreateUserRequest {
            username: "carol".to_string(),
            password: "secret".to_string(),
            email: Some("carol@example.com".to_string()),
            full_name: Some("Carol Jones".to_string()),
        })
        .expect("creation should succeed");
    assert_eq!(created.username, "carol");
    assert!(created.id > 0);

    let duplicate = db.create_user(CreateUserRequest {
        username: "carol".to_string(),
        password: "other".to_string(),
        email: None,
        full_name: None,
    });
    assert!(matches!(duplicate, Err(AuthError::UsernameTaken)));
    assert_eq!(db.get_all_users().len(), 1);
}

#[test]
fn auth_error_messages() {
    assert_eq!(AuthError::UsernameTaken.message(), "Username already exists");
    assert_eq!(AuthError::HashingError.message(), "Password hashing failed");
    assert_eq!(
        AuthError::Database("connection refused".to_string()).message(),
        "Database error: connection refused"
    );
}

#[test]
fn identifiers_are_assigned_in_increasing_order() {
    let mut db = Database::new();
    let first = register(&mut db, "first", "pw").expect("registration should succeed");
    let second = register(&mut db, "second", "pw").expect("registration should succeed");
    let third = register(&mut db, "third", "pw").expect("registration should succeed");
    assert!(first.id < second.id);
    assert!(second.id < third.id);
    assert_eq!(first.id, 1);
}
