use user_service::service::{create_user, get_users, is_authenticated, ApiError};
use user_service::db::setup_db;
use user_service::user::User;

const SEED: [(&str, &str); 10] = [
    ("Alice", "password123"),
    ("Bob", "password456"),
    ("Charlie", "password789"),
    ("David", "password101"),
    ("Eve", "password102"),
    ("Frank", "password103"),
    ("Grace", "password104"),
    ("Hank", "password105"),
    ("Ivy", "password106"),
    ("Jack", "password107"),
];

#[test]
fn list_returns_the_ten_seed_users_in_order() {
    let users = get_users().unwrap();
    assert_eq!(users.len(), 10);
    for (i, u) in users.iter().enumerate() {
        assert_eq!(u.id, Some(i as i64 + 1));
        assert_eq!(u.name, SEED[i].0);
        assert_eq!(u.password, SEED[i].1);
    }
}

#[test]
fn list_is_idempotent_across_calls() {
    let a = get_users().unwrap();
    let b = get_users().unwrap();
    assert_eq!(a.len(), b.len());
    for (x, y) in a.iter().zip(b.iter()) {
        assert_eq!(x.id, y.id);
        assert_eq!(x.name, y.name);
        assert_eq!(x.password, y.password);
    }
}

#[test]
fn create_returns_id_eleven_and_echoes_the_input() {
    let input = User { id: None, name: "X".to_string(), password: "Y".to_string() };
    let created = create_user(&input).unwrap();
    assert_eq!(created.id, Some(11));
    assert_eq!(created.name, "X");
    assert_eq!(created.password, "Y");
}

#[test]
fn create_ignores_a_client_supplied_id() {
    let input = User { id: Some(999), name: "X".to_string(), password: "Y".to_string() };
    let created = create_user(&input).unwrap();
    assert_eq!(created.id, Some(11));
    assert_eq!(created.name, "X");
    assert_eq!(created.password, "Y");
}

#[test]
fn a_created_user_is_not_visible_to_a_later_list() {
    let input = User { id: None, name: "X".to_string(), password: "Y".to_string() };
    let created = create_user(&input).unwrap();
    assert_eq!(created.id, Some(11));
    let users = get_users().unwrap();
    assert_eq!(users.len(), 10);
    assert!(users.iter().all(|u| u.name != "X" && u.id != Some(11)));
}

#[test]
fn independent_creates_each_get_id_eleven() {
    let a = User { id: None, name: "first".to_string(), password: "pw1".to_string() };
    let b = User { id: None, name: "second".to_string(), password: "pw2".to_string() };
    let ca = create_user(&a).unwrap();
    let cb = create_user(&b).unwrap();
    assert_eq!(ca.id, Some(11));
    assert_eq!(cb.id, Some(11));
    assert_eq!(ca.name, "first");
    assert_eq!(cb.name, "second");
}

#[test]
fn authentication_check_never_confirms_credentials() {
    // The lookup succeeds exactly when it returns no rows, so matching
    // seed credentials report false and unknown ones report true.
    let conn = setup_db().unwrap();
    let alice = User {
        id: None,
        name: "Alice".to_string(),
        password: "password123".to_string(),
    };
    assert!(!is_authenticated(conn, &alice));

    let conn = setup_db().unwrap();
    let nobody = User { id: None, name: "Nobody".to_string(), password: "nope".to_string() };
    assert!(is_authenticated(conn, &nobody));
}

#[test]
fn the_seed_pairs_are_what_listing_returns() {
    let pairs = user_service::seed::seed_pairs();
    let users = get_users().unwrap();
    assert_eq!(pairs.len(), users.len());
    for (p, u) in pairs.iter().zip(users.iter()) {
        assert_eq!(p.0, u.name);
        assert_eq!(p.1, u.password);
    }
}

#[test]
fn error_kinds_carry_their_message_prefixes() {
    assert_eq!(ApiError::Database(String::new()).kind_prefix(), "Database error: ");
    assert_eq!(ApiError::Insert(String::new()).kind_prefix(), "Insert error: ");
    assert_eq!(
        ApiError::QueryPreparation(String::new()).kind_prefix(),
        "Query preparation error: "
    );
    assert_eq!(ApiError::QueryExecution(String::new()).kind_prefix(), "Query execution error: ");
    let e = ApiError::Database("boom".to_string());
    assert_eq!(e.detail(), "boom");
}
