use user_service::service::{rocket, route, rows_to_users, Endpoint, Method};
use user_service::user::{ParseError, User};

#[test]
fn both_endpoints_answer_on_the_user_path() {
    assert_eq!(route(Method::Get, "/user"), Some(Endpoint::ListUsers));
    assert_eq!(route(Method::Post, "/user"), Some(Endpoint::CreateUser));
}

#[test]
fn other_paths_are_unrouted() {
    assert_eq!(route(Method::Get, "/users"), None);
    assert_eq!(route(Method::Post, "/"), None);
    assert_eq!(route(Method::Get, ""), None);
    assert_eq!(route(Method::Post, "/user/1"), None);
}

#[test]
fn the_route_table_mounts_both_operations_on_user() {
    let routes = rocket();
    assert_eq!(routes.len(), 2);
    assert_eq!(routes[0].method, Method::Get);
    assert_eq!(routes[0].path, "/user");
    assert_eq!(routes[1].method, Method::Post);
    assert_eq!(routes[1].path, "/user");
}

#[test]
fn a_body_missing_the_name_fails_parsing() {
    let r = User::from_fields(None, None, Some("Y".to_string()));
    assert_eq!(r.unwrap_err(), ParseError::MissingName);
}

#[test]
fn a_body_missing_the_password_fails_parsing() {
    let r = User::from_fields(Some(7), Some("X".to_string()), None);
    assert_eq!(r.unwrap_err(), ParseError::MissingPassword);
}

#[test]
fn a_complete_body_parses_and_keeps_its_fields() {
    let u = User::from_fields(Some(999), Some("X".to_string()), Some("Y".to_string())).unwrap();
    assert_eq!(u.id, Some(999));
    assert_eq!(u.name, "X");
    assert_eq!(u.password, "Y");
}

#[test]
fn rows_from_the_store_become_users_with_their_ids() {
    let rows = vec![
        (5, "a".to_string(), "b".to_string()),
        (7, "c".to_string(), "d".to_string()),
    ];
    let users = rows_to_users(rows);
    assert_eq!(users.len(), 2);
    assert_eq!(users[0].id, Some(5));
    assert_eq!(users[0].name, "a");
    assert_eq!(users[0].password, "b");
    assert_eq!(users[1].id, Some(7));
    assert_eq!(users[1].name, "c");
    assert_eq!(users[1].password, "d");
}
