use backend::auth::{Rejection, SigninReq};
use backend::json::Json;
use backend::neo4j::{is_constraint_violation, GraphError, Migrations};
use backend::requests::{PageWindow, SearchReq, ShortestPathParams};

#[test]
fn blank_text_fields_are_reported_in_order() {
    let body = Json(ShortestPathParams { target_label: String::new(), target_name: String::new() });
    assert!(!body.is_all_str_set());
    assert_eq!(body.collect_missing().missing_fields, vec!["target_label", "target_name"]);
    let body = Json(SigninReq { username: "u".to_string(), password: String::new() });
    assert_eq!(body.iter_all_str_not_set(), vec!["password"]);
    let body = Json(SigninReq { username: "u".to_string(), password: "p".to_string() });
    assert!(body.is_all_str_set());
    assert!(body.collect_missing().missing_fields.is_empty());
}

#[test]
fn search_pages_default_and_multiply() {
    let search = |page, page_size| SearchReq { term: "x".to_string(), page, page_size };
    assert_eq!(search(None, None).window(), Ok(PageWindow { skip: 0, limit: 50 }));
    assert_eq!(search(Some(2), Some(10)).window(), Ok(PageWindow { skip: 20, limit: 10 }));
    assert_eq!(search(Some(3), None).window(), Ok(PageWindow { skip: 150, limit: 50 }));
    assert_eq!(search(Some(i64::MAX), Some(2)).window(), Err(Rejection::BadRequest));
}

#[test]
fn migration_scripts_split_into_statements() {
    let script = "// schema\nCREATE CONSTRAINT user_name IF NOT EXISTS\n  FOR (u:User) REQUIRE u.username IS UNIQUE; // unique\n\nMATCH (n)\r\nRETURN n;CREATE (x)\nRETURN x;\ntrailing";
    assert_eq!(
        Migrations::statements(script),
        vec![
            "CREATE CONSTRAINT user_name IF NOT EXISTS FOR (u:User) REQUIRE u.username IS UNIQUE;",
            "MATCH (n) RETURN n;",
            "CREATE (x) RETURN x;",
        ]
    );
    assert!(Migrations::statements("").is_empty());
    assert!(Migrations::statements("no terminator").is_empty());
    assert_eq!(Migrations::statements("a//b;\nc;"), vec!["a c;"]);
}

#[test]
fn graph_errors_map_to_statuses() {
    assert!(is_constraint_violation(true, "Neo.ClientError.Schema.ConstraintValidationFailed"));
    assert!(!is_constraint_violation(false, "Neo.ClientError.Schema.ConstraintValidationFailed"));
    assert!(!is_constraint_violation(true, "Neo.ClientError.Statement.SyntaxError"));
    let other = GraphError::from_neo4rs(neo4rs::Error::ConnectionError);
    assert!(matches!(other, GraphError::Other(_)));
    assert_eq!(other.rejection(), Rejection::InternalError);
    let conflict = GraphError::Client(backend::neo4j::ClientError::ContraintValidation);
    assert_eq!(conflict.rejection(), Rejection::Conflict);
}
