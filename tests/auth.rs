use backend::auth::{
    judge, gate, generate_random_token, new_user, protect_routes, resolve, signin, signin_at, Rejection,
    Resolution, SigninReq, SignupParams, TOKEN_LENGTH,
};
use backend::session::Session;
use backend::store::{SessionStore, StoreFault};
use backend::time::Timestamp;

const MINUTE: i128 = 60_000_000_000;

fn open_store() -> (sled::Db<1024>, sled::Tree<1024>, SessionStore) {
    let db: sled::Db<1024> = sled::Config::tmp().unwrap().open().unwrap();
    let tree = db.open_tree("tokens").unwrap();
    let store = SessionStore::new(tree.clone());
    (db, tree, store)
}

fn req(username: &str, password: &str) -> SigninReq {
    SigninReq { username: username.to_string(), password: password.to_string() }
}

fn head(authorization: Option<&str>) -> axum::http::request::Parts {
    let mut builder = axum::http::Request::builder().uri("/me");
    if let Some(value) = authorization {
        builder = builder.header("Authorization", value);
    }
    builder.body(()).unwrap().into_parts().0
}

#[test]
fn issued_token_lives_ten_minutes() {
    let (_db, _tree, mut store) = open_store();
    let hash = password_auth::generate_hash("secret");
    let t0 = 1_700_000_000_000_000_000i128;
    let token = signin_at(&mut store, &req("alice", "secret"), Some(&hash), Timestamp::from_nanosecond(t0))
        .unwrap()
        .token;

    let at5 = Timestamp::from_nanosecond(t0 + 5 * MINUTE);
    let session = resolve(&mut store, Some(&token), at5).required().unwrap();
    assert_eq!(session.username, "alice");
    assert_eq!(session.token, token);

    let at11 = Timestamp::from_nanosecond(t0 + 11 * MINUTE);
    assert!(matches!(resolve(&mut store, Some(&token), at11).required(), Err(Rejection::Unauthorized)));
    assert!(matches!(store.get(&token), Ok(None)));
}

#[test]
fn window_closes_exactly_at_expiry() {
    let (_db, _tree, mut store) = open_store();
    let hash = password_auth::generate_hash("pw");
    let t0 = 0i128;
    let token = signin_at(&mut store, &req("bob", "pw"), Some(&hash), Timestamp::from_nanosecond(t0))
        .unwrap()
        .token;
    let just_before = Timestamp::from_nanosecond(t0 + 10 * MINUTE - 1);
    assert!(matches!(resolve(&mut store, Some(&token), just_before), Resolution::Valid(_)));
    let at_end = Timestamp::from_nanosecond(t0 + 10 * MINUTE);
    assert!(matches!(resolve(&mut store, Some(&token), at_end), Resolution::Expired { purged: true }));
}

#[test]
fn wrong_password_issues_no_token() {
    let (_db, tree, mut store) = open_store();
    let hash = password_auth::generate_hash("correct");
    let r = signin_at(&mut store, &req("alice", "wrong"), Some(&hash), Timestamp::from_nanosecond(0));
    assert!(matches!(r, Err(Rejection::Unauthorized)));
    assert_eq!(tree.len(), 0);
}

#[test]
fn unknown_user_and_empty_hash_are_unauthorized() {
    let (_db, tree, mut store) = open_store();
    let now = Timestamp::from_nanosecond(0);
    assert!(matches!(signin_at(&mut store, &req("alice", "pw"), None, now), Err(Rejection::Unauthorized)));
    assert!(matches!(signin_at(&mut store, &req("alice", "pw"), Some(""), now), Err(Rejection::Unauthorized)));
    assert!(matches!(signin_at(&mut store, &req("alice", "pw"), Some("not a hash"), now), Err(Rejection::Unauthorized)));
    assert_eq!(tree.len(), 0);
}

#[test]
fn empty_signin_fields_are_a_bad_request() {
    let (_db, tree, mut store) = open_store();
    let hash = password_auth::generate_hash("");
    let now = Timestamp::from_nanosecond(0);
    assert!(matches!(signin_at(&mut store, &req("", "pw"), Some(&hash), now), Err(Rejection::BadRequest)));
    assert!(matches!(signin_at(&mut store, &req("alice", ""), Some(&hash), now), Err(Rejection::BadRequest)));
    assert_eq!(tree.len(), 0);
}

#[test]
fn signin_persists_the_session() {
    let (_db, tree, mut store) = open_store();
    let hash = password_auth::generate_hash("secret");
    let token = signin(&mut store, &req("carol", "secret"), Some(&hash)).unwrap().token;
    assert_eq!(token.len(), TOKEN_LENGTH);
    assert!(token.chars().all(|c| c.is_ascii_alphanumeric()));
    assert_eq!(tree.len(), 1);
    let stored = store.get(&token).unwrap().unwrap();
    assert_eq!(stored.username, "carol");
    assert_eq!(stored.duration.nanos, 10 * MINUTE);
}

#[test]
fn store_fault_is_not_downgraded() {
    let (_db, tree, mut store) = open_store();
    tree.insert("broken", b"\x01\x02".to_vec()).unwrap();
    let now = Timestamp::from_nanosecond(0);
    assert!(matches!(resolve(&mut store, Some("broken"), now).optional(), Err(Rejection::InternalError)));
    assert!(matches!(resolve(&mut store, Some("broken"), now).required(), Err(Rejection::InternalError)));
    // the corrupt record is left in place
    assert_eq!(tree.len(), 1);
}

#[test]
fn absent_credentials_downgrade_to_anonymous() {
    let (_db, _tree, mut store) = open_store();
    let now = Timestamp::from_nanosecond(0);
    assert!(matches!(resolve(&mut store, None, now), Resolution::NoCredential));
    assert!(matches!(resolve(&mut store, None, now).optional(), Ok(None)));
    assert!(matches!(resolve(&mut store, None, now).required(), Err(Rejection::Unauthorized)));
    assert!(matches!(resolve(&mut store, Some("nope"), now), Resolution::NotFound));
    assert!(matches!(resolve(&mut store, Some("nope"), now).optional(), Ok(None)));
}

#[test]
fn second_expiry_is_a_no_op() {
    let (_db, tree, mut store) = open_store();
    let hash = password_auth::generate_hash("pw");
    let token = signin_at(&mut store, &req("dave", "pw"), Some(&hash), Timestamp::from_nanosecond(0))
        .unwrap()
        .token;
    let late = Timestamp::from_nanosecond(20 * MINUTE);
    assert!(matches!(resolve(&mut store, Some(&token), late), Resolution::Expired { purged: true }));
    assert!(matches!(resolve(&mut store, Some(&token), late), Resolution::NotFound));
    assert!(store.remove(&token).is_ok());
    assert_eq!(tree.len(), 0);
}

#[test]
fn gate_lets_only_identities_through() {
    let session = Session {
        token: "t".to_string(),
        username: "u".to_string(),
        created_on: Timestamp::from_nanosecond(0),
        duration: backend::time::SignedDuration::from_mins(10),
    };
    assert!(matches!(gate(&Ok(Some(session))), Ok(())));
    assert!(matches!(gate(&Ok(None)), Err(Rejection::Unauthorized)));
    assert!(matches!(gate(&Err(Rejection::InternalError)), Err(Rejection::InternalError)));
}

#[test]
fn bearer_header_is_resolved() {
    let (_db, _tree, mut store) = open_store();
    let hash = password_auth::generate_hash("secret");
    let token = signin(&mut store, &req("erin", "secret"), Some(&hash)).unwrap().token;

    let mut parts = head(Some(&format!("Bearer {token}")));
    let session = Session::from_request_parts(&mut parts, &mut store).unwrap();
    assert_eq!(session.username, "erin");
    assert!(protect_routes(&mut parts, &mut store).is_ok());

    let mut none = head(None);
    assert!(matches!(Session::from_request_parts(&mut none, &mut store), Err(Rejection::Unauthorized)));
    assert!(matches!(Session::from_request_parts_optional(&mut none, &mut store), Ok(None)));
    assert!(matches!(protect_routes(&mut none, &mut store), Err(Rejection::Unauthorized)));

    let mut basic = head(Some(&format!("Basic {token}")));
    assert!(matches!(Session::from_request_parts(&mut basic, &mut store), Err(Rejection::Unauthorized)));

    let mut unknown = head(Some("Bearer someoneelse"));
    assert!(matches!(Session::from_request_parts(&mut unknown, &mut store), Err(Rejection::Unauthorized)));
}

#[test]
fn random_tokens_are_alphanumeric_and_distinct() {
    let a = generate_random_token::<50>();
    let b = generate_random_token::<50>();
    assert_eq!(a.len(), 50);
    assert!(a.chars().all(|c| c.is_ascii_alphanumeric()));
    assert_ne!(a, b);
    assert_eq!(generate_random_token::<0>(), "");
}

fn signup(mail: &str, username: &str, password: &str, password2: &str) -> SignupParams {
    SignupParams {
        mail: mail.to_string(),
        first_name: Some("Ann".to_string()),
        last_name: None,
        username: username.to_string(),
        password: password.to_string(),
        password2: password2.to_string(),
    }
}

#[test]
fn signup_checks_fields_and_passwords() {
    assert!(matches!(new_user(signup("", "ann", "pw", "pw")), Err(Rejection::BadRequest)));
    assert!(matches!(new_user(signup("a@b.c", "ann", "pw", "")), Err(Rejection::BadRequest)));
    assert!(matches!(new_user(signup("a@b.c", "ann", "pw", "other")), Err(Rejection::BadRequest)));
    let user = new_user(signup("a@b.c", "ann", " pw ", "pw")).ok().unwrap();
    assert_eq!(user.username, "ann");
    assert_eq!(user.mail, "a@b.c");
    assert_eq!(user.first_name.as_deref(), Some("Ann"));
    assert_ne!(user.password_hash, " pw ");
    assert!(password_auth::verify_password(" pw ", &user.password_hash).is_ok());
}

#[test]
fn rejections_have_http_codes() {
    assert_eq!(Rejection::BadRequest.status_code(), 400);
    assert_eq!(Rejection::Unauthorized.status_code(), 401);
    assert_eq!(Rejection::NotFound.status_code(), 404);
    assert_eq!(Rejection::Conflict.status_code(), 409);
    assert_eq!(Rejection::InternalError.status_code(), 500);
}

#[test]
fn lookups_are_judged_at_an_instant() {
    let record = || Session {
        token: "t".to_string(),
        username: "u".to_string(),
        created_on: Timestamp::from_nanosecond(100),
        duration: backend::time::SignedDuration { nanos: 50 },
    };
    assert!(matches!(judge(Err(StoreFault::Io), Timestamp::from_nanosecond(0)), Resolution::StoreFault));
    assert!(matches!(judge(Err(StoreFault::Corrupt), Timestamp::from_nanosecond(0)), Resolution::StoreFault));
    assert!(matches!(judge(Ok(None), Timestamp::from_nanosecond(0)), Resolution::NotFound));
    match judge(Ok(Some(record())), Timestamp::from_nanosecond(149)) {
        Resolution::Valid(s) => assert_eq!(s.username, "u"),
        _ => panic!("record within its window"),
    }
    assert!(matches!(
        judge(Ok(Some(record())), Timestamp::from_nanosecond(150)),
        Resolution::Expired { purged: false }
    ));
}
