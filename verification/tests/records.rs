use blog::api::endpoint::drafts::{fetch_error, FetchFailure};
use blog::api::endpoint::profile::request::Profile;
use blog::api::endpoint::profile::{token_error, token_user};
use blog::api::endpoint::{JwtExt, ListPost, Pagination, Posts};
use blog::api::error::Error;
use blog::api::extract::bearer_token;
use blog::api::jwt::{self, Claims, User, TOKEN_LIFETIME_SECONDS};
use blog::service::{Application, Config};

#[test]
fn claims_expire_ten_years_after_issue() {
    let user = User { id: 7, first_name: "Ann".to_string(), last_name: "Lee".to_string() };
    let c = Claims::issued_at(user, 1_700_000_000);
    assert_eq!(c.exp, 1_700_000_000 + 315_360_000);
    assert_eq!(c.user_id(), 7);
    assert_eq!(TOKEN_LIFETIME_SECONDS, 10 * 365 * 24 * 3600);
}

#[test]
fn claims_issued_now_use_the_clock() {
    let now = std::time::SystemTime::now()
        .duration_since(std::time::UNIX_EPOCH)
        .unwrap()
        .as_secs() as usize;
    let user = User { id: 1, first_name: String::new(), last_name: String::new() };
    let c = Claims::issued_now(user);
    assert!(c.exp >= now + 315_360_000);
    assert!(c.exp <= now + 315_360_000 + 60);
}

#[test]
fn jwt_error_text() {
    let e = jwt::Error("InvalidSignature".to_string());
    assert_eq!(e.text(), "jsonwebtoken error: InvalidSignature");
    match token_error(&e) {
        Error::InternalServerError(t) => {
            assert_eq!(t, "cannot create token: jsonwebtoken error: InvalidSignature")
        }
        _ => panic!("expected an internal error"),
    }
}

#[test]
fn token_user_takes_the_new_names() {
    let p = Profile {
        first_name: "Bo".to_string(),
        last_name: "Ng".to_string(),
        email: "b@n".to_string(),
        telegram: "@bo".to_string(),
        location: "here".to_string(),
        bio: "hi".to_string(),
    };
    let u = token_user(42, &p);
    assert_eq!((u.id, u.first_name.as_str(), u.last_name.as_str()), (42, "Bo", "Ng"));
}

#[test]
fn draft_fetch_errors() {
    match fetch_error(FetchFailure::RowNotFound) {
        Error::NotFound(t) => assert_eq!(t, "Draft not found"),
        _ => panic!("expected not found"),
    }
    match fetch_error(FetchFailure::Other("pool timed out".to_string())) {
        Error::DatabaseError(t) => assert_eq!(t, "pool timed out"),
        _ => panic!("expected a database error"),
    }
}

#[test]
fn posts_count_defaults_to_zero() {
    let list = vec![ListPost { id: 1, title: "t".to_string(), posted_at: None }];
    let (posts, count) = Posts::new(list, None).into_parts();
    assert_eq!(posts.len(), 1);
    assert_eq!(count, 0);
    let (_, count) = Posts::new(Vec::new(), Some(12)).into_parts();
    assert_eq!(count, 12);
}

#[test]
fn pagination_defaults() {
    let p = Pagination::default();
    assert_eq!((p.offset, p.limit), (0, 0));
    let p = blog::api::endpoint::posts::Pagination::default();
    assert_eq!((p.offset, p.limit), (0, 0));
}

#[test]
fn jwt_ext_holds_the_secret() {
    assert_eq!(JwtExt::new("s3cr3t").secret, "s3cr3t");
}

#[test]
fn application_keeps_its_config() {
    let config = Config::new("0.0.0.0:8080".to_string(), "postgres://db".to_string(), "k".to_string());
    let app = Application::new(config);
    let c = app.get_config();
    assert_eq!(c.get_server_addr(), "0.0.0.0:8080");
    assert_eq!(c.get_database_url(), "postgres://db");
    assert_eq!(c.get_jwt_secret(), "k");
}

#[test]
fn bearer_token_takes_the_text_after_the_scheme() {
    assert_eq!(bearer_token("Bearer abc.def.ghi"), Some("abc.def.ghi"));
    assert_eq!(bearer_token("Bearer "), Some(""));
    assert_eq!(bearer_token("bearer abc"), None);
    assert_eq!(bearer_token("Basic dXNlcg=="), None);
    assert_eq!(bearer_token("Bearer é→"), Some("é→"));
}
