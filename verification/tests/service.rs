use switcharoo::assets::{asset_response, dist, AssetStatus};
use switcharoo::auth::{
    login_request, logout_message, permission_names, registered_user, token_claims, token_response,
    user_added_by, AccessTokenRequest, DEFAULT_TENANT_ID, JWT_DEFAULT_EXPIRATION,
};
use switcharoo::claims::{Claims, JWT_EXPIRATION_NUM_HOURS};
use switcharoo::config::{Config, CONFIG_FILE};
use switcharoo::connection::{with_connection, Backend};
use switcharoo::users::{Permission, User, UserRequest};

fn permissions() -> Vec<Permission> {
    vec![
        Permission { id: 1, name: "read".to_string() },
        Permission { id: 2, name: "write".to_string() },
    ]
}

#[test]
fn claims_issued_at_expire_a_day_later() {
    let c = Claims::issued_at("ann".to_string(), 5, vec!["read".to_string()], 1_000);
    assert_eq!(c.username, "ann");
    assert_eq!(c.tenant_id, 5);
    assert_eq!(c.permissions, vec!["read".to_string()]);
    assert_eq!(c.exp, 1_000 + 24 * 3600);
    assert_eq!(JWT_EXPIRATION_NUM_HOURS, 24);
}

#[test]
fn claims_new_expire_a_day_from_now() {
    let before = chrono::Utc::now().timestamp();
    let c = Claims::new("ann".to_string(), 5, vec![]).unwrap();
    assert_eq!(c.tenant_id, 5);
    let after = chrono::Utc::now().timestamp();
    assert!(before + 86_400 <= c.exp && c.exp <= after + 86_400);
    assert_eq!(c.username, "ann");
}

#[test]
fn login_asks_for_default_expiry() {
    let r = login_request(UserRequest { email: "a@b.c".to_string(), password: "pw".to_string() });
    assert_eq!(r.expiry, JWT_DEFAULT_EXPIRATION);
    assert_eq!(r.user.email, "a@b.c");
}

#[test]
fn permission_names_in_order() {
    assert_eq!(permission_names(&permissions()), vec!["read".to_string(), "write".to_string()]);
    assert!(permission_names(&vec![]).is_empty());
}

#[test]
fn token_claims_and_response() {
    let req = AccessTokenRequest {
        user: UserRequest { email: "a@b.c".to_string(), password: "pw".to_string() },
        expiry: 5,
    };
    let user = User { id: 3, email: "a@b.c".to_string(), password: "h".to_string(), tenant_id: 77 };
    let c = token_claims(&req, &user, &permissions()).unwrap();
    assert_eq!(c.username, "a@b.c");
    assert_eq!(c.tenant_id, 77);
    assert_eq!(c.permissions, vec!["read".to_string(), "write".to_string()]);
    let r = token_response(&req, "tok".to_string(), &permissions());
    assert_eq!(r.token, "tok");
    assert_eq!(r.permissions, vec!["read".to_string(), "write".to_string()]);
    assert_eq!(r.expiry, 5);
}

#[test]
fn logout_messages() {
    assert_eq!(
        logout_message(Some(0x67e5504410b1426f9247bb680e5fe0c8)),
        "Logged out: 67e55044-10b1-426f-9247-bb680e5fe0c8"
    );
    assert_eq!(logout_message(None), "Could not log out anonymous user.");
}

#[test]
fn dist_paths() {
    assert_eq!(dist(""), "dist/index.html");
    assert_eq!(dist("bundle.js"), "dist/bundle.js");
    assert_eq!(dist("img/logo.png"), "dist/img/logo.png");
}

#[test]
fn asset_found_with_guessed_type() {
    let r = asset_response("dist/index.html", Some(b"<html>".to_vec()));
    assert!(r.status == AssetStatus::Found);
    assert_eq!(r.content_type.as_deref(), Some("text/html"));
    assert_eq!(r.body, b"<html>".to_vec());
    let r = asset_response("dist/bundle.js", Some(vec![]));
    assert_eq!(r.content_type.as_deref(), Some("text/javascript"));
    let r = asset_response("dist/LICENSE", Some(vec![1]));
    assert_eq!(r.content_type.as_deref(), Some("application/octet-stream"));
    let r = asset_response("dist/file.unknownext", Some(vec![1]));
    assert_eq!(r.content_type.as_deref(), Some("application/octet-stream"));
}

#[test]
fn asset_not_found() {
    let r = asset_response("dist/missing.html", None);
    assert!(r.status == AssetStatus::NotFound);
    assert_eq!(r.content_type, None);
    assert_eq!(r.body, b"File not found".to_vec());
}

#[test]
fn with_connection_lends_and_takes_back() {
    let mut backend = Backend::new(5u32);
    let r = with_connection(&mut backend, |c: u32| (c + 1, c * 2));
    assert_eq!(r, 10);
    assert_eq!(backend.conn, Some(6));
    let r = with_connection(&mut backend, |c: u32| (c, c));
    assert_eq!(r, 6);
}

#[test]
fn config_fields_and_file() {
    let c = Config { host: "localhost".to_string(), port: 8080 };
    assert_eq!((c.host.as_str(), c.port), ("localhost", 8080));
    assert_eq!(CONFIG_FILE, "./config.toml");
}

#[test]
fn added_user_joins_the_callers_tenant() {
    let caller = Claims::issued_at("ann".to_string(), 42, vec![], 0);
    let u = user_added_by(&caller, UserRequest { email: "b@c.d".to_string(), password: "pw".to_string() }).unwrap();
    assert_eq!(u.tenant_id, 42);
    assert_eq!(u.email, "b@c.d");
    assert_eq!(u.verify_password(&"pw".to_string()), Ok(true));
}

#[test]
fn registered_user_joins_the_default_tenant() {
    let u = registered_user(UserRequest { email: "b@c.d".to_string(), password: "pw".to_string() }).unwrap();
    assert_eq!(u.tenant_id, DEFAULT_TENANT_ID);
    assert_eq!(DEFAULT_TENANT_ID, 1);
}

#[test]
fn current_timestamp_is_now() {
    let before = chrono::Utc::now().timestamp();
    let now = switcharoo::claims::current_timestamp().unwrap();
    let after = chrono::Utc::now().timestamp();
    assert!(before <= now && now <= after);
}

#[test]
fn new_ids_are_version_four() {
    let a = switcharoo::ids::new_v4_id().unwrap();
    let b = switcharoo::ids::new_v4_id().unwrap();
    assert_ne!(a, b);
    assert_eq!(a & 0xF000_C000_0000_0000_0000, 0x4000_8000_0000_0000_0000);
    let text = uuid::Uuid::from_u128(a).to_string();
    assert_eq!(text.as_bytes()[14], b'4');
}
