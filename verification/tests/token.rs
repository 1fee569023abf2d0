use push_relay::error::AuthError;
use push_relay::model::PushConfig;
use push_relay::token::{
    expiry, get_auth_push_token, read_grant, token_from_json, token_request, AuthPushToken,
    IdentityReply, TokenCache, TokenRequest, TokenStep,
};

fn config() -> PushConfig {
    PushConfig {
        push_enabled: true,
        push_installation_id: "0c3a-77".to_string(),
        push_installation_key: "s3cr3t".to_string(),
        push_relay_uri: "https://push.example.org".to_string(),
    }
}

fn grant(token: &str, expires_in: i32) -> AuthPushToken {
    AuthPushToken { access_token: token.to_string(), expires_in }
}

fn expected_request() -> TokenRequest {
    TokenRequest {
        url: "https://identity.bitwarden.com/connect/token".to_string(),
        form: vec![
            ("grant_type".to_string(), "client_credentials".to_string()),
            ("scope".to_string(), "api.push".to_string()),
            ("client_id".to_string(), "installation.0c3a-77".to_string()),
            ("client_secret".to_string(), "s3cr3t".to_string()),
        ],
    }
}

fn body(text: &str) -> IdentityReply {
    IdentityReply::Body(text.to_string())
}

#[test]
fn new_cache_holds_no_usable_token() {
    let cache = TokenCache::new();
    assert_eq!(cache.valid_until(), 0);
    assert_eq!(cache.access_token(), "");
    assert_eq!(cache.get_valid_token(0), None);
    assert_eq!(cache.get_valid_token(1), None);
    assert_eq!(cache.get_valid_token(u64::MAX), None);
}

#[test]
fn new_cache_asks_for_a_refresh_on_first_use() {
    let cache = TokenCache::new();
    assert_eq!(get_auth_push_token(&cache, &config(), 0), TokenStep::Refresh(expected_request()));
}

#[test]
fn token_request_is_a_client_credentials_grant() {
    assert_eq!(token_request(&config()), expected_request());
}

#[test]
fn token_request_with_empty_installation_id() {
    let mut config = config();
    config.push_installation_id = String::new();
    let request = token_request(&config);
    assert_eq!(request.form[2], ("client_id".to_string(), "installation.".to_string()));
    assert_eq!(request.form.len(), 4);
}

#[test]
fn install_uses_half_of_the_lifetime() {
    let mut cache = TokenCache::new();
    let token = cache.install(1000, grant("abc", 3600));
    assert_eq!(token, "abc");
    assert_eq!(cache.access_token(), "abc");
    assert_eq!(cache.valid_until(), 2800);
}

#[test]
fn install_rounds_half_of_an_odd_lifetime_down() {
    let mut cache = TokenCache::new();
    cache.install(10, grant("abc", 7));
    assert_eq!(cache.valid_until(), 13);
}

#[test]
fn install_replaces_the_cached_token() {
    let mut cache = TokenCache::new();
    cache.install(10, grant("first", 100));
    cache.install(20, grant("second", 10));
    assert_eq!(cache.access_token(), "second");
    assert_eq!(cache.valid_until(), 25);
}

#[test]
fn usable_token_is_returned_without_a_request() {
    let mut cache = TokenCache::new();
    cache.install(1000, grant("abc", 3600));
    assert_eq!(get_auth_push_token(&cache, &config(), 1000), TokenStep::Ready("abc".to_string()));
    assert_eq!(get_auth_push_token(&cache, &config(), 2799), TokenStep::Ready("abc".to_string()));
    assert_eq!(cache.get_valid_token(2799), Some("abc".to_string()));
}

#[test]
fn token_expires_at_its_expiry() {
    let mut cache = TokenCache::new();
    cache.install(1000, grant("abc", 3600));
    assert_eq!(cache.get_valid_token(2800), None);
    assert_eq!(get_auth_push_token(&cache, &config(), 2800), TokenStep::Refresh(expected_request()));
    assert_eq!(get_auth_push_token(&cache, &config(), 2801), TokenStep::Refresh(expected_request()));
}

#[test]
fn lifetime_below_two_seconds_is_expired_at_once() {
    let mut cache = TokenCache::new();
    assert_eq!(cache.accept(50, Ok(grant("abc", 1))), Ok("abc".to_string()));
    assert_eq!(cache.valid_until(), 50);
    assert_eq!(cache.get_valid_token(50), None);
    assert_eq!(cache.accept(60, Ok(grant("def", 0))), Ok("def".to_string()));
    assert_eq!(cache.valid_until(), 60);
    assert_eq!(cache.get_valid_token(60), None);
}

#[test]
fn refreshed_token_is_usable_when_it_is_returned() {
    let mut cache = TokenCache::new();
    let token = cache.accept(50, Ok(grant("abc", 2))).unwrap();
    assert_eq!(cache.get_valid_token(50), Some(token));
    assert_eq!(cache.valid_until(), 51);
}

#[test]
fn expiry_adds_half_of_the_lifetime() {
    assert_eq!(expiry(0, 0), Some(0));
    assert_eq!(expiry(100, 3600), Some(1900));
    assert_eq!(expiry(100, 3601), Some(1900));
    assert_eq!(expiry(100, i32::MAX), Some(100 + 1073741823));
    assert_eq!(expiry(u64::MAX - 5, 10), Some(u64::MAX));
}

#[test]
fn expiry_of_a_negative_lifetime_lies_in_the_past() {
    assert_eq!(expiry(100, -1), Some(100));
    assert_eq!(expiry(100, -7), Some(97));
    assert_eq!(expiry(3, -6), Some(0));
    assert_eq!(expiry(1073741824, i32::MIN), Some(0));
}

#[test]
fn expiry_outside_the_clock_is_refused() {
    assert_eq!(expiry(u64::MAX, 2), None);
    assert_eq!(expiry(u64::MAX - 5, 12), None);
    assert_eq!(expiry(2, -6), None);
    assert_eq!(expiry(0, i32::MIN), None);
}

#[test]
fn accept_refuses_a_lifetime_outside_the_clock() {
    let mut cache = TokenCache::new();
    cache.install(10, grant("held", 100));
    assert_eq!(cache.accept(u64::MAX, Ok(grant("abc", 2))), Err(AuthError::Lifetime));
    assert_eq!(cache.access_token(), "held");
    assert_eq!(cache.valid_until(), 60);
    assert_eq!(cache.accept(0, Ok(grant("abc", -2))), Err(AuthError::Lifetime));
    assert_eq!(cache.access_token(), "held");
    assert_eq!(cache.valid_until(), 60);
}

#[test]
fn accept_hands_a_failure_on_and_keeps_the_cache() {
    let mut cache = TokenCache::new();
    cache.install(10, grant("held", 100));
    assert_eq!(cache.accept(70, Err(AuthError::Transport)), Err(AuthError::Transport));
    assert_eq!(cache.accept(70, Err(AuthError::Malformed)), Err(AuthError::Malformed));
    assert_eq!(cache.access_token(), "held");
    assert_eq!(cache.valid_until(), 60);
}

#[test]
fn read_grant_decodes_the_identity_response() {
    let reply = body(r#"{"access_token":"eyJhbGciOi","expires_in":3600}"#);
    assert_eq!(read_grant(&reply), Ok(grant("eyJhbGciOi", 3600)));
}

#[test]
fn read_grant_ignores_other_members() {
    let reply =
        body(r#"{"token_type":"Bearer","expires_in":3600,"scope":"api.push","access_token":"t"}"#);
    assert_eq!(read_grant(&reply), Ok(grant("t", 3600)));
}

#[test]
fn read_grant_takes_every_32_bit_lifetime() {
    assert_eq!(
        read_grant(&body(r#"{"access_token":"t","expires_in":2147483647}"#)),
        Ok(grant("t", i32::MAX))
    );
    assert_eq!(
        read_grant(&body(r#"{"access_token":"t","expires_in":-2147483648}"#)),
        Ok(grant("t", i32::MIN))
    );
    assert_eq!(read_grant(&body(r#"{"access_token":"","expires_in":0}"#)), Ok(grant("", 0)));
}

#[test]
fn read_grant_refuses_a_lifetime_beyond_32_bits() {
    let malformed = Err(AuthError::Malformed);
    assert_eq!(read_grant(&body(r#"{"access_token":"t","expires_in":2147483648}"#)), malformed);
    assert_eq!(read_grant(&body(r#"{"access_token":"t","expires_in":-2147483649}"#)), malformed);
    assert_eq!(
        read_grant(&body(r#"{"access_token":"t","expires_in":18446744073709551615}"#)),
        malformed
    );
}

#[test]
fn read_grant_refuses_a_lifetime_that_is_no_integer() {
    let malformed = Err(AuthError::Malformed);
    assert_eq!(read_grant(&body(r#"{"access_token":"t","expires_in":3600.5}"#)), malformed);
    assert_eq!(read_grant(&body(r#"{"access_token":"t","expires_in":3600.0}"#)), malformed);
    assert_eq!(read_grant(&body(r#"{"access_token":"t","expires_in":"3600"}"#)), malformed);
    assert_eq!(read_grant(&body(r#"{"access_token":"t","expires_in":null}"#)), malformed);
}

#[test]
fn read_grant_refuses_a_token_that_is_no_string() {
    let malformed = Err(AuthError::Malformed);
    assert_eq!(read_grant(&body(r#"{"access_token":17,"expires_in":3600}"#)), malformed);
    assert_eq!(read_grant(&body(r#"{"access_token":null,"expires_in":3600}"#)), malformed);
    assert_eq!(read_grant(&body(r#"{"access_token":["t"],"expires_in":3600}"#)), malformed);
}

#[test]
fn read_grant_refuses_a_missing_member() {
    let malformed = Err(AuthError::Malformed);
    assert_eq!(read_grant(&body(r#"{"expires_in":3600}"#)), malformed);
    assert_eq!(read_grant(&body(r#"{"access_token":"t"}"#)), malformed);
    assert_eq!(read_grant(&body(r#"{}"#)), malformed);
    assert_eq!(read_grant(&body(r#"{"error":"invalid_client"}"#)), malformed);
}

#[test]
fn read_grant_refuses_what_is_no_object() {
    let malformed = Err(AuthError::Malformed);
    assert_eq!(read_grant(&body(r#"["t",3600]"#)), malformed);
    assert_eq!(read_grant(&body(r#""t""#)), malformed);
    assert_eq!(read_grant(&body("null")), malformed);
    assert_eq!(read_grant(&body("3600")), malformed);
}

#[test]
fn read_grant_refuses_what_is_no_json() {
    let malformed = Err(AuthError::Malformed);
    assert_eq!(read_grant(&body("")), malformed);
    assert_eq!(read_grant(&body("<html>Bad Gateway</html>")), malformed);
    assert_eq!(read_grant(&body(r#"{"access_token":"t","expires_in":3600"#)), malformed);
    assert_eq!(read_grant(&body(r#"{"access_token":"t","expires_in":3600} x"#)), malformed);
}

#[test]
fn read_grant_reports_an_unreachable_endpoint() {
    assert_eq!(read_grant(&IdentityReply::Unreachable), Err(AuthError::Transport));
}

#[test]
fn token_from_json_reads_a_parsed_document() {
    let doc: serde_json::Value =
        serde_json::from_str(r#"{"access_token":"abc","expires_in":-5}"#).unwrap();
    assert_eq!(token_from_json(&doc), Some(grant("abc", -5)));
    let doc: serde_json::Value = serde_json::from_str(r#"{"access_token":"abc"}"#).unwrap();
    assert_eq!(token_from_json(&doc), None);
    assert_eq!(token_from_json(&serde_json::Value::Null), None);
}

#[test]
fn token_from_json_keeps_the_characters_of_the_token() {
    let doc: serde_json::Value =
        serde_json::from_str(r#"{"access_token":"a\"bé\n","expires_in":1}"#).unwrap();
    assert_eq!(token_from_json(&doc), Some(grant("a\"b\u{e9}\n", 1)));
}

#[test]
fn refresh_installs_the_granted_token() {
    let mut cache = TokenCache::new();
    let reply = body(r#"{"access_token":"fresh","expires_in":3600}"#);
    assert_eq!(cache.refresh(500, &reply), Ok("fresh".to_string()));
    assert_eq!(cache.access_token(), "fresh");
    assert_eq!(cache.valid_until(), 2300);
    assert_eq!(get_auth_push_token(&cache, &config(), 501), TokenStep::Ready("fresh".to_string()));
}

#[test]
fn failed_refresh_keeps_the_stale_token() {
    let mut cache = TokenCache::new();
    cache.install(10, grant("stale", 20));
    assert_eq!(cache.refresh(500, &IdentityReply::Unreachable), Err(AuthError::Transport));
    assert_eq!(cache.refresh(500, &body("oops")), Err(AuthError::Malformed));
    assert_eq!(
        cache.refresh(u64::MAX, &body(r#"{"access_token":"t","expires_in":3600}"#)),
        Err(AuthError::Lifetime)
    );
    assert_eq!(cache.access_token(), "stale");
    assert_eq!(cache.valid_until(), 20);
    assert_eq!(get_auth_push_token(&cache, &config(), 500), TokenStep::Refresh(expected_request()));
}

#[test]
fn overlapping_refreshes_both_end_with_a_usable_token() {
    let mut cache = TokenCache::new();
    cache.install(0, grant("old", 20));
    let config = config();
    assert_eq!(get_auth_push_token(&cache, &config, 100), TokenStep::Refresh(expected_request()));
    assert_eq!(get_auth_push_token(&cache, &config, 101), TokenStep::Refresh(expected_request()));
    let first = cache.refresh(102, &body(r#"{"access_token":"one","expires_in":3600}"#));
    assert_eq!(first, Ok("one".to_string()));
    assert_eq!(cache.get_valid_token(102), Some("one".to_string()));
    let second = cache.refresh(103, &body(r#"{"access_token":"two","expires_in":600}"#));
    assert_eq!(second, Ok("two".to_string()));
    assert_eq!(cache.get_valid_token(103), Some("two".to_string()));
    assert_eq!(cache.valid_until(), 403);
}
