use chrono::{DateTime, TimeDelta, Utc};
use rest_latency::keycloak_client::{
    expiry, CachedToken, Key, KeycloakClient, TokenDecision, TokenFetch, TokenResponse,
};
use rest_latency::time::{UtcTime, MAX_SECS, MIN_SECS};

fn utc_time(t: DateTime<Utc>) -> UtcTime {
    UtcTime { secs: t.timestamp(), nanos: t.timestamp_subsec_nanos() }
}

fn at(secs: i64, nanos: u32) -> UtcTime {
    UtcTime { secs, nanos }
}

fn response(token: &str, expires_in: u32) -> TokenResponse {
    TokenResponse { access_token: token.to_string(), expires_in }
}

fn cached(decision: TokenDecision) -> Option<String> {
    match decision {
        TokenDecision::Cached(token) => Some(token),
        TokenDecision::Fetch(_) => None,
    }
}

fn fetch(decision: TokenDecision) -> TokenFetch {
    match decision {
        TokenDecision::Fetch(fetch) => fetch,
        TokenDecision::Cached(token) => panic!("unexpected cached token {}", token),
    }
}

fn field(name: &str, value: &str) -> (String, String) {
    (name.to_string(), value.to_string())
}

#[test]
fn test_new_client() {
    let client = KeycloakClient::new("http://localhost:8080");
    assert_eq!(client.url, "http://localhost:8080");
    assert!(client.cached_tokens.is_empty());
}

#[test]
fn test_make_key_format() {
    let client = KeycloakClient::new("http://test");
    let key = client.make_key("myrealm", "myclient", "user1", "pass123");
    assert_eq!(key.0, "myrealm:myclient:user1:pass123");
}

#[test]
fn test_cleanup_expired_tokens() {
    let mut client = KeycloakClient::new("http://test");

    // Add an expired token
    let expired_key = Key("expired".to_string());
    let expired_time = utc_time(Utc::now() - TimeDelta::hours(1));
    client
        .cached_tokens
        .insert(expired_key, CachedToken { token: "old_token".to_string(), valid_until: expired_time });

    // Add a valid token
    let valid_key = Key("valid".to_string());
    let valid_time = utc_time(Utc::now() + TimeDelta::hours(1));
    client
        .cached_tokens
        .insert(valid_key, CachedToken { token: "new_token".to_string(), valid_until: valid_time });

    assert_eq!(client.cached_tokens.len(), 2);

    client.cleanup_expired_tokens();

    assert_eq!(client.cached_tokens.len(), 1);
    assert!(client.cached_tokens.contains_key(&Key("valid".to_string())));
}

#[test]
fn cleanup_drops_a_token_at_the_moment_it_expires() {
    let mut client = KeycloakClient::new("http://test");
    for (name, valid_until) in
        [("before", at(99, 999_999_999)), ("at", at(100, 5)), ("after", at(100, 6))]
    {
        client.cached_tokens.insert(
            Key(name.to_string()),
            CachedToken { token: name.to_string(), valid_until },
        );
    }
    client.cleanup_expired_at(&at(100, 5));
    assert_eq!(client.cached_tokens.len(), 1);
    assert_eq!(client.cached_tokens.get(&Key("after".to_string())).unwrap().token, "after");
}

#[test]
fn cleaning_up_twice_is_cleaning_up_at_the_later_time() {
    let fill = || {
        let mut client = KeycloakClient::new("http://test");
        for secs in 0..10 {
            client.cached_tokens.insert(
                Key(secs.to_string()),
                CachedToken { token: "t".to_string(), valid_until: at(secs, 0) },
            );
        }
        client
    };
    let mut twice = fill();
    twice.cleanup_expired_at(&at(3, 0));
    twice.cleanup_expired_at(&at(6, 0));
    let mut once = fill();
    once.cleanup_expired_at(&at(6, 0));
    assert_eq!(twice.cached_tokens.len(), 3);
    for secs in 0..10 {
        let key = Key(secs.to_string());
        assert_eq!(twice.cached_tokens.contains_key(&key), once.cached_tokens.contains_key(&key));
    }
}

#[test]
fn insert_replaces_what_was_under_the_key() {
    let mut client = KeycloakClient::new("http://test");
    for token in ["first", "second"] {
        client.cached_tokens.insert(
            Key("k".to_string()),
            CachedToken { token: token.to_string(), valid_until: at(1, 0) },
        );
    }
    assert_eq!(client.cached_tokens.len(), 1);
    assert_eq!(client.cached_tokens.get(&Key("k".to_string())).unwrap().token, "second");
}

#[test]
fn token_request_goes_to_the_realm_with_the_credentials() {
    let mut client = KeycloakClient::new("https://id.example");
    let fetch = fetch(client.get_token("myrealm", "front", "me", "secret"));
    assert_eq!(fetch.url, "https://id.example/realms/myrealm/protocol/openid-connect/token");
    assert_eq!(fetch.key.0, "myrealm:front:me:secret");
    assert_eq!(
        fetch.form,
        vec![
            field("grant_type", "password"),
            field("client_id", "front"),
            field("username", "me"),
            field("password", "secret"),
        ]
    );
}

#[test]
fn second_call_returns_the_cached_token() {
    let mut client = KeycloakClient::new("https://id.example");
    let fetch = fetch(client.get_token("r", "c", "u", "p"));
    let stored = client.store_token(&fetch.key, &response("tok", 300));
    assert_eq!(stored, Some("tok".to_string()));
    assert_eq!(cached(client.get_token("r", "c", "u", "p")), Some("tok".to_string()));
    assert_eq!(cached(client.get_token("r", "c", "other", "p")), None);
}

#[test]
fn token_that_has_expired_is_fetched_again() {
    let mut client = KeycloakClient::new("https://id.example");
    let fetch = fetch(client.get_token("r", "c", "u", "p"));
    client.store_token(&fetch.key, &response("tok", 0));
    assert_eq!(cached(client.get_token("r", "c", "u", "p")), None);
    assert!(client.cached_tokens.is_empty());
}

#[test]
fn token_is_reused_while_valid_for_at_least_a_second() {
    let mut client = KeycloakClient::new("https://id.example");
    let key = client.make_key("r", "c", "u", "p");
    let now = at(1000, 500_000_000);
    client.store_token_at(&key, &response("tok", 10), &now, &now);
    let until = client.cached_tokens.get(&key).unwrap().valid_until;
    assert_eq!(until, at(1010, 500_000_000));

    let clean = at(1000, 0);
    for (t, hit) in [
        (at(1000, 500_000_000), true),
        (at(1008, 0), true),
        (at(1009, 0), true),
        (at(1009, 500_000_000), true),
        (at(1009, 500_000_001), false),
        (at(1010, 0), false),
        (at(2000, 0), false),
    ] {
        let found = cached(client.get_token_at("r", "c", "u", "p", &clean, &t));
        assert_eq!(found.is_some(), hit, "{:?}", t);
    }
}

#[test]
fn token_is_cleaned_up_before_it_is_looked_for() {
    let mut client = KeycloakClient::new("https://id.example");
    let key = client.make_key("r", "c", "u", "p");
    client.store_token_at(&key, &response("tok", 10), &at(0, 0), &at(0, 0));
    let found = cached(client.get_token_at("r", "c", "u", "p", &at(10, 0), &at(0, 0)));
    assert_eq!(found, None);
    assert!(client.cached_tokens.is_empty());
}

#[test]
fn user_with_another_key_is_not_affected() {
    let mut client = KeycloakClient::new("https://id.example");
    let mine = client.make_key("r", "c", "me", "p");
    let yours = client.make_key("r", "c", "you", "p");
    let now = at(50, 0);
    client.store_token_at(&mine, &response("mine", 100), &now, &now);
    client.store_token_at(&yours, &response("yours", 100), &now, &now);
    let get = |client: &mut KeycloakClient, user: &str| {
        cached(client.get_token_at("r", "c", user, "p", &now, &now))
    };
    assert_eq!(get(&mut client, "me"), Some("mine".to_string()));
    assert_eq!(get(&mut client, "you"), Some("yours".to_string()));
}

#[test]
fn keys_tell_users_apart_but_for_colons() {
    let client = KeycloakClient::new("http://test");
    assert_ne!(client.make_key("r", "c", "u", "p").0, client.make_key("r", "c", "u2", "p").0);
    assert_ne!(client.make_key("r", "c", "u", "p:q").0, client.make_key("r", "c", "u", "p").0);
    assert_eq!(client.make_key("r:c", "u", "p", "q").0, client.make_key("r", "c:u", "p", "q").0);
}

#[test]
fn life_of_a_token_is_counted_from_its_receipt() {
    let now = at(1_700_000_000, 123);
    assert_eq!(expiry(300, &now, &now), Some(at(1_700_000_300, 123)));
    assert_eq!(expiry(0, &now, &now), Some(now));
    assert_eq!(expiry(u32::MAX, &now, &now), Some(at(5_994_967_295, 123)));
    assert_eq!(expiry(86_400, &at(MIN_SECS, 7), &now), Some(at(MIN_SECS + 86_400, 7)));
}

#[test]
fn life_that_cannot_be_represented_becomes_an_hour() {
    let end = at(MAX_SECS, 999_999_999);
    let early = at(100, 1);
    assert_eq!(expiry(0, &end, &early), Some(end));
    assert_eq!(expiry(1, &end, &early), Some(at(3700, 1)));
    assert_eq!(expiry(1, &end, &at(MAX_SECS - 3600, 2)), Some(at(MAX_SECS, 2)));
    assert_eq!(expiry(1, &end, &at(MAX_SECS - 3599, 2)), None);
}

#[test]
fn token_without_expiry_is_not_stored() {
    let mut client = KeycloakClient::new("http://test");
    let key = client.make_key("r", "c", "u", "p");
    let end = at(MAX_SECS, 0);
    assert_eq!(client.store_token_at(&key, &response("tok", 1), &end, &end), None);
    assert!(client.cached_tokens.is_empty());
}

#[test]
fn bounds_of_time_are_those_of_dates() {
    assert_eq!(DateTime::<Utc>::MAX_UTC.timestamp(), MAX_SECS);
    assert_eq!(DateTime::<Utc>::MIN_UTC.timestamp(), MIN_SECS);
}

#[test]
fn times_are_ordered_by_seconds_and_then_nanoseconds() {
    assert!(at(2, 0).is_after(&at(1, 999_999_999)));
    assert!(at(1, 1).is_after(&at(1, 0)));
    assert!(!at(1, 0).is_after(&at(1, 0)));
    assert!(at(-1, 0).is_after(&at(-2, 5)));
    assert!(at(i64::MAX, 0).is_after(&at(i64::MIN, 0)));
    assert!(at(i64::MAX, 0).lasts_a_second_from(&at(i64::MIN, 0)));
    assert!(!at(i64::MIN, 0).lasts_a_second_from(&at(i64::MAX, 0)));
}
