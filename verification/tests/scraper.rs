use rest_latency::auth::{apply_auth, oauth_cache_key, AuthClients, AuthStep, Credentials};
use rest_latency::config::{AppConfig, Auth, AuthConfig, RouteConfig};
use rest_latency::keycloak_client::TokenResponse;
use rest_latency::scraper::{
    find_auth, AuthStatus, ScrapeAction, ScrapeEvent, ScrapePhase, ScrapeStep, Scraper,
};
use rest_latency::time::{Clock, UtcTime, MAX_SECS};

fn route(name: &str, auth: Option<&str>) -> RouteConfig {
    RouteConfig {
        name: name.to_string(),
        url: format!("http://{}.example/", name),
        auth: auth.map(|a| a.to_string()),
    }
}

fn auths() -> Vec<Auth> {
    let s = |text: &str| text.to_string();
    vec![
        Auth { name: s("fixed"), config: AuthConfig::Bearer { token: s("abc") } },
        Auth { name: s("login"), config: AuthConfig::Basic { user: s("u"), pass: s("p") } },
        Auth {
            name: s("sso"),
            config: AuthConfig::OAuth {
                user: s("me"),
                pass: s("secret"),
                url: s("https://id.example"),
                client_id: s("front"),
                realm: s("r"),
            },
        },
        Auth { name: s("fixed"), config: AuthConfig::Bearer { token: s("shadowed") } },
    ]
}

fn config(routes: Vec<RouteConfig>) -> AppConfig {
    AppConfig {
        routes,
        auths: auths(),
        scrape_interval_seconds: 15,
        listen_addr: "127.0.0.1:9090".to_string(),
    }
}

fn clock(secs: i64) -> Clock {
    let t = UtcTime { secs, nanos: 0 };
    Clock { cleanup: t, now: t, fallback: t }
}

fn token(text: &str, expires_in: u32) -> ScrapeEvent {
    ScrapeEvent::TokenReceived(TokenResponse { access_token: text.to_string(), expires_in })
}

fn attempt(step: &ScrapeStep) -> Option<(String, &'static str)> {
    step.attempt.as_ref().map(|a| (a.auth_name.clone(), a.status.label()))
}

fn sent(step: &ScrapeStep) -> (&str, &Credentials) {
    match &step.action {
        ScrapeAction::Send { url, credentials } => (url.as_str(), credentials),
        action => panic!("nothing is sent: {:?}", action),
    }
}

fn bearer(step: &ScrapeStep) -> &str {
    match sent(step).1 {
        Credentials::Bearer(token) => token.as_str(),
        credentials => panic!("no token: {:?}", credentials),
    }
}

#[test]
fn oauth_cache_key_joins_with_colons() {
    assert_eq!(
        oauth_cache_key("https://id.example", "r", "front", "me", "secret"),
        "https://id.example:r:front:me:secret"
    );
    assert_ne!(oauth_cache_key("u", "r", "c", "a", "b"), oauth_cache_key("u", "r", "c", "a", "d"));
    assert_eq!(oauth_cache_key("u", "r:c", "d", "a", "b"), oauth_cache_key("u:r", "c", "d", "a", "b"));
}

#[test]
fn first_auth_of_a_name_is_found() {
    let auths = auths();
    let found = find_auth(&auths, &"fixed".to_string()).unwrap();
    assert!(matches!(&found.config, AuthConfig::Bearer { token } if token == "abc"));
    assert!(find_auth(&auths, &"nobody".to_string()).is_none());
}

#[test]
fn one_client_serves_an_account() {
    let auths = auths();
    let mut clients = AuthClients::new();
    for _ in 0..2 {
        let step = apply_auth(&auths[2], &mut clients, &clock(100));
        assert!(matches!(step, AuthStep::Fetch(_)));
        assert_eq!(clients.len(), 1);
    }
    let step = apply_auth(&auths[0], &mut clients, &clock(100));
    assert!(matches!(step, AuthStep::Ready(Credentials::Bearer(t)) if t == "abc"));
    assert_eq!(clients.len(), 1);
}

#[test]
fn round_checks_each_route_once_in_order() {
    let routes =
        vec![route("a", None), route("b", Some("fixed")), route("c", Some("login")), route("d", Some("nobody"))];
    let mut scraper = Scraper::new(config(routes));
    let now = clock(100);
    assert!(matches!(scraper.step(&ScrapeEvent::Tick, &now).action, ScrapeAction::Proceed));
    for (name, answered) in [("a", true), ("b", false), ("c", true), ("d", true)] {
        let step = scraper.step(&ScrapeEvent::Proceed, &now);
        assert_eq!(attempt(&step), None);
        let (url, credentials) = sent(&step);
        assert_eq!(url, format!("http://{}.example/", name));
        match name {
            "b" => assert!(matches!(credentials, Credentials::Bearer(t) if t == "abc")),
            "c" => assert!(
                matches!(credentials, Credentials::Basic { user, pass } if user == "u" && pass == "p")
            ),
            _ => assert!(matches!(credentials, Credentials::Anonymous)),
        }
        let event = if answered { ScrapeEvent::Answered } else { ScrapeEvent::RequestFailed };
        let step = scraper.step(&event, &now);
        assert_eq!(step.observe, if answered { Some(name.to_string()) } else { None });
        assert!(matches!(step.action, ScrapeAction::Proceed));
    }
    let step = scraper.step(&ScrapeEvent::Proceed, &now);
    assert!(matches!(step.action, ScrapeAction::Wait));
    assert_eq!(scraper.phase(), ScrapePhase::Waiting);
}

#[test]
fn round_without_routes_ends_at_once() {
    let mut scraper = Scraper::new(config(vec![]));
    scraper.step(&ScrapeEvent::Tick, &clock(0));
    let step = scraper.step(&ScrapeEvent::Proceed, &clock(0));
    assert!(matches!(step.action, ScrapeAction::Wait));
}

#[test]
fn token_is_fetched_once_and_used_by_later_rounds() {
    let mut scraper = Scraper::new(config(vec![route("a", Some("sso")), route("b", Some("sso"))]));
    scraper.step(&ScrapeEvent::Tick, &clock(100));
    let step = scraper.step(&ScrapeEvent::Proceed, &clock(100));
    match &step.action {
        ScrapeAction::FetchToken(fetch) => {
            assert_eq!(fetch.url, "https://id.example/realms/r/protocol/openid-connect/token");
            assert_eq!(fetch.key.0, "r:front:me:secret");
        }
        action => panic!("no token is fetched: {:?}", action),
    }
    assert_eq!(attempt(&step), None);
    assert_eq!(scraper.phase(), ScrapePhase::Fetching(0));

    let step = scraper.step(&token("tok", 60), &clock(100));
    assert_eq!(attempt(&step), Some(("sso".to_string(), "success")));
    assert_eq!(bearer(&step), "tok");
    scraper.step(&ScrapeEvent::Answered, &clock(100));

    let step = scraper.step(&ScrapeEvent::Proceed, &clock(101));
    assert_eq!(attempt(&step), Some(("sso".to_string(), "success")));
    assert_eq!(sent(&step).0, "http://b.example/");
    assert_eq!(bearer(&step), "tok");
    scraper.step(&ScrapeEvent::Answered, &clock(101));
    scraper.step(&ScrapeEvent::Proceed, &clock(101));

    scraper.step(&ScrapeEvent::Tick, &clock(159));
    let step = scraper.step(&ScrapeEvent::Proceed, &clock(159));
    assert_eq!(bearer(&step), "tok");
    scraper.step(&ScrapeEvent::Answered, &clock(160));
    let step = scraper.step(&ScrapeEvent::Proceed, &clock(160));
    assert!(matches!(step.action, ScrapeAction::FetchToken(_)));
}

#[test]
fn route_without_token_is_passed_over() {
    let mut scraper = Scraper::new(config(vec![route("a", Some("sso")), route("b", None)]));
    scraper.step(&ScrapeEvent::Tick, &clock(100));
    scraper.step(&ScrapeEvent::Proceed, &clock(100));
    let step = scraper.step(&ScrapeEvent::TokenFailed, &clock(100));
    assert_eq!(attempt(&step), Some(("sso".to_string(), "failure")));
    assert_eq!(step.attempt.unwrap().status, AuthStatus::Failure);
    assert_eq!(step.observe, None);
    assert!(matches!(step.action, ScrapeAction::Proceed));
    let step = scraper.step(&ScrapeEvent::Proceed, &clock(100));
    assert_eq!(sent(&step).0, "http://b.example/");
}

#[test]
fn scraper_gives_up_where_time_ends() {
    let mut scraper = Scraper::new(config(vec![route("a", Some("sso"))]));
    scraper.step(&ScrapeEvent::Tick, &clock(MAX_SECS));
    scraper.step(&ScrapeEvent::Proceed, &clock(MAX_SECS));
    let step = scraper.step(&token("tok", 60), &clock(MAX_SECS));
    assert!(matches!(step.action, ScrapeAction::Abort));
    assert_eq!(attempt(&step), None);
    assert_eq!(scraper.phase(), ScrapePhase::Stopped);
}

#[test]
fn cancelling_is_taken_in_between_rounds() {
    let mut scraper = Scraper::new(config(vec![route("a", None)]));
    scraper.step(&ScrapeEvent::Tick, &clock(0));
    assert!(matches!(scraper.step(&ScrapeEvent::Cancelled, &clock(0)).action, ScrapeAction::Ignore));
    scraper.step(&ScrapeEvent::Proceed, &clock(0));
    assert!(matches!(scraper.step(&ScrapeEvent::Cancelled, &clock(0)).action, ScrapeAction::Ignore));
    scraper.step(&ScrapeEvent::Answered, &clock(0));
    scraper.step(&ScrapeEvent::Proceed, &clock(0));
    assert!(matches!(scraper.step(&ScrapeEvent::Cancelled, &clock(0)).action, ScrapeAction::Stop));
    assert!(matches!(scraper.step(&ScrapeEvent::Tick, &clock(0)).action, ScrapeAction::Ignore));
}

#[test]
fn advancing_reads_the_clock() {
    let mut scraper = Scraper::new(config(vec![route("a", Some("sso")), route("b", Some("sso"))]));
    scraper.advance(&ScrapeEvent::Tick);
    scraper.advance(&ScrapeEvent::Proceed);
    assert_eq!(bearer(&scraper.advance(&token("tok", 300))), "tok");
    scraper.advance(&ScrapeEvent::Answered);
    assert_eq!(bearer(&scraper.advance(&ScrapeEvent::Proceed)), "tok");
}

#[test]
fn rounds_repeat_the_routes() {
    let mut scraper = Scraper::new(config(vec![route("a", None), route("b", None)]));
    let mut urls: Vec<String> = Vec::new();
    for _ in 0..3 {
        scraper.step(&ScrapeEvent::Tick, &clock(0));
        while scraper.phase() != ScrapePhase::Waiting {
            let step = scraper.step(&ScrapeEvent::Proceed, &clock(0));
            if let ScrapeAction::Send { url, .. } = step.action {
                urls.push(url);
                scraper.step(&ScrapeEvent::RequestFailed, &clock(0));
            }
        }
    }
    let expected: Vec<String> =
        (0..6).map(|k| format!("http://{}.example/", ["a", "b"][k % 2])).collect();
    assert_eq!(urls, expected);
}

#[test]
fn new_scraper_fetches_its_first_token() {
    for _ in 0..2 {
        let mut scraper = Scraper::new(config(vec![route("a", Some("sso"))]));
        scraper.step(&ScrapeEvent::Tick, &clock(100));
        let step = scraper.step(&ScrapeEvent::Proceed, &clock(100));
        assert!(matches!(step.action, ScrapeAction::FetchToken(_)));
        scraper.step(&token("tok", 300), &clock(100));
    }
}
