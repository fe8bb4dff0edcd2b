use rest_latency::config::{AppConfig, RouteConfig};
use rest_latency::scraper::{ScrapeAction, ScrapeEvent, ScrapePhase};
use rest_latency::supervisor::{Supervisor, SupervisorEvent, SupervisorStep};

fn config(route: &str, interval: u64) -> AppConfig {
    let route = RouteConfig {
        name: route.to_string(),
        url: "http://route.example/".to_string(),
        auth: None,
    };
    AppConfig {
        routes: vec![route],
        auths: vec![],
        scrape_interval_seconds: interval,
        listen_addr: "127.0.0.1:9090".to_string(),
    }
}

#[test]
fn scraper_of_the_first_config_starts_at_once() {
    let (_, mut scraper) = Supervisor::start(config("first", 15));
    assert_eq!(scraper.config().routes[0].name, "first");
    assert_eq!(scraper.config().scrape_interval_seconds, 15);
    assert_eq!(scraper.phase(), ScrapePhase::Waiting);
    assert!(matches!(scraper.advance(&ScrapeEvent::Tick).action, ScrapeAction::Proceed));
}

#[test]
fn changed_config_restarts_the_scraper() {
    let (mut supervisor, _) = Supervisor::start(config("old", 15));
    for (name, interval) in [("new", 5), ("newer", 6)] {
        let step = supervisor.step(SupervisorEvent::Changed);
        assert!(matches!(step, SupervisorStep::CancelAndAwaitEnd));
        match supervisor.step(SupervisorEvent::Ended(config(name, interval))) {
            SupervisorStep::Start(scraper) => {
                assert_eq!(scraper.config().routes[0].name, name);
                assert_eq!(scraper.config().scrape_interval_seconds, interval);
                assert_eq!(scraper.phase(), ScrapePhase::Waiting);
            }
            step => panic!("no scraper is started: {:?}", step),
        }
    }
}

#[test]
fn no_scraper_starts_beside_another() {
    let (mut supervisor, _) = Supervisor::start(config("old", 15));
    let early = supervisor.step(SupervisorEvent::Ended(config("early", 5)));
    assert!(matches!(early, SupervisorStep::Ignore));
    supervisor.step(SupervisorEvent::Changed);
    assert!(matches!(supervisor.step(SupervisorEvent::Changed), SupervisorStep::Ignore));
    assert!(matches!(supervisor.step(SupervisorEvent::Closed), SupervisorStep::Ignore));
    let step = supervisor.step(SupervisorEvent::Ended(config("new", 5)));
    assert!(matches!(step, SupervisorStep::Start(_)));
    let again = supervisor.step(SupervisorEvent::Ended(config("again", 5)));
    assert!(matches!(again, SupervisorStep::Ignore));
}

#[test]
fn closed_channel_cancels_the_scraper_for_good() {
    let (mut supervisor, _) = Supervisor::start(config("old", 15));
    assert!(matches!(supervisor.step(SupervisorEvent::Closed), SupervisorStep::CancelAndStop));
    for event in [
        SupervisorEvent::Changed,
        SupervisorEvent::Closed,
        SupervisorEvent::Ended(config("new", 5)),
    ] {
        assert!(matches!(supervisor.step(event), SupervisorStep::Ignore));
    }
}
