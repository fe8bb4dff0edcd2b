use rest_latency::config::{AppConfig, ConfigError};
use rest_latency::hot_reload::{with_hot_reload, HotReload, ReloadAction, ReloadEvent};

const HANGUP: i32 = 1;

fn config(interval: u64) -> AppConfig {
    AppConfig {
        routes: vec![],
        auths: vec![],
        scrape_interval_seconds: interval,
        listen_addr: "127.0.0.1:9090".to_string(),
    }
}

fn reloader() -> HotReload {
    match HotReload::start(&config(15), HANGUP, Ok(())) {
        Ok((reload, ())) => reload,
        Err(e) => panic!("{}", e.message()),
    }
}

#[test]
fn hangup_reloads_and_publishes() {
    let mut reload = reloader();
    assert!(matches!(reload.step(ReloadEvent::Signal(HANGUP)), ReloadAction::Load));
    let action = reload.step(ReloadEvent::Loaded(Ok(config(5))));
    assert!(matches!(action, ReloadAction::Publish(c) if c.scrape_interval_seconds == 5));
    assert!(matches!(reload.step(ReloadEvent::Published(true)), ReloadAction::AwaitSignal));
    assert!(matches!(reload.step(ReloadEvent::Signal(HANGUP)), ReloadAction::Load));
}

#[test]
fn invalid_config_is_not_published_and_can_be_repaired() {
    let mut reload = reloader();
    assert!(matches!(reload.step(ReloadEvent::Signal(HANGUP)), ReloadAction::Load));
    let failed = Err(ConfigError::Parse("invalid: yaml".to_string()));
    assert!(matches!(reload.step(ReloadEvent::Loaded(failed)), ReloadAction::AwaitSignal));
    assert!(matches!(reload.step(ReloadEvent::Signal(HANGUP)), ReloadAction::Load));
    let action = reload.step(ReloadEvent::Loaded(Ok(config(15))));
    assert!(matches!(action, ReloadAction::Publish(_)));
}

#[test]
fn other_signals_are_passed_over() {
    let mut reload = reloader();
    assert!(matches!(reload.step(ReloadEvent::Signal(2)), ReloadAction::AwaitSignal));
    assert!(matches!(reload.step(ReloadEvent::Signal(HANGUP)), ReloadAction::Load));
}

#[test]
fn reloading_stops_without_receivers() {
    let mut reload = reloader();
    reload.step(ReloadEvent::Signal(HANGUP));
    reload.step(ReloadEvent::Loaded(Ok(config(5))));
    assert!(matches!(reload.step(ReloadEvent::Published(false)), ReloadAction::Stop));
    assert!(matches!(reload.step(ReloadEvent::Signal(HANGUP)), ReloadAction::Ignore));
}

#[test]
fn reloading_stops_without_signals() {
    let mut reload = reloader();
    assert!(matches!(reload.step(ReloadEvent::SignalsEnded), ReloadAction::Stop));
    assert!(matches!(reload.step(ReloadEvent::SignalsEnded), ReloadAction::Ignore));
}

#[test]
fn unexpected_events_are_ignored() {
    let mut reload = reloader();
    assert!(matches!(reload.step(ReloadEvent::Loaded(Ok(config(5)))), ReloadAction::Ignore));
    assert!(matches!(reload.step(ReloadEvent::Published(true)), ReloadAction::Ignore));
    assert!(matches!(reload.step(ReloadEvent::Signal(HANGUP)), ReloadAction::Load));
    assert!(matches!(reload.step(ReloadEvent::Signal(HANGUP)), ReloadAction::Ignore));
}

#[test]
fn failure_to_register_is_a_read_error() {
    let denied: Result<(), String> = Err("denied".to_string());
    match HotReload::start(&config(15), HANGUP, denied) {
        Ok(_) => panic!("started"),
        Err(e) => assert_eq!(e.message(), "Failed to read config file: denied"),
    }
}

#[test]
fn receiver_of_signals_is_handed_back() {
    match HotReload::start(&config(15), HANGUP, Ok("signals")) {
        Ok((_, signals)) => assert_eq!(signals, "signals"),
        Err(e) => panic!("{}", e.message()),
    }
}

#[test]
fn failed_first_load_is_the_result_before_any_registration() {
    let loaded = Err(ConfigError::Parse("bad".to_string()));
    let register = || -> Result<(), String> { panic!("registered") };
    match with_hot_reload(loaded, HANGUP, register) {
        Ok(_) => panic!("started"),
        Err(e) => assert!(matches!(&e, ConfigError::Parse(cause) if cause == "bad")),
    }
}

#[test]
fn first_config_is_published_once_signals_are_registered() {
    match with_hot_reload(Ok(config(7)), HANGUP, || Ok("signals")) {
        Ok((mut reload, signals, first)) => {
            assert_eq!(signals, "signals");
            assert_eq!(first.scrape_interval_seconds, 7);
            assert!(matches!(reload.step(ReloadEvent::Signal(HANGUP)), ReloadAction::Load));
        }
        Err(e) => panic!("{}", e.message()),
    }
    let denied = || -> Result<(), String> { Err("denied".to_string()) };
    match with_hot_reload(Ok(config(7)), HANGUP, denied) {
        Ok(_) => panic!("started"),
        Err(e) => assert!(matches!(&e, ConfigError::Read(cause) if cause == "denied")),
    }
}

#[test]
fn nothing_is_loaded_without_hangup() {
    let mut reload = reloader();
    for _ in 0..3 {
        assert!(matches!(reload.step(ReloadEvent::Signal(15)), ReloadAction::AwaitSignal));
        assert!(matches!(reload.step(ReloadEvent::Loaded(Ok(config(5)))), ReloadAction::Ignore));
    }
}
