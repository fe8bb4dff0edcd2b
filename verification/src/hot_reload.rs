//! When the configuration is loaded anew, and which configuration receivers see meanwhile.
use crate::config::{AppConfig, ConfigError};
use vstd::prelude::*;

verus! {

/// What the reloader waits for.
#[derive(Debug, Clone, Copy, PartialEq, Eq, Structural)]
pub enum ReloadPhase {
    /// A signal.
    Listening,
    /// A configuration that is being loaded.
    Loading,
    /// Receivers of a configuration that is being published.
    Publishing,
    /// Nothing: it has stopped.
    Stopped,
}

/// What has happened.
#[derive(Debug)]
pub enum ReloadEvent {
    /// The process received this signal.
    Signal(i32),
    /// There will be no more signals.
    SignalsEnded,
    /// Loading a configuration ended so.
    Loaded(Result<AppConfig, ConfigError>),
    /// Whether a receiver was there for the configuration that was to be published.
    Published(bool),
}

/// What is to be done.
#[derive(Debug)]
pub enum ReloadAction {
    /// Wait for a signal.
    AwaitSignal,
    /// Load the configuration.
    Load,
    /// Publish this configuration.
    Publish(AppConfig),
    /// Stop.
    Stop,
    /// Nothing: the event is not one that was waited for.
    Ignore,
}

/// Decides when the configuration is loaded and published.
pub struct HotReload {
    hangup: i32,
    phase: ReloadPhase,
    current: Ghost<AppConfig>,
    offered: Ghost<Option<AppConfig>>,
}

/// What a [`HotReload`] stands for.
pub struct ReloadView {
    /// The signal that asks for a reload.
    pub hangup: i32,
    /// What it waits for.
    pub phase: ReloadPhase,
    /// The configuration that receivers see.
    pub current: AppConfig,
    /// The configuration that is being published.
    pub offered: Option<AppConfig>,
}

impl View for HotReload {
    type V = ReloadView;

    closed spec fn view(&self) -> ReloadView {
        ReloadView {
            hangup: self.hangup,
            phase: self.phase,
            current: self.current@,
            offered: self.offered@,
        }
    }
}

impl ReloadView {
    /// The reloader as it starts, with `config` published.
    pub open spec fn initial(config: AppConfig, hangup: i32) -> ReloadView {
        ReloadView { hangup, phase: ReloadPhase::Listening, current: config, offered: None }
    }

    /// A configuration is on offer exactly while one is being published.
    pub open spec fn wf(self) -> bool {
        self.offered is Some <==> self.phase is Publishing
    }

    /// The event is one that is waited for.
    pub open spec fn expects(self, event: ReloadEvent) -> bool {
        match event {
            ReloadEvent::Signal(_) | ReloadEvent::SignalsEnded => self.phase is Listening,
            ReloadEvent::Loaded(_) => self.phase is Loading,
            ReloadEvent::Published(_) => self.phase is Publishing,
        }
    }

    /// What is to be done on `event`.
    pub open spec fn action(self, event: ReloadEvent) -> ReloadAction {
        if !self.expects(event) {
            ReloadAction::Ignore
        } else {
            match event {
                ReloadEvent::Signal(signal) => if signal == self.hangup {
                    ReloadAction::Load
                } else {
                    ReloadAction::AwaitSignal
                },
                ReloadEvent::SignalsEnded => ReloadAction::Stop,
                ReloadEvent::Loaded(Ok(config)) => ReloadAction::Publish(config),
                ReloadEvent::Loaded(Err(_)) => ReloadAction::AwaitSignal,
                ReloadEvent::Published(true) => ReloadAction::AwaitSignal,
                ReloadEvent::Published(false) => ReloadAction::Stop,
            }
        }
    }

    /// The reloader after `event`.
    pub open spec fn next(self, event: ReloadEvent) -> ReloadView {
        match self.action(event) {
            ReloadAction::Ignore => self,
            ReloadAction::Load => ReloadView { phase: ReloadPhase::Loading, ..self },
            ReloadAction::Publish(config) => ReloadView {
                phase: ReloadPhase::Publishing,
                offered: Some(config),
                ..self
            },
            ReloadAction::AwaitSignal => ReloadView {
                phase: ReloadPhase::Listening,
                current: if event == ReloadEvent::Published(true) {
                    self.offered->0
                } else {
                    self.current
                },
                offered: None,
                ..self
            },
            ReloadAction::Stop => ReloadView { phase: ReloadPhase::Stopped, offered: None, ..self },
        }
    }

    /// The reloader after all of `events`, the first one first.
    pub open spec fn after(self, events: Seq<ReloadEvent>) -> ReloadView
        decreases events.len(),
    {
        if events.len() == 0 {
            self
        } else {
            self.after(events.drop_last()).next(events.last())
        }
    }
}

impl HotReload {
    /// The reloader, once `config` has been loaded and published and the process was to be told
    /// of the signal `hangup`. Where that was `registered`, what signals are received through is
    /// handed back beside it; where it failed, `registered` holds the words of the cause.
    pub fn start<S>(config: &AppConfig, hangup: i32, registered: Result<S, String>) -> (started:
        Result<(HotReload, S), ConfigError>)
        ensures
            match registered {
                Ok(signals) => started matches Ok(pair) && pair.0@ == ReloadView::initial(
                    *config,
                    hangup,
                ) && pair.1 == signals,
                Err(cause) => started == Err::<(HotReload, S), ConfigError>(
                    ConfigError::Read(cause),
                ),
            },
    {
        match registered {
            Ok(signals) => {
                let reload = HotReload {
                    hangup,
                    phase: ReloadPhase::Listening,
                    current: Ghost(*config),
                    offered: Ghost(None),
                };
                Ok((reload, signals))
            },
            Err(cause) => Err(ConfigError::Read(cause)),
        }
    }

    /// Takes in `event` and says what is to be done.
    pub fn step(&mut self, event: ReloadEvent) -> (action: ReloadAction)
        ensures
            final(self)@ == old(self)@.next(event),
            action == old(self)@.action(event),
    {
        match (self.phase, event) {
            (ReloadPhase::Listening, ReloadEvent::Signal(signal)) => {
                if signal == self.hangup {
                    self.phase = ReloadPhase::Loading;
                    ReloadAction::Load
                } else {
                    self.offered = Ghost(None);
                    ReloadAction::AwaitSignal
                }
            },
            (ReloadPhase::Listening, ReloadEvent::SignalsEnded) => {
                self.phase = ReloadPhase::Stopped;
                self.offered = Ghost(None);
                ReloadAction::Stop
            },
            (ReloadPhase::Loading, ReloadEvent::Loaded(Ok(config))) => {
                self.phase = ReloadPhase::Publishing;
                self.offered = Ghost(Some(config));
                ReloadAction::Publish(config)
            },
            (ReloadPhase::Loading, ReloadEvent::Loaded(Err(_))) => {
                self.phase = ReloadPhase::Listening;
                self.offered = Ghost(None);
                ReloadAction::AwaitSignal
            },
            (ReloadPhase::Publishing, ReloadEvent::Published(received)) => {
                if received {
                    self.phase = ReloadPhase::Listening;
                    self.current = Ghost(self.offered@->0);
                    self.offered = Ghost(None);
                    ReloadAction::AwaitSignal
                } else {
                    self.phase = ReloadPhase::Stopped;
                    self.offered = Ghost(None);
                    ReloadAction::Stop
                }
            },
            _ => ReloadAction::Ignore,
        }
    }
}

/// Begins reloading, given what loading the first configuration gave: where that failed, its
/// error is the result as it is, and `register` is not called; otherwise `register` is called,
/// to have the process told of the signal `hangup`. Gives the reloader, what signals are received
/// through, and the configuration that is to be published first.
pub fn with_hot_reload<S, F: FnOnce() -> Result<S, String>>(
    loaded: Result<AppConfig, ConfigError>,
    hangup: i32,
    register: F,
) -> (started: Result<(HotReload, S, AppConfig), ConfigError>)
    requires
        loaded is Ok ==> register.requires(()),
    ensures
        match loaded {
            Ok(config) => exists|registered: Result<S, String>| #[trigger]
                register.ensures((), registered) && match registered {
                    Ok(signals) => started matches Ok(parts) && parts.0@ == ReloadView::initial(
                        config,
                        hangup,
                    ) && parts.1 == signals && parts.2 == config,
                    Err(cause) => started == Err::<(HotReload, S, AppConfig), ConfigError>(
                        ConfigError::Read(cause),
                    ),
                },
            Err(e) => started == Err::<(HotReload, S, AppConfig), ConfigError>(e),
        },
{
    match loaded {
        Ok(config) => {
            let registered = register();
            match HotReload::start(&config, hangup, registered) {
                Ok((reload, signals)) => Ok((reload, signals, config)),
                Err(e) => Err(e),
            }
        },
        Err(e) => Err(e),
    }
}

/// A configuration is on offer exactly while one is being published: so it is at the start, and
/// so it stays.
pub proof fn law_offers_are_tracked(
    config: AppConfig,
    hangup: i32,
    reload: ReloadView,
    event: ReloadEvent,
)
    ensures
        ReloadView::initial(config, hangup).wf(),
        reload.wf() ==> reload.next(event).wf(),
{
}

/// Where no load succeeds, receivers see the configuration that they saw before.
pub proof fn law_failed_loads_keep_the_config(reload: ReloadView, events: Seq<ReloadEvent>)
    requires
        reload.wf(),
        reload.phase !is Publishing,
        forall|i: int| 0 <= i < events.len() ==> !(#[trigger] events[i] matches ReloadEvent::Loaded(Ok(_))),
    ensures
        reload.after(events).current == reload.current,
        reload.after(events).phase !is Publishing,
    decreases events.len(),
{
    if events.len() > 0 {
        let before = events.drop_last();
        assert forall|i: int| 0 <= i < before.len() implies !(#[trigger] before[i] matches ReloadEvent::Loaded(Ok(_))) by {
            assert(before[i] == events[i]);
        }
        law_failed_loads_keep_the_config(reload, before);
        assert(events.last() == events[events.len() - 1]);
    }
}

/// After a load that failed, the next signal makes for a load again, and a configuration that
/// it gives is seen by the receivers once it is published.
pub proof fn law_reload_works_after_a_failure(
    reload: ReloadView,
    error: ConfigError,
    config: AppConfig,
)
    requires
        reload.phase is Loading,
    ensures
        ({
            let failed = reload.next(ReloadEvent::Loaded(Err(error)));
            let loading = failed.next(ReloadEvent::Signal(reload.hangup));
            let publishing = loading.next(ReloadEvent::Loaded(Ok(config)));
            let done = publishing.next(ReloadEvent::Published(true));
            &&& failed.phase is Listening
            &&& failed.current == reload.current
            &&& failed.action(ReloadEvent::Signal(reload.hangup)) == ReloadAction::Load
            &&& loading.action(ReloadEvent::Loaded(Ok(config))) == ReloadAction::Publish(config)
            &&& done.phase is Listening
            &&& done.current == config
        }),
{
}

/// What receivers see is what they saw at the start, or was loaded since.
pub proof fn law_only_loaded_configs_are_seen(reload: ReloadView, events: Seq<ReloadEvent>)
    requires
        reload.wf(),
        reload.phase !is Publishing,
    ensures
        ({
            let seen = reload.after(events).current;
            seen == reload.current || events.contains(ReloadEvent::Loaded(Ok(seen)))
        }),
        reload.after(events).wf(),
        reload.after(events).offered matches Some(offered) ==> events.contains(
            ReloadEvent::Loaded(Ok(offered)),
        ),
    decreases events.len(),
{
    if events.len() > 0 {
        let before = events.drop_last();
        law_only_loaded_configs_are_seen(reload, before);
        assert forall|e: ReloadEvent| before.contains(e) implies events.contains(e) by {
            let i = choose|i: int| 0 <= i < before.len() && before[i] == e;
            assert(events[i] == e);
        }
        assert(events.contains(events.last())) by {
            assert(events[events.len() - 1] == events.last());
        }
    }
}

/// Once it has stopped, it stays so, and what receivers see does not change any more.
pub proof fn law_stopped_is_final(reload: ReloadView, event: ReloadEvent)
    requires
        reload.phase is Stopped,
    ensures
        reload.next(event) == reload,
        reload.action(event) == ReloadAction::Ignore,
{
}

/// Without the signal that asks for a reload, receivers see the configuration that they saw
/// before, and nothing is loaded.
pub proof fn law_config_is_kept_without_hangup(reload: ReloadView, events: Seq<ReloadEvent>)
    requires
        reload.phase is Listening,
        forall|i: int| 0 <= i < events.len() ==> #[trigger] events[i] != ReloadEvent::Signal(
            reload.hangup,
        ),
    ensures
        reload.after(events).current == reload.current,
        reload.after(events).hangup == reload.hangup,
        reload.after(events).phase is Listening || reload.after(events).phase is Stopped,
    decreases events.len(),
{
    if events.len() > 0 {
        let before = events.drop_last();
        assert forall|i: int| 0 <= i < before.len() implies #[trigger] before[i]
            != ReloadEvent::Signal(reload.hangup) by {
            assert(before[i] == events[i]);
        }
        law_config_is_kept_without_hangup(reload, before);
        assert(events.last() == events[events.len() - 1]);
    }
}

/// Reloading begins with the given configuration seen by receivers, none on offer, and the wait for
/// a signal. While it waits, the signal that asks for a reload makes for a load and any other for
/// nothing; where there will be no more signals, it stops. In each case receivers see what they
/// saw.
pub proof fn law_listening_reloader_waits_for_hangup(
    config: AppConfig,
    hangup: i32,
    reload: ReloadView,
    signal: i32,
)
    requires
        reload.phase is Listening,
        reload.wf(),
    ensures
        ReloadView::initial(config, hangup).hangup == hangup,
        ReloadView::initial(config, hangup).current == config,
        ReloadView::initial(config, hangup).offered is None,
        ReloadView::initial(config, hangup).phase is Listening,
        ({
            let after = reload.next(ReloadEvent::Signal(signal));
            let action = reload.action(ReloadEvent::Signal(signal));
            &&& signal == reload.hangup ==> action is Load && after.phase is Loading
            &&& signal != reload.hangup ==> action is AwaitSignal && after.phase is Listening
            &&& after.current == reload.current
            &&& after.offered is None
            &&& after.hangup == reload.hangup
        }),
        ({
            let after = reload.next(ReloadEvent::SignalsEnded);
            &&& reload.action(ReloadEvent::SignalsEnded) is Stop
            &&& after.phase is Stopped
            &&& after.current == reload.current
        }),
{
}

/// A configuration that was loaded is what is published, whole; until it is, receivers see what
/// they saw. Where the load failed, nothing is published, and a signal is waited for again.
pub proof fn law_loaded_config_is_published(reload: ReloadView, config: AppConfig, e: ConfigError)
    requires
        reload.phase is Loading,
    ensures
        ({
            let after = reload.next(ReloadEvent::Loaded(Ok(config)));
            &&& reload.action(ReloadEvent::Loaded(Ok(config))) == ReloadAction::Publish(config)
            &&& after.phase is Publishing
            &&& after.offered == Some(config)
            &&& after.current == reload.current
            &&& after.hangup == reload.hangup
        }),
        ({
            let after = reload.next(ReloadEvent::Loaded(Err(e)));
            &&& reload.action(ReloadEvent::Loaded(Err(e))) is AwaitSignal
            &&& after.phase is Listening
            &&& after.offered is None
            &&& after.current == reload.current
            &&& after.hangup == reload.hangup
        }),
{
}

/// A configuration that was published is what receivers see, and a signal is waited for again.
/// Where no receiver was there, reloading stops.
pub proof fn law_published_config_is_seen(reload: ReloadView, config: AppConfig)
    requires
        reload.phase is Publishing,
        reload.offered == Some(config),
    ensures
        ({
            let after = reload.next(ReloadEvent::Published(true));
            &&& reload.action(ReloadEvent::Published(true)) is AwaitSignal
            &&& after.phase is Listening
            &&& after.current == config
            &&& after.offered is None
            &&& after.hangup == reload.hangup
        }),
        ({
            let after = reload.next(ReloadEvent::Published(false));
            &&& reload.action(ReloadEvent::Published(false)) is Stop
            &&& after.phase is Stopped
            &&& after.current == reload.current
        }),
{
}

/// Nothing is done on an event out of turn, and nothing changes: signals count while one is waited
/// for, the end of a load while one is under way, and that of publishing likewise.
pub proof fn law_reload_events_out_of_turn_change_nothing(reload: ReloadView, event: ReloadEvent)
    requires
        match event {
            ReloadEvent::Signal(_) | ReloadEvent::SignalsEnded => reload.phase !is Listening,
            ReloadEvent::Loaded(_) => reload.phase !is Loading,
            ReloadEvent::Published(_) => reload.phase !is Publishing,
        },
    ensures
        reload.action(event) is Ignore,
        reload.next(event) == reload,
{
}

/// Reloading starts with the configuration that was loaded first, once the process is told of the
/// signal; where that fails, it does not start, and the cause is told as one of reading.
pub proof fn law_reloading_starts_with_the_first_config<S>(
    config: &AppConfig,
    hangup: i32,
    registered: Result<S, String>,
    started: Result<(HotReload, S), ConfigError>,
)
    requires
        call_ensures(HotReload::start::<S>, (config, hangup, registered), started),
    ensures
        match (registered, started) {
            (Ok(signals), Ok((reload, same))) => {
                &&& same == signals
                &&& reload@.phase is Listening
                &&& reload@.hangup == hangup
                &&& reload@.current == *config
                &&& reload@.offered is None
            },
            (Err(cause), Err(ConfigError::Read(same))) => same == cause,
            _ => false,
        },
{
}

/// A first load that failed is the result, with its own error. One that succeeded is handed back
/// whole where reloading starts, and is what receivers see then.
pub proof fn law_first_load_decides<S, F: FnOnce() -> Result<S, String>>(
    loaded: Result<AppConfig, ConfigError>,
    hangup: i32,
    register: F,
    started: Result<(HotReload, S, AppConfig), ConfigError>,
)
    requires
        call_ensures(with_hot_reload::<S, F>, (loaded, hangup, register), started),
    ensures
        match (loaded, started) {
            (Err(e), Err(same)) => same == e,
            (Ok(config), Ok((reload, signals, first))) => {
                &&& first == config
                &&& reload@.current == config
                &&& reload@.hangup == hangup
                &&& reload@.phase is Listening
                &&& register.ensures((), Ok(signals))
            },
            (Ok(_), Err(e)) => e matches ConfigError::Read(cause) && register.ensures(
                (),
                Err(cause),
            ),
            _ => false,
        },
{
}

/// A step of the reloader does what is due on the event.
pub proof fn law_reloader_does_what_is_due(
    reload: &mut HotReload,
    event: ReloadEvent,
    action: ReloadAction,
)
    requires
        call_ensures(HotReload::step, (reload, event), action),
    ensures
        ({
            let before = old(reload)@;
            let after = final(reload)@;
            match (before.phase, event) {
                (ReloadPhase::Listening, ReloadEvent::Signal(signal)) => {
                    &&& signal == before.hangup ==> action is Load && after.phase is Loading
                    &&& signal != before.hangup ==> action is AwaitSignal && after.phase
                        is Listening
                    &&& after.current == before.current
                },
                (ReloadPhase::Listening, ReloadEvent::SignalsEnded) => {
                    &&& action is Stop
                    &&& after.phase is Stopped
                    &&& after.current == before.current
                },
                (ReloadPhase::Loading, ReloadEvent::Loaded(Ok(config))) => {
                    &&& action == ReloadAction::Publish(config)
                    &&& after.phase is Publishing
                    &&& after.offered == Some(config)
                    &&& after.current == before.current
                },
                (ReloadPhase::Loading, ReloadEvent::Loaded(Err(_))) => {
                    &&& action is AwaitSignal
                    &&& after.phase is Listening
                    &&& after.current == before.current
                },
                (ReloadPhase::Publishing, ReloadEvent::Published(received)) => {
                    &&& received ==> action is AwaitSignal && after.phase is Listening
                        && after.current == before.offered->0
                    &&& !received ==> action is Stop && after.phase is Stopped && after.current
                        == before.current
                },
                _ => action is Ignore && after == before,
            }
        }),
        final(reload)@ == old(reload)@.next(event),
{
}

} // verus!
