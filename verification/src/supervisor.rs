//! When a scraper is started and cancelled as the configuration changes: never one beside
//! another, and always with the configuration that was published last.
use crate::config::AppConfig;
use crate::scraper::{Scraper, ScraperView};
use vstd::prelude::*;

verus! {

/// What the supervisor waits for.
#[derive(Debug, Clone, Copy, PartialEq, Eq, Structural)]
pub enum SupervisorPhase {
    /// A change of the configuration, while a scraper runs.
    Running,
    /// The end of a scraper that was cancelled.
    Ending,
    /// Nothing: it has stopped.
    Stopped,
}

/// What has happened.
#[derive(Debug)]
pub enum SupervisorEvent {
    /// Another configuration was published.
    Changed,
    /// There will be no other configuration.
    Closed,
    /// The scraper that was cancelled has ended, and this is the configuration that was
    /// published last.
    Ended(AppConfig),
}

/// What is to be done.
#[derive(Debug)]
pub enum SupervisorStep {
    /// Cancel the running scraper, and wait until it has ended.
    CancelAndAwaitEnd,
    /// Run this scraper.
    Start(Scraper),
    /// Cancel the running scraper, and stop.
    CancelAndStop,
    /// Nothing: the event is not one that was waited for.
    Ignore,
}

/// What a [`SupervisorStep`] stands for.
pub enum SupervisorStepView {
    CancelAndAwaitEnd,
    Start(ScraperView),
    CancelAndStop,
    Ignore,
}

impl View for SupervisorStep {
    type V = SupervisorStepView;

    open spec fn view(&self) -> SupervisorStepView {
        match self {
            SupervisorStep::CancelAndAwaitEnd => SupervisorStepView::CancelAndAwaitEnd,
            SupervisorStep::Start(scraper) => SupervisorStepView::Start(scraper@),
            SupervisorStep::CancelAndStop => SupervisorStepView::CancelAndStop,
            SupervisorStep::Ignore => SupervisorStepView::Ignore,
        }
    }
}

/// Decides when scrapers are started and cancelled.
pub struct Supervisor {
    phase: SupervisorPhase,
    config: Ghost<AppConfig>,
}

/// What a [`Supervisor`] stands for.
pub struct SupervisorView {
    /// What it waits for.
    pub phase: SupervisorPhase,
    /// The configuration of the scraper that was started last.
    pub config: AppConfig,
}

impl View for Supervisor {
    type V = SupervisorView;

    closed spec fn view(&self) -> SupervisorView {
        SupervisorView { phase: self.phase, config: self.config@ }
    }
}

impl SupervisorView {
    /// The supervisor once a scraper of `config` has been started.
    pub open spec fn running(config: AppConfig) -> SupervisorView {
        SupervisorView { phase: SupervisorPhase::Running, config }
    }

    /// What is to be done on `event`.
    pub open spec fn step(self, event: SupervisorEvent) -> SupervisorStepView {
        match (self.phase, event) {
            (SupervisorPhase::Running, SupervisorEvent::Changed) =>
                SupervisorStepView::CancelAndAwaitEnd,
            (SupervisorPhase::Running, SupervisorEvent::Closed) =>
                SupervisorStepView::CancelAndStop,
            (SupervisorPhase::Ending, SupervisorEvent::Ended(config)) =>
                SupervisorStepView::Start(ScraperView::initial(config)),
            _ => SupervisorStepView::Ignore,
        }
    }

    /// The supervisor after `event`.
    pub open spec fn next(self, event: SupervisorEvent) -> SupervisorView {
        match self.step(event) {
            SupervisorStepView::CancelAndAwaitEnd => SupervisorView {
                phase: SupervisorPhase::Ending,
                config: self.config,
            },
            SupervisorStepView::Start(scraper) => SupervisorView::running(scraper.config),
            SupervisorStepView::CancelAndStop => SupervisorView {
                phase: SupervisorPhase::Stopped,
                config: self.config,
            },
            SupervisorStepView::Ignore => self,
        }
    }

    /// The supervisor after all of `events`, the first one first.
    pub open spec fn after(self, events: Seq<SupervisorEvent>) -> SupervisorView
        decreases events.len(),
    {
        if events.len() == 0 {
            self
        } else {
            self.after(events.drop_last()).next(events.last())
        }
    }

    /// How many scrapers are started on `events`.
    pub open spec fn started(self, events: Seq<SupervisorEvent>) -> nat
        decreases events.len(),
    {
        if events.len() == 0 {
            0
        } else {
            let earlier = events.drop_last();
            if self.after(earlier).step(events.last()) is Start {
                self.started(earlier) + 1
            } else {
                self.started(earlier)
            }
        }
    }

    /// How many scrapers are cancelled on `events`.
    pub open spec fn cancelled(self, events: Seq<SupervisorEvent>) -> nat
        decreases events.len(),
    {
        if events.len() == 0 {
            0
        } else {
            let earlier = events.drop_last();
            let step = self.after(earlier).step(events.last());
            if step is CancelAndAwaitEnd || step is CancelAndStop {
                self.cancelled(earlier) + 1
            } else {
                self.cancelled(earlier)
            }
        }
    }

    /// How many scrapers `events` tell to have ended that were waited for to end.
    pub open spec fn ended(self, events: Seq<SupervisorEvent>) -> nat
        decreases events.len(),
    {
        if events.len() == 0 {
            0
        } else {
            let earlier = events.drop_last();
            if self.after(earlier).phase is Ending && events.last() is Ended {
                self.ended(earlier) + 1
            } else {
                self.ended(earlier)
            }
        }
    }
}

impl Supervisor {
    /// The supervisor, and the scraper that it starts with: that of the configuration `config`,
    /// which is to be run at once.
    pub fn start(config: AppConfig) -> (started: (Supervisor, Scraper))
        ensures
            started.0@ == SupervisorView::running(config),
            started.1@ == ScraperView::initial(config),
            started.1@.wf(),
    {
        let supervisor = Supervisor { phase: SupervisorPhase::Running, config: Ghost(config) };
        (supervisor, Scraper::new(config))
    }

    /// Takes in `event` and says what is to be done: where the configuration changes, the
    /// running scraper is cancelled, and once it has ended another takes its place, with no
    /// clients of the old one; where there will be no other configuration, it is cancelled and
    /// none takes its place.
    pub fn step(&mut self, event: SupervisorEvent) -> (step: SupervisorStep)
        ensures
            final(self)@ == old(self)@.next(event),
            step@ == old(self)@.step(event),
            step matches SupervisorStep::Start(scraper) ==> scraper@.wf(),
    {
        match (self.phase, event) {
            (SupervisorPhase::Running, SupervisorEvent::Changed) => {
                self.phase = SupervisorPhase::Ending;
                SupervisorStep::CancelAndAwaitEnd
            },
            (SupervisorPhase::Running, SupervisorEvent::Closed) => {
                self.phase = SupervisorPhase::Stopped;
                SupervisorStep::CancelAndStop
            },
            (SupervisorPhase::Ending, SupervisorEvent::Ended(config)) => {
                self.phase = SupervisorPhase::Running;
                self.config = Ghost(config);
                SupervisorStep::Start(Scraper::new(config))
            },
            _ => SupervisorStep::Ignore,
        }
    }
}

/// Of all the scrapers that were started, the first one among them, all but one have ended, in
/// every run of events: a scraper is started only where none runs. And all were cancelled, but
/// for the one that runs while a change is waited for.
pub proof fn law_one_scraper_at_a_time(config: AppConfig, events: Seq<SupervisorEvent>)
    ensures
        ({
            let start = SupervisorView::running(config);
            &&& start.started(events) == start.ended(events)
            &&& start.after(events).phase is Running ==> start.cancelled(events)
                == start.started(events)
            &&& start.after(events).phase !is Running ==> start.cancelled(events)
                == start.started(events) + 1
        }),
    decreases events.len(),
{
    if events.len() > 0 {
        law_one_scraper_at_a_time(config, events.drop_last());
    }
}

/// A scraper is started exactly when one that was cancelled, and waited for, has ended; it has
/// the configuration that was published last by then, and no clients.
pub proof fn law_scraper_starts_when_the_last_has_ended(
    supervisor: SupervisorView,
    event: SupervisorEvent,
)
    ensures
        supervisor.step(event) is Start <==> supervisor.phase is Ending && event is Ended,
        supervisor.step(event) matches SupervisorStepView::Start(scraper) ==> event
            == SupervisorEvent::Ended(scraper.config) && scraper == ScraperView::initial(
            scraper.config,
        ),
{
}

/// The running scraper is cancelled whatever happens to the configuration.
pub proof fn law_running_scraper_is_cancelled(config: AppConfig)
    ensures
        SupervisorView::running(config).step(SupervisorEvent::Changed)
            == SupervisorStepView::CancelAndAwaitEnd,
        SupervisorView::running(config).step(SupervisorEvent::Closed)
            == SupervisorStepView::CancelAndStop,
        SupervisorView::running(config).next(SupervisorEvent::Closed).phase is Stopped,
{
}

/// Once the supervisor has stopped, it stays so, and nothing more is to be done.
pub proof fn law_stopped_supervisor_stays_so(
    supervisor: SupervisorView,
    events: Seq<SupervisorEvent>,
    event: SupervisorEvent,
)
    requires
        supervisor.phase is Stopped,
    ensures
        supervisor.after(events) == supervisor,
        supervisor.after(events).step(event) == SupervisorStepView::Ignore,
        supervisor.started(events) == 0,
    decreases events.len(),
{
    if events.len() > 0 {
        law_stopped_supervisor_stays_so(supervisor, events.drop_last(), event);
    }
}

/// A supervisor, and the channel on which it is told of configurations.
pub struct Supervised {
    pub supervisor: SupervisorView,
    /// The configuration that was published last.
    pub latest: AppConfig,
    /// One was published since the supervisor last looked.
    pub unread: bool,
}

impl Supervised {
    /// A supervisor that has just been started with what was published last.
    pub open spec fn initial(config: AppConfig) -> Supervised {
        Supervised {
            supervisor: SupervisorView::running(config),
            latest: config,
            unread: false,
        }
    }

    /// The scraper that runs has the configuration that was published last, unless one was
    /// published since the supervisor last looked.
    pub open spec fn wf(self) -> bool {
        self.supervisor.phase is Running && !self.unread ==> self.supervisor.config == self.latest
    }

    /// After `config` was published.
    pub open spec fn published(self, config: AppConfig) -> Supervised {
        Supervised { latest: config, unread: true, ..self }
    }

    /// After all of `configs` were published, the first one first.
    pub open spec fn all_published(self, configs: Seq<AppConfig>) -> Supervised
        decreases configs.len(),
    {
        if configs.len() == 0 {
            self
        } else {
            self.all_published(configs.drop_last()).published(configs.last())
        }
    }

    /// After the supervisor was told that something was published.
    pub open spec fn noticed(self) -> Supervised {
        Supervised {
            supervisor: self.supervisor.next(SupervisorEvent::Changed),
            unread: false,
            ..self
        }
    }

    /// After the supervisor was told that the scraper has ended, and what was published last.
    pub open spec fn ended(self) -> Supervised {
        Supervised {
            supervisor: self.supervisor.next(SupervisorEvent::Ended(self.latest)),
            unread: false,
            ..self
        }
    }
}

proof fn lemma_last_published(supervised: Supervised, configs: Seq<AppConfig>)
    ensures
        supervised.all_published(configs).supervisor == supervised.supervisor,
        supervised.all_published(configs).latest == if configs.len() == 0 {
            supervised.latest
        } else {
            configs.last()
        },
        supervised.all_published(configs).unread == (supervised.unread || configs.len() > 0),
    decreases configs.len(),
{
    if configs.len() > 0 {
        lemma_last_published(supervised, configs.drop_last());
    }
}

/// Whatever is published when, a scraper that runs with nothing left to read has the
/// configuration that was published last: so it is at the start, and so it stays.
pub proof fn law_settled_scraper_has_the_latest_config(
    initial: AppConfig,
    supervised: Supervised,
    config: AppConfig,
)
    ensures
        Supervised::initial(initial).wf(),
        supervised.wf() ==> supervised.published(config).wf(),
        supervised.wf() && supervised.supervisor.phase is Running && supervised.unread
            ==> supervised.noticed().wf(),
        supervised.wf() && supervised.supervisor.phase is Ending ==> supervised.ended().wf(),
{
}

/// Where one or more configurations are published while a scraper runs, some before the
/// supervisor is told and others perhaps until that scraper has ended, that scraper is
/// cancelled, and once it has ended a scraper of exactly the last of them is started and stays:
/// nothing is left to read. The others are skipped.
pub proof fn law_last_published_config_comes_to_run(
    supervised: Supervised,
    before: Seq<AppConfig>,
    meanwhile: Seq<AppConfig>,
)
    requires
        supervised.supervisor.phase is Running,
        before.len() > 0,
    ensures
        ({
            let told = supervised.all_published(before);
            let ending = told.noticed().all_published(meanwhile);
            let last = (before + meanwhile).last();
            &&& told.unread
            &&& told.supervisor.step(SupervisorEvent::Changed)
                == SupervisorStepView::CancelAndAwaitEnd
            &&& ending.supervisor.phase is Ending
            &&& ending.supervisor.step(SupervisorEvent::Ended(ending.latest))
                == SupervisorStepView::Start(ScraperView::initial(last))
            &&& ending.ended() == Supervised::initial(last)
        }),
{
    lemma_last_published(supervised, before);
    lemma_last_published(supervised.all_published(before).noticed(), meanwhile);
}

/// While a scraper runs, a change of the configuration cancels it, and its end is waited for; where
/// there will be no other configuration it is cancelled for good. Once it has ended, a scraper of
/// just the configuration that was published last runs, which waits for its first round and has no
/// clients. On any other event nothing is done, and nothing changes.
pub proof fn law_supervisor_replaces_scrapers(
    config: AppConfig,
    supervisor: SupervisorView,
    event: SupervisorEvent,
    key: Seq<char>,
)
    ensures
        SupervisorView::running(config).phase is Running,
        SupervisorView::running(config).config == config,
        ({
            let step = supervisor.step(event);
            let after = supervisor.next(event);
            match (supervisor.phase, event) {
                (SupervisorPhase::Running, SupervisorEvent::Changed) => {
                    &&& step is CancelAndAwaitEnd
                    &&& after.phase is Ending
                    &&& after.config == supervisor.config
                },
                (SupervisorPhase::Running, SupervisorEvent::Closed) => {
                    &&& step is CancelAndStop
                    &&& after.phase is Stopped
                    &&& after.config == supervisor.config
                },
                (SupervisorPhase::Ending, SupervisorEvent::Ended(latest)) => {
                    &&& step matches SupervisorStepView::Start(scraper) && scraper.config == latest
                        && scraper.phase is Waiting && !scraper.clients.contains_key(key)
                    &&& after.phase is Running
                    &&& after.config == latest
                },
                _ => step is Ignore && after == supervisor,
            }
        }),
{
}

/// What is said of a step is said of the scraper that it starts.
pub proof fn law_step_shows_its_scraper(step: SupervisorStep)
    ensures
        match step {
            SupervisorStep::CancelAndAwaitEnd => step@ is CancelAndAwaitEnd,
            SupervisorStep::Start(scraper) => step@ == SupervisorStepView::Start(scraper@),
            SupervisorStep::CancelAndStop => step@ is CancelAndStop,
            SupervisorStep::Ignore => step@ is Ignore,
        },
{
}

/// A step of the supervisor does what is due on the event, and a supervisor starts with a scraper
/// of the given configuration.
pub proof fn law_supervisor_does_what_is_due(
    config: AppConfig,
    started: (Supervisor, Scraper),
    supervisor: &mut Supervisor,
    event: SupervisorEvent,
    step: SupervisorStep,
    key: Seq<char>,
)
    requires
        call_ensures(Supervisor::start, (config,), started),
        call_ensures(Supervisor::step, (supervisor, event), step),
    ensures
        started.0@.phase is Running,
        started.1@.config == config,
        started.1@.phase is Waiting,
        !started.1@.clients.contains_key(key),
        ({
            let before = old(supervisor)@;
            let after = final(supervisor)@;
            match (before.phase, event) {
                (SupervisorPhase::Running, SupervisorEvent::Changed) => step is CancelAndAwaitEnd
                    && after.phase is Ending,
                (SupervisorPhase::Running, SupervisorEvent::Closed) => step is CancelAndStop
                    && after.phase is Stopped,
                (SupervisorPhase::Ending, SupervisorEvent::Ended(latest)) => {
                    &&& step matches SupervisorStep::Start(scraper) && scraper@.config == latest
                        && scraper@.phase is Waiting && !scraper@.clients.contains_key(key)
                    &&& after.phase is Running
                },
                _ => step is Ignore && after == before,
            }
        }),
{
}

} // verus!
