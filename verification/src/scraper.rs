//! The decisions of the scraper: which route is checked when, with which credentials, and what
//! is recorded of it.
use crate::auth::{
    apply_auth, take_in_token, AuthClients, AuthStep, AuthStepView, Credentials, CredentialsView,
};
use crate::config::{AppConfig, Auth, AuthConfig, RouteConfig};
use crate::keycloak_client::{
    CachedToken, KeycloakView, TokenFetch, TokenFetchView, TokenResponse,
};
use crate::time::Clock;
use vstd::prelude::*;

verus! {

/// What the scraper is at.
#[derive(Debug, Clone, Copy, PartialEq, Eq, Structural)]
pub enum ScrapePhase {
    /// It waits for the next round.
    Waiting,
    /// The check of this route comes next in the round; past the last route, the round ends.
    Ready(usize),
    /// A token for this route is being fetched.
    Fetching(usize),
    /// A request to this route is under way.
    Requesting(usize),
    /// It has stopped.
    Stopped,
}

/// What has happened.
#[derive(Debug)]
pub enum ScrapeEvent {
    /// The time of the next round has come.
    Tick,
    /// The scraper is to stop.
    Cancelled,
    /// The next route is to be checked.
    Proceed,
    /// The server answered a request for a token.
    TokenReceived(TokenResponse),
    /// A request for a token failed.
    TokenFailed,
    /// The route answered, with whatever status.
    Answered,
    /// The request to the route failed.
    RequestFailed,
}

/// What is to be done next.
#[derive(Debug)]
pub enum ScrapeAction {
    /// Wait for the next round, or to be cancelled.
    Wait,
    /// Proceed to the next route.
    Proceed,
    /// Make this request for a token.
    FetchToken(TokenFetch),
    /// Get `url` with these credentials.
    Send { url: String, credentials: Credentials },
    /// Stop.
    Stop,
    /// Give up: the time at which a token expires cannot be represented.
    Abort,
    /// Nothing: the event is not one that was waited for.
    Ignore,
}

/// The text of a [`ScrapeAction`].
pub enum ScrapeActionView {
    Wait,
    Proceed,
    FetchToken(TokenFetchView),
    Send { url: Seq<char>, credentials: CredentialsView },
    Stop,
    Abort,
    Ignore,
}

impl View for ScrapeAction {
    type V = ScrapeActionView;

    open spec fn view(&self) -> ScrapeActionView {
        match self {
            ScrapeAction::Wait => ScrapeActionView::Wait,
            ScrapeAction::Proceed => ScrapeActionView::Proceed,
            ScrapeAction::FetchToken(fetch) => ScrapeActionView::FetchToken(fetch@),
            ScrapeAction::Send { url, credentials } => ScrapeActionView::Send {
                url: url@,
                credentials: credentials@,
            },
            ScrapeAction::Stop => ScrapeActionView::Stop,
            ScrapeAction::Abort => ScrapeActionView::Abort,
            ScrapeAction::Ignore => ScrapeActionView::Ignore,
        }
    }
}

/// How an attempt to get a token ended.
#[derive(Debug, Clone, Copy, PartialEq, Eq, Structural)]
pub enum AuthStatus {
    Success,
    Failure,
}

impl AuthStatus {
    /// The status as the label of a metric.
    pub open spec fn label_spec(self) -> Seq<char> {
        match self {
            AuthStatus::Success => "success"@,
            AuthStatus::Failure => "failure"@,
        }
    }

    /// The status as the label of a metric.
    pub fn label(&self) -> (label: &'static str)
        ensures
            label@ == self.label_spec(),
    {
        match self {
            AuthStatus::Success => "success",
            AuthStatus::Failure => "failure",
        }
    }
}

/// An attempt to get a token, to be counted.
#[derive(Debug)]
pub struct AuthAttempt {
    pub auth_name: String,
    pub status: AuthStatus,
}

/// The text of an [`AuthAttempt`].
pub struct AuthAttemptView {
    pub auth_name: Seq<char>,
    pub status: AuthStatus,
}

impl View for AuthAttempt {
    type V = AuthAttemptView;

    open spec fn view(&self) -> AuthAttemptView {
        AuthAttemptView { auth_name: self.auth_name@, status: self.status }
    }
}

/// What comes of an event.
#[derive(Debug)]
pub struct ScrapeStep {
    /// The attempt that is to be counted.
    pub attempt: Option<AuthAttempt>,
    /// The name of the route of which the time since its request was sent is to be recorded.
    pub observe: Option<String>,
    /// What is to be done next.
    pub action: ScrapeAction,
}

/// The text of a [`ScrapeStep`].
pub struct ScrapeStepView {
    pub attempt: Option<AuthAttemptView>,
    pub observe: Option<Seq<char>>,
    pub action: ScrapeActionView,
}

impl View for ScrapeStep {
    type V = ScrapeStepView;

    open spec fn view(&self) -> ScrapeStepView {
        ScrapeStepView {
            attempt: match self.attempt {
                Some(attempt) => Some(attempt@),
                None => None,
            },
            observe: match self.observe {
                Some(name) => Some(name@),
                None => None,
            },
            action: self.action@,
        }
    }
}

/// The first of `auths` with the name `name`.
pub open spec fn find_auth_spec(auths: Seq<Auth>, name: Seq<char>) -> Option<Auth>
    decreases auths.len(),
{
    if auths.len() == 0 {
        None
    } else if auths[0].name@ == name {
        Some(auths[0])
    } else {
        find_auth_spec(auths.drop_first(), name)
    }
}

/// The first of `auths` with the name `name`.
pub fn find_auth<'a>(auths: &'a Vec<Auth>, name: &String) -> (found: Option<&'a Auth>)
    ensures
        match found {
            Some(auth) => find_auth_spec(auths@, name@) == Some(*auth),
            None => find_auth_spec(auths@, name@) is None,
        },
{
    let mut i: usize = 0;
    assert(auths@.skip(0) =~= auths@);
    while i < auths.len()
        invariant
            i <= auths@.len(),
            find_auth_spec(auths@, name@) == find_auth_spec(auths@.skip(i as int), name@),
        decreases auths@.len() - i,
    {
        assert(auths@.skip(i as int).drop_first() =~= auths@.skip(i as int + 1));
        if auths[i].name == *name {
            return Some(&auths[i]);
        }
        i += 1;
    }
    None
}

/// How requests to `route` are authenticated: not at all where it names no auth, or one that is
/// not among `auths`.
pub open spec fn route_auth(route: RouteConfig, auths: Seq<Auth>) -> Option<Auth> {
    match route.auth {
        Some(name) => find_auth_spec(auths, name@),
        None => None,
    }
}

/// The attempt with `status` that the check of `route` makes.
pub open spec fn attempt_of(route: RouteConfig, status: AuthStatus) -> AuthAttemptView {
    AuthAttemptView { auth_name: route.auth->0@, status }
}

/// What the check of `route` starts with.
pub open spec fn check_route_spec(
    route: RouteConfig,
    auths: Seq<Auth>,
    clients: Map<Seq<char>, KeycloakView>,
    clock: Clock,
) -> ScrapeStepView {
    match route_auth(route, auths) {
        None => ScrapeStepView {
            attempt: None,
            observe: None,
            action: ScrapeActionView::Send {
                url: route.url@,
                credentials: CredentialsView::Anonymous,
            },
        },
        Some(auth) => match crate::auth::auth_step(auth.config, clients, clock) {
            AuthStepView::Ready(credentials) => ScrapeStepView {
                attempt: if auth.config is OAuth {
                    Some(attempt_of(route, AuthStatus::Success))
                } else {
                    None
                },
                observe: None,
                action: ScrapeActionView::Send { url: route.url@, credentials },
            },
            AuthStepView::Fetch(fetch) => ScrapeStepView {
                attempt: None,
                observe: None,
                action: ScrapeActionView::FetchToken(fetch),
            },
        },
    }
}

/// The clients once the check of `route` has started.
pub open spec fn check_route_clients(
    route: RouteConfig,
    auths: Seq<Auth>,
    clients: Map<Seq<char>, KeycloakView>,
    clock: Clock,
) -> Map<Seq<char>, KeycloakView> {
    match route_auth(route, auths) {
        None => clients,
        Some(auth) => crate::auth::auth_clients_after(auth.config, clients, clock),
    }
}

/// Starts the check of `route` at the times of `clock`: the request is sent, unless a token has
/// to be fetched first. A token out of the cache counts as a successful attempt.
pub fn check_route(
    route: &RouteConfig,
    auths: &Vec<Auth>,
    clients: &mut AuthClients,
    clock: &Clock,
) -> (step: ScrapeStep)
    ensures
        step@ == check_route_spec(*route, auths@, old(clients)@, *clock),
        final(clients)@ == check_route_clients(*route, auths@, old(clients)@, *clock),
{
    if let Some(auth_name) = &route.auth {
        if let Some(auth) = find_auth(auths, auth_name) {
            return match apply_auth(auth, clients, clock) {
                AuthStep::Ready(credentials) => {
                    let attempt = match &auth.config {
                        AuthConfig::OAuth { .. } => Some(
                            AuthAttempt {
                                auth_name: auth_name.clone(),
                                status: AuthStatus::Success,
                            },
                        ),
                        _ => None,
                    };
                    let action = ScrapeAction::Send { url: route.url.clone(), credentials };
                    ScrapeStep { attempt, observe: None, action }
                },
                AuthStep::Fetch(fetch) => ScrapeStep {
                    attempt: None,
                    observe: None,
                    action: ScrapeAction::FetchToken(fetch),
                },
            };
        }
    }
    let action = ScrapeAction::Send {
        url: route.url.clone(),
        credentials: Credentials::Anonymous,
    };
    ScrapeStep { attempt: None, observe: None, action }
}

/// Checks the routes of a configuration, round after round.
#[derive(Debug)]
pub struct Scraper {
    config: AppConfig,
    clients: AuthClients,
    phase: ScrapePhase,
}

/// What a [`Scraper`] stands for.
pub struct ScraperView {
    pub config: AppConfig,
    pub clients: Map<Seq<char>, KeycloakView>,
    pub phase: ScrapePhase,
}

impl View for Scraper {
    type V = ScraperView;

    closed spec fn view(&self) -> ScraperView {
        ScraperView { config: self.config, clients: self.clients@, phase: self.phase }
    }
}

impl ScraperView {
    /// A scraper that waits for its first round and has no clients yet.
    pub open spec fn initial(config: AppConfig) -> ScraperView {
        ScraperView { config, clients: Map::empty(), phase: ScrapePhase::Waiting }
    }

    /// The number of routes.
    pub open spec fn n_routes(self) -> int {
        self.config.routes@.len() as int
    }

    /// A route of the configuration.
    pub open spec fn route(self, i: int) -> RouteConfig {
        self.config.routes@[i]
    }

    /// How requests to a route are authenticated.
    pub open spec fn auth(self, i: int) -> Option<Auth> {
        route_auth(self.route(i), self.config.auths@)
    }

    /// The route that the scraper is at is there, and a token is fetched for OAuth accounts
    /// only.
    pub open spec fn wf(self) -> bool {
        match self.phase {
            ScrapePhase::Waiting | ScrapePhase::Stopped => true,
            ScrapePhase::Ready(i) => i <= self.n_routes(),
            ScrapePhase::Fetching(i) => i < self.n_routes() && (self.auth(i as int) matches Some(
                auth,
            ) && auth.config is OAuth),
            ScrapePhase::Requesting(i) => i < self.n_routes(),
        }
    }

    /// The event is one that is waited for.
    pub open spec fn expects(self, event: ScrapeEvent) -> bool {
        match event {
            ScrapeEvent::Tick | ScrapeEvent::Cancelled => self.phase is Waiting,
            ScrapeEvent::Proceed => self.phase is Ready,
            ScrapeEvent::TokenReceived(_) | ScrapeEvent::TokenFailed => self.phase is Fetching,
            ScrapeEvent::Answered | ScrapeEvent::RequestFailed => self.phase is Requesting,
        }
    }

    /// What comes of `event` at the times of `clock`.
    pub open spec fn step(self, event: ScrapeEvent, clock: Clock) -> ScrapeStepView {
        if !self.expects(event) {
            ScrapeStepView { attempt: None, observe: None, action: ScrapeActionView::Ignore }
        } else {
            match (self.phase, event) {
                (_, ScrapeEvent::Cancelled) => ScrapeStepView {
                    attempt: None,
                    observe: None,
                    action: ScrapeActionView::Stop,
                },
                (ScrapePhase::Ready(i), _) => if i < self.n_routes() {
                    check_route_spec(
                        self.route(i as int),
                        self.config.auths@,
                        self.clients,
                        clock,
                    )
                } else {
                    ScrapeStepView { attempt: None, observe: None, action: ScrapeActionView::Wait }
                },
                (ScrapePhase::Fetching(i), ScrapeEvent::TokenReceived(response)) => {
                    if crate::auth::token_expires(response, clock) {
                        ScrapeStepView {
                            attempt: Some(attempt_of(self.route(i as int), AuthStatus::Success)),
                            observe: None,
                            action: ScrapeActionView::Send {
                                url: self.route(i as int).url@,
                                credentials: CredentialsView::Bearer(response.access_token@),
                            },
                        }
                    } else {
                        ScrapeStepView {
                            attempt: None,
                            observe: None,
                            action: ScrapeActionView::Abort,
                        }
                    }
                },
                (ScrapePhase::Fetching(i), _) => ScrapeStepView {
                    attempt: Some(attempt_of(self.route(i as int), AuthStatus::Failure)),
                    observe: None,
                    action: ScrapeActionView::Proceed,
                },
                (ScrapePhase::Requesting(i), ScrapeEvent::Answered) => ScrapeStepView {
                    attempt: None,
                    observe: Some(self.route(i as int).name@),
                    action: ScrapeActionView::Proceed,
                },
                _ => ScrapeStepView {
                    attempt: None,
                    observe: None,
                    action: ScrapeActionView::Proceed,
                },
            }
        }
    }

    /// The clients after `event`.
    pub open spec fn clients_after(self, event: ScrapeEvent, clock: Clock) -> Map<
        Seq<char>,
        KeycloakView,
    > {
        match (self.phase, event) {
            (ScrapePhase::Ready(i), ScrapeEvent::Proceed) => if i < self.n_routes() {
                check_route_clients(
                    self.route(i as int),
                    self.config.auths@,
                    self.clients,
                    clock,
                )
            } else {
                self.clients
            },
            (ScrapePhase::Fetching(i), ScrapeEvent::TokenReceived(response)) =>
                crate::auth::clients_with_token(
                self.auth(i as int)->0.config,
                self.clients,
                response,
                clock,
            ),
            _ => self.clients,
        }
    }

    /// What the scraper is at after `event`.
    pub open spec fn phase_after(self, event: ScrapeEvent, clock: Clock) -> ScrapePhase {
        match (self.phase, self.step(event, clock).action) {
            (_, ScrapeActionView::Ignore) => self.phase,
            (_, ScrapeActionView::Wait) => ScrapePhase::Waiting,
            (_, ScrapeActionView::Stop) => ScrapePhase::Stopped,
            (_, ScrapeActionView::Abort) => ScrapePhase::Stopped,
            (ScrapePhase::Waiting, _) => ScrapePhase::Ready(0),
            (ScrapePhase::Ready(i), ScrapeActionView::FetchToken(_)) => ScrapePhase::Fetching(i),
            (ScrapePhase::Ready(i), _) => ScrapePhase::Requesting(i),
            (ScrapePhase::Fetching(i), ScrapeActionView::Send { .. }) => ScrapePhase::Requesting(
                i,
            ),
            (ScrapePhase::Fetching(i), _) => ScrapePhase::Ready((i + 1) as usize),
            (ScrapePhase::Requesting(i), _) => ScrapePhase::Ready((i + 1) as usize),
            (ScrapePhase::Stopped, _) => ScrapePhase::Stopped,
        }
    }

    /// The scraper after `event`.
    pub open spec fn next(self, event: ScrapeEvent, clock: Clock) -> ScraperView {
        ScraperView {
            config: self.config,
            clients: self.clients_after(event, clock),
            phase: self.phase_after(event, clock),
        }
    }
}

impl Scraper {
    /// A scraper that waits for its first round and has no clients yet.
    pub fn new(config: AppConfig) -> (scraper: Scraper)
        ensures
            scraper@ == ScraperView::initial(config),
            scraper@.wf(),
    {
        Scraper { config, clients: AuthClients::new(), phase: ScrapePhase::Waiting }
    }

    /// The configuration.
    pub fn config(&self) -> (config: &AppConfig)
        ensures
            *config == self@.config,
    {
        &self.config
    }

    /// What the scraper is at.
    pub fn phase(&self) -> (phase: ScrapePhase)
        ensures
            phase == self@.phase,
    {
        self.phase
    }

    /// Starts the check of route `i`, or ends the round past the last route.
    fn proceed(&mut self, i: usize, clock: &Clock) -> (step: ScrapeStep)
        requires
            old(self)@.phase == ScrapePhase::Ready(i),
            old(self)@.wf(),
        ensures
            final(self)@ == old(self)@.next(ScrapeEvent::Proceed, *clock),
            final(self)@.wf(),
            step@ == old(self)@.step(ScrapeEvent::Proceed, *clock),
    {
        if i >= self.config.routes.len() {
            self.phase = ScrapePhase::Waiting;
            return ScrapeStep { attempt: None, observe: None, action: ScrapeAction::Wait };
        }
        let step = check_route(
            &self.config.routes[i],
            &self.config.auths,
            &mut self.clients,
            clock,
        );
        self.phase = match &step.action {
            ScrapeAction::FetchToken(_) => ScrapePhase::Fetching(i),
            _ => ScrapePhase::Requesting(i),
        };
        step
    }

    /// Takes in the answer to the request for a token for route `i`.
    fn token_received(&mut self, i: usize, response: &TokenResponse, clock: &Clock) -> (step:
        ScrapeStep)
        requires
            old(self)@.phase == ScrapePhase::Fetching(i),
            old(self)@.wf(),
            clock.wf(),
        ensures
            final(self)@ == old(self)@.next(ScrapeEvent::TokenReceived(*response), *clock),
            final(self)@.wf(),
            step@ == old(self)@.step(ScrapeEvent::TokenReceived(*response), *clock),
    {
        let route = &self.config.routes[i];
        if let Some(auth_name) = &route.auth {
            if let Some(auth) = find_auth(&self.config.auths, auth_name) {
                if let Some(credentials) = take_in_token(auth, &mut self.clients, response, clock) {
                    self.phase = ScrapePhase::Requesting(i);
                    let attempt = AuthAttempt {
                        auth_name: auth_name.clone(),
                        status: AuthStatus::Success,
                    };
                    let action = ScrapeAction::Send { url: route.url.clone(), credentials };
                    return ScrapeStep { attempt: Some(attempt), observe: None, action };
                }
            }
        }
        self.phase = ScrapePhase::Stopped;
        ScrapeStep { attempt: None, observe: None, action: ScrapeAction::Abort }
    }

    /// Counts the failure to get a token for route `i`, which is passed over.
    fn token_failed(&mut self, i: usize) -> (step: ScrapeStep)
        requires
            old(self)@.phase == ScrapePhase::Fetching(i),
            old(self)@.wf(),
        ensures
            forall|clock: Clock| final(self)@ == old(self)@.next(ScrapeEvent::TokenFailed, clock),
            final(self)@.wf(),
            forall|clock: Clock| step@ == old(self)@.step(ScrapeEvent::TokenFailed, clock),
    {
        assert(i < self.config.routes.len());
        self.phase = ScrapePhase::Ready(i + 1);
        let attempt = match &self.config.routes[i].auth {
            Some(auth_name) => Some(
                AuthAttempt { auth_name: auth_name.clone(), status: AuthStatus::Failure },
            ),
            None => None,
        };
        ScrapeStep { attempt, observe: None, action: ScrapeAction::Proceed }
    }

    /// Takes in `event` at the times of `clock`, and says what comes of it.
    pub fn step(&mut self, event: &ScrapeEvent, clock: &Clock) -> (step: ScrapeStep)
        requires
            old(self)@.wf(),
            clock.wf(),
        ensures
            final(self)@ == old(self)@.next(*event, *clock),
            final(self)@.wf(),
            step@ == old(self)@.step(*event, *clock),
    {
        match (self.phase, event) {
            (ScrapePhase::Waiting, ScrapeEvent::Tick) => {
                self.phase = ScrapePhase::Ready(0);
                ScrapeStep { attempt: None, observe: None, action: ScrapeAction::Proceed }
            },
            (ScrapePhase::Waiting, ScrapeEvent::Cancelled) => {
                self.phase = ScrapePhase::Stopped;
                ScrapeStep { attempt: None, observe: None, action: ScrapeAction::Stop }
            },
            (ScrapePhase::Ready(i), ScrapeEvent::Proceed) => self.proceed(i, clock),
            (ScrapePhase::Fetching(i), ScrapeEvent::TokenReceived(response)) =>
                self.token_received(i, response, clock),
            (ScrapePhase::Fetching(i), ScrapeEvent::TokenFailed) => self.token_failed(i),
            (ScrapePhase::Requesting(i), ScrapeEvent::Answered) => {
                assert(i < self.config.routes.len());
                self.phase = ScrapePhase::Ready(i + 1);
                let name = self.config.routes[i].name.clone();
                ScrapeStep { attempt: None, observe: Some(name), action: ScrapeAction::Proceed }
            },
            (ScrapePhase::Requesting(i), ScrapeEvent::RequestFailed) => {
                assert(i < self.config.routes.len());
                self.phase = ScrapePhase::Ready(i + 1);
                ScrapeStep { attempt: None, observe: None, action: ScrapeAction::Proceed }
            },
            _ => ScrapeStep { attempt: None, observe: None, action: ScrapeAction::Ignore },
        }
    }

    /// Takes in `event` now, and says what comes of it.
    pub fn advance(&mut self, event: &ScrapeEvent) -> (step: ScrapeStep)
        requires
            old(self)@.wf(),
        ensures
            exists|clock: Clock| #[trigger]
                clock.is_reading() && final(self)@ == old(self)@.next(*event, clock) && step@
                    == old(self)@.step(*event, clock),
            final(self)@.wf(),
    {
        let clock = Clock::read();
        self.step(event, &clock)
    }
}

impl ScraperView {
    /// The scraper after all of `inputs`, the first one first: each an event, and the times at
    /// which it was taken in.
    pub open spec fn after(self, inputs: Seq<(ScrapeEvent, Clock)>) -> ScraperView
        decreases inputs.len(),
    {
        if inputs.len() == 0 {
            self
        } else {
            self.after(inputs.drop_last()).next(inputs.last().0, inputs.last().1)
        }
    }

    /// The routes whose checks are started by `inputs`, in the order in which they are.
    pub open spec fn checked(self, inputs: Seq<(ScrapeEvent, Clock)>) -> Seq<int>
        decreases inputs.len(),
    {
        if inputs.len() == 0 {
            Seq::empty()
        } else {
            let so_far = self.checked(inputs.drop_last());
            let before = self.after(inputs.drop_last());
            match (before.phase, inputs.last().0) {
                (ScrapePhase::Ready(i), ScrapeEvent::Proceed) => if i < before.n_routes() {
                    so_far.push(i as int)
                } else {
                    so_far
                },
                _ => so_far,
            }
        }
    }

    /// How many rounds are begun on `inputs`.
    pub open spec fn rounds(self, inputs: Seq<(ScrapeEvent, Clock)>) -> nat
        decreases inputs.len(),
    {
        if inputs.len() == 0 {
            0
        } else {
            let so_far = self.rounds(inputs.drop_last());
            let before = self.after(inputs.drop_last());
            if before.phase is Waiting && inputs.last().0 is Tick {
                so_far + 1
            } else {
                so_far
            }
        }
    }

    /// The scraper stops on `inputs` because it is cancelled.
    pub open spec fn cancelled(self, inputs: Seq<(ScrapeEvent, Clock)>) -> bool
        decreases inputs.len(),
    {
        inputs.len() > 0 && (self.cancelled(inputs.drop_last()) || self.after(
            inputs.drop_last(),
        ).step(inputs.last().0, inputs.last().1).action is Stop)
    }

    /// How far the scraper has come in a round.
    pub open spec fn progress(self) -> int {
        match self.phase {
            ScrapePhase::Ready(i) => 3 * i,
            ScrapePhase::Fetching(i) => 3 * i + 1,
            ScrapePhase::Requesting(i) => 3 * i + 2,
            ScrapePhase::Waiting | ScrapePhase::Stopped => 3 * self.n_routes() + 1,
        }
    }

    /// A token is being fetched for the OAuth account that is found under `account`.
    pub open spec fn fetches_for(self, account: (Seq<char>, Seq<char>)) -> bool {
        self.phase matches ScrapePhase::Fetching(i) && (self.auth(i as int) matches Some(auth)
            && crate::auth::account_of(auth.config) == Some(account))
    }

    /// The token `cached` is held for the OAuth account that is found under `account`.
    pub open spec fn holds(self, account: (Seq<char>, Seq<char>), cached: CachedToken) -> bool {
        &&& self.clients.contains_key(account.0)
        &&& self.clients[account.0].tokens.contains_key(account.1)
        &&& self.clients[account.0].tokens[account.1] == cached
    }
}

/// The token `cached` is valid at the times of `clock`: it has not expired, and stays valid for
/// at least a second.
pub open spec fn valid_at(cached: CachedToken, clock: Clock) -> bool {
    &&& cached.valid_until.is_after_spec(clock.cleanup)
    &&& cached.valid_until.at_least_a_second_after(clock.now)
}

/// The scraper stays well formed, and keeps its configuration.
pub proof fn law_scraper_stays_well_formed(
    config: AppConfig,
    scraper: ScraperView,
    event: ScrapeEvent,
    clock: Clock,
)
    ensures
        ScraperView::initial(config).wf(),
        scraper.wf() ==> scraper.next(event, clock).wf(),
        scraper.next(event, clock).config == scraper.config,
{
    assert(scraper.config.routes.len() == scraper.config.routes@.len());
}

/// A round checks every route once, in the order of the configuration, whatever comes of the
/// checks: those that were started are the first so many, and when the scraper waits for the
/// next round, all of them.
pub proof fn law_round_checks_each_route_once(
    scraper: ScraperView,
    inputs: Seq<(ScrapeEvent, Clock)>,
)
    requires
        scraper.wf(),
        scraper.phase == ScrapePhase::Ready(0),
        forall|k: int| 0 <= k < inputs.len() ==> (#[trigger] inputs[k]).0 !is Tick,
    ensures
        ({
            let checked = scraper.checked(inputs);
            let after = scraper.after(inputs);
            &&& after.wf()
            &&& after.config == scraper.config
            &&& checked.len() <= scraper.n_routes()
            &&& checked == Seq::new(checked.len(), |k: int| k)
            &&& match after.phase {
                ScrapePhase::Waiting => checked.len() == scraper.n_routes(),
                ScrapePhase::Ready(i) => checked.len() == i,
                ScrapePhase::Fetching(i) | ScrapePhase::Requesting(i) => checked.len() == i + 1,
                ScrapePhase::Stopped => true,
            }
        }),
    decreases inputs.len(),
{
    if inputs.len() > 0 {
        let earlier = inputs.drop_last();
        assert forall|k: int| 0 <= k < earlier.len() implies (#[trigger] earlier[k]).0 !is Tick by {
            assert(earlier[k] == inputs[k]);
        }
        law_round_checks_each_route_once(scraper, earlier);
        let before = scraper.after(earlier);
        let (event, clock) = inputs.last();
        assert(event !is Tick) by {
            assert(inputs[inputs.len() - 1].0 == event);
        }
        law_scraper_stays_well_formed(scraper.config, before, event, clock);
        assert(before.config.routes.len() == before.config.routes@.len());
    }
}

/// Over any run, the routes that are checked are those of the configuration, in its order, again
/// and again: each round adds one check of every route, and a scraper that waits for the next
/// round, or was cancelled, has checked them all in every round that it began.
pub proof fn law_rounds_repeat_the_routes(config: AppConfig, inputs: Seq<(ScrapeEvent, Clock)>)
    ensures
        ({
            let start = ScraperView::initial(config);
            let n = start.n_routes();
            let checked = start.checked(inputs);
            let rounds = start.rounds(inputs);
            let after = start.after(inputs);
            &&& after.wf()
            &&& after.config == config
            &&& checked == Seq::new(checked.len(), |k: int| k % n)
            &&& checked.len() <= rounds * n
            &&& start.cancelled(inputs) ==> after.phase is Stopped && checked.len() == rounds * n
            &&& match after.phase {
                ScrapePhase::Waiting => checked.len() == rounds * n,
                ScrapePhase::Ready(i) => checked.len() == (rounds - 1) * n + i,
                ScrapePhase::Fetching(i) | ScrapePhase::Requesting(i) => checked.len() == (rounds
                    - 1) * n + i + 1,
                ScrapePhase::Stopped => true,
            }
        }),
    decreases inputs.len(),
{
    let start = ScraperView::initial(config);
    let n = start.n_routes();
    if inputs.len() == 0 {
        assert(start.checked(inputs) =~= Seq::new(0, |k: int| k % n));
    } else {
        let earlier = inputs.drop_last();
        law_rounds_repeat_the_routes(config, earlier);
        let before = start.after(earlier);
        let so_far = start.checked(earlier);
        let begun = start.rounds(earlier);
        let (event, clock) = inputs.last();
        law_scraper_stays_well_formed(config, before, event, clock);
        assert(before.config.routes.len() == before.config.routes@.len());
        assert(begun * n + n == (begun + 1) * n) by (nonlinear_arith);
        assert((begun - 1) * n + n == begun * n) by (nonlinear_arith);
        if let ScrapePhase::Ready(i) = before.phase {
            if event is Proceed && i < n {
                vstd::arithmetic::div_mod::lemma_fundamental_div_mod_converse(
                    so_far.len() as int,
                    n,
                    begun - 1,
                    i as int,
                );
            }
        }
        assert(start.checked(inputs) =~= Seq::new(start.checked(inputs).len(), |k: int| k % n));
    }
}

/// Every event that is waited for brings a round closer to its end, so that a round ends after
/// finitely many.
pub proof fn law_round_makes_progress(scraper: ScraperView, event: ScrapeEvent, clock: Clock)
    requires
        scraper.wf(),
        scraper.expects(event),
        event !is Tick && event !is Cancelled,
    ensures
        scraper.progress() < scraper.next(event, clock).progress() <= 3 * scraper.n_routes() + 1,
{
    assert(scraper.config.routes.len() == scraper.config.routes@.len());
}

/// The latency of a route is recorded exactly when it answers the request that was sent to it.
pub proof fn law_latency_is_recorded_on_answers(
    scraper: ScraperView,
    event: ScrapeEvent,
    clock: Clock,
)
    ensures
        scraper.step(event, clock).observe == (match (scraper.phase, event) {
            (ScrapePhase::Requesting(i), ScrapeEvent::Answered) => Some(
                scraper.route(i as int).name@,
            ),
            _ => None,
        }),
{
}

/// A successful attempt is counted exactly when a request goes out with the token of an OAuth
/// account, and a failed one exactly when such a token could not be fetched; it carries the name
/// by which the route refers to the account.
pub proof fn law_attempts_are_counted(
    scraper: ScraperView,
    i: usize,
    event: ScrapeEvent,
    clock: Clock,
)
    requires
        scraper.wf(),
        scraper.phase == ScrapePhase::Ready(i) || scraper.phase == ScrapePhase::Fetching(i),
        i < scraper.n_routes(),
    ensures
        ({
            let step = scraper.step(event, clock);
            let oauth = scraper.auth(i as int) matches Some(auth) && auth.config is OAuth;
            &&& step.attempt == Some(attempt_of(scraper.route(i as int), AuthStatus::Success))
                <==> step.action is Send && oauth
            &&& step.attempt == Some(attempt_of(scraper.route(i as int), AuthStatus::Failure))
                <==> scraper.phase is Fetching && event is TokenFailed
            &&& step.attempt is None <==> !(step.action is Send && oauth)
                && !(scraper.phase is Fetching && event is TokenFailed)
        }),
{
}

/// Where a token could not be fetched, no request is sent to the route, nothing is recorded of
/// it, no client changes, and the next route has its turn.
pub proof fn law_route_without_token_is_passed_over(scraper: ScraperView, i: usize, clock: Clock)
    requires
        scraper.wf(),
        scraper.phase == ScrapePhase::Fetching(i),
    ensures
        scraper.step(ScrapeEvent::TokenFailed, clock).action == ScrapeActionView::Proceed,
        scraper.step(ScrapeEvent::TokenFailed, clock).observe is None,
        scraper.next(ScrapeEvent::TokenFailed, clock).clients == scraper.clients,
        scraper.next(ScrapeEvent::TokenFailed, clock).phase == ScrapePhase::Ready((i + 1) as usize),
{
}

/// A route that names no auth, or one that is not there, is requested without credentials.
pub proof fn law_route_without_auth_is_requested_anonymously(
    scraper: ScraperView,
    i: usize,
    clock: Clock,
)
    requires
        scraper.phase == ScrapePhase::Ready(i),
        i < scraper.n_routes(),
        scraper.auth(i as int) is None,
    ensures
        scraper.step(ScrapeEvent::Proceed, clock) == (ScrapeStepView {
            attempt: None,
            observe: None,
            action: ScrapeActionView::Send {
                url: scraper.route(i as int).url@,
                credentials: CredentialsView::Anonymous,
            },
        }),
        scraper.next(ScrapeEvent::Proceed, clock).clients == scraper.clients,
{
}

/// A token that the server answered with is held for the account for which it was fetched, and
/// no other is being fetched for it.
pub proof fn law_fetched_token_is_held(
    scraper: ScraperView,
    account: (Seq<char>, Seq<char>),
    response: TokenResponse,
    clock: Clock,
)
    requires
        scraper.wf(),
        scraper.fetches_for(account),
        crate::auth::token_expires(response, clock),
    ensures
        ({
            let after = scraper.next(ScrapeEvent::TokenReceived(response), clock);
            let valid_until = crate::keycloak_client::expiry_spec(
                response.expires_in,
                clock.now,
                clock.fallback,
            )->0;
            &&& after.holds(account, CachedToken { token: response.access_token, valid_until })
            &&& !after.fetches_for(account)
        }),
{
}

/// As long as the token that is held for an account is valid, it stays held and no other is
/// fetched, through any number of rounds and whatever becomes of other accounts.
pub proof fn law_valid_token_is_not_fetched_again(
    scraper: ScraperView,
    inputs: Seq<(ScrapeEvent, Clock)>,
    account: (Seq<char>, Seq<char>),
    cached: CachedToken,
)
    requires
        scraper.wf(),
        scraper.holds(account, cached),
        !scraper.fetches_for(account),
        forall|k: int| 0 <= k < inputs.len() ==> valid_at(cached, (#[trigger] inputs[k]).1),
    ensures
        scraper.after(inputs).wf(),
        scraper.after(inputs).holds(account, cached),
        !scraper.after(inputs).fetches_for(account),
    decreases inputs.len(),
{
    if inputs.len() > 0 {
        let earlier = inputs.drop_last();
        assert forall|k: int| 0 <= k < earlier.len() implies valid_at(
            cached,
            (#[trigger] earlier[k]).1,
        ) by {
            assert(earlier[k] == inputs[k]);
        }
        law_valid_token_is_not_fetched_again(scraper, earlier, account, cached);
        let before = scraper.after(earlier);
        let (event, clock) = inputs.last();
        assert(valid_at(cached, clock)) by {
            assert(inputs[inputs.len() - 1].1 == clock);
        }
        law_scraper_stays_well_formed(scraper.config, before, event, clock);
    }
}

/// A route with an OAuth account for which a valid token is held is requested with that token at
/// once.
pub proof fn law_valid_token_is_used(
    scraper: ScraperView,
    i: usize,
    clock: Clock,
    cached: CachedToken,
)
    requires
        scraper.phase == ScrapePhase::Ready(i),
        i < scraper.n_routes(),
        scraper.auth(i as int) matches Some(auth) && (crate::auth::account_of(
            auth.config,
        ) matches Some(account) && scraper.holds(account, cached)),
        valid_at(cached, clock),
    ensures
        scraper.step(ScrapeEvent::Proceed, clock).action == (ScrapeActionView::Send {
            url: scraper.route(i as int).url@,
            credentials: CredentialsView::Bearer(cached.token@),
        }),
{
}

/// A route with an OAuth account that has no client yet is not requested before a token has been
/// fetched. So it is with the first such route that a new scraper checks, whatever an earlier
/// scraper held.
pub proof fn law_account_without_client_fetches_a_token(
    scraper: ScraperView,
    i: usize,
    clock: Clock,
)
    requires
        scraper.phase == ScrapePhase::Ready(i),
        i < scraper.n_routes(),
        scraper.auth(i as int) matches Some(auth) && (crate::auth::account_of(
            auth.config,
        ) matches Some(account) && !scraper.clients.contains_key(account.0)),
    ensures
        scraper.step(ScrapeEvent::Proceed, clock).action is FetchToken,
        scraper.step(ScrapeEvent::Proceed, clock).attempt is None,
{
}

/// A round that has begun is brought to its end: being cancelled is taken in between rounds only.
pub proof fn law_rounds_are_not_cut_short(scraper: ScraperView, clock: Clock)
    ensures
        scraper.phase !is Waiting ==> scraper.next(ScrapeEvent::Cancelled, clock) == scraper,
        scraper.phase is Waiting ==> scraper.next(ScrapeEvent::Cancelled, clock).phase is Stopped,
{
}

/// Once the scraper has stopped, nothing more comes of any event.
pub proof fn law_stopped_scraper_stays_so(scraper: ScraperView, event: ScrapeEvent, clock: Clock)
    requires
        scraper.phase is Stopped,
    ensures
        scraper.next(event, clock) == scraper,
        scraper.step(event, clock) == (ScrapeStepView {
            attempt: None,
            observe: None,
            action: ScrapeActionView::Ignore,
        }),
{
}

/// The auth that is found for a name is the first one of which it is the whole name; none is found
/// exactly where it is the name of none.
pub proof fn law_first_auth_of_the_name_is_found(auths: Seq<Auth>, name: Seq<char>)
    ensures
        match find_auth_spec(auths, name) {
            Some(found) => exists|j: int|
                0 <= j < auths.len() && #[trigger] auths[j] == found && found.name@ == name && (
                forall|k: int| 0 <= k < j ==> (#[trigger] auths[k]).name@ != name),
            None => forall|k: int| 0 <= k < auths.len() ==> (#[trigger] auths[k]).name@ != name,
        },
    decreases auths.len(),
{
    if auths.len() > 0 && auths[0].name@ != name {
        let rest = auths.drop_first();
        law_first_auth_of_the_name_is_found(rest, name);
        assert forall|k: int| 0 < k < auths.len() implies #[trigger] auths[k] == rest[k - 1] by {}
        if let Some(found) = find_auth_spec(auths, name) {
            let j = choose|j: int|
                0 <= j < rest.len() && #[trigger] rest[j] == found && found.name@ == name && (
                forall|k: int| 0 <= k < j ==> (#[trigger] rest[k]).name@ != name);
            assert(auths[j + 1] == found);
        }
    }
}

/// The first auth of a name is the one that is found.
proof fn lemma_find_first(auths: Seq<Auth>, name: Seq<char>, j: int)
    requires
        0 <= j < auths.len(),
        auths[j].name@ == name,
        forall|k: int| 0 <= k < j ==> (#[trigger] auths[k]).name@ != name,
    ensures
        find_auth_spec(auths, name) == Some(auths[j]),
{
    law_first_auth_of_the_name_is_found(auths, name);
    if let Some(found) = find_auth_spec(auths, name) {
        let i = choose|i: int|
            0 <= i < auths.len() && #[trigger] auths[i] == found && found.name@ == name && (forall|
                k: int,
            |
                0 <= k < i ==> (#[trigger] auths[k]).name@ != name);
        assert(auths[j].name@ == name);
    }
}

/// The check of a route that names no auth, or one that is the name of none, is a request to its
/// URL without credentials; nothing is counted or recorded, and no client changes.
pub proof fn law_check_without_auth(
    route: RouteConfig,
    auths: Seq<Auth>,
    clients: Map<Seq<char>, KeycloakView>,
    clock: Clock,
)
    requires
        route.auth matches Some(name) ==> forall|k: int|
            0 <= k < auths.len() ==> (#[trigger] auths[k]).name@ != name@,
    ensures
        ({
            let step = check_route_spec(route, auths, clients, clock);
            &&& step.attempt is None
            &&& step.observe is None
            &&& step.action == (ScrapeActionView::Send {
                url: route.url@,
                credentials: CredentialsView::Anonymous,
            })
        }),
        check_route_clients(route, auths, clients, clock) == clients,
{
    if let Some(name) = route.auth {
        law_first_auth_of_the_name_is_found(auths, name@);
    }
}

/// The check of a route whose name for its auth is first that of a fixed token, or of a user name
/// and password, is a request to its URL with just these; nothing is counted or recorded, and no
/// client changes.
pub proof fn law_check_with_fixed_credentials(
    route: RouteConfig,
    auths: Seq<Auth>,
    j: int,
    clients: Map<Seq<char>, KeycloakView>,
    clock: Clock,
)
    requires
        0 <= j < auths.len(),
        route.auth matches Some(name) && auths[j].name@ == name@ && (forall|k: int|
            0 <= k < j ==> (#[trigger] auths[k]).name@ != name@),
        auths[j].config !is OAuth,
    ensures
        ({
            let step = check_route_spec(route, auths, clients, clock);
            &&& step.attempt is None
            &&& step.observe is None
            &&& step.action matches ScrapeActionView::Send { url, credentials } && url == route.url@
                && match auths[j].config {
                AuthConfig::Bearer { token } => credentials == CredentialsView::Bearer(token@),
                AuthConfig::Basic { user, pass } => credentials == (CredentialsView::Basic {
                    user: user@,
                    pass: pass@,
                }),
                _ => false,
            }
        }),
        check_route_clients(route, auths, clients, clock) == clients,
{
    lemma_find_first(auths, route.auth->0@, j);
}

/// The check of a route whose name for its auth is first that of an OAuth account is a request to
/// its URL with the token that is held for the account, and counts as a successful attempt of that
/// name, exactly where the token has not expired and lasts a second. Otherwise nothing is counted,
/// and a token is asked for with the credentials of the account.
pub proof fn law_check_with_account(
    route: RouteConfig,
    auths: Seq<Auth>,
    j: int,
    clients: Map<Seq<char>, KeycloakView>,
    clock: Clock,
)
    requires
        0 <= j < auths.len(),
        route.auth matches Some(name) && auths[j].name@ == name@ && (forall|k: int|
            0 <= k < j ==> (#[trigger] auths[k]).name@ != name@),
        auths[j].config is OAuth,
    ensures
        match auths[j].config {
            AuthConfig::OAuth { user, pass, url, client_id, realm } => {
                let account = realm@ + seq![':'] + client_id@ + seq![':'] + user@ + seq![':']
                    + pass@;
                let key = url@ + seq![':'] + realm@ + seq![':'] + client_id@ + seq![':'] + user@
                    + seq![':'] + pass@;
                let held = clients[key].tokens[account];
                let usable = clients.contains_key(key) && clients[key].tokens.contains_key(account)
                    && held.valid_until.is_after_spec(clock.cleanup)
                    && held.valid_until.at_least_a_second_after(clock.now);
                let server = if clients.contains_key(key) {
                    clients[key].url
                } else {
                    url@
                };
                let step = check_route_spec(route, auths, clients, clock);
                &&& step.observe is None
                &&& match step.action {
                    ScrapeActionView::Send { url: to, credentials } => {
                        &&& usable
                        &&& to == route.url@
                        &&& credentials == CredentialsView::Bearer(held.token@)
                        &&& step.attempt == Some(
                            AuthAttemptView {
                                auth_name: route.auth->0@,
                                status: AuthStatus::Success,
                            },
                        )
                    },
                    ScrapeActionView::FetchToken(fetch) => {
                        &&& !usable
                        &&& step.attempt is None
                        &&& fetch.key == account
                        &&& fetch.url == server + "/realms/"@ + realm@
                            + "/protocol/openid-connect/token"@
                        &&& fetch.form.len() == 4
                        &&& fetch.form[0] == ("grant_type"@, "password"@)
                        &&& fetch.form[1] == ("client_id"@, client_id@)
                        &&& fetch.form[2] == ("username"@, user@)
                        &&& fetch.form[3] == ("password"@, pass@)
                    },
                    _ => false,
                }
            },
            _ => false,
        },
        check_route_clients(route, auths, clients, clock) == crate::auth::auth_clients_after(
            auths[j].config,
            clients,
            clock,
        ),
{
    lemma_find_first(auths, route.auth->0@, j);
    crate::auth::law_account_uses_its_own_token(auths[j].config, clients, clock);
}

/// A new scraper has the given configuration and no clients, and waits. The next round begins with
/// the first route when its time has come; being cancelled while waiting stops the scraper. Neither
/// counts or records anything, nor changes a client.
pub proof fn law_waiting_scraper_begins_or_stops(
    config: AppConfig,
    scraper: ScraperView,
    clock: Clock,
    key: Seq<char>,
)
    requires
        scraper.phase is Waiting,
    ensures
        ScraperView::initial(config).config == config,
        ScraperView::initial(config).phase is Waiting,
        !ScraperView::initial(config).clients.contains_key(key),
        scraper.step(ScrapeEvent::Tick, clock).action is Proceed,
        scraper.step(ScrapeEvent::Tick, clock).attempt is None,
        scraper.step(ScrapeEvent::Tick, clock).observe is None,
        scraper.next(ScrapeEvent::Tick, clock).phase == ScrapePhase::Ready(0),
        scraper.next(ScrapeEvent::Tick, clock).clients == scraper.clients,
        scraper.step(ScrapeEvent::Cancelled, clock).action is Stop,
        scraper.step(ScrapeEvent::Cancelled, clock).attempt is None,
        scraper.step(ScrapeEvent::Cancelled, clock).observe is None,
        scraper.next(ScrapeEvent::Cancelled, clock).phase is Stopped,
        scraper.next(ScrapeEvent::Cancelled, clock).clients == scraper.clients,
{
}

/// A scraper that is ready for a route starts the check of that route of the configuration, with
/// its auths and with the clients at hand. Then a token is being fetched for that route, where one
/// is asked for, or the request to it is under way. Past the last route it waits, and nothing is
/// counted, recorded or changed.
pub proof fn law_ready_scraper_checks_its_route(scraper: ScraperView, i: usize, clock: Clock)
    requires
        scraper.phase == ScrapePhase::Ready(i),
    ensures
        ({
            let step = scraper.step(ScrapeEvent::Proceed, clock);
            let after = scraper.next(ScrapeEvent::Proceed, clock);
            if i < scraper.config.routes@.len() {
                let route = scraper.config.routes@[i as int];
                let auths = scraper.config.auths@;
                &&& step == check_route_spec(route, auths, scraper.clients, clock)
                &&& after.clients == check_route_clients(route, auths, scraper.clients, clock)
                &&& match step.action {
                    ScrapeActionView::FetchToken(_) => after.phase == ScrapePhase::Fetching(i),
                    ScrapeActionView::Send { .. } => after.phase == ScrapePhase::Requesting(i),
                    _ => false,
                }
            } else {
                &&& step.action is Wait
                &&& step.attempt is None
                &&& step.observe is None
                &&& after.phase is Waiting
                &&& after.clients == scraper.clients
            }
        }),
{
}

/// The token that was received for a route is held for the account of the first auth of the name
/// that the route gives, and the route is requested with just that token, which counts as a
/// successful attempt of that name. Where the token cannot be held, since the time at which it
/// expires lies past the last second of all dates, the scraper gives up, and nothing is counted.
pub proof fn law_received_token_goes_to_its_route(
    scraper: ScraperView,
    i: usize,
    j: int,
    response: TokenResponse,
    clock: Clock,
)
    requires
        scraper.phase == ScrapePhase::Fetching(i),
        i < scraper.config.routes@.len(),
        0 <= j < scraper.config.auths@.len(),
        scraper.config.routes@[i as int].auth matches Some(name) && scraper.config.auths@[j].name@
            == name@ && (forall|k: int|
            0 <= k < j ==> (#[trigger] scraper.config.auths@[k]).name@ != name@),
    ensures
        ({
            let event = ScrapeEvent::TokenReceived(response);
            let step = scraper.step(event, clock);
            let after = scraper.next(event, clock);
            let route = scraper.config.routes@[i as int];
            &&& step.observe is None
            &&& after.clients == crate::auth::clients_with_token(
                scraper.config.auths@[j].config,
                scraper.clients,
                response,
                clock,
            )
            &&& if clock.now.secs + response.expires_in <= crate::time::MAX_SECS
                || clock.fallback.secs + 3600 <= crate::time::MAX_SECS {
                &&& step.action == (ScrapeActionView::Send {
                    url: route.url@,
                    credentials: CredentialsView::Bearer(response.access_token@),
                })
                &&& step.attempt == Some(
                    AuthAttemptView { auth_name: route.auth->0@, status: AuthStatus::Success },
                )
                &&& after.phase == ScrapePhase::Requesting(i)
            } else {
                &&& step.action is Abort
                &&& step.attempt is None
                &&& after.phase is Stopped
            }
        }),
{
    lemma_find_first(
        scraper.config.auths@,
        scraper.config.routes@[i as int].auth->0@,
        j,
    );
}

/// Where no token was received for a route, a failed attempt is counted under the name that the
/// route gives; nothing is sent or recorded, no client changes, and the next route has its turn.
pub proof fn law_missing_token_counts_as_a_failure(scraper: ScraperView, i: usize, clock: Clock)
    requires
        scraper.phase == ScrapePhase::Fetching(i),
        i < scraper.config.routes@.len(),
    ensures
        ({
            let step = scraper.step(ScrapeEvent::TokenFailed, clock);
            let after = scraper.next(ScrapeEvent::TokenFailed, clock);
            &&& step.action is Proceed
            &&& step.observe is None
            &&& step.attempt == Some(
                AuthAttemptView {
                    auth_name: scraper.config.routes@[i as int].auth->0@,
                    status: AuthStatus::Failure,
                },
            )
            &&& after.phase matches ScrapePhase::Ready(next) && next == i + 1
            &&& after.clients == scraper.clients
        }),
{
    assert(scraper.config.routes.len() == scraper.config.routes@.len());
}

/// When a request has come to its end, with an answer or without, no attempt is counted, no client
/// changes, and the next route has its turn. The latency is recorded under the name of the route
/// where it answered, and not where the request failed.
pub proof fn law_end_of_a_request_counts_no_attempt(scraper: ScraperView, i: usize, clock: Clock)
    requires
        scraper.phase == ScrapePhase::Requesting(i),
        i < scraper.config.routes@.len(),
    ensures
        scraper.step(ScrapeEvent::Answered, clock).observe == Some(
            scraper.config.routes@[i as int].name@,
        ),
        scraper.step(ScrapeEvent::RequestFailed, clock).observe is None,
        forall|event: ScrapeEvent|
            event is Answered || event is RequestFailed ==> {
                let step = #[trigger] scraper.step(event, clock);
                let after = scraper.next(event, clock);
                &&& step.attempt is None
                &&& step.action is Proceed
                &&& after.clients == scraper.clients
                &&& after.phase matches ScrapePhase::Ready(next) && next == i + 1
            },
{
    assert(scraper.config.routes.len() == scraper.config.routes@.len());
}

/// Nothing comes of an event out of turn, and nothing changes: a round begins and a scraper is
/// cancelled while it waits only, a route is turned to when one is due, a token comes in while one
/// is fetched, and a request ends while one is under way.
pub proof fn law_events_out_of_turn_change_nothing(
    scraper: ScraperView,
    event: ScrapeEvent,
    clock: Clock,
)
    requires
        match event {
            ScrapeEvent::Tick | ScrapeEvent::Cancelled => scraper.phase !is Waiting,
            ScrapeEvent::Proceed => scraper.phase !is Ready,
            ScrapeEvent::TokenReceived(_) | ScrapeEvent::TokenFailed => scraper.phase !is Fetching,
            ScrapeEvent::Answered | ScrapeEvent::RequestFailed => scraper.phase !is Requesting,
        },
    ensures
        scraper.step(event, clock).attempt is None,
        scraper.step(event, clock).observe is None,
        scraper.step(event, clock).action is Ignore,
        scraper.next(event, clock) == scraper,
{
}

/// Every request that is sent goes to the URL of the route that is being checked, and one that
/// follows on a token that was received carries just that token. Requests are sent when a route
/// has its turn or a token was received for it, and at no other time.
pub proof fn law_requests_go_to_the_url_of_the_route(
    scraper: ScraperView,
    event: ScrapeEvent,
    clock: Clock,
)
    ensures
        scraper.step(event, clock).action matches ScrapeActionView::Send { url, credentials } ==> {
            match (scraper.phase, event) {
                (ScrapePhase::Ready(i), ScrapeEvent::Proceed) => i < scraper.config.routes@.len()
                    && url == scraper.config.routes@[i as int].url@,
                (ScrapePhase::Fetching(i), ScrapeEvent::TokenReceived(response)) => url
                    == scraper.config.routes@[i as int].url@ && credentials
                    == CredentialsView::Bearer(response.access_token@),
                _ => false,
            }
        },
{
}

/// Attempts are counted when a route has its turn or while a token is fetched for it, under the
/// name that this route gives its auth, and at no other time.
pub proof fn law_attempts_are_those_of_tokens(
    scraper: ScraperView,
    event: ScrapeEvent,
    clock: Clock,
)
    ensures
        scraper.step(event, clock).attempt matches Some(attempt) ==> match scraper.phase {
            ScrapePhase::Ready(i) => i < scraper.config.routes@.len() && (
            scraper.config.routes@[i as int].auth matches Some(name) && attempt.auth_name == name@)
                && attempt.status is Success && event is Proceed,
            ScrapePhase::Fetching(i) => attempt.auth_name
                == scraper.config.routes@[i as int].auth->0@ && (attempt.status is Success
                <==> event is TokenReceived) && (attempt.status is Failure
                <==> event is TokenFailed),
            _ => false,
        },
{
}

impl ScraperView {
    /// The scraper is at route `i`.
    pub open spec fn is_at(self, i: int) -> bool {
        match self.phase {
            ScrapePhase::Ready(k) | ScrapePhase::Fetching(k) | ScrapePhase::Requesting(k) => k == i,
            _ => false,
        }
    }

    /// How many checks of route `i` are started on `inputs`.
    pub open spec fn checks_of(self, inputs: Seq<(ScrapeEvent, Clock)>, i: int) -> nat
        decreases inputs.len(),
    {
        if inputs.len() == 0 {
            0
        } else {
            let before = self.after(inputs.drop_last());
            let started: nat = if before.phase is Ready && before.is_at(i) && i < before.n_routes()
                && inputs.last().0 is Proceed {
                1
            } else {
                0
            };
            self.checks_of(inputs.drop_last(), i) + started
        }
    }

    /// How many attempts are counted on `inputs` while the scraper is at route `i`.
    pub open spec fn attempts_at(self, inputs: Seq<(ScrapeEvent, Clock)>, i: int) -> nat
        decreases inputs.len(),
    {
        if inputs.len() == 0 {
            0
        } else {
            let before = self.after(inputs.drop_last());
            let counted: nat = if before.is_at(i) && before.step(
                inputs.last().0,
                inputs.last().1,
            ).attempt is Some {
                1
            } else {
                0
            };
            self.attempts_at(inputs.drop_last(), i) + counted
        }
    }

    /// How many attempts are counted on `inputs`.
    pub open spec fn attempts(self, inputs: Seq<(ScrapeEvent, Clock)>) -> nat
        decreases inputs.len(),
    {
        if inputs.len() == 0 {
            0
        } else {
            let before = self.after(inputs.drop_last());
            let counted: nat = if before.step(inputs.last().0, inputs.last().1).attempt is Some {
                1
            } else {
                0
            };
            self.attempts(inputs.drop_last()) + counted
        }
    }

    /// How many latencies are recorded on `inputs` while the scraper is at route `i`.
    pub open spec fn latencies_at(self, inputs: Seq<(ScrapeEvent, Clock)>, i: int) -> nat
        decreases inputs.len(),
    {
        if inputs.len() == 0 {
            0
        } else {
            let before = self.after(inputs.drop_last());
            let recorded: nat = if before.is_at(i) && before.step(
                inputs.last().0,
                inputs.last().1,
            ).observe is Some {
                1
            } else {
                0
            };
            self.latencies_at(inputs.drop_last(), i) + recorded
        }
    }
}

/// Over any run, a check of a route counts at most one attempt and records at most one latency;
/// and no more attempts are counted in all than checks are started.
pub proof fn law_check_counts_at_most_one_attempt(
    config: AppConfig,
    inputs: Seq<(ScrapeEvent, Clock)>,
    i: int,
)
    ensures
        ({
            let start = ScraperView::initial(config);
            let after = start.after(inputs);
            &&& after.wf()
            &&& start.attempts_at(inputs, i) <= start.checks_of(inputs, i)
            &&& start.latencies_at(inputs, i) <= start.checks_of(inputs, i)
            &&& start.attempts(inputs) <= start.checked(inputs).len()
            &&& after.phase is Fetching ==> start.attempts(inputs) < start.checked(inputs).len()
            &&& after.phase is Fetching && after.is_at(i) ==> start.attempts_at(inputs, i)
                < start.checks_of(inputs, i) && start.latencies_at(inputs, i) < start.checks_of(
                inputs,
                i,
            )
            &&& after.phase is Requesting && after.is_at(i) ==> start.latencies_at(inputs, i)
                < start.checks_of(inputs, i)
        }),
    decreases inputs.len(),
{
    if inputs.len() > 0 {
        law_check_counts_at_most_one_attempt(config, inputs.drop_last(), i);
        let before = ScraperView::initial(config).after(inputs.drop_last());
        law_scraper_stays_well_formed(config, before, inputs.last().0, inputs.last().1);
        assert(before.config.routes.len() == before.config.routes@.len());
    }
}

/// A scraper is well formed exactly where the route that it is at is one of the configuration, or
/// the end of the round is due, and where a token is fetched only for the first auth of the name
/// that the route gives, and for an OAuth account.
pub proof fn law_well_formed_scraper_is_at_a_route(scraper: ScraperView)
    ensures
        scraper.wf() <==> match scraper.phase {
            ScrapePhase::Waiting | ScrapePhase::Stopped => true,
            ScrapePhase::Ready(i) => i <= scraper.config.routes@.len(),
            ScrapePhase::Requesting(i) => i < scraper.config.routes@.len(),
            ScrapePhase::Fetching(i) => i < scraper.config.routes@.len() && (
            scraper.config.routes@[i as int].auth matches Some(name) && exists|j: int|
                0 <= j < scraper.config.auths@.len() && #[trigger] scraper.config.auths@[j].config
                    is OAuth && scraper.config.auths@[j].name@ == name@ && (forall|k: int|
                    0 <= k < j ==> (#[trigger] scraper.config.auths@[k]).name@ != name@)),
        },
{
    if let ScrapePhase::Fetching(i) = scraper.phase {
        let auths = scraper.config.auths@;
        if let Some(name) = scraper.config.routes@[i as int].auth {
            law_first_auth_of_the_name_is_found(auths, name@);
            if exists|j: int|
                0 <= j < auths.len() && #[trigger] auths[j].config is OAuth && auths[j].name@
                    == name@ && (forall|k: int|
                    0 <= k < j ==> (#[trigger] auths[k]).name@ != name@) {
                let j = choose|j: int|
                    0 <= j < auths.len() && #[trigger] auths[j].config is OAuth && auths[j].name@
                        == name@ && (forall|k: int|
                        0 <= k < j ==> (#[trigger] auths[k]).name@ != name@);
                lemma_find_first(auths, name@, j);
            }
        }
    }
}

/// What is said of the text of a step, its attempt or its action is said of all its parts.
pub proof fn law_texts_of_steps_are_whole(
    step: ScrapeStep,
    attempt: AuthAttempt,
    action: ScrapeAction,
)
    ensures
        step@.action == step.action@,
        match step.attempt {
            Some(counted) => step@.attempt == Some(counted@),
            None => step@.attempt is None,
        },
        match step.observe {
            Some(name) => step@.observe == Some(name@),
            None => step@.observe is None,
        },
        attempt@.auth_name == attempt.auth_name@,
        attempt@.status == attempt.status,
        match action {
            ScrapeAction::Wait => action@ is Wait,
            ScrapeAction::Proceed => action@ is Proceed,
            ScrapeAction::FetchToken(fetch) => action@ == ScrapeActionView::FetchToken(fetch@),
            ScrapeAction::Send { url, credentials } => action@ == (ScrapeActionView::Send {
                url: url@,
                credentials: credentials@,
            }),
            ScrapeAction::Stop => action@ is Stop,
            ScrapeAction::Abort => action@ is Abort,
            ScrapeAction::Ignore => action@ is Ignore,
        },
{
}

/// The auth that is found is the first one of the whole name; none is found where none has it.
pub proof fn law_found_auth_has_the_name(
    auths: &Vec<Auth>,
    name: &String,
    found: Option<&Auth>,
    j: int,
)
    requires
        call_ensures(find_auth, (auths, name), found),
        0 <= j <= auths@.len(),
        forall|k: int| 0 <= k < j ==> (#[trigger] auths@[k]).name@ != name@,
        j < auths@.len() ==> auths@[j].name@ == name@,
    ensures
        match found {
            Some(auth) => j < auths@.len() && *auth == auths@[j],
            None => j == auths@.len(),
        },
{
    if j < auths@.len() {
        lemma_find_first(auths@, name@, j);
    } else {
        law_first_auth_of_the_name_is_found(auths@, name@);
    }
}

/// The check of a route sends a request to its URL or asks for a token, and nothing else. What it
/// counts is a success under the name that the route gives its auth, and only where it sends; it
/// records nothing.
pub proof fn law_check_sends_or_asks_for_a_token(
    route: &RouteConfig,
    auths: &Vec<Auth>,
    clients: &mut AuthClients,
    clock: &Clock,
    step: ScrapeStep,
)
    requires
        call_ensures(check_route, (route, auths, clients, clock), step),
    ensures
        step.observe is None,
        match step.action {
            ScrapeAction::Send { url, .. } => url@ == route.url@,
            ScrapeAction::FetchToken(_) => step.attempt is None,
            _ => false,
        },
        step.attempt matches Some(attempt) ==> (route.auth matches Some(name) && attempt.auth_name@
            == name@) && attempt.status is Success,
        step@ == check_route_spec(*route, auths@, old(clients)@, *clock),
        final(clients)@ == check_route_clients(*route, auths@, old(clients)@, *clock),
{
}

/// A step of the scraper sends requests to the URL of the route that it is at and nowhere else,
/// with just the token that was received for it where one was; it counts attempts only where a
/// route has its turn or its token is fetched, under the name that the route gives its auth; and it
/// records a latency only where a route answered, under the name of that route.
pub proof fn law_step_is_about_the_route(
    scraper: &mut Scraper,
    event: &ScrapeEvent,
    clock: &Clock,
    step: ScrapeStep,
)
    requires
        call_ensures(Scraper::step, (scraper, event, clock), step),
    ensures
        ({
            let routes = old(scraper)@.config.routes@;
            &&& step.action matches ScrapeAction::Send { url, credentials } ==> match (
                old(scraper)@.phase,
                *event,
            ) {
                (ScrapePhase::Ready(i), ScrapeEvent::Proceed) => url@ == routes[i as int].url@,
                (ScrapePhase::Fetching(i), ScrapeEvent::TokenReceived(response)) => url@
                    == routes[i as int].url@ && (credentials matches Credentials::Bearer(token)
                    && token@ == response.access_token@),
                _ => false,
            }
            &&& step.attempt matches Some(attempt) ==> match old(scraper)@.phase {
                ScrapePhase::Ready(i) => attempt.auth_name@ == routes[i as int].auth->0@
                    && attempt.status is Success,
                ScrapePhase::Fetching(i) => attempt.auth_name@ == routes[i as int].auth->0@ && (
                attempt.status is Failure <==> *event is TokenFailed),
                _ => false,
            }
            &&& step.observe matches Some(name) ==> (old(
                scraper,
            )@.phase matches ScrapePhase::Requesting(i) && *event is Answered && name@
                == routes[i as int].name@)
        }),
        step@ == old(scraper)@.step(*event, *clock),
        final(scraper)@ == old(scraper)@.next(*event, *clock),
        final(scraper)@.config == old(scraper)@.config,
{
}

/// A step at the times of the clock is a step at some times that it may show.
pub proof fn law_advancing_is_a_step_now(
    scraper: &mut Scraper,
    event: &ScrapeEvent,
    step: ScrapeStep,
)
    requires
        call_ensures(Scraper::advance, (scraper, event), step),
    ensures
        exists|clock: Clock| #[trigger]
            clock.is_reading() && step@ == old(scraper)@.step(*event, clock) && final(scraper)@
                == old(scraper)@.next(*event, clock),
{
}

/// A scraper that is made has the given configuration, waits, and has no clients; its
/// configuration and what it is at are shown as they are. So is how an attempt ended.
pub proof fn law_scraper_shows_what_it_is_at(
    config: AppConfig,
    made: Scraper,
    scraper: &Scraper,
    shown: &AppConfig,
    phase: ScrapePhase,
    key: Seq<char>,
    status: &AuthStatus,
    label: &'static str,
)
    requires
        call_ensures(Scraper::new, (config,), made),
        call_ensures(Scraper::config, (scraper,), shown),
        call_ensures(Scraper::phase, (scraper,), phase),
        call_ensures(AuthStatus::label, (status,), label),
    ensures
        made@.config == config,
        made@.phase is Waiting,
        !made@.clients.contains_key(key),
        *shown == scraper@.config,
        phase == scraper@.phase,
        label@ == if *status is Success {
            "success"@
        } else {
            "failure"@
        },
{
}

} // verus!
