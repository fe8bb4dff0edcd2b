//! How requests are authenticated.
use crate::config::{Auth, AuthConfig};
use crate::keycloak_client::{
    KeycloakClient, KeycloakView, TokenDecision, TokenDecisionView, TokenFetch, TokenFetchView,
    TokenResponse,
};
use crate::string_map::StringMap;
use crate::text;
use crate::time::Clock;
use vstd::prelude::*;

verus! {

/// What the client of an OAuth account is kept under: server, realm, client, user name and
/// password, joined with colons.
pub open spec fn oauth_key(
    url: Seq<char>,
    realm: Seq<char>,
    client_id: Seq<char>,
    user: Seq<char>,
    pass: Seq<char>,
) -> Seq<char> {
    text::colon_joined(
        text::colon_joined(
            text::colon_joined(text::colon_joined(url, realm), client_id),
            user,
        ),
        pass,
    )
}

/// What the client of an OAuth account is kept under.
pub fn oauth_cache_key(url: &str, realm: &str, client_id: &str, user: &str, pass: &str) -> (key:
    String)
    ensures
        key@ == oauth_key(url@, realm@, client_id@, user@, pass@),
{
    let mut key = url.to_owned();
    text::push_with_colon(&mut key, realm);
    text::push_with_colon(&mut key, client_id);
    text::push_with_colon(&mut key, user);
    text::push_with_colon(&mut key, pass);
    key
}

/// The Keycloak clients that are in use, one for each OAuth account.
#[derive(Debug)]
pub struct AuthClients {
    map: StringMap<KeycloakClient>,
}

impl View for AuthClients {
    type V = Map<Seq<char>, KeycloakView>;

    closed spec fn view(&self) -> Map<Seq<char>, KeycloakView> {
        self.map@.map_values(|client: KeycloakClient| client@)
    }
}

/// The client that is kept under `key`; without one, a fresh client of the server at `url`.
pub open spec fn client_of(
    clients: Map<Seq<char>, KeycloakView>,
    key: Seq<char>,
    url: Seq<char>,
) -> KeycloakView {
    if clients.contains_key(key) {
        clients[key]
    } else {
        KeycloakView::fresh(url)
    }
}

impl AuthClients {
    /// No clients.
    pub fn new() -> (clients: AuthClients)
        ensures
            clients@ == Map::<Seq<char>, KeycloakView>::empty(),
    {
        let clients = AuthClients { map: StringMap::new() };
        assert(clients@ =~= Map::<Seq<char>, KeycloakView>::empty());
        clients
    }

    /// The number of clients.
    pub fn len(&self) -> (n: usize)
        ensures
            self@.dom().finite(),
            n == self@.len(),
    {
        assert(self@.dom() =~= self.map@.dom());
        self.map.len()
    }

    /// Takes out the client under `key`; without one, makes a client of the server at `url`.
    fn take(&mut self, key: &String, url: &str) -> (client: KeycloakClient)
        ensures
            final(self)@ == old(self)@.remove(key@),
            client@ == client_of(old(self)@, key@, url@),
    {
        let taken = self.map.remove(key);
        assert(self@ =~= old(self)@.remove(key@));
        match taken {
            Some(client) => client,
            None => KeycloakClient::new(url),
        }
    }

    /// Puts a client under `key`.
    fn put(&mut self, key: String, client: KeycloakClient)
        ensures
            final(self)@ == old(self)@.insert(key@, client@),
    {
        self.map.insert(key, client);
        assert(self@ =~= old(self)@.insert(key@, client@));
    }
}

/// What a request is authenticated with.
#[derive(Debug)]
pub enum Credentials {
    /// Nothing.
    Anonymous,
    /// This bearer token.
    Bearer(String),
    /// This user name and password.
    Basic { user: String, pass: String },
}

/// The text of [`Credentials`].
pub enum CredentialsView {
    Anonymous,
    Bearer(Seq<char>),
    Basic { user: Seq<char>, pass: Seq<char> },
}

impl View for Credentials {
    type V = CredentialsView;

    open spec fn view(&self) -> CredentialsView {
        match self {
            Credentials::Anonymous => CredentialsView::Anonymous,
            Credentials::Bearer(token) => CredentialsView::Bearer(token@),
            Credentials::Basic { user, pass } => CredentialsView::Basic {
                user: user@,
                pass: pass@,
            },
        }
    }
}

/// What applying an [`Auth`] comes to.
#[derive(Debug)]
pub enum AuthStep {
    /// These credentials are at hand.
    Ready(Credentials),
    /// A token has to be fetched first.
    Fetch(TokenFetch),
}

/// The text of an [`AuthStep`].
pub enum AuthStepView {
    Ready(CredentialsView),
    Fetch(TokenFetchView),
}

impl View for AuthStep {
    type V = AuthStepView;

    open spec fn view(&self) -> AuthStepView {
        match self {
            AuthStep::Ready(credentials) => AuthStepView::Ready(credentials@),
            AuthStep::Fetch(fetch) => AuthStepView::Fetch(fetch@),
        }
    }
}

/// What applying `config` comes to.
pub open spec fn auth_step(
    config: AuthConfig,
    clients: Map<Seq<char>, KeycloakView>,
    clock: Clock,
) -> AuthStepView {
    match config {
        AuthConfig::Bearer { token } => AuthStepView::Ready(CredentialsView::Bearer(token@)),
        AuthConfig::Basic { user, pass } => AuthStepView::Ready(
            CredentialsView::Basic { user: user@, pass: pass@ },
        ),
        AuthConfig::OAuth { user, pass, url, client_id, realm } => {
            let key = oauth_key(url@, realm@, client_id@, user@, pass@);
            let client = client_of(clients, key, url@).cleaned(clock.cleanup);
            match client.decide(realm@, client_id@, user@, pass@, clock.now) {
                TokenDecisionView::Cached(token) => AuthStepView::Ready(
                    CredentialsView::Bearer(token),
                ),
                TokenDecisionView::Fetch(fetch) => AuthStepView::Fetch(fetch),
            }
        },
    }
}

/// The clients once `config` has been applied: for an OAuth account its client is there, without
/// the tokens that have expired.
pub open spec fn auth_clients_after(
    config: AuthConfig,
    clients: Map<Seq<char>, KeycloakView>,
    clock: Clock,
) -> Map<Seq<char>, KeycloakView> {
    match config {
        AuthConfig::OAuth { user, pass, url, client_id, realm } => {
            let key = oauth_key(url@, realm@, client_id@, user@, pass@);
            clients.insert(key, client_of(clients, key, url@).cleaned(clock.cleanup))
        },
        _ => clients,
    }
}

/// Says what applying `auth` comes to at the times of `clock`.
pub fn apply_auth(auth: &Auth, clients: &mut AuthClients, clock: &Clock) -> (step: AuthStep)
    ensures
        step@ == auth_step(auth.config, old(clients)@, *clock),
        final(clients)@ == auth_clients_after(auth.config, old(clients)@, *clock),
{
    match &auth.config {
        AuthConfig::Bearer { token } => AuthStep::Ready(Credentials::Bearer(token.clone())),
        AuthConfig::Basic { user, pass } => AuthStep::Ready(
            Credentials::Basic { user: user.clone(), pass: pass.clone() },
        ),
        AuthConfig::OAuth { user, pass, url, client_id, realm } => {
            let key = oauth_cache_key(url, realm, client_id, user, pass);
            let mut client = clients.take(&key, url);
            let decision = client.get_token_at(
                realm,
                client_id,
                user,
                pass,
                &clock.cleanup,
                &clock.now,
            );
            clients.put(key, client);
            assert(clients@ =~= auth_clients_after(auth.config, old(clients)@, *clock));
            match decision {
                TokenDecision::Cached(token) => AuthStep::Ready(Credentials::Bearer(token)),
                TokenDecision::Fetch(fetch) => AuthStep::Fetch(fetch),
            }
        },
    }
}

/// The clients once the answer `response` to a request for a token of an OAuth account has been
/// taken in. Where the time at which the token expires cannot be represented, the client of the
/// account holds the tokens that it held.
pub open spec fn clients_with_token(
    config: AuthConfig,
    clients: Map<Seq<char>, KeycloakView>,
    response: TokenResponse,
    clock: Clock,
) -> Map<Seq<char>, KeycloakView> {
    match config {
        AuthConfig::OAuth { user, pass, url, client_id, realm } => {
            let key = oauth_key(url@, realm@, client_id@, user@, pass@);
            let client = client_of(clients, key, url@);
            let token_key = crate::keycloak_client::token_key(realm@, client_id@, user@, pass@);
            match client.stored(token_key, response, clock.now, clock.fallback) {
                Some(holder) => clients.insert(key, holder),
                None => clients.insert(key, client),
            }
        },
        _ => clients,
    }
}

/// The time at which the token of `response` expires can be represented.
pub open spec fn token_expires(response: TokenResponse, clock: Clock) -> bool {
    crate::keycloak_client::expiry_spec(response.expires_in, clock.now, clock.fallback) is Some
}

/// Takes in the answer to a request for a token of an OAuth account, and gives the credentials
/// that it makes. There are none where the time at which the token expires cannot be
/// represented, or the account is of another kind.
pub fn take_in_token(
    auth: &Auth,
    clients: &mut AuthClients,
    response: &TokenResponse,
    clock: &Clock,
) -> (credentials: Option<Credentials>)
    requires
        clock.wf(),
    ensures
        final(clients)@ == clients_with_token(auth.config, old(clients)@, *response, *clock),
        credentials is Some <==> auth.config is OAuth && token_expires(*response, *clock),
        credentials matches Some(c) ==> c@ == CredentialsView::Bearer(response.access_token@),
{
    match &auth.config {
        AuthConfig::OAuth { user, pass, url, client_id, realm } => {
            let key = oauth_cache_key(url, realm, client_id, user, pass);
            let mut client = clients.take(&key, url);
            let token_key = client.make_key(realm, client_id, user, pass);
            let token = client.store_token_at(&token_key, response, &clock.now, &clock.fallback);
            clients.put(key, client);
            assert(clients@ =~= clients_with_token(
                auth.config,
                old(clients)@,
                *response,
                *clock,
            ));
            match token {
                Some(token) => Some(Credentials::Bearer(token)),
                None => None,
            }
        },
        _ => None,
    }
}

/// What the token of an OAuth account is found under: the key of its client, and the key of the
/// token with that client.
pub open spec fn account_of(config: AuthConfig) -> Option<(Seq<char>, Seq<char>)> {
    match config {
        AuthConfig::OAuth { user, pass, url, client_id, realm } => Some(
            (
                oauth_key(url@, realm@, client_id@, user@, pass@),
                crate::keycloak_client::token_key(realm@, client_id@, user@, pass@),
            ),
        ),
        _ => None,
    }
}

/// Different OAuth accounts have different clients, as long as a colon stands in no realm,
/// client, user name or password. The address of a server may hold one.
pub proof fn law_keys_tell_accounts_apart(
    url1: Seq<char>,
    realm1: Seq<char>,
    client_id1: Seq<char>,
    user1: Seq<char>,
    pass1: Seq<char>,
    url2: Seq<char>,
    realm2: Seq<char>,
    client_id2: Seq<char>,
    user2: Seq<char>,
    pass2: Seq<char>,
)
    requires
        text::colon_free(realm1) && text::colon_free(client_id1) && text::colon_free(user1)
            && text::colon_free(pass1),
        text::colon_free(realm2) && text::colon_free(client_id2) && text::colon_free(user2)
            && text::colon_free(pass2),
        oauth_key(url1, realm1, client_id1, user1, pass1) == oauth_key(
            url2,
            realm2,
            client_id2,
            user2,
            pass2,
        ),
    ensures
        url1 == url2,
        realm1 == realm2,
        client_id1 == client_id2,
        user1 == user2,
        pass1 == pass2,
{
    let to_realm1 = text::colon_joined(url1, realm1);
    let to_realm2 = text::colon_joined(url2, realm2);
    let to_client1 = text::colon_joined(to_realm1, client_id1);
    let to_client2 = text::colon_joined(to_realm2, client_id2);
    let to_user1 = text::colon_joined(to_client1, user1);
    let to_user2 = text::colon_joined(to_client2, user2);
    text::lemma_split_at_last_colon(to_user1, pass1, to_user2, pass2);
    text::lemma_split_at_last_colon(to_client1, user1, to_client2, user2);
    text::lemma_split_at_last_colon(to_realm1, client_id1, to_realm2, client_id2);
    text::lemma_split_at_last_colon(url1, realm1, url2, realm2);
}

/// Applying an auth, or taking in a token for one, leaves every client alone but that of its own
/// account.
pub proof fn law_other_clients_are_left_alone(
    config: AuthConfig,
    clients: Map<Seq<char>, KeycloakView>,
    response: TokenResponse,
    clock: Clock,
    key: Seq<char>,
)
    requires
        account_of(config) matches Some(account) ==> account.0 != key,
    ensures
        auth_clients_after(config, clients, clock).contains_key(key) == clients.contains_key(key),
        auth_clients_after(config, clients, clock)[key] == clients[key],
        clients_with_token(config, clients, response, clock).contains_key(key)
            == clients.contains_key(key),
        clients_with_token(config, clients, response, clock)[key] == clients[key],
{
}

/// The client of an OAuth account is kept under the server, the realm, the client, the user name
/// and the password, each of them whole, in this order and with one colon between two of them;
/// its token, with that client, under the same without the server. No other kind of auth has
/// either.
pub proof fn law_account_is_found_under_its_credentials(config: AuthConfig)
    ensures
        match config {
            AuthConfig::OAuth { user, pass, url, client_id, realm } => {
                let credentials = realm@ + seq![':'] + client_id@ + seq![':'] + user@ + seq![':']
                    + pass@;
                let key = url@ + seq![':'] + realm@ + seq![':'] + client_id@ + seq![':'] + user@
                    + seq![':'] + pass@;
                &&& oauth_key(url@, realm@, client_id@, user@, pass@) == key
                &&& account_of(config) == Some((key, credentials))
            },
            _ => account_of(config) is None,
        },
{
}

/// A fixed token, or user name and password, are at hand as they stand in the configuration,
/// whatever clients there are and at all times; no client comes of them, and none changes.
pub proof fn law_fixed_credentials_are_used_as_they_stand(
    config: AuthConfig,
    clients: Map<Seq<char>, KeycloakView>,
    response: TokenResponse,
    clock: Clock,
)
    requires
        config !is OAuth,
    ensures
        auth_step(config, clients, clock) == AuthStepView::Ready(
            match config {
                AuthConfig::Bearer { token } => CredentialsView::Bearer(token@),
                AuthConfig::Basic { user, pass } => CredentialsView::Basic {
                    user: user@,
                    pass: pass@,
                },
                _ => CredentialsView::Anonymous,
            },
        ),
        auth_clients_after(config, clients, clock) == clients,
        clients_with_token(config, clients, response, clock) == clients,
{
}

/// An OAuth account is used with the token that its client holds for it, exactly where that one
/// has not expired and lasts a second; otherwise a token is asked for, at the server of the client
/// and with the credentials of the account, each of them whole. An account without a client is one
/// of the server in the configuration.
pub proof fn law_account_uses_its_own_token(
    config: AuthConfig,
    clients: Map<Seq<char>, KeycloakView>,
    clock: Clock,
)
    ensures
        match config {
            AuthConfig::OAuth { user, pass, url, client_id, realm } => {
                let credentials = realm@ + seq![':'] + client_id@ + seq![':'] + user@ + seq![':']
                    + pass@;
                let key = url@ + seq![':'] + realm@ + seq![':'] + client_id@ + seq![':'] + user@
                    + seq![':'] + pass@;
                let server = if clients.contains_key(key) {
                    clients[key].url
                } else {
                    url@
                };
                let held = clients[key].tokens[credentials];
                let usable = clients.contains_key(key) && clients[key].tokens.contains_key(
                    credentials,
                ) && held.valid_until.is_after_spec(clock.cleanup)
                    && held.valid_until.at_least_a_second_after(clock.now);
                match auth_step(config, clients, clock) {
                    AuthStepView::Ready(at_hand) => usable && at_hand == CredentialsView::Bearer(
                        held.token@,
                    ),
                    AuthStepView::Fetch(fetch) => {
                        &&& !usable
                        &&& fetch.key == credentials
                        &&& fetch.url == server + "/realms/"@ + realm@
                            + "/protocol/openid-connect/token"@
                        &&& fetch.form.len() == 4
                        &&& fetch.form[0] == ("grant_type"@, "password"@)
                        &&& fetch.form[1] == ("client_id"@, client_id@)
                        &&& fetch.form[2] == ("username"@, user@)
                        &&& fetch.form[3] == ("password"@, pass@)
                    },
                }
            },
            _ => true,
        },
{
}

/// Once an OAuth account has been used it has a client, at the server that it had or else at that
/// of the configuration. The client holds exactly the tokens that it held and that have not
/// expired. Every other client is as it was.
pub proof fn law_used_account_has_a_client(
    config: AuthConfig,
    clients: Map<Seq<char>, KeycloakView>,
    clock: Clock,
    token_key: Seq<char>,
    other: Seq<char>,
)
    ensures
        match config {
            AuthConfig::OAuth { user, pass, url, client_id, realm } => {
                let key = url@ + seq![':'] + realm@ + seq![':'] + client_id@ + seq![':'] + user@
                    + seq![':'] + pass@;
                let after = auth_clients_after(config, clients, clock);
                let kept = clients.contains_key(key) && clients[key].tokens.contains_key(token_key)
                    && clients[key].tokens[token_key].valid_until.is_after_spec(clock.cleanup);
                &&& after.contains_key(key)
                &&& after[key].url == if clients.contains_key(key) {
                    clients[key].url
                } else {
                    url@
                }
                &&& after[key].tokens.contains_key(token_key) <==> kept
                &&& kept ==> after[key].tokens[token_key] == clients[key].tokens[token_key]
                &&& other != key ==> after.contains_key(other) == clients.contains_key(other)
                    && after[other] == clients[other]
            },
            _ => true,
        },
{
}

/// The token of an answer is held for the account that it was asked for, by its client, which
/// keeps its server and its other tokens. Nothing is held where the token would expire past the
/// last second of all dates and an hour from then would lie past it too. Every other client is as
/// it was.
pub proof fn law_received_token_goes_to_its_account(
    config: AuthConfig,
    clients: Map<Seq<char>, KeycloakView>,
    response: TokenResponse,
    clock: Clock,
    token_key: Seq<char>,
    other: Seq<char>,
)
    ensures
        token_expires(response, clock) <==> clock.now.secs + response.expires_in
            <= crate::time::MAX_SECS || clock.fallback.secs + 3600 <= crate::time::MAX_SECS,
        match config {
            AuthConfig::OAuth { user, pass, url, client_id, realm } => {
                let credentials = realm@ + seq![':'] + client_id@ + seq![':'] + user@ + seq![':']
                    + pass@;
                let key = url@ + seq![':'] + realm@ + seq![':'] + client_id@ + seq![':'] + user@
                    + seq![':'] + pass@;
                let after = clients_with_token(config, clients, response, clock);
                let stored = token_key == credentials && token_expires(response, clock);
                let held = clients.contains_key(key) && clients[key].tokens.contains_key(token_key);
                &&& after.contains_key(key)
                &&& after[key].url == if clients.contains_key(key) {
                    clients[key].url
                } else {
                    url@
                }
                &&& after[key].tokens.contains_key(token_key) <==> stored || held
                &&& stored ==> {
                    let until = after[key].tokens[token_key].valid_until;
                    &&& after[key].tokens[token_key].token == response.access_token
                    &&& if clock.now.secs + response.expires_in <= crate::time::MAX_SECS {
                        until.secs == clock.now.secs + response.expires_in && until.nanos
                            == clock.now.nanos
                    } else {
                        until.secs == clock.fallback.secs + 3600 && until.nanos
                            == clock.fallback.nanos
                    }
                }
                &&& held && !stored ==> after[key].tokens[token_key]
                    == clients[key].tokens[token_key]
                &&& other != key ==> after.contains_key(other) == clients.contains_key(other)
                    && after[other] == clients[other]
            },
            _ => true,
        },
{
}

/// What is said of the text of credentials, or of what applying an auth comes to, is said of all
/// their parts.
pub proof fn law_texts_of_credentials_are_whole(credentials: Credentials, step: AuthStep)
    ensures
        match credentials {
            Credentials::Anonymous => credentials@ == CredentialsView::Anonymous,
            Credentials::Bearer(token) => credentials@ == CredentialsView::Bearer(token@),
            Credentials::Basic { user, pass } => credentials@ == (CredentialsView::Basic {
                user: user@,
                pass: pass@,
            }),
        },
        match step {
            AuthStep::Ready(at_hand) => step@ == AuthStepView::Ready(at_hand@),
            AuthStep::Fetch(fetch) => step@ == AuthStepView::Fetch(fetch@),
        },
{
}

/// The key that is made for an account is the server, the realm, the client, the user name and the
/// password, each of them whole, joined with colons.
pub proof fn law_made_account_keys(
    url: &str,
    realm: &str,
    client_id: &str,
    user: &str,
    pass: &str,
    key: String,
)
    requires
        call_ensures(oauth_cache_key, (url, realm, client_id, user, pass), key),
    ensures
        key@ == url@ + seq![':'] + realm@ + seq![':'] + client_id@ + seq![':'] + user@ + seq![':']
            + pass@,
{
}

/// Applying an auth gives a fixed token, or user name and password, just as they are configured,
/// and for an OAuth account a token that its client holds, or else a request for one with its
/// credentials. It leaves every client alone but that of its own account.
pub proof fn law_auth_gives_its_credentials(
    auth: &Auth,
    clients: &mut AuthClients,
    clock: &Clock,
    step: AuthStep,
    other: Seq<char>,
)
    requires
        call_ensures(apply_auth, (auth, clients, clock), step),
    ensures
        match (auth.config, step) {
            (AuthConfig::Bearer { token }, AuthStep::Ready(Credentials::Bearer(given))) => given@
                == token@ && final(clients)@ == old(clients)@,
            (
                AuthConfig::Basic { user, pass },
                AuthStep::Ready(Credentials::Basic { user: given, pass: secret }),
            ) => given@ == user@ && secret@ == pass@ && final(clients)@ == old(clients)@,
            (AuthConfig::OAuth { user, pass, url, client_id, realm }, _) => {
                let credentials = realm@ + seq![':'] + client_id@ + seq![':'] + user@ + seq![':']
                    + pass@;
                let key = url@ + seq![':'] + realm@ + seq![':'] + client_id@ + seq![':'] + user@
                    + seq![':'] + pass@;
                &&& match step {
                    AuthStep::Ready(Credentials::Bearer(given)) => old(clients)@.contains_key(key)
                        && old(clients)@[key].tokens.contains_key(credentials) && given@ == old(
                        clients,
                    )@[key].tokens[credentials].token@,
                    AuthStep::Fetch(fetch) => fetch.key.0@ == credentials && fetch@.form.len() == 4
                        && fetch@.form[3] == ("password"@, pass@),
                    _ => false,
                }
                &&& other != key ==> final(clients)@.contains_key(other) == old(
                    clients,
                )@.contains_key(other) && final(clients)@[other] == old(clients)@[other]
            },
            _ => false,
        },
        step@ == auth_step(auth.config, old(clients)@, *clock),
        final(clients)@ == auth_clients_after(auth.config, old(clients)@, *clock),
{
    law_account_uses_its_own_token(auth.config, old(clients)@, *clock);
}

/// Taking in a token gives the token itself as credentials, exactly where the auth is an OAuth
/// account and the time at which the token expires is one of the dates, or an hour from then is.
pub proof fn law_taken_in_token_is_used_as_it_is(
    auth: &Auth,
    clients: &mut AuthClients,
    response: &TokenResponse,
    clock: &Clock,
    credentials: Option<Credentials>,
)
    requires
        call_ensures(take_in_token, (auth, clients, response, clock), credentials),
    ensures
        credentials is Some <==> auth.config is OAuth && (clock.now.secs + response.expires_in
            <= crate::time::MAX_SECS || clock.fallback.secs + 3600 <= crate::time::MAX_SECS),
        credentials matches Some(given) ==> (given matches Credentials::Bearer(token) && token@
            == response.access_token@),
        final(clients)@ == clients_with_token(auth.config, old(clients)@, *response, *clock),
{
}

/// There are no clients at first, and their number is told.
pub proof fn law_clients_are_counted(
    made: AuthClients,
    key: Seq<char>,
    clients: &AuthClients,
    n: usize,
)
    requires
        call_ensures(AuthClients::new, (), made),
        call_ensures(AuthClients::len, (clients,), n),
    ensures
        !made@.contains_key(key),
        n == clients@.dom().len(),
        clients@.contains_key(key) ==> n > 0,
{
}

} // verus!
