//! A client of a Keycloak server that fetches OAuth tokens and keeps them until they expire.
use crate::string_map::StringMap;
use crate::text;
use crate::time::{checked_add_seconds, utc_now, UtcTime, SECS_PER_HOUR};
use vstd::prelude::*;

verus! {

/// What a token is cached under.
#[derive(Debug, PartialEq, Eq, PartialOrd, Hash)]
pub struct Key(pub String);

/// A token and the time at which it expires.
#[derive(Debug)]
pub struct CachedToken {
    pub token: String,
    pub valid_until: UtcTime,
}

/// The tokens of `tokens` that expire after `now`.
pub open spec fn unexpired(tokens: Map<Seq<char>, CachedToken>, now: UtcTime) -> Map<
    Seq<char>,
    CachedToken,
> {
    tokens.filter_keys(|k: Seq<char>| tokens[k].valid_until.is_after_spec(now))
}

/// The tokens that a client holds, by key.
#[derive(Debug)]
pub struct TokenCache {
    map: StringMap<CachedToken>,
}

impl View for TokenCache {
    type V = Map<Seq<char>, CachedToken>;

    closed spec fn view(&self) -> Map<Seq<char>, CachedToken> {
        self.map@
    }
}

impl TokenCache {
    /// A cache without tokens.
    pub fn new() -> (cache: TokenCache)
        ensures
            cache@ == Map::<Seq<char>, CachedToken>::empty(),
    {
        TokenCache { map: StringMap::new() }
    }

    /// The number of tokens.
    pub fn len(&self) -> (n: usize)
        ensures
            self@.dom().finite(),
            n == self@.len(),
    {
        self.map.len()
    }

    /// Whether there is no token.
    pub fn is_empty(&self) -> (empty: bool)
        ensures
            empty <==> self@ == Map::<Seq<char>, CachedToken>::empty(),
    {
        let n = self.map.len();
        proof {
            if n == 0 {
                assert(self@ =~= Map::empty());
            }
        }
        n == 0
    }

    /// Whether there is a token under `key`.
    pub fn contains_key(&self, key: &Key) -> (found: bool)
        ensures
            found == self@.contains_key(key.0@),
    {
        self.map.contains_key(&key.0)
    }

    /// The token under `key`.
    pub fn get(&self, key: &Key) -> (found: Option<&CachedToken>)
        ensures
            found is Some <==> self@.contains_key(key.0@),
            found matches Some(cached) ==> *cached == self@[key.0@],
    {
        self.map.get(&key.0)
    }

    /// Puts a token under `key`, in place of what was there.
    pub fn insert(&mut self, key: Key, cached: CachedToken)
        ensures
            final(self)@ == old(self)@.insert(key.0@, cached),
    {
        self.map.insert(key.0, cached);
    }

    /// Drops every token that does not expire after `now`.
    pub fn retain_unexpired(&mut self, now: &UtcTime)
        ensures
            final(self)@ == unexpired(old(self)@, *now),
    {
        let now = *now;
        let still_valid = |cached: &CachedToken| -> (keep: bool)
            ensures
                keep == cached.valid_until.is_after_spec(now),
        {
            cached.valid_until.is_after(&now)
        };
        self.map.retain(still_valid);
        assert(self@ =~= unexpired(old(self)@, now));
    }
}

/// What the token of a user is cached under: realm, client, user name and password, joined
/// with colons.
pub open spec fn token_key(
    realm: Seq<char>,
    client_id: Seq<char>,
    username: Seq<char>,
    password: Seq<char>,
) -> Seq<char> {
    text::colon_joined(
        text::colon_joined(text::colon_joined(realm, client_id), username),
        password,
    )
}

/// A request for a new token: where it is posted, which form fields it carries in which order,
/// and what the token will be cached under.
#[derive(Debug)]
pub struct TokenFetch {
    pub key: Key,
    pub url: String,
    pub form: Vec<(String, String)>,
}

/// The text of a [`TokenFetch`].
pub struct TokenFetchView {
    pub key: Seq<char>,
    pub url: Seq<char>,
    pub form: Seq<(Seq<char>, Seq<char>)>,
}

impl View for TokenFetch {
    type V = TokenFetchView;

    open spec fn view(&self) -> TokenFetchView {
        TokenFetchView {
            key: self.key.0@,
            url: self.url@,
            form: self.form@.map_values(|field: (String, String)| (field.0@, field.1@)),
        }
    }
}

/// The request for a new token of a user at the server at `base_url`.
pub open spec fn token_fetch(
    base_url: Seq<char>,
    realm: Seq<char>,
    client_id: Seq<char>,
    username: Seq<char>,
    password: Seq<char>,
) -> TokenFetchView {
    TokenFetchView {
        key: token_key(realm, client_id, username, password),
        url: base_url + "/realms/"@ + realm + "/protocol/openid-connect/token"@,
        form: seq![
            ("grant_type"@, "password"@),
            ("client_id"@, client_id),
            ("username"@, username),
            ("password"@, password),
        ],
    }
}

/// What the server answers to a [`TokenFetch`].
#[derive(Debug)]
pub struct TokenResponse {
    pub access_token: String,
    /// The life of the token, in seconds.
    pub expires_in: u32,
}

/// Where a token comes from.
#[derive(Debug)]
pub enum TokenDecision {
    /// This token is cached.
    Cached(String),
    /// The token has to be fetched.
    Fetch(TokenFetch),
}

/// The text of a [`TokenDecision`].
pub enum TokenDecisionView {
    Cached(Seq<char>),
    Fetch(TokenFetchView),
}

impl View for TokenDecision {
    type V = TokenDecisionView;

    open spec fn view(&self) -> TokenDecisionView {
        match self {
            TokenDecision::Cached(token) => TokenDecisionView::Cached(token@),
            TokenDecision::Fetch(fetch) => TokenDecisionView::Fetch(fetch@),
        }
    }
}

/// A client of the Keycloak server at `url`.
#[derive(Debug)]
pub struct KeycloakClient {
    pub url: String,
    pub cached_tokens: TokenCache,
}

/// What a [`KeycloakClient`] stands for: its server, and the tokens that it holds by key.
pub struct KeycloakView {
    pub url: Seq<char>,
    pub tokens: Map<Seq<char>, CachedToken>,
}

impl View for KeycloakClient {
    type V = KeycloakView;

    open spec fn view(&self) -> KeycloakView {
        KeycloakView { url: self.url@, tokens: self.cached_tokens@ }
    }
}

impl KeycloakView {
    /// A client of the server at `url` that holds no token.
    pub open spec fn fresh(url: Seq<char>) -> KeycloakView {
        KeycloakView { url, tokens: Map::empty() }
    }

    /// The client without the tokens that do not expire after `now`.
    pub open spec fn cleaned(self, now: UtcTime) -> KeycloakView {
        KeycloakView { url: self.url, tokens: unexpired(self.tokens, now) }
    }

    /// The client with a token under `key`, in place of what was there.
    pub open spec fn with_token(self, key: Seq<char>, cached: CachedToken) -> KeycloakView {
        KeycloakView { url: self.url, tokens: self.tokens.insert(key, cached) }
    }

    /// A token is held under `key` that is valid for at least a second from `now` on.
    pub open spec fn has_valid(self, key: Seq<char>, now: UtcTime) -> bool {
        &&& self.tokens.contains_key(key)
        &&& self.tokens[key].valid_until.at_least_a_second_after(now)
    }

    /// Where the token of a user comes from: the cache, if it holds one that is valid for at
    /// least a second from `now` on; the server otherwise.
    pub open spec fn decide(
        self,
        realm: Seq<char>,
        client_id: Seq<char>,
        username: Seq<char>,
        password: Seq<char>,
        now: UtcTime,
    ) -> TokenDecisionView {
        let key = token_key(realm, client_id, username, password);
        if self.has_valid(key, now) {
            TokenDecisionView::Cached(self.tokens[key].token@)
        } else {
            TokenDecisionView::Fetch(token_fetch(self.url, realm, client_id, username, password))
        }
    }

    /// The client once it has taken in the answer `response`, received at `now`. Where the time
    /// at which the token expires cannot be represented, neither from `now` nor an hour from
    /// `fallback`, there is none.
    pub open spec fn stored(
        self,
        key: Seq<char>,
        response: TokenResponse,
        now: UtcTime,
        fallback: UtcTime,
    ) -> Option<KeycloakView> {
        match expiry_spec(response.expires_in, now, fallback) {
            Some(valid_until) => Some(
                self.with_token(key, CachedToken { token: response.access_token, valid_until }),
            ),
            None => None,
        }
    }
}

/// When a token that lives for `expires_in` seconds from `now` expires: at the end of its life,
/// or, where that cannot be represented, an hour from `fallback`, where that can.
pub open spec fn expiry_spec(expires_in: u32, now: UtcTime, fallback: UtcTime) -> Option<UtcTime> {
    if now.can_add(expires_in as int) {
        Some(now.plus(expires_in as int))
    } else if fallback.can_add(SECS_PER_HOUR as int) {
        Some(fallback.plus(SECS_PER_HOUR as int))
    } else {
        None
    }
}

/// When a token that lives for `expires_in` seconds from `now` expires: at the end of its life,
/// or, where that cannot be represented, an hour from `fallback`, where that can.
pub fn expiry(expires_in: u32, now: &UtcTime, fallback: &UtcTime) -> (at: Option<UtcTime>)
    requires
        now.wf(),
        fallback.wf(),
    ensures
        at == expiry_spec(expires_in, *now, *fallback),
{
    match checked_add_seconds(now, expires_in) {
        Some(at) => Some(at),
        None => checked_add_seconds(fallback, SECS_PER_HOUR),
    }
}

impl KeycloakClient {
    /// A client of the server at `url` that holds no token.
    pub fn new(url: &str) -> (client: KeycloakClient)
        ensures
            client@ == KeycloakView::fresh(url@),
    {
        KeycloakClient { url: url.to_owned(), cached_tokens: TokenCache::new() }
    }

    /// What the token of a user is cached under.
    pub fn make_key(&self, realm: &str, client_id: &str, username: &str, password: &str) -> (key:
        Key)
        ensures
            key.0@ == token_key(realm@, client_id@, username@, password@),
    {
        let mut s = realm.to_owned();
        text::push_with_colon(&mut s, client_id);
        text::push_with_colon(&mut s, username);
        text::push_with_colon(&mut s, password);
        Key(s)
    }

    /// Drops every token that does not expire after `now`.
    pub fn cleanup_expired_at(&mut self, now: &UtcTime)
        ensures
            final(self)@ == old(self)@.cleaned(*now),
    {
        self.cached_tokens.retain_unexpired(now);
    }

    /// Drops every token that has expired.
    pub fn cleanup_expired_tokens(&mut self)
        ensures
            exists|now: UtcTime| #[trigger]
                now.is_reading() && final(self)@ == old(self)@.cleaned(now),
    {
        let now = utc_now();
        self.cleanup_expired_at(&now);
    }

    /// The request for a new token of a user.
    fn make_fetch(
        &self,
        key: Key,
        realm: &str,
        client_id: &str,
        username: &str,
        password: &str,
    ) -> (fetch: TokenFetch)
        requires
            key.0@ == token_key(realm@, client_id@, username@, password@),
        ensures
            fetch@ == token_fetch(self.url@, realm@, client_id@, username@, password@),
    {
        let mut url = self.url.clone();
        url.append("/realms/");
        url.append(realm);
        url.append("/protocol/openid-connect/token");
        let mut form: Vec<(String, String)> = Vec::new();
        form.push(("grant_type".to_owned(), "password".to_owned()));
        form.push(("client_id".to_owned(), client_id.to_owned()));
        form.push(("username".to_owned(), username.to_owned()));
        form.push(("password".to_owned(), password.to_owned()));
        let fetch = TokenFetch { key, url, form };
        assert(fetch@.form =~= token_fetch(
            self.url@,
            realm@,
            client_id@,
            username@,
            password@,
        ).form);
        fetch
    }

    /// Drops every token that does not expire after `cleanup`, and says where the token of a
    /// user comes from: the cache, if it then holds one that is valid for at least a second
    /// from `now` on; the server otherwise.
    pub fn get_token_at(
        &mut self,
        realm: &str,
        client_id: &str,
        username: &str,
        password: &str,
        cleanup: &UtcTime,
        now: &UtcTime,
    ) -> (decision: TokenDecision)
        ensures
            final(self)@ == old(self)@.cleaned(*cleanup),
            decision@ == final(self)@.decide(realm@, client_id@, username@, password@, *now),
    {
        self.cleanup_expired_at(cleanup);
        let key = self.make_key(realm, client_id, username, password);
        if let Some(cached) = self.cached_tokens.get(&key) {
            if cached.valid_until.lasts_a_second_from(now) {
                return TokenDecision::Cached(cached.token.clone());
            }
        }
        TokenDecision::Fetch(self.make_fetch(key, realm, client_id, username, password))
    }

    /// Drops the tokens that have expired, and says where the token of a user comes from: the
    /// cache, if it then holds one that is valid for at least a second; the server otherwise.
    pub fn get_token(
        &mut self,
        realm: &str,
        client_id: &str,
        username: &str,
        password: &str,
    ) -> (decision: TokenDecision)
        ensures
            exists|cleanup: UtcTime, now: UtcTime| #[trigger]
                cleanup.is_reading() && #[trigger] now.is_reading() && final(self)@ == old(
                    self,
                )@.cleaned(cleanup) && decision@ == final(self)@.decide(
                    realm@,
                    client_id@,
                    username@,
                    password@,
                    now,
                ),
    {
        let cleanup = utc_now();
        let now = utc_now();
        self.get_token_at(realm, client_id, username, password, &cleanup, &now)
    }

    /// Takes in the answer to a request for a token, received at `now`: caches the token under
    /// `key` and hands it back. Where the time at which it expires cannot be represented,
    /// nothing changes and there is no token.
    pub fn store_token_at(
        &mut self,
        key: &Key,
        response: &TokenResponse,
        now: &UtcTime,
        fallback: &UtcTime,
    ) -> (token: Option<String>)
        requires
            now.wf(),
            fallback.wf(),
        ensures
            match old(self)@.stored(key.0@, *response, *now, *fallback) {
                Some(client) => final(self)@ == client && token == Some(response.access_token),
                None => final(self)@ == old(self)@ && token is None,
            },
    {
        match expiry(response.expires_in, now, fallback) {
            Some(valid_until) => {
                let cached = CachedToken { token: response.access_token.clone(), valid_until };
                self.cached_tokens.insert(Key(key.0.clone()), cached);
                Some(response.access_token.clone())
            },
            None => None,
        }
    }

    /// Takes in the answer to a request for a token, received just now: caches the token under
    /// `key` and hands it back. Where the time at which it expires cannot be represented,
    /// nothing changes and there is no token.
    pub fn store_token(&mut self, key: &Key, response: &TokenResponse) -> (token: Option<String>)
        ensures
            exists|now: UtcTime, fallback: UtcTime| #[trigger]
                now.is_reading() && #[trigger] fallback.is_reading() && match old(self)@.stored(
                    key.0@,
                    *response,
                    now,
                    fallback,
                ) {
                    Some(client) => final(self)@ == client && token == Some(
                        response.access_token,
                    ),
                    None => final(self)@ == old(self)@ && token is None,
                },
    {
        let now = utc_now();
        let fallback = utc_now();
        proof {
            crate::time::lemma_reading_is_wf(now);
            crate::time::lemma_reading_is_wf(fallback);
        }
        self.store_token_at(key, response, &now, &fallback)
    }
}

/// A token that was fetched for a user is handed out of the cache again, for the same user, at
/// every time at which it has not expired and stays valid for at least a second.
pub proof fn law_fetched_token_is_reused(
    client: KeycloakView,
    realm: Seq<char>,
    client_id: Seq<char>,
    username: Seq<char>,
    password: Seq<char>,
    response: TokenResponse,
    received: UtcTime,
    fallback: UtcTime,
    cleanup: UtcTime,
    now: UtcTime,
)
    requires
        expiry_spec(response.expires_in, received, fallback) matches Some(valid_until)
            && valid_until.is_after_spec(cleanup) && valid_until.at_least_a_second_after(now),
    ensures
        client.stored(
            token_key(realm, client_id, username, password),
            response,
            received,
            fallback,
        ) matches Some(holder) && holder.cleaned(cleanup).decide(
            realm,
            client_id,
            username,
            password,
            now,
        ) == TokenDecisionView::Cached(response.access_token@),
{
}

/// A token is handed out of the cache exactly where one is held for the user that has not
/// expired and stays valid for at least a second; it is then that token.
pub proof fn law_only_valid_tokens_are_reused(
    client: KeycloakView,
    realm: Seq<char>,
    client_id: Seq<char>,
    username: Seq<char>,
    password: Seq<char>,
    cleanup: UtcTime,
    now: UtcTime,
)
    ensures
        ({
            let key = token_key(realm, client_id, username, password);
            let decision = client.cleaned(cleanup).decide(
                realm,
                client_id,
                username,
                password,
                now,
            );
            &&& decision is Cached <==> client.has_valid(key, now)
                && client.tokens[key].valid_until.is_after_spec(cleanup)
            &&& decision matches TokenDecisionView::Cached(token) ==> token
                == client.tokens[key].token@
        }),
{
}

/// Where no token is handed out of the cache, the request that is made carries the credentials
/// of the user to the realm's token endpoint, whatever the cache holds.
pub proof fn law_fetch_does_not_depend_on_the_cache(
    client1: KeycloakView,
    client2: KeycloakView,
    realm: Seq<char>,
    client_id: Seq<char>,
    username: Seq<char>,
    password: Seq<char>,
    now1: UtcTime,
    now2: UtcTime,
)
    requires
        client1.url == client2.url,
        client1.decide(realm, client_id, username, password, now1) is Fetch,
        client2.decide(realm, client_id, username, password, now2) is Fetch,
    ensures
        client1.decide(realm, client_id, username, password, now1) == client2.decide(
            realm,
            client_id,
            username,
            password,
            now2,
        ),
{
}

/// Dropping expired tokens twice is dropping them once, at the later of the two times.
pub proof fn law_cleanup_composes(client: KeycloakView, first: UtcTime, second: UtcTime)
    ensures
        client.cleaned(first).cleaned(second) == client.cleaned(
            if second.is_after_spec(first) {
                second
            } else {
                first
            },
        ),
{
    let later = if second.is_after_spec(first) { second } else { first };
    assert(unexpired(unexpired(client.tokens, first), second) =~= unexpired(client.tokens, later));
}

/// A token that is taken in for one user changes nothing for a user with another key.
pub proof fn law_users_do_not_interfere(
    client: KeycloakView,
    key: Seq<char>,
    response: TokenResponse,
    received: UtcTime,
    fallback: UtcTime,
    realm: Seq<char>,
    client_id: Seq<char>,
    username: Seq<char>,
    password: Seq<char>,
    now: UtcTime,
)
    requires
        key != token_key(realm, client_id, username, password),
    ensures
        client.stored(key, response, received, fallback) matches Some(holder) ==> holder.decide(
            realm,
            client_id,
            username,
            password,
            now,
        ) == client.decide(realm, client_id, username, password, now),
{
}

/// Different credentials have different keys, as long as a colon stands in no realm, client or
/// user name. A password may hold one.
pub proof fn law_keys_tell_users_apart(
    realm1: Seq<char>,
    client_id1: Seq<char>,
    username1: Seq<char>,
    password1: Seq<char>,
    realm2: Seq<char>,
    client_id2: Seq<char>,
    username2: Seq<char>,
    password2: Seq<char>,
)
    requires
        text::colon_free(realm1) && text::colon_free(client_id1) && text::colon_free(username1),
        text::colon_free(realm2) && text::colon_free(client_id2) && text::colon_free(username2),
        token_key(realm1, client_id1, username1, password1) == token_key(
            realm2,
            client_id2,
            username2,
            password2,
        ),
    ensures
        realm1 == realm2,
        client_id1 == client_id2,
        username1 == username2,
        password1 == password2,
{
    let users1 = text::colon_joined(username1, password1);
    let users2 = text::colon_joined(username2, password2);
    let clients1 = text::colon_joined(client_id1, users1);
    let clients2 = text::colon_joined(client_id2, users2);
    assert(token_key(realm1, client_id1, username1, password1) =~= text::colon_joined(
        realm1,
        clients1,
    ));
    assert(token_key(realm2, client_id2, username2, password2) =~= text::colon_joined(
        realm2,
        clients2,
    ));
    text::lemma_split_at_first_colon(realm1, clients1, realm2, clients2);
    text::lemma_split_at_first_colon(client_id1, users1, client_id2, users2);
    text::lemma_split_at_first_colon(username1, password1, username2, password2);
}

/// The key of a user is the realm, the client, the user name and the password, each of them
/// whole, in this order and with one colon between two of them.
pub proof fn law_key_is_the_joined_credentials(
    realm: Seq<char>,
    client_id: Seq<char>,
    username: Seq<char>,
    password: Seq<char>,
)
    ensures
        token_key(realm, client_id, username, password) == realm + seq![':'] + client_id + seq![':']
            + username + seq![':'] + password,
{
}

/// A new client is one of the given server, and has a token for nobody: whoever asks for one,
/// and whenever, it is fetched.
pub proof fn law_new_client_fetches(
    url: Seq<char>,
    key: Seq<char>,
    realm: Seq<char>,
    client_id: Seq<char>,
    username: Seq<char>,
    password: Seq<char>,
    cleanup: UtcTime,
    now: UtcTime,
)
    ensures
        KeycloakView::fresh(url).url == url,
        !KeycloakView::fresh(url).tokens.contains_key(key),
        KeycloakView::fresh(url).cleaned(cleanup).decide(
            realm,
            client_id,
            username,
            password,
            now,
        ) is Fetch,
{
}

/// Dropping expired tokens keeps each token exactly where it expires after the given time, as it
/// is and under its key, adds none, and leaves the server alone.
pub proof fn law_cleanup_keeps_what_has_not_expired(
    client: KeycloakView,
    now: UtcTime,
    key: Seq<char>,
)
    ensures
        client.cleaned(now).url == client.url,
        client.cleaned(now).tokens == unexpired(client.tokens, now),
        unexpired(client.tokens, now).contains_key(key) <==> client.tokens.contains_key(key)
            && client.tokens[key].valid_until.is_after_spec(now),
        unexpired(client.tokens, now).contains_key(key) ==> unexpired(client.tokens, now)[key]
            == client.tokens[key],
        client.tokens.contains_key(key) && now.nanos < 1_000_000_000
            && client.tokens[key].valid_until.nanos < 1_000_000_000 ==> (client.cleaned(
            now,
        ).tokens.contains_key(key) <==> {
            let until = client.tokens[key].valid_until;
            until.secs > now.secs || until.secs == now.secs && until.nanos > now.nanos
        }),
{
}

/// A token expires as many seconds after its receipt as it lives, at the same nanosecond. Where
/// that is past the last second of all dates, it expires an hour from `fallback`, and where that
/// is past it too, there is no such time.
pub proof fn law_token_expires_at_the_end_of_its_life(
    expires_in: u32,
    now: UtcTime,
    fallback: UtcTime,
)
    ensures
        ({
            let last = crate::time::MAX_SECS;
            let at = expiry_spec(expires_in, now, fallback);
            if now.secs + expires_in <= last {
                at matches Some(t) && t.secs == now.secs + expires_in && t.nanos == now.nanos
            } else if fallback.secs + 3600 <= last {
                at matches Some(t) && t.secs == fallback.secs + 3600 && t.nanos == fallback.nanos
            } else {
                at is None
            }
        }),
{
}

/// A token that is taken in is held under its key with the time at which it expires, in place of
/// what was there; every other token and the server stay as they were. Nothing is taken in exactly
/// where there is no such time.
pub proof fn law_token_is_stored_under_its_key(
    client: KeycloakView,
    key: Seq<char>,
    response: TokenResponse,
    now: UtcTime,
    fallback: UtcTime,
    other: Seq<char>,
)
    requires
        other != key,
    ensures
        match (
            client.stored(key, response, now, fallback),
            expiry_spec(response.expires_in, now, fallback),
        ) {
            (Some(holder), Some(valid_until)) => {
                &&& holder.url == client.url
                &&& holder.tokens.contains_key(key)
                &&& holder.tokens[key].token == response.access_token
                &&& holder.tokens[key].valid_until == valid_until
                &&& holder.tokens.contains_key(other) == client.tokens.contains_key(other)
                &&& holder.tokens[other] == client.tokens[other]
            },
            (None, None) => true,
            _ => false,
        },
{
}

/// The token that is held under the key of a user is handed out exactly where it is valid until
/// the same nanosecond of the next second, or later. It is handed out whole.
pub proof fn law_held_token_is_handed_out_while_it_lasts(
    client: KeycloakView,
    realm: Seq<char>,
    client_id: Seq<char>,
    username: Seq<char>,
    password: Seq<char>,
    now: UtcTime,
)
    ensures
        ({
            let key = realm + seq![':'] + client_id + seq![':'] + username + seq![':'] + password;
            let until = client.tokens[key].valid_until;
            let decision = client.decide(realm, client_id, username, password, now);
            &&& decision is Cached <==> client.tokens.contains_key(key)
                && until.at_least_a_second_after(now)
            &&& decision is Cached ==> decision == TokenDecisionView::Cached(
                client.tokens[key].token@,
            )
            &&& client.tokens.contains_key(key) && now.nanos < 1_000_000_000 && until.nanos
                < 1_000_000_000 ==> (decision is Cached <==> (until.secs > now.secs + 1
                || until.secs == now.secs + 1 && until.nanos >= now.nanos))
        }),
{
}

/// A token that was received for a user is handed out to that user again exactly at the times at
/// which the seconds of its life are not over and at least one of them is left; at all others a
/// new one is fetched.
pub proof fn law_token_is_reused_to_its_last_second(
    client: KeycloakView,
    realm: Seq<char>,
    client_id: Seq<char>,
    username: Seq<char>,
    password: Seq<char>,
    response: TokenResponse,
    received: UtcTime,
    fallback: UtcTime,
    cleanup: UtcTime,
    now: UtcTime,
)
    requires
        received.secs + response.expires_in <= crate::time::MAX_SECS,
        received.nanos < 1_000_000_000,
        cleanup.nanos < 1_000_000_000,
        now.nanos < 1_000_000_000,
    ensures
        ({
            let key = realm + seq![':'] + client_id + seq![':'] + username + seq![':'] + password;
            let end = received.secs + response.expires_in;
            let alive = end > cleanup.secs || end == cleanup.secs && received.nanos > cleanup.nanos;
            let lasts = end > now.secs + 1 || end == now.secs + 1 && received.nanos >= now.nanos;
            client.stored(key, response, received, fallback) matches Some(holder) && {
                let decision = holder.cleaned(cleanup).decide(
                    realm,
                    client_id,
                    username,
                    password,
                    now,
                );
                &&& alive && lasts ==> decision == TokenDecisionView::Cached(response.access_token@)
                &&& !(alive && lasts) ==> decision is Fetch
            }
        }),
{
}

/// A request for a token is posted to the token endpoint of the realm at the client's server. It
/// has four fields: that the grant is by password, the client, the user name and the password,
/// each of them whole. Its answer will be held under the key of the user.
pub proof fn law_request_carries_the_credentials(
    client: KeycloakView,
    realm: Seq<char>,
    client_id: Seq<char>,
    username: Seq<char>,
    password: Seq<char>,
    now: UtcTime,
)
    ensures
        client.decide(realm, client_id, username, password, now) matches TokenDecisionView::Fetch(
            fetch,
        ) ==> {
            &&& fetch.url == client.url + "/realms/"@ + realm + "/protocol/openid-connect/token"@
            &&& fetch.form.len() == 4
            &&& fetch.form[0] == ("grant_type"@, "password"@)
            &&& fetch.form[1] == ("client_id"@, client_id)
            &&& fetch.form[2] == ("username"@, username)
            &&& fetch.form[3] == ("password"@, password)
            &&& fetch.key == realm + seq![':'] + client_id + seq![':'] + username + seq![':']
                + password
        },
{
}

/// Requests for tokens of users that differ in client, user name or password carry different
/// forms; those of the same server for different realms go to different places.
pub proof fn law_requests_tell_users_apart(
    client: KeycloakView,
    realm1: Seq<char>,
    client_id1: Seq<char>,
    username1: Seq<char>,
    password1: Seq<char>,
    realm2: Seq<char>,
    client_id2: Seq<char>,
    username2: Seq<char>,
    password2: Seq<char>,
    now: UtcTime,
)
    ensures
        match (
            client.decide(realm1, client_id1, username1, password1, now),
            client.decide(realm2, client_id2, username2, password2, now),
        ) {
            (TokenDecisionView::Fetch(fetch1), TokenDecisionView::Fetch(fetch2)) => {
                &&& fetch1.form == fetch2.form ==> client_id1 == client_id2 && username1
                    == username2 && password1 == password2
                &&& fetch1.url == fetch2.url ==> realm1 == realm2
            },
            _ => true,
        },
{
    if let (TokenDecisionView::Fetch(fetch1), TokenDecisionView::Fetch(fetch2)) = (
        client.decide(realm1, client_id1, username1, password1, now),
        client.decide(realm2, client_id2, username2, password2, now),
    ) {
        assert(fetch1.form[1].1 == client_id1 && fetch2.form[1].1 == client_id2);
        assert(fetch1.form[2].1 == username1 && fetch2.form[2].1 == username2);
        assert(fetch1.form[3].1 == password1 && fetch2.form[3].1 == password2);
        let start = (client.url + "/realms/"@).len() as int;
        let end = "/protocol/openid-connect/token"@.len() as int;
        assert(realm1 =~= fetch1.url.subrange(start, fetch1.url.len() - end));
        assert(realm2 =~= fetch2.url.subrange(start, fetch2.url.len() - end));
    }
}

/// What is said of the text of a client, a request or a decision is said of all its parts.
pub proof fn law_texts_of_tokens_are_whole(
    client: KeycloakClient,
    fetch: TokenFetch,
    decision: TokenDecision,
    i: int,
)
    ensures
        client@.url == client.url@,
        client@.tokens == client.cached_tokens@,
        fetch@.key == fetch.key.0@,
        fetch@.url == fetch.url@,
        fetch@.form.len() == fetch.form@.len(),
        0 <= i < fetch.form@.len() ==> fetch@.form[i] == (fetch.form@[i].0@, fetch.form@[i].1@),
        match decision {
            TokenDecision::Cached(token) => decision@ == TokenDecisionView::Cached(token@),
            TokenDecision::Fetch(request) => decision@ == TokenDecisionView::Fetch(request@),
        },
{
}

/// The key that is made for a user is the realm, the client, the user name and the password, each
/// of them whole, joined with colons; a client that is made has no token.
pub proof fn law_made_keys_and_clients(
    client: &KeycloakClient,
    realm: &str,
    client_id: &str,
    username: &str,
    password: &str,
    key: Key,
    url: &str,
    made: KeycloakClient,
    held: Seq<char>,
)
    requires
        call_ensures(
            KeycloakClient::make_key,
            (client, realm, client_id, username, password),
            key,
        ),
        call_ensures(KeycloakClient::new, (url,), made),
    ensures
        key.0@ == realm@ + seq![':'] + client_id@ + seq![':'] + username@ + seq![':'] + password@,
        made.url@ == url@,
        !made.cached_tokens@.contains_key(held),
{
}

/// The cache tells what is under a key, and whether it holds anything at all.
pub proof fn law_cache_tells_what_it_holds(
    cache: &TokenCache,
    key: &Key,
    found: Option<&CachedToken>,
    contained: bool,
    empty: bool,
    n: usize,
)
    requires
        call_ensures(TokenCache::get, (cache, key), found),
        call_ensures(TokenCache::contains_key, (cache, key), contained),
        call_ensures(TokenCache::is_empty, (cache,), empty),
        call_ensures(TokenCache::len, (cache,), n),
    ensures
        contained <==> cache@.contains_key(key.0@),
        match found {
            Some(cached) => cache@.contains_key(key.0@) && *cached == cache@[key.0@],
            None => !cache@.contains_key(key.0@),
        },
        contained ==> !empty,
        empty <==> n == 0,
{
    if n == 0 {
        assert(cache@ =~= Map::empty());
    }
}

/// Asking for the token of a user drops exactly the tokens that have expired, and hands out the one
/// that is held under the key of the user, whole, exactly where it has not expired and lasts a
/// second. Otherwise it asks for one at the realm's token endpoint of the server, with the client,
/// the user name and the password as they were given.
pub proof fn law_token_is_handed_out_or_asked_for(
    client: &mut KeycloakClient,
    realm: &str,
    client_id: &str,
    username: &str,
    password: &str,
    cleanup: &UtcTime,
    now: &UtcTime,
    decision: TokenDecision,
    other: Seq<char>,
)
    requires
        call_ensures(
            KeycloakClient::get_token_at,
            (client, realm, client_id, username, password, cleanup, now),
            decision,
        ),
    ensures
        ({
            let tokens = old(client).cached_tokens@;
            let key = realm@ + seq![':'] + client_id@ + seq![':'] + username@ + seq![':']
                + password@;
            let usable = tokens.contains_key(key) && tokens[key].valid_until.is_after_spec(*cleanup)
                && tokens[key].valid_until.at_least_a_second_after(*now);
            match decision {
                TokenDecision::Cached(token) => usable && token@ == tokens[key].token@,
                TokenDecision::Fetch(fetch) => {
                    &&& !usable
                    &&& fetch.key.0@ == key
                    &&& fetch.url@ == old(client).url@ + "/realms/"@ + realm@
                        + "/protocol/openid-connect/token"@
                    &&& fetch.form@.len() == 4
                    &&& fetch.form@[0].0@ == "grant_type"@ && fetch.form@[0].1@ == "password"@
                    &&& fetch.form@[1].0@ == "client_id"@ && fetch.form@[1].1@ == client_id@
                    &&& fetch.form@[2].0@ == "username"@ && fetch.form@[2].1@ == username@
                    &&& fetch.form@[3].0@ == "password"@ && fetch.form@[3].1@ == password@
                },
            }
        }),
        final(client).url@ == old(client).url@,
        final(client).cached_tokens@.contains_key(other) <==> old(
            client,
        ).cached_tokens@.contains_key(other) && old(
            client,
        ).cached_tokens@[other].valid_until.is_after_spec(*cleanup),
        final(client).cached_tokens@.contains_key(other) ==> final(client).cached_tokens@[other]
            == old(client).cached_tokens@[other],
{
    let key = token_key(realm@, client_id@, username@, password@);
    law_cleanup_keeps_what_has_not_expired(old(client)@, *cleanup, key);
    law_cleanup_keeps_what_has_not_expired(old(client)@, *cleanup, other);
    if let TokenDecision::Fetch(fetch) = decision {
        let expected = token_fetch(old(client).url@, realm@, client_id@, username@, password@);
        assert(fetch@ == expected);
        assert(fetch@.form.len() == fetch.form@.len());
        assert(fetch@.form[0] == (fetch.form@[0].0@, fetch.form@[0].1@));
        assert(fetch@.form[1] == (fetch.form@[1].0@, fetch.form@[1].1@));
        assert(fetch@.form[2] == (fetch.form@[2].0@, fetch.form@[2].1@));
        assert(fetch@.form[3] == (fetch.form@[3].0@, fetch.form@[3].1@));
    }
}

/// Taking in an answer hands its token back, and holds it under the given key until the end of its
/// life, counted from its receipt, or for an hour where that end lies past the last second of all
/// dates. Where that lies past it too, there is no token, and nothing is held. Every other token
/// stays as it was.
pub proof fn law_answer_is_taken_in(
    client: &mut KeycloakClient,
    key: &Key,
    response: &TokenResponse,
    now: &UtcTime,
    fallback: &UtcTime,
    token: Option<String>,
    other: Seq<char>,
)
    requires
        call_ensures(KeycloakClient::store_token_at, (client, key, response, now, fallback), token),
    ensures
        ({
            let before = old(client).cached_tokens@;
            let after = final(client).cached_tokens@;
            let last = crate::time::MAX_SECS;
            let until = after[key.0@].valid_until;
            &&& final(client).url@ == old(client).url@
            &&& other != key.0@ || token is None ==> after.contains_key(other)
                == before.contains_key(other) && after[other] == before[other]
            &&& token is None <==> now.secs + response.expires_in > last && fallback.secs + 3600
                > last
            &&& token matches Some(text) ==> {
                &&& text@ == response.access_token@
                &&& after.contains_key(key.0@)
                &&& after[key.0@].token@ == response.access_token@
                &&& if now.secs + response.expires_in <= last {
                    until.secs == now.secs + response.expires_in && until.nanos == now.nanos
                } else {
                    until.secs == fallback.secs + 3600 && until.nanos == fallback.nanos
                }
            }
        }),
{
}

/// The end of the life of a token lies as many seconds after its receipt as it lives, or an hour
/// from `fallback` where that is past the last second of all dates, or nowhere where both are.
pub proof fn law_end_of_life_is_counted_in_seconds(
    expires_in: u32,
    now: &UtcTime,
    fallback: &UtcTime,
    at: Option<UtcTime>,
)
    requires
        call_ensures(expiry, (expires_in, now, fallback), at),
    ensures
        ({
            let last = crate::time::MAX_SECS;
            match at {
                Some(t) => if now.secs + expires_in <= last {
                    t.secs == now.secs + expires_in && t.nanos == now.nanos
                } else {
                    t.secs == fallback.secs + 3600 && t.nanos == fallback.nanos
                },
                None => now.secs + expires_in > last && fallback.secs + 3600 > last,
            }
        }),
{
}

/// Asking for a token, or taking one in, at the time of the clock is doing so at times that the
/// clock may show; and so is dropping the tokens that have expired.
pub proof fn law_clock_is_held_against_the_tokens(
    asked: &mut KeycloakClient,
    realm: &str,
    client_id: &str,
    username: &str,
    password: &str,
    decision: TokenDecision,
    told: &mut KeycloakClient,
    key: &Key,
    response: &TokenResponse,
    token: Option<String>,
    cleaned: &mut KeycloakClient,
)
    requires
        call_ensures(
            KeycloakClient::get_token,
            (asked, realm, client_id, username, password),
            decision,
        ),
        call_ensures(KeycloakClient::store_token, (told, key, response), token),
        call_ensures(KeycloakClient::cleanup_expired_tokens, (cleaned,), ()),
    ensures
        exists|cleanup: UtcTime, now: UtcTime| #[trigger]
            cleanup.is_reading() && #[trigger] now.is_reading() && final(asked)@ == old(
                asked,
            )@.cleaned(cleanup) && decision@ == old(asked)@.cleaned(cleanup).decide(
                realm@,
                client_id@,
                username@,
                password@,
                now,
            ),
        exists|now: UtcTime, fallback: UtcTime| #[trigger]
            now.is_reading() && #[trigger] fallback.is_reading() && match old(told)@.stored(
                key.0@,
                *response,
                now,
                fallback,
            ) {
                Some(holder) => final(told)@ == holder && token == Some(response.access_token),
                None => final(told)@ == old(told)@ && token is None,
            },
        exists|now: UtcTime| #[trigger]
            now.is_reading() && final(cleaned)@ == old(cleaned)@.cleaned(now),
{
}

/// Putting a token into the cache leaves what is under other keys alone, and dropping what has
/// expired keeps each token exactly where it expires after the given time.
pub proof fn law_cache_is_changed_by_key_and_time(
    filled: &mut TokenCache,
    key: Key,
    cached: CachedToken,
    retained: &mut TokenCache,
    cleaned: &mut KeycloakClient,
    now: &UtcTime,
    other: Seq<char>,
)
    requires
        call_ensures(TokenCache::insert, (filled, key, cached), ()),
        call_ensures(TokenCache::retain_unexpired, (retained, now), ()),
        call_ensures(KeycloakClient::cleanup_expired_at, (cleaned, now), ()),
    ensures
        final(filled)@.contains_key(key.0@) && final(filled)@[key.0@] == cached,
        other != key.0@ ==> final(filled)@.contains_key(other) == old(filled)@.contains_key(other)
            && final(filled)@[other] == old(filled)@[other],
        final(retained)@.contains_key(other) <==> old(retained)@.contains_key(other) && old(
            retained,
        )@[other].valid_until.is_after_spec(*now),
        final(retained)@.contains_key(other) ==> final(retained)@[other] == old(retained)@[other],
        final(cleaned)@.url == old(cleaned)@.url,
        final(cleaned)@.tokens.contains_key(other) <==> old(cleaned)@.tokens.contains_key(other)
            && old(cleaned)@.tokens[other].valid_until.is_after_spec(*now),
{
}

} // verus!
