//! The relay's bearer token: a cache with an expiry, checked lazily whenever a
//! token is asked for, and refreshed from the identity endpoint.
//!
//! Time is a count of whole seconds on a clock that never runs backwards; the
//! caller reads the clock and passes the instant in.

use crate::error::AuthError;
use crate::json::{
    json_as_i64, json_as_str, json_get, json_member, json_view, parse_json, parsed_json, Json,
};
use crate::model::{PushConfig, PushConfigView};
use crate::views::{optional_view, pairs_view, result_view};
use serde_json::Value;
use vstd::prelude::*;

verus! {

/// What the identity endpoint grants: a token and its lifetime in seconds.
#[derive(Debug, PartialEq, Eq)]
pub struct AuthPushToken {
    pub access_token: String,
    pub expires_in: i32,
}

pub struct AuthPushTokenView {
    pub access_token: Seq<char>,
    pub expires_in: i32,
}

impl View for AuthPushToken {
    type V = AuthPushTokenView;

    open spec fn view(&self) -> AuthPushTokenView {
        AuthPushTokenView { access_token: self.access_token@, expires_in: self.expires_in }
    }
}

/// Half of a token lifetime, rounded towards zero. A token is renewed after
/// half of its lifetime, well before the identity endpoint lets it expire.
pub open spec fn half_life(expires_in: i32) -> int {
    if expires_in >= 0 {
        expires_in / 2
    } else {
        -((-expires_in) / 2)
    }
}

/// Whether a token granted at `now` for `expires_in` seconds gets an expiry
/// that the clock can express.
pub open spec fn representable(now: u64, expires_in: i32) -> bool {
    0 <= now + half_life(expires_in) <= u64::MAX
}

/// The instant up to which a token granted at `now` is used, if the clock can
/// express it.
pub fn expiry(now: u64, expires_in: i32) -> (valid_until: Option<u64>)
    ensures
        valid_until is Some <==> representable(now, expires_in),
        valid_until is Some ==> valid_until->0 == now + half_life(expires_in),
{
    let half: i32 = expires_in / 2;
    if half >= 0 {
        now.checked_add(half as u64)
    } else {
        now.checked_sub((-half) as u64)
    }
}

/// The token and the instant from which it counts as expired.
pub struct TokenCacheView {
    pub access_token: Seq<char>,
    pub valid_until: u64,
}

impl TokenCacheView {
    /// A token is usable strictly before its expiry.
    pub open spec fn is_valid(self, now: u64) -> bool {
        self.valid_until > now
    }

    /// The cached token, if it is usable at `now`.
    pub open spec fn valid_token(self, now: u64) -> Option<Seq<char>> {
        if self.is_valid(now) {
            Some(self.access_token)
        } else {
            None
        }
    }

    /// The cache after a token granted at `now` has been put in.
    pub open spec fn installed(self, now: u64, grant: AuthPushTokenView) -> TokenCacheView {
        TokenCacheView {
            access_token: grant.access_token,
            valid_until: (now + half_life(grant.expires_in)) as u64,
        }
    }

    /// What a refresh that ended in `grant` returns, and the cache it leaves.
    /// A failed refresh leaves the cache as it was.
    pub open spec fn accepted(
        self,
        now: u64,
        grant: Result<AuthPushTokenView, AuthError>,
    ) -> (Result<Seq<char>, AuthError>, TokenCacheView) {
        match grant {
            Err(error) => (Err(error), self),
            Ok(granted) => if representable(now, granted.expires_in) {
                (Ok(granted.access_token), self.installed(now, granted))
            } else {
                (Err(AuthError::Lifetime), self)
            },
        }
    }
}

/// The one token that all calls to the relay share. It lives as long as the
/// process and changes only when a refresh succeeds.
#[derive(Debug)]
pub struct TokenCache {
    access_token: String,
    valid_until: u64,
}

impl View for TokenCache {
    type V = TokenCacheView;

    closed spec fn view(&self) -> TokenCacheView {
        TokenCacheView { access_token: self.access_token@, valid_until: self.valid_until }
    }
}

impl TokenCache {
    /// A cache without a token: the first use refreshes it, at whatever
    /// instant that is.
    pub fn new() -> (cache: TokenCache)
        ensures
            cache@ == (TokenCacheView { access_token: Seq::empty(), valid_until: 0 }),
            forall|now: u64| !cache@.is_valid(now),
    {
        TokenCache { access_token: String::new(), valid_until: 0 }
    }

    /// The cached token.
    pub fn access_token(&self) -> (token: &String)
        ensures
            token@ == self@.access_token,
    {
        &self.access_token
    }

    /// The instant from which the cached token counts as expired.
    pub fn valid_until(&self) -> (instant: u64)
        ensures
            instant == self@.valid_until,
    {
        self.valid_until
    }

    /// The cached token if it is usable at `now`, `None` if it has expired.
    pub fn get_valid_token(&self, now: u64) -> (token: Option<String>)
        ensures
            optional_view(token) == self@.valid_token(now),
    {
        if self.valid_until > now {
            Some(self.access_token.clone())
        } else {
            None
        }
    }

    /// Puts a token granted at `now` into the cache and returns it. The token
    /// is used for half of the lifetime it was granted for.
    pub fn install(&mut self, now: u64, grant: AuthPushToken) -> (token: String)
        requires
            representable(now, grant.expires_in),
        ensures
            final(self)@ == old(self)@.installed(now, grant@),
            token@ == grant.access_token@,
    {
        let valid_until = expiry(now, grant.expires_in);
        self.valid_until = valid_until.unwrap();
        self.access_token = grant.access_token;
        self.access_token.clone()
    }

    /// Ends a refresh that was answered at `now`: a grant is put into the
    /// cache and its token returned; a failure is handed on and the cache
    /// keeps what it had.
    pub fn accept(
        &mut self,
        now: u64,
        grant: Result<AuthPushToken, AuthError>,
    ) -> (token: Result<String, AuthError>)
        ensures
            (result_view(token), final(self)@) == old(self)@.accepted(now, result_view(grant)),
    {
        match grant {
            Err(error) => Err(error),
            Ok(granted) => {
                if expiry(now, granted.expires_in).is_some() {
                    Ok(self.install(now, granted))
                } else {
                    Err(AuthError::Lifetime)
                }
            },
        }
    }
}

/// The client-credentials request that asks the identity endpoint for a token:
/// a POST to `url` whose body is `form`, form-encoded in the order given.
#[derive(Debug, PartialEq, Eq)]
pub struct TokenRequest {
    pub url: String,
    pub form: Vec<(String, String)>,
}

pub struct TokenRequestView {
    pub url: Seq<char>,
    pub form: Seq<(Seq<char>, Seq<char>)>,
}

impl View for TokenRequest {
    type V = TokenRequestView;

    open spec fn view(&self) -> TokenRequestView {
        TokenRequestView { url: self.url@, form: pairs_view(self.form@) }
    }
}

/// The token request of an installation: its id, prefixed, is the client id,
/// and its key the client secret; the scope is fixed.
pub open spec fn spec_token_request(config: PushConfigView) -> TokenRequestView {
    TokenRequestView {
        url: "https://identity.bitwarden.com/connect/token"@,
        form: seq![
            ("grant_type"@, "client_credentials"@),
            ("scope"@, "api.push"@),
            ("client_id"@, "installation."@ + config.push_installation_id),
            ("client_secret"@, config.push_installation_key),
        ],
    }
}

/// Builds the request that asks the identity endpoint for a token.
pub fn token_request(config: &PushConfig) -> (request: TokenRequest)
    ensures
        request@ == spec_token_request(config@),
{
    let client_id = "installation.".to_owned().concat(config.push_installation_id.as_str());
    let form = vec![
        ("grant_type".to_owned(), "client_credentials".to_owned()),
        ("scope".to_owned(), "api.push".to_owned()),
        ("client_id".to_owned(), client_id),
        ("client_secret".to_owned(), config.push_installation_key.clone()),
    ];
    proof {
        assert(pairs_view(form@) =~= spec_token_request(config@).form);
    }
    TokenRequest { url: "https://identity.bitwarden.com/connect/token".to_owned(), form }
}

/// How asking for a token goes on.
#[derive(Debug, PartialEq, Eq)]
pub enum TokenStep {
    /// The cached token is usable: no request is made.
    Ready(String),
    /// The cached token has expired: this request fetches the next one.
    Refresh(TokenRequest),
}

pub enum TokenStepView {
    Ready(Seq<char>),
    Refresh(TokenRequestView),
}

impl View for TokenStep {
    type V = TokenStepView;

    open spec fn view(&self) -> TokenStepView {
        match self {
            TokenStep::Ready(token) => TokenStepView::Ready(token@),
            TokenStep::Refresh(request) => TokenStepView::Refresh(request@),
        }
    }
}

/// A usable token is returned as it is cached; an expired one is refreshed.
pub open spec fn spec_get_auth_push_token(
    cache: TokenCacheView,
    config: PushConfigView,
    now: u64,
) -> TokenStepView {
    match cache.valid_token(now) {
        Some(token) => TokenStepView::Ready(token),
        None => TokenStepView::Refresh(spec_token_request(config)),
    }
}

/// Asks for a bearer token at `now`: the cached one while it is usable,
/// without any request; else the request that refreshes it, whose answer goes
/// to [`TokenCache::refresh`].
pub fn get_auth_push_token(cache: &TokenCache, config: &PushConfig, now: u64) -> (step: TokenStep)
    ensures
        step@ == spec_get_auth_push_token(cache@, config@, now),
        cache@.is_valid(now) ==> step@ == TokenStepView::Ready(cache@.access_token),
        !cache@.is_valid(now) ==> step is Refresh,
{
    match cache.get_valid_token(now) {
        Some(token) => TokenStep::Ready(token),
        None => TokenStep::Refresh(token_request(config)),
    }
}

/// How the identity endpoint answered a token request.
#[derive(Debug, PartialEq, Eq)]
pub enum IdentityReply {
    /// The request did not get through.
    Unreachable,
    /// The body of the response, whatever its status.
    Body(String),
}

pub enum IdentityReplyView {
    Unreachable,
    Body(Seq<char>),
}

impl View for IdentityReply {
    type V = IdentityReplyView;

    open spec fn view(&self) -> IdentityReplyView {
        match self {
            IdentityReply::Unreachable => IdentityReplyView::Unreachable,
            IdentityReply::Body(text) => IdentityReplyView::Body(text@),
        }
    }
}

/// The grant that a JSON document holds: it must be an object with a string
/// under `access_token` and an integer that fits 32 bits under `expires_in`.
/// Other members are ignored.
pub open spec fn token_of_json(doc: Json) -> Option<AuthPushTokenView> {
    match (json_member(doc, "access_token"@), json_member(doc, "expires_in"@)) {
        (Some(Json::Str(token)), Some(Json::Int(lifetime))) => {
            if i32::MIN <= lifetime <= i32::MAX {
                Some(AuthPushTokenView { access_token: token, expires_in: lifetime as i32 })
            } else {
                None
            }
        },
        _ => None,
    }
}

/// Reads a grant out of a parsed response.
pub fn token_from_json(doc: &Value) -> (grant: Option<AuthPushToken>)
    ensures
        optional_view(grant) == token_of_json(json_view(*doc)),
{
    let token = match json_get(doc, "access_token") {
        Some(member) => match json_as_str(member) {
            Some(text) => text,
            None => {
                return None;
            },
        },
        None => {
            return None;
        },
    };
    let lifetime = match json_get(doc, "expires_in") {
        Some(member) => match json_as_i64(member) {
            Some(number) => number,
            None => {
                return None;
            },
        },
        None => {
            return None;
        },
    };
    if lifetime < i32::MIN as i64 || lifetime > i32::MAX as i64 {
        return None;
    }
    Some(AuthPushToken { access_token: token.to_owned(), expires_in: lifetime as i32 })
}

/// The grant, or the failure, that a reply of the identity endpoint amounts
/// to: a body that does not parse, or that holds no grant, is malformed.
pub open spec fn spec_read_grant(reply: IdentityReplyView) -> Result<AuthPushTokenView, AuthError> {
    match reply {
        IdentityReplyView::Unreachable => Err(AuthError::Transport),
        IdentityReplyView::Body(text) => match parsed_json(text) {
            Some(doc) => match token_of_json(doc) {
                Some(grant) => Ok(grant),
                None => Err(AuthError::Malformed),
            },
            None => Err(AuthError::Malformed),
        },
    }
}

/// Decodes a reply of the identity endpoint.
pub fn read_grant(reply: &IdentityReply) -> (grant: Result<AuthPushToken, AuthError>)
    ensures
        result_view(grant) == spec_read_grant(reply@),
{
    match reply {
        IdentityReply::Unreachable => Err(AuthError::Transport),
        IdentityReply::Body(text) => match parse_json(text.as_str()) {
            Ok(doc) => match token_from_json(&doc) {
                Some(grant) => Ok(grant),
                None => Err(AuthError::Malformed),
            },
            Err(_) => Err(AuthError::Malformed),
        },
    }
}

impl TokenCache {
    /// Ends a refresh with the identity endpoint's reply, received at `now`.
    /// On success the new token is cached and returned; on any failure the
    /// cache keeps what it had, so that the next call tries again.
    pub fn refresh(&mut self, now: u64, reply: &IdentityReply) -> (token: Result<String, AuthError>)
        ensures
            (result_view(token), final(self)@) == old(self)@.accepted(
                now,
                spec_read_grant(reply@),
            ),
    {
        self.accept(now, read_grant(reply))
    }
}

/// A refresh that succeeds with a lifetime of at least two seconds leaves a
/// token that is usable at the instant it is returned, and returns that
/// token; a refresh that fails changes nothing.
pub proof fn lemma_refresh_gives_usable_token(
    cache: TokenCacheView,
    now: u64,
    grant: Result<AuthPushTokenView, AuthError>,
)
    requires
        grant is Ok ==> grant->Ok_0.expires_in >= 2,
    ensures
        ({
            let (token, after) = cache.accepted(now, grant);
            &&& token is Ok ==> after.valid_token(now) == Some(token->Ok_0)
            &&& token is Err ==> after == cache
        }),
{
}

/// Two calls that find the cache expired both refresh it, and neither stands
/// in the other's way: whichever answer comes first, each call that is
/// granted a lifetime of at least two seconds returns the token of its own
/// grant, and that token is the cached one and usable at the instant it is
/// returned.
pub proof fn lemma_overlapping_refreshes(
    cache: TokenCacheView,
    config: PushConfigView,
    first_start: u64,
    second_start: u64,
    first_now: u64,
    first: Result<AuthPushTokenView, AuthError>,
    second_now: u64,
    second: Result<AuthPushTokenView, AuthError>,
)
    requires
        !cache.is_valid(first_start),
        !cache.is_valid(second_start),
        first is Ok ==> first->Ok_0.expires_in >= 2,
        second is Ok ==> second->Ok_0.expires_in >= 2,
    ensures
        spec_get_auth_push_token(cache, config, first_start) is Refresh,
        spec_get_auth_push_token(cache, config, second_start) is Refresh,
        ({
            let (first_token, between) = cache.accepted(first_now, first);
            let (second_token, after) = between.accepted(second_now, second);
            &&& first_token is Ok ==> first_token->Ok_0 == first->Ok_0.access_token
                && between.valid_token(first_now) == Some(first_token->Ok_0)
            &&& second_token is Ok ==> second_token->Ok_0 == second->Ok_0.access_token
                && after.valid_token(second_now) == Some(second_token->Ok_0)
            &&& first_token is Ok <==> first is Ok && representable(
                first_now,
                first->Ok_0.expires_in,
            )
            &&& second_token is Ok <==> second is Ok && representable(
                second_now,
                second->Ok_0.expires_in,
            )
        }),
{
}

} // verus!
