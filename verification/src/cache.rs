//! The token that a provider holds between requests.

use vstd::prelude::*;
use vstd::string::*;

use crate::error::{ErrorView, Oauth2Error};

verus! {

/// Nanoseconds in a second.
pub const NANOS_PER_SEC: u128 = 1_000_000_000;

/// Refresh margin in nanoseconds: a cached token is re-fetched this long before
/// expiry so deliveries never attempt AUTH with a token that expires
/// mid-session.
pub const CACHE_SKEW: u128 = 60_000_000_000;

/// Seconds that a token is taken to live when the endpoint does not say.
pub const DEFAULT_EXPIRES_IN: u64 = 3600;

/// The last point in time that the clock can show. Points in time are given as
/// nanoseconds since some fixed moment, as many as a `std::time::Duration` can
/// hold.
pub const CLOCK_END: u128 = 18_446_744_073_709_551_615_999_999_999;

/// What a token endpoint grants.
pub struct TokenResponse {
    pub access_token: String,
    /// Seconds that the token is valid for.
    pub expires_in: Option<u64>,
    /// The refresh token to use from now on, where the endpoint rotates it.
    pub refresh_token: Option<String>,
}

/// A grant as contracts speak of it.
#[verifier::ext_equal]
pub struct ResponseView {
    pub access_token: Seq<char>,
    pub expires_in: Option<u64>,
    pub refresh_token: Option<Seq<char>>,
}

impl View for TokenResponse {
    type V = ResponseView;

    open spec fn view(&self) -> ResponseView {
        ResponseView {
            access_token: self.access_token@,
            expires_in: self.expires_in,
            refresh_token: self.refresh_token.deep_view(),
        }
    }
}

/// The token that a provider holds between requests.
#[derive(Default)]
pub struct TokenCache {
    pub token: Option<String>,
    /// When the token expires, in nanoseconds of the clock.
    pub expires_at: Option<u128>,
    /// The current refresh token: token endpoints may rotate it on each use.
    pub refresh_token: Option<String>,
}

/// A cache as contracts speak of it.
#[verifier::ext_equal]
pub struct CacheView {
    pub token: Option<Seq<char>>,
    pub expires_at: Option<int>,
    pub refresh_token: Option<Seq<char>>,
}

impl View for TokenCache {
    type V = CacheView;

    open spec fn view(&self) -> CacheView {
        CacheView {
            token: self.token.deep_view(),
            expires_at: match self.expires_at {
                Some(expires_at) => Some(expires_at as int),
                None => None,
            },
            refresh_token: self.refresh_token.deep_view(),
        }
    }
}

/// A token and its expiry are held together or not at all.
pub open spec fn cache_well_formed(cache: CacheView) -> bool {
    cache.token is Some <==> cache.expires_at is Some
}

/// The cache of a provider that has not made a request yet.
pub open spec fn empty_cache(refresh_token: Option<Seq<char>>) -> CacheView {
    CacheView { token: None, expires_at: None, refresh_token }
}

/// The token that can be used without a request: one whose expiry is more than
/// the refresh margin away.
pub open spec fn fresh_token(cache: CacheView, now: int) -> Option<Seq<char>> {
    match (cache.token, cache.expires_at) {
        (Some(token), Some(expires_at)) => if expires_at > now + CACHE_SKEW {
            Some(token)
        } else {
            None
        },
        _ => None,
    }
}

/// When a token granted now expires.
pub open spec fn expiry(expires_in: Option<u64>, now: int) -> int {
    now + expires_in.unwrap_or(DEFAULT_EXPIRES_IN) * NANOS_PER_SEC
}

/// The cache once a grant is stored: the refresh token stays as it is unless
/// the endpoint rotates it.
pub open spec fn stored(cache: CacheView, response: ResponseView, now: int) -> CacheView {
    CacheView {
        token: Some(response.access_token),
        expires_at: Some(expiry(response.expires_in, now)),
        refresh_token: match response.refresh_token {
            Some(rotated) => Some(rotated),
            None => cache.refresh_token,
        },
    }
}

/// The answer that a cache gives after a request.
pub open spec fn held_token(cache: CacheView) -> Result<Seq<char>, ErrorView> {
    match cache.token {
        Some(token) => Ok(token),
        None => Err(ErrorView::Permanent("token endpoint returned no access token"@)),
    }
}

/// An answer as contracts speak of it.
pub open spec fn answer_view(answer: Result<String, Oauth2Error>) -> Result<Seq<char>, ErrorView> {
    match answer {
        Ok(token) => Ok(token@),
        Err(err) => Err(err@),
    }
}

impl TokenCache {
    /// Returns the cached token while its expiry is more than the refresh
    /// margin away.
    pub fn fresh(&self, now: u128) -> (token: Option<String>)
        ensures
            token.deep_view() == fresh_token(self@, now as int),
            token is Some <==> self.token is Some && self.expires_at is Some
                && self.expires_at->0 > now + 60_000_000_000,
            token is Some ==> token->0@ == self.token->0@,
    {
        match (&self.token, self.expires_at) {
            (Some(token), Some(expires_at)) => {
                if expires_at > CACHE_SKEW && expires_at - CACHE_SKEW > now {
                    Some(token.clone())
                } else {
                    None
                }
            },
            _ => None,
        }
    }

    /// Stores a grant.
    pub fn store(&mut self, response: TokenResponse, now: u128)
        requires
            expiry(response@.expires_in, now as int) <= CLOCK_END,
        ensures
            final(self)@ == stored(old(self)@, response@, now as int),
            final(self).token is Some && final(self).token->0@ == response.access_token@,
            final(self).expires_at is Some,
            response.expires_in matches Some(secs) ==> final(self).expires_at->0 == now + secs
                * 1_000_000_000,
            response.expires_in is None ==> final(self).expires_at->0 == now + 3600
                * 1_000_000_000,
            response.refresh_token is Some ==> final(self).refresh_token.deep_view()
                == response.refresh_token.deep_view(),
            response.refresh_token is None ==> final(self).refresh_token.deep_view() == old(
                self,
            ).refresh_token.deep_view(),
            cache_well_formed(final(self)@),
    {
        let lifetime: u64 = match response.expires_in {
            Some(secs) => secs,
            None => DEFAULT_EXPIRES_IN,
        };
        self.token = Some(response.access_token);
        self.expires_at = Some(now + lifetime as u128 * NANOS_PER_SEC);
        if let Some(refresh_token) = response.refresh_token {
            self.refresh_token = Some(refresh_token);
        }
    }

    /// Returns the token that the last request has left.
    pub fn held(&self) -> (answer: Result<String, Oauth2Error>)
        ensures
            answer_view(answer) == held_token(self@),
            match self.token {
                Some(token) => answer is Ok && answer->Ok_0@ == token@,
                None => answer is Err && answer->Err_0@ == ErrorView::Permanent(
                    "token endpoint returned no access token"@,
                ),
            },
    {
        match &self.token {
            Some(token) => Ok(token.clone()),
            None => Err(
                Oauth2Error::Permanent("token endpoint returned no access token".to_owned()),
            ),
        }
    }
}

/// Contracts see all that a grant says.
pub proof fn law_response_view_is_faithful(response: TokenResponse)
    ensures
        response@.access_token == response.access_token@,
        response@.expires_in == response.expires_in,
        response@.refresh_token == response.refresh_token.deep_view(),
{
}

/// Contracts see all that a cache holds.
pub proof fn law_cache_view_is_faithful(cache: TokenCache)
    ensures
        cache@.token == cache.token.deep_view(),
        cache@.expires_at is Some <==> cache.expires_at is Some,
        cache.expires_at is Some ==> cache@.expires_at->0 == cache.expires_at->0,
        cache@.refresh_token == cache.refresh_token.deep_view(),
{
}

/// Contracts see the token or the error of an answer.
pub proof fn law_answer_view_is_faithful(answer: Result<String, Oauth2Error>)
    ensures
        match answer {
            Ok(token) => answer_view(answer) == Ok::<Seq<char>, ErrorView>(token@),
            Err(Oauth2Error::Temporary(msg)) => answer_view(answer) == Err::<Seq<char>, ErrorView>(
                ErrorView::Temporary(msg@),
            ),
            Err(Oauth2Error::Permanent(msg)) => answer_view(answer) == Err::<Seq<char>, ErrorView>(
                ErrorView::Permanent(msg@),
            ),
        },
{
}

/// A token granted for some seconds expires that many seconds later, to the
/// nanosecond; one granted without a lifetime expires an hour later.
pub proof fn law_expiry_is_grant_time_plus_lifetime(secs: u64, now: int)
    ensures
        expiry(Some(secs), now) == now + secs * 1_000_000_000,
        expiry(None, now) == now + 3600 * 1_000_000_000,
{
}

/// Storing a grant puts its token and the expiry into the cache, replaces the
/// refresh token where the grant has one, and keeps it where it has none.
pub proof fn law_stored_grant(
    cache: CacheView,
    token: Seq<char>,
    secs: u64,
    rotated: Seq<char>,
    now: int,
)
    ensures
        stored(
            cache,
            ResponseView { access_token: token, expires_in: Some(secs), refresh_token: None },
            now,
        ) == (CacheView {
            token: Some(token),
            expires_at: Some(now + secs * 1_000_000_000),
            refresh_token: cache.refresh_token,
        }),
        stored(
            cache,
            ResponseView {
                access_token: token,
                expires_in: Some(secs),
                refresh_token: Some(rotated),
            },
            now,
        ) == (CacheView {
            token: Some(token),
            expires_at: Some(now + secs * 1_000_000_000),
            refresh_token: Some(rotated),
        }),
        stored(
            cache,
            ResponseView { access_token: token, expires_in: None, refresh_token: None },
            now,
        ) == (CacheView {
            token: Some(token),
            expires_at: Some(now + 3600 * 1_000_000_000),
            refresh_token: cache.refresh_token,
        }),
        stored(
            cache,
            ResponseView { access_token: token, expires_in: None, refresh_token: Some(rotated) },
            now,
        ) == (CacheView {
            token: Some(token),
            expires_at: Some(now + 3600 * 1_000_000_000),
            refresh_token: Some(rotated),
        }),
{
}

/// A cached token is fresh exactly while its expiry is more than sixty seconds
/// away.
pub proof fn law_token_is_fresh_outside_margin(cache: CacheView, now: int)
    ensures
        fresh_token(cache, now) is Some <==> cache.token is Some && cache.expires_at is Some
            && cache.expires_at->0 > now + 60_000_000_000,
        fresh_token(cache, now) is Some ==> fresh_token(cache, now) == cache.token,
{
}

/// The clock shows whole nanoseconds up to the last one of the last second that
/// a `u64` can count.
pub proof fn law_clock_end()
    ensures
        CLOCK_END == u64::MAX * 1_000_000_000 + 999_999_999,
{
}

} // verus!
