//! The token provider of a relay route.
//!
//! A provider decides; whoever drives it talks to the token endpoint. Each call
//! of [`OutboundOauth2::access_token`] or [`OutboundOauth2::fetch`] returns a
//! [`TokenStep`], which either ends the request for a token or says what to do
//! next and so which [`FetchEvent`] to report.

use vstd::prelude::*;
use vstd::string::*;
use vstd::utf8::*;

use crate::cache;
use crate::cache::{CacheView, ResponseView, TokenCache, TokenResponse};
use crate::config::{ConfigView, Oauth2Config};
use crate::debug;
use crate::error::{ErrorView, Oauth2Error};
use crate::form;
use crate::form::FormField;
use crate::percent;
use crate::status;

verus! {

/// Seconds after which a request to the token endpoint is given up.
pub const TOKEN_REQUEST_TIMEOUT: u64 = 10;

/// What to do next on the way to an access token.
pub enum TokenStep {
    /// Nothing: this is the answer.
    Done(Result<String, Oauth2Error>),
    /// Post the form to the token endpoint, and report
    /// [`FetchEvent::Response`] or [`FetchEvent::Unreachable`].
    Post { url: String, body: String },
    /// Decode the text as JSON, and report [`FetchEvent::Decoded`] or
    /// [`FetchEvent::Undecodable`].
    Decode { text: String },
}

/// A step as contracts speak of it.
#[verifier::ext_equal]
pub enum StepView {
    Done(Result<Seq<char>, ErrorView>),
    Post { url: Seq<char>, body: Seq<char> },
    Decode { text: Seq<char> },
}

impl View for TokenStep {
    type V = StepView;

    open spec fn view(&self) -> StepView {
        match self {
            TokenStep::Done(answer) => StepView::Done(cache::answer_view(*answer)),
            TokenStep::Post { url, body } => StepView::Post { url: url@, body: body@ },
            TokenStep::Decode { text } => StepView::Decode { text: text@ },
        }
    }
}

/// What came of a step.
pub enum FetchEvent {
    /// The request failed, for the given reason.
    Unreachable(String),
    /// The endpoint replied; the body is missing when it could not be read.
    Response { status: u16, body: Option<String> },
    /// The text is a grant.
    Decoded(TokenResponse),
    /// The text is no grant, for the given reason.
    Undecodable(String),
}

/// An event as contracts speak of it.
#[verifier::ext_equal]
pub enum EventView {
    Unreachable(Seq<char>),
    Response { status: u16, body: Option<Seq<char>> },
    Decoded(ResponseView),
    Undecodable(Seq<char>),
}

impl View for FetchEvent {
    type V = EventView;

    open spec fn view(&self) -> EventView {
        match self {
            FetchEvent::Unreachable(reason) => EventView::Unreachable(reason@),
            FetchEvent::Response { status, body } => EventView::Response {
                status: *status,
                body: body.deep_view(),
            },
            FetchEvent::Decoded(response) => EventView::Decoded(response@),
            FetchEvent::Undecodable(reason) => EventView::Undecodable(reason@),
        }
    }
}

/// A configuration that a provider can work with: it has a static token or a
/// token endpoint.
pub open spec fn is_usable(config: ConfigView) -> bool {
    config.token is Some || config.token_url is Some
}

/// The refresh token to present: the one that the endpoint gave last, else the
/// configured one.
pub open spec fn current_refresh_token(config: ConfigView, cache: CacheView) -> Option<Seq<char>> {
    match cache.refresh_token {
        Some(token) => Some(token),
        None => config.refresh_token,
    }
}

/// The form field of a setting that may be absent.
pub open spec fn optional_field(name: Seq<char>, value: Option<Seq<char>>) -> Seq<FormField> {
    match value {
        Some(value) => seq![FormField { name, value }],
        None => seq![],
    }
}

/// The fields of a `refresh_token` grant.
pub open spec fn refresh_fields(config: ConfigView, refresh_token: Seq<char>) -> Seq<FormField> {
    seq![
        FormField { name: "grant_type"@, value: "refresh_token"@ },
        FormField { name: "refresh_token"@, value: refresh_token },
    ] + optional_field("client_id"@, config.client_id) + optional_field(
        "client_secret"@,
        config.client_secret,
    ) + optional_field("scope"@, config.scope)
}

/// The fields of a `client_credentials` grant.
pub open spec fn credentials_fields(
    client_id: Seq<char>,
    client_secret: Seq<char>,
    scope: Option<Seq<char>>,
) -> Seq<FormField> {
    seq![
        FormField { name: "grant_type"@, value: "client_credentials"@ },
        FormField { name: "client_id"@, value: client_id },
        FormField { name: "client_secret"@, value: client_secret },
    ] + optional_field("scope"@, scope)
}

/// The fields of the token request: a refresh token is used where there is one,
/// else client credentials, of which both must be there.
pub open spec fn grant_fields(config: ConfigView, refresh_token: Option<Seq<char>>) -> Option<
    Seq<FormField>,
> {
    match (refresh_token, config.client_id, config.client_secret) {
        (Some(refresh_token), _, _) => Some(refresh_fields(config, refresh_token)),
        (None, Some(client_id), Some(client_secret)) => Some(
            credentials_fields(client_id, client_secret, config.scope),
        ),
        _ => None,
    }
}

/// The first step towards a token.
pub open spec fn access_step(config: ConfigView, cache: CacheView, now: int) -> StepView {
    match (config.token, config.token_url, cache::fresh_token(cache, now)) {
        (Some(token), _, _) => StepView::Done(Ok(token)),
        (None, None, _) => StepView::Done(
            Err(ErrorView::Permanent("no OAuth2 token endpoint configured"@)),
        ),
        (None, Some(_), Some(token)) => StepView::Done(Ok(token)),
        (None, Some(url), None) => match grant_fields(
            config,
            current_refresh_token(config, cache),
        ) {
            Some(fields) => StepView::Post { url, body: form::form_encoded(fields) },
            None => StepView::Done(
                Err(
                    ErrorView::Permanent(
                        "OAuth2 route has neither a refresh token nor client credentials"@,
                    ),
                ),
            ),
        },
    }
}

/// The cache after an event: only a grant changes it.
pub open spec fn fetched_cache(cache: CacheView, event: EventView, now: int) -> CacheView {
    match event {
        EventView::Decoded(response) => cache::stored(cache, response, now),
        _ => cache,
    }
}

/// The step that follows an event.
pub open spec fn fetch_step(event: EventView) -> StepView {
    match event {
        EventView::Unreachable(reason) => StepView::Done(
            Err(ErrorView::Temporary("token endpoint unreachable: "@ + reason)),
        ),
        EventView::Response { status, body } => {
            let text = match body {
                Some(text) => text,
                None => ""@,
            };
            if status::is_success(status) {
                StepView::Decode { text }
            } else {
                StepView::Done(Err(status::refusal(status, status::status_text(status), text)))
            }
        },
        EventView::Decoded(response) => StepView::Done(Ok(response.access_token)),
        EventView::Undecodable(reason) => StepView::Done(
            Err(ErrorView::Temporary("invalid token endpoint response: "@ + reason)),
        ),
    }
}

/// The error that a reply without success ends in gives the number of its
/// status.
pub open spec fn names_refused_status(event: EventView, step: StepView) -> bool {
    match (event, step) {
        (EventView::Response { status: code, .. }, StepView::Done(Err(err))) => (
        status::refusal_lead(code) + status::status_digits(code) + " "@).is_prefix_of(
            err.message(),
        ),
        _ => true,
    }
}

/// Events that can come up: status codes are those of HTTP, and a granted token
/// expires while the clock runs.
pub open spec fn is_possible(event: EventView, now: int) -> bool {
    match event {
        EventView::Response { status, .. } => status::is_status_code(status),
        EventView::Decoded(response) => cache::expiry(response.expires_in, now)
            <= cache::CLOCK_END,
        _ => true,
    }
}

fn push_optional_field(body: &mut String, name: &str, value: &Option<String>)
    ensures
        forall|fields: Seq<FormField>|
            old(body)@ == #[trigger] form::form_encoded(fields) ==> final(body)@
                == form::form_encoded(fields + optional_field(name@, value.deep_view())),
{
    let ghost before = body@;
    if let Some(value) = value {
        form::push_field(body, name, value.as_str());
    }
    proof {
        assert forall|fields: Seq<FormField>| before == #[trigger] form::form_encoded(fields) implies body@
            == form::form_encoded(fields + optional_field(name@, value.deep_view())) by {
            if let Some(value) = value {
                let field = FormField { name: name@, value: value@ };
                form::lemma_form_push(fields, field);
                assert(fields + seq![field] =~= fields.push(field));
            } else {
                assert(fields + Seq::<FormField>::empty() =~= fields);
            }
        }
    }
}

proof fn lemma_optional_field_text(fields: Seq<FormField>, name: Seq<char>, value: Option<Seq<char>>)
    requires
        form::form_encoded(fields).len() > 0,
    ensures
        form::form_encoded(fields + optional_field(name, value)) == form::form_encoded(fields) + (
        match value {
            Some(value) => "&"@ + name + "="@ + percent::percent_encoded(encode_utf8(value)),
            None => Seq::<char>::empty(),
        }),
{
    match value {
        Some(value) => {
            let field = FormField { name, value };
            form::lemma_form_push(fields, field);
            assert(fields + seq![field] =~= fields.push(field));
            assert("&"@ + form::field_text(field) =~= "&"@ + name + "="@ + percent::percent_encoded(
                encode_utf8(value),
            ));
            assert(form::form_encoded(fields) + "&"@ + form::field_text(field)
                =~= form::form_encoded(fields) + ("&"@ + form::field_text(field)));
        },
        None => {
            assert(fields + Seq::<FormField>::empty() =~= fields);
            assert(form::form_encoded(fields) + Seq::<char>::empty() =~= form::form_encoded(fields));
        },
    }
}

proof fn lemma_field_leads()
    ensures
        "&"@ + "client_id"@ + "="@ == "&client_id="@,
        "&"@ + "client_secret"@ + "="@ == "&client_secret="@,
        "&"@ + "scope"@ + "="@ == "&scope="@,
        "&"@.len() == 1,
        "="@.len() == 1,
{
    reveal_strlit("&");
    reveal_strlit("=");
    reveal_strlit("client_id");
    reveal_strlit("client_secret");
    reveal_strlit("scope");
    reveal_strlit("&client_id=");
    reveal_strlit("&client_secret=");
    reveal_strlit("&scope=");
    assert("&"@ + "client_id"@ + "="@ =~= "&client_id="@);
    assert("&"@ + "client_secret"@ + "="@ =~= "&client_secret="@);
    assert("&"@ + "scope"@ + "="@ =~= "&scope="@);
}

/// The text of a `refresh_token` request.
pub(crate) proof fn lemma_refresh_text(config: ConfigView, refresh_token: Seq<char>)
    ensures
        form::form_encoded(refresh_fields(config, refresh_token))
            == "grant_type=refresh_token&refresh_token="@ + percent::percent_encoded(
            encode_utf8(refresh_token),
        ) + (match config.client_id {
            Some(value) => "&client_id="@ + percent::percent_encoded(encode_utf8(value)),
            None => Seq::<char>::empty(),
        }) + (match config.client_secret {
            Some(value) => "&client_secret="@ + percent::percent_encoded(encode_utf8(value)),
            None => Seq::<char>::empty(),
        }) + (match config.scope {
            Some(value) => "&scope="@ + percent::percent_encoded(encode_utf8(value)),
            None => Seq::<char>::empty(),
        }),
{
    let f1 = FormField { name: "grant_type"@, value: "refresh_token"@ };
    let f2 = FormField { name: "refresh_token"@, value: refresh_token };
    let encoded = percent::percent_encoded(encode_utf8(refresh_token));
    let start = "grant_type=refresh_token&refresh_token="@ + encoded;
    assert(form::form_encoded(seq![f1, f2]) == start && start.len() > 0) by {
        reveal_strlit("grant_type");
        reveal_strlit("refresh_token");
        reveal_strlit("=");
        reveal_strlit("&");
        reveal_strlit("grant_type=refresh_token&refresh_token=");
        percent::law_percent_encoding_keeps_unreserved("refresh_token"@);
        assert("grant_type=refresh_token&refresh_token="@ =~= "grant_type"@ + "="@
            + "refresh_token"@ + "&"@ + "refresh_token"@ + "="@);
        form::lemma_form_push(seq![], f1);
        form::lemma_form_push(seq![].push(f1), f2);
        assert(seq![].push(f1).push(f2) =~= seq![f1, f2]);
        assert(form::form_encoded(seq![f1, f2]) =~= start);
    }
    lemma_field_leads();
    let g1 = seq![f1, f2];
    let g2 = g1 + optional_field("client_id"@, config.client_id);
    let g3 = g2 + optional_field("client_secret"@, config.client_secret);
    lemma_optional_field_text(g1, "client_id"@, config.client_id);
    lemma_optional_field_text(g2, "client_secret"@, config.client_secret);
    lemma_optional_field_text(g3, "scope"@, config.scope);
}

/// The text of a `client_credentials` request.
pub(crate) proof fn lemma_credentials_text(
    client_id: Seq<char>,
    client_secret: Seq<char>,
    scope: Option<Seq<char>>,
)
    ensures
        form::form_encoded(credentials_fields(client_id, client_secret, scope))
            == "grant_type=client_credentials&client_id="@ + percent::percent_encoded(
            encode_utf8(client_id),
        ) + "&client_secret="@ + percent::percent_encoded(encode_utf8(client_secret)) + (match scope {
            Some(value) => "&scope="@ + percent::percent_encoded(encode_utf8(value)),
            None => Seq::<char>::empty(),
        }),
{
    let f1 = FormField { name: "grant_type"@, value: "client_credentials"@ };
    let f2 = FormField { name: "client_id"@, value: client_id };
    let f3 = FormField { name: "client_secret"@, value: client_secret };
    let start = "grant_type=client_credentials&client_id="@ + percent::percent_encoded(
        encode_utf8(client_id),
    ) + "&client_secret="@ + percent::percent_encoded(encode_utf8(client_secret));
    assert(form::form_encoded(seq![f1, f2, f3]) == start && start.len() > 0) by {
        reveal_strlit("grant_type");
        reveal_strlit("client_credentials");
        reveal_strlit("client_id");
        reveal_strlit("client_secret");
        reveal_strlit("=");
        reveal_strlit("&");
        reveal_strlit("grant_type=client_credentials&client_id=");
        reveal_strlit("&client_secret=");
        percent::law_percent_encoding_keeps_unreserved("client_credentials"@);
        assert("grant_type=client_credentials&client_id="@ =~= "grant_type"@ + "="@
            + "client_credentials"@ + "&"@ + "client_id"@ + "="@);
        assert("&client_secret="@ =~= "&"@ + "client_secret"@ + "="@);
        form::lemma_form_push(seq![], f1);
        form::lemma_form_push(seq![].push(f1), f2);
        form::lemma_form_push(seq![].push(f1).push(f2), f3);
        assert(seq![].push(f1).push(f2).push(f3) =~= seq![f1, f2, f3]);
        assert(form::form_encoded(seq![f1, f2, f3]) =~= start);
    }
    lemma_field_leads();
    lemma_optional_field_text(seq![f1, f2, f3], "scope"@, scope);
}

/// Writes the form body of a token request, for the refresh token to present,
/// if there is one. There is none to write when there are no client
/// credentials either.
pub fn grant_body(config: &Oauth2Config, refresh_token: Option<&str>) -> (body: Option<String>)
    ensures
        ({
            let presented = match refresh_token {
                Some(token) => Some(token@),
                None => None,
            };
            match grant_fields(config@, presented) {
                Some(fields) => body is Some && body->0@ == form::form_encoded(fields),
                None => body is None,
            }
        }),
        refresh_token matches Some(token) ==> body is Some && body->0@
            == "grant_type=refresh_token&refresh_token="@ + percent::percent_encoded(
            encode_utf8(token@),
        ) + (match config.client_id {
                Some(value) => "&client_id="@ + percent::percent_encoded(encode_utf8(value@)),
                None => Seq::<char>::empty(),
            }) + (match config.client_secret {
                Some(value) => "&client_secret="@ + percent::percent_encoded(encode_utf8(value@)),
                None => Seq::<char>::empty(),
            }) + (match config.scope {
                Some(value) => "&scope="@ + percent::percent_encoded(encode_utf8(value@)),
                None => Seq::<char>::empty(),
            }),
        refresh_token is None && config.client_id is Some && config.client_secret is Some
            ==> body is Some && body->0@ == "grant_type=client_credentials&client_id="@
            + percent::percent_encoded(encode_utf8(config.client_id->0@)) + "&client_secret="@
            + percent::percent_encoded(encode_utf8(config.client_secret->0@)) + (match config.scope {
                Some(value) => "&scope="@ + percent::percent_encoded(encode_utf8(value@)),
                None => Seq::<char>::empty(),
            }),
        refresh_token is None && (config.client_id is None || config.client_secret is None)
            ==> body is None,
{
    proof {
        if let Some(token) = refresh_token {
            lemma_refresh_text(config@, token@);
        }
        if config.client_id is Some && config.client_secret is Some {
            lemma_credentials_text(
                config.client_id->0@,
                config.client_secret->0@,
                config.scope.deep_view(),
            );
        }
    }
    let mut body = String::new();
    if let Some(refresh_token) = refresh_token {
        let ghost f1 = FormField { name: "grant_type"@, value: "refresh_token"@ };
        let ghost f2 = FormField { name: "refresh_token"@, value: refresh_token@ };
        form::push_field(&mut body, "grant_type", "refresh_token");
        form::push_field(&mut body, "refresh_token", refresh_token);
        proof {
            form::lemma_form_push(seq![], f1);
            form::lemma_form_push(seq![].push(f1), f2);
            assert(seq![].push(f1).push(f2) =~= seq![f1, f2]);
        }
        push_optional_field(&mut body, "client_id", &config.client_id);
        push_optional_field(&mut body, "client_secret", &config.client_secret);
        push_optional_field(&mut body, "scope", &config.scope);
        Some(body)
    } else if let (Some(client_id), Some(client_secret)) = (
        &config.client_id,
        &config.client_secret,
    ) {
        let ghost f1 = FormField { name: "grant_type"@, value: "client_credentials"@ };
        let ghost f2 = FormField { name: "client_id"@, value: client_id@ };
        let ghost f3 = FormField { name: "client_secret"@, value: client_secret@ };
        form::push_field(&mut body, "grant_type", "client_credentials");
        form::push_field(&mut body, "client_id", client_id.as_str());
        form::push_field(&mut body, "client_secret", client_secret.as_str());
        proof {
            form::lemma_form_push(seq![], f1);
            form::lemma_form_push(seq![].push(f1), f2);
            form::lemma_form_push(seq![].push(f1).push(f2), f3);
            assert(seq![].push(f1).push(f2).push(f3) =~= seq![f1, f2, f3]);
        }
        push_optional_field(&mut body, "scope", &config.scope);
        Some(body)
    } else {
        None
    }
}

/// Token provider for one relay route. Providers of the same route compare
/// equal.
#[derive(Hash)]
pub struct OutboundOauth2 {
    config: Oauth2Config,
}

impl View for OutboundOauth2 {
    type V = ConfigView;

    closed spec fn view(&self) -> ConfigView {
        self.config@
    }
}

impl Clone for OutboundOauth2 {
    fn clone(&self) -> (r: Self)
        ensures
            r@ == self@,
            vstd::std_specs::cmp::PartialEqSpec::eq_spec(&r, self),
    {
        proof {
            use_type_invariant(self);
        }
        OutboundOauth2 { config: self.config.clone() }
    }
}

impl PartialEq for OutboundOauth2 {
    fn eq(&self, other: &Self) -> (r: bool)
        ensures
            r <==> {
                &&& self@.username == other@.username
                &&& self@.token == other@.token
                &&& self@.token_url == other@.token_url
                &&& self@.refresh_token == other@.refresh_token
                &&& self@.client_id == other@.client_id
                &&& self@.client_secret == other@.client_secret
                &&& self@.scope == other@.scope
            },
    {
        self.config == other.config
    }
}

impl vstd::std_specs::cmp::PartialEqSpecImpl for OutboundOauth2 {
    open spec fn obeys_eq_spec() -> bool {
        true
    }

    open spec fn eq_spec(&self, other: &Self) -> bool {
        self@ == other@
    }
}

impl Eq for OutboundOauth2 {

}

impl OutboundOauth2 {
    #[verifier::type_invariant]
    spec fn usable(self) -> bool {
        is_usable(self.config@)
    }

    /// Builds a provider from resolved config. Returns `None` when the route
    /// has no usable OAuth2 configuration (neither a static token nor a token
    /// endpoint): the caller should then fall back to basic auth or no auth.
    pub fn try_new(config: &Oauth2Config) -> (provider: Option<Self>)
        ensures
            provider is Some <==> is_usable(config@),
            provider matches Some(provider) ==> provider@ == config@,
            provider is None <==> config.token is None && config.token_url is None,
            provider matches Some(provider) ==> {
                &&& provider@.username == config.username.deep_view()
                &&& provider@.token == config.token.deep_view()
                &&& provider@.token_url == config.token_url.deep_view()
                &&& provider@.refresh_token == config.refresh_token.deep_view()
                &&& provider@.client_id == config.client_id.deep_view()
                &&& provider@.client_secret == config.client_secret.deep_view()
                &&& provider@.scope == config.scope.deep_view()
            },
    {
        if config.token.is_none() && config.token_url.is_none() {
            return None;
        }
        Some(OutboundOauth2 { config: config.clone() })
    }

    /// The cache to start with: no token, and the configured refresh token.
    pub fn new_cache(&self) -> (cache: TokenCache)
        ensures
            cache@ == cache::empty_cache(self@.refresh_token),
            cache.token is None,
            cache.expires_at is None,
            cache.refresh_token.deep_view() == self@.refresh_token,
    {
        TokenCache {
            token: None,
            expires_at: None,
            refresh_token: self.config.refresh_token.clone(),
        }
    }

    /// Identity for the XOAUTH2 `user=` field.
    pub fn username(&self) -> (username: Option<&str>)
        ensures
            match username {
                Some(username) => self@.username == Some(username@),
                None => self@.username is None,
            },
    {
        match &self.config.username {
            Some(username) => Some(username.as_str()),
            None => None,
        }
    }

    /// The debug text, with `alternate` the one that `{:#?}` asks for.
    pub fn to_debug_string(&self, alternate: bool) -> (out: String)
        ensures
            out@ == debug::provider_debug_text(self@, alternate),
    {
        let shown = self.config.shown();
        debug::render_provider(&shown, alternate)
    }

    /// Takes the first step towards a valid access token: the answer, where a
    /// static or cached token serves, else the request to make of the token
    /// endpoint. The time is given in nanoseconds of the clock.
    pub fn access_token(&self, cache: &TokenCache, now: u128) -> (step: TokenStep)
        ensures
            step@ == access_step(self@, cache@, now as int),
            is_usable(self@),
            self@.token matches Some(token) ==> (step matches TokenStep::Done(Ok(answer)) && answer@
                == token),
            self@.token is None ==> (step matches TokenStep::Done(Ok(answer)) ==> {
                &&& cache.token is Some && answer@ == cache.token->0@
                &&& cache.expires_at is Some && cache.expires_at->0 > now + 60_000_000_000
            }),
            step matches TokenStep::Post { url, .. } ==> Some(url@) == self@.token_url,
    {
        proof {
            use_type_invariant(self);
        }
        if let Some(token) = &self.config.token {
            return TokenStep::Done(Ok(token.clone()));
        }
        let url = match &self.config.token_url {
            Some(url) => url.clone(),
            None => {
                return TokenStep::Done(
                    Err(Oauth2Error::Permanent("no OAuth2 token endpoint configured".to_owned())),
                );
            },
        };
        if let Some(token) = cache.fresh(now) {
            return TokenStep::Done(Ok(token));
        }
        let refresh_token = match (&cache.refresh_token, &self.config.refresh_token) {
            (Some(token), _) => Some(token.as_str()),
            (None, Some(token)) => Some(token.as_str()),
            (None, None) => None,
        };
        match grant_body(&self.config, refresh_token) {
            Some(body) => TokenStep::Post { url, body },
            None => TokenStep::Done(
                Err(
                    Oauth2Error::Permanent(
                        "OAuth2 route has neither a refresh token nor client credentials".to_owned(),
                    ),
                ),
            ),
        }
    }

    /// Takes the step that follows an event. A grant is put into the cache, with
    /// its expiry counted from the time that is given here in nanoseconds of
    /// the clock.
    pub fn fetch(&self, event: FetchEvent, now: u128, cache: &mut TokenCache) -> (step: TokenStep)
        requires
            is_possible(event@, now as int),
        ensures
            step@ == fetch_step(event@),
            final(cache)@ == fetched_cache(old(cache)@, event@, now as int),
            names_refused_status(event@, step@),
    {
        match event {
            FetchEvent::Unreachable(reason) => {
                let mut msg = "token endpoint unreachable: ".to_owned();
                msg.append(reason.as_str());
                TokenStep::Done(Err(Oauth2Error::Temporary(msg)))
            },
            FetchEvent::Response { status, body } => {
                let text = match body {
                    Some(text) => text,
                    None => "".to_owned(),
                };
                if 200 <= status && status < 300 {
                    TokenStep::Decode { text }
                } else {
                    let description = status::describe_status(status);
                    proof {
                        status::law_refusal_names_status(status, description@, text@);
                    }
                    TokenStep::Done(Err(status::refused(status, description.as_str(), text.as_str())))
                }
            },
            FetchEvent::Decoded(response) => {
                cache.store(response, now);
                TokenStep::Done(cache.held())
            },
            FetchEvent::Undecodable(reason) => {
                let mut msg = "invalid token endpoint response: ".to_owned();
                msg.append(reason.as_str());
                TokenStep::Done(Err(Oauth2Error::Temporary(msg)))
            },
        }
    }
}

/// A configuration is usable exactly when it has a static token or a token
/// endpoint, whatever else is set.
pub proof fn law_token_or_endpoint_is_usable(config: ConfigView)
    ensures
        is_usable(config) <==> !(config.token is None && config.token_url is None),
{
}

/// Providers are equal exactly when their configurations agree in each of the
/// seven settings.
pub proof fn law_providers_are_equal_by_settings(a: OutboundOauth2, b: OutboundOauth2)
    ensures
        vstd::std_specs::cmp::PartialEqSpec::eq_spec(&a, &b) <==> {
            &&& a@.username == b@.username
            &&& a@.token == b@.token
            &&& a@.token_url == b@.token_url
            &&& a@.refresh_token == b@.refresh_token
            &&& a@.client_id == b@.client_id
            &&& a@.client_secret == b@.client_secret
            &&& a@.scope == b@.scope
        },
        vstd::std_specs::cmp::PartialEqSpec::eq_spec(&a, &b) <==> a@ == b@,
{
}

/// Contracts see all of a step.
pub proof fn law_step_view_is_faithful(step: TokenStep)
    ensures
        match step {
            TokenStep::Done(Ok(token)) => step@ == StepView::Done(Ok(token@)),
            TokenStep::Done(Err(Oauth2Error::Temporary(msg))) => step@ == StepView::Done(
                Err(ErrorView::Temporary(msg@)),
            ),
            TokenStep::Done(Err(Oauth2Error::Permanent(msg))) => step@ == StepView::Done(
                Err(ErrorView::Permanent(msg@)),
            ),
            TokenStep::Post { url, body } => step@ == (StepView::Post { url: url@, body: body@ }),
            TokenStep::Decode { text } => step@ == (StepView::Decode { text: text@ }),
        },
{
}

/// Contracts see all of an event.
pub proof fn law_event_view_is_faithful(event: FetchEvent)
    ensures
        match event {
            FetchEvent::Unreachable(reason) => event@ == EventView::Unreachable(reason@),
            FetchEvent::Response { status: code, body: Some(body) } => event@
                == (EventView::Response { status: code, body: Some(body@) }),
            FetchEvent::Response { status: code, body: None } => event@ == (EventView::Response {
                status: code,
                body: None,
            }),
            FetchEvent::Decoded(response) => event@ matches EventView::Decoded(seen)
                && seen.access_token == response.access_token@ && seen.expires_in
                == response.expires_in && seen.refresh_token == response.refresh_token.deep_view(),
            FetchEvent::Undecodable(reason) => event@ == EventView::Undecodable(reason@),
        },
{
}

/// Every event is possible but for a reply whose status is no three-digit
/// number from 100 on, and a grant whose expiry is later than the clock can
/// show.
pub proof fn law_possible_events(event: EventView, now: int)
    ensures
        is_possible(event, now) <==> (match event {
            EventView::Unreachable(_) => true,
            EventView::Undecodable(_) => true,
            EventView::Response { status: code, .. } => 100 <= code <= 999,
            EventView::Decoded(response) => match response.expires_in {
                Some(secs) => now + secs * 1_000_000_000 <= u64::MAX * 1_000_000_000 + 999_999_999,
                None => now + 3600 * 1_000_000_000 <= u64::MAX * 1_000_000_000 + 999_999_999,
            },
        }),
{
}

/// A request to the token endpoint is given up after ten seconds.
pub proof fn law_request_timeout()
    ensures
        TOKEN_REQUEST_TIMEOUT == 10,
{
}

} // verus!
