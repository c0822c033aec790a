//! What holds of a provider over several calls.

use vstd::prelude::*;
use vstd::utf8::*;

use crate::cache;
use crate::cache::{CacheView, ResponseView};
use crate::config::ConfigView;
use crate::error::ErrorView;
use crate::form;
use crate::form::FormField;
use crate::percent;
use crate::provider;
use crate::provider::{EventView, StepView};
use crate::status;

verus! {

/// A static token is the answer whatever else is configured or cached: no
/// endpoint is needed.
pub proof fn law_static_token_takes_precedence(config: ConfigView, cache: CacheView, now: int)
    requires
        config.token is Some,
    ensures
        provider::access_step(config, cache, now) == StepView::Done(Ok(config.token->0)),
{
}

/// A provider, which has a static token or an endpoint, never complains that
/// there is no endpoint.
pub proof fn law_provider_has_endpoint(config: ConfigView, cache: CacheView, now: int)
    requires
        provider::is_usable(config),
    ensures
        provider::access_step(config, cache, now) != StepView::Done(
            Err(ErrorView::Permanent("no OAuth2 token endpoint configured"@)),
        ),
{
    reveal_strlit("no OAuth2 token endpoint configured");
    reveal_strlit("OAuth2 route has neither a refresh token nor client credentials");
    assert("no OAuth2 token endpoint configured"@.len()
        != "OAuth2 route has neither a refresh token nor client credentials"@.len());
}

/// Without a static token and without an endpoint the answer is a permanent
/// error that says so.
pub proof fn law_no_endpoint_is_permanent_error(config: ConfigView, cache: CacheView, now: int)
    requires
        config.token is None,
        config.token_url is None,
    ensures
        provider::access_step(config, cache, now) == StepView::Done(
            Err(ErrorView::Permanent("no OAuth2 token endpoint configured"@)),
        ),
{
}

/// A fetched token is served from the cache, without a request, exactly until
/// the refresh margin before its expiry.
pub proof fn law_fetched_token_is_served_until_margin(
    config: ConfigView,
    cache: CacheView,
    response: ResponseView,
    granted: int,
    now: int,
)
    requires
        config.token is None,
        config.token_url is Some,
    ensures
        ({
            let after = provider::fetched_cache(cache, EventView::Decoded(response), granted);
            let step = provider::access_step(config, after, now);
            &&& now + cache::CACHE_SKEW < cache::expiry(response.expires_in, granted)
                ==> step == StepView::Done(Ok(response.access_token))
            &&& now + cache::CACHE_SKEW >= cache::expiry(response.expires_in, granted)
                ==> !(step matches StepView::Done(Ok(_)))
        }),
{
}

/// A token that comes from the cache is valid for longer than the refresh
/// margin.
pub proof fn law_cached_token_outlives_margin(config: ConfigView, cache: CacheView, now: int)
    requires
        config.token is None,
    ensures
        provider::access_step(config, cache, now) matches StepView::Done(Ok(token)) ==> {
            &&& cache.token == Some(token)
            &&& cache.expires_at is Some
            &&& cache.expires_at->0 - now > cache::CACHE_SKEW
        },
{
}

/// Without a usable token a request is made of the configured endpoint as soon
/// as there is a refresh token or a full set of client credentials, and only
/// then.
pub proof fn law_request_is_made_when_grant_is_possible(
    config: ConfigView,
    cache: CacheView,
    now: int,
)
    requires
        config.token is None,
        config.token_url is Some,
        cache::fresh_token(cache, now) is None,
    ensures
        ({
            let step = provider::access_step(config, cache, now);
            let possible = cache.refresh_token is Some || config.refresh_token is Some || (
            config.client_id is Some && config.client_secret is Some);
            &&& possible ==> (step matches StepView::Post { url, .. } && Some(url)
                == config.token_url)
            &&& !possible ==> step == StepView::Done(
                Err(
                    ErrorView::Permanent(
                        "OAuth2 route has neither a refresh token nor client credentials"@,
                    ),
                ),
            )
        }),
{
}

/// The first request presents the configured refresh token.
pub proof fn law_first_request_presents_configured_refresh_token(config: ConfigView, now: int)
    requires
        config.token is None,
        config.token_url is Some,
        config.refresh_token is Some,
    ensures
        provider::access_step(config, cache::empty_cache(config.refresh_token), now)
            == (StepView::Post {
            url: config.token_url->0,
            body: form::form_encoded(
                provider::refresh_fields(config, config.refresh_token->0),
            ),
        }),
{
}

/// Once the endpoint has rotated the refresh token, the next request presents
/// the rotated one.
pub proof fn law_rotated_refresh_token_is_presented(
    config: ConfigView,
    cache: CacheView,
    response: ResponseView,
    granted: int,
    now: int,
)
    requires
        config.token is None,
        config.token_url is Some,
        response.refresh_token is Some,
        now + cache::CACHE_SKEW >= cache::expiry(response.expires_in, granted),
    ensures
        ({
            let after = provider::fetched_cache(cache, EventView::Decoded(response), granted);
            provider::access_step(config, after, now) == (StepView::Post {
                url: config.token_url->0,
                body: form::form_encoded(
                    provider::refresh_fields(config, response.refresh_token->0),
                ),
            })
        }),
{
}

/// A grant without a refresh token leaves the one to present as it was.
pub proof fn law_unrotated_refresh_token_stays(
    config: ConfigView,
    cache: CacheView,
    response: ResponseView,
    granted: int,
)
    requires
        response.refresh_token is None,
    ensures
        provider::current_refresh_token(
            config,
            provider::fetched_cache(cache, EventView::Decoded(response), granted),
        ) == provider::current_refresh_token(config, cache),
{
}

/// A cache that holds a refresh token holds one after every event.
pub proof fn law_refresh_token_is_never_lost(cache: CacheView, event: EventView, now: int)
    requires
        cache.refresh_token is Some,
    ensures
        provider::fetched_cache(cache, event, now).refresh_token is Some,
{
}

/// Caches hold a token and its expiry together: so does the cache that a
/// provider starts with, and every event keeps it so.
pub proof fn law_cache_stays_well_formed(
    refresh_token: Option<Seq<char>>,
    cache: CacheView,
    event: EventView,
    now: int,
)
    ensures
        cache::cache_well_formed(cache::empty_cache(refresh_token)),
        cache::cache_well_formed(cache) ==> cache::cache_well_formed(
            provider::fetched_cache(cache, event, now),
        ),
{
}

/// Only a grant changes the cache: what ends in an error leaves it as it was,
/// so that a later request for a token takes the step it would have taken
/// without the failure.
pub proof fn law_failure_leaves_cache_unchanged(
    config: ConfigView,
    cache: CacheView,
    event: EventView,
    now: int,
    later: int,
)
    requires
        !(provider::fetch_step(event) matches StepView::Done(Ok(_))),
    ensures
        provider::fetched_cache(cache, event, now) == cache,
        provider::access_step(config, provider::fetched_cache(cache, event, now), later)
            == provider::access_step(config, cache, later),
{
}

/// A grant gives the very token that it leaves in the cache: a request that
/// succeeds never ends without a token.
pub proof fn law_grant_yields_cached_token(cache: CacheView, response: ResponseView, now: int)
    ensures
        ({
            let event = EventView::Decoded(response);
            let after = provider::fetched_cache(cache, event, now);
            &&& cache::held_token(after) == Ok::<Seq<char>, ErrorView>(response.access_token)
            &&& provider::fetch_step(event) == StepView::Done(cache::held_token(after))
        }),
{
}

/// Of what can go wrong with a request, a client error status is permanent, and
/// everything else (an endpoint out of reach, any other status, a reply that
/// is no grant) is temporary.
pub proof fn law_only_client_errors_are_permanent(event: EventView)
    ensures
        provider::fetch_step(event) matches StepView::Done(Err(err)) ==> (err is Permanent <==> (
        event matches EventView::Response { status: code, .. } && status::is_client_error(code))),
{
}

/// A reply is decoded exactly when its status is one of success; one that could
/// not be read counts as empty.
pub proof fn law_only_success_is_decoded(code: u16, body: Option<Seq<char>>)
    ensures
        ({
            let step = provider::fetch_step(EventView::Response { status: code, body });
            &&& step is Decode <==> status::is_success(code)
            &&& step matches StepView::Decode { text } ==> match body {
                Some(body) => text == body,
                None => text.len() == 0,
            }
        }),
{
    reveal_strlit("");
}

proof fn lemma_names_are_plain()
    ensures
        percent::all_unreserved("grant_type"@),
        percent::all_unreserved("refresh_token"@),
        percent::all_unreserved("client_credentials"@),
        percent::all_unreserved("client_id"@),
        percent::all_unreserved("client_secret"@),
        percent::all_unreserved("scope"@),
{
    reveal_strlit("grant_type");
    reveal_strlit("refresh_token");
    reveal_strlit("client_credentials");
    reveal_strlit("client_id");
    reveal_strlit("client_secret");
    reveal_strlit("scope");
}

/// The endpoint reads out of a request exactly the fields of the grant,
/// whatever characters the settings and tokens hold.
pub proof fn law_request_is_read_as_grant(config: ConfigView, cache: CacheView, now: int)
    ensures
        provider::access_step(config, cache, now) matches StepView::Post { body, .. }
            ==> form::form_decoded(body) == provider::grant_fields(
            config,
            provider::current_refresh_token(config, cache),
        ),
{
    let grant = provider::grant_fields(config, provider::current_refresh_token(config, cache));
    if let Some(fields) = grant {
        lemma_names_are_plain();
        form::law_form_decoding_inverts_encoding(fields);
    }
}

/// A request that presents a refresh token begins with the name of the grant
/// and that token.
pub proof fn law_refresh_request_text(config: ConfigView, refresh_token: Seq<char>)
    ensures
        ("grant_type=refresh_token&refresh_token="@ + percent::percent_encoded(
            encode_utf8(refresh_token),
        )).is_prefix_of(form::form_encoded(provider::refresh_fields(config, refresh_token))),
{
    let f1 = FormField { name: "grant_type"@, value: "refresh_token"@ };
    let f2 = FormField { name: "refresh_token"@, value: refresh_token };
    let start = "grant_type=refresh_token&refresh_token="@ + percent::percent_encoded(
        encode_utf8(refresh_token),
    );
    lemma_names_are_plain();
    percent::law_percent_encoding_keeps_unreserved("refresh_token"@);
    reveal_strlit("grant_type");
    reveal_strlit("refresh_token");
    reveal_strlit("=");
    reveal_strlit("&");
    reveal_strlit("grant_type=refresh_token&refresh_token=");
    assert("grant_type=refresh_token&refresh_token="@ =~= "grant_type"@ + "="@ + "refresh_token"@
        + "&"@ + "refresh_token"@ + "="@);
    form::lemma_form_push(seq![], f1);
    form::lemma_form_push(seq![].push(f1), f2);
    assert(seq![].push(f1).push(f2) =~= seq![f1, f2]);
    assert(form::form_encoded(seq![f1, f2]) =~= start);
    let more = provider::optional_field("client_id"@, config.client_id) + provider::optional_field(
        "client_secret"@,
        config.client_secret,
    ) + provider::optional_field("scope"@, config.scope);
    assert(provider::refresh_fields(config, refresh_token) =~= seq![f1, f2] + more);
    form::lemma_form_prefix(seq![f1, f2], more);
}

/// A request that presents client credentials begins with the name of the
/// grant and those credentials.
pub proof fn law_credentials_request_text(
    client_id: Seq<char>,
    client_secret: Seq<char>,
    scope: Option<Seq<char>>,
)
    ensures
        ("grant_type=client_credentials&client_id="@ + percent::percent_encoded(
            encode_utf8(client_id),
        ) + "&client_secret="@ + percent::percent_encoded(encode_utf8(client_secret))).is_prefix_of(
            form::form_encoded(provider::credentials_fields(client_id, client_secret, scope)),
        ),
{
    let f1 = FormField { name: "grant_type"@, value: "client_credentials"@ };
    let f2 = FormField { name: "client_id"@, value: client_id };
    let f3 = FormField { name: "client_secret"@, value: client_secret };
    let start = "grant_type=client_credentials&client_id="@ + percent::percent_encoded(
        encode_utf8(client_id),
    ) + "&client_secret="@ + percent::percent_encoded(encode_utf8(client_secret));
    lemma_names_are_plain();
    percent::law_percent_encoding_keeps_unreserved("client_credentials"@);
    reveal_strlit("grant_type");
    reveal_strlit("client_credentials");
    reveal_strlit("client_id");
    reveal_strlit("client_secret");
    reveal_strlit("=");
    reveal_strlit("&");
    reveal_strlit("grant_type=client_credentials&client_id=");
    reveal_strlit("&client_secret=");
    assert("grant_type=client_credentials&client_id="@ =~= "grant_type"@ + "="@
        + "client_credentials"@ + "&"@ + "client_id"@ + "="@);
    assert("&client_secret="@ =~= "&"@ + "client_secret"@ + "="@);
    form::lemma_form_push(seq![], f1);
    form::lemma_form_push(seq![].push(f1), f2);
    form::lemma_form_push(seq![].push(f1).push(f2), f3);
    assert(seq![].push(f1).push(f2).push(f3) =~= seq![f1, f2, f3]);
    assert(form::form_encoded(seq![f1, f2, f3]) =~= start);
    form::lemma_form_prefix(seq![f1, f2, f3], provider::optional_field("scope"@, scope));
}

/// Without a static or a fresh token, a route with a refresh token posts to its
/// endpoint a form with: the grant's name, the refresh token that the endpoint
/// gave last or else the configured one, and then the client id, the client
/// secret and the scope, each of them just when it is configured, whatever else
/// is set.
pub proof fn law_refresh_request_in_full(
    config: ConfigView,
    cache: CacheView,
    refresh_token: Seq<char>,
    now: int,
)
    requires
        config.token is None,
        config.token_url is Some,
        !(cache.token is Some && cache.expires_at is Some && cache.expires_at->0 > now
            + 60_000_000_000),
        cache.refresh_token == Some(refresh_token) || (cache.refresh_token is None
            && config.refresh_token == Some(refresh_token)),
    ensures
        ({
            let step = provider::access_step(config, cache, now);
            &&& step is Post
            &&& step->url == config.token_url->0
            &&& step->body == "grant_type=refresh_token&refresh_token="@
                + percent::percent_encoded(encode_utf8(refresh_token)) + (match config.client_id {
                    Some(value) => "&client_id="@ + percent::percent_encoded(encode_utf8(value)),
                    None => Seq::<char>::empty(),
                }) + (match config.client_secret {
                    Some(value) => "&client_secret="@ + percent::percent_encoded(encode_utf8(value)),
                    None => Seq::<char>::empty(),
                }) + (match config.scope {
                    Some(value) => "&scope="@ + percent::percent_encoded(encode_utf8(value)),
                    None => Seq::<char>::empty(),
                })
        }),
{
    provider::lemma_refresh_text(config, refresh_token);
}

proof fn lemma_refresh_request_read(
    config: ConfigView,
    cache: CacheView,
    refresh_token: Seq<char>,
    now: int,
)
    requires
        config.token is None,
        config.token_url is Some,
        !(cache.token is Some && cache.expires_at is Some && cache.expires_at->0 > now
            + 60_000_000_000),
        cache.refresh_token == Some(refresh_token) || (cache.refresh_token is None
            && config.refresh_token == Some(refresh_token)),
    ensures
        ({
            let step = provider::access_step(config, cache, now);
            &&& step is Post
            &&& form::form_decoded(step->body) == Some(
                provider::refresh_fields(config, refresh_token),
            )
        }),
{
    lemma_names_are_plain();
    form::law_form_decoding_inverts_encoding(provider::refresh_fields(config, refresh_token));
}

/// The fields that the endpoint reads out of a request with a refresh token are
/// exactly: the grant's name, the refresh token, and then the client id, the
/// client secret and the scope, each of them just when it is configured, with
/// the configured value, whatever else is set.
pub proof fn law_refresh_request_fields(
    config: ConfigView,
    cache: CacheView,
    refresh_token: Seq<char>,
    now: int,
)
    requires
        config.token is None,
        config.token_url is Some,
        !(cache.token is Some && cache.expires_at is Some && cache.expires_at->0 > now
            + 60_000_000_000),
        cache.refresh_token == Some(refresh_token) || (cache.refresh_token is None
            && config.refresh_token == Some(refresh_token)),
    ensures
        ({
            let step = provider::access_step(config, cache, now);
            let read = form::form_decoded(step->body);
            &&& step is Post
            &&& read == Some(match (config.client_id, config.client_secret, config.scope) {
                (Some(id), Some(secret), Some(scope)) => seq![
                    FormField { name: "grant_type"@, value: "refresh_token"@ },
                    FormField { name: "refresh_token"@, value: refresh_token },
                    FormField { name: "client_id"@, value: id },
                    FormField { name: "client_secret"@, value: secret },
                    FormField { name: "scope"@, value: scope },
                ],
                (Some(id), Some(secret), None) => seq![
                    FormField { name: "grant_type"@, value: "refresh_token"@ },
                    FormField { name: "refresh_token"@, value: refresh_token },
                    FormField { name: "client_id"@, value: id },
                    FormField { name: "client_secret"@, value: secret },
                ],
                (Some(id), None, Some(scope)) => seq![
                    FormField { name: "grant_type"@, value: "refresh_token"@ },
                    FormField { name: "refresh_token"@, value: refresh_token },
                    FormField { name: "client_id"@, value: id },
                    FormField { name: "scope"@, value: scope },
                ],
                (Some(id), None, None) => seq![
                    FormField { name: "grant_type"@, value: "refresh_token"@ },
                    FormField { name: "refresh_token"@, value: refresh_token },
                    FormField { name: "client_id"@, value: id },
                ],
                (None, Some(secret), Some(scope)) => seq![
                    FormField { name: "grant_type"@, value: "refresh_token"@ },
                    FormField { name: "refresh_token"@, value: refresh_token },
                    FormField { name: "client_secret"@, value: secret },
                    FormField { name: "scope"@, value: scope },
                ],
                (None, Some(secret), None) => seq![
                    FormField { name: "grant_type"@, value: "refresh_token"@ },
                    FormField { name: "refresh_token"@, value: refresh_token },
                    FormField { name: "client_secret"@, value: secret },
                ],
                (None, None, Some(scope)) => seq![
                    FormField { name: "grant_type"@, value: "refresh_token"@ },
                    FormField { name: "refresh_token"@, value: refresh_token },
                    FormField { name: "scope"@, value: scope },
                ],
                (None, None, None) => seq![
                    FormField { name: "grant_type"@, value: "refresh_token"@ },
                    FormField { name: "refresh_token"@, value: refresh_token },
                ],
            })
        }),
{
    lemma_refresh_request_read(config, cache, refresh_token, now);
    lemma_refresh_fields_listed(config, refresh_token);
}

/// Of the client id, the client secret and the scope, a request with a refresh
/// token carries a value exactly when it is the configured one, independently
/// of the other settings.
pub proof fn law_refresh_request_carries_each_setting(
    config: ConfigView,
    cache: CacheView,
    refresh_token: Seq<char>,
    now: int,
)
    requires
        config.token is None,
        config.token_url is Some,
        !(cache.token is Some && cache.expires_at is Some && cache.expires_at->0 > now
            + 60_000_000_000),
        cache.refresh_token == Some(refresh_token) || (cache.refresh_token is None
            && config.refresh_token == Some(refresh_token)),
    ensures
        ({
            let step = provider::access_step(config, cache, now);
            let read = form::form_decoded(step->body);
            &&& step is Post
            &&& read is Some
            &&& forall|v: Seq<char>| #[trigger]
                read->0.contains(FormField { name: "client_id"@, value: v }) <==> config.client_id
                    == Some(v)
            &&& forall|v: Seq<char>| #[trigger]
                read->0.contains(FormField { name: "client_secret"@, value: v })
                    <==> config.client_secret == Some(v)
            &&& forall|v: Seq<char>| #[trigger]
                read->0.contains(FormField { name: "scope"@, value: v }) <==> config.scope
                    == Some(v)
        }),
{
    lemma_refresh_request_read(config, cache, refresh_token, now);
    lemma_refresh_fields_members(config, refresh_token);
}

proof fn lemma_refresh_fields_listed(config: ConfigView, refresh_token: Seq<char>)
    ensures
        provider::refresh_fields(config, refresh_token) == match (config.client_id, config.client_secret, config.scope) {
                (Some(id), Some(secret), Some(scope)) => seq![
                    FormField { name: "grant_type"@, value: "refresh_token"@ },
                    FormField { name: "refresh_token"@, value: refresh_token },
                    FormField { name: "client_id"@, value: id },
                    FormField { name: "client_secret"@, value: secret },
                    FormField { name: "scope"@, value: scope },
                ],
                (Some(id), Some(secret), None) => seq![
                    FormField { name: "grant_type"@, value: "refresh_token"@ },
                    FormField { name: "refresh_token"@, value: refresh_token },
                    FormField { name: "client_id"@, value: id },
                    FormField { name: "client_secret"@, value: secret },
                ],
                (Some(id), None, Some(scope)) => seq![
                    FormField { name: "grant_type"@, value: "refresh_token"@ },
                    FormField { name: "refresh_token"@, value: refresh_token },
                    FormField { name: "client_id"@, value: id },
                    FormField { name: "scope"@, value: scope },
                ],
                (Some(id), None, None) => seq![
                    FormField { name: "grant_type"@, value: "refresh_token"@ },
                    FormField { name: "refresh_token"@, value: refresh_token },
                    FormField { name: "client_id"@, value: id },
                ],
                (None, Some(secret), Some(scope)) => seq![
                    FormField { name: "grant_type"@, value: "refresh_token"@ },
                    FormField { name: "refresh_token"@, value: refresh_token },
                    FormField { name: "client_secret"@, value: secret },
                    FormField { name: "scope"@, value: scope },
                ],
                (None, Some(secret), None) => seq![
                    FormField { name: "grant_type"@, value: "refresh_token"@ },
                    FormField { name: "refresh_token"@, value: refresh_token },
                    FormField { name: "client_secret"@, value: secret },
                ],
                (None, None, Some(scope)) => seq![
                    FormField { name: "grant_type"@, value: "refresh_token"@ },
                    FormField { name: "refresh_token"@, value: refresh_token },
                    FormField { name: "scope"@, value: scope },
                ],
                (None, None, None) => seq![
                    FormField { name: "grant_type"@, value: "refresh_token"@ },
                    FormField { name: "refresh_token"@, value: refresh_token },
                ],
    },
{
    assert(provider::refresh_fields(config, refresh_token) =~= match (config.client_id, config.client_secret, config.scope) {
                (Some(id), Some(secret), Some(scope)) => seq![
                    FormField { name: "grant_type"@, value: "refresh_token"@ },
                    FormField { name: "refresh_token"@, value: refresh_token },
                    FormField { name: "client_id"@, value: id },
                    FormField { name: "client_secret"@, value: secret },
                    FormField { name: "scope"@, value: scope },
                ],
                (Some(id), Some(secret), None) => seq![
                    FormField { name: "grant_type"@, value: "refresh_token"@ },
                    FormField { name: "refresh_token"@, value: refresh_token },
                    FormField { name: "client_id"@, value: id },
                    FormField { name: "client_secret"@, value: secret },
                ],
                (Some(id), None, Some(scope)) => seq![
                    FormField { name: "grant_type"@, value: "refresh_token"@ },
                    FormField { name: "refresh_token"@, value: refresh_token },
                    FormField { name: "client_id"@, value: id },
                    FormField { name: "scope"@, value: scope },
                ],
                (Some(id), None, None) => seq![
                    FormField { name: "grant_type"@, value: "refresh_token"@ },
                    FormField { name: "refresh_token"@, value: refresh_token },
                    FormField { name: "client_id"@, value: id },
                ],
                (None, Some(secret), Some(scope)) => seq![
                    FormField { name: "grant_type"@, value: "refresh_token"@ },
                    FormField { name: "refresh_token"@, value: refresh_token },
                    FormField { name: "client_secret"@, value: secret },
                    FormField { name: "scope"@, value: scope },
                ],
                (None, Some(secret), None) => seq![
                    FormField { name: "grant_type"@, value: "refresh_token"@ },
                    FormField { name: "refresh_token"@, value: refresh_token },
                    FormField { name: "client_secret"@, value: secret },
                ],
                (None, None, Some(scope)) => seq![
                    FormField { name: "grant_type"@, value: "refresh_token"@ },
                    FormField { name: "refresh_token"@, value: refresh_token },
                    FormField { name: "scope"@, value: scope },
                ],
                (None, None, None) => seq![
                    FormField { name: "grant_type"@, value: "refresh_token"@ },
                    FormField { name: "refresh_token"@, value: refresh_token },
                ],
    });
}

proof fn lemma_refresh_fields_members(config: ConfigView, refresh_token: Seq<char>)
    ensures
        ({
            let fields = provider::refresh_fields(config, refresh_token);
            &&& forall|v: Seq<char>| #[trigger]
                fields.contains(FormField { name: "client_id"@, value: v }) <==> config.client_id
                    == Some(v)
            &&& forall|v: Seq<char>| #[trigger]
                fields.contains(FormField { name: "client_secret"@, value: v })
                    <==> config.client_secret == Some(v)
            &&& forall|v: Seq<char>| #[trigger]
                fields.contains(FormField { name: "scope"@, value: v }) <==> config.scope
                    == Some(v)
        }),
{
    lemma_names_differ();
    let fields = provider::refresh_fields(config, refresh_token);
    let id = provider::optional_field("client_id"@, config.client_id);
    let secret = provider::optional_field("client_secret"@, config.client_secret);
    let scope = provider::optional_field("scope"@, config.scope);
    let at_secret = 2 + id.len();
    let at_scope = at_secret + secret.len();
    assert(fields.len() == at_scope + scope.len());
    assert(forall|i: int| 0 <= i < id.len() ==> fields[2 + i] == #[trigger] id[i]);
    assert(forall|i: int| 0 <= i < secret.len() ==> fields[at_secret + i] == #[trigger] secret[i]);
    assert(forall|i: int| 0 <= i < scope.len() ==> fields[at_scope + i] == #[trigger] scope[i]);
    assert(fields[0].name == "grant_type"@ && fields[1].name == "refresh_token"@);
    assert(config.client_id is Some ==> fields[2] == id[0]);
    assert(config.client_secret is Some ==> fields[at_secret as int] == secret[0]);
    assert(config.scope is Some ==> fields[at_scope as int] == scope[0]);
    assert forall|i: int| 0 <= i < fields.len() implies (#[trigger] fields[i].name == "client_id"@
        ==> config.client_id == Some(fields[i].value)) && (fields[i].name == "client_secret"@
        ==> config.client_secret == Some(fields[i].value)) && (fields[i].name == "scope"@
        ==> config.scope == Some(fields[i].value)) by {
        if 2 <= i < at_secret {
            assert(fields[i] == id[i - 2]);
        } else if at_secret <= i < at_scope {
            assert(fields[i] == secret[i - at_secret]);
        } else if at_scope <= i {
            assert(fields[i] == scope[i - at_scope]);
        }
    }
}

/// Without a static or a fresh token and without a refresh token, a route with
/// client credentials posts to its endpoint a form whose fields are exactly:
/// the grant's name, the client id, the client secret, and the scope just when
/// it is configured, whatever else is set.
pub proof fn law_credentials_request_fields(
    config: ConfigView,
    cache: CacheView,
    client_id: Seq<char>,
    client_secret: Seq<char>,
    now: int,
)
    requires
        config.token is None,
        config.token_url is Some,
        !(cache.token is Some && cache.expires_at is Some && cache.expires_at->0 > now
            + 60_000_000_000),
        cache.refresh_token is None,
        config.refresh_token is None,
        config.client_id == Some(client_id),
        config.client_secret == Some(client_secret),
    ensures
        ({
            let step = provider::access_step(config, cache, now);
            &&& step is Post
            &&& step->url == config.token_url->0
            &&& step->body == "grant_type=client_credentials&client_id="@
                + percent::percent_encoded(encode_utf8(client_id)) + "&client_secret="@
                + percent::percent_encoded(encode_utf8(client_secret)) + (match config.scope {
                    Some(value) => "&scope="@ + percent::percent_encoded(encode_utf8(value)),
                    None => Seq::<char>::empty(),
                })
            &&& form::form_decoded(step->body) == Some(match config.scope {
                Some(scope) => seq![
                    FormField { name: "grant_type"@, value: "client_credentials"@ },
                    FormField { name: "client_id"@, value: client_id },
                    FormField { name: "client_secret"@, value: client_secret },
                    FormField { name: "scope"@, value: scope },
                ],
                None => seq![
                    FormField { name: "grant_type"@, value: "client_credentials"@ },
                    FormField { name: "client_id"@, value: client_id },
                    FormField { name: "client_secret"@, value: client_secret },
                ],
            })
        }),
{
    let fields = provider::credentials_fields(client_id, client_secret, config.scope);
    let exact = match config.scope {
        Some(scope) => seq![
            FormField { name: "grant_type"@, value: "client_credentials"@ },
            FormField { name: "client_id"@, value: client_id },
            FormField { name: "client_secret"@, value: client_secret },
            FormField { name: "scope"@, value: scope },
        ],
        None => seq![
            FormField { name: "grant_type"@, value: "client_credentials"@ },
            FormField { name: "client_id"@, value: client_id },
            FormField { name: "client_secret"@, value: client_secret },
        ],
    };
    provider::lemma_credentials_text(client_id, client_secret, config.scope);
    assert(fields =~= exact);
    lemma_names_are_plain();
    form::law_form_decoding_inverts_encoding(fields);
}

proof fn lemma_names_differ()
    ensures
        "client_id"@ != "grant_type"@,
        "client_id"@ != "refresh_token"@,
        "client_id"@ != "client_secret"@,
        "client_id"@ != "scope"@,
        "client_secret"@ != "grant_type"@,
        "client_secret"@ != "refresh_token"@,
        "client_secret"@ != "scope"@,
        "scope"@ != "grant_type"@,
        "scope"@ != "refresh_token"@,
{
    reveal_strlit("grant_type");
    reveal_strlit("refresh_token");
    reveal_strlit("client_id");
    reveal_strlit("client_secret");
    reveal_strlit("scope");
    assert("client_secret"@[0] != "refresh_token"@[0]);
    assert("grant_type"@.len() == 10 && "refresh_token"@.len() == 13 && "client_id"@.len() == 9
        && "client_secret"@.len() == 13 && "scope"@.len() == 5);
}

/// Without a static or a fresh token, without a refresh token, and with a half
/// of the client credentials missing, the answer is a permanent error that says
/// so.
pub proof fn law_no_credentials_is_permanent_error(config: ConfigView, cache: CacheView, now: int)
    requires
        config.token is None,
        config.token_url is Some,
        !(cache.token is Some && cache.expires_at is Some && cache.expires_at->0 > now
            + 60_000_000_000),
        cache.refresh_token is None,
        config.refresh_token is None,
        config.client_id is None || config.client_secret is None,
    ensures
        provider::access_step(config, cache, now) == StepView::Done(
            Err(
                ErrorView::Permanent(
                    "OAuth2 route has neither a refresh token nor client credentials"@,
                ),
            ),
        ),
{
}

/// A route without a static token answers from the cache exactly while the
/// cached token has more than sixty seconds to live, and then with that token.
pub proof fn law_cache_answers_outside_margin(config: ConfigView, cache: CacheView, now: int)
    requires
        config.token is None,
        config.token_url is Some,
    ensures
        ({
            let step = provider::access_step(config, cache, now);
            let fresh = cache.token is Some && cache.expires_at is Some && cache.expires_at->0
                - now > 60_000_000_000;
            &&& fresh ==> step == StepView::Done(Ok(cache.token->0))
            &&& !fresh ==> !(step matches StepView::Done(Ok(_)))
        }),
{
}

/// A token granted at some time for `secs` seconds is answered from the cache
/// exactly until sixty seconds before that many seconds have passed; one
/// granted without a lifetime, until sixty seconds before an hour has passed.
pub proof fn law_granted_token_is_answered_for_its_lifetime(
    config: ConfigView,
    cache: CacheView,
    token: Seq<char>,
    secs: Option<u64>,
    rotated: Option<Seq<char>>,
    granted: int,
    now: int,
)
    requires
        config.token is None,
        config.token_url is Some,
    ensures
        ({
            let grant = ResponseView {
                access_token: token,
                expires_in: secs,
                refresh_token: rotated,
            };
            let after = provider::fetched_cache(cache, EventView::Decoded(grant), granted);
            let step = provider::access_step(config, after, now);
            let ends = match secs {
                Some(secs) => granted + secs * 1_000_000_000,
                None => granted + 3600 * 1_000_000_000,
            };
            &&& provider::fetch_step(EventView::Decoded(grant)) == StepView::Done(Ok(token))
            &&& after.token == Some(token)
            &&& after.expires_at == Some(ends)
            &&& after.refresh_token == (match rotated {
                Some(rotated) => Some(rotated),
                None => cache.refresh_token,
            })
            &&& now + 60 * 1_000_000_000 < ends ==> step == StepView::Done(Ok(token))
            &&& now + 60 * 1_000_000_000 >= ends ==> !(step matches StepView::Done(Ok(_)))
        }),
{
}

/// Once a grant has brought a new refresh token, the request that follows it
/// carries the new token and no other.
pub proof fn law_next_request_carries_rotated_token(
    config: ConfigView,
    cache: CacheView,
    token: Seq<char>,
    secs: u64,
    rotated: Seq<char>,
    granted: int,
    now: int,
)
    requires
        config.token is None,
        config.token_url is Some,
        now + 60 * 1_000_000_000 >= granted + secs * 1_000_000_000,
    ensures
        ({
            let grant = ResponseView {
                access_token: token,
                expires_in: Some(secs),
                refresh_token: Some(rotated),
            };
            let after = provider::fetched_cache(cache, EventView::Decoded(grant), granted);
            let step = provider::access_step(config, after, now);
            let read = form::form_decoded(step->body);
            &&& step is Post
            &&& step->url == config.token_url->0
            &&& read is Some
            &&& read->0.len() >= 2
            &&& read->0[0] == (FormField { name: "grant_type"@, value: "refresh_token"@ })
            &&& read->0[1] == (FormField { name: "refresh_token"@, value: rotated })
        }),
{
    let grant = ResponseView {
        access_token: token,
        expires_in: Some(secs),
        refresh_token: Some(rotated),
    };
    let after = provider::fetched_cache(cache, EventView::Decoded(grant), granted);
    lemma_refresh_request_read(config, after, rotated, now);
    law_refresh_request_in_full(config, after, rotated, now);
}

/// What each event leads to, in full. Everything but a grant leaves the cache
/// alone.
pub proof fn law_outcome_of_each_event(
    cache: CacheView,
    reason: Seq<char>,
    code: u16,
    body: Option<Seq<char>>,
    now: int,
)
    ensures
        ({
            let unreachable = EventView::Unreachable(reason);
            let undecodable = EventView::Undecodable(reason);
            let response = EventView::Response { status: code, body };
            let text = match body {
                Some(text) => text,
                None => Seq::<char>::empty(),
            };
            let description = status::status_text(code);
            &&& provider::fetch_step(unreachable) == StepView::Done(
                Err(ErrorView::Temporary("token endpoint unreachable: "@ + reason)),
            )
            &&& provider::fetch_step(undecodable) == StepView::Done(
                Err(ErrorView::Temporary("invalid token endpoint response: "@ + reason)),
            )
            &&& 200 <= code <= 299 ==> provider::fetch_step(response) == (StepView::Decode { text })
            &&& 400 <= code <= 499 ==> provider::fetch_step(response) == StepView::Done(
                Err(
                    ErrorView::Permanent(
                        "token endpoint rejected the grant ("@ + description + " "@ + text + ")"@,
                    ),
                ),
            )
            &&& !(200 <= code <= 299) && !(400 <= code <= 499) ==> provider::fetch_step(response)
                == StepView::Done(
                Err(
                    ErrorView::Temporary(
                        "token endpoint failed ("@ + description + " "@ + text + ")"@,
                    ),
                ),
            )
            &&& provider::fetched_cache(cache, unreachable, now) == cache
            &&& provider::fetched_cache(cache, undecodable, now) == cache
            &&& provider::fetched_cache(cache, response, now) == cache
        }),
{
    reveal_strlit("");
    assert(""@ =~= Seq::<char>::empty());
}

/// A refused status is named at the start of the message, right behind what the
/// message begins with.
pub proof fn law_refused_status_is_named(
    code: u16,
    body: Option<Seq<char>>,
    err: ErrorView,
)
    ensures
        provider::names_refused_status(
            EventView::Response { status: code, body },
            StepView::Done(Err(err)),
        ) <==> ((if 400 <= code <= 499 {
            "token endpoint rejected the grant ("@
        } else {
            "token endpoint failed ("@
        }) + status::status_digits(code) + " "@).is_prefix_of(
            (match err {
                ErrorView::Temporary(msg) => msg,
                ErrorView::Permanent(msg) => msg,
            }),
        ),
{
}

} // verus!
