//! The OAuth2 settings of a relay.

use vstd::prelude::*;
use vstd::string::*;

verus! {

/// Resolved OAuth2 configuration for a relay. All secret material is resolved
/// to plain values at bootstrap time; the debug text reports only whether each
/// secret is present.
#[derive(Hash)]
pub struct Oauth2Config {
    /// Identity advertised in the XOAUTH2 `user=` field.
    pub username: Option<String>,
    /// Static access token; when present it takes precedence over the token
    /// endpoint.
    pub token: Option<String>,
    /// OAuth2 token endpoint; when present a token is fetched and cached from
    /// it.
    pub token_url: Option<String>,
    /// Refresh token for the `refresh_token` grant.
    pub refresh_token: Option<String>,
    /// Client id for `client_credentials` grant (and to harden the refresh
    /// grant).
    pub client_id: Option<String>,
    /// Client secret for `client_credentials` grant.
    pub client_secret: Option<String>,
    /// Scope requested on the token endpoint.
    pub scope: Option<String>,
}

/// A configuration as contracts speak of it.
#[verifier::ext_equal]
pub struct ConfigView {
    pub username: Option<Seq<char>>,
    pub token: Option<Seq<char>>,
    pub token_url: Option<Seq<char>>,
    pub refresh_token: Option<Seq<char>>,
    pub client_id: Option<Seq<char>>,
    pub client_secret: Option<Seq<char>>,
    pub scope: Option<Seq<char>>,
}

impl View for Oauth2Config {
    type V = ConfigView;

    open spec fn view(&self) -> ConfigView {
        ConfigView {
            username: self.username.deep_view(),
            token: self.token.deep_view(),
            token_url: self.token_url.deep_view(),
            refresh_token: self.refresh_token.deep_view(),
            client_id: self.client_id.deep_view(),
            client_secret: self.client_secret.deep_view(),
            scope: self.scope.deep_view(),
        }
    }
}

impl Clone for Oauth2Config {
    fn clone(&self) -> (r: Self)
        ensures
            r == *self,
    {
        Oauth2Config {
            username: self.username.clone(),
            token: self.token.clone(),
            token_url: self.token_url.clone(),
            refresh_token: self.refresh_token.clone(),
            client_id: self.client_id.clone(),
            client_secret: self.client_secret.clone(),
            scope: self.scope.clone(),
        }
    }
}

fn same_text(a: &Option<String>, b: &Option<String>) -> (r: bool)
    ensures
        r == (a.deep_view() == b.deep_view()),
{
    match (a, b) {
        (Some(a), Some(b)) => *a == *b,
        (None, None) => true,
        _ => false,
    }
}

impl PartialEq for Oauth2Config {
    fn eq(&self, other: &Self) -> (r: bool)
        ensures
            r <==> {
                &&& self.username.deep_view() == other.username.deep_view()
                &&& self.token.deep_view() == other.token.deep_view()
                &&& self.token_url.deep_view() == other.token_url.deep_view()
                &&& self.refresh_token.deep_view() == other.refresh_token.deep_view()
                &&& self.client_id.deep_view() == other.client_id.deep_view()
                &&& self.client_secret.deep_view() == other.client_secret.deep_view()
                &&& self.scope.deep_view() == other.scope.deep_view()
            },
    {
        same_text(&self.username, &other.username) && same_text(&self.token, &other.token)
            && same_text(&self.token_url, &other.token_url) && same_text(
            &self.refresh_token,
            &other.refresh_token,
        ) && same_text(&self.client_id, &other.client_id) && same_text(
            &self.client_secret,
            &other.client_secret,
        ) && same_text(&self.scope, &other.scope)
    }
}

impl vstd::std_specs::cmp::PartialEqSpecImpl for Oauth2Config {
    open spec fn obeys_eq_spec() -> bool {
        true
    }

    open spec fn eq_spec(&self, other: &Self) -> bool {
        self@ == other@
    }
}

impl Eq for Oauth2Config {

}

/// Contracts see every setting of a configuration: whether it is there, and its
/// text.
pub proof fn law_config_view_is_faithful(config: Oauth2Config)
    ensures
        config@.username == config.username.deep_view(),
        config@.token == config.token.deep_view(),
        config@.token_url == config.token_url.deep_view(),
        config@.refresh_token == config.refresh_token.deep_view(),
        config@.client_id == config.client_id.deep_view(),
        config@.client_secret == config.client_secret.deep_view(),
        config@.scope == config.scope.deep_view(),
{
}

/// Configurations are equal exactly when they agree in each of the seven
/// settings.
pub proof fn law_configs_are_equal_by_settings(a: Oauth2Config, b: Oauth2Config)
    ensures
        vstd::std_specs::cmp::PartialEqSpec::eq_spec(&a, &b) <==> {
            &&& a.username.deep_view() == b.username.deep_view()
            &&& a.token.deep_view() == b.token.deep_view()
            &&& a.token_url.deep_view() == b.token_url.deep_view()
            &&& a.refresh_token.deep_view() == b.refresh_token.deep_view()
            &&& a.client_id.deep_view() == b.client_id.deep_view()
            &&& a.client_secret.deep_view() == b.client_secret.deep_view()
            &&& a.scope.deep_view() == b.scope.deep_view()
        },
        vstd::std_specs::cmp::PartialEqSpec::eq_spec(&a, &b) <==> a@ == b@,
{
}

} // verus!
