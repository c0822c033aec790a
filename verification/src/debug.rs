//! Debug texts of a configuration and of a provider, in the two layouts that
//! `{:?}` and `{:#?}` ask for. Secrets are replaced by a marker before anything
//! is written.

use vstd::prelude::*;
use vstd::string::*;

use crate::config::{ConfigView, Oauth2Config};

verus! {

/// What `Debug` writes for a string: quotes around the text, with special
/// characters escaped.
pub uninterp spec fn quoted(text: Seq<char>) -> Seq<char>;

/// Calls the standard library's `Debug` formatting of `str`. Claims that the
/// outcome is a function of the text alone; which characters are escaped, and
/// how, is not said.
#[verifier::external_body]
fn quote(text: &str) -> (r: String)
    ensures
        r@ == quoted(text@),
{
    format!("{:?}", text)
}

/// What stands in the place of a secret.
pub open spec fn redacted_value(secret: Option<Seq<char>>) -> Option<Seq<char>> {
    match secret {
        Some(_) => Some("<redacted>"@),
        None => None,
    }
}

/// The configuration that may be shown: every secret replaced by a marker.
pub open spec fn redacted(config: ConfigView) -> ConfigView {
    ConfigView {
        token: redacted_value(config.token),
        refresh_token: redacted_value(config.refresh_token),
        client_secret: redacted_value(config.client_secret),
        ..config
    }
}

pub open spec fn quoted_value(value: Option<Seq<char>>) -> Option<Seq<char>> {
    match value {
        Some(text) => Some(quoted(text)),
        None => None,
    }
}

/// The configuration with every value quoted.
pub open spec fn quoted_config(config: ConfigView) -> ConfigView {
    ConfigView {
        username: quoted_value(config.username),
        token: quoted_value(config.token),
        token_url: quoted_value(config.token_url),
        refresh_token: quoted_value(config.refresh_token),
        client_id: quoted_value(config.client_id),
        client_secret: quoted_value(config.client_secret),
        scope: quoted_value(config.scope),
    }
}

/// How an optional value is written after its field's name. With `alternate`
/// the value has a line of its own, eight columns deeper than the struct.
pub open spec fn option_text(
    value: Option<Seq<char>>,
    alternate: bool,
    indent: Seq<char>,
) -> Seq<char> {
    match value {
        None => "None"@,
        Some(text) => if alternate {
            "Some(\n"@ + indent + "        "@ + text + ",\n"@ + indent + "    )"@
        } else {
            "Some("@ + text + ")"@
        },
    }
}

/// How a field is written, with what separates it from what stands before it.
/// With `alternate` each field has a line of its own, four columns deeper than
/// the struct, which itself stands at `indent`.
pub open spec fn entry_text(
    first: bool,
    name: Seq<char>,
    value: Option<Seq<char>>,
    alternate: bool,
    indent: Seq<char>,
) -> Seq<char> {
    let lead = match (alternate, first) {
        (false, true) => " { "@,
        (false, false) => ", "@,
        (true, true) => " {\n"@ + indent + "    "@,
        (true, false) => indent + "    "@,
    };
    let end = if alternate {
        ",\n"@
    } else {
        ""@
    };
    lead + name + ": "@ + option_text(value, alternate, indent) + end
}

/// How a struct ends.
pub open spec fn closing_text(alternate: bool, indent: Seq<char>) -> Seq<char> {
    if alternate {
        indent + "}"@
    } else {
        " }"@
    }
}

/// The debug text of a configuration whose values are given as they are to be
/// written.
pub open spec fn config_text(shown: ConfigView, alternate: bool, indent: Seq<char>) -> Seq<char> {
    "Oauth2Config"@ + entry_text(true, "username"@, shown.username, alternate, indent)
        + entry_text(false, "token"@, shown.token, alternate, indent) + entry_text(
        false,
        "token_url"@,
        shown.token_url,
        alternate,
        indent,
    ) + entry_text(false, "refresh_token"@, shown.refresh_token, alternate, indent) + entry_text(
        false,
        "client_id"@,
        shown.client_id,
        alternate,
        indent,
    ) + entry_text(false, "client_secret"@, shown.client_secret, alternate, indent) + entry_text(
        false,
        "scope"@,
        shown.scope,
        alternate,
        indent,
    ) + closing_text(alternate, indent)
}

/// The debug text of a configuration.
pub open spec fn config_debug_text(config: ConfigView, alternate: bool) -> Seq<char> {
    config_text(quoted_config(redacted(config)), alternate, ""@)
}

/// The debug text of a provider whose configuration is given as it is to be
/// written.
pub open spec fn provider_text(shown: ConfigView, alternate: bool) -> Seq<char> {
    if alternate {
        "OutboundOauth2 {\n    config: "@ + config_text(shown, true, "    "@) + ",\n}"@
    } else {
        "OutboundOauth2 { config: "@ + config_text(shown, false, ""@) + " }"@
    }
}

/// The debug text of a provider.
pub open spec fn provider_debug_text(config: ConfigView, alternate: bool) -> Seq<char> {
    provider_text(quoted_config(redacted(config)), alternate)
}

fn redact(secret: &Option<String>) -> (r: Option<String>)
    ensures
        r.deep_view() == redacted_value(secret.deep_view()),
{
    match secret {
        Some(_) => Some("<redacted>".to_owned()),
        None => None,
    }
}

fn quote_option(value: &Option<String>) -> (r: Option<String>)
    ensures
        r.deep_view() == quoted_value(value.deep_view()),
{
    match value {
        Some(text) => Some(quote(text.as_str())),
        None => None,
    }
}

fn quote_config(config: &Oauth2Config) -> (r: Oauth2Config)
    ensures
        r@ == quoted_config(config@),
{
    Oauth2Config {
        username: quote_option(&config.username),
        token: quote_option(&config.token),
        token_url: quote_option(&config.token_url),
        refresh_token: quote_option(&config.refresh_token),
        client_id: quote_option(&config.client_id),
        client_secret: quote_option(&config.client_secret),
        scope: quote_option(&config.scope),
    }
}

fn push_option(out: &mut String, value: &Option<String>, alternate: bool, indent: &str)
    ensures
        final(out)@ == old(out)@ + option_text(value.deep_view(), alternate, indent@),
{
    let ghost before = out@;
    match value {
        None => {
            out.append("None");
        },
        Some(text) => {
            if alternate {
                out.append("Some(\n");
                out.append(indent);
                out.append("        ");
                out.append(text.as_str());
                out.append(",\n");
                out.append(indent);
                out.append("    )");
            } else {
                out.append("Some(");
                out.append(text.as_str());
                out.append(")");
            }
        },
    }
    assert(out@ =~= before + option_text(value.deep_view(), alternate, indent@));
}

fn push_entry(
    out: &mut String,
    first: bool,
    name: &str,
    value: &Option<String>,
    alternate: bool,
    indent: &str,
)
    ensures
        final(out)@ == old(out)@ + entry_text(first, name@, value.deep_view(), alternate, indent@),
{
    proof {
        reveal_strlit("");
    }
    let ghost before = out@;
    if alternate {
        if first {
            out.append(" {\n");
        }
        out.append(indent);
        out.append("    ");
    } else if first {
        out.append(" { ");
    } else {
        out.append(", ");
    }
    out.append(name);
    out.append(": ");
    push_option(out, value, alternate, indent);
    if alternate {
        out.append(",\n");
    }
    assert(out@ =~= before + entry_text(first, name@, value.deep_view(), alternate, indent@));
}

/// Writes the debug text of a configuration whose values are given as they are
/// to be written, as a struct that stands at `indent`.
pub fn render_config(shown: &Oauth2Config, alternate: bool, indent: &str) -> (out: String)
    ensures
        out@ == config_text(shown@, alternate, indent@),
{
    let mut out = "Oauth2Config".to_owned();
    push_entry(&mut out, true, "username", &shown.username, alternate, indent);
    push_entry(&mut out, false, "token", &shown.token, alternate, indent);
    push_entry(&mut out, false, "token_url", &shown.token_url, alternate, indent);
    push_entry(&mut out, false, "refresh_token", &shown.refresh_token, alternate, indent);
    push_entry(&mut out, false, "client_id", &shown.client_id, alternate, indent);
    push_entry(&mut out, false, "client_secret", &shown.client_secret, alternate, indent);
    push_entry(&mut out, false, "scope", &shown.scope, alternate, indent);
    let ghost before = out@;
    if alternate {
        out.append(indent);
        out.append("}");
    } else {
        out.append(" }");
    }
    assert(out@ =~= before + closing_text(alternate, indent@));
    out
}

/// Writes the debug text of a provider whose configuration is given as it is
/// to be written.
pub fn render_provider(shown: &Oauth2Config, alternate: bool) -> (out: String)
    ensures
        out@ == provider_text(shown@, alternate),
{
    if alternate {
        let mut out = "OutboundOauth2 {\n    config: ".to_owned();
        let config = render_config(shown, true, "    ");
        out.append(config.as_str());
        out.append(",\n}");
        out
    } else {
        let mut out = "OutboundOauth2 { config: ".to_owned();
        let config = render_config(shown, false, "");
        out.append(config.as_str());
        out.append(" }");
        out
    }
}

impl Oauth2Config {
    /// The configuration that may be shown: every secret replaced by a marker.
    pub fn redacted(&self) -> (r: Oauth2Config)
        ensures
            r@ == redacted(self@),
            r.username.deep_view() == self.username.deep_view(),
            r.token_url.deep_view() == self.token_url.deep_view(),
            r.client_id.deep_view() == self.client_id.deep_view(),
            r.scope.deep_view() == self.scope.deep_view(),
            r.token is Some <==> self.token is Some,
            r.refresh_token is Some <==> self.refresh_token is Some,
            r.client_secret is Some <==> self.client_secret is Some,
            r.token matches Some(text) ==> text@ == "<redacted>"@,
            r.refresh_token matches Some(text) ==> text@ == "<redacted>"@,
            r.client_secret matches Some(text) ==> text@ == "<redacted>"@,
    {
        Oauth2Config {
            username: self.username.clone(),
            token: redact(&self.token),
            token_url: self.token_url.clone(),
            refresh_token: redact(&self.refresh_token),
            client_id: self.client_id.clone(),
            client_secret: redact(&self.client_secret),
            scope: self.scope.clone(),
        }
    }

    /// The redacted configuration with its values quoted, ready to be written.
    pub(crate) fn shown(&self) -> (r: Oauth2Config)
        ensures
            r@ == quoted_config(redacted(self@)),
    {
        let visible = self.redacted();
        quote_config(&visible)
    }

    /// The debug text, with `alternate` the one that `{:#?}` asks for. Secrets
    /// show as `Some("<redacted>")` or `None`.
    pub fn to_debug_string(&self, alternate: bool) -> (out: String)
        ensures
            out@ == config_debug_text(self@, alternate),
    {
        let shown = self.shown();
        render_config(&shown, alternate, "")
    }
}

/// Two configurations that differ only in what their secrets are.
pub open spec fn differ_in_secrets_only(a: ConfigView, b: ConfigView) -> bool {
    &&& a.username == b.username
    &&& a.token_url == b.token_url
    &&& a.client_id == b.client_id
    &&& a.scope == b.scope
    &&& a.token is Some <==> b.token is Some
    &&& a.refresh_token is Some <==> b.refresh_token is Some
    &&& a.client_secret is Some <==> b.client_secret is Some
}

/// Debug texts report of each secret only whether it is present: nothing else
/// about a secret can be told from them.
pub proof fn law_debug_text_hides_secrets(a: ConfigView, b: ConfigView, alternate: bool)
    requires
        differ_in_secrets_only(a, b),
    ensures
        config_debug_text(a, alternate) == config_debug_text(b, alternate),
        provider_debug_text(a, alternate) == provider_debug_text(b, alternate),
{
    assert(redacted(a) == redacted(b));
}

proof fn lemma_entry_tells_presence(
    before: Seq<char>,
    name: Seq<char>,
    a: Option<Seq<char>>,
    b: Option<Seq<char>>,
    alternate: bool,
    indent: Seq<char>,
    after_a: Seq<char>,
    after_b: Seq<char>,
)
    requires
        before + entry_text(false, name, a, alternate, indent) + after_a == before + entry_text(
            false,
            name,
            b,
            alternate,
            indent,
        ) + after_b,
    ensures
        a is Some <==> b is Some,
{
    reveal_strlit("None");
    reveal_strlit("Some(");
    reveal_strlit("Some(\n");
    let lead = if alternate {
        indent + "    "@
    } else {
        ", "@
    };
    let at = before.len() + (lead + name + ": "@).len();
    let text_a = before + entry_text(false, name, a, alternate, indent) + after_a;
    let text_b = before + entry_text(false, name, b, alternate, indent) + after_b;
    assert(text_a[at as int] == option_text(a, alternate, indent)[0]);
    assert(text_b[at as int] == option_text(b, alternate, indent)[0]);
}

/// Three ways to part the text of a struct: around its second, its fourth and
/// its sixth field.
proof fn lemma_parts(
    name: Seq<char>,
    f1: Seq<char>,
    f2: Seq<char>,
    f3: Seq<char>,
    f4: Seq<char>,
    f5: Seq<char>,
    f6: Seq<char>,
    f7: Seq<char>,
    end: Seq<char>,
)
    ensures
        ({
            let text = name + f1 + f2 + f3 + f4 + f5 + f6 + f7 + end;
            &&& text == (name + f1) + f2 + (f3 + f4 + f5 + f6 + f7 + end)
            &&& text == (name + f1 + f2 + f3) + f4 + (f5 + f6 + f7 + end)
            &&& text == (name + f1 + f2 + f3 + f4 + f5) + f6 + (f7 + end)
        }),
{
    let text = name + f1 + f2 + f3 + f4 + f5 + f6 + f7 + end;
    assert(text =~= (name + f1) + f2 + (f3 + f4 + f5 + f6 + f7 + end));
    assert(text =~= (name + f1 + f2 + f3) + f4 + (f5 + f6 + f7 + end));
    assert(text =~= (name + f1 + f2 + f3 + f4 + f5) + f6 + (f7 + end));
}

proof fn lemma_config_text_tells_presence(
    sa: ConfigView,
    sb: ConfigView,
    alternate: bool,
    indent: Seq<char>,
)
    requires
        sa.username == sb.username,
        sa.token_url == sb.token_url,
        sa.client_id == sb.client_id,
        sa.scope == sb.scope,
        sa.token is Some && sb.token is Some ==> sa.token == sb.token,
        sa.refresh_token is Some && sb.refresh_token is Some ==> sa.refresh_token
            == sb.refresh_token,
        config_text(sa, alternate, indent) == config_text(sb, alternate, indent),
    ensures
        sa.token is Some <==> sb.token is Some,
        sa.refresh_token is Some <==> sb.refresh_token is Some,
        sa.client_secret is Some <==> sb.client_secret is Some,
{
    let name = "Oauth2Config"@;
    let f1 = entry_text(true, "username"@, sa.username, alternate, indent);
    let f2a = entry_text(false, "token"@, sa.token, alternate, indent);
    let f2b = entry_text(false, "token"@, sb.token, alternate, indent);
    let f3 = entry_text(false, "token_url"@, sa.token_url, alternate, indent);
    let f4a = entry_text(false, "refresh_token"@, sa.refresh_token, alternate, indent);
    let f4b = entry_text(false, "refresh_token"@, sb.refresh_token, alternate, indent);
    let f5 = entry_text(false, "client_id"@, sa.client_id, alternate, indent);
    let f6a = entry_text(false, "client_secret"@, sa.client_secret, alternate, indent);
    let f6b = entry_text(false, "client_secret"@, sb.client_secret, alternate, indent);
    let f7 = entry_text(false, "scope"@, sa.scope, alternate, indent);
    let end = closing_text(alternate, indent);
    lemma_parts(name, f1, f2a, f3, f4a, f5, f6a, f7, end);
    lemma_parts(name, f1, f2b, f3, f4b, f5, f6b, f7, end);
    lemma_entry_tells_presence(
        name + f1,
        "token"@,
        sa.token,
        sb.token,
        alternate,
        indent,
        f3 + f4a + f5 + f6a + f7 + end,
        f3 + f4b + f5 + f6b + f7 + end,
    );
    assert(f2a == f2b);
    lemma_entry_tells_presence(
        name + f1 + f2a + f3,
        "refresh_token"@,
        sa.refresh_token,
        sb.refresh_token,
        alternate,
        indent,
        f5 + f6a + f7 + end,
        f5 + f6b + f7 + end,
    );
    assert(f4a == f4b);
    lemma_entry_tells_presence(
        name + f1 + f2a + f3 + f4a + f5,
        "client_secret"@,
        sa.client_secret,
        sb.client_secret,
        alternate,
        indent,
        f7 + end,
        f7 + end,
    );
}

proof fn lemma_same_middle(before: Seq<char>, a: Seq<char>, b: Seq<char>, after: Seq<char>)
    requires
        before + a + after == before + b + after,
    ensures
        a == b,
{
    let text_a = before + a + after;
    let text_b = before + b + after;
    assert(a.len() == b.len()) by {
        assert(text_a.len() == before.len() + a.len() + after.len());
        assert(text_b.len() == before.len() + b.len() + after.len());
    }
    assert(a =~= text_a.subrange(before.len() as int, (before.len() + a.len()) as int));
    assert(b =~= text_b.subrange(before.len() as int, (before.len() + b.len()) as int));
}

/// Debug texts report whether each secret is present: of two configurations
/// with the same open settings, those with the same text have the same secrets
/// set.
pub proof fn law_debug_text_reports_presence(a: ConfigView, b: ConfigView, alternate: bool)
    requires
        a.username == b.username,
        a.token_url == b.token_url,
        a.client_id == b.client_id,
        a.scope == b.scope,
        config_debug_text(a, alternate) == config_debug_text(b, alternate) || provider_debug_text(
            a,
            alternate,
        ) == provider_debug_text(b, alternate),
    ensures
        differ_in_secrets_only(a, b),
{
    let sa = quoted_config(redacted(a));
    let sb = quoted_config(redacted(b));
    if config_debug_text(a, alternate) == config_debug_text(b, alternate) {
        lemma_config_text_tells_presence(sa, sb, alternate, ""@);
    } else if alternate {
        let indent = "    "@;
        lemma_same_middle(
            "OutboundOauth2 {\n    config: "@,
            config_text(sa, true, indent),
            config_text(sb, true, indent),
            ",\n}"@,
        );
        lemma_config_text_tells_presence(sa, sb, true, indent);
    } else {
        lemma_same_middle(
            "OutboundOauth2 { config: "@,
            config_text(sa, false, ""@),
            config_text(sb, false, ""@),
            " }"@,
        );
    }
}

proof fn lemma_plain_leads()
    ensures
        "Oauth2Config"@ + " { "@ + "username"@ + ": "@ == "Oauth2Config { username: "@,
        ", "@ + "token"@ + ": "@ == ", token: "@,
        ", "@ + "token_url"@ + ": "@ == ", token_url: "@,
        ", "@ + "refresh_token"@ + ": "@ == ", refresh_token: "@,
        ", "@ + "client_id"@ + ": "@ == ", client_id: "@,
        ", "@ + "client_secret"@ + ": "@ == ", client_secret: "@,
        ", "@ + "scope"@ + ": "@ == ", scope: "@,
{
    reveal_strlit("Oauth2Config");
    reveal_strlit(" { ");
    reveal_strlit(", ");
    reveal_strlit(": ");
    reveal_strlit("Oauth2Config { username: ");
    reveal_strlit("username");
    reveal_strlit("token");
    reveal_strlit("token_url");
    reveal_strlit("refresh_token");
    reveal_strlit("client_id");
    reveal_strlit("client_secret");
    reveal_strlit("scope");
    reveal_strlit(", token: ");
    reveal_strlit(", token_url: ");
    reveal_strlit(", refresh_token: ");
    reveal_strlit(", client_id: ");
    reveal_strlit(", client_secret: ");
    reveal_strlit(", scope: ");
    assert("Oauth2Config"@ + " { "@ + "username"@ + ": "@ =~= "Oauth2Config { username: "@);
    assert(", "@ + "token"@ + ": "@ =~= ", token: "@);
    assert(", "@ + "token_url"@ + ": "@ =~= ", token_url: "@);
    assert(", "@ + "refresh_token"@ + ": "@ =~= ", refresh_token: "@);
    assert(", "@ + "client_id"@ + ": "@ =~= ", client_id: "@);
    assert(", "@ + "client_secret"@ + ": "@ =~= ", client_secret: "@);
    assert(", "@ + "scope"@ + ": "@ =~= ", scope: "@);
}

proof fn lemma_alternate_leads()
    ensures
        "Oauth2Config"@ + " {\n"@ == "Oauth2Config {\n"@,
        "    "@ + "username"@ + ": "@ == "    username: "@,
        "    "@ + "token"@ + ": "@ == "    token: "@,
        "    "@ + "token_url"@ + ": "@ == "    token_url: "@,
        "    "@ + "refresh_token"@ + ": "@ == "    refresh_token: "@,
        "    "@ + "client_id"@ + ": "@ == "    client_id: "@,
        "    "@ + "client_secret"@ + ": "@ == "    client_secret: "@,
        "    "@ + "scope"@ + ": "@ == "    scope: "@,
{
    reveal_strlit("Oauth2Config");
    reveal_strlit(" {\n");
    reveal_strlit("    ");
    reveal_strlit(": ");
    reveal_strlit("Oauth2Config {\n");
    reveal_strlit("username");
    reveal_strlit("token");
    reveal_strlit("token_url");
    reveal_strlit("refresh_token");
    reveal_strlit("client_id");
    reveal_strlit("client_secret");
    reveal_strlit("scope");
    reveal_strlit("    username: ");
    reveal_strlit("    token: ");
    reveal_strlit("    token_url: ");
    reveal_strlit("    refresh_token: ");
    reveal_strlit("    client_id: ");
    reveal_strlit("    client_secret: ");
    reveal_strlit("    scope: ");
    assert("Oauth2Config"@ + " {\n"@ =~= "Oauth2Config {\n"@);
    assert("    "@ + "username"@ + ": "@ =~= "    username: "@);
    assert("    "@ + "token"@ + ": "@ =~= "    token: "@);
    assert("    "@ + "token_url"@ + ": "@ =~= "    token_url: "@);
    assert("    "@ + "refresh_token"@ + ": "@ =~= "    refresh_token: "@);
    assert("    "@ + "client_id"@ + ": "@ =~= "    client_id: "@);
    assert("    "@ + "client_secret"@ + ": "@ =~= "    client_secret: "@);
    assert("    "@ + "scope"@ + ": "@ =~= "    scope: "@);
}

proof fn lemma_plain_entry(
    before: Seq<char>,
    name: Seq<char>,
    value: Option<Seq<char>>,
    indent: Seq<char>,
    lead: Seq<char>,
)
    requires
        ", "@ + name + ": "@ == lead,
    ensures
        before + entry_text(false, name, value, false, indent) == before + lead + option_text(
            value,
            false,
            indent,
        ),
{
    reveal_strlit("");
    assert(entry_text(false, name, value, false, indent) =~= lead + option_text(
        value,
        false,
        indent,
    ));
    assert(before + (lead + option_text(value, false, indent)) =~= before + lead + option_text(
        value,
        false,
        indent,
    ));
}

proof fn lemma_alternate_entry(
    before: Seq<char>,
    name: Seq<char>,
    value: Option<Seq<char>>,
    indent: Seq<char>,
    lead: Seq<char>,
)
    requires
        "    "@ + name + ": "@ == lead,
    ensures
        before + entry_text(false, name, value, true, indent) == before + indent + lead
            + option_text(value, true, indent) + ",\n"@,
{
    let text = option_text(value, true, indent);
    assert(indent + "    "@ + name + ": "@ =~= indent + lead);
    assert(before + (indent + lead + text + ",\n"@) =~= before + indent + lead + text + ",\n"@);
}

/// The one-line layout, in full: the seven settings by name and in order, each
/// as `None` or as its value inside `Some(` and `)`.
pub proof fn law_plain_config_text(shown: ConfigView, indent: Seq<char>)
    ensures
        ({
            let shown_value = |value: Option<Seq<char>>|
                (match value {
                    Some(text) => "Some("@ + text + ")"@,
                    None => "None"@,
                });
            config_text(shown, false, indent) == "Oauth2Config { username: "@ + shown_value(shown.username)
                + ", token: "@ + shown_value(shown.token)
                + ", token_url: "@ + shown_value(shown.token_url)
                + ", refresh_token: "@ + shown_value(shown.refresh_token)
                + ", client_id: "@ + shown_value(shown.client_id)
                + ", client_secret: "@ + shown_value(shown.client_secret)
                + ", scope: "@ + shown_value(shown.scope)
                + " }"@
        }),
{
    lemma_plain_leads();
    reveal_strlit("");
    let x1 = "Oauth2Config { username: "@ + option_text(shown.username, false, indent);
    assert("Oauth2Config"@ + entry_text(true, "username"@, shown.username, false, indent) =~= (
    "Oauth2Config"@ + " { "@ + "username"@ + ": "@) + option_text(shown.username, false, indent));
    let x2 = x1 + ", token: "@ + option_text(shown.token, false, indent);
    lemma_plain_entry(x1, "token"@, shown.token, indent, ", token: "@);
    let x3 = x2 + ", token_url: "@ + option_text(shown.token_url, false, indent);
    lemma_plain_entry(x2, "token_url"@, shown.token_url, indent, ", token_url: "@);
    let x4 = x3 + ", refresh_token: "@ + option_text(shown.refresh_token, false, indent);
    lemma_plain_entry(x3, "refresh_token"@, shown.refresh_token, indent, ", refresh_token: "@);
    let x5 = x4 + ", client_id: "@ + option_text(shown.client_id, false, indent);
    lemma_plain_entry(x4, "client_id"@, shown.client_id, indent, ", client_id: "@);
    let x6 = x5 + ", client_secret: "@ + option_text(shown.client_secret, false, indent);
    lemma_plain_entry(x5, "client_secret"@, shown.client_secret, indent, ", client_secret: "@);
    let x7 = x6 + ", scope: "@ + option_text(shown.scope, false, indent);
    lemma_plain_entry(x6, "scope"@, shown.scope, indent, ", scope: "@);
    assert(config_text(shown, false, indent) == x7 + " }"@);
}

/// The layout over several lines, in full: the seven settings by name and in
/// order, each on a line of its own four columns deeper than the struct, and
/// each value that is there on a line of its own four columns deeper still.
pub proof fn law_alternate_config_text(shown: ConfigView, indent: Seq<char>)
    ensures
        ({
            let shown_value = |value: Option<Seq<char>>|
                (match value {
                    Some(text) => "Some(\n"@ + indent + "        "@ + text + ",\n"@ + indent
                        + "    )"@,
                    None => "None"@,
                });
            config_text(shown, true, indent) == "Oauth2Config {\n"@
                + indent + "    username: "@ + shown_value(shown.username) + ",\n"@
                + indent + "    token: "@ + shown_value(shown.token) + ",\n"@
                + indent + "    token_url: "@ + shown_value(shown.token_url) + ",\n"@
                + indent + "    refresh_token: "@ + shown_value(shown.refresh_token) + ",\n"@
                + indent + "    client_id: "@ + shown_value(shown.client_id) + ",\n"@
                + indent + "    client_secret: "@ + shown_value(shown.client_secret) + ",\n"@
                + indent + "    scope: "@ + shown_value(shown.scope) + ",\n"@
                + indent + "}"@
        }),
{
    lemma_alternate_leads();
    let u = option_text(shown.username, true, indent);
    let x1 = "Oauth2Config {\n"@ + indent + "    username: "@ + u + ",\n"@;
    assert("Oauth2Config"@ + entry_text(true, "username"@, shown.username, true, indent) == x1) by {
        let e = " {\n"@ + indent + "    "@ + "username"@ + ": "@ + u + ",\n"@;
        assert(" {\n"@ + indent + "    "@ + "username"@ + ": "@ =~= " {\n"@ + indent + ("    "@
            + "username"@ + ": "@));
        assert("Oauth2Config"@ + (" {\n"@ + indent + "    username: "@ + u + ",\n"@) =~= (
        "Oauth2Config"@ + " {\n"@) + indent + "    username: "@ + u + ",\n"@);
        assert(entry_text(true, "username"@, shown.username, true, indent) == e);
    }
    let x2 = x1 + indent + "    token: "@ + option_text(shown.token, true, indent) + ",\n"@;
    lemma_alternate_entry(x1, "token"@, shown.token, indent, "    token: "@);
    let x3 = x2 + indent + "    token_url: "@ + option_text(shown.token_url, true, indent) + ",\n"@;
    lemma_alternate_entry(x2, "token_url"@, shown.token_url, indent, "    token_url: "@);
    let x4 = x3 + indent + "    refresh_token: "@ + option_text(shown.refresh_token, true, indent) + ",\n"@;
    lemma_alternate_entry(x3, "refresh_token"@, shown.refresh_token, indent, "    refresh_token: "@);
    let x5 = x4 + indent + "    client_id: "@ + option_text(shown.client_id, true, indent) + ",\n"@;
    lemma_alternate_entry(x4, "client_id"@, shown.client_id, indent, "    client_id: "@);
    let x6 = x5 + indent + "    client_secret: "@ + option_text(shown.client_secret, true, indent) + ",\n"@;
    lemma_alternate_entry(x5, "client_secret"@, shown.client_secret, indent, "    client_secret: "@);
    let x7 = x6 + indent + "    scope: "@ + option_text(shown.scope, true, indent) + ",\n"@;
    lemma_alternate_entry(x6, "scope"@, shown.scope, indent, "    scope: "@);
    assert(config_text(shown, true, indent) == x7 + (indent + "}"@));
    assert(x7 + (indent + "}"@) =~= x7 + indent + "}"@);
}

/// The debug text of a configuration shows the four open settings quoted, and
/// a quoted marker for each secret that is set.
pub proof fn law_debug_text_shows_open_settings_and_markers(config: ConfigView, alternate: bool)
    ensures
        ({
            let open = |value: Option<Seq<char>>|
                (match value {
                    Some(text) => Some(quoted(text)),
                    None => None,
                });
            let secret = |value: Option<Seq<char>>|
                (match value {
                    Some(_) => Some(quoted("<redacted>"@)),
                    None => None,
                });
            let shown = ConfigView {
                username: open(config.username),
                token: secret(config.token),
                token_url: open(config.token_url),
                refresh_token: secret(config.refresh_token),
                client_id: open(config.client_id),
                client_secret: secret(config.client_secret),
                scope: open(config.scope),
            };
            &&& config_debug_text(config, alternate) == config_text(
                shown,
                alternate,
                Seq::<char>::empty(),
            )
            &&& provider_debug_text(config, alternate) == provider_text(shown, alternate)
        }),
{
    reveal_strlit("");
    assert(""@ =~= Seq::<char>::empty());
}

/// The debug text of a provider is that of its configuration as its one field,
/// on the same line or, over several lines, four columns deeper.
pub proof fn law_provider_text_wraps_config_text(shown: ConfigView)
    ensures
        provider_text(shown, false) == "OutboundOauth2 { config: "@ + config_text(
            shown,
            false,
            Seq::<char>::empty(),
        ) + " }"@,
        provider_text(shown, true) == "OutboundOauth2 {\n    config: "@ + config_text(
            shown,
            true,
            seq![' ', ' ', ' ', ' '],
        ) + ",\n}"@,
{
    reveal_strlit("");
    reveal_strlit("    ");
    assert(""@ =~= Seq::<char>::empty());
    assert("    "@ =~= seq![' ', ' ', ' ', ' ']);
}

/// To differ in secrets only is to have the same open settings and the same
/// secrets set.
pub proof fn law_what_differs_in_secrets_only(a: ConfigView, b: ConfigView)
    ensures
        differ_in_secrets_only(a, b) <==> {
            &&& a.username == b.username
            &&& a.token_url == b.token_url
            &&& a.client_id == b.client_id
            &&& a.scope == b.scope
            &&& a.token is None <==> b.token is None
            &&& a.refresh_token is None <==> b.refresh_token is None
            &&& a.client_secret is None <==> b.client_secret is None
        },
{
}

} // verus!
