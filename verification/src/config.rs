//! Where and as whom to sign in.

use vstd::prelude::*;
use vstd::string::*;

use crate::error::AuthError;
#[allow(unused_imports)]
use crate::error::AuthErrorView;
use crate::issuer;
use crate::issuer::ParsedUrl;
#[allow(unused_imports)]
use crate::issuer::UrlView;
use crate::text;

verus! {

/// Configuration for the sign-in flow.
#[derive(Debug, Clone)]
pub struct OidcConfig {
    /// The OIDC issuer (e.g. `https://oauth.bex.co`). Discovery reads
    /// `{issuer}/.well-known/openid-configuration`.
    pub issuer: ParsedUrl,
    /// The public OAuth client id. The device grant needs no client secret.
    pub client_id: String,
    /// Requested scopes. Must hold `openid` for an `id_token`, and `offline_access` for a refresh
    /// token.
    pub scopes: Vec<String>,
}

/// The mathematical view of an [`OidcConfig`].
pub struct ConfigView {
    pub issuer: UrlView,
    pub client_id: Seq<char>,
    pub scopes: Seq<Seq<char>>,
}

impl View for OidcConfig {
    type V = ConfigView;

    open spec fn view(&self) -> ConfigView {
        ConfigView {
            issuer: self.issuer@,
            client_id: self.client_id@,
            scopes: text::texts(self.scopes@),
        }
    }
}

/// The client that the provider knows the desktop by: public, without a secret.
pub open spec fn default_client_id() -> Seq<char> {
    "bex-desktop"@
}

/// The scopes that are requested unless others are asked for.
pub open spec fn default_scopes() -> Seq<Seq<char>> {
    seq!["openid"@, "offline_access"@, "bex.read"@, "bex.write"@]
}

/// What the issuer is read from: the override, or else what the server URL implies.
pub open spec fn issuer_source(server_url: Seq<char>, issuer: Option<Seq<char>>) -> Seq<char> {
    match issuer {
        Some(value) => value,
        None => issuer::default_issuer_of(server_url),
    }
}

/// The client id: the override, or else the default.
pub open spec fn client_id_of(client_id: Option<Seq<char>>) -> Seq<char> {
    match client_id {
        Some(value) => value,
        None => default_client_id(),
    }
}

/// The scopes: the words of the override, or else the defaults.
pub open spec fn scopes_of(scopes: Option<Seq<char>>) -> Seq<Seq<char>> {
    match scopes {
        Some(value) => text::words(value),
        None => default_scopes(),
    }
}

/// The configuration, given what the issuer parses to.
pub open spec fn config_with_issuer(
    issuer: Result<UrlView, url::ParseError>,
    client_id: Option<Seq<char>>,
    scopes: Option<Seq<char>>,
) -> Result<ConfigView, AuthErrorView> {
    match issuer {
        Ok(issuer) => Ok(
            ConfigView {
                issuer,
                client_id: client_id_of(client_id),
                scopes: scopes_of(scopes),
            },
        ),
        Err(cause) => Err(AuthErrorView::InvalidIssuer(cause)),
    }
}

/// The view of a configuration or of why there is none.
pub open spec fn config_result(result: Result<OidcConfig, AuthError>) -> Result<
    ConfigView,
    AuthErrorView,
> {
    match result {
        Ok(config) => Ok(config@),
        Err(error) => Err(error@),
    }
}

impl OidcConfig {
    /// Builds the configuration from the environment, defaulting to bex's provider.
    ///
    /// `issuer`, `client_id` and `scopes` are the values of `BEX_OIDC_ISSUER`,
    /// `BEX_OIDC_CLIENT_ID` and `BEX_OIDC_SCOPES` (a space-separated list), where they are set.
    /// The issuer defaults to the `oauth.` subdomain of `server_url`.
    pub fn from_env(
        server_url: &str,
        issuer: Option<String>,
        client_id: Option<String>,
        scopes: Option<String>,
    ) -> (result: Result<OidcConfig, AuthError>)
        ensures
            config_result(result) == config_with_issuer(
                issuer::url_parse(issuer_source(server_url@, text::text_option(issuer))),
                text::text_option(client_id),
                text::text_option(scopes),
            ),
            issuer is None ==> (issuer::url_parse(server_url@) matches Ok(server) ==> (
            issuer::on_domain(server) ==> (result matches Ok(config) && {
                &&& config.issuer.scheme@ == server.scheme
                &&& config.issuer.host matches Some(host) && issuer::provides_for(
                    host@,
                    server.host->Some_0,
                )
            }))),
            issuer matches Some(value) ==> (issuer::url_parse(value@) matches Ok(parsed) ==> (
            result matches Ok(config) && config.issuer@ == parsed)),
            result matches Ok(config) ==> config.client_id@ == (match client_id {
                Some(value) => value@,
                None => "bex-desktop"@,
            }),
            result matches Ok(config) ==> (scopes matches Some(value) ==> text::texts(
                config.scopes@,
            ) == text::words(value@)),
    {
        let source = match issuer {
            Some(value) => value,
            None => issuer::default_issuer(server_url),
        };
        OidcConfig::with_issuer(issuer::parse_url(source.as_str()), client_id, scopes)
    }

    /// Builds the configuration, given what the issuer parses to.
    pub fn with_issuer(
        issuer: Result<ParsedUrl, url::ParseError>,
        client_id: Option<String>,
        scopes: Option<String>,
    ) -> (result: Result<OidcConfig, AuthError>)
        ensures
            config_result(result) == config_with_issuer(
                issuer::url_result(issuer),
                text::text_option(client_id),
                text::text_option(scopes),
            ),
    {
        let issuer = match issuer {
            Ok(issuer) => issuer,
            Err(cause) => return Err(AuthError::InvalidIssuer(cause)),
        };
        let ghost client_id_text = text::text_option(client_id);
        let ghost scopes_text = text::text_option(scopes);
        let client_id = match client_id {
            Some(value) => value,
            None => "bex-desktop".to_owned(),
        };
        let scopes = match scopes {
            Some(value) => text::split_words(value.as_str()),
            None => {
                let defaults: Vec<String> = vec![
                    "openid".to_owned(),
                    "offline_access".to_owned(),
                    "bex.read".to_owned(),
                    "bex.write".to_owned(),
                ];
                assert(text::texts(defaults@) =~= default_scopes());
                defaults
            },
        };
        assert(text::texts(scopes@) == scopes_of(scopes_text));
        assert(client_id@ == client_id_of(client_id_text));
        Ok(OidcConfig { issuer, client_id, scopes })
    }
}

/// With no override, the client is the desktop's own and the scopes are the defaults, which ask
/// for an `id_token` and for a refresh token.
pub proof fn defaults_ask_for_identity_and_refresh(issuer: UrlView)
    ensures
        config_with_issuer(Ok(issuer), None, None) == Ok::<ConfigView, AuthErrorView>(
            ConfigView { issuer, client_id: "bex-desktop"@, scopes: default_scopes() },
        ),
        default_scopes().contains("openid"@),
        default_scopes().contains("offline_access"@),
{
    assert(default_scopes()[0] == "openid"@);
    assert(default_scopes()[1] == "offline_access"@);
}

/// The knobs are independent: the client id and the scopes never decide whether there is a
/// configuration, and neither shows in what the other yields.
pub proof fn overrides_are_independent(
    issuer: UrlView,
    client_id: Option<Seq<char>>,
    scopes: Option<Seq<char>>,
    other_client_id: Option<Seq<char>>,
    other_scopes: Option<Seq<char>>,
)
    ensures
        config_with_issuer(Ok(issuer), client_id, scopes) is Ok,
        config_with_issuer(Ok(issuer), client_id, scopes)->Ok_0.client_id == config_with_issuer(
            Ok(issuer),
            client_id,
            other_scopes,
        )->Ok_0.client_id,
        config_with_issuer(Ok(issuer), client_id, scopes)->Ok_0.scopes == config_with_issuer(
            Ok(issuer),
            other_client_id,
            scopes,
        )->Ok_0.scopes,
{
}

/// Every scope of a configuration is a word, whatever the override holds.
pub proof fn scopes_are_words(scopes: Option<Seq<char>>)
    ensures
        forall|i: int|
            0 <= i < scopes_of(scopes).len() ==> text::is_word(#[trigger] scopes_of(scopes)[i]),
{
    match scopes {
        Some(value) => text::words_are_words(value),
        None => {
            reveal_strlit("openid");
            reveal_strlit("offline_access");
            reveal_strlit("bex.read");
            reveal_strlit("bex.write");
            assert(text::is_word("openid"@));
            assert(text::is_word("offline_access"@));
            assert(text::is_word("bex.read"@));
            assert(text::is_word("bex.write"@));
        },
    }
}

/// Where each setting comes from. The issuer is what the override parses to; without one, it is
/// what the server's scheme and the provider of its host parse to; and without a server that has a
/// host, what the public issuer parses to. The client id is the override, or the desktop's own. The
/// scopes are the words of the override, or the four of the desktop.
pub proof fn settings_come_from_the_environment(
    server_url: Seq<char>,
    issuer: Option<Seq<char>>,
    client_id: Option<Seq<char>>,
    scopes: Option<Seq<char>>,
    provider: Seq<char>,
)
    ensures
        ({
            let result = config_with_issuer(
                issuer::url_parse(issuer_source(server_url, issuer)),
                client_id,
                scopes,
            );
            let source = match issuer {
                Some(value) => Some(value),
                None => match issuer::url_parse(server_url) {
                    Ok(server) => match server.host {
                        Some(host) => if issuer::provides_for(provider, host) {
                            Some(server.scheme + "://"@ + provider)
                        } else {
                            None
                        },
                        None => Some("https://oauth.bex.co"@),
                    },
                    Err(_) => Some("https://oauth.bex.co"@),
                },
            };
            &&& source matches Some(origin) ==> (issuer::url_parse(origin) matches Ok(parsed) ==> (
            result matches Ok(config) && config.issuer == parsed))
            &&& source matches Some(origin) ==> (issuer::url_parse(origin) matches Err(cause)
                ==> result == Err::<ConfigView, AuthErrorView>(AuthErrorView::InvalidIssuer(cause)))
            &&& result matches Ok(config) ==> {
                &&& client_id matches Some(value) ==> config.client_id == value
                &&& client_id is None ==> config.client_id == "bex-desktop"@
                &&& scopes matches Some(value) ==> config.scopes == text::words(value)
                &&& scopes is None ==> config.scopes == seq![
                    "openid"@,
                    "offline_access"@,
                    "bex.read"@,
                    "bex.write"@,
                ]
            }
        }),
{
    issuer::issuer_names_the_provider_of_the_server(server_url, provider);
}

/// The view of a configuration shows each of its settings as it is.
pub proof fn config_view_is_faithful(config: OidcConfig, i: int)
    requires
        0 <= i < config.scopes@.len(),
    ensures
        config@.issuer == config.issuer@,
        config@.client_id == config.client_id@,
        config@.scopes.len() == config.scopes@.len(),
        config@.scopes[i] == config.scopes@[i]@,
{
}

} // verus!
