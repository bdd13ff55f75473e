//! URLs, and the issuer that a server URL implies.

use vstd::prelude::*;
use vstd::string::*;

use crate::text;

verus! {

/// An absolute URL, in the normal form that the URL standard gives it.
#[derive(Debug, Clone)]
pub struct ParsedUrl {
    /// The whole URL.
    pub serialization: String,
    /// The scheme, without the colon.
    pub scheme: String,
    /// The host, if the URL has one.
    pub host: Option<String>,
}

/// The mathematical view of a [`ParsedUrl`].
pub struct UrlView {
    pub serialization: Seq<char>,
    pub scheme: Seq<char>,
    pub host: Option<Seq<char>>,
}

impl View for ParsedUrl {
    type V = UrlView;

    open spec fn view(&self) -> UrlView {
        UrlView {
            serialization: self.serialization@,
            scheme: self.scheme@,
            host: text::text_option(self.host),
        }
    }
}

/// The view of what parsing a URL returned.
pub open spec fn url_result(result: Result<ParsedUrl, url::ParseError>) -> Result<
    UrlView,
    url::ParseError,
> {
    match result {
        Ok(parsed) => Ok(parsed@),
        Err(cause) => Err(cause),
    }
}

/// What `url::Url::parse` makes of a string: the URL's parts, or why it is no absolute URL.
pub uninterp spec fn url_parse(input: Seq<char>) -> Result<UrlView, url::ParseError>;

/// Whether a scheme is one of the web's.
pub open spec fn web_scheme(scheme: Seq<char>) -> bool {
    scheme == "http"@ || scheme == "https"@
}

/// Whether a text is written like an IPv4 address: four numbers, parted by dots.
pub open spec fn dotted_quad(host: Seq<char>) -> bool {
    text::segments(host, '.').len() == 4 && forall|i: int|
        0 <= i < 4 ==> is_number(#[trigger] text::segments(host, '.')[i])
}

/// Whether a text is made of digits, at least one.
pub open spec fn is_number(label: Seq<char>) -> bool {
    label.len() > 0 && forall|i: int| 0 <= i < label.len() ==> text::is_digit(#[trigger] label[i])
}

/// Whether a host is a domain name: neither an IPv6 address, which stands in brackets, nor an
/// IPv4 address.
pub open spec fn domain_name(host: Seq<char>) -> bool {
    host.len() > 0 && host[0] != '[' && !dotted_quad(host)
}

/// Whether the parser reads a host of this length, and every internationalized label in it: no
/// label that opens with `xn--` has more than two thousand characters behind that.
pub open spec fn parser_reads(host: Seq<char>) -> bool {
    &&& host.len() < 0x8000_0000
    &&& forall|i: int|
        0 <= i < text::segments(host, '.').len() && "xn--"@.is_prefix_of(
            #[trigger] text::segments(host, '.')[i],
        ) ==> text::segments(host, '.')[i].len() <= 2004
}

/// Whether a label can stand before a domain name as it is: lower-case letters, as many as a label
/// can have.
pub open spec fn plain_label(label: Seq<char>) -> bool {
    0 < label.len() <= 63 && forall|i: int|
        0 <= i < label.len() ==> 'a' <= #[trigger] label[i] <= 'z'
}

/// Whether a scheme and a host, put together, parse to that scheme and that host.
pub open spec fn origin_parses(scheme: Seq<char>, host: Seq<char>) -> bool {
    url_parse(scheme + "://"@ + host) == Ok::<UrlView, url::ParseError>(
        UrlView { serialization: scheme + "://"@ + host + "/"@, scheme, host: Some(host) },
    )
}

/// Whether a URL is one of the web's with a domain name for a host.
pub open spec fn on_domain(server: UrlView) -> bool {
    web_scheme(server.scheme) && (server.host matches Some(host) && domain_name(host)
        && parser_reads(host))
}

/// Whether the host of a URL, and every subdomain of it with a plain label, parses again behind
/// the URL's scheme, where the URL is one of the web's on a domain name.
pub open spec fn host_parses_again(server: UrlView) -> bool {
    on_domain(server) ==> {
        &&& origin_parses(server.scheme, server.host->Some_0)
        &&& forall|label: Seq<char>| #[trigger]
            plain_label(label) ==> origin_parses(
                server.scheme,
                label + "."@ + server.host->Some_0,
            )
    }
}

/// Calls `url::Url::parse`, and reads the URL that it returns with `as_str`, `scheme` and
/// `host_str`. The parse depends on the string alone; what it yields is [`url_parse`].
///
/// Of a URL with the scheme `http` or `https` whose host is a domain name it is claimed that the
/// scheme and that host, or a subdomain of it, parse again to themselves, with a slash for a path.
/// The host that the parser hands out is in its normal form, label by label: ASCII in lower case,
/// or the Punycode of a label that is valid as it stands. Read again, such a label is taken over
/// unchanged, and so is a label of letters in front, which makes no domain name an IP address. The
/// parser writes a label of up to a thousand characters as Punycode but reads two thousand
/// characters of Punycode at most, so longer ones are left out, and so are hosts near the 32-bit
/// limit on a URL. Nothing of the kind is claimed of IP addresses or of other schemes.
#[verifier::external_body]
pub(crate) fn parse_url(input: &str) -> (result: Result<ParsedUrl, url::ParseError>)
    ensures
        url_result(result) == url_parse(input@),
        result matches Ok(parsed) ==> host_parses_again(parsed@),
{
    let parsed = url::Url::parse(input)?;
    Ok(ParsedUrl {
        serialization: parsed.as_str().to_string(),
        scheme: parsed.scheme().to_string(),
        host: parsed.host_str().map(str::to_string),
    })
}

/// The host of the identity provider that serves `host`: its `oauth.` subdomain.
pub open spec fn oauth_host(host: Seq<char>) -> Seq<char> {
    if "oauth."@.is_prefix_of(host) {
        host
    } else {
        "oauth."@ + host
    }
}

/// The issuer that a server implies, given what its URL parses to. A string that is no URL, or a
/// URL without a host, implies the public issuer.
pub open spec fn issuer_of_url(server: Option<UrlView>) -> Seq<char> {
    match server {
        Some(UrlView { scheme, host: Some(host), .. }) => scheme + "://"@ + oauth_host(host),
        _ => "https://oauth.bex.co"@,
    }
}

/// The issuer that a server URL implies.
pub open spec fn default_issuer_of(server_url: Seq<char>) -> Seq<char> {
    issuer_of_url(
        match url_parse(server_url) {
            Ok(server) => Some(server),
            Err(_) => None,
        },
    )
}

/// The issuer that a server implies, given what its URL parses to.
pub fn issuer_for_url(server: Option<&ParsedUrl>) -> (issuer: String)
    ensures
        issuer@ == issuer_of_url(
            match server {
                Some(parsed) => Some(parsed@),
                None => None,
            },
        ),
{
    if let Some(parsed) = server {
        if let Some(host) = &parsed.host {
            let host = if text::starts_with(host.as_str(), "oauth.") {
                host.clone()
            } else {
                "oauth.".to_owned().concat(host.as_str())
            };
            return parsed.scheme.clone().concat("://").concat(host.as_str());
        }
    }
    "https://oauth.bex.co".to_owned()
}

/// Derives the OIDC issuer from the server URL by prefixing the `oauth.` subdomain
/// (`https://bex.co` becomes `https://oauth.bex.co`). The issuer of a web server on a domain name
/// is its own issuer: the subdomain is never prefixed twice.
pub fn default_issuer(server_url: &str) -> (issuer: String)
    ensures
        issuer@ == default_issuer_of(server_url@),
        url_parse(server_url@) matches Ok(server) && on_domain(server) ==> default_issuer_of(
            issuer@,
        ) == issuer@,
        url_parse(server_url@) matches Ok(server) ==> (on_domain(server) ==> (url_parse(
            issuer@,
        ) matches Ok(provider) && {
            &&& provider.scheme == server.scheme
            &&& provider.host matches Some(host) && provides_for(host, server.host->Some_0)
            &&& provider.serialization == issuer@ + "/"@
        })),
{
    match parse_url(server_url) {
        Ok(parsed) => {
            proof {
                lemma_issuer_of_domain(parsed@);
            }
            issuer_for_url(Some(&parsed))
        },
        Err(_) => issuer_for_url(None),
    }
}

/// Where the host of a server parses again, its issuer is its own issuer.
proof fn lemma_issuer_of_domain(server: UrlView)
    requires
        host_parses_again(server),
    ensures
        on_domain(server) ==> default_issuer_of(issuer_of_url(Some(server)))
            == issuer_of_url(Some(server)),
        on_domain(server) ==> (url_parse(issuer_of_url(Some(server))) matches Ok(provider) && {
            &&& provider.scheme == server.scheme
            &&& provider.host matches Some(host) && provides_for(host, server.host->Some_0)
            &&& provider.serialization == issuer_of_url(Some(server)) + "/"@
        }),
{
    if on_domain(server) {
        let host = server.host->Some_0;
        reveal_strlit("oauth");
        reveal_strlit(".");
        reveal_strlit("oauth.");
        assert(plain_label("oauth"@));
        assert("oauth"@ + "."@ + host =~= "oauth."@ + host);
        assert(origin_parses(server.scheme, oauth_host(host)));
        assert("oauth."@.is_prefix_of(oauth_host(host)));
        assert(provides_for(oauth_host(host), host));
    }
}

/// Which host provides the identities for `host`: the host itself where it opens with `oauth.`,
/// and otherwise the one with `oauth.` in front.
pub open spec fn provides_for(provider: Seq<char>, host: Seq<char>) -> bool {
    &&& "oauth."@.is_prefix_of(provider)
    &&& provider == host || (provider == "oauth."@ + host && !"oauth."@.is_prefix_of(host))
}

/// The issuer that a server URL implies has the server's scheme, and for a host the one that
/// provides for the server's. A server URL that does not parse or has no host implies the public
/// issuer.
pub proof fn issuer_names_the_provider_of_the_server(server_url: Seq<char>, provider: Seq<char>)
    ensures
        url_parse(server_url) matches Ok(server) ==> (server.host matches Some(host) ==> (
        provides_for(provider, host) ==> default_issuer_of(server_url) == server.scheme + "://"@
            + provider)),
        !(url_parse(server_url) matches Ok(server) && server.host is Some) ==> default_issuer_of(
            server_url,
        ) == "https://oauth.bex.co"@,
{
}

/// Every host has one provider.
pub proof fn every_host_has_one_provider(host: Seq<char>, provider: Seq<char>, other: Seq<char>)
    ensures
        provides_for(host, host) || provides_for("oauth."@ + host, host),
        provides_for(provider, host) && provides_for(other, host) ==> provider == other,
{
    assert("oauth."@.is_prefix_of("oauth."@ + host));
}

/// The same of a server whose URL has been parsed already.
pub proof fn issuer_of_a_parsed_server(server: UrlView, provider: Seq<char>)
    ensures
        server.host matches Some(host) ==> (provides_for(provider, host) ==> issuer_of_url(
            Some(server),
        ) == server.scheme + "://"@ + provider),
        server.host is None ==> issuer_of_url(Some(server)) == "https://oauth.bex.co"@,
        issuer_of_url(None) == "https://oauth.bex.co"@,
{
}

/// The view of a URL shows each of its parts as it is.
pub proof fn url_view_is_faithful(parsed: ParsedUrl)
    ensures
        parsed@.serialization == parsed.serialization@,
        parsed@.scheme == parsed.scheme@,
        parsed@.host == (match parsed.host {
            Some(host) => Some(host@),
            None => None,
        }),
{
}

/// The issuer of an issuer is itself, wherever the derived issuer parses to the scheme and the
/// host that it was put together from: deriving twice prefixes the subdomain once.
pub proof fn issuer_of_an_issuer_is_itself(server_url: Seq<char>)
    ensures
        url_parse(server_url) matches Ok(server) && (server.host matches Some(host) && (url_parse(
            default_issuer_of(server_url),
        ) matches Ok(issuer) && issuer.scheme == server.scheme && issuer.host == Some(
            oauth_host(host),
        ))) ==> default_issuer_of(default_issuer_of(server_url)) == default_issuer_of(server_url),
{
    if let Ok(server) = url_parse(server_url) {
        if let Some(host) = server.host {
            assert("oauth."@.is_prefix_of(oauth_host(host)));
        }
    }
}

/// The issuer is always on an `oauth.` host: it is a scheme, `://` and a host that opens with
/// `oauth.`.
pub proof fn issuer_is_on_an_oauth_host(server: Option<UrlView>)
    ensures
        exists|scheme: Seq<char>, host: Seq<char>|
            issuer_of_url(server) == #[trigger] (scheme + "://"@ + host)
                && "oauth."@.is_prefix_of(host),
{
    match server {
        Some(UrlView { scheme, host: Some(host), .. }) => {
            let full = oauth_host(host);
            assert("oauth."@.is_prefix_of(full));
            assert(issuer_of_url(server) == scheme + "://"@ + full);
        },
        _ => {
            reveal_strlit("https://oauth.bex.co");
            reveal_strlit("https");
            reveal_strlit("://");
            reveal_strlit("oauth.");
            reveal_strlit("oauth.bex.co");
            assert("https://oauth.bex.co"@ =~= "https"@ + "://"@ + "oauth.bex.co"@);
            assert("oauth."@.is_prefix_of("oauth.bex.co"@));
        },
    }
}

/// The subdomain is prefixed once: a server that is already on its `oauth.` host implies the same
/// issuer as the server itself.
pub proof fn oauth_subdomain_is_prefixed_once(server: UrlView, host: Seq<char>)
    requires
        server.host == Some(host),
    ensures
        issuer_of_url(Some(UrlView { host: Some(oauth_host(host)), ..server })) == issuer_of_url(
            Some(server),
        ),
{
    assert("oauth."@.is_prefix_of(oauth_host(host)));
}

/// Only scheme and host matter: path, port, query and credentials of the server URL do not show
/// in the issuer.
pub proof fn issuer_depends_on_scheme_and_host(a: UrlView, b: UrlView)
    requires
        a.scheme == b.scheme,
        a.host == b.host,
    ensures
        issuer_of_url(Some(a)) == issuer_of_url(Some(b)),
{
}

} // verus!
