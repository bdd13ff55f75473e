//! The provider's endpoints.

use vstd::prelude::*;
use vstd::string::*;

use crate::error::{AuthError, Stage};
use crate::http;
use crate::http::{Exchange, HttpRequest};
use crate::issuer::ParsedUrl;
use crate::text;

verus! {

/// The provider's discovery document, as far as it is used.
#[derive(Debug, Clone)]
pub struct ProviderMetadata {
    pub device_authorization_endpoint: String,
    pub token_endpoint: String,
    pub userinfo_endpoint: Option<String>,
}

/// A path under an issuer, however many slashes end the issuer.
pub open spec fn under_issuer(issuer: Seq<char>, path: Seq<char>) -> Seq<char> {
    text::trimmed_end(issuer, '/') + path
}

/// Where the discovery document of an issuer is.
pub open spec fn discovery_url(issuer: Seq<char>) -> Seq<char> {
    under_issuer(issuer, "/.well-known/openid-configuration"@)
}

/// Where the userinfo endpoint is: where the discovery document says, or else under the issuer.
pub open spec fn userinfo_url(issuer: Seq<char>, endpoint: Option<Seq<char>>) -> Seq<char> {
    match endpoint {
        Some(url) => url,
        None => under_issuer(issuer, "/userinfo"@),
    }
}

/// The request for the discovery document of an issuer.
pub fn discover(issuer: &ParsedUrl) -> (request: HttpRequest)
    ensures
        request@ == http::json_get(discovery_url(issuer@.serialization)),
{
    let base = text::trim_end(issuer.serialization.as_str(), '/');
    http::get(base.concat("/.well-known/openid-configuration"))
}

/// The endpoints, from what became of the request for the discovery document.
pub fn discovered(exchange: Exchange<Option<ProviderMetadata>>) -> (result: Result<
    ProviderMetadata,
    AuthError,
>)
    ensures
        http::document_result(result) == http::document_of(exchange, Stage::Discovery),
{
    http::document(exchange, Stage::Discovery)
}

/// Where to ask who an access token belongs to.
pub fn userinfo_endpoint(issuer: &ParsedUrl, endpoint: Option<String>) -> (url: String)
    ensures
        url@ == userinfo_url(issuer@.serialization, text::text_option(endpoint)),
{
    match endpoint {
        Some(url) => url,
        None => text::trim_end(issuer.serialization.as_str(), '/').concat("/userinfo"),
    }
}

/// Slashes at the end of an issuer do not matter: with one more, every endpoint stays where it is.
pub proof fn trailing_slash_is_ignored(issuer: Seq<char>, endpoint: Option<Seq<char>>)
    ensures
        discovery_url(issuer.push('/')) == discovery_url(issuer),
        userinfo_url(issuer.push('/'), endpoint) == userinfo_url(issuer, endpoint),
{
    assert(issuer.push('/').drop_last() == issuer);
}

/// The discovery URL has a single slash between the issuer and the well-known path.
pub proof fn discovery_url_has_no_double_slash(issuer: Seq<char>)
    ensures
        exists|base: Seq<char>|
            discovery_url(issuer) == #[trigger] (base + "/.well-known/openid-configuration"@)
                && base.is_prefix_of(issuer) && (base.len() > 0 ==> base.last() != '/'),
{
    lemma_trimmed_end(issuer, '/');
    let base = text::trimmed_end(issuer, '/');
    assert(discovery_url(issuer) == base + "/.well-known/openid-configuration"@);
}

proof fn lemma_trimmed_end(content: Seq<char>, mark: char)
    ensures
        text::trimmed_end(content, mark).is_prefix_of(content),
        text::trimmed_end(content, mark).len() > 0 ==> text::trimmed_end(content, mark).last()
            != mark,
    decreases content.len(),
{
    if content.len() > 0 && content.last() == mark {
        lemma_trimmed_end(content.drop_last(), mark);
    }
}

/// Whether `base` is `full` without the slashes at its end.
pub open spec fn without_trailing_slashes(full: Seq<char>, base: Seq<char>) -> bool {
    &&& base.is_prefix_of(full)
    &&& base.len() > 0 ==> base.last() != '/'
    &&& forall|i: int| base.len() <= i < full.len() ==> #[trigger] full[i] == '/'
}

/// The endpoints under an issuer are the issuer without its trailing slashes and a path of their
/// own; the userinfo endpoint is only looked for there where the provider names none.
pub proof fn endpoints_stand_under_the_issuer(
    issuer: Seq<char>,
    base: Seq<char>,
    endpoint: Seq<char>,
)
    requires
        without_trailing_slashes(issuer, base),
    ensures
        discovery_url(issuer) == base + "/.well-known/openid-configuration"@,
        userinfo_url(issuer, None) == base + "/userinfo"@,
        userinfo_url(issuer, Some(endpoint)) == endpoint,
{
    text::trimming_takes_off_marks_only(issuer, '/');
    let trimmed = text::trimmed_end(issuer, '/');
    if trimmed.len() < base.len() {
        assert(issuer[base.len() - 1] == '/');
        assert(base.last() == issuer[base.len() - 1]);
    }
    if base.len() < trimmed.len() {
        assert(issuer[trimmed.len() - 1] == '/');
        assert(trimmed.last() == issuer[trimmed.len() - 1]);
    }
    assert(trimmed =~= base);
}

/// Every issuer has such a base.
pub proof fn every_issuer_has_a_base(issuer: Seq<char>) -> (base: Seq<char>)
    ensures
        without_trailing_slashes(issuer, base),
{
    text::trimming_takes_off_marks_only(issuer, '/');
    text::trimmed_end(issuer, '/')
}

} // verus!
