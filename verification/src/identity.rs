//! The numeric user id that an `id_token` stands for.

use vstd::prelude::*;
use vstd::string::*;
#[allow(unused_imports)]
use vstd::utf8::encode_utf8;

use base64::Engine;
use sha2::Digest;

use crate::error::AuthError;
#[allow(unused_imports)]
use crate::error::AuthErrorView;
use crate::text;

verus! {

/// `serde_json::Value`, a JSON document. [`json_members`] is what it holds.
#[verifier::external_type_specification]
#[verifier::external_body]
pub struct ExJsonValue(serde_json::Value);

/// The value of a claim, as far as a user id can be read from it.
#[derive(Debug, Clone)]
pub enum ClaimValue {
    /// A number, with its value where it is an integer that 64 bits without a sign can hold.
    Number(Option<u64>),
    /// A string.
    Text(String),
    /// Anything else.
    Other,
}

/// The mathematical view of a [`ClaimValue`].
pub enum ClaimView {
    Number(Option<u64>),
    Text(Seq<char>),
    Other,
}

impl View for ClaimValue {
    type V = ClaimView;

    open spec fn view(&self) -> ClaimView {
        match *self {
            ClaimValue::Number(number) => ClaimView::Number(number),
            ClaimValue::Text(content) => ClaimView::Text(content@),
            ClaimValue::Other => ClaimView::Other,
        }
    }
}

/// The view of a claim that may be absent.
pub open spec fn claim_option(claim: Option<ClaimValue>) -> Option<ClaimView> {
    match claim {
        Some(value) => Some(value@),
        None => None,
    }
}

/// The claims of an `id_token` that bear on the user id.
#[derive(Debug, Clone)]
pub struct Claims {
    /// An explicit numeric id.
    pub user_id: Option<ClaimValue>,
    /// The same under its other name.
    pub zed_user_id: Option<ClaimValue>,
    /// The subject.
    pub sub: Option<ClaimValue>,
}

/// The mathematical view of [`Claims`].
pub struct ClaimsView {
    pub user_id: Option<ClaimView>,
    pub zed_user_id: Option<ClaimView>,
    pub sub: Option<ClaimView>,
}

impl View for Claims {
    type V = ClaimsView;

    open spec fn view(&self) -> ClaimsView {
        ClaimsView {
            user_id: claim_option(self.user_id),
            zed_user_id: claim_option(self.zed_user_id),
            sub: claim_option(self.sub),
        }
    }
}

/// What decoding a string as unpadded URL-safe base64 yields: the bytes, or why there are none.
pub uninterp spec fn base64_decode(encoded: Seq<char>) -> Result<Seq<u8>, base64::DecodeError>;

/// The view of what decoding returned.
pub open spec fn bytes_result(result: Result<Vec<u8>, base64::DecodeError>) -> Result<
    Seq<u8>,
    base64::DecodeError,
> {
    match result {
        Ok(bytes) => Ok(bytes@),
        Err(cause) => Err(cause),
    }
}

/// Calls `decode` on the engine `base64::prelude::BASE64_URL_SAFE_NO_PAD`. What it yields depends
/// on the string alone and is [`base64_decode`], of which nothing more is claimed.
#[verifier::external_body]
fn decode_base64(encoded: &str) -> (result: Result<Vec<u8>, base64::DecodeError>)
    ensures
        bytes_result(result) == base64_decode(encoded@),
{
    base64::prelude::BASE64_URL_SAFE_NO_PAD.decode(encoded)
}

/// What bytes parse to as a JSON document: the document, or why there is none.
pub uninterp spec fn json_parse(bytes: Seq<u8>) -> Result<serde_json::Value, serde_json::Error>;

/// Calls `serde_json::from_slice`. What it yields depends on the bytes alone and is
/// [`json_parse`], of which nothing more is claimed.
#[verifier::external_body]
fn parse_json(bytes: &[u8]) -> (result: Result<serde_json::Value, serde_json::Error>)
    ensures
        result == json_parse(bytes@),
{
    serde_json::from_slice(bytes)
}

/// The members of a JSON object by name; none, where the document is no object.
pub uninterp spec fn json_members(document: serde_json::Value) -> Map<Seq<char>, ClaimView>;

/// Calls `serde_json::Value::get`, and copies the value that it finds: a number by what `as_u64`
/// says of it, a string by its text. It finds what [`json_members`] holds under the name.
#[verifier::external_body]
fn member(document: &serde_json::Value, name: &str) -> (value: Option<ClaimValue>)
    ensures
        claim_option(value) == json_members(*document).get(name@),
{
    match document.get(name) {
        None => None,
        Some(serde_json::Value::Number(number)) => Some(ClaimValue::Number(number.as_u64())),
        Some(serde_json::Value::String(content)) => Some(ClaimValue::Text(content.clone())),
        Some(_) => Some(ClaimValue::Other),
    }
}

/// The SHA-256 digest of some bytes.
pub uninterp spec fn sha256(data: Seq<u8>) -> Seq<u8>;

/// Calls `sha2::Sha256::digest`. What it yields depends on the bytes alone and is [`sha256`]; it
/// is always 32 bytes long.
#[verifier::external_body]
fn sha256_digest(data: &[u8]) -> (digest: Vec<u8>)
    ensures
        digest@ == sha256(data@),
        digest@.len() == 32,
{
    sha2::Sha256::digest(data).to_vec()
}

/// The number in the first eight bytes of a digest, the first byte the most significant.
pub open spec fn opening_number(digest: Seq<u8>) -> int {
    digest[0] * 0x100_0000_0000_0000 + digest[1] * 0x1_0000_0000_0000 + digest[2] * 0x100_0000_0000
        + digest[3] * 0x1_0000_0000 + digest[4] * 0x100_0000 + digest[5] * 0x1_0000 + digest[6]
        * 0x100 + digest[7]
}

/// Whether an id is the number in the first eight bytes of a digest, or the next one where that
/// is even.
pub open spec fn is_opening_made_odd(id: u64, digest: Seq<u8>) -> bool {
    &&& digest.len() >= 8
    &&& id % 2 == 1
    &&& id == opening_number(digest) || id == opening_number(digest) + 1
}

/// Whether a claim names a number: as a number, or as the numeral for one.
pub open spec fn names_number(claim: Option<ClaimView>, id: u64) -> bool {
    ||| claim == Some(ClaimView::Number(Some(id)))
    ||| claim matches Some(ClaimView::Text(numeral)) && text::decimal_u64(numeral) == Some(id)
}

/// Whether a claim names no number.
pub open spec fn names_no_number(claim: Option<ClaimView>) -> bool {
    forall|id: u64| !#[trigger] names_number(claim, id)
}

/// Whether a text holds no dot.
pub open spec fn dotless(part: Seq<char>) -> bool {
    forall|i: int| 0 <= i < part.len() ==> #[trigger] part[i] != '.'
}

/// Whether `payload` is what stands in a token between the first dot and the next, or the end.
pub open spec fn has_payload(id_token: Seq<char>, payload: Seq<char>) -> bool {
    dotless(payload) && exists|header: Seq<char>, rest: Seq<char>|
        dotless(header) && (rest.len() == 0 || rest[0] == '.') && id_token == #[trigger] (header
            + seq!['.'] + payload + rest)
}

/// Whether the payload of a token decodes and parses to `document`.
pub open spec fn carries_document(id_token: Seq<char>, document: serde_json::Value) -> bool {
    exists|payload: Seq<char>| #[trigger]
        has_payload(id_token, payload) && (base64_decode(payload) matches Ok(bytes) && json_parse(
            bytes,
        ) == Ok::<serde_json::Value, serde_json::Error>(document))
}

/// The number that bytes denote, most significant first.
pub open spec fn big_endian(bytes: Seq<u8>) -> nat
    decreases bytes.len(),
{
    if bytes.len() == 0 {
        0
    } else {
        big_endian(bytes.drop_last()) * 256 + bytes.last() as nat
    }
}

/// The id that a digest stands for: the number in its first eight bytes, made odd.
pub open spec fn digest_id(digest: Seq<u8>) -> u64 {
    (big_endian(digest.take(8)) as u64) | 1
}

/// The id that a subject stands for.
pub open spec fn stable_id(subject: Seq<char>) -> u64 {
    digest_id(sha256(encode_utf8(subject)))
}

/// The number that an explicit claim names, if it names one.
pub open spec fn numeric_claim(claim: Option<ClaimView>) -> Option<u64> {
    match claim {
        Some(ClaimView::Number(number)) => number,
        Some(ClaimView::Text(content)) => text::decimal_u64(content),
        _ => None,
    }
}

/// The user id that claims stand for: the number under `user_id`, else the one under
/// `zed_user_id`, else the id of the subject.
pub open spec fn user_id_of_claims(claims: ClaimsView) -> Result<u64, AuthErrorView> {
    match (numeric_claim(claims.user_id), numeric_claim(claims.zed_user_id), claims.sub) {
        (Some(id), _, _) => Ok(id),
        (None, Some(id), _) => Ok(id),
        (None, None, Some(ClaimView::Text(subject))) => Ok(stable_id(subject)),
        _ => Err(AuthErrorView::MissingSubject),
    }
}

/// The claims that a JSON document holds.
pub open spec fn claims_of(document: serde_json::Value) -> ClaimsView {
    ClaimsView {
        user_id: json_members(document).get("user_id"@),
        zed_user_id: json_members(document).get("zed_user_id"@),
        sub: json_members(document).get("sub"@),
    }
}

/// The user id that an `id_token` stands for: the one of the claims in its second segment.
pub open spec fn user_id_of_token(id_token: Seq<char>) -> Result<u64, AuthErrorView> {
    if text::segments(id_token, '.').len() < 2 {
        Err(AuthErrorView::MalformedIdToken)
    } else {
        match base64_decode(text::segments(id_token, '.')[1]) {
            Err(cause) => Err(AuthErrorView::UndecodablePayload(cause)),
            Ok(payload) => match json_parse(payload) {
                Err(cause) => Err(AuthErrorView::UnparsedClaims(cause)),
                Ok(document) => user_id_of_claims(claims_of(document)),
            },
        }
    }
}

/// The view of a user id or of why there is none.
pub open spec fn user_id_result(result: Result<u64, AuthError>) -> Result<u64, AuthErrorView> {
    match result {
        Ok(id) => Ok(id),
        Err(error) => Err(error@),
    }
}

/// The id that a digest stands for: the number in its first eight bytes, most significant first,
/// with its lowest bit set.
pub fn id_from_digest(digest: &[u8]) -> (id: u64)
    requires
        digest@.len() >= 8,
    ensures
        id == digest_id(digest@),
        id % 2 == 1,
        is_opening_made_odd(id, digest@),
{
    let mut value: u64 = 0;
    let mut i: usize = 0;
    while i < 8
        invariant
            i <= 8 <= digest@.len(),
            value == big_endian(digest@.take(i as int)),
            i == 0 ==> value == 0,
            i == 1 ==> value < 0x100,
            i == 2 ==> value < 0x1_0000,
            i == 3 ==> value < 0x100_0000,
            i == 4 ==> value < 0x1_0000_0000,
            i == 5 ==> value < 0x100_0000_0000,
            i == 6 ==> value < 0x1_0000_0000_0000,
            i == 7 ==> value < 0x100_0000_0000_0000,
        decreases 8 - i,
    {
        assert(digest@.take(i + 1).drop_last() == digest@.take(i as int));
        value = value * 256 + digest[i] as u64;
        i = i + 1;
    }
    proof {
        lemma_opening_made_odd(digest@);
    }
    value | 1
}

/// A deterministic, non-zero id for a string: the first eight bytes of its SHA-256 digest, made
/// odd. Zero would be taken for "signed out".
pub fn stable_u64(value: &str) -> (id: u64)
    ensures
        id == stable_id(value@),
        id != 0,
        is_opening_made_odd(id, sha256(encode_utf8(value@))),
{
    id_from_digest(sha256_digest(value.as_bytes()).as_slice())
}

/// The number that an explicit claim names, if it names one.
fn explicit_id(claim: &Option<ClaimValue>) -> (id: Option<u64>)
    ensures
        id == numeric_claim(claim_option(*claim)),
{
    match claim {
        Some(ClaimValue::Number(number)) => *number,
        Some(ClaimValue::Text(content)) => text::parse_u64(content.as_str()),
        _ => None,
    }
}

/// Derives the numeric user id from claims. An explicit number is preferred; a subject that is no
/// number is hashed to a stable id.
pub fn user_id_from_claims(claims: &Claims) -> (result: Result<u64, AuthError>)
    ensures
        user_id_result(result) == user_id_of_claims(claims@),
        names_no_number(claims@.user_id) && names_no_number(claims@.zed_user_id) ==> (
        claims@.sub matches Some(ClaimView::Text(subject)) ==> (result matches Ok(id)
            && is_opening_made_odd(id, sha256(encode_utf8(subject))))),
{
    if let Some(id) = explicit_id(&claims.user_id) {
        assert(names_number(claims@.user_id, id));
        return Ok(id);
    }
    if let Some(id) = explicit_id(&claims.zed_user_id) {
        assert(names_number(claims@.zed_user_id, id));
        return Ok(id);
    }
    match &claims.sub {
        Some(ClaimValue::Text(subject)) => Ok(stable_u64(subject.as_str())),
        _ => Err(AuthError::MissingSubject),
    }
}

/// Derives the numeric user id from the claims of an `id_token`.
///
/// The signature of the token is not checked: the access token is the credential that the backend
/// validates. The id is only a local identifier, never sent as a credential.
pub fn user_id_from_id_token(id_token: &str) -> (result: Result<u64, AuthError>)
    ensures
        user_id_result(result) == user_id_of_token(id_token@),
        forall|document: serde_json::Value| #[trigger]
            carries_document(id_token@, document) && names_no_number(
                json_members(document).get("user_id"@),
            ) && names_no_number(json_members(document).get("zed_user_id"@)) ==> (json_members(
                document,
            ).get("sub"@) matches Some(ClaimView::Text(subject)) ==> (result matches Ok(id)
                && is_opening_made_odd(id, sha256(encode_utf8(subject))))),
{
    proof {
        assert forall|document: serde_json::Value| #[trigger]
            carries_document(id_token@, document) implies text::segments(id_token@, '.').len() >= 2
            && (base64_decode(text::segments(id_token@, '.')[1]) matches Ok(bytes) && json_parse(
            bytes,
        ) == Ok::<serde_json::Value, serde_json::Error>(document)) by {
            lemma_carried_document(id_token@, document);
        }
    }
    let payload = match text::second_segment(id_token, '.') {
        Some(payload) => payload,
        None => return Err(AuthError::MalformedIdToken),
    };
    let decoded = match decode_base64(payload.as_str()) {
        Ok(decoded) => decoded,
        Err(cause) => return Err(AuthError::UndecodablePayload(cause)),
    };
    let document = match parse_json(decoded.as_slice()) {
        Ok(document) => document,
        Err(cause) => return Err(AuthError::UnparsedClaims(cause)),
    };
    let claims = Claims {
        user_id: member(&document, "user_id"),
        zed_user_id: member(&document, "zed_user_id"),
        sub: member(&document, "sub"),
    };
    user_id_from_claims(&claims)
}

/// An explicit number decides: no other claim shows in the id, and `user_id` goes before
/// `zed_user_id`.
pub proof fn explicit_number_is_preferred(claims: ClaimsView)
    ensures
        numeric_claim(claims.user_id) matches Some(id) ==> user_id_of_claims(claims)
            == Ok::<u64, AuthErrorView>(id),
        numeric_claim(claims.user_id) is None ==> (numeric_claim(
            claims.zed_user_id,
        ) matches Some(id) ==> user_id_of_claims(claims) == Ok::<u64, AuthErrorView>(id)),
{
}

/// A number counts the same whether the provider writes it as a number or as a string.
pub proof fn number_may_be_a_string(id: u64)
    ensures
        numeric_claim(Some(ClaimView::Text(text::decimal(id as nat)))) == numeric_claim(
            Some(ClaimView::Number(Some(id))),
        ),
{
    text::decimal_reads_back(id);
}

/// A hashed id is odd, hence never zero.
pub proof fn hashed_id_is_not_zero(subject: Seq<char>)
    ensures
        stable_id(subject) % 2 == 1,
        stable_id(subject) != 0,
{
    let value = big_endian(sha256(encode_utf8(subject)).take(8)) as u64;
    assert((value | 1) % 2 == 1) by (bit_vector);
}

/// Nobody who is signed in gets the id zero, which means "signed out", unless the provider itself
/// claims zero for them.
pub proof fn zero_is_only_ever_claimed(claims: ClaimsView)
    requires
        numeric_claim(claims.user_id) != Some(0u64),
        numeric_claim(claims.zed_user_id) != Some(0u64),
    ensures
        user_id_of_claims(claims) != Ok::<u64, AuthErrorView>(0),
{
    if let Some(ClaimView::Text(subject)) = claims.sub {
        hashed_id_is_not_zero(subject);
    }
}

/// Without an explicit number the id depends on the subject alone: the same subject gets the same
/// id each time.
pub proof fn id_is_stable_per_subject(a: ClaimsView, b: ClaimsView)
    requires
        numeric_claim(a.user_id) is None,
        numeric_claim(a.zed_user_id) is None,
        numeric_claim(b.user_id) is None,
        numeric_claim(b.zed_user_id) is None,
        a.sub == b.sub,
    ensures
        user_id_of_claims(a) == user_id_of_claims(b),
{
}

/// There is an id unless the claims name neither a number nor a subject.
pub proof fn id_is_missing_without_subject(claims: ClaimsView)
    ensures
        user_id_of_claims(claims) is Err <==> numeric_claim(claims.user_id) is None
            && numeric_claim(claims.zed_user_id) is None && !(claims.sub matches Some(
            ClaimView::Text(_),
        )),
        user_id_of_claims(claims) matches Err(error) ==> error == AuthErrorView::MissingSubject,
{
}

/// The header and the signature of a token do not show in the id: its second segment decides.
pub proof fn only_the_payload_counts(a: Seq<char>, b: Seq<char>)
    requires
        text::segments(a, '.').len() >= 2,
        text::segments(b, '.').len() >= 2,
        text::segments(a, '.')[1] == text::segments(b, '.')[1],
    ensures
        user_id_of_token(a) == user_id_of_token(b),
{
}

/// The id of a digest is the number in its first eight bytes, made odd.
proof fn lemma_opening_made_odd(digest: Seq<u8>)
    requires
        digest.len() >= 8,
    ensures
        is_opening_made_odd(digest_id(digest), digest),
{
    let opening = digest.take(8);
    reveal_with_fuel(big_endian, 9);
    assert(opening.drop_last() =~= digest.take(7));
    assert(digest.take(7).drop_last() =~= digest.take(6));
    assert(digest.take(6).drop_last() =~= digest.take(5));
    assert(digest.take(5).drop_last() =~= digest.take(4));
    assert(digest.take(4).drop_last() =~= digest.take(3));
    assert(digest.take(3).drop_last() =~= digest.take(2));
    assert(digest.take(2).drop_last() =~= digest.take(1));
    assert(digest.take(1).drop_last() =~= digest.take(0));
    assert(big_endian(opening) == opening_number(digest));
    let value = big_endian(opening) as u64;
    assert(value == opening_number(digest));
    assert((value | 1) % 2 == 1 && (value % 2 == 1 ==> (value | 1) == value) && (value % 2 == 0
        ==> (value | 1) == value + 1)) by (bit_vector);
}

/// The payload of a token is its second segment.
proof fn lemma_payload_segment(id_token: Seq<char>, payload: Seq<char>)
    requires
        has_payload(id_token, payload),
    ensures
        text::segments(id_token, '.').len() >= 2,
        text::segments(id_token, '.')[1] == payload,
{
    let (header, rest) = choose|header: Seq<char>, rest: Seq<char>|
        dotless(header) && (rest.len() == 0 || rest[0] == '.') && id_token == #[trigger] (header
            + seq!['.'] + payload + rest);
    let n = header.len() as int;
    let m = payload.len() as int;
    let tail = id_token.skip(n + 1);
    assert forall|i: int| 0 <= i < n implies #[trigger] id_token[i] != '.' by {
        assert(id_token[i] == header[i]);
    }
    assert(id_token[n] == '.');
    text::lemma_run_before_unique(id_token, '.', n);
    assert(tail =~= payload + rest);
    assert forall|i: int| 0 <= i < m implies #[trigger] tail[i] != '.' by {
        assert(tail[i] == payload[i]);
    }
    if rest.len() > 0 {
        assert(tail[m] == rest[0]);
    }
    text::lemma_run_before_unique(tail, '.', m);
    assert(tail.take(m) =~= payload);
    if rest.len() == 0 {
        assert(tail =~= payload);
    }
    assert(text::segments(tail, '.')[0] == payload);
    assert(text::segments(id_token, '.')[1] == text::segments(tail, '.')[0]);
}

/// A token carries one document at most, the one that its second segment decodes to.
proof fn lemma_carried_document(id_token: Seq<char>, document: serde_json::Value)
    requires
        carries_document(id_token, document),
    ensures
        text::segments(id_token, '.').len() >= 2,
        base64_decode(text::segments(id_token, '.')[1]) matches Ok(bytes) && json_parse(bytes)
            == Ok::<serde_json::Value, serde_json::Error>(document),
{
    let payload = choose|payload: Seq<char>| #[trigger]
        has_payload(id_token, payload) && (base64_decode(payload) matches Ok(bytes) && json_parse(
            bytes,
        ) == Ok::<serde_json::Value, serde_json::Error>(document));
    lemma_payload_segment(id_token, payload);
}

/// What a claim names is found, and nothing is found where it names nothing.
proof fn lemma_numeric_claim(claim: Option<ClaimView>)
    ensures
        numeric_claim(claim) matches Some(id) ==> names_number(claim, id),
        numeric_claim(claim) is None ==> names_no_number(claim),
        forall|id: u64| #[trigger] names_number(claim, id) ==> numeric_claim(claim) == Some(id),
{
}

/// Which member of the document decides: the number under `user_id`; without one, the number under
/// `zed_user_id`; without either, the string under `sub`, by the first eight bytes of its digest.
/// Without that there is no id. Nothing else in the document counts.
pub proof fn members_of_the_document_decide(
    id_token: Seq<char>,
    document: serde_json::Value,
    id: u64,
    subject: Seq<char>,
)
    ensures
        carries_document(id_token, document) ==> {
            let members = json_members(document);
            let result = user_id_of_token(id_token);
            &&& names_number(members.get("user_id"@), id) ==> result == Ok::<u64, AuthErrorView>(id)
            &&& names_no_number(members.get("user_id"@)) && names_number(
                members.get("zed_user_id"@),
                id,
            ) ==> result == Ok::<u64, AuthErrorView>(id)
            &&& names_no_number(members.get("user_id"@)) && names_no_number(
                members.get("zed_user_id"@),
            ) && members.get("sub"@) == Some(ClaimView::Text(subject)) ==> result is Ok && (sha256(
                encode_utf8(subject),
            ).len() >= 8 ==> is_opening_made_odd(result->Ok_0, sha256(encode_utf8(subject))))
            &&& names_no_number(members.get("user_id"@)) && names_no_number(
                members.get("zed_user_id"@),
            ) && !(members.get("sub"@) matches Some(ClaimView::Text(_))) ==> result == Err::<
                u64,
                AuthErrorView,
            >(AuthErrorView::MissingSubject)
        },
{
    if carries_document(id_token, document) {
        let members = json_members(document);
        lemma_carried_document(id_token, document);
        lemma_numeric_claim(members.get("user_id"@));
        lemma_numeric_claim(members.get("zed_user_id"@));
        if numeric_claim(members.get("user_id"@)) is Some {
            assert(names_number(
                members.get("user_id"@),
                numeric_claim(members.get("user_id"@))->Some_0,
            ));
        }
        if numeric_claim(members.get("zed_user_id"@)) is Some {
            assert(names_number(
                members.get("zed_user_id"@),
                numeric_claim(members.get("zed_user_id"@))->Some_0,
            ));
        }
        if sha256(encode_utf8(subject)).len() >= 8 {
            lemma_opening_made_odd(sha256(encode_utf8(subject)));
        }
    }
}

/// Two tokens whose documents agree on `user_id`, `zed_user_id` and `sub` have the same id, or
/// fail alike, whatever else the documents and the tokens hold.
pub proof fn other_members_do_not_count(
    a: Seq<char>,
    b: Seq<char>,
    document_a: serde_json::Value,
    document_b: serde_json::Value,
)
    ensures
        carries_document(a, document_a) && carries_document(b, document_b) && json_members(
            document_a,
        ).get("user_id"@) == json_members(document_b).get("user_id"@) && json_members(
            document_a,
        ).get("zed_user_id"@) == json_members(document_b).get("zed_user_id"@) && json_members(
            document_a,
        ).get("sub"@) == json_members(document_b).get("sub"@) ==> user_id_of_token(a)
            == user_id_of_token(b),
{
    if carries_document(a, document_a) && carries_document(b, document_b) {
        lemma_carried_document(a, document_a);
        lemma_carried_document(b, document_b);
    }
}

/// How a token fails before its claims are read: without a dot it is malformed; a payload that is
/// no base64, or no JSON, is reported with the cause.
pub proof fn unreadable_tokens_are_told_apart(id_token: Seq<char>, payload: Seq<char>)
    ensures
        dotless(id_token) <==> user_id_of_token(id_token) == Err::<u64, AuthErrorView>(
            AuthErrorView::MalformedIdToken,
        ),
        has_payload(id_token, payload) ==> (base64_decode(payload) matches Err(cause)
            ==> user_id_of_token(id_token) == Err::<u64, AuthErrorView>(
            AuthErrorView::UndecodablePayload(cause),
        )),
        has_payload(id_token, payload) ==> (base64_decode(payload) matches Ok(bytes) ==> (
        json_parse(bytes) matches Err(cause) ==> user_id_of_token(id_token) == Err::<
            u64,
            AuthErrorView,
        >(AuthErrorView::UnparsedClaims(cause)))),
{
    let n = text::run_before(id_token, '.') as int;
    text::lemma_run_before(id_token, '.');
    if dotless(id_token) {
        text::lemma_run_before_unique(id_token, '.', id_token.len() as int);
    } else {
        assert(n < id_token.len());
        text::segments_join_to_the_text(id_token.skip(n + 1), '.');
    }
    if has_payload(id_token, payload) {
        lemma_payload_segment(id_token, payload);
    }
}

/// The view of claims shows each of them as it is.
pub proof fn claims_view_is_faithful(claims: Claims, claim: ClaimValue)
    ensures
        claim matches ClaimValue::Number(number) ==> claim@ == ClaimView::Number(number),
        claim matches ClaimValue::Text(content) ==> claim@ == ClaimView::Text(content@),
        claim is Other ==> claim@ == ClaimView::Other,
        claims.user_id is None ==> claims@.user_id is None,
        claims.zed_user_id is None ==> claims@.zed_user_id is None,
        claims.sub is None ==> claims@.sub is None,
        claims.user_id == Some(claim) ==> claims@.user_id == Some(claim@),
        claims.zed_user_id == Some(claim) ==> claims@.zed_user_id == Some(claim@),
        claims.sub == Some(claim) ==> claims@.sub == Some(claim@),
{
}

/// The same of claims that have been read already: the number under `user_id` decides, then the
/// one under `zed_user_id`, then the string under `sub`.
pub proof fn claims_decide_in_order(claims: ClaimsView, id: u64, subject: Seq<char>)
    ensures
        names_number(claims.user_id, id) ==> user_id_of_claims(claims) == Ok::<u64, AuthErrorView>(
            id,
        ),
        names_no_number(claims.user_id) && names_number(claims.zed_user_id, id)
            ==> user_id_of_claims(claims) == Ok::<u64, AuthErrorView>(id),
        names_no_number(claims.user_id) && names_no_number(claims.zed_user_id) && claims.sub
            == Some(ClaimView::Text(subject)) ==> user_id_of_claims(claims) is Ok && (sha256(
            encode_utf8(subject),
        ).len() >= 8 ==> is_opening_made_odd(
            user_id_of_claims(claims)->Ok_0,
            sha256(encode_utf8(subject)),
        )),
        names_no_number(claims.user_id) && names_no_number(claims.zed_user_id) && !(
        claims.sub matches Some(ClaimView::Text(_))) ==> user_id_of_claims(claims) == Err::<
            u64,
            AuthErrorView,
        >(AuthErrorView::MissingSubject),
{
    lemma_numeric_claim(claims.user_id);
    lemma_numeric_claim(claims.zed_user_id);
    if numeric_claim(claims.user_id) is Some {
        assert(names_number(claims.user_id, numeric_claim(claims.user_id)->Some_0));
    }
    if numeric_claim(claims.zed_user_id) is Some {
        assert(names_number(claims.zed_user_id, numeric_claim(claims.zed_user_id)->Some_0));
    }
    if sha256(encode_utf8(subject)).len() >= 8 {
        lemma_opening_made_odd(sha256(encode_utf8(subject)));
    }
}

} // verus!
