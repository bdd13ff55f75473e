//! Requests to the provider, and what becomes of them.

use vstd::prelude::*;
use vstd::string::*;

use crate::error::{AuthError, Stage};
#[allow(unused_imports)]
use crate::error::AuthErrorView;
use crate::form;

verus! {

/// The method of a request.
#[derive(Debug, Clone, Copy, PartialEq, Eq, Structural)]
pub enum Method {
    Get,
    Post,
}

/// A request to be sent.
#[derive(Debug, Clone)]
pub struct HttpRequest {
    pub method: Method,
    pub uri: String,
    /// Names and values of the headers, in order.
    pub headers: Vec<(String, String)>,
    pub body: String,
}

/// The mathematical view of an [`HttpRequest`].
pub struct RequestView {
    pub method: Method,
    pub uri: Seq<char>,
    pub headers: Seq<(Seq<char>, Seq<char>)>,
    pub body: Seq<char>,
}

/// The texts that a list of headers holds.
pub open spec fn header_texts(headers: Seq<(String, String)>) -> Seq<(Seq<char>, Seq<char>)> {
    headers.map_values(|header: (String, String)| (header.0@, header.1@))
}

impl View for HttpRequest {
    type V = RequestView;

    open spec fn view(&self) -> RequestView {
        RequestView {
            method: self.method,
            uri: self.uri@,
            headers: header_texts(self.headers@),
            body: self.body@,
        }
    }
}

/// An answer whose body has been read. `document` is what the body parses to.
#[derive(Debug)]
pub struct Answer<T> {
    pub status: u16,
    /// The status as text, with its reason phrase.
    pub status_text: String,
    pub body: String,
    pub document: T,
}

/// What became of a request.
#[derive(Debug)]
pub enum Exchange<T> {
    /// It could not be built.
    Unbuilt,
    /// It could not be sent, or nothing came back.
    Unsent,
    /// The body of the answer could not be read.
    Unread,
    /// An answer came back.
    Answered(Answer<T>),
}

/// Whether a status reports success.
pub open spec fn success(status: u16) -> bool {
    200 <= status <= 299
}

/// A GET request that asks for JSON.
pub open spec fn json_get(uri: Seq<char>) -> RequestView {
    RequestView {
        method: Method::Get,
        uri,
        headers: seq![("Accept"@, "application/json"@)],
        body: seq![],
    }
}

/// A POST request that carries a form and asks for JSON.
pub open spec fn form_post(uri: Seq<char>, pairs: Seq<(Seq<char>, Seq<char>)>) -> RequestView {
    RequestView {
        method: Method::Post,
        uri,
        headers: seq![
            ("Content-Type"@, "application/x-www-form-urlencoded"@),
            ("Accept"@, "application/json"@),
        ],
        body: form::form_of(pairs),
    }
}

/// What an exchange yields whose answer has to be a success and a document.
pub open spec fn document_of<T>(exchange: Exchange<Option<T>>, stage: Stage) -> Result<
    T,
    AuthErrorView,
> {
    match exchange {
        Exchange::Unbuilt => Err(AuthErrorView::Unbuilt(stage)),
        Exchange::Unsent => Err(AuthErrorView::Unsent(stage)),
        Exchange::Unread => Err(AuthErrorView::Unread(stage)),
        Exchange::Answered(answer) => if !success(answer.status) {
            Err(
                AuthErrorView::Refused {
                    stage,
                    status_text: answer.status_text@,
                    body: answer.body@,
                },
            )
        } else {
            match answer.document {
                Some(document) => Ok(document),
                None => Err(AuthErrorView::Unparsed(stage)),
            }
        },
    }
}

/// The view of a document or of why there is none.
pub open spec fn document_result<T>(result: Result<T, AuthError>) -> Result<T, AuthErrorView> {
    match result {
        Ok(document) => Ok(document),
        Err(error) => Err(error@),
    }
}

/// Whether a status reports success.
pub fn is_success(status: u16) -> (answer: bool)
    ensures
        answer == success(status),
{
    200 <= status && status <= 299
}

/// A GET request that asks for JSON.
pub fn get(uri: String) -> (request: HttpRequest)
    ensures
        request@ == json_get(uri@),
        is_json_get(request@, uri@),
{
    let headers: Vec<(String, String)> = vec![
        ("Accept".to_owned(), "application/json".to_owned()),
    ];
    assert(header_texts(headers@) =~= json_get(uri@).headers);
    HttpRequest { method: Method::Get, uri, headers, body: String::new() }
}

/// A POST request that carries `params` as a form and asks for JSON. Reading the form gives the
/// parameters back.
pub fn post_form(endpoint: &str, params: &[(&str, &str)]) -> (request: HttpRequest)
    ensures
        request@ == form_post(endpoint@, form::parameters(params@)),
        form::read_form(request@.body) == form::parameters(params@),
        is_form_post(request@, endpoint@, form::parameters(params@)),
{
    proof {
        form::form_reads_back(form::parameters(params@));
    }
    let headers: Vec<(String, String)> = vec![
        ("Content-Type".to_owned(), "application/x-www-form-urlencoded".to_owned()),
        ("Accept".to_owned(), "application/json".to_owned()),
    ];
    assert(header_texts(headers@) =~= form_post(endpoint@, seq![]).headers);
    HttpRequest {
        method: Method::Post,
        uri: endpoint.to_owned(),
        headers,
        body: form::form(params),
    }
}

/// Takes the document out of an exchange whose answer has to be a success and a document.
pub fn document<T>(exchange: Exchange<Option<T>>, stage: Stage) -> (result: Result<T, AuthError>)
    ensures
        document_result(result) == document_of(exchange, stage),
{
    let answer = match exchange {
        Exchange::Unbuilt => return Err(AuthError::Unbuilt(stage)),
        Exchange::Unsent => return Err(AuthError::Unsent(stage)),
        Exchange::Unread => return Err(AuthError::Unread(stage)),
        Exchange::Answered(answer) => answer,
    };
    if !is_success(answer.status) {
        return Err(
            AuthError::Refused { stage, status_text: answer.status_text, body: answer.body },
        );
    }
    match answer.document {
        Some(document) => Ok(document),
        None => Err(AuthError::Unparsed(stage)),
    }
}

/// Whether a request asks for the JSON document at `uri`: by GET, with one header, without a body.
pub open spec fn is_json_get(request: RequestView, uri: Seq<char>) -> bool {
    &&& request.method is Get
    &&& request.uri == uri
    &&& request.headers == seq![("Accept"@, "application/json"@)]
    &&& request.body.len() == 0
}

/// Whether a request hands a form to `uri`: by POST, with the headers of a form, and with a body
/// that reads as `pairs`.
pub open spec fn is_form_post(
    request: RequestView,
    uri: Seq<char>,
    pairs: Seq<(Seq<char>, Seq<char>)>,
) -> bool {
    &&& request.method is Post
    &&& request.uri == uri
    &&& request.headers == seq![
        ("Content-Type"@, "application/x-www-form-urlencoded"@),
        ("Accept"@, "application/json"@),
    ]
    &&& form::read_form(request.body) == pairs
}

/// Whether an answer came back with a status in the two hundreds.
pub open spec fn succeeded<T>(exchange: Exchange<T>) -> bool {
    exchange matches Exchange::Answered(answer) && 200 <= answer.status && answer.status < 300
}

/// Whether an exchange brought `document` back.
pub open spec fn brought<T>(exchange: Exchange<Option<T>>, document: T) -> bool {
    succeeded(exchange) && exchange->Answered_0.document == Some(document)
}

/// Whether an exchange failed with `error`: it was not built, not sent or not read; or its status
/// is none of the two hundreds, which the error reports with the whole answer; or its body is not
/// the document.
pub open spec fn failed_with<T>(
    exchange: Exchange<Option<T>>,
    stage: Stage,
    error: AuthErrorView,
) -> bool {
    ||| exchange is Unbuilt && error == AuthErrorView::Unbuilt(stage)
    ||| exchange is Unsent && error == AuthErrorView::Unsent(stage)
    ||| exchange is Unread && error == AuthErrorView::Unread(stage)
    ||| exchange is Answered && !succeeded(exchange) && error == (AuthErrorView::Refused {
        stage,
        status_text: exchange->Answered_0.status_text@,
        body: exchange->Answered_0.body@,
    })
    ||| succeeded(exchange) && exchange->Answered_0.document is None && error
        == AuthErrorView::Unparsed(stage)
}

/// An exchange yields its document exactly when it brought one back, and fails with the one error
/// that says why otherwise.
pub proof fn exchanges_yield_a_document_or_say_why<T>(
    exchange: Exchange<Option<T>>,
    stage: Stage,
    document: T,
    error: AuthErrorView,
)
    ensures
        document_of(exchange, stage) == Ok::<T, AuthErrorView>(document) <==> brought(
            exchange,
            document,
        ),
        document_of(exchange, stage) == Err::<T, AuthErrorView>(error) <==> failed_with(
            exchange,
            stage,
            error,
        ),
{
}

/// A form in a request reads back as the pairs that it was made of.
pub proof fn form_posts_carry_their_pairs(uri: Seq<char>, pairs: Seq<(Seq<char>, Seq<char>)>)
    ensures
        is_form_post(form_post(uri, pairs), uri, pairs),
{
    form::form_reads_back(pairs);
}

/// The view of a request shows each of its parts as it is.
pub proof fn request_view_is_faithful(request: HttpRequest, i: int)
    ensures
        request@.method == request.method,
        request@.uri == request.uri@,
        request@.body == request.body@,
        request@.headers.len() == request.headers@.len(),
        0 <= i < request.headers@.len() ==> request@.headers[i].0 == request.headers@[i].0@,
        0 <= i < request.headers@.len() ==> request@.headers[i].1 == request.headers@[i].1@,
{
}

} // verus!
