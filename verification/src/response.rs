//! Successful responses, as plain values for the transport to send.

use crate::bean::{text_view, ShortUrlDataEntity, ShortUrlDataEntityView};
use crate::error::{not_found_err, not_found_error, JsError, JsErrorView};
use crate::kv_store::{Stored, StoredView};
use crate::setting::CACHE_AGE_VALUE;
use crate::trusted::{MimeType, MimeTypeView};
use vstd::prelude::*;

verus! {

/// One header line of a response.
#[derive(Clone, Debug, PartialEq, Eq)]
pub struct Header {
    pub name: String,
    pub value: String,
}

/// Mathematical value of a [`Header`].
pub struct HeaderView {
    pub name: Seq<char>,
    pub value: Seq<char>,
}

impl View for Header {
    type V = HeaderView;

    open spec fn view(&self) -> HeaderView {
        HeaderView { name: self.name@, value: self.value@ }
    }
}

/// A response that reports success.
#[derive(Clone, Debug, PartialEq, Eq)]
pub enum Reply {
    /// A status, header lines in the order in which they were added, and
    /// maybe a body.
    Content { status: u16, headers: Vec<Header>, body: Option<String> },
    /// A redirect to `location`.
    Redirect { location: String },
}

/// Mathematical value of a [`Reply`].
pub enum ReplyView {
    Content { status: u16, headers: Seq<HeaderView>, body: Option<Seq<char>> },
    Redirect { location: Seq<char> },
}

/// Mathematical value of a list of header lines.
pub open spec fn headers_view(headers: Seq<Header>) -> Seq<HeaderView> {
    Seq::new(headers.len(), |i: int| headers[i]@)
}

impl View for Reply {
    type V = ReplyView;

    open spec fn view(&self) -> ReplyView {
        match self {
            Reply::Content { status, headers, body } => ReplyView::Content {
                status: *status,
                headers: headers_view(headers@),
                body: text_view(*body),
            },
            Reply::Redirect { location } => ReplyView::Redirect { location: location@ },
        }
    }
}

/// Mathematical value of a response or the error that stands in its place.
pub open spec fn reply_outcome_view(outcome: Result<Reply, JsError>) -> Result<
    ReplyView,
    JsErrorView,
> {
    match outcome {
        Ok(reply) => Ok(reply@),
        Err(err) => Err(err@),
    }
}

/// The header lines of an asset of the given type: its content type, and a
/// caching rule unless it is an HTML page.
pub open spec fn asset_headers(mime: MimeTypeView) -> Seq<HeaderView> {
    let content_type = HeaderView { name: "Content-Type"@, value: mime.essence };
    if mime.text_html {
        seq![content_type]
    } else {
        seq![content_type, HeaderView { name: "Cache-Control"@, value: CACHE_AGE_VALUE@ }]
    }
}

/// The answer to a request for an asset, given what the asset store holds
/// under the path.
pub open spec fn asset_reply(asset: Option<Seq<char>>, mime: MimeTypeView) -> Result<
    ReplyView,
    JsErrorView,
> {
    match asset {
        Some(body) => Ok(
            ReplyView::Content { status: 200, headers: asset_headers(mime), body: Some(body) },
        ),
        None => Err(not_found_error()),
    }
}

/// The answer to a request for a short identifier, given what the record
/// store holds under it. A record that does not decode is answered like one
/// that is not there.
pub open spec fn redirect_reply(stored: StoredView<ShortUrlDataEntityView>) -> Result<
    ReplyView,
    JsErrorView,
> {
    match stored {
        StoredView::Found(entity) => Ok(ReplyView::Redirect { location: entity.raw_url }),
        _ => Err(not_found_error()),
    }
}

fn header(name: &str, value: &str) -> (line: Header)
    ensures
        line@ == (HeaderView { name: name@, value: value@ }),
{
    Header { name: name.to_owned(), value: value.to_owned() }
}

fn owned(message: Option<&str>) -> (text: Option<String>)
    ensures
        match message {
            Some(message) => text_view(text) == Some(message@),
            None => text is None,
        },
{
    match message {
        Some(message) => Some(message.to_owned()),
        None => None,
    }
}

/// A response with status 200 that carries `message` and the given header
/// lines.
pub fn gen_str_response_with_status(message: Option<&str>, headers: Vec<Header>) -> (reply: Reply)
    ensures
        reply@ == (ReplyView::Content {
            status: 200,
            headers: headers_view(headers@),
            body: match message {
                Some(message) => Some(message@),
                None => None,
            },
        }),
{
    Reply::Content { status: 200, headers, body: owned(message) }
}

/// A response with status 200 that carries `message` as JSON.
pub fn gen_json_response(message: Option<&str>) -> (reply: Reply)
    ensures
        reply@ == (ReplyView::Content {
            status: 200,
            headers: seq![HeaderView { name: "Content-Type"@, value: "application/json"@ }],
            body: match message {
                Some(message) => Some(message@),
                None => None,
            },
        }),
{
    let mut headers: Vec<Header> = Vec::new();
    headers.push(header("Content-Type", "application/json"));
    assert(headers_view(headers@) =~= seq![
        HeaderView { name: "Content-Type"@, value: "application/json"@ },
    ]);
    gen_str_response_with_status(message, headers)
}

/// A response with status 200 that carries `message` as content of the given
/// type; all but HTML pages may be cached.
pub fn gen_str_response_with_content_type(message: Option<&str>, mime: &MimeType) -> (reply: Reply)
    ensures
        reply@ == (ReplyView::Content {
            status: 200,
            headers: asset_headers(mime@),
            body: match message {
                Some(message) => Some(message@),
                None => None,
            },
        }),
{
    let mut headers: Vec<Header> = Vec::new();
    headers.push(header("Content-Type", mime.essence.as_str()));
    if !mime.text_html {
        headers.push(header("Cache-Control", CACHE_AGE_VALUE));
    }
    assert(headers_view(headers@) =~= asset_headers(mime@));
    gen_str_response_with_status(message, headers)
}

/// Answers a request for an asset with what the asset store holds under the
/// path, or with "not found" where it holds nothing.
pub fn get_assert_data(asset: Option<String>, mime: &MimeType) -> (outcome: Result<Reply, JsError>)
    ensures
        reply_outcome_view(outcome) == asset_reply(text_view(asset), mime@),
{
    match asset {
        Some(body) => Ok(gen_str_response_with_content_type(Some(body.as_str()), mime)),
        None => Err(not_found_err()),
    }
}

/// Answers a request for a short identifier with a redirect to the
/// destination of its record, or with "not found".
pub fn try_redirect(stored: Stored<ShortUrlDataEntity>) -> (outcome: Result<Reply, JsError>)
    ensures
        reply_outcome_view(outcome) == redirect_reply(stored@),
{
    match stored {
        Stored::Found(entity) => Ok(Reply::Redirect { location: entity.raw_url }),
        _ => Err(not_found_err()),
    }
}

} // verus!
