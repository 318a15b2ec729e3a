//! Decision core of a URL-shortening service: where a request goes, who may
//! ask for which time to live, which identifier a new short URL gets, and what
//! is answered. Reading requests, stores and the clock is left to the caller.

pub mod bean;
pub mod creation;
pub mod error;
pub mod kv_store;
pub mod model;
pub mod policy;
pub mod response;
pub mod setting;
pub mod short_id;
pub mod trusted;

use crate::error::{
    internal_error, method_not_allowed, method_not_allowed_error, not_found, not_found_error,
    server_error, JsError, JsErrorView,
};
use crate::trusted::{
    guess_mime, guess_view, guessed_mime, lowercase, parse_url, parsed_url, to_lowercase,
    MimeType, MimeTypeView,
};
use vstd::prelude::*;
use vstd::string::StringExecFns;

verus! {

/// Where a request goes.
#[derive(Clone, Debug, PartialEq, Eq)]
pub enum Route {
    /// To the asset store: answer with what it holds under `path`.
    Asset { path: String, mime: MimeType },
    /// To the making of a short URL that will be reached under `host`.
    Create { host: String },
    /// To the record store: redirect to what it holds under `short_url_id`.
    Redirect { short_url_id: String },
}

/// Mathematical value of a [`Route`].
pub enum RouteView {
    Asset { path: Seq<char>, mime: MimeTypeView },
    Create { host: Seq<char> },
    Redirect { short_url_id: Seq<char> },
}

impl View for Route {
    type V = RouteView;

    open spec fn view(&self) -> RouteView {
        match self {
            Route::Asset { path, mime } => RouteView::Asset { path: path@, mime: mime@ },
            Route::Create { host } => RouteView::Create { host: host@ },
            Route::Redirect { short_url_id } => RouteView::Redirect {
                short_url_id: short_url_id@,
            },
        }
    }
}

/// Mathematical value of a routing decision.
pub open spec fn route_outcome_view(outcome: Result<Route, JsError>) -> Result<
    RouteView,
    JsErrorView,
> {
    match outcome {
        Ok(route) => Ok(route@),
        Err(err) => Err(err@),
    }
}

/// A path that ends in a slash asks for the index page of that directory.
pub open spec fn normalized_path(path: Seq<char>) -> Seq<char> {
    if path.len() > 0 && path.last() == '/' {
        path + "index.html"@
    } else {
        path
    }
}

/// `text` without the slashes that it begins with.
pub open spec fn trim_start_slashes(text: Seq<char>) -> Seq<char>
    decreases text.len(),
{
    if text.len() > 0 && text[0] == '/' {
        trim_start_slashes(text.drop_first())
    } else {
        text
    }
}

/// Whether an asset of the guessed type is sent with a caching rule: every
/// known type but HTML is.
pub open spec fn cacheable(guess: Option<MimeTypeView>) -> bool {
    match guess {
        Some(mime) => !mime.text_html,
        None => false,
    }
}

/// Whether the answer to a request for `url` is sent with a caching rule.
pub open spec fn need_cache_spec(url: Seq<char>) -> bool {
    match parsed_url(url) {
        Ok(parsed) => cacheable(guessed_mime(parsed.path)),
        Err(_) => false,
    }
}

/// Where a request goes, given its path, the media type guessed for the
/// path, and its method in lower case. A path with a known file extension is
/// an asset, whatever the method. The creation endpoint takes POST only. Any
/// other path is taken for a short identifier on GET, and for nothing else.
pub open spec fn route_spec(
    path: Seq<char>,
    host: Seq<char>,
    guess: Option<MimeTypeView>,
    method: Seq<char>,
) -> Result<RouteView, JsErrorView> {
    match guess {
        Some(mime) => Ok(RouteView::Asset { path, mime }),
        None => if path == "/new"@ {
            if method == "post"@ {
                Ok(RouteView::Create { host })
            } else {
                Err(method_not_allowed_error())
            }
        } else {
            if method == "get"@ {
                Ok(RouteView::Redirect { short_url_id: trim_start_slashes(path) })
            } else {
                Err(not_found_error())
            }
        },
    }
}

/// The host for building links: the host of the request, or nothing where
/// its URL has none.
pub open spec fn link_host(host: Option<Seq<char>>) -> Seq<char> {
    match host {
        Some(host) => host,
        None => Seq::empty(),
    }
}

/// Where a request for `url` with `method` goes. A URL that does not parse
/// is an internal error.
pub open spec fn handle_spec(url: Seq<char>, method: Seq<char>) -> Result<RouteView, JsErrorView> {
    match parsed_url(url) {
        Err(message) => Err(internal_error(message)),
        Ok(parsed) => {
            let path = normalized_path(parsed.path);
            route_spec(path, link_host(parsed.host), guessed_mime(path), lowercase(method))
        },
    }
}

/// Whether an asset of the guessed type is sent with a caching rule.
pub fn mime_needs_cache(guess: &Option<MimeType>) -> (cached: bool)
    ensures
        cached == cacheable(guess_view(*guess)),
{
    match guess {
        Some(mime) => !mime.text_html,
        None => false,
    }
}

/// Whether the answer to a request for `url` is sent with a caching rule.
pub fn need_cache(url: &str) -> (cached: bool)
    ensures
        cached == need_cache_spec(url@),
{
    let url = match parse_url(url) {
        Ok(url) => url,
        Err(_) => {
            return false;
        },
    };
    let guess = guess_mime(url.path.as_str());
    mime_needs_cache(&guess)
}

/// Appends `index.html` to a path that ends in a slash.
pub fn normalize_path(path: String) -> (normal: String)
    ensures
        normal@ == normalized_path(path@),
{
    let len = path.as_str().unicode_len();
    if len > 0 && path.as_str().get_char(len - 1) == '/' {
        path.concat("index.html")
    } else {
        path
    }
}

/// Strips the slashes that `text` begins with.
pub fn trim_start_matches_slash(text: &str) -> (trimmed: String)
    ensures
        trimmed@ == trim_start_slashes(text@),
{
    let len = text.unicode_len();
    let mut start: usize = 0;
    assert(text@.skip(0) =~= text@);
    while start < len && text.get_char(start) == '/'
        invariant
            start <= len,
            len == text@.len(),
            trim_start_slashes(text@) == trim_start_slashes(text@.skip(start as int)),
        decreases len - start,
    {
        assert(text@.skip(start as int).drop_first() =~= text@.skip(start as int + 1));
        start = start + 1;
    }
    assert(text@.skip(start as int) =~= text@.subrange(start as int, len as int));
    text.substring_char(start, len).to_owned()
}

fn same_text(left: &str, right: &str) -> (same: bool)
    ensures
        same == (left@ == right@),
{
    left.to_owned() == right.to_owned()
}

/// Decides where a request goes, given its path, the media type guessed for
/// the path, and its method in lower case.
pub fn route(path: String, host: String, guess: Option<MimeType>, method: &str) -> (outcome: Result<
    Route,
    JsError,
>)
    ensures
        route_outcome_view(outcome) == route_spec(path@, host@, guess_view(guess), method@),
{
    if let Some(mime) = guess {
        return Ok(Route::Asset { path, mime });
    }
    if same_text(path.as_str(), "/new") {
        if same_text(method, "post") {
            Ok(Route::Create { host })
        } else {
            method_not_allowed()
        }
    } else {
        if same_text(method, "get") {
            Ok(Route::Redirect { short_url_id: trim_start_matches_slash(path.as_str()) })
        } else {
            not_found()
        }
    }
}

/// Decides where a request for `url` with `method` goes.
pub fn handle(url: &str, method: &str) -> (outcome: Result<Route, JsError>)
    ensures
        route_outcome_view(outcome) == handle_spec(url@, method@),
{
    let url = match parse_url(url) {
        Ok(url) => url,
        Err(message) => {
            return Err(server_error(message.as_str()));
        },
    };
    let path = normalize_path(url.path);
    let host = match url.host {
        Some(host) => host,
        None => String::new(),
    };
    let guess = guess_mime(path.as_str());
    let method = to_lowercase(method);
    route(path, host, guess, method.as_str())
}

} // verus!
