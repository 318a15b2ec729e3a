//! Everything this library believes without proof: the calls into other
//! crates, each behind a small function whose contract says what is assumed
//! of the call.

use rand::Rng;
use vstd::prelude::*;

verus! {

/// What the service reads off a parsed URL.
#[derive(Clone, Debug, PartialEq, Eq)]
pub struct ParsedUrl {
    /// The path, percent-encoded.
    pub path: String,
    /// The host as text, where the URL has one.
    pub host: Option<String>,
    /// Whether the URL has no hierarchical part, as `mailto:` and `data:`
    /// URLs have none.
    pub cannot_be_a_base: bool,
}

/// Mathematical value of a [`ParsedUrl`].
pub struct ParsedUrlView {
    pub path: Seq<char>,
    pub host: Option<Seq<char>>,
    pub cannot_be_a_base: bool,
}

impl View for ParsedUrl {
    type V = ParsedUrlView;

    open spec fn view(&self) -> ParsedUrlView {
        ParsedUrlView {
            path: self.path@,
            host: match self.host {
                Some(host) => Some(host@),
                None => None,
            },
            cannot_be_a_base: self.cannot_be_a_base,
        }
    }
}

/// Mathematical value of the outcome of parsing a URL.
pub open spec fn parse_outcome_view(outcome: Result<ParsedUrl, String>) -> Result<
    ParsedUrlView,
    Seq<char>,
> {
    match outcome {
        Ok(parsed) => Ok(parsed@),
        Err(message) => Err(message@),
    }
}

/// What `url::Url::parse` makes of `input`: the parts of the URL, or the
/// message of the parse error.
pub uninterp spec fn parsed_url(input: Seq<char>) -> Result<ParsedUrlView, Seq<char>>;

/// Calls `url::Url::parse`. On success the result holds what `Url::path`,
/// `Url::host_str` and `Url::cannot_be_a_base` return for the parsed URL; on
/// failure it holds the text of the `url::ParseError`. Nothing is assumed but
/// that the outcome depends on `input` alone.
#[verifier::external_body]
pub(crate) fn parse_url(input: &str) -> (outcome: Result<ParsedUrl, String>)
    ensures
        parse_outcome_view(outcome) == parsed_url(input@),
{
    match url::Url::parse(input) {
        Ok(parsed) => Ok(
            ParsedUrl {
                path: parsed.path().to_owned(),
                host: parsed.host_str().map(str::to_owned),
                cannot_be_a_base: parsed.cannot_be_a_base(),
            },
        ),
        Err(error) => Err(error.to_string()),
    }
}

/// A media type guessed from a file extension.
#[derive(Clone, Debug, PartialEq, Eq)]
pub struct MimeType {
    /// Type and subtype, as in `text/css`.
    pub essence: String,
    /// Whether the type is the one of HTML pages.
    pub text_html: bool,
}

/// Mathematical value of a [`MimeType`].
pub struct MimeTypeView {
    pub essence: Seq<char>,
    pub text_html: bool,
}

impl View for MimeType {
    type V = MimeTypeView;

    open spec fn view(&self) -> MimeTypeView {
        MimeTypeView { essence: self.essence@, text_html: self.text_html }
    }
}

/// Mathematical value of a guess that may have found nothing.
pub open spec fn guess_view(guess: Option<MimeType>) -> Option<MimeTypeView> {
    match guess {
        Some(mime) => Some(mime@),
        None => None,
    }
}

/// The first media type that `mime_guess` has for the extension of `path`, if
/// it has any. The extension is the one that `std::path::Path::extension`
/// finds under the path rules of the platform that the library is built for.
pub uninterp spec fn guessed_mime(path: Seq<char>) -> Option<MimeTypeView>;

/// Calls `mime_guess::from_path(path).first()`. Of a type that was found the
/// result holds `Mime::essence_str` and whether the type equals
/// `mime::TEXT_HTML`. Nothing is assumed but that the guess depends on `path`
/// alone; no file is looked at.
#[verifier::external_body]
pub(crate) fn guess_mime(path: &str) -> (guess: Option<MimeType>)
    ensures
        guess_view(guess) == guessed_mime(path@),
{
    match mime_guess::from_path(path).first() {
        Some(mime) => Some(
            MimeType {
                essence: mime.essence_str().to_owned(),
                text_html: mime == mime_guess::mime::TEXT_HTML,
            },
        ),
        None => None,
    }
}

/// What `str::to_lowercase` makes of `text`.
pub uninterp spec fn lowercase(text: Seq<char>) -> Seq<char>;

/// Calls `str::to_lowercase`, which follows the Unicode rules for lower case.
#[verifier::external_body]
pub(crate) fn to_lowercase(text: &str) -> (lower: String)
    ensures
        lower@ == lowercase(text@),
{
    text.to_lowercase()
}

/// The digits of base 62 in rising order: `0` to `9`, `A` to `Z`, `a` to `z`.
pub open spec fn base62_digit(value: int) -> char {
    "0123456789ABCDEFGHIJKLMNOPQRSTUVWXYZabcdefghijklmnopqrstuvwxyz"@[value]
}

/// `number` written in base 62, most significant digit first, without leading
/// zeros.
pub open spec fn base62(number: nat) -> Seq<char>
    decreases number,
{
    if number < 62 {
        seq![base62_digit(number as int)]
    } else {
        base62(number / 62).push(base62_digit((number % 62) as int))
    }
}

/// Calls `base62::encode`, which writes a number in base 62 with the standard
/// digits.
#[verifier::external_body]
pub(crate) fn base62_encode(number: u64) -> (text: String)
    ensures
        text@ == base62(number as nat),
{
    base62::encode(number)
}

/// Calls `rand::Rng::gen_range` on `rand::thread_rng()`. The number may be any
/// one of the interval, its lower end included and its upper end excluded;
/// `gen_range` panics on an empty interval. Nothing is assumed of how the
/// numbers are spread over the interval, and `thread_rng` gives up where the
/// system has no randomness to seed it with.
#[verifier::external_body]
pub(crate) fn random_in_range(low: u64, high: u64) -> (number: u64)
    requires
        low < high,
    ensures
        low <= number < high,
{
    rand::thread_rng().gen_range(low, high)
}

} // verus!
