//! The values that travel between the service, its callers and its stores.

use vstd::prelude::*;

verus! {

/// Mathematical value of a text that may be missing.
pub open spec fn text_view(text: Option<String>) -> Option<Seq<char>> {
    match text {
        Some(text) => Some(text@),
        None => None,
    }
}

/// Expiry marker handed to the record store next to a value: the moment, in
/// seconds since the epoch, at which the store drops the value.
#[derive(Clone, Copy, Debug, PartialEq, Eq, Structural)]
pub struct ExpireSetting {
    pub expiration: u64,
}

/// A request to shorten `url`, to live for `ttl` seconds. Without a `ttl` the
/// short URL never expires.
#[derive(Clone, Debug, PartialEq, Eq)]
pub struct NewShortUrlRequest {
    pub url: String,
    pub ttl: Option<u64>,
}

/// Mathematical value of a [`NewShortUrlRequest`].
pub struct NewShortUrlRequestView {
    pub url: Seq<char>,
    pub ttl: Option<u64>,
}

impl View for NewShortUrlRequest {
    type V = NewShortUrlRequestView;

    open spec fn view(&self) -> NewShortUrlRequestView {
        NewShortUrlRequestView { url: self.url@, ttl: self.ttl }
    }
}

/// Answer to a successful [`NewShortUrlRequest`].
#[derive(Clone, Debug, PartialEq, Eq)]
pub struct NewShortUrlResponse {
    pub short_url: String,
    pub raw_url: String,
}

/// Mathematical value of a [`NewShortUrlResponse`].
pub struct NewShortUrlResponseView {
    pub short_url: Seq<char>,
    pub raw_url: Seq<char>,
}

impl View for NewShortUrlResponse {
    type V = NewShortUrlResponseView;

    open spec fn view(&self) -> NewShortUrlResponseView {
        NewShortUrlResponseView { short_url: self.short_url@, raw_url: self.raw_url@ }
    }
}

/// The record kept under a short identifier. Times are milliseconds since the
/// epoch; an `expire_time` of zero means that the record never expires, and an
/// empty `username` that a guest made it.
#[derive(Clone, Debug, PartialEq, Eq)]
pub struct ShortUrlDataEntity {
    pub raw_url: String,
    pub username: String,
    pub insert_time: u64,
    pub expire_time: u64,
}

/// Mathematical value of a [`ShortUrlDataEntity`].
pub struct ShortUrlDataEntityView {
    pub raw_url: Seq<char>,
    pub username: Seq<char>,
    pub insert_time: u64,
    pub expire_time: u64,
}

impl ShortUrlDataEntityView {
    /// A record expires after it was made, or never.
    pub open spec fn wf(self) -> bool {
        self.expire_time == 0 || self.expire_time > self.insert_time
    }
}

impl View for ShortUrlDataEntity {
    type V = ShortUrlDataEntityView;

    open spec fn view(&self) -> ShortUrlDataEntityView {
        ShortUrlDataEntityView {
            raw_url: self.raw_url@,
            username: self.username@,
            insert_time: self.insert_time,
            expire_time: self.expire_time,
        }
    }
}

/// A registered user, kept in the user store under `api_key`.
#[derive(Clone, Debug, PartialEq, Eq)]
pub struct UserEntity {
    pub username: String,
    pub api_key: String,
}

/// Mathematical value of a [`UserEntity`].
pub struct UserEntityView {
    pub username: Seq<char>,
    pub api_key: Seq<char>,
}

impl View for UserEntity {
    type V = UserEntityView;

    open spec fn view(&self) -> UserEntityView {
        UserEntityView { username: self.username@, api_key: self.api_key@ }
    }
}

} // verus!
