//! The rules a creation request has to pass: which destinations are taken,
//! which times to live are granted to whom, and when a record expires.

use crate::bean::UserEntity;
use crate::error::{
    gen_error, outcome_view, JsError, JsErrorView, NEED_AUTH, TTL_ERROR, URL_ERROR,
};
use crate::setting::{GUEST_MAX_TTL, MIN_TTL};
use crate::trusted::{parse_outcome_view, ParsedUrl, ParsedUrlView};
use vstd::prelude::*;

verus! {

/// Why a time to live is refused.
#[derive(Clone, Copy, Debug, PartialEq, Eq, Structural)]
pub enum PolicyError {
    /// Only a known user may ask for it.
    NeedAuth,
    /// It is shorter than the service accepts.
    TtlTooShort,
}

/// The time to live that a request asks for: none means never to expire,
/// which is written as zero.
pub open spec fn effective_ttl(requested: Option<u64>) -> u64 {
    match requested {
        Some(ttl) => ttl,
        None => 0,
    }
}

/// The time to live, in seconds, granted to a request, or the reason why it
/// is refused. Never to expire, and more than [`GUEST_MAX_TTL`], is for known
/// users. Less than [`MIN_TTL`] is for nobody, zero excepted.
pub open spec fn permitted_ttl(requested: Option<u64>, authenticated: bool) -> Result<
    u64,
    PolicyError,
> {
    let ttl = effective_ttl(requested);
    if (ttl == 0 || ttl > GUEST_MAX_TTL) && !authenticated {
        Err(PolicyError::NeedAuth)
    } else if ttl != 0 && ttl < MIN_TTL {
        Err(PolicyError::TtlTooShort)
    } else {
        Ok(ttl)
    }
}

/// The moment, in milliseconds, at which a record made at `now_millis` with
/// `ttl` seconds to live expires; zero where it never does.
pub open spec fn expire_time_spec(now_millis: u64, ttl: u64) -> int {
    if ttl == 0 {
        0
    } else {
        now_millis + ttl * 1000
    }
}

/// The error that tells a caller of a refused time to live.
pub open spec fn policy_error(reason: PolicyError) -> JsErrorView {
    match reason {
        PolicyError::NeedAuth => JsErrorView {
            message: "Need Auth"@,
            status: 401,
            error_code: NEED_AUTH,
        },
        PolicyError::TtlTooShort => JsErrorView {
            message: "The TTL must be greater than 60 seconds."@,
            status: 400,
            error_code: TTL_ERROR,
        },
    }
}

/// The error that tells a caller of a destination that is not taken.
pub open spec fn url_error(message: Seq<char>) -> JsErrorView {
    JsErrorView { message, status: 400, error_code: URL_ERROR }
}

/// Whether a destination is taken, given what parsing it gave: it has to
/// parse, and to have a hierarchical part.
pub open spec fn target_verdict(parsed: Result<ParsedUrlView, Seq<char>>) -> Result<
    (),
    JsErrorView,
> {
    match parsed {
        Err(message) => Err(url_error(message)),
        Ok(url) => if url.cannot_be_a_base {
            Err(url_error("target url syntax error"@))
        } else {
            Ok(())
        },
    }
}

impl PolicyError {
    /// The error that tells the caller of this refusal.
    pub fn to_js_error(self) -> (err: JsError)
        ensures
            err@ == policy_error(self),
    {
        match self {
            PolicyError::NeedAuth => gen_error("Need Auth", 401, NEED_AUTH),
            PolicyError::TtlTooShort => gen_error(
                "The TTL must be greater than 60 seconds.",
                400,
                TTL_ERROR,
            ),
        }
    }
}

/// Decides on the time to live that a request asks for.
pub fn check_ttl(requested: Option<u64>, authenticated: bool) -> (verdict: Result<u64, PolicyError>)
    ensures
        verdict == permitted_ttl(requested, authenticated),
{
    let ttl: u64 = match requested {
        Some(ttl) => ttl,
        None => 0,
    };
    if (ttl == 0 || ttl > GUEST_MAX_TTL) && !authenticated {
        Err(PolicyError::NeedAuth)
    } else if ttl != 0 && ttl < MIN_TTL {
        Err(PolicyError::TtlTooShort)
    } else {
        Ok(ttl)
    }
}

/// The moment at which a record made now expires.
pub fn expire_time(now_millis: u64, ttl: u64) -> (expires: u64)
    requires
        now_millis + ttl * 1000 <= u64::MAX,
    ensures
        expires == expire_time_spec(now_millis, ttl),
{
    if ttl == 0 {
        0
    } else {
        now_millis + ttl * 1000
    }
}

/// Decides on a requested time to live and, where it is granted, gives the
/// moment of expiry in milliseconds.
pub fn evaluate(requested: Option<u64>, caller: &Option<UserEntity>, now_millis: u64) -> (verdict:
    Result<u64, PolicyError>)
    requires
        permitted_ttl(requested, caller is Some) matches Ok(ttl) ==> now_millis + ttl * 1000
            <= u64::MAX,
    ensures
        verdict == match permitted_ttl(requested, caller is Some) {
            Ok(ttl) => Ok(expire_time_spec(now_millis, ttl) as u64),
            Err(reason) => Err(reason),
        },
{
    match check_ttl(requested, caller.is_some()) {
        Ok(ttl) => Ok(expire_time(now_millis, ttl)),
        Err(reason) => Err(reason),
    }
}

/// Decides on a destination, given what parsing it gave.
pub fn check_target(parsed: &Result<ParsedUrl, String>) -> (verdict: Result<(), JsError>)
    ensures
        outcome_view(verdict) == target_verdict(parse_outcome_view(*parsed)),
{
    match parsed {
        Err(message) => Err(gen_error(message.as_str(), 400, URL_ERROR)),
        Ok(url) => if url.cannot_be_a_base {
            Err(gen_error("target url syntax error", 400, URL_ERROR))
        } else {
            Ok(())
        },
    }
}

} // verus!
