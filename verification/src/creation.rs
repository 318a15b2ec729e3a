//! Making a short URL, as a machine that is told what happened and says what
//! to do next. Whoever drives it reads the stores, the request body and the
//! clock, and writes the record; the machine decides.

use crate::bean::{
    text_view, ExpireSetting, NewShortUrlRequest, NewShortUrlRequestView, NewShortUrlResponse,
    NewShortUrlResponseView, ShortUrlDataEntity, ShortUrlDataEntityView, UserEntity,
    UserEntityView,
};
use crate::error::{
    decode_error, gen_error, internal_error, outcome_view, server_error, JsError, JsErrorView,
    DECODE_ERROR,
};
use crate::kv_store::{check_exists, StoreRead, Stored, StoredView};
use crate::policy::{
    check_target, check_ttl, expire_time, expire_time_spec, permitted_ttl, policy_error,
    target_verdict,
};
use crate::setting::{SHORT_ID_MAX, SHORT_ID_MIN};
use crate::short_id::short_url_id_of;
use crate::trusted::{base62, parse_url, parsed_url, random_in_range};
use vstd::prelude::*;
use vstd::string::StringExecFns;

verus! {

/// A request that passed every check and waits for a free identifier.
#[derive(Clone, Debug, PartialEq, Eq)]
pub struct Pending {
    /// The destination, as it was submitted.
    pub raw_url: String,
    /// The granted time to live in seconds; zero for ever.
    pub ttl: u64,
    /// Name of the caller; empty for a guest.
    pub username: String,
    /// Host under which the short URL will be reached.
    pub host: String,
    /// The identifier that is tried at the moment.
    pub short_url_id: String,
}

/// Mathematical value of a [`Pending`].
pub struct PendingView {
    pub raw_url: Seq<char>,
    pub ttl: u64,
    pub username: Seq<char>,
    pub host: Seq<char>,
    pub short_url_id: Seq<char>,
}

impl View for Pending {
    type V = PendingView;

    open spec fn view(&self) -> PendingView {
        PendingView {
            raw_url: self.raw_url@,
            ttl: self.ttl,
            username: self.username@,
            host: self.host@,
            short_url_id: self.short_url_id@,
        }
    }
}

/// Where the making of a short URL stands.
#[derive(Clone, Debug, PartialEq, Eq)]
pub enum Creation {
    /// The user store was asked for the caller's API key.
    AwaitingUser { host: String },
    /// The caller is settled, the request body is being read.
    AwaitingBody { user: Option<UserEntity>, host: String },
    /// The record store was asked whether the identifier is taken.
    AwaitingVacancy(Pending),
    /// The identifier is free, the clock is being read.
    AwaitingClock(Pending),
    /// The record is being written.
    AwaitingWrite(NewShortUrlResponse),
    /// The request was answered.
    Finished,
}

/// Mathematical value of a [`Creation`].
pub enum CreationView {
    AwaitingUser { host: Seq<char> },
    AwaitingBody { user: Option<UserEntityView>, host: Seq<char> },
    AwaitingVacancy(PendingView),
    AwaitingClock(PendingView),
    AwaitingWrite(NewShortUrlResponseView),
    Finished,
}

/// Mathematical value of a caller who may be a guest.
pub open spec fn caller_view(user: Option<UserEntity>) -> Option<UserEntityView> {
    match user {
        Some(user) => Some(user@),
        None => None,
    }
}

impl View for Creation {
    type V = CreationView;

    open spec fn view(&self) -> CreationView {
        match self {
            Creation::AwaitingUser { host } => CreationView::AwaitingUser { host: host@ },
            Creation::AwaitingBody { user, host } => CreationView::AwaitingBody {
                user: caller_view(*user),
                host: host@,
            },
            Creation::AwaitingVacancy(pending) => CreationView::AwaitingVacancy(pending@),
            Creation::AwaitingClock(pending) => CreationView::AwaitingClock(pending@),
            Creation::AwaitingWrite(response) => CreationView::AwaitingWrite(response@),
            Creation::Finished => CreationView::Finished,
        }
    }
}

/// What the driver of the machine reports.
#[derive(Clone, Debug, PartialEq, Eq)]
pub enum Event {
    /// What the user store holds under the API key.
    User(Stored<UserEntity>),
    /// The request body, decoded.
    Body(NewShortUrlRequest),
    /// The request body does not decode; the decoder's message.
    BodyMalformed(String),
    /// What the read of the tried identifier gave.
    Existence(StoreRead),
    /// The time, in milliseconds since the epoch.
    Clock(u64),
    /// The record was written.
    Written,
}

/// Mathematical value of an [`Event`].
pub enum EventView {
    User(StoredView<UserEntityView>),
    Body(NewShortUrlRequestView),
    BodyMalformed(Seq<char>),
    Existence(StoreRead),
    Clock(u64),
    Written,
}

impl View for Event {
    type V = EventView;

    open spec fn view(&self) -> EventView {
        match self {
            Event::User(stored) => EventView::User(stored@),
            Event::Body(request) => EventView::Body(request@),
            Event::BodyMalformed(message) => EventView::BodyMalformed(message@),
            Event::Existence(read) => EventView::Existence(*read),
            Event::Clock(now_millis) => EventView::Clock(*now_millis),
            Event::Written => EventView::Written,
        }
    }
}

/// What the machine asks its driver to do.
#[derive(Clone, Debug, PartialEq, Eq)]
pub enum Command {
    /// Read the user store at `api_key` and report [`Event::User`].
    LookupUser { api_key: String },
    /// Read and decode the request body and report [`Event::Body`] or
    /// [`Event::BodyMalformed`].
    ReadBody,
    /// Read the record store at `short_url_id` and report
    /// [`Event::Existence`].
    CheckExists { short_url_id: String },
    /// Read the clock and report [`Event::Clock`].
    ReadClock,
    /// Write `entity` to the record store under `short_url_id`, to be dropped
    /// by the store as `expire_setting` says, or never where it says
    /// nothing; then report [`Event::Written`].
    Put { short_url_id: String, entity: ShortUrlDataEntity, expire_setting: Option<ExpireSetting> },
    /// Answer the request with the short URL. Nothing more is to be reported.
    Succeed(NewShortUrlResponse),
    /// Answer the request with the error. Nothing more is to be reported.
    Fail(JsError),
}

/// Mathematical value of a [`Command`].
pub enum CommandView {
    LookupUser { api_key: Seq<char> },
    ReadBody,
    CheckExists { short_url_id: Seq<char> },
    ReadClock,
    Put {
        short_url_id: Seq<char>,
        entity: ShortUrlDataEntityView,
        expire_setting: Option<ExpireSetting>,
    },
    Succeed(NewShortUrlResponseView),
    Fail(JsErrorView),
}

impl View for Command {
    type V = CommandView;

    open spec fn view(&self) -> CommandView {
        match self {
            Command::LookupUser { api_key } => CommandView::LookupUser { api_key: api_key@ },
            Command::ReadBody => CommandView::ReadBody,
            Command::CheckExists { short_url_id } => CommandView::CheckExists {
                short_url_id: short_url_id@,
            },
            Command::ReadClock => CommandView::ReadClock,
            Command::Put { short_url_id, entity, expire_setting } => CommandView::Put {
                short_url_id: short_url_id@,
                entity: entity@,
                expire_setting: *expire_setting,
            },
            Command::Succeed(response) => CommandView::Succeed(response@),
            Command::Fail(err) => CommandView::Fail(err@),
        }
    }
}

/// The first state and command of a request that came with the given API
/// key, or with none: only a caller with a key is looked up.
pub open spec fn start_spec(key_option: Option<Seq<char>>, host: Seq<char>) -> (
    CreationView,
    CommandView,
) {
    match key_option {
        Some(api_key) => (
            CreationView::AwaitingUser { host },
            CommandView::LookupUser { api_key },
        ),
        None => (CreationView::AwaitingBody { user: None, host }, CommandView::ReadBody),
    }
}

/// Who the caller is, given what the user store holds under the API key. A
/// key that the store does not know makes a guest; a user record that does
/// not decode fails the request.
pub open spec fn caller_spec(stored: StoredView<UserEntityView>) -> Result<
    Option<UserEntityView>,
    JsErrorView,
> {
    match stored {
        StoredView::Absent => Ok(None),
        StoredView::Found(user) => Ok(Some(user)),
        StoredView::Malformed(message) => Err(decode_error(message)),
    }
}

/// The name under which a record is filed: the caller's, or none for a guest.
pub open spec fn filed_under(user: Option<UserEntityView>) -> Seq<char> {
    match user {
        Some(user) => user.username,
        None => Seq::empty(),
    }
}

/// The time to live, in seconds, that a request is let in with, or the
/// error that refuses it. The destination is judged first, then the time to
/// live.
pub open spec fn admission(request: NewShortUrlRequestView, authenticated: bool) -> Result<
    u64,
    JsErrorView,
> {
    match target_verdict(parsed_url(request.url)) {
        Err(err) => Err(err),
        Ok(()) => match permitted_ttl(request.ttl, authenticated) {
            Err(reason) => Err(policy_error(reason)),
            Ok(ttl) => Ok(ttl),
        },
    }
}

/// The record of a pending request that is written at `now_millis`.
pub open spec fn record_of(pending: PendingView, now_millis: u64) -> ShortUrlDataEntityView {
    ShortUrlDataEntityView {
        raw_url: pending.raw_url,
        username: pending.username,
        insert_time: now_millis,
        expire_time: expire_time_spec(now_millis, pending.ttl) as u64,
    }
}

/// When the store is to drop the record, in seconds since the epoch; nothing
/// for a record that never expires.
pub open spec fn expiry_of(pending: PendingView, now_millis: u64) -> Option<ExpireSetting> {
    if pending.ttl == 0 {
        None
    } else {
        Some(ExpireSetting { expiration: (expire_time_spec(now_millis, pending.ttl) / 1000) as u64 })
    }
}

/// The short URL of a pending request: its host, a slash, its identifier.
pub open spec fn response_of(pending: PendingView) -> NewShortUrlResponseView {
    NewShortUrlResponseView {
        short_url: pending.host + seq!['/'] + pending.short_url_id,
        raw_url: pending.raw_url,
    }
}

/// The error that answers an event that the state did not wait for.
pub open spec fn out_of_turn() -> JsErrorView {
    internal_error("unexpected event"@)
}

/// Whether the step from `state` on `event` may take up a fresh identifier.
pub open spec fn wants_candidate(state: CreationView, event: EventView) -> bool {
    match (state, event) {
        (CreationView::AwaitingBody { .. }, EventView::Body(_)) => true,
        (CreationView::AwaitingVacancy(_), EventView::Existence(read)) => read
            == StoreRead::Present,
        _ => false,
    }
}

/// Whether the step from `state` on `event` does take up a fresh identifier:
/// after a request passed every check, and after each identifier that proved
/// to be taken.
pub open spec fn takes_up_candidate(state: CreationView, event: EventView) -> bool {
    match (state, event) {
        (CreationView::AwaitingBody { user, .. }, EventView::Body(request)) => admission(
            request,
            user is Some,
        ) is Ok,
        (CreationView::AwaitingVacancy(_), EventView::Existence(read)) => read
            == StoreRead::Present,
        _ => false,
    }
}

/// The machine: the next state, and the command that leads to the next
/// event. `candidate` is a fresh identifier, taken up where the step needs
/// one.
pub open spec fn step_spec(state: CreationView, event: EventView, candidate: Seq<char>) -> (
    CreationView,
    CommandView,
) {
    match (state, event) {
        (CreationView::AwaitingUser { host }, EventView::User(stored)) => match caller_spec(
            stored,
        ) {
            Ok(user) => (CreationView::AwaitingBody { user, host }, CommandView::ReadBody),
            Err(err) => (CreationView::Finished, CommandView::Fail(err)),
        },
        (CreationView::AwaitingBody { .. }, EventView::BodyMalformed(message)) => (
            CreationView::Finished,
            CommandView::Fail(decode_error(message)),
        ),
        (CreationView::AwaitingBody { user, host }, EventView::Body(request)) => match admission(
            request,
            user is Some,
        ) {
            Err(err) => (CreationView::Finished, CommandView::Fail(err)),
            Ok(ttl) => (
                CreationView::AwaitingVacancy(
                    PendingView {
                        raw_url: request.url,
                        ttl,
                        username: filed_under(user),
                        host,
                        short_url_id: candidate,
                    },
                ),
                CommandView::CheckExists { short_url_id: candidate },
            ),
        },
        (CreationView::AwaitingVacancy(pending), EventView::Existence(read)) => if read
            == StoreRead::Present {
            (
                CreationView::AwaitingVacancy(PendingView { short_url_id: candidate, ..pending }),
                CommandView::CheckExists { short_url_id: candidate },
            )
        } else {
            (CreationView::AwaitingClock(pending), CommandView::ReadClock)
        },
        (CreationView::AwaitingClock(pending), EventView::Clock(now_millis)) => (
            CreationView::AwaitingWrite(response_of(pending)),
            CommandView::Put {
                short_url_id: pending.short_url_id,
                entity: record_of(pending, now_millis),
                expire_setting: expiry_of(pending, now_millis),
            },
        ),
        (CreationView::AwaitingWrite(response), EventView::Written) => (
            CreationView::Finished,
            CommandView::Succeed(response),
        ),
        _ => (CreationView::Finished, CommandView::Fail(out_of_turn())),
    }
}

/// Whether the moment of expiry fits into 64 bits, where the step from
/// `state` on `event` computes one.
pub open spec fn clock_fits(state: CreationView, event: EventView) -> bool {
    match (state, event) {
        (CreationView::AwaitingClock(pending), EventView::Clock(now_millis)) => now_millis
            + pending.ttl * 1000 <= u64::MAX,
        _ => true,
    }
}

/// The record that the machine writes expires after it was made, or never.
pub proof fn lemma_record_is_well_formed(pending: PendingView, now_millis: u64)
    requires
        now_millis + pending.ttl * 1000 <= u64::MAX,
    ensures
        record_of(pending, now_millis).wf(),
{
}

/// Begins the making of a short URL for a request that came with the given
/// API key, or with none, and was sent to `host`.
pub fn new_short_url(key_option: Option<String>, host: String) -> (first: (Creation, Command))
    ensures
        (first.0@, first.1@) == start_spec(text_view(key_option), host@),
{
    match key_option {
        Some(api_key) => (Creation::AwaitingUser { host }, Command::LookupUser { api_key }),
        None => (Creation::AwaitingBody { user: None, host }, Command::ReadBody),
    }
}

/// Settles who the caller is, given what the user store holds under the API
/// key.
pub fn get_user(stored: Stored<UserEntity>) -> (caller: Result<Option<UserEntity>, JsError>)
    ensures
        match caller {
            Ok(user) => caller_spec(stored@) == Ok::<Option<UserEntityView>, JsErrorView>(
                caller_view(user),
            ),
            Err(err) => caller_spec(stored@) == Err::<Option<UserEntityView>, JsErrorView>(err@),
        },
{
    match stored {
        Stored::Absent => Ok(None),
        Stored::Found(user) => Ok(Some(user)),
        Stored::Malformed(message) => Err(gen_error(message.as_str(), 400, DECODE_ERROR)),
    }
}

/// Judges a request: first its destination, then the time to live that it
/// asks for.
pub fn check_request(request: &NewShortUrlRequest, authenticated: bool) -> (verdict: Result<
    u64,
    JsError,
>)
    ensures
        outcome_view(verdict) == admission(request@, authenticated),
{
    let parsed = parse_url(request.url.as_str());
    match check_target(&parsed) {
        Err(err) => Err(err),
        Ok(()) => match check_ttl(request.ttl, authenticated) {
            Err(reason) => Err(reason.to_js_error()),
            Ok(ttl) => Ok(ttl),
        },
    }
}

fn refuse_out_of_turn() -> (next: (Creation, Command))
    ensures
        next.0@ == CreationView::Finished,
        next.1@ == CommandView::Fail(out_of_turn()),
{
    (Creation::Finished, Command::Fail(server_error("unexpected event")))
}

fn settle_caller(host: String, stored: Stored<UserEntity>) -> (next: (Creation, Command))
    ensures
        (next.0@, next.1@) == step_spec(
            CreationView::AwaitingUser { host: host@ },
            EventView::User(stored@),
            Seq::empty(),
        ),
{
    match get_user(stored) {
        Ok(user) => (Creation::AwaitingBody { user, host }, Command::ReadBody),
        Err(err) => (Creation::Finished, Command::Fail(err)),
    }
}

fn take_request(
    user: Option<UserEntity>,
    host: String,
    request: NewShortUrlRequest,
    sample: u64,
) -> (next: (Creation, Command))
    ensures
        (next.0@, next.1@) == step_spec(
            CreationView::AwaitingBody { user: caller_view(user), host: host@ },
            EventView::Body(request@),
            base62(sample as nat),
        ),
{
    match check_request(&request, user.is_some()) {
        Err(err) => (Creation::Finished, Command::Fail(err)),
        Ok(ttl) => {
            let username = match user {
                Some(user) => user.username,
                None => String::new(),
            };
            let short_url_id = short_url_id_of(sample);
            let pending = Pending {
                raw_url: request.url,
                ttl,
                username,
                host,
                short_url_id: short_url_id.clone(),
            };
            (Creation::AwaitingVacancy(pending), Command::CheckExists { short_url_id })
        },
    }
}

fn try_next(pending: Pending, read: StoreRead, sample: u64) -> (next: (Creation, Command))
    ensures
        (next.0@, next.1@) == step_spec(
            CreationView::AwaitingVacancy(pending@),
            EventView::Existence(read),
            base62(sample as nat),
        ),
{
    if check_exists(read) {
        let short_url_id = short_url_id_of(sample);
        let retry = Pending {
            raw_url: pending.raw_url,
            ttl: pending.ttl,
            username: pending.username,
            host: pending.host,
            short_url_id: short_url_id.clone(),
        };
        (Creation::AwaitingVacancy(retry), Command::CheckExists { short_url_id })
    } else {
        (Creation::AwaitingClock(pending), Command::ReadClock)
    }
}

fn write_record(pending: Pending, now_millis: u64) -> (next: (Creation, Command))
    requires
        now_millis + pending.ttl * 1000 <= u64::MAX,
    ensures
        (next.0@, next.1@) == step_spec(
            CreationView::AwaitingClock(pending@),
            EventView::Clock(now_millis),
            Seq::empty(),
        ),
{
    let expires = expire_time(now_millis, pending.ttl);
    let expire_setting = if pending.ttl == 0 {
        None
    } else {
        Some(ExpireSetting { expiration: expires / 1000 })
    };
    let entity = ShortUrlDataEntity {
        raw_url: pending.raw_url.clone(),
        username: pending.username,
        insert_time: now_millis,
        expire_time: expires,
    };
    proof {
        reveal_strlit("/");
    }
    let short_url = pending.host.concat("/").concat(pending.short_url_id.as_str());
    let response = NewShortUrlResponse { short_url, raw_url: pending.raw_url };
    assert("/"@ =~= seq!['/']);
    (
        Creation::AwaitingWrite(response),
        Command::Put { short_url_id: pending.short_url_id, entity, expire_setting },
    )
}

impl Creation {
    /// Takes one step, with `sample` as the number that a fresh identifier
    /// is made of where the step takes one up.
    pub fn step_with(self, event: Event, sample: u64) -> (next: (Creation, Command))
        requires
            clock_fits(self@, event@),
        ensures
            (next.0@, next.1@) == step_spec(self@, event@, base62(sample as nat)),
            next.1@ matches CommandView::Put { entity, .. } ==> entity.wf(),
    {
        match self {
            Creation::AwaitingUser { host } => match event {
                Event::User(stored) => settle_caller(host, stored),
                _ => refuse_out_of_turn(),
            },
            Creation::AwaitingBody { user, host } => match event {
                Event::BodyMalformed(message) => (
                    Creation::Finished,
                    Command::Fail(gen_error(message.as_str(), 400, DECODE_ERROR)),
                ),
                Event::Body(request) => take_request(user, host, request, sample),
                _ => refuse_out_of_turn(),
            },
            Creation::AwaitingVacancy(pending) => match event {
                Event::Existence(read) => try_next(pending, read, sample),
                _ => refuse_out_of_turn(),
            },
            Creation::AwaitingClock(pending) => match event {
                Event::Clock(now_millis) => write_record(pending, now_millis),
                _ => refuse_out_of_turn(),
            },
            Creation::AwaitingWrite(response) => match event {
                Event::Written => (Creation::Finished, Command::Succeed(response)),
                _ => refuse_out_of_turn(),
            },
            Creation::Finished => refuse_out_of_turn(),
        }
    }

    /// Whether the step on `event` may take up a fresh identifier.
    pub fn takes_candidate(&self, event: &Event) -> (wanted: bool)
        ensures
            wanted == wants_candidate(self@, event@),
    {
        match self {
            Creation::AwaitingBody { .. } => match event {
                Event::Body(_) => true,
                _ => false,
            },
            Creation::AwaitingVacancy(_) => match event {
                Event::Existence(read) => check_exists(*read),
                _ => false,
            },
            _ => false,
        }
    }

    /// Takes one step. Where the step takes up a fresh identifier, it is made
    /// of a number drawn at random from the sampling interval.
    pub fn step(self, event: Event) -> (next: (Creation, Command))
        requires
            clock_fits(self@, event@),
        ensures
            exists|sample: nat|
                SHORT_ID_MIN <= sample < SHORT_ID_MAX && (next.0@, next.1@) == step_spec(
                    self@,
                    event@,
                    #[trigger] base62(sample),
                ),
            next.1@ matches CommandView::Put { entity, .. } ==> entity.wf(),
    {
        let sample: u64 = if self.takes_candidate(&event) {
            random_in_range(SHORT_ID_MIN, SHORT_ID_MAX)
        } else {
            SHORT_ID_MIN
        };
        self.step_with(event, sample)
    }
}

} // verus!
