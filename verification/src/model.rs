//! A run of the machine against a model of the stores, and what holds of
//! every such run.

use crate::bean::{
    NewShortUrlRequestView, NewShortUrlResponseView, ShortUrlDataEntityView, UserEntityView,
};
use crate::creation::{
    admission, caller_spec, clock_fits, filed_under, record_of, response_of, start_spec,
    step_spec, takes_up_candidate, CommandView, CreationView, EventView, PendingView,
};
use crate::error::{decode_error, JsErrorView, NEED_AUTH, TTL_ERROR, URL_ERROR};
use crate::kv_store::{Documents, World};
use crate::policy::{effective_ttl, policy_error, target_verdict, PolicyError};
use crate::response::{redirect_reply, ReplyView};
use crate::setting::{GUEST_MAX_TTL, MIN_TTL, SHORT_ID_MAX, SHORT_ID_MIN};
use crate::short_id::{is_base62_char, is_short_id, lemma_short_id_shape};
use crate::trusted::{base62, parsed_url};
use crate::{route_spec, trim_start_slashes, RouteView};
use vstd::prelude::*;

verus! {

/// What a request for a short URL brings with it, and the time at which it
/// is served.
pub struct Arrival {
    /// The API key that the request carries, if it carries one.
    pub key_option: Option<Seq<char>>,
    /// The host that the request was sent to.
    pub host: Seq<char>,
    /// The request body decoded, or the decoder's message.
    pub body: Result<NewShortUrlRequestView, Seq<char>>,
    /// What the clock shows.
    pub now_millis: u64,
}

/// How a request for a short URL ended: the answer, and the stores as the
/// request left them.
pub struct Outcome {
    pub answer: Result<NewShortUrlResponseView, JsErrorView>,
    pub world: World,
}

/// What a faithful driver reports after it carried out `command`.
pub open spec fn report(world: World, arrival: Arrival, command: CommandView) -> EventView {
    match command {
        CommandView::LookupUser { api_key } => EventView::User(world.users.get(api_key)),
        CommandView::ReadBody => match arrival.body {
            Ok(request) => EventView::Body(request),
            Err(message) => EventView::BodyMalformed(message),
        },
        CommandView::CheckExists { short_url_id } => EventView::Existence(
            world.records.probe(short_url_id),
        ),
        CommandView::ReadClock => EventView::Clock(arrival.now_millis),
        _ => EventView::Written,
    }
}

/// The stores after a faithful driver carried out `command`: only a write
/// changes them.
pub open spec fn effect(world: World, command: CommandView) -> World {
    match command {
        CommandView::Put { short_url_id, entity, .. } => World {
            records: world.records.put(short_url_id, entity),
            ..world
        },
        _ => world,
    }
}

/// How far a state is from the end.
pub open spec fn stage(state: CreationView) -> nat {
    match state {
        CreationView::AwaitingUser { .. } => 5,
        CreationView::AwaitingBody { .. } => 4,
        CreationView::AwaitingVacancy(_) => 3,
        CreationView::AwaitingClock(_) => 2,
        CreationView::AwaitingWrite(_) => 1,
        CreationView::Finished => 0,
    }
}

/// The run of the machine from `state`, where `command` is what it asked
/// for last, with a faithful driver. The numbers that fresh identifiers are
/// made of are taken from `samples`, one for each step that takes one up.
/// There is no outcome where the samples run out, nor where a step would
/// compute a moment of expiry that does not fit into 64 bits.
pub open spec fn run(
    state: CreationView,
    command: CommandView,
    world: World,
    arrival: Arrival,
    samples: Seq<nat>,
) -> Option<Outcome>
    decreases samples.len(), stage(state),
{
    match command {
        CommandView::Succeed(response) => Some(Outcome { answer: Ok(response), world }),
        CommandView::Fail(err) => Some(Outcome { answer: Err(err), world }),
        _ => {
            let event = report(world, arrival, command);
            let after = effect(world, command);
            if state is Finished || !clock_fits(state, event) {
                None
            } else if takes_up_candidate(state, event) {
                if samples.len() == 0 {
                    None
                } else {
                    let next = step_spec(state, event, base62(samples[0]));
                    run(next.0, next.1, after, arrival, samples.drop_first())
                }
            } else {
                let next = step_spec(state, event, Seq::empty());
                run(next.0, next.1, after, arrival, samples)
            }
        },
    }
}

/// The whole run of the machine for one request.
pub open spec fn create(world: World, arrival: Arrival, samples: Seq<nat>) -> Option<Outcome> {
    let first = start_spec(arrival.key_option, arrival.host);
    run(first.0, first.1, world, arrival, samples)
}

/// The identifier that a request ends up with: the first one, of `first` and
/// then those made of `samples`, under which the records hold nothing. There
/// is none where all of them are taken.
pub open spec fn allocate(
    records: Documents<ShortUrlDataEntityView>,
    first: Seq<char>,
    samples: Seq<nat>,
) -> Option<Seq<char>>
    decreases samples.len(),
{
    if !records.holds(first) {
        Some(first)
    } else if samples.len() == 0 {
        None
    } else {
        allocate(records, base62(samples[0]), samples.drop_first())
    }
}

/// Who the caller is: a guest without an API key, else what the user store
/// makes of the key.
pub open spec fn caller_of(world: World, key_option: Option<Seq<char>>) -> Result<
    Option<UserEntityView>,
    JsErrorView,
> {
    match key_option {
        Some(api_key) => caller_spec(world.users.get(api_key)),
        None => Ok(None),
    }
}

/// A request that failed: the stores are as they were.
pub open spec fn refused(world: World, err: JsErrorView) -> Outcome {
    Outcome { answer: Err(err), world }
}

/// A request that went through: its record is in the store under its
/// identifier, and the answer names the short URL.
pub open spec fn created(world: World, pending: PendingView, now_millis: u64) -> Outcome {
    Outcome {
        answer: Ok(response_of(pending)),
        world: World {
            records: world.records.put(pending.short_url_id, record_of(pending, now_millis)),
            ..world
        },
    }
}

/// What becomes of a request that passed every check and tries `pending`'s
/// identifier first.
pub open spec fn settle(world: World, arrival: Arrival, pending: PendingView, samples: Seq<nat>)
    -> Option<Outcome> {
    match allocate(world.records, pending.short_url_id, samples) {
        Some(short_url_id) => if arrival.now_millis + pending.ttl * 1000 <= u64::MAX {
            Some(created(world, PendingView { short_url_id, ..pending }, arrival.now_millis))
        } else {
            None
        },
        None => None,
    }
}

/// What becomes of a request once its caller is settled: decode the body,
/// judge destination and time to live, then find a free identifier.
pub open spec fn serve(
    world: World,
    arrival: Arrival,
    user: Option<UserEntityView>,
    samples: Seq<nat>,
) -> Option<Outcome> {
    match arrival.body {
        Err(message) => Some(refused(world, decode_error(message))),
        Ok(request) => match admission(request, user is Some) {
            Err(err) => Some(refused(world, err)),
            Ok(ttl) => if samples.len() == 0 {
                None
            } else {
                settle(
                    world,
                    arrival,
                    PendingView {
                        raw_url: request.url,
                        ttl,
                        username: filed_under(user),
                        host: arrival.host,
                        short_url_id: base62(samples[0]),
                    },
                    samples.drop_first(),
                )
            },
        },
    }
}

/// The making of a short URL, told in one piece: settle who calls, decode
/// the body, judge destination and time to live, find a free identifier,
/// write the record, answer.
pub open spec fn workflow(world: World, arrival: Arrival, samples: Seq<nat>) -> Option<Outcome> {
    match caller_of(world, arrival.key_option) {
        Err(err) => Some(refused(world, err)),
        Ok(user) => serve(world, arrival, user, samples),
    }
}

/// From the first look into the record store on, a run ends as [`settle`]
/// says.
pub proof fn lemma_run_settles(
    world: World,
    arrival: Arrival,
    pending: PendingView,
    samples: Seq<nat>,
)
    ensures
        run(
            CreationView::AwaitingVacancy(pending),
            CommandView::CheckExists { short_url_id: pending.short_url_id },
            world,
            arrival,
            samples,
        ) == settle(world, arrival, pending, samples),
    decreases samples.len(),
{
    reveal_with_fuel(run, 5);
    if world.records.holds(pending.short_url_id) && samples.len() > 0 {
        lemma_run_settles(
            world,
            arrival,
            PendingView { short_url_id: base62(samples[0]), ..pending },
            samples.drop_first(),
        );
    }
}

/// From the reading of the body on, a run ends as [`serve`] says.
pub proof fn lemma_run_serves(
    world: World,
    arrival: Arrival,
    user: Option<UserEntityView>,
    samples: Seq<nat>,
)
    ensures
        run(
            CreationView::AwaitingBody { user, host: arrival.host },
            CommandView::ReadBody,
            world,
            arrival,
            samples,
        ) == serve(world, arrival, user, samples),
{
    reveal_with_fuel(run, 2);
    if let Ok(request) = arrival.body {
        if let Ok(ttl) = admission(request, user is Some) {
            if samples.len() > 0 {
                lemma_run_settles(
                    world,
                    arrival,
                    PendingView {
                        raw_url: request.url,
                        ttl,
                        username: filed_under(user),
                        host: arrival.host,
                        short_url_id: base62(samples[0]),
                    },
                    samples.drop_first(),
                );
            }
        }
    }
}

/// Step by step, the machine does what [`workflow`] tells in one piece.
pub proof fn lemma_create_is_workflow(world: World, arrival: Arrival, samples: Seq<nat>)
    ensures
        create(world, arrival, samples) == workflow(world, arrival, samples),
{
    reveal_with_fuel(run, 2);
    if let Ok(user) = caller_of(world, arrival.key_option) {
        lemma_run_serves(world, arrival, user, samples);
    }
}

/// What a faithful driver answers to a request for the record under
/// `short_url_id`, and the stores as the request leaves them.
pub open spec fn resolve(world: World, short_url_id: Seq<char>) -> (
    Result<ReplyView, JsErrorView>,
    World,
) {
    (redirect_reply(world.records.get(short_url_id)), world)
}

/// The identifier that is tried in the given turn: `first` in turn zero,
/// after that the ones made of `samples`.
pub open spec fn tried(first: Seq<char>, samples: Seq<nat>, turn: int) -> Seq<char> {
    if turn == 0 {
        first
    } else {
        base62(samples[turn - 1])
    }
}

/// Whether every number of `samples` is one that the sampler can draw.
pub open spec fn drawn_from_interval(samples: Seq<nat>) -> bool {
    forall|i: int| 0 <= i < samples.len() ==> SHORT_ID_MIN <= #[trigger] samples[i] < SHORT_ID_MAX
}

/// An identifier that was allocated was tried in some turn, and was free.
pub proof fn lemma_allocated_was_tried(
    records: Documents<ShortUrlDataEntityView>,
    first: Seq<char>,
    samples: Seq<nat>,
)
    requires
        allocate(records, first, samples) is Some,
    ensures
        !records.holds(allocate(records, first, samples).unwrap()),
        exists|turn: int|
            0 <= turn <= samples.len() && allocate(records, first, samples) == Some(
                #[trigger] tried(first, samples, turn),
            ),
    decreases samples.len(),
{
    if !records.holds(first) {
        assert(allocate(records, first, samples) == Some(tried(first, samples, 0)));
    } else {
        let rest = samples.drop_first();
        lemma_allocated_was_tried(records, base62(samples[0]), rest);
        let turn = choose|turn: int|
            0 <= turn <= rest.len() && allocate(records, base62(samples[0]), rest) == Some(
                #[trigger] tried(base62(samples[0]), rest, turn),
            );
        assert(tried(base62(samples[0]), rest, turn) == tried(first, samples, turn + 1));
    }
}

/// Collisions are retried: where the identifiers of the first `collisions`
/// turns are all taken and the one of the next turn is free, that one is
/// allocated, however many the collisions were.
pub proof fn lemma_allocate_retries(
    records: Documents<ShortUrlDataEntityView>,
    first: Seq<char>,
    samples: Seq<nat>,
    collisions: nat,
)
    requires
        collisions <= samples.len(),
        forall|turn: int|
            0 <= turn < collisions ==> records.holds(#[trigger] tried(first, samples, turn)),
        !records.holds(tried(first, samples, collisions as int)),
    ensures
        allocate(records, first, samples) == Some(tried(first, samples, collisions as int)),
    decreases collisions,
{
    if collisions > 0 {
        assert(records.holds(tried(first, samples, 0)));
        let rest = samples.drop_first();
        let second = base62(samples[0]);
        assert forall|turn: int| 0 <= turn < collisions - 1 implies records.holds(
            #[trigger] tried(second, rest, turn),
        ) by {
            assert(tried(second, rest, turn) == tried(first, samples, turn + 1));
        }
        assert(tried(second, rest, collisions - 1) == tried(first, samples, collisions as int));
        lemma_allocate_retries(records, second, rest, (collisions - 1) as nat);
    }
}

/// A request for the path made of a slash and a short identifier, for which
/// no media type is guessed, is sent to the record store on GET, with just
/// that identifier as the key.
pub proof fn lemma_short_id_is_its_own_key(short_url_id: Seq<char>, host: Seq<char>)
    requires
        is_short_id(short_url_id),
    ensures
        route_spec(seq!['/'] + short_url_id, host, None, "get"@) == Ok::<RouteView, JsErrorView>(
            RouteView::Redirect { short_url_id },
        ),
{
    lemma_short_id_shape(short_url_id);
    reveal_strlit("/new");
    let path = seq!['/'] + short_url_id;
    assert(path.len() != "/new"@.len());
    assert(path.drop_first() =~= short_url_id);
    assert(is_base62_char(short_url_id[0]));
    reveal_with_fuel(trim_start_slashes, 2);
}

/// Round trip: the short URL that a request was answered with is the host,
/// a slash and a short identifier; and a request for that identifier, made
/// right after, is redirected to the very destination that was submitted.
pub proof fn lemma_round_trip(world: World, arrival: Arrival, samples: Seq<nat>)
    requires
        drawn_from_interval(samples),
        create(world, arrival, samples) matches Some(outcome) && outcome.answer is Ok,
    ensures
        ({
            let outcome = create(world, arrival, samples).unwrap();
            let response = outcome.answer->Ok_0;
            &&& arrival.body matches Ok(request) && response.raw_url == request.url
            &&& exists|short_url_id: Seq<char>|
                #![trigger is_short_id(short_url_id)]
                {
                    &&& is_short_id(short_url_id)
                    &&& response.short_url == arrival.host + seq!['/'] + short_url_id
                    &&& resolve(outcome.world, short_url_id).0 == Ok::<ReplyView, JsErrorView>(
                        ReplyView::Redirect { location: response.raw_url },
                    )
                }
        }),
{
    lemma_create_is_workflow(world, arrival, samples);
    let user = caller_of(world, arrival.key_option)->Ok_0;
    let request = arrival.body->Ok_0;
    let first = base62(samples[0]);
    let rest = samples.drop_first();
    lemma_allocated_was_tried(world.records, first, rest);
    let turn = choose|turn: int|
        0 <= turn <= rest.len() && allocate(world.records, first, rest) == Some(
            #[trigger] tried(first, rest, turn),
        );
    let short_url_id = tried(first, rest, turn);
    assert(short_url_id == base62(samples[turn]));
    assert(is_short_id(short_url_id));
}

/// A time to live of less than a minute, zero excepted, is refused, whoever
/// asks: the request fails with the error for a time to live that is too
/// short, and the stores stay as they were. This holds of every request with a
/// destination that is taken and a caller whose record, if any, decodes;
/// those are judged first.
pub proof fn lemma_short_ttl_is_refused(world: World, arrival: Arrival, samples: Seq<nat>)
    requires
        caller_of(world, arrival.key_option) is Ok,
        arrival.body matches Ok(request) && target_verdict(parsed_url(request.url)) is Ok && (
        request.ttl matches Some(ttl) && 0 < ttl < MIN_TTL),
    ensures
        create(world, arrival, samples) == Some(
            refused(world, policy_error(PolicyError::TtlTooShort)),
        ),
        policy_error(PolicyError::TtlTooShort).error_code == TTL_ERROR,
{
    lemma_create_is_workflow(world, arrival, samples);
}

/// Never to expire, and to live longer than a guest may ask for, needs a
/// known caller. Of a request that asks for either, with a destination that
/// is taken: a guest, with no API key or with one that the user store does
/// not know, is refused with the error that asks for authentication, and
/// the stores stay as they were.
pub proof fn lemma_long_ttl_needs_auth(world: World, arrival: Arrival, samples: Seq<nat>)
    requires
        caller_of(world, arrival.key_option) == Ok::<Option<UserEntityView>, JsErrorView>(None),
        arrival.body matches Ok(request) && target_verdict(parsed_url(request.url)) is Ok && (
        effective_ttl(request.ttl) == 0 || effective_ttl(request.ttl) > GUEST_MAX_TTL),
    ensures
        create(world, arrival, samples) == Some(
            refused(world, policy_error(PolicyError::NeedAuth)),
        ),
        policy_error(PolicyError::NeedAuth).error_code == NEED_AUTH,
{
    lemma_create_is_workflow(world, arrival, samples);
}

/// A known caller is granted what a guest is not: a request that never
/// expires, or lives longer than a guest may ask for, goes through. The
/// record is written under the first identifier that is free, after
/// `collisions` that were taken. Left out are the runs in which no free
/// identifier is drawn, and those in which the moment of expiry does not fit
/// into 64 bits.
pub proof fn lemma_known_caller_is_served(
    world: World,
    arrival: Arrival,
    samples: Seq<nat>,
    collisions: nat,
)
    requires
        caller_of(world, arrival.key_option) matches Ok(Some(_)),
        arrival.body matches Ok(request) && target_verdict(parsed_url(request.url)) is Ok && (
        effective_ttl(request.ttl) == 0 || effective_ttl(request.ttl) > GUEST_MAX_TTL)
            && arrival.now_millis + effective_ttl(request.ttl) * 1000 <= u64::MAX,
        collisions < samples.len(),
        forall|turn: int|
            0 <= turn < collisions ==> world.records.holds(base62(#[trigger] samples[turn])),
        !world.records.holds(base62(samples[collisions as int])),
    ensures
        create(world, arrival, samples) matches Some(outcome) && outcome.answer is Ok,
{
    let user = caller_of(world, arrival.key_option)->Ok_0;
    let request = arrival.body->Ok_0;
    lemma_collisions_are_retried(world, arrival, samples, collisions);
}

/// Collision handling, for the whole request: where the identifiers made of
/// the first `collisions` samples are all taken and the next one is free,
/// the record is written under that one, and the answer names it.
pub proof fn lemma_collisions_are_retried(
    world: World,
    arrival: Arrival,
    samples: Seq<nat>,
    collisions: nat,
)
    requires
        caller_of(world, arrival.key_option) is Ok,
        arrival.body matches Ok(request) && admission(
            request,
            caller_of(world, arrival.key_option)->Ok_0 is Some,
        ) matches Ok(ttl) && arrival.now_millis + ttl * 1000 <= u64::MAX,
        collisions < samples.len(),
        forall|turn: int|
            0 <= turn < collisions ==> world.records.holds(base62(#[trigger] samples[turn])),
        !world.records.holds(base62(samples[collisions as int])),
    ensures
        ({
            let user = caller_of(world, arrival.key_option)->Ok_0;
            let request = arrival.body->Ok_0;
            create(world, arrival, samples) == Some(
                created(
                    world,
                    PendingView {
                        raw_url: request.url,
                        ttl: admission(request, user is Some)->Ok_0,
                        username: filed_under(user),
                        host: arrival.host,
                        short_url_id: base62(samples[collisions as int]),
                    },
                    arrival.now_millis,
                ),
            )
        }),
{
    lemma_create_is_workflow(world, arrival, samples);
    let first = base62(samples[0]);
    let rest = samples.drop_first();
    assert forall|turn: int| 0 <= turn < collisions implies world.records.holds(
        #[trigger] tried(first, rest, turn),
    ) by {
        assert(tried(first, rest, turn) == base62(samples[turn]));
    }
    assert(tried(first, rest, collisions as int) == base62(samples[collisions as int]));
    lemma_allocate_retries(world.records, first, rest, collisions);
}

/// A destination that does not parse, or that has no hierarchical part as a
/// `mailto:` URL has none, is refused with the error for a bad URL, and the
/// stores stay as they were. This holds of every request whose caller's
/// record, if any, decodes; that is judged first.
pub proof fn lemma_bad_destination_is_refused(world: World, arrival: Arrival, samples: Seq<nat>)
    requires
        caller_of(world, arrival.key_option) is Ok,
        arrival.body matches Ok(request) && (parsed_url(request.url) matches Ok(url)
            ==> url.cannot_be_a_base),
    ensures
        create(world, arrival, samples) matches Some(outcome) && outcome.world == world && (
        outcome.answer matches Err(err) && err.error_code == URL_ERROR && err.status == 400),
{
    lemma_create_is_workflow(world, arrival, samples);
}

/// Resolving reads and never writes: asked twice for the same identifier,
/// the service gives the same answer twice.
pub proof fn lemma_resolve_is_idempotent(world: World, short_url_id: Seq<char>)
    ensures
        resolve(world, short_url_id).1 == world,
        resolve(resolve(world, short_url_id).1, short_url_id).0 == resolve(
            world,
            short_url_id,
        ).0,
{
}

} // verus!
