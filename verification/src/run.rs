//! Whole runs of an operation: the steps it takes from its first to its last,
//! given what the outside world answers on the way, and what holds of every
//! such run.

use crate::dispatch::{
    quiet, spec_call_relay, spec_dispatch, spec_relay_outcome, AwaitingRelay, Finished, StepView,
};
use crate::error::{AuthError, PushError};
use crate::event::{DeviceQueryView, PushEventView};
use crate::model::{DeviceView, PushConfigView};
use crate::relay::{
    spec_register_body, spec_relay_headers, Method, RelayCallView, RelayReply, RelayRequestView,
};
use crate::token::{AuthPushTokenView, TokenCacheView, TokenRequestView};
use vstd::prelude::*;

verus! {

/// What the outside world answers while one operation runs, and the state of
/// the shared token cache at the instants the operation comes back to it.
/// Each answer is used only if the operation asks for it.
pub struct World {
    /// What the device lookup gives.
    pub device: Option<DeviceView>,
    /// The cache and the clock when the lookup is answered.
    pub cache_after_lookup: TokenCacheView,
    pub now_after_lookup: u64,
    /// How the token request ends.
    pub grant: Result<AuthPushTokenView, AuthError>,
    /// The cache and the clock when the token request is answered.
    pub cache_at_grant: TokenCacheView,
    pub now_at_grant: u64,
    /// What the relay answers.
    pub reply: RelayReply,
}

/// The outside work that a run asked for, in order, and how it ended.
pub struct Trace {
    pub lookups: Seq<DeviceQueryView>,
    pub token_requests: Seq<TokenRequestView>,
    pub relay_calls: Seq<RelayRequestView>,
    pub finished: Finished,
}

/// The step that follows `step` once a pending device lookup is answered.
pub open spec fn after_lookup(config: PushConfigView, step: StepView, world: World) -> StepView {
    match step {
        StepView::FindDevice(_, waiting) => waiting.device_found(
            config,
            world.cache_after_lookup,
            world.now_after_lookup,
            world.device,
        ),
        _ => step,
    }
}

/// The step that follows `step` once a pending token request is answered.
pub open spec fn after_grant(config: PushConfigView, step: StepView, world: World) -> StepView {
    match step {
        StepView::RequestToken(_, waiting) => waiting.granted(
            config,
            world.cache_at_grant,
            world.now_at_grant,
            world.grant,
        ).0,
        _ => step,
    }
}

/// The run that starts with `first`: a lookup if `first` asks for one, then a
/// token request if the step after that asks for one, then the call to the
/// relay if the step after that makes one.
pub open spec fn run(config: PushConfigView, first: StepView, world: World) -> Trace {
    let second = after_lookup(config, first, world);
    let third = after_grant(config, second, world);
    Trace {
        lookups: match first {
            StepView::FindDevice(query, _) => seq![query],
            _ => Seq::empty(),
        },
        token_requests: match second {
            StepView::RequestToken(request, _) => seq![request],
            _ => Seq::empty(),
        },
        relay_calls: match third {
            StepView::CallRelay(request, _) => seq![request],
            _ => Seq::empty(),
        },
        finished: match third {
            StepView::CallRelay(_, waiting) => waiting.spec_relay_reply(world.reply),
            StepView::Done(finished) => finished,
            _ => quiet(),
        },
    }
}

/// The run of an event that is dispatched at `now` with the cache in state
/// `cache`.
pub open spec fn run_event(
    config: PushConfigView,
    cache: TokenCacheView,
    now: u64,
    event: PushEventView,
    world: World,
) -> Trace {
    run(config, spec_dispatch(config, cache, now, event), world)
}

/// What the lookup of the event's acting device gives in `world`; nothing
/// where the event asks for no lookup.
pub open spec fn found_device(event: PushEventView, world: World) -> Option<DeviceView> {
    if event.device_query() is Some {
        world.device
    } else {
        None
    }
}

/// The token that the event presents to the relay: the cached one if it is
/// usable at the instant the event reaches for it (after its lookup, if it
/// has one), else the one that the refresh grants; none if the refresh fails.
pub open spec fn presented_token(
    cache: TokenCacheView,
    now: u64,
    event: PushEventView,
    world: World,
) -> Option<Seq<char>> {
    let usable = if event.device_query() is Some {
        world.cache_after_lookup.valid_token(world.now_after_lookup)
    } else {
        cache.valid_token(now)
    };
    match usable {
        Some(token) => Some(token),
        None => match world.cache_at_grant.accepted(world.now_at_grant, world.grant).0 {
            Ok(token) => Some(token),
            Err(_) => None,
        },
    }
}

/// An operation is over after at most one lookup, one token request and one
/// call to the relay: no lookup follows a lookup, and the step that follows
/// the token request calls the relay or is the last.
pub proof fn lemma_run_ends(
    config: PushConfigView,
    cache: TokenCacheView,
    now: u64,
    event: PushEventView,
    world: World,
)
    ensures
        ({
            let first = spec_dispatch(config, cache, now, event);
            let second = after_lookup(config, first, world);
            let third = after_grant(config, second, world);
            &&& !(second is FindDevice)
            &&& third is CallRelay || third is Done
        }),
{
}

/// While push is switched off, every operation ends at once: it asks for no
/// lookup, no token and no call to the relay, and reports success.
pub proof fn lemma_disabled_does_nothing(
    config: PushConfigView,
    cache: TokenCacheView,
    now: u64,
    event: PushEventView,
    world: World,
)
    requires
        !config.push_enabled,
    ensures
        spec_dispatch(config, cache, now, event) == StepView::Done(quiet()),
        run_event(config, cache, now, event, world).lookups.len() == 0,
        run_event(config, cache, now, event, world).token_requests.len() == 0,
        run_event(config, cache, now, event, world).relay_calls.len() == 0,
        run_event(config, cache, now, event, world).finished == quiet(),
{
}

/// While the cached token is usable, a call to the relay is made with it at
/// once, and the identity endpoint is not asked.
pub proof fn lemma_usable_token_is_not_refreshed(
    config: PushConfigView,
    cache: TokenCacheView,
    now: u64,
    call: RelayCallView,
)
    requires
        cache.is_valid(now),
    ensures
        spec_call_relay(config, cache, now, call) == StepView::CallRelay(
            call.request(config, cache.access_token),
            AwaitingRelay { propagate: call.propagates() },
        ),
{
}

/// An operation that finds the cached token usable at the instant it reaches
/// for it makes no token request.
pub proof fn lemma_run_with_usable_token_asks_for_none(
    config: PushConfigView,
    cache: TokenCacheView,
    now: u64,
    event: PushEventView,
    world: World,
)
    requires
        cache.is_valid(now),
        world.cache_after_lookup.is_valid(world.now_after_lookup),
    ensures
        run_event(config, cache, now, event, world).token_requests.len() == 0,
{
}

/// A notification never fails its caller: whatever the lookup, the identity
/// endpoint and the relay answer, the caller sees success, and a failure on
/// the way is only logged.
pub proof fn lemma_notification_never_fails(
    config: PushConfigView,
    cache: TokenCacheView,
    now: u64,
    event: PushEventView,
    world: World,
)
    requires
        !(event is DeviceRegister),
        !(event is DeviceUnregister),
    ensures
        run_event(config, cache, now, event, world).finished.result is Ok,
{
}

/// Registering and unregistering a device log nothing and report to their
/// caller how they went: the failure of the refresh where no token was to be
/// had, else what the relay's reply amounts to.
pub proof fn lemma_device_lifecycle_reports_failure(
    config: PushConfigView,
    cache: TokenCacheView,
    now: u64,
    event: PushEventView,
    world: World,
)
    requires
        config.push_enabled,
        event is DeviceRegister || event is DeviceUnregister,
    ensures
        ({
            let trace = run_event(config, cache, now, event, world);
            &&& trace.finished.logged is None
            &&& trace.finished.result == match presented_token(cache, now, event, world) {
                Some(_) => spec_relay_outcome(world.reply),
                None => Err(
                    PushError::Auth(
                        world.cache_at_grant.accepted(world.now_at_grant, world.grant).0->Err_0,
                    ),
                ),
            }
        }),
{
}

/// No call to the relay is made for a cipher that belongs to an organization,
/// nor for one without an owning user; not even the device is looked up.
pub proof fn lemma_foreign_cipher_is_suppressed(
    config: PushConfigView,
    cache: TokenCacheView,
    now: u64,
    event: PushEventView,
    world: World,
)
    requires
        event is CipherUpdate,
        event->CipherUpdate_cipher.organization_uuid is Some
            || event->CipherUpdate_cipher.user_uuid is None,
    ensures
        run_event(config, cache, now, event, world).lookups.len() == 0,
        run_event(config, cache, now, event, world).token_requests.len() == 0,
        run_event(config, cache, now, event, world).relay_calls.len() == 0,
{
}

/// No call to the relay is made for a send without an owning user.
pub proof fn lemma_unowned_send_is_suppressed(
    config: PushConfigView,
    cache: TokenCacheView,
    now: u64,
    event: PushEventView,
    world: World,
)
    requires
        event is SendUpdate,
        event->SendUpdate_send.user_uuid is None,
    ensures
        run_event(config, cache, now, event, world).token_requests.len() == 0,
        run_event(config, cache, now, event, world).relay_calls.len() == 0,
{
}

/// No call to the relay is made for an event whose acting device is looked up
/// and not found: a change to a cipher or a folder, and a logout that names
/// an acting device.
pub proof fn lemma_unknown_device_is_suppressed(
    config: PushConfigView,
    cache: TokenCacheView,
    now: u64,
    event: PushEventView,
    world: World,
)
    requires
        event is CipherUpdate || event is FolderUpdate || (event is LogOut
            && event->LogOut_acting_device_uuid is Some),
        world.device is None,
    ensures
        run_event(config, cache, now, event, world).token_requests.len() == 0,
        run_event(config, cache, now, event, world).relay_calls.len() == 0,
{
}

/// A logout without an acting device goes out as a broadcast: no device is
/// looked up, and its envelope names neither a device id nor an identifier.
pub proof fn lemma_logout_without_device_is_broadcast(
    config: PushConfigView,
    cache: TokenCacheView,
    now: u64,
    event: PushEventView,
    world: World,
)
    requires
        event is LogOut,
        event->LogOut_acting_device_uuid is None,
    ensures
        event.envelope(world.device) is Some,
        event.envelope(world.device)->0.device_id is None,
        event.envelope(world.device)->0.identifier is None,
        run_event(config, cache, now, event, world).lookups.len() == 0,
{
}

/// Every envelope that is built names the acting device in full or not at
/// all.
pub proof fn lemma_envelope_is_well_formed(event: PushEventView, device: Option<DeviceView>)
    requires
        event.envelope(device) is Some,
    ensures
        event.envelope(device)->0.wf(),
{
}

/// Every event that is not suppressed makes exactly one call to the relay,
/// provided that a token is to be had: the request of its call, with that
/// token as the bearer token. Without a token no call is made. A suppressed
/// event makes none either way.
pub proof fn lemma_event_calls_relay_once(
    config: PushConfigView,
    cache: TokenCacheView,
    now: u64,
    event: PushEventView,
    world: World,
)
    requires
        config.push_enabled,
    ensures
        ({
            let trace = run_event(config, cache, now, event, world);
            match (
                event.relay_call(found_device(event, world)),
                presented_token(cache, now, event, world),
            ) {
                (Some(call), Some(token)) => trace.relay_calls == seq![call.request(config, token)],
                _ => trace.relay_calls.len() == 0,
            }
        }),
{
}

/// Registering a device makes exactly one call to the relay, provided that a
/// token is to be had: a POST to `/push/register` below the relay's base URI,
/// whose body names the user and the device, and whose bearer token is the
/// cached one, or the one just granted where the cached one had expired.
pub proof fn lemma_register_calls_relay_once(
    config: PushConfigView,
    cache: TokenCacheView,
    now: u64,
    user_uuid: Seq<char>,
    device: DeviceView,
    world: World,
)
    requires
        config.push_enabled,
    ensures
        ({
            let event = PushEventView::DeviceRegister { user_uuid, device };
            let trace = run_event(config, cache, now, event, world);
            match presented_token(cache, now, event, world) {
                Some(token) => {
                    &&& trace.relay_calls.len() == 1
                    &&& trace.relay_calls[0].method == Method::Post
                    &&& trace.relay_calls[0].url == config.push_relay_uri + "/push/register"@
                    &&& trace.relay_calls[0].body == Some(spec_register_body(user_uuid, device))
                    &&& trace.relay_calls[0].headers == seq![
                        ("Accept"@, "application/json"@),
                        ("Content-Type"@, "application/json"@),
                        ("Authorization"@, "Bearer "@ + token),
                    ]
                    &&& cache.is_valid(now) ==> token == cache.access_token
                },
                None => trace.relay_calls.len() == 0 && trace.finished.result is Err,
            }
        }),
{
}

/// Unregistering a device makes exactly one call to the relay, provided that
/// a token is to be had: a DELETE to `/push/` and the device's identifier
/// below the relay's base URI, without a body.
pub proof fn lemma_unregister_calls_relay_once(
    config: PushConfigView,
    cache: TokenCacheView,
    now: u64,
    uuid: Seq<char>,
    world: World,
)
    requires
        config.push_enabled,
    ensures
        ({
            let event = PushEventView::DeviceUnregister { uuid };
            let trace = run_event(config, cache, now, event, world);
            match presented_token(cache, now, event, world) {
                Some(token) => {
                    &&& trace.relay_calls.len() == 1
                    &&& trace.relay_calls[0].method == Method::Delete
                    &&& trace.relay_calls[0].url == config.push_relay_uri + ("/push/"@ + uuid)
                    &&& trace.relay_calls[0].body is None
                    &&& trace.relay_calls[0].headers == spec_relay_headers(token)
                },
                None => trace.relay_calls.len() == 0 && trace.finished.result is Err,
            }
        }),
{
}

/// A notification that is not suppressed makes exactly one call to the
/// relay, provided that a token is to be had: a POST of its envelope to
/// `/push/send` below the relay's base URI.
pub proof fn lemma_notification_posts_its_envelope(
    config: PushConfigView,
    cache: TokenCacheView,
    now: u64,
    event: PushEventView,
    world: World,
)
    requires
        config.push_enabled,
        !(event is DeviceRegister),
        !(event is DeviceUnregister),
        event.envelope(found_device(event, world)) is Some,
    ensures
        ({
            let trace = run_event(config, cache, now, event, world);
            let envelope = event.envelope(found_device(event, world))->0;
            match presented_token(cache, now, event, world) {
                Some(token) => {
                    &&& trace.relay_calls.len() == 1
                    &&& trace.relay_calls[0].method == Method::Post
                    &&& trace.relay_calls[0].url == config.push_relay_uri + "/push/send"@
                    &&& trace.relay_calls[0].body == Some(envelope.wire())
                    &&& trace.relay_calls[0].headers == spec_relay_headers(token)
                },
                None => trace.relay_calls.len() == 0,
            }
        }),
{
}

} // verus!
