//! The dispatcher: every operation that the rest of the server calls, as a
//! sequence of steps. A step names the one piece of outside work to do next
//! (a device lookup, a token request, a call to the relay) and holds what is
//! needed to go on once that work is answered. The caller does the work and
//! hands the answer to the step's continuation, until a step is `Done`.

use crate::envelope::{Envelope, EnvelopeView};
use crate::error::{AuthError, PushError};
use crate::event::{DeviceQuery, DeviceQueryView, PushEvent, PushEventView};
use crate::model::{
    Cipher, Device, DeviceView, Folder, PushConfig, PushConfigView, Send, User,
};
use crate::relay::{
    check_reply, spec_check_reply, RelayCall, RelayCallView, RelayReply, RelayRequest,
    RelayRequestView,
};
use crate::token::{
    get_auth_push_token, read_grant, spec_read_grant, spec_token_request, AuthPushToken,
    AuthPushTokenView, IdentityReply, TokenCache, TokenCacheView, TokenRequest, TokenRequestView,
    TokenStep,
};
use crate::views::{optional_view, result_view};
use vstd::prelude::*;

verus! {

/// How an operation ended.
#[derive(Clone, Copy, Debug, PartialEq, Eq)]
pub struct Finished {
    /// What the caller of the operation gets.
    pub result: Result<(), PushError>,
    /// A failure that was kept from the caller, for the log.
    pub logged: Option<PushError>,
}

/// The end of an operation that had nothing to report.
pub open spec fn quiet() -> Finished {
    Finished { result: Ok(()), logged: None }
}

/// The end of an operation whose last piece of work ended in `outcome`. A
/// failure reaches the caller only where the operation propagates failures;
/// elsewhere it is logged, and the caller sees success.
pub open spec fn spec_finish(propagate: bool, outcome: Result<(), PushError>) -> Finished {
    match outcome {
        Ok(()) => quiet(),
        Err(error) => if propagate {
            Finished { result: Err(error), logged: None }
        } else {
            Finished { result: Ok(()), logged: Some(error) }
        },
    }
}

/// Ends an operation whose last piece of work ended in `outcome`.
pub fn finish(propagate: bool, outcome: Result<(), PushError>) -> (finished: Finished)
    ensures
        finished == spec_finish(propagate, outcome),
{
    match outcome {
        Ok(()) => Finished { result: Ok(()), logged: None },
        Err(error) => {
            if propagate {
                Finished { result: Err(error), logged: None }
            } else {
                Finished { result: Ok(()), logged: Some(error) }
            }
        },
    }
}

/// An operation that waits for the lookup of its acting device.
#[derive(Debug, PartialEq, Eq)]
pub struct AwaitingDevice {
    pub event: PushEvent,
}

pub struct AwaitingDeviceView {
    pub event: PushEventView,
}

impl View for AwaitingDevice {
    type V = AwaitingDeviceView;

    open spec fn view(&self) -> AwaitingDeviceView {
        AwaitingDeviceView { event: self.event@ }
    }
}

/// An operation that waits for a token before it can call the relay.
#[derive(Debug, PartialEq, Eq)]
pub struct AwaitingToken {
    pub call: RelayCall,
}

pub struct AwaitingTokenView {
    pub call: RelayCallView,
}

impl View for AwaitingToken {
    type V = AwaitingTokenView;

    open spec fn view(&self) -> AwaitingTokenView {
        AwaitingTokenView { call: self.call@ }
    }
}

/// An operation that waits for the relay's reply.
#[derive(Clone, Copy, Debug, PartialEq, Eq)]
pub struct AwaitingRelay {
    pub propagate: bool,
}

/// What to do next for an operation.
#[derive(Debug, PartialEq, Eq)]
pub enum Step {
    /// Look the device up and hand the answer to
    /// [`AwaitingDevice::device_found`].
    FindDevice(DeviceQuery, AwaitingDevice),
    /// Post the token request to the identity endpoint and hand the answer to
    /// [`AwaitingToken::token_reply`].
    RequestToken(TokenRequest, AwaitingToken),
    /// Make the request to the relay and hand the answer to
    /// [`AwaitingRelay::relay_reply`].
    CallRelay(RelayRequest, AwaitingRelay),
    /// Nothing is left to do.
    Done(Finished),
}

pub enum StepView {
    FindDevice(DeviceQueryView, AwaitingDeviceView),
    RequestToken(TokenRequestView, AwaitingTokenView),
    CallRelay(RelayRequestView, AwaitingRelay),
    Done(Finished),
}

impl View for Step {
    type V = StepView;

    open spec fn view(&self) -> StepView {
        match self {
            Step::FindDevice(query, waiting) => StepView::FindDevice(query@, waiting@),
            Step::RequestToken(request, waiting) => StepView::RequestToken(request@, waiting@),
            Step::CallRelay(request, waiting) => StepView::CallRelay(request@, *waiting),
            Step::Done(finished) => StepView::Done(*finished),
        }
    }
}

/// Making a call to the relay at `now`: with the cached token while it is
/// usable, and after a refresh once it has expired.
pub open spec fn spec_call_relay(
    config: PushConfigView,
    cache: TokenCacheView,
    now: u64,
    call: RelayCallView,
) -> StepView {
    match cache.valid_token(now) {
        Some(token) => StepView::CallRelay(
            call.request(config, token),
            AwaitingRelay { propagate: call.propagates() },
        ),
        None => StepView::RequestToken(spec_token_request(config), AwaitingTokenView { call }),
    }
}

/// Sending an envelope at `now`; nothing is sent while push is switched off.
pub open spec fn spec_send_to_push_relay(
    config: PushConfigView,
    cache: TokenCacheView,
    now: u64,
    data: EnvelopeView,
) -> StepView {
    if !config.push_enabled {
        StepView::Done(quiet())
    } else {
        spec_call_relay(config, cache, now, RelayCallView::Send(data))
    }
}

/// Going on with an event at `now`, once the lookup of its acting device is
/// answered with `device` (or was not needed): the event's call to the relay
/// is made, unless the event is suppressed or push is switched off.
pub open spec fn spec_proceed(
    config: PushConfigView,
    cache: TokenCacheView,
    now: u64,
    event: PushEventView,
    device: Option<DeviceView>,
) -> StepView {
    if !config.push_enabled {
        StepView::Done(quiet())
    } else {
        match event.relay_call(device) {
            Some(call) => spec_call_relay(config, cache, now, call),
            None => StepView::Done(quiet()),
        }
    }
}

/// The first step of an event at `now`. While push is switched off, every
/// event is done at once. Else an event that needs its acting device asks for
/// the lookup first, and every other event goes on without one.
pub open spec fn spec_dispatch(
    config: PushConfigView,
    cache: TokenCacheView,
    now: u64,
    event: PushEventView,
) -> StepView {
    if !config.push_enabled {
        StepView::Done(quiet())
    } else {
        match event.device_query() {
            Some(query) => StepView::FindDevice(query, AwaitingDeviceView { event }),
            None => spec_proceed(config, cache, now, event, None),
        }
    }
}

impl AwaitingDeviceView {
    /// The step after the lookup was answered with `device` at `now`.
    pub open spec fn device_found(
        self,
        config: PushConfigView,
        cache: TokenCacheView,
        now: u64,
        device: Option<DeviceView>,
    ) -> StepView {
        spec_proceed(config, cache, now, self.event, device)
    }
}

impl AwaitingTokenView {
    /// The step after the token request ended in `grant` at `now`, and the
    /// cache it leaves: with a token the relay is called; without one the
    /// operation ends, and the cache keeps what it had.
    pub open spec fn granted(
        self,
        config: PushConfigView,
        cache: TokenCacheView,
        now: u64,
        grant: Result<AuthPushTokenView, AuthError>,
    ) -> (StepView, TokenCacheView) {
        let (token, after) = cache.accepted(now, grant);
        match token {
            Ok(bearer) => (
                StepView::CallRelay(
                    self.call.request(config, bearer),
                    AwaitingRelay { propagate: self.call.propagates() },
                ),
                after,
            ),
            Err(error) => (
                StepView::Done(spec_finish(self.call.propagates(), Err(PushError::Auth(error)))),
                after,
            ),
        }
    }
}

/// What the relay's reply makes of a call.
pub open spec fn spec_relay_outcome(reply: RelayReply) -> Result<(), PushError> {
    match spec_check_reply(reply) {
        Ok(()) => Ok(()),
        Err(error) => Err(PushError::Relay(error)),
    }
}

impl AwaitingRelay {
    /// The end of the operation after the relay answered with `reply`.
    pub open spec fn spec_relay_reply(self, reply: RelayReply) -> Finished {
        spec_finish(self.propagate, spec_relay_outcome(reply))
    }

    /// Ends the operation with the relay's reply.
    pub fn relay_reply(self, reply: RelayReply) -> (finished: Finished)
        ensures
            finished == self.spec_relay_reply(reply),
    {
        let outcome = match check_reply(reply) {
            Ok(()) => Ok(()),
            Err(error) => Err(PushError::Relay(error)),
        };
        finish(self.propagate, outcome)
    }
}

/// Makes a call to the relay at `now`: the request itself while the cached
/// token is usable, else the token request that has to be answered first.
pub fn call_relay(
    config: &PushConfig,
    cache: &TokenCache,
    now: u64,
    call: RelayCall,
) -> (step: Step)
    ensures
        step@ == spec_call_relay(config@, cache@, now, call@),
        step is CallRelay || step is RequestToken,
{
    match get_auth_push_token(cache, config, now) {
        TokenStep::Ready(token) => {
            let request = call.request(config, token.as_str());
            Step::CallRelay(request, AwaitingRelay { propagate: call.propagates() })
        },
        TokenStep::Refresh(request) => Step::RequestToken(request, AwaitingToken { call }),
    }
}

/// Sends an envelope to the relay at `now`. A failure on the way is logged
/// and never reaches the caller.
pub fn send_to_push_relay(
    config: &PushConfig,
    cache: &TokenCache,
    now: u64,
    data: Envelope,
) -> (step: Step)
    ensures
        step@ == spec_send_to_push_relay(config@, cache@, now, data@),
        !config.push_enabled ==> step@ == StepView::Done(quiet()),
        !(step is FindDevice),
{
    if !config.push_enabled {
        return Step::Done(Finished { result: Ok(()), logged: None });
    }
    call_relay(config, cache, now, RelayCall::Send(data))
}

/// Goes on with an event at `now`, once the lookup of its acting device is
/// answered with `device` or was not needed.
pub fn proceed(
    config: &PushConfig,
    cache: &TokenCache,
    now: u64,
    event: PushEvent,
    device: Option<&Device>,
) -> (step: Step)
    ensures
        step@ == spec_proceed(config@, cache@, now, event@, optional_view(device)),
        !(step is FindDevice),
{
    if !config.push_enabled {
        return Step::Done(Finished { result: Ok(()), logged: None });
    }
    match event.relay_call(device) {
        Some(RelayCall::Send(envelope)) => send_to_push_relay(config, cache, now, envelope),
        Some(call) => call_relay(config, cache, now, call),
        None => Step::Done(Finished { result: Ok(()), logged: None }),
    }
}

/// Takes the first step of an event at `now`.
pub fn dispatch(
    config: &PushConfig,
    cache: &TokenCache,
    now: u64,
    event: PushEvent,
) -> (step: Step)
    ensures
        step@ == spec_dispatch(config@, cache@, now, event@),
        !config.push_enabled ==> step@ == StepView::Done(quiet()),
{
    if !config.push_enabled {
        return Step::Done(Finished { result: Ok(()), logged: None });
    }
    match event.device_query() {
        Some(query) => Step::FindDevice(query, AwaitingDevice { event }),
        None => proceed(config, cache, now, event, None),
    }
}

impl AwaitingDevice {
    /// Goes on at `now` with what the lookup gave: `None` where no such
    /// device exists. An event whose acting device is unknown ends here.
    pub fn device_found(
        self,
        config: &PushConfig,
        cache: &TokenCache,
        now: u64,
        device: Option<Device>,
    ) -> (step: Step)
        ensures
            step@ == self@.device_found(config@, cache@, now, optional_view(device)),
            !(step is FindDevice),
    {
        proceed(config, cache, now, self.event, device.as_ref())
    }
}

impl AwaitingToken {
    /// Goes on at `now` with the outcome of the token request: a grant is
    /// cached and the relay called with its token; a failure ends the
    /// operation and leaves the cache as it was.
    pub fn granted(
        self,
        config: &PushConfig,
        cache: &mut TokenCache,
        now: u64,
        grant: Result<AuthPushToken, AuthError>,
    ) -> (step: Step)
        ensures
            (step@, final(cache)@) == self@.granted(
                config@,
                old(cache)@,
                now,
                result_view(grant),
            ),
            step is CallRelay || step is Done,
    {
        match cache.accept(now, grant) {
            Ok(token) => {
                let request = self.call.request(config, token.as_str());
                Step::CallRelay(request, AwaitingRelay { propagate: self.call.propagates() })
            },
            Err(error) => Step::Done(
                finish(self.call.propagates(), Err(PushError::Auth(error))),
            ),
        }
    }

    /// Goes on at `now` with the identity endpoint's reply to the token
    /// request.
    pub fn token_reply(
        self,
        config: &PushConfig,
        cache: &mut TokenCache,
        now: u64,
        reply: &IdentityReply,
    ) -> (step: Step)
        ensures
            (step@, final(cache)@) == self@.granted(
                config@,
                old(cache)@,
                now,
                spec_read_grant(reply@),
            ),
            step is CallRelay || step is Done,
    {
        self.granted(config, cache, now, read_grant(reply))
    }
}

/// Registers a device with the relay. A failure reaches the caller.
pub fn register_push_device(
    config: &PushConfig,
    cache: &TokenCache,
    now: u64,
    user_uuid: String,
    device: Device,
) -> (step: Step)
    ensures
        step@ == spec_dispatch(
            config@,
            cache@,
            now,
            PushEventView::DeviceRegister { user_uuid: user_uuid@, device: device@ },
        ),
        !config.push_enabled ==> step@ == StepView::Done(quiet()),
        config.push_enabled ==> step is CallRelay || step is RequestToken,
{
    dispatch(config, cache, now, PushEvent::DeviceRegister { user_uuid, device })
}

/// Removes a device's registration from the relay. A failure reaches the
/// caller.
pub fn unregister_push_device(
    config: &PushConfig,
    cache: &TokenCache,
    now: u64,
    uuid: String,
) -> (step: Step)
    ensures
        step@ == spec_dispatch(
            config@,
            cache@,
            now,
            PushEventView::DeviceUnregister { uuid: uuid@ },
        ),
        !config.push_enabled ==> step@ == StepView::Done(quiet()),
        config.push_enabled ==> step is CallRelay || step is RequestToken,
{
    dispatch(config, cache, now, PushEvent::DeviceUnregister { uuid })
}

/// Notifies the relay of a change to a cipher. Nothing is sent for a cipher
/// of an organization, for one without an owning user, and where the acting
/// device is not found.
pub fn push_cipher_update(
    config: &PushConfig,
    cache: &TokenCache,
    now: u64,
    ut: i32,
    cipher: &Cipher,
    acting_device_uuid: &String,
) -> (step: Step)
    ensures
        step@ == spec_dispatch(
            config@,
            cache@,
            now,
            PushEventView::CipherUpdate {
                update_type: ut,
                cipher: cipher@,
                acting_device_uuid: acting_device_uuid@,
            },
        ),
        !config.push_enabled || cipher.organization_uuid is Some || cipher.user_uuid is None
            ==> step@ == StepView::Done(quiet()),
        config.push_enabled && cipher.organization_uuid is None && cipher.user_uuid is Some
            ==> step is FindDevice,
{
    dispatch(
        config,
        cache,
        now,
        PushEvent::CipherUpdate {
            update_type: ut,
            cipher: cipher.clone(),
            acting_device_uuid: acting_device_uuid.clone(),
        },
    )
}

/// Notifies the relay that a user's sessions were ended. Without an acting
/// device the notification is a broadcast; with one, nothing is sent where
/// that device is not found.
pub fn push_logout(
    config: &PushConfig,
    cache: &TokenCache,
    now: u64,
    user: &User,
    acting_device_uuid: Option<String>,
) -> (step: Step)
    ensures
        step@ == spec_dispatch(
            config@,
            cache@,
            now,
            PushEventView::LogOut {
                user: user@,
                acting_device_uuid: optional_view(acting_device_uuid),
            },
        ),
        !config.push_enabled ==> step@ == StepView::Done(quiet()),
        config.push_enabled && acting_device_uuid is Some ==> step is FindDevice,
        config.push_enabled && acting_device_uuid is None ==> step is CallRelay
            || step is RequestToken,
{
    dispatch(config, cache, now, PushEvent::LogOut { user: user.clone(), acting_device_uuid })
}

/// Notifies the relay of a change to a user, as a broadcast to all of the
/// user's devices.
pub fn push_user_update(
    config: &PushConfig,
    cache: &TokenCache,
    now: u64,
    ut: i32,
    user: &User,
) -> (step: Step)
    ensures
        step@ == spec_dispatch(
            config@,
            cache@,
            now,
            PushEventView::UserUpdate { update_type: ut, user: user@ },
        ),
        !config.push_enabled ==> step@ == StepView::Done(quiet()),
        config.push_enabled ==> step is CallRelay || step is RequestToken,
{
    dispatch(config, cache, now, PushEvent::UserUpdate { update_type: ut, user: user.clone() })
}

/// Notifies the relay of a change to a folder. Nothing is sent where the
/// acting device is not found.
pub fn push_folder_update(
    config: &PushConfig,
    cache: &TokenCache,
    now: u64,
    ut: i32,
    folder: &Folder,
    acting_device_uuid: &String,
) -> (step: Step)
    ensures
        step@ == spec_dispatch(
            config@,
            cache@,
            now,
            PushEventView::FolderUpdate {
                update_type: ut,
                folder: folder@,
                acting_device_uuid: acting_device_uuid@,
            },
        ),
        !config.push_enabled ==> step@ == StepView::Done(quiet()),
        config.push_enabled ==> step is FindDevice,
{
    dispatch(
        config,
        cache,
        now,
        PushEvent::FolderUpdate {
            update_type: ut,
            folder: folder.clone(),
            acting_device_uuid: acting_device_uuid.clone(),
        },
    )
}

/// Notifies the relay of a change to a send, as a broadcast. Nothing is sent
/// for a send without an owning user.
pub fn push_send_update(
    config: &PushConfig,
    cache: &TokenCache,
    now: u64,
    ut: i32,
    send: &Send,
) -> (step: Step)
    ensures
        step@ == spec_dispatch(
            config@,
            cache@,
            now,
            PushEventView::SendUpdate { update_type: ut, send: send@ },
        ),
        !config.push_enabled || send.user_uuid is None ==> step@ == StepView::Done(quiet()),
        config.push_enabled && send.user_uuid is Some ==> step is CallRelay
            || step is RequestToken,
{
    dispatch(config, cache, now, PushEvent::SendUpdate { update_type: ut, send: send.clone() })
}

} // verus!
