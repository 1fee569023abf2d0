//! The three calls that the relay takes: registering a device, unregistering
//! one, and sending an event. Each is described as a request for the caller to
//! perform, and each reply is judged here.

use crate::envelope::{json_optional, optional_to_json, Envelope, EnvelopeView};
use crate::error::RelayError;
use crate::json::{json_int, json_null, json_set, json_string, json_view, Json};
use crate::model::{Device, DeviceView, PushConfig, PushConfigView};
use crate::views::pairs_view;
use serde_json::Value;
use vstd::prelude::*;

verus! {

#[derive(Clone, Copy, Debug, PartialEq, Eq)]
pub enum Method {
    Post,
    Delete,
}

/// One HTTP request to the relay: its headers, in the order given, and its
/// body, which goes out as JSON where there is one.
#[derive(Debug, PartialEq, Eq)]
pub struct RelayRequest {
    pub method: Method,
    pub url: String,
    pub headers: Vec<(String, String)>,
    pub body: Option<Value>,
}

pub struct RelayRequestView {
    pub method: Method,
    pub url: Seq<char>,
    pub headers: Seq<(Seq<char>, Seq<char>)>,
    pub body: Option<Json>,
}

impl View for RelayRequest {
    type V = RelayRequestView;

    open spec fn view(&self) -> RelayRequestView {
        RelayRequestView {
            method: self.method,
            url: self.url@,
            headers: pairs_view(self.headers@),
            body: match self.body {
                Some(value) => Some(json_view(value)),
                None => None,
            },
        }
    }
}

/// The headers of every request to the relay: JSON is sent and accepted, and
/// `token` is presented as the bearer token.
pub open spec fn spec_relay_headers(token: Seq<char>) -> Seq<(Seq<char>, Seq<char>)> {
    seq![
        ("Accept"@, "application/json"@),
        ("Content-Type"@, "application/json"@),
        ("Authorization"@, spec_bearer(token)),
    ]
}

/// Builds the headers of a request to the relay.
pub fn relay_headers(token: &str) -> (headers: Vec<(String, String)>)
    ensures
        pairs_view(headers@) == spec_relay_headers(token@),
{
    let headers = vec![
        ("Accept".to_owned(), "application/json".to_owned()),
        ("Content-Type".to_owned(), "application/json".to_owned()),
        ("Authorization".to_owned(), bearer(token)),
    ];
    proof {
        assert(pairs_view(headers@) =~= spec_relay_headers(token@));
    }
    headers
}

/// The value of the `Authorization` header that presents `token`.
pub open spec fn spec_bearer(token: Seq<char>) -> Seq<char> {
    "Bearer "@ + token
}

/// Builds the value of the `Authorization` header that presents `token`.
pub fn bearer(token: &str) -> (header: String)
    ensures
        header@ == spec_bearer(token@),
{
    "Bearer ".to_owned().concat(token)
}

/// What the relay is told about a device that registers for push.
pub open spec fn spec_register_body(user_uuid: Seq<char>, device: DeviceView) -> Json {
    Json::Object(
        Map::empty()
            .insert("userId"@, Json::Str(user_uuid))
            .insert("deviceId"@, Json::Str(device.push_uuid))
            .insert("identifier"@, Json::Str(device.uuid))
            .insert("type"@, Json::Int(device.atype as int))
            .insert("pushToken"@, json_optional(device.push_token)),
    )
}

/// Writes what the relay is told about a device that registers for push.
pub fn register_body(user_uuid: &str, device: &Device) -> (body: Value)
    ensures
        json_view(body) == spec_register_body(user_uuid@, device@),
{
    let mut doc = json_null();
    json_set(&mut doc, "userId", json_string(user_uuid));
    json_set(&mut doc, "deviceId", json_string(device.push_uuid.as_str()));
    json_set(&mut doc, "identifier", json_string(device.uuid.as_str()));
    json_set(&mut doc, "type", json_int(device.atype));
    json_set(&mut doc, "pushToken", optional_to_json(&device.push_token));
    doc
}

/// A call to the relay, before a token is at hand.
#[derive(Debug, PartialEq, Eq)]
pub enum RelayCall {
    Register { user_uuid: String, device: Device },
    Unregister { uuid: String },
    Send(Envelope),
}

pub enum RelayCallView {
    Register { user_uuid: Seq<char>, device: DeviceView },
    Unregister { uuid: Seq<char> },
    Send(EnvelopeView),
}

impl View for RelayCall {
    type V = RelayCallView;

    open spec fn view(&self) -> RelayCallView {
        match self {
            RelayCall::Register { user_uuid, device } => RelayCallView::Register {
                user_uuid: user_uuid@,
                device: device@,
            },
            RelayCall::Unregister { uuid } => RelayCallView::Unregister { uuid: uuid@ },
            RelayCall::Send(envelope) => RelayCallView::Send(envelope@),
        }
    }
}

impl RelayCallView {
    /// Whether a failure of this call is the caller's to handle. The device
    /// lifecycle calls report their failures; sending an event never does.
    pub open spec fn propagates(self) -> bool {
        !(self is Send)
    }

    pub open spec fn method(self) -> Method {
        match self {
            RelayCallView::Unregister { .. } => Method::Delete,
            _ => Method::Post,
        }
    }

    /// The path below the relay's base URI.
    pub open spec fn path(self) -> Seq<char> {
        match self {
            RelayCallView::Register { .. } => "/push/register"@,
            RelayCallView::Unregister { uuid } => "/push/"@ + uuid,
            RelayCallView::Send(_) => "/push/send"@,
        }
    }

    pub open spec fn body(self) -> Option<Json> {
        match self {
            RelayCallView::Register { user_uuid, device } => Some(
                spec_register_body(user_uuid, device),
            ),
            RelayCallView::Unregister { .. } => None,
            RelayCallView::Send(envelope) => Some(envelope.wire()),
        }
    }

    /// The request that makes this call with `token` as the bearer token.
    pub open spec fn request(self, config: PushConfigView, token: Seq<char>) -> RelayRequestView {
        RelayRequestView {
            method: self.method(),
            url: config.push_relay_uri + self.path(),
            headers: spec_relay_headers(token),
            body: self.body(),
        }
    }
}

impl RelayCall {
    /// Whether a failure of this call is the caller's to handle.
    pub fn propagates(&self) -> (yes: bool)
        ensures
            yes == self@.propagates(),
    {
        match self {
            RelayCall::Send(_) => false,
            _ => true,
        }
    }

    /// Builds the request that makes this call with `token` as the bearer
    /// token.
    pub fn request(&self, config: &PushConfig, token: &str) -> (request: RelayRequest)
        ensures
            request@ == self@.request(config@, token@),
    {
        let base = config.push_relay_uri.clone();
        let (method, url, body) = match self {
            RelayCall::Register { user_uuid, device } => (
                Method::Post,
                base.concat("/push/register"),
                Some(register_body(user_uuid.as_str(), device)),
            ),
            RelayCall::Unregister { uuid } => (
                Method::Delete,
                base.concat("/push/").concat(uuid.as_str()),
                None,
            ),
            RelayCall::Send(envelope) => (
                Method::Post,
                base.concat("/push/send"),
                Some(envelope.to_json()),
            ),
        };
        proof {
            assert(url@ =~= config@.push_relay_uri + self@.path());
        }
        RelayRequest { method, url, headers: relay_headers(token), body }
    }
}

/// How the relay answered a request.
#[derive(Clone, Copy, Debug, PartialEq, Eq)]
pub enum RelayReply {
    /// The request did not get through.
    Unreachable,
    /// The status code of the response.
    Status(u16),
}

/// A call succeeds when the relay answers with a 2xx status.
pub open spec fn spec_check_reply(reply: RelayReply) -> Result<(), RelayError> {
    match reply {
        RelayReply::Unreachable => Err(RelayError::Transport),
        RelayReply::Status(status) => if 200 <= status < 300 {
            Ok(())
        } else {
            Err(RelayError::Status(status))
        },
    }
}

/// Judges the relay's reply to a call.
pub fn check_reply(reply: RelayReply) -> (result: Result<(), RelayError>)
    ensures
        result == spec_check_reply(reply),
{
    match reply {
        RelayReply::Unreachable => Err(RelayError::Transport),
        RelayReply::Status(status) => {
            if 200 <= status && status < 300 {
                Ok(())
            } else {
                Err(RelayError::Status(status))
            }
        },
    }
}

} // verus!
