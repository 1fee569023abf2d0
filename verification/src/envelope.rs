//! The envelope that goes to the relay for a change event: when one is built,
//! what it holds, and how it is written as JSON.

use crate::json::{json_int, json_null, json_set, json_string, json_view, Json};
use crate::model::{
    clone_optional, Cipher, CipherView, Device, DeviceView, Folder, FolderView, Send, SendView,
    User, UserView,
};
use crate::views::optional_view;
use serde_json::Value;
use vstd::prelude::*;

verus! {

/// The update-type code of a logout.
pub const LOG_OUT: i32 = 11;

/// The JSON string for a text that is there, `null` for one that is not.
pub open spec fn json_optional(text: Option<Seq<char>>) -> Json {
    match text {
        Some(chars) => Json::Str(chars),
        None => Json::Null,
    }
}

/// The kind-specific body of an envelope.
#[derive(Debug, PartialEq, Eq)]
pub enum Payload {
    Cipher { id: String, user_id: String, revision_date: String },
    Folder { id: String, user_id: String, revision_date: String },
    Send { id: String, user_id: String, revision_date: String },
    /// The body of a user update and of a logout.
    User { user_id: String, date: String },
}

pub enum PayloadView {
    Cipher { id: Seq<char>, user_id: Seq<char>, revision_date: Seq<char> },
    Folder { id: Seq<char>, user_id: Seq<char>, revision_date: Seq<char> },
    Send { id: Seq<char>, user_id: Seq<char>, revision_date: Seq<char> },
    User { user_id: Seq<char>, date: Seq<char> },
}

impl View for Payload {
    type V = PayloadView;

    open spec fn view(&self) -> PayloadView {
        match self {
            Payload::Cipher { id, user_id, revision_date } => PayloadView::Cipher {
                id: id@,
                user_id: user_id@,
                revision_date: revision_date@,
            },
            Payload::Folder { id, user_id, revision_date } => PayloadView::Folder {
                id: id@,
                user_id: user_id@,
                revision_date: revision_date@,
            },
            Payload::Send { id, user_id, revision_date } => PayloadView::Send {
                id: id@,
                user_id: user_id@,
                revision_date: revision_date@,
            },
            Payload::User { user_id, date } => PayloadView::User { user_id: user_id@, date: date@ },
        }
    }
}

impl PayloadView {
    /// The JSON object that carries this payload. A cipher's payload names its
    /// organization as `null`: organization-scoped pushes are not supported.
    pub open spec fn wire(self) -> Json {
        match self {
            PayloadView::Cipher { id, user_id, revision_date } => Json::Object(
                Map::empty()
                    .insert("Id"@, Json::Str(id))
                    .insert("UserId"@, Json::Str(user_id))
                    .insert("OrganizationId"@, Json::Null)
                    .insert("RevisionDate"@, Json::Str(revision_date)),
            ),
            PayloadView::Folder { id, user_id, revision_date } => Json::Object(
                Map::empty()
                    .insert("Id"@, Json::Str(id))
                    .insert("UserId"@, Json::Str(user_id))
                    .insert("RevisionDate"@, Json::Str(revision_date)),
            ),
            PayloadView::Send { id, user_id, revision_date } => Json::Object(
                Map::empty()
                    .insert("Id"@, Json::Str(id))
                    .insert("UserId"@, Json::Str(user_id))
                    .insert("RevisionDate"@, Json::Str(revision_date)),
            ),
            PayloadView::User { user_id, date } => Json::Object(
                Map::empty()
                    .insert("UserId"@, Json::Str(user_id))
                    .insert("Date"@, Json::Str(date)),
            ),
        }
    }
}

impl Payload {
    /// Writes the payload as a JSON object.
    pub fn to_json(&self) -> (value: Value)
        ensures
            json_view(value) == self@.wire(),
    {
        let mut doc = json_null();
        match self {
            Payload::Cipher { id, user_id, revision_date } => {
                json_set(&mut doc, "Id", json_string(id.as_str()));
                json_set(&mut doc, "UserId", json_string(user_id.as_str()));
                json_set(&mut doc, "OrganizationId", json_null());
                json_set(&mut doc, "RevisionDate", json_string(revision_date.as_str()));
            },
            Payload::Folder { id, user_id, revision_date } => {
                json_set(&mut doc, "Id", json_string(id.as_str()));
                json_set(&mut doc, "UserId", json_string(user_id.as_str()));
                json_set(&mut doc, "RevisionDate", json_string(revision_date.as_str()));
            },
            Payload::Send { id, user_id, revision_date } => {
                json_set(&mut doc, "Id", json_string(id.as_str()));
                json_set(&mut doc, "UserId", json_string(user_id.as_str()));
                json_set(&mut doc, "RevisionDate", json_string(revision_date.as_str()));
            },
            Payload::User { user_id, date } => {
                json_set(&mut doc, "UserId", json_string(user_id.as_str()));
                json_set(&mut doc, "Date", json_string(date.as_str()));
            },
        }
        doc
    }
}

/// The wire payload for one change event.
#[derive(Debug, PartialEq, Eq)]
pub struct Envelope {
    pub user_id: String,
    /// The relay's id of the acting device; absent for a broadcast.
    pub device_id: Option<String>,
    /// The acting device's uuid; absent for a broadcast.
    pub identifier: Option<String>,
    /// The update-type code.
    pub update_type: i32,
    pub payload: Payload,
}

pub struct EnvelopeView {
    pub user_id: Seq<char>,
    pub device_id: Option<Seq<char>>,
    pub identifier: Option<Seq<char>>,
    pub update_type: i32,
    pub payload: PayloadView,
}

impl View for Envelope {
    type V = EnvelopeView;

    open spec fn view(&self) -> EnvelopeView {
        EnvelopeView {
            user_id: self.user_id@,
            device_id: optional_view(self.device_id),
            identifier: optional_view(self.identifier),
            update_type: self.update_type,
            payload: self.payload@,
        }
    }
}

impl EnvelopeView {
    /// An envelope names the acting device in full or not at all.
    pub open spec fn wf(self) -> bool {
        self.device_id is Some <==> self.identifier is Some
    }

    /// The JSON object that carries this envelope. `organizationId` is always
    /// `null`: organization-scoped pushes are not supported.
    pub open spec fn wire(self) -> Json {
        Json::Object(
            Map::empty()
                .insert("userId"@, Json::Str(self.user_id))
                .insert("organizationId"@, Json::Null)
                .insert("deviceId"@, json_optional(self.device_id))
                .insert("identifier"@, json_optional(self.identifier))
                .insert("type"@, Json::Int(self.update_type as int))
                .insert("payload"@, self.payload.wire()),
        )
    }
}

/// The JSON string for a text that is there, `null` for one that is not.
pub fn optional_to_json(text: &Option<String>) -> (value: Value)
    ensures
        json_view(value) == json_optional(optional_view(*text)),
{
    match text {
        Some(inner) => json_string(inner.as_str()),
        None => json_null(),
    }
}

impl Envelope {
    /// Whether the envelope names the acting device in full or not at all.
    pub open spec fn wf(&self) -> bool {
        self@.wf()
    }

    /// Writes the envelope as the JSON object that the relay expects.
    pub fn to_json(&self) -> (value: Value)
        ensures
            json_view(value) == self@.wire(),
    {
        let mut doc = json_null();
        json_set(&mut doc, "userId", json_string(self.user_id.as_str()));
        json_set(&mut doc, "organizationId", json_null());
        json_set(&mut doc, "deviceId", optional_to_json(&self.device_id));
        json_set(&mut doc, "identifier", optional_to_json(&self.identifier));
        json_set(&mut doc, "type", json_int(self.update_type));
        json_set(&mut doc, "payload", self.payload.to_json());
        doc
    }
}

/// The envelope for a cipher change, unless it is suppressed: a cipher of an
/// organization, one without an owning user, and one whose acting device is
/// unknown send nothing.
pub open spec fn spec_cipher_update_envelope(
    update_type: i32,
    cipher: CipherView,
    acting_device_uuid: Seq<char>,
    device: Option<DeviceView>,
) -> Option<EnvelopeView> {
    if cipher.organization_uuid is Some || cipher.user_uuid is None || device is None {
        None
    } else {
        Some(
            EnvelopeView {
                user_id: cipher.user_uuid->0,
                device_id: Some(device->0.push_uuid),
                identifier: Some(acting_device_uuid),
                update_type,
                payload: PayloadView::Cipher {
                    id: cipher.uuid,
                    user_id: cipher.user_uuid->0,
                    revision_date: cipher.updated_at,
                },
            },
        )
    }
}

/// The envelope for a folder change, unless the acting device is unknown.
pub open spec fn spec_folder_update_envelope(
    update_type: i32,
    folder: FolderView,
    acting_device_uuid: Seq<char>,
    device: Option<DeviceView>,
) -> Option<EnvelopeView> {
    if device is None {
        None
    } else {
        Some(
            EnvelopeView {
                user_id: folder.user_uuid,
                device_id: Some(device->0.push_uuid),
                identifier: Some(acting_device_uuid),
                update_type,
                payload: PayloadView::Folder {
                    id: folder.uuid,
                    user_id: folder.user_uuid,
                    revision_date: folder.updated_at,
                },
            },
        )
    }
}

/// The broadcast envelope for a change to a send, unless it has no owner.
pub open spec fn spec_send_update_envelope(
    update_type: i32,
    send: SendView,
) -> Option<EnvelopeView> {
    if send.user_uuid is None {
        None
    } else {
        Some(
            EnvelopeView {
                user_id: send.user_uuid->0,
                device_id: None,
                identifier: None,
                update_type,
                payload: PayloadView::Send {
                    id: send.uuid,
                    user_id: send.user_uuid->0,
                    revision_date: send.revision_date,
                },
            },
        )
    }
}

/// The broadcast envelope for a change to a user; it is never suppressed.
pub open spec fn spec_user_update_envelope(update_type: i32, user: UserView) -> EnvelopeView {
    EnvelopeView {
        user_id: user.uuid,
        device_id: None,
        identifier: None,
        update_type,
        payload: PayloadView::User { user_id: user.uuid, date: user.updated_at },
    }
}

/// The envelope for a logout. Without an acting device it is a broadcast;
/// with one it names that device, and is suppressed if the device is unknown.
pub open spec fn spec_logout_envelope(
    user: UserView,
    acting_device_uuid: Option<Seq<char>>,
    device: Option<DeviceView>,
) -> Option<EnvelopeView> {
    if acting_device_uuid is None {
        Some(spec_user_update_envelope(LOG_OUT, user))
    } else if device is None {
        None
    } else {
        Some(
            EnvelopeView {
                user_id: user.uuid,
                device_id: Some(device->0.push_uuid),
                identifier: acting_device_uuid,
                update_type: LOG_OUT,
                payload: PayloadView::User { user_id: user.uuid, date: user.updated_at },
            },
        )
    }
}

/// Builds the envelope for a cipher change; `device` is what the lookup of the
/// acting device under the cipher's owner gave. `None` means suppressed.
pub fn cipher_update_envelope(
    update_type: i32,
    cipher: &Cipher,
    acting_device_uuid: &String,
    device: Option<&Device>,
) -> (envelope: Option<Envelope>)
    ensures
        optional_view(envelope) == spec_cipher_update_envelope(
            update_type,
            cipher@,
            acting_device_uuid@,
            optional_view(device),
        ),
        envelope is Some ==> envelope->0.wf(),
{
    if cipher.organization_uuid.is_some() {
        return None;
    }
    let user_uuid = match &cipher.user_uuid {
        Some(owner) => owner,
        None => {
            return None;
        },
    };
    let device = match device {
        Some(found) => found,
        None => {
            return None;
        },
    };
    Some(
        Envelope {
            user_id: user_uuid.clone(),
            device_id: Some(device.push_uuid.clone()),
            identifier: Some(acting_device_uuid.clone()),
            update_type,
            payload: Payload::Cipher {
                id: cipher.uuid.clone(),
                user_id: user_uuid.clone(),
                revision_date: cipher.updated_at.clone(),
            },
        },
    )
}

/// Builds the envelope for a folder change; `device` is what the lookup of the
/// acting device under the folder's owner gave. `None` means suppressed.
pub fn folder_update_envelope(
    update_type: i32,
    folder: &Folder,
    acting_device_uuid: &String,
    device: Option<&Device>,
) -> (envelope: Option<Envelope>)
    ensures
        optional_view(envelope) == spec_folder_update_envelope(
            update_type,
            folder@,
            acting_device_uuid@,
            optional_view(device),
        ),
        envelope is Some ==> envelope->0.wf(),
{
    let device = match device {
        Some(found) => found,
        None => {
            return None;
        },
    };
    Some(
        Envelope {
            user_id: folder.user_uuid.clone(),
            device_id: Some(device.push_uuid.clone()),
            identifier: Some(acting_device_uuid.clone()),
            update_type,
            payload: Payload::Folder {
                id: folder.uuid.clone(),
                user_id: folder.user_uuid.clone(),
                revision_date: folder.updated_at.clone(),
            },
        },
    )
}

/// Builds the broadcast envelope for a change to a send. `None` means
/// suppressed.
pub fn send_update_envelope(update_type: i32, send: &Send) -> (envelope: Option<Envelope>)
    ensures
        optional_view(envelope) == spec_send_update_envelope(update_type, send@),
        envelope is Some ==> envelope->0.wf(),
{
    let user_uuid = match &send.user_uuid {
        Some(owner) => owner,
        None => {
            return None;
        },
    };
    Some(
        Envelope {
            user_id: user_uuid.clone(),
            device_id: None,
            identifier: None,
            update_type,
            payload: Payload::Send {
                id: send.uuid.clone(),
                user_id: user_uuid.clone(),
                revision_date: send.revision_date.clone(),
            },
        },
    )
}

/// Builds the broadcast envelope for a change to a user.
pub fn user_update_envelope(update_type: i32, user: &User) -> (envelope: Envelope)
    ensures
        envelope@ == spec_user_update_envelope(update_type, user@),
        envelope.wf(),
{
    Envelope {
        user_id: user.uuid.clone(),
        device_id: None,
        identifier: None,
        update_type,
        payload: Payload::User { user_id: user.uuid.clone(), date: user.updated_at.clone() },
    }
}

/// Builds the envelope for a logout; `device` is what the lookup of the acting
/// device under the user gave, and is not read when no device acted. `None`
/// means suppressed.
pub fn logout_envelope(
    user: &User,
    acting_device_uuid: &Option<String>,
    device: Option<&Device>,
) -> (envelope: Option<Envelope>)
    ensures
        optional_view(envelope) == spec_logout_envelope(
            user@,
            optional_view(*acting_device_uuid),
            optional_view(device),
        ),
        envelope is Some ==> envelope->0.wf(),
{
    if acting_device_uuid.is_none() {
        return Some(user_update_envelope(LOG_OUT, user));
    }
    let device = match device {
        Some(found) => found,
        None => {
            return None;
        },
    };
    Some(
        Envelope {
            user_id: user.uuid.clone(),
            device_id: Some(device.push_uuid.clone()),
            identifier: clone_optional(acting_device_uuid),
            update_type: LOG_OUT,
            payload: Payload::User { user_id: user.uuid.clone(), date: user.updated_at.clone() },
        },
    )
}

} // verus!
