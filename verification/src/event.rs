//! The change events that are pushed, and what each needs before it can go
//! out: which device has to be looked up, and which call to the relay it
//! becomes once the lookup is answered.

use crate::envelope::{
    cipher_update_envelope, folder_update_envelope, logout_envelope, send_update_envelope,
    spec_cipher_update_envelope, spec_folder_update_envelope, spec_logout_envelope,
    spec_send_update_envelope, spec_user_update_envelope, user_update_envelope, Envelope,
    EnvelopeView,
};
use crate::model::{
    Cipher, CipherView, Device, DeviceView, Folder, FolderView, Send, SendView, User, UserView,
};
use crate::relay::{RelayCall, RelayCallView};
use crate::views::optional_view;
use vstd::prelude::*;

verus! {

/// One event to push, with the fields its call to the relay is made from.
#[allow(inconsistent_fields)]
#[derive(Debug, PartialEq, Eq)]
pub enum PushEvent {
    CipherUpdate { update_type: i32, cipher: Cipher, acting_device_uuid: String },
    FolderUpdate { update_type: i32, folder: Folder, acting_device_uuid: String },
    UserUpdate { update_type: i32, user: User },
    SendUpdate { update_type: i32, send: Send },
    LogOut { user: User, acting_device_uuid: Option<String> },
    DeviceRegister { user_uuid: String, device: Device },
    DeviceUnregister { uuid: String },
}

#[allow(inconsistent_fields)]
pub enum PushEventView {
    CipherUpdate { update_type: i32, cipher: CipherView, acting_device_uuid: Seq<char> },
    FolderUpdate { update_type: i32, folder: FolderView, acting_device_uuid: Seq<char> },
    UserUpdate { update_type: i32, user: UserView },
    SendUpdate { update_type: i32, send: SendView },
    LogOut { user: UserView, acting_device_uuid: Option<Seq<char>> },
    DeviceRegister { user_uuid: Seq<char>, device: DeviceView },
    DeviceUnregister { uuid: Seq<char> },
}

impl View for PushEvent {
    type V = PushEventView;

    open spec fn view(&self) -> PushEventView {
        match self {
            PushEvent::CipherUpdate {
                update_type,
                cipher,
                acting_device_uuid,
            } => PushEventView::CipherUpdate {
                update_type: *update_type,
                cipher: cipher@,
                acting_device_uuid: acting_device_uuid@,
            },
            PushEvent::FolderUpdate {
                update_type,
                folder,
                acting_device_uuid,
            } => PushEventView::FolderUpdate {
                update_type: *update_type,
                folder: folder@,
                acting_device_uuid: acting_device_uuid@,
            },
            PushEvent::UserUpdate { update_type, user } => PushEventView::UserUpdate {
                update_type: *update_type,
                user: user@,
            },
            PushEvent::SendUpdate { update_type, send } => PushEventView::SendUpdate {
                update_type: *update_type,
                send: send@,
            },
            PushEvent::LogOut { user, acting_device_uuid } => PushEventView::LogOut {
                user: user@,
                acting_device_uuid: optional_view(*acting_device_uuid),
            },
            PushEvent::DeviceRegister { user_uuid, device } => PushEventView::DeviceRegister {
                user_uuid: user_uuid@,
                device: device@,
            },
            PushEvent::DeviceUnregister { uuid } => PushEventView::DeviceUnregister { uuid: uuid@ },
        }
    }
}

/// The key of a device lookup: the device's uuid and the user it belongs to.
#[derive(Debug, PartialEq, Eq)]
pub struct DeviceQuery {
    pub device_uuid: String,
    pub user_uuid: String,
}

pub struct DeviceQueryView {
    pub device_uuid: Seq<char>,
    pub user_uuid: Seq<char>,
}

impl View for DeviceQuery {
    type V = DeviceQueryView;

    open spec fn view(&self) -> DeviceQueryView {
        DeviceQueryView { device_uuid: self.device_uuid@, user_uuid: self.user_uuid@ }
    }
}

impl PushEventView {
    /// The lookup that has to be answered before the event can go out: the
    /// acting device, under the user who owns the changed entity. Events that
    /// are broadcast, the device lifecycle calls, and a cipher that is
    /// suppressed whatever the lookup gives, need none.
    pub open spec fn device_query(self) -> Option<DeviceQueryView> {
        match self {
            PushEventView::CipherUpdate { cipher, acting_device_uuid, .. } => {
                if cipher.organization_uuid is None && cipher.user_uuid is Some {
                    Some(
                        DeviceQueryView {
                            device_uuid: acting_device_uuid,
                            user_uuid: cipher.user_uuid->0,
                        },
                    )
                } else {
                    None
                }
            },
            PushEventView::FolderUpdate { folder, acting_device_uuid, .. } => Some(
                DeviceQueryView { device_uuid: acting_device_uuid, user_uuid: folder.user_uuid },
            ),
            PushEventView::LogOut { user, acting_device_uuid } => match acting_device_uuid {
                Some(device_uuid) => Some(DeviceQueryView { device_uuid, user_uuid: user.uuid }),
                None => None,
            },
            _ => None,
        }
    }

    /// The envelope of a notification, given what the lookup of its acting
    /// device gave (`None` too where no lookup was needed). `None` means that
    /// nothing is sent.
    pub open spec fn envelope(self, device: Option<DeviceView>) -> Option<EnvelopeView> {
        match self {
            PushEventView::CipherUpdate {
                update_type,
                cipher,
                acting_device_uuid,
            } => spec_cipher_update_envelope(update_type, cipher, acting_device_uuid, device),
            PushEventView::FolderUpdate {
                update_type,
                folder,
                acting_device_uuid,
            } => spec_folder_update_envelope(update_type, folder, acting_device_uuid, device),
            PushEventView::UserUpdate { update_type, user } => Some(
                spec_user_update_envelope(update_type, user),
            ),
            PushEventView::SendUpdate { update_type, send } => spec_send_update_envelope(
                update_type,
                send,
            ),
            PushEventView::LogOut { user, acting_device_uuid } => spec_logout_envelope(
                user,
                acting_device_uuid,
                device,
            ),
            _ => None,
        }
    }

    /// The call to the relay that the event becomes, given what the lookup of
    /// its acting device gave. `None` means that the event is suppressed.
    pub open spec fn relay_call(self, device: Option<DeviceView>) -> Option<RelayCallView> {
        match self {
            PushEventView::DeviceRegister { user_uuid, device: registering } => Some(
                RelayCallView::Register { user_uuid, device: registering },
            ),
            PushEventView::DeviceUnregister { uuid } => Some(RelayCallView::Unregister { uuid }),
            _ => match self.envelope(device) {
                Some(envelope) => Some(RelayCallView::Send(envelope)),
                None => None,
            },
        }
    }
}

impl PushEvent {
    /// The lookup that has to be answered before the event can go out, if it
    /// needs one.
    pub fn device_query(&self) -> (query: Option<DeviceQuery>)
        ensures
            optional_view(query) == self@.device_query(),
    {
        match self {
            PushEvent::CipherUpdate { cipher, acting_device_uuid, .. } => {
                if cipher.organization_uuid.is_some() {
                    return None;
                }
                match &cipher.user_uuid {
                    Some(owner) => Some(
                        DeviceQuery {
                            device_uuid: acting_device_uuid.clone(),
                            user_uuid: owner.clone(),
                        },
                    ),
                    None => None,
                }
            },
            PushEvent::FolderUpdate { folder, acting_device_uuid, .. } => Some(
                DeviceQuery {
                    device_uuid: acting_device_uuid.clone(),
                    user_uuid: folder.user_uuid.clone(),
                },
            ),
            PushEvent::LogOut { user, acting_device_uuid } => match acting_device_uuid {
                Some(device_uuid) => Some(
                    DeviceQuery { device_uuid: device_uuid.clone(), user_uuid: user.uuid.clone() },
                ),
                None => None,
            },
            _ => None,
        }
    }

    /// Builds the envelope of a notification from what the lookup of its
    /// acting device gave. `None` means that nothing is sent.
    pub fn envelope(&self, device: Option<&Device>) -> (envelope: Option<Envelope>)
        ensures
            optional_view(envelope) == self@.envelope(optional_view(device)),
            envelope is Some ==> envelope->0.wf(),
    {
        match self {
            PushEvent::CipherUpdate {
                update_type,
                cipher,
                acting_device_uuid,
            } => cipher_update_envelope(*update_type, cipher, acting_device_uuid, device),
            PushEvent::FolderUpdate {
                update_type,
                folder,
                acting_device_uuid,
            } => folder_update_envelope(*update_type, folder, acting_device_uuid, device),
            PushEvent::UserUpdate { update_type, user } => Some(
                user_update_envelope(*update_type, user),
            ),
            PushEvent::SendUpdate { update_type, send } => send_update_envelope(*update_type, send),
            PushEvent::LogOut { user, acting_device_uuid } => logout_envelope(
                user,
                acting_device_uuid,
                device,
            ),
            _ => None,
        }
    }

    /// Turns the event into its call to the relay, given what the lookup of
    /// its acting device gave. `None` means that the event is suppressed.
    pub fn relay_call(self, device: Option<&Device>) -> (call: Option<RelayCall>)
        ensures
            optional_view(call) == self@.relay_call(optional_view(device)),
    {
        match self {
            PushEvent::DeviceRegister { user_uuid, device: registering } => Some(
                RelayCall::Register { user_uuid, device: registering },
            ),
            PushEvent::DeviceUnregister { uuid } => Some(RelayCall::Unregister { uuid }),
            other => match other.envelope(device) {
                Some(envelope) => Some(RelayCall::Send(envelope)),
                None => None,
            },
        }
    }
}

} // verus!
