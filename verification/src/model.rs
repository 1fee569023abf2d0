//! The entities whose changes are pushed, reduced to the fields that the
//! dispatch reads, and the configuration it consumes.

use crate::views::optional_view;
use vstd::prelude::*;

verus! {

/// A copy of an optional string.
pub fn clone_optional(text: &Option<String>) -> (copy: Option<String>)
    ensures
        copy == *text,
{
    match text {
        Some(inner) => Some(inner.clone()),
        None => None,
    }
}

/// The settings that govern push delivery.
#[derive(Debug, PartialEq, Eq)]
pub struct PushConfig {
    /// The global switch: when `false`, no operation does any I/O.
    pub push_enabled: bool,
    pub push_installation_id: String,
    pub push_installation_key: String,
    /// Base URI of the relay, without a trailing slash.
    pub push_relay_uri: String,
}

pub struct PushConfigView {
    pub push_enabled: bool,
    pub push_installation_id: Seq<char>,
    pub push_installation_key: Seq<char>,
    pub push_relay_uri: Seq<char>,
}

impl View for PushConfig {
    type V = PushConfigView;

    open spec fn view(&self) -> PushConfigView {
        PushConfigView {
            push_enabled: self.push_enabled,
            push_installation_id: self.push_installation_id@,
            push_installation_key: self.push_installation_key@,
            push_relay_uri: self.push_relay_uri@,
        }
    }
}

/// A client device as the relay knows it.
#[derive(Debug, PartialEq, Eq)]
pub struct Device {
    pub uuid: String,
    /// The id under which the relay addresses the device.
    pub push_uuid: String,
    /// The numeric device-type code.
    pub atype: i32,
    /// The platform's delivery token, once the device has reported one.
    pub push_token: Option<String>,
}

pub struct DeviceView {
    pub uuid: Seq<char>,
    pub push_uuid: Seq<char>,
    pub atype: i32,
    pub push_token: Option<Seq<char>>,
}

impl View for Device {
    type V = DeviceView;

    open spec fn view(&self) -> DeviceView {
        DeviceView {
            uuid: self.uuid@,
            push_uuid: self.push_uuid@,
            atype: self.atype,
            push_token: optional_view(self.push_token),
        }
    }
}

impl Clone for Device {
    fn clone(&self) -> (copy: Self)
        ensures
            copy == *self,
    {
        Device {
            uuid: self.uuid.clone(),
            push_uuid: self.push_uuid.clone(),
            atype: self.atype,
            push_token: clone_optional(&self.push_token),
        }
    }
}

#[derive(Debug, PartialEq, Eq)]
pub struct User {
    pub uuid: String,
    /// Time of the last change, in the text form that goes on the wire.
    pub updated_at: String,
}

pub struct UserView {
    pub uuid: Seq<char>,
    pub updated_at: Seq<char>,
}

impl View for User {
    type V = UserView;

    open spec fn view(&self) -> UserView {
        UserView { uuid: self.uuid@, updated_at: self.updated_at@ }
    }
}

impl Clone for User {
    fn clone(&self) -> (copy: Self)
        ensures
            copy == *self,
    {
        User { uuid: self.uuid.clone(), updated_at: self.updated_at.clone() }
    }
}

#[derive(Debug, PartialEq, Eq)]
pub struct Cipher {
    pub uuid: String,
    /// The owning user; absent for a cipher that only an organization owns.
    pub user_uuid: Option<String>,
    pub organization_uuid: Option<String>,
    /// Time of the last change, in the text form that goes on the wire.
    pub updated_at: String,
}

pub struct CipherView {
    pub uuid: Seq<char>,
    pub user_uuid: Option<Seq<char>>,
    pub organization_uuid: Option<Seq<char>>,
    pub updated_at: Seq<char>,
}

impl View for Cipher {
    type V = CipherView;

    open spec fn view(&self) -> CipherView {
        CipherView {
            uuid: self.uuid@,
            user_uuid: optional_view(self.user_uuid),
            organization_uuid: optional_view(self.organization_uuid),
            updated_at: self.updated_at@,
        }
    }
}

impl Clone for Cipher {
    fn clone(&self) -> (copy: Self)
        ensures
            copy == *self,
    {
        Cipher {
            uuid: self.uuid.clone(),
            user_uuid: clone_optional(&self.user_uuid),
            organization_uuid: clone_optional(&self.organization_uuid),
            updated_at: self.updated_at.clone(),
        }
    }
}

#[derive(Debug, PartialEq, Eq)]
pub struct Folder {
    pub uuid: String,
    pub user_uuid: String,
    /// Time of the last change, in the text form that goes on the wire.
    pub updated_at: String,
}

pub struct FolderView {
    pub uuid: Seq<char>,
    pub user_uuid: Seq<char>,
    pub updated_at: Seq<char>,
}

impl View for Folder {
    type V = FolderView;

    open spec fn view(&self) -> FolderView {
        FolderView { uuid: self.uuid@, user_uuid: self.user_uuid@, updated_at: self.updated_at@ }
    }
}

impl Clone for Folder {
    fn clone(&self) -> (copy: Self)
        ensures
            copy == *self,
    {
        Folder {
            uuid: self.uuid.clone(),
            user_uuid: self.user_uuid.clone(),
            updated_at: self.updated_at.clone(),
        }
    }
}

#[derive(Debug, PartialEq, Eq)]
pub struct Send {
    pub uuid: String,
    /// The owning user, if the send has one.
    pub user_uuid: Option<String>,
    /// Time of the last change, in the text form that goes on the wire.
    pub revision_date: String,
}

pub struct SendView {
    pub uuid: Seq<char>,
    pub user_uuid: Option<Seq<char>>,
    pub revision_date: Seq<char>,
}

impl View for Send {
    type V = SendView;

    open spec fn view(&self) -> SendView {
        SendView {
            uuid: self.uuid@,
            user_uuid: optional_view(self.user_uuid),
            revision_date: self.revision_date@,
        }
    }
}

impl Clone for Send {
    fn clone(&self) -> (copy: Self)
        ensures
            copy == *self,
    {
        Send {
            uuid: self.uuid.clone(),
            user_uuid: clone_optional(&self.user_uuid),
            revision_date: self.revision_date.clone(),
        }
    }
}

} // verus!
