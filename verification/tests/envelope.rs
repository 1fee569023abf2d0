use push_relay::envelope::{
    cipher_update_envelope, folder_update_envelope, logout_envelope, optional_to_json,
    send_update_envelope, user_update_envelope, Envelope, Payload, LOG_OUT,
};
use push_relay::event::{DeviceQuery, PushEvent};
use push_relay::model::{clone_optional, Cipher, Device, Folder, Send, User};
use push_relay::relay::RelayCall;
use serde_json::Value;

fn json(text: &str) -> Value {
    serde_json::from_str(text).unwrap()
}

fn device() -> Device {
    Device {
        uuid: "dev-1".to_string(),
        push_uuid: "push-9".to_string(),
        atype: 14,
        push_token: Some("fcm-token".to_string()),
    }
}

fn user() -> User {
    User { uuid: "user-1".to_string(), updated_at: "2023-06-01T10:20:30.123456".to_string() }
}

fn cipher() -> Cipher {
    Cipher {
        uuid: "cipher-1".to_string(),
        user_uuid: Some("user-1".to_string()),
        organization_uuid: None,
        updated_at: "2023-06-01T10:20:30.123456".to_string(),
    }
}

fn folder() -> Folder {
    Folder {
        uuid: "folder-1".to_string(),
        user_uuid: "user-1".to_string(),
        updated_at: "2023-06-02T00:00:00".to_string(),
    }
}

fn send() -> Send {
    Send {
        uuid: "send-1".to_string(),
        user_uuid: Some("user-1".to_string()),
        revision_date: "2023-06-03T00:00:00".to_string(),
    }
}

#[test]
fn clone_optional_copies_what_is_there() {
    assert_eq!(clone_optional(&Some("abc".to_string())), Some("abc".to_string()));
    assert_eq!(clone_optional(&None), None);
}

#[test]
fn entity_clones_are_equal() {
    assert_eq!(device().clone(), device());
    assert_eq!(user().clone(), user());
    assert_eq!(cipher().clone(), cipher());
    assert_eq!(folder().clone(), folder());
    assert_eq!(send().clone(), send());
}

#[test]
fn logout_code_is_eleven() {
    assert_eq!(LOG_OUT, 11);
}

#[test]
fn cipher_update_names_the_acting_device() {
    let acting = "dev-1".to_string();
    let envelope = cipher_update_envelope(0, &cipher(), &acting, Some(&device()));
    assert_eq!(
        envelope,
        Some(Envelope {
            user_id: "user-1".to_string(),
            device_id: Some("push-9".to_string()),
            identifier: Some("dev-1".to_string()),
            update_type: 0,
            payload: Payload::Cipher {
                id: "cipher-1".to_string(),
                user_id: "user-1".to_string(),
                revision_date: "2023-06-01T10:20:30.123456".to_string(),
            },
        })
    );
}

#[test]
fn cipher_update_identifier_is_the_acting_uuid_as_given() {
    let acting = "other-device".to_string();
    let envelope = cipher_update_envelope(1, &cipher(), &acting, Some(&device())).unwrap();
    assert_eq!(envelope.identifier, Some("other-device".to_string()));
    assert_eq!(envelope.device_id, Some("push-9".to_string()));
    assert_eq!(envelope.update_type, 1);
}

#[test]
fn cipher_of_an_organization_is_suppressed() {
    let mut cipher = cipher();
    cipher.organization_uuid = Some("org-1".to_string());
    let acting = "dev-1".to_string();
    assert_eq!(cipher_update_envelope(0, &cipher, &acting, Some(&device())), None);
    cipher.user_uuid = None;
    assert_eq!(cipher_update_envelope(0, &cipher, &acting, Some(&device())), None);
}

#[test]
fn cipher_without_owner_is_suppressed() {
    let mut cipher = cipher();
    cipher.user_uuid = None;
    let acting = "dev-1".to_string();
    assert_eq!(cipher_update_envelope(0, &cipher, &acting, Some(&device())), None);
}

#[test]
fn cipher_with_unknown_device_is_suppressed() {
    let acting = "dev-1".to_string();
    assert_eq!(cipher_update_envelope(0, &cipher(), &acting, None), None);
}

#[test]
fn cipher_envelope_on_the_wire() {
    let acting = "dev-1".to_string();
    let envelope = cipher_update_envelope(0, &cipher(), &acting, Some(&device())).unwrap();
    assert_eq!(
        envelope.to_json(),
        json(
            r#"{
                "userId": "user-1",
                "organizationId": null,
                "deviceId": "push-9",
                "identifier": "dev-1",
                "type": 0,
                "payload": {
                    "Id": "cipher-1",
                    "UserId": "user-1",
                    "OrganizationId": null,
                    "RevisionDate": "2023-06-01T10:20:30.123456"
                }
            }"#
        )
    );
}

#[test]
fn folder_update_names_the_acting_device() {
    let acting = "dev-1".to_string();
    let envelope = folder_update_envelope(8, &folder(), &acting, Some(&device()));
    assert_eq!(
        envelope,
        Some(Envelope {
            user_id: "user-1".to_string(),
            device_id: Some("push-9".to_string()),
            identifier: Some("dev-1".to_string()),
            update_type: 8,
            payload: Payload::Folder {
                id: "folder-1".to_string(),
                user_id: "user-1".to_string(),
                revision_date: "2023-06-02T00:00:00".to_string(),
            },
        })
    );
}

#[test]
fn folder_with_unknown_device_is_suppressed() {
    let acting = "dev-1".to_string();
    assert_eq!(folder_update_envelope(8, &folder(), &acting, None), None);
}

#[test]
fn folder_envelope_on_the_wire() {
    let acting = "dev-1".to_string();
    let envelope = folder_update_envelope(7, &folder(), &acting, Some(&device())).unwrap();
    assert_eq!(
        envelope.to_json(),
        json(
            r#"{
                "userId": "user-1",
                "organizationId": null,
                "deviceId": "push-9",
                "identifier": "dev-1",
                "type": 7,
                "payload": {
                    "Id": "folder-1",
                    "UserId": "user-1",
                    "RevisionDate": "2023-06-02T00:00:00"
                }
            }"#
        )
    );
}

#[test]
fn send_update_is_a_broadcast() {
    assert_eq!(
        send_update_envelope(12, &send()),
        Some(Envelope {
            user_id: "user-1".to_string(),
            device_id: None,
            identifier: None,
            update_type: 12,
            payload: Payload::Send {
                id: "send-1".to_string(),
                user_id: "user-1".to_string(),
                revision_date: "2023-06-03T00:00:00".to_string(),
            },
        })
    );
}

#[test]
fn send_without_owner_is_suppressed() {
    let mut send = send();
    send.user_uuid = None;
    assert_eq!(send_update_envelope(12, &send), None);
}

#[test]
fn send_envelope_on_the_wire() {
    let envelope = send_update_envelope(13, &send()).unwrap();
    assert_eq!(
        envelope.to_json(),
        json(
            r#"{
                "userId": "user-1",
                "organizationId": null,
                "deviceId": null,
                "identifier": null,
                "type": 13,
                "payload": {
                    "Id": "send-1",
                    "UserId": "user-1",
                    "RevisionDate": "2023-06-03T00:00:00"
                }
            }"#
        )
    );
}

#[test]
fn user_update_is_a_broadcast() {
    assert_eq!(
        user_update_envelope(5, &user()),
        Envelope {
            user_id: "user-1".to_string(),
            device_id: None,
            identifier: None,
            update_type: 5,
            payload: Payload::User {
                user_id: "user-1".to_string(),
                date: "2023-06-01T10:20:30.123456".to_string(),
            },
        }
    );
}

#[test]
fn user_envelope_on_the_wire() {
    assert_eq!(
        user_update_envelope(-3, &user()).to_json(),
        json(
            r#"{
                "userId": "user-1",
                "organizationId": null,
                "deviceId": null,
                "identifier": null,
                "type": -3,
                "payload": { "UserId": "user-1", "Date": "2023-06-01T10:20:30.123456" }
            }"#
        )
    );
}

#[test]
fn logout_without_device_is_a_broadcast() {
    let envelope = logout_envelope(&user(), &None, None).unwrap();
    assert_eq!(envelope.device_id, None);
    assert_eq!(envelope.identifier, None);
    assert_eq!(envelope.update_type, 11);
    assert_eq!(envelope, user_update_envelope(LOG_OUT, &user()));
    assert_eq!(logout_envelope(&user(), &None, Some(&device())), Some(envelope));
}

#[test]
fn logout_with_device_names_it() {
    let acting = Some("dev-1".to_string());
    assert_eq!(
        logout_envelope(&user(), &acting, Some(&device())),
        Some(Envelope {
            user_id: "user-1".to_string(),
            device_id: Some("push-9".to_string()),
            identifier: Some("dev-1".to_string()),
            update_type: 11,
            payload: Payload::User {
                user_id: "user-1".to_string(),
                date: "2023-06-01T10:20:30.123456".to_string(),
            },
        })
    );
}

#[test]
fn logout_with_unknown_device_is_suppressed() {
    let acting = Some("dev-1".to_string());
    assert_eq!(logout_envelope(&user(), &acting, None), None);
}

#[test]
fn logout_envelope_on_the_wire() {
    let acting = Some("dev-1".to_string());
    let envelope = logout_envelope(&user(), &acting, Some(&device())).unwrap();
    assert_eq!(
        envelope.to_json(),
        json(
            r#"{
                "userId": "user-1",
                "organizationId": null,
                "deviceId": "push-9",
                "identifier": "dev-1",
                "type": 11,
                "payload": { "UserId": "user-1", "Date": "2023-06-01T10:20:30.123456" }
            }"#
        )
    );
}

#[test]
fn payloads_on_the_wire() {
    let cipher = Payload::Cipher {
        id: "c".to_string(),
        user_id: "u".to_string(),
        revision_date: "d".to_string(),
    };
    assert_eq!(
        cipher.to_json(),
        json(r#"{"Id":"c","UserId":"u","OrganizationId":null,"RevisionDate":"d"}"#)
    );
    let folder = Payload::Folder {
        id: "f".to_string(),
        user_id: "u".to_string(),
        revision_date: "d".to_string(),
    };
    assert_eq!(folder.to_json(), json(r#"{"Id":"f","UserId":"u","RevisionDate":"d"}"#));
    let send = Payload::Send {
        id: "s".to_string(),
        user_id: "u".to_string(),
        revision_date: "d".to_string(),
    };
    assert_eq!(send.to_json(), json(r#"{"Id":"s","UserId":"u","RevisionDate":"d"}"#));
    let user = Payload::User { user_id: "u".to_string(), date: "d".to_string() };
    assert_eq!(user.to_json(), json(r#"{"UserId":"u","Date":"d"}"#));
}

#[test]
fn strings_go_on_the_wire_unchanged() {
    let mut user = user();
    user.uuid = "u\"\\\n\u{e9}\u{1F600}".to_string();
    user.updated_at = String::new();
    let value = user_update_envelope(1, &user).to_json();
    assert_eq!(value["userId"], Value::String("u\"\\\n\u{e9}\u{1F600}".to_string()));
    assert_eq!(value["payload"]["UserId"], Value::String("u\"\\\n\u{e9}\u{1F600}".to_string()));
    assert_eq!(value["payload"]["Date"], Value::String(String::new()));
}

#[test]
fn update_type_goes_on_the_wire_as_a_number() {
    assert_eq!(user_update_envelope(i32::MAX, &user()).to_json()["type"], json("2147483647"));
    assert_eq!(user_update_envelope(i32::MIN, &user()).to_json()["type"], json("-2147483648"));
    assert_eq!(user_update_envelope(0, &user()).to_json()["type"], json("0"));
}

#[test]
fn optional_text_on_the_wire() {
    assert_eq!(optional_to_json(&Some("abc".to_string())), Value::String("abc".to_string()));
    assert_eq!(optional_to_json(&Some(String::new())), Value::String(String::new()));
    assert_eq!(optional_to_json(&None), Value::Null);
}

#[test]
fn cipher_event_asks_for_the_acting_device_of_the_owner() {
    let event = PushEvent::CipherUpdate {
        update_type: 0,
        cipher: cipher(),
        acting_device_uuid: "dev-1".to_string(),
    };
    assert_eq!(
        event.device_query(),
        Some(DeviceQuery { device_uuid: "dev-1".to_string(), user_uuid: "user-1".to_string() })
    );
}

#[test]
fn suppressed_cipher_event_asks_for_no_device() {
    let mut foreign = cipher();
    foreign.organization_uuid = Some("org-1".to_string());
    let event = PushEvent::CipherUpdate {
        update_type: 0,
        cipher: foreign,
        acting_device_uuid: "dev-1".to_string(),
    };
    assert_eq!(event.device_query(), None);
    assert_eq!(event.envelope(Some(&device())), None);
    let mut unowned = cipher();
    unowned.user_uuid = None;
    let event = PushEvent::CipherUpdate {
        update_type: 0,
        cipher: unowned,
        acting_device_uuid: "dev-1".to_string(),
    };
    assert_eq!(event.device_query(), None);
    assert_eq!(event.envelope(Some(&device())), None);
}

#[test]
fn folder_event_asks_for_the_acting_device_of_the_owner() {
    let event = PushEvent::FolderUpdate {
        update_type: 8,
        folder: folder(),
        acting_device_uuid: "dev-2".to_string(),
    };
    assert_eq!(
        event.device_query(),
        Some(DeviceQuery { device_uuid: "dev-2".to_string(), user_uuid: "user-1".to_string() })
    );
}

#[test]
fn logout_event_asks_for_its_acting_device_only() {
    let event = PushEvent::LogOut { user: user(), acting_device_uuid: Some("dev-3".to_string()) };
    assert_eq!(
        event.device_query(),
        Some(DeviceQuery { device_uuid: "dev-3".to_string(), user_uuid: "user-1".to_string() })
    );
    let event = PushEvent::LogOut { user: user(), acting_device_uuid: None };
    assert_eq!(event.device_query(), None);
}

#[test]
fn broadcast_and_lifecycle_events_ask_for_no_device() {
    assert_eq!(PushEvent::UserUpdate { update_type: 5, user: user() }.device_query(), None);
    assert_eq!(PushEvent::SendUpdate { update_type: 12, send: send() }.device_query(), None);
    let register = PushEvent::DeviceRegister { user_uuid: "user-1".to_string(), device: device() };
    assert_eq!(register.device_query(), None);
    assert_eq!(PushEvent::DeviceUnregister { uuid: "dev-1".to_string() }.device_query(), None);
}

#[test]
fn event_envelope_follows_the_builder_of_its_kind() {
    let acting = "dev-1".to_string();
    let event = PushEvent::CipherUpdate {
        update_type: 0,
        cipher: cipher(),
        acting_device_uuid: acting.clone(),
    };
    assert_eq!(
        event.envelope(Some(&device())),
        cipher_update_envelope(0, &cipher(), &acting, Some(&device()))
    );
    assert_eq!(event.envelope(None), None);
    let event = PushEvent::FolderUpdate {
        update_type: 8,
        folder: folder(),
        acting_device_uuid: acting.clone(),
    };
    assert_eq!(
        event.envelope(Some(&device())),
        folder_update_envelope(8, &folder(), &acting, Some(&device()))
    );
    let event = PushEvent::UserUpdate { update_type: 5, user: user() };
    assert_eq!(event.envelope(None), Some(user_update_envelope(5, &user())));
    let event = PushEvent::SendUpdate { update_type: 12, send: send() };
    assert_eq!(event.envelope(None), send_update_envelope(12, &send()));
    let event = PushEvent::LogOut { user: user(), acting_device_uuid: Some(acting.clone()) };
    assert_eq!(
        event.envelope(Some(&device())),
        logout_envelope(&user(), &Some(acting), Some(&device()))
    );
}

#[test]
fn lifecycle_events_have_no_envelope() {
    let register = PushEvent::DeviceRegister { user_uuid: "user-1".to_string(), device: device() };
    assert_eq!(register.envelope(None), None);
    assert_eq!(PushEvent::DeviceUnregister { uuid: "dev-1".to_string() }.envelope(None), None);
}

#[test]
fn event_becomes_its_call_to_the_relay() {
    let register = PushEvent::DeviceRegister { user_uuid: "user-1".to_string(), device: device() };
    assert_eq!(
        register.relay_call(None),
        Some(RelayCall::Register { user_uuid: "user-1".to_string(), device: device() })
    );
    assert_eq!(
        PushEvent::DeviceUnregister { uuid: "dev-1".to_string() }.relay_call(None),
        Some(RelayCall::Unregister { uuid: "dev-1".to_string() })
    );
    assert_eq!(
        PushEvent::UserUpdate { update_type: 5, user: user() }.relay_call(None),
        Some(RelayCall::Send(user_update_envelope(5, &user())))
    );
    let mut unowned = send();
    unowned.user_uuid = None;
    assert_eq!(PushEvent::SendUpdate { update_type: 12, send: unowned }.relay_call(None), None);
}
