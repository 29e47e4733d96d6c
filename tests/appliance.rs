use sl1_core::config::{DeviceSettings, DeviceWifiSettings, PresetId, PresetSettings, PRESET_COUNT};
use sl1_core::dispatcher::{
    reply_message, ClientMessage, Dispatcher, GetClientMessage, QueryAnswer, RequestError,
    SetClientMessage, StructuredValue,
};
use sl1_core::protocol::{Message, Method, Version};
use sl1_core::scheduler::{RenderState, Renderer};
use sl1_core::store::{init_settings_storage, is_blank, load, StorageError, RECORD_LEN};

fn boot() -> Dispatcher {
    Dispatcher::new(DeviceSettings::default_settings())
}

fn apply(d: &mut Dispatcher, c: SetClientMessage) -> Method {
    let plan = d.plan(c);
    d.complete(plan, true)
}

fn active(d: &Dispatcher) -> PresetSettings {
    match d.query(GetClientMessage::CurrentPresetSettings) {
        QueryAnswer::CurrentPresetSettings(p) => p,
        _ => panic!("wrong answer"),
    }
}

#[test]
fn preset_id_bounds() {
    for p in 0..PRESET_COUNT {
        assert_eq!(PresetId::new_fallible(p).unwrap().id(), p);
    }
    assert!(PresetId::new_fallible(PRESET_COUNT).is_err());
    assert!(PresetId::new_fallible(255).is_err());
}

#[test]
fn set_brightness_then_query_every_value() {
    for v in 0..=255u8 {
        let mut d = boot();
        let plan = d.plan(SetClientMessage::Brightness(v));
        let record = plan.record.clone();
        assert_eq!(d.complete(plan, true), Method::SetBrightness);
        assert_eq!(active(&d).brightness(), v);
        let stored = load(&record).unwrap();
        assert_eq!(stored.active_preset_settings().brightness(), v);
    }
}

#[test]
fn failed_persist_changes_nothing() {
    let mut d = boot();
    let before = active(&d);
    let plan = d.plan(SetClientMessage::Brightness(7));
    assert_eq!(d.complete(plan, false), Method::Error);
    assert_eq!(active(&d), before);
    assert_eq!(d.epoch(), 0);
}

#[test]
fn settings_replace_is_all_or_nothing() {
    let mut d = boot();
    let wifi = DeviceWifiSettings::new(b"home".to_vec(), b"secret".to_vec()).unwrap();
    let presets = vec![PresetSettings::new(1, 2, 3); 4];
    let new = DeviceSettings::new(wifi, presets, PresetId::new_fallible(2).unwrap(), false).unwrap();
    let plan = d.plan(SetClientMessage::Settings(new));
    assert!(plan.restart);
    // Before the persist step completes, queries still see the old settings.
    assert_eq!(d.settings().current_preset_id(), 1);
    assert!(d.settings().is_on());
    assert_eq!(d.complete(plan, true), Method::SetSettings);
    assert_eq!(d.settings().current_preset_id(), 2);
    assert!(!d.settings().is_on());
    assert_eq!(active(&d), PresetSettings::new(1, 2, 3));
    assert_eq!(d.settings().wifi_settings().ssid(), &b"home".to_vec());
}

#[test]
fn speed_then_brightness_keeps_both() {
    let mut d = boot();
    assert_eq!(apply(&mut d, SetClientMessage::Speed(9)), Method::SetSpeed);
    assert_eq!(apply(&mut d, SetClientMessage::Brightness(201)), Method::SetBrightness);
    assert_eq!(active(&d), PresetSettings::new(201, 9, 0));
    assert_eq!(d.epoch(), 2);
}

#[test]
fn commands_change_cache() {
    let mut d = boot();
    apply(&mut d, SetClientMessage::Toggle);
    assert!(!d.settings().is_on());
    apply(&mut d, SetClientMessage::TurnOn);
    assert!(d.settings().is_on());
    apply(&mut d, SetClientMessage::TurnOff);
    assert!(!d.settings().is_on());
    apply(&mut d, SetClientMessage::Preset(PresetId::new_fallible(3).unwrap()));
    assert_eq!(d.settings().current_preset_id(), 3);
    apply(&mut d, SetClientMessage::Scale(44));
    assert_eq!(active(&d).scale(), 44);
    apply(&mut d, SetClientMessage::CurrentPresetSettings(PresetSettings::new(5, 6, 7)));
    assert_eq!(active(&d), PresetSettings::new(5, 6, 7));
    assert_eq!(d.settings().preset_settings()[0], PresetSettings::default());
}

#[test]
fn requests_from_messages() {
    let m = Message { version: Version::V1, method: Method::SetBrightness, payload: vec![9] };
    assert!(matches!(
        ClientMessage::from_message(&m, None),
        Ok(ClientMessage::Command(SetClientMessage::Brightness(9)))
    ));
    let m = Message { version: Version::V1, method: Method::SetBrightness, payload: vec![] };
    assert_eq!(ClientMessage::from_message(&m, None).unwrap_err(), RequestError::MissingArgument);
    let m = Message { version: Version::V1, method: Method::SetPreset, payload: vec![4] };
    assert_eq!(ClientMessage::from_message(&m, None).unwrap_err(), RequestError::InvalidPresetId);
    let m = Message { version: Version::V1, method: Method::Error, payload: vec![] };
    assert_eq!(ClientMessage::from_message(&m, None).unwrap_err(), RequestError::NotARequest);
    let m = Message { version: Version::V1, method: Method::SetSettings, payload: b"{".to_vec() };
    assert_eq!(ClientMessage::from_message(&m, None).unwrap_err(), RequestError::MalformedPayload);
    let m = Message { version: Version::V1, method: Method::SetCurrentPresetSettings, payload: vec![] };
    let parsed = Some(StructuredValue::PresetSettings(PresetSettings::new(1, 1, 1)));
    assert!(ClientMessage::from_message(&m, parsed).is_ok());
    let m = Message { version: Version::V1, method: Method::GetIsOn, payload: vec![] };
    assert!(matches!(
        ClientMessage::from_message(&m, None),
        Ok(ClientMessage::Query(GetClientMessage::IsOn))
    ));
}

#[test]
fn answers_encode() {
    let d = boot();
    let a = d.query(GetClientMessage::IsOn);
    assert_eq!(a.to_message(vec![]).encode(), vec![0x01, 0x02, 0x01]);
    let a = d.query(GetClientMessage::CurrentPresetId);
    assert_eq!(a.to_message(vec![]).encode(), vec![0x01, 0x03, 0x01]);
    let a = d.query(GetClientMessage::PresetInfo);
    assert_eq!(a.to_message(b"[]".to_vec()).encode(), vec![0x01, 0x04, b'[', b']']);
    assert_eq!(reply_message(Method::Error).encode(), vec![0x01, 0x00]);
}

#[test]
fn blank_region_gets_defaults() {
    let region = vec![0xffu8; RECORD_LEN];
    assert!(is_blank(&region));
    let written = init_settings_storage(&region).unwrap();
    assert_eq!(written.len(), RECORD_LEN);
    let s = load(&written).unwrap();
    assert_eq!(s.current_preset_id(), 1);
    assert!(s.is_on());
    assert_eq!(s.preset_settings().len(), 4);
    assert_eq!(s.active_preset_settings(), PresetSettings::new(50, 255, 0));
    assert!(init_settings_storage(&written).is_none());
}

#[test]
fn record_round_trip_and_corruption() {
    let wifi = DeviceWifiSettings::new(b"net".to_vec(), b"pw".to_vec()).unwrap();
    let presets = vec![
        PresetSettings::new(1, 2, 3),
        PresetSettings::new(4, 5, 6),
        PresetSettings::new(7, 8, 9),
        PresetSettings::new(10, 11, 12),
    ];
    let s = DeviceSettings::new(wifi, presets, PresetId::new_fallible(3).unwrap(), false).unwrap();
    let rec = s.to_record();
    assert_eq!(rec.len(), RECORD_LEN);
    assert_eq!(&rec[0..5], &[0x01, 3, b'n', b'e', b't']);
    let back = load(&rec).unwrap();
    assert_eq!(back.preset_settings(), s.preset_settings());
    assert_eq!(back.current_preset_id(), 3);
    assert!(!back.is_on());
    assert_eq!(back.wifi_settings().password(), &b"pw".to_vec());
    let mut bad = rec.clone();
    bad[0] = 0x02;
    assert_eq!(load(&bad).unwrap_err(), StorageError::CorruptRecord);
    let mut bad = rec.clone();
    bad[111] = 4;
    assert_eq!(load(&bad).unwrap_err(), StorageError::CorruptRecord);
    assert_eq!(load(&rec[..10]).unwrap_err(), StorageError::CorruptRecord);
    assert!(DeviceWifiSettings::new(vec![b'a'; 33], vec![]).is_err());
}

#[test]
fn renderer_follows_epoch() {
    let mut d = boot();
    let mut r = Renderer::new(d.epoch(), d.settings());
    assert!(matches!(r.state(), RenderState::Rendering(p) if p.id() == 1));
    assert!(!r.check(d.epoch(), d.settings()));
    assert_eq!(r.frame(), 1);
    apply(&mut d, SetClientMessage::Preset(PresetId::new_fallible(2).unwrap()));
    assert!(r.check(d.epoch(), d.settings()));
    assert!(matches!(r.state(), RenderState::Rendering(p) if p.id() == 2));
    assert_eq!(r.frame(), 0);
    apply(&mut d, SetClientMessage::TurnOff);
    assert!(r.check(d.epoch(), d.settings()));
    assert_eq!(r.state(), RenderState::Idle);
}
