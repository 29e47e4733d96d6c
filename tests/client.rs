use sl1_core::config::PresetSettings;
use sl1_core::discovery::{Device, HostAddr};
use sl1_core::protocol::DecodeError;
use sl1_core::session::{
    DeviceGetResponse, DeviceResponse, DeviceSetResponse, GetRequest, ResponseError, SetRequest,
    Session, SessionError,
};

#[test]
fn request_tags() {
    assert_eq!(GetRequest::Ping.to_u8(), 0x01);
    assert_eq!(GetRequest::CurrentPresetSettings.to_u8(), 0x06);
    assert_eq!(GetRequest::WifiSettings.to_u8(), 0x07);
    assert_eq!(SetRequest::Toggle.to_u8(), 0x08);
    assert_eq!(SetRequest::SaveSettings.to_u8(), 0x12);
    assert_eq!(SetRequest::Scale(1).to_u8(), 0x11);
}

#[test]
fn requests_encode() {
    assert_eq!(GetRequest::IsOn.to_message().encode(), vec![0x01, 0x02]);
    assert_eq!(SetRequest::Brightness(77).to_message(vec![]).encode(), vec![0x01, 0x0f, 77]);
    let p = SetRequest::CurrentPresetSettings(PresetSettings::new(1, 2, 3));
    assert_eq!(p.to_message(b"{}".to_vec()).encode(), vec![0x01, 0x0e, b'{', b'}']);
    assert_eq!(SetRequest::TurnOn.to_message(b"x".to_vec()).encode(), vec![0x01, 0x09]);
}

#[test]
fn responses_decode() {
    assert!(matches!(DeviceResponse::from_bytes(&[1, 0]), Ok(DeviceResponse::Error)));
    assert!(matches!(
        DeviceResponse::from_bytes(&[1, 2, 0]),
        Ok(DeviceResponse::Query(DeviceGetResponse::IsOn(false)))
    ));
    assert!(matches!(
        DeviceResponse::from_bytes(&[1, 3, 2]),
        Ok(DeviceResponse::Query(DeviceGetResponse::CurrentPresetId(2)))
    ));
    assert!(matches!(
        DeviceResponse::from_bytes(&[1, 0x0f]),
        Ok(DeviceResponse::Command(DeviceSetResponse::Brightness))
    ));
    match DeviceResponse::from_bytes(&[1, 5, b'{', b'}']) {
        Ok(DeviceResponse::Query(DeviceGetResponse::Settings(t))) => assert_eq!(t, b"{}".to_vec()),
        _ => panic!("expected settings text"),
    }
    assert_eq!(DeviceResponse::from_bytes(&[1, 2]).unwrap_err(), ResponseError::MissingValue);
    assert_eq!(
        DeviceResponse::from_bytes(&[1]).unwrap_err(),
        ResponseError::Decode(DecodeError::Truncated)
    );
}

#[test]
fn session_needs_a_device() {
    let mut s = Session::new();
    assert_eq!(s.prepare_get(GetRequest::Ping).unwrap_err(), SessionError::NoDevice);
    let d = Device::new(HostAddr::V4(0x7f00_0001), 30462);
    s.set_device_addr(d);
    assert_eq!(s.device(), Some(d));
    let (to, bytes) = s.prepare_get(GetRequest::Ping).unwrap();
    assert_eq!(to, d);
    assert_eq!(bytes, vec![0x01, 0x01]);
    let (_, bytes) = s.prepare_set(&SetRequest::Speed(3), vec![]).unwrap();
    assert_eq!(bytes, vec![0x01, 0x10, 3]);
}

#[test]
fn session_outcomes() {
    let s = Session::with_device(Device::new(HostAddr::V4(1), 1));
    assert_eq!(s.finish(None).unwrap_err(), SessionError::Timeout);
    assert_eq!(
        s.finish(Some(vec![9, 9])).unwrap_err(),
        SessionError::Response(ResponseError::Decode(DecodeError::UnsupportedVersion))
    );
    assert!(matches!(
        s.finish(Some(vec![1, 0x08])),
        Ok(DeviceResponse::Command(DeviceSetResponse::Toggle))
    ));
    // The session is still usable after errors.
    assert!(s.prepare_get(GetRequest::IsOn).is_ok());
}
