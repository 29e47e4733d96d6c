use sl1_core::protocol::{DecodeError, Message, Method, Version};

fn msg(method: Method, payload: Vec<u8>) -> Message {
    Message { version: Version::V1, method, payload }
}

#[test]
fn encode_lays_out_version_method_payload() {
    let m = msg(Method::SetBrightness, vec![200]);
    assert_eq!(m.encode(), vec![0x01, 0x0f, 200]);
    let m = msg(Method::GetPing, vec![]);
    assert_eq!(m.encode(), vec![0x01, 0x01]);
}

#[test]
fn decode_encode_round_trip() {
    let cases = vec![
        msg(Method::Error, vec![]),
        msg(Method::GetPing, vec![]),
        msg(Method::GetIsOn, vec![1]),
        msg(Method::SetPreset, vec![3]),
        msg(Method::SetSettings, b"{\"is_on\":true}".to_vec()),
        msg(Method::SaveSettings, vec![]),
        msg(Method::GetWifiSettings, vec![]),
    ];
    for m in cases {
        let d = Message::decode(&m.encode()).unwrap();
        assert_eq!(d.version, m.version);
        assert_eq!(d.method, m.method);
        assert_eq!(d.payload, m.payload);
    }
}

#[test]
fn decode_rejects_short_input() {
    assert_eq!(Message::decode(&[]).unwrap_err(), DecodeError::Truncated);
    assert_eq!(Message::decode(&[0x01]).unwrap_err(), DecodeError::Truncated);
    assert_eq!(Message::decode(&[0xff]).unwrap_err(), DecodeError::Truncated);
}

#[test]
fn decode_error_kinds() {
    assert_eq!(Message::decode(&[0x02, 0x01]).unwrap_err(), DecodeError::UnsupportedVersion);
    assert_eq!(Message::decode(&[0x01, 0x13]).unwrap_err(), DecodeError::UnsupportedMethod);
    assert_eq!(Message::decode(&[0x01, 0x01, 0x00]).unwrap_err(), DecodeError::MalformedPayload);
    assert_eq!(Message::decode(&[0x01, 0x0f, 1, 2]).unwrap_err(), DecodeError::MalformedPayload);
}

#[test]
fn method_table_is_stable() {
    assert_eq!(Method::try_from_u8(0x0e).unwrap(), Method::SetCurrentPresetSettings);
    assert_eq!(Method::try_from_u8(0x06).unwrap(), Method::GetCurrentPresetSettings);
    assert_eq!(Method::try_from_u8(0x12).unwrap(), Method::SaveSettings);
    for b in 0u8..=0x12 {
        assert_eq!(Method::try_from_u8(b).unwrap().as_u8(), b);
    }
    assert!(Method::try_from_u8(0x13).is_err());
    assert_eq!(Version::try_from_u8(1).unwrap().as_u8(), 1);
    assert!(Version::try_from_u8(0).is_err());
}
