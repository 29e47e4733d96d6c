//! Client side of a session with one appliance: requests written as
//! messages, and responses read back from them.

use vstd::prelude::*;
use crate::config::{DeviceSettings, DeviceWifiSettings, PresetSettings};
use crate::discovery::Device;
use crate::protocol::{
    DecodeError, Message, MessageView, Method, Version, decode_spec, encode_spec, method_tag,
};

verus! {

/// Queries a client sends.
#[derive(Debug, Clone, Copy, PartialEq, Eq, Structural)]
pub enum GetRequest {
    Ping,
    IsOn,
    CurrentPresetId,
    PresetInfo,
    Settings,
    WifiSettings,
    CurrentPresetSettings,
}

/// Commands a client sends.
#[derive(Debug, Clone)]
pub enum SetRequest {
    Toggle,
    TurnOn,
    TurnOff,
    Preset(u8),
    Settings(DeviceSettings),
    WifiSettings(DeviceWifiSettings),
    CurrentPresetSettings(PresetSettings),
    Brightness(u8),
    Speed(u8),
    Scale(u8),
    SaveSettings,
}

pub open spec fn get_request_method(r: GetRequest) -> Method {
    match r {
        GetRequest::Ping => Method::GetPing,
        GetRequest::IsOn => Method::GetIsOn,
        GetRequest::CurrentPresetId => Method::GetCurrentPresetId,
        GetRequest::PresetInfo => Method::GetPresetInfo,
        GetRequest::Settings => Method::GetSettings,
        GetRequest::WifiSettings => Method::GetWifiSettings,
        GetRequest::CurrentPresetSettings => Method::GetCurrentPresetSettings,
    }
}

pub open spec fn set_request_method(r: SetRequest) -> Method {
    match r {
        SetRequest::Toggle => Method::SetToggle,
        SetRequest::TurnOn => Method::SetTurnOn,
        SetRequest::TurnOff => Method::SetTurnOff,
        SetRequest::Preset(_) => Method::SetPreset,
        SetRequest::Settings(_) => Method::SetSettings,
        SetRequest::WifiSettings(_) => Method::SetWifiSettings,
        SetRequest::CurrentPresetSettings(_) => Method::SetCurrentPresetSettings,
        SetRequest::Brightness(_) => Method::SetBrightness,
        SetRequest::Speed(_) => Method::SetSpeed,
        SetRequest::Scale(_) => Method::SetScale,
        SetRequest::SaveSettings => Method::SaveSettings,
    }
}

/// Payload of a command; `text` is the caller's rendering of a structured
/// argument.
pub open spec fn set_request_payload(r: SetRequest, text: Seq<u8>) -> Seq<u8> {
    match r {
        SetRequest::Preset(v) => seq![v],
        SetRequest::Brightness(v) => seq![v],
        SetRequest::Speed(v) => seq![v],
        SetRequest::Scale(v) => seq![v],
        SetRequest::Settings(_) => text,
        SetRequest::WifiSettings(_) => text,
        SetRequest::CurrentPresetSettings(_) => text,
        _ => Seq::empty(),
    }
}

impl GetRequest {
    pub fn method(&self) -> (r: Method)
        ensures
            r == get_request_method(*self),
    {
        match self {
            GetRequest::Ping => Method::GetPing,
            GetRequest::IsOn => Method::GetIsOn,
            GetRequest::CurrentPresetId => Method::GetCurrentPresetId,
            GetRequest::PresetInfo => Method::GetPresetInfo,
            GetRequest::Settings => Method::GetSettings,
            GetRequest::WifiSettings => Method::GetWifiSettings,
            GetRequest::CurrentPresetSettings => Method::GetCurrentPresetSettings,
        }
    }

    pub fn to_u8(&self) -> (r: u8)
        ensures
            r == method_tag(get_request_method(*self)),
    {
        self.method().as_u8()
    }

    /// The request as a message: a query carries no payload.
    pub fn to_message(&self) -> (r: Message)
        ensures
            r@.valid(),
            r.version == Version::V1,
            r.method == get_request_method(*self),
            r.payload@.len() == 0,
    {
        Message { version: Version::V1, method: self.method(), payload: Vec::new() }
    }
}

impl SetRequest {
    pub fn method(&self) -> (r: Method)
        ensures
            r == set_request_method(*self),
    {
        match self {
            SetRequest::Toggle => Method::SetToggle,
            SetRequest::TurnOn => Method::SetTurnOn,
            SetRequest::TurnOff => Method::SetTurnOff,
            SetRequest::Preset(_) => Method::SetPreset,
            SetRequest::Settings(_) => Method::SetSettings,
            SetRequest::WifiSettings(_) => Method::SetWifiSettings,
            SetRequest::CurrentPresetSettings(_) => Method::SetCurrentPresetSettings,
            SetRequest::Brightness(_) => Method::SetBrightness,
            SetRequest::Speed(_) => Method::SetSpeed,
            SetRequest::Scale(_) => Method::SetScale,
            SetRequest::SaveSettings => Method::SaveSettings,
        }
    }

    pub fn to_u8(&self) -> (r: u8)
        ensures
            r == method_tag(set_request_method(*self)),
    {
        self.method().as_u8()
    }

    /// The command as a message. A scalar argument is the payload's one
    /// byte; a structured one travels as `text`, the caller's rendering of
    /// it, which is not used otherwise.
    pub fn to_message(&self, text: Vec<u8>) -> (r: Message)
        ensures
            r@.valid(),
            r.version == Version::V1,
            r.method == set_request_method(*self),
            r.payload@ == set_request_payload(*self, text@),
    {
        let payload = match self {
            SetRequest::Preset(v) => vec![*v],
            SetRequest::Brightness(v) => vec![*v],
            SetRequest::Speed(v) => vec![*v],
            SetRequest::Scale(v) => vec![*v],
            SetRequest::Settings(_) => text,
            SetRequest::WifiSettings(_) => text,
            SetRequest::CurrentPresetSettings(_) => text,
            _ => Vec::new(),
        };
        proof {
            assert(payload@ =~= set_request_payload(*self, text@));
        }
        Message { version: Version::V1, method: self.method(), payload }
    }
}

/// Acknowledgements of commands.
#[derive(Debug, Clone, Copy, PartialEq, Eq, Structural)]
pub enum DeviceSetResponse {
    Toggle,
    TurnOn,
    TurnOff,
    Preset,
    Settings,
    WifiSettings,
    CurrentPresetSettings,
    Brightness,
    Speed,
    Scale,
    SaveSettings,
}

/// Answers to queries; a structured answer is the text the appliance sent.
#[derive(Debug, Clone)]
pub enum DeviceGetResponse {
    Ping,
    IsOn(bool),
    CurrentPresetId(u8),
    PresetInfo(Vec<u8>),
    Settings(Vec<u8>),
    CurrentPresetSettings(Vec<u8>),
    WifiSettings(Vec<u8>),
}

/// A response from the appliance.
#[derive(Debug, Clone)]
pub enum DeviceResponse {
    Error,
    Query(DeviceGetResponse),
    Command(DeviceSetResponse),
}

/// Why bytes from the appliance are not a response.
#[derive(Debug, Clone, Copy, PartialEq, Eq, Structural)]
pub enum ResponseError {
    Decode(DecodeError),
    /// A scalar answer without its byte.
    MissingValue,
}

pub open spec fn set_response_method(r: DeviceSetResponse) -> Method {
    match r {
        DeviceSetResponse::Toggle => Method::SetToggle,
        DeviceSetResponse::TurnOn => Method::SetTurnOn,
        DeviceSetResponse::TurnOff => Method::SetTurnOff,
        DeviceSetResponse::Preset => Method::SetPreset,
        DeviceSetResponse::Settings => Method::SetSettings,
        DeviceSetResponse::WifiSettings => Method::SetWifiSettings,
        DeviceSetResponse::CurrentPresetSettings => Method::SetCurrentPresetSettings,
        DeviceSetResponse::Brightness => Method::SetBrightness,
        DeviceSetResponse::Speed => Method::SetSpeed,
        DeviceSetResponse::Scale => Method::SetScale,
        DeviceSetResponse::SaveSettings => Method::SaveSettings,
    }
}

/// Whether `r` is the response that message `m` holds.
pub open spec fn response_matches(m: MessageView, r: DeviceResponse) -> bool {
    match r {
        DeviceResponse::Error => m.method == Method::Error,
        DeviceResponse::Command(a) => set_response_method(a) == m.method,
        DeviceResponse::Query(q) => match q {
            DeviceGetResponse::Ping => m.method == Method::GetPing,
            DeviceGetResponse::IsOn(b) => m.method == Method::GetIsOn && b == (m.payload[0] != 0),
            DeviceGetResponse::CurrentPresetId(id) => m.method == Method::GetCurrentPresetId && id
                == m.payload[0],
            DeviceGetResponse::PresetInfo(t) => m.method == Method::GetPresetInfo && t@
                == m.payload,
            DeviceGetResponse::Settings(t) => m.method == Method::GetSettings && t@ == m.payload,
            DeviceGetResponse::CurrentPresetSettings(t) => m.method
                == Method::GetCurrentPresetSettings && t@ == m.payload,
            DeviceGetResponse::WifiSettings(t) => m.method == Method::GetWifiSettings && t@
                == m.payload,
        },
    }
}

/// A scalar answer that came without its byte.
pub open spec fn missing_value(m: MessageView) -> bool {
    (m.method == Method::GetIsOn || m.method == Method::GetCurrentPresetId) && m.payload.len() == 0
}

impl DeviceResponse {
    /// Reads a response from a decoded message.
    pub fn from_message(m: Message) -> (r: Result<DeviceResponse, ResponseError>)
        ensures
            r is Err <==> missing_value(m@),
            r matches Ok(resp) ==> response_matches(m@, resp),
            r matches Err(e) ==> e == ResponseError::MissingValue,
    {
        let method = m.method;
        let payload = m.payload;
        if (method == Method::GetIsOn || method == Method::GetCurrentPresetId) && payload.len()
            == 0 {
            return Err(ResponseError::MissingValue);
        }
        let r = match method {
            Method::Error => DeviceResponse::Error,
            Method::GetPing => DeviceResponse::Query(DeviceGetResponse::Ping),
            Method::GetIsOn => DeviceResponse::Query(DeviceGetResponse::IsOn(payload[0] != 0)),
            Method::GetCurrentPresetId => DeviceResponse::Query(
                DeviceGetResponse::CurrentPresetId(payload[0]),
            ),
            Method::GetPresetInfo => DeviceResponse::Query(DeviceGetResponse::PresetInfo(payload)),
            Method::GetSettings => DeviceResponse::Query(DeviceGetResponse::Settings(payload)),
            Method::GetCurrentPresetSettings => DeviceResponse::Query(
                DeviceGetResponse::CurrentPresetSettings(payload),
            ),
            Method::GetWifiSettings => DeviceResponse::Query(
                DeviceGetResponse::WifiSettings(payload),
            ),
            Method::SetToggle => DeviceResponse::Command(DeviceSetResponse::Toggle),
            Method::SetTurnOn => DeviceResponse::Command(DeviceSetResponse::TurnOn),
            Method::SetTurnOff => DeviceResponse::Command(DeviceSetResponse::TurnOff),
            Method::SetPreset => DeviceResponse::Command(DeviceSetResponse::Preset),
            Method::SetSettings => DeviceResponse::Command(DeviceSetResponse::Settings),
            Method::SetWifiSettings => DeviceResponse::Command(DeviceSetResponse::WifiSettings),
            Method::SetCurrentPresetSettings => DeviceResponse::Command(
                DeviceSetResponse::CurrentPresetSettings,
            ),
            Method::SetBrightness => DeviceResponse::Command(DeviceSetResponse::Brightness),
            Method::SetSpeed => DeviceResponse::Command(DeviceSetResponse::Speed),
            Method::SetScale => DeviceResponse::Command(DeviceSetResponse::Scale),
            Method::SaveSettings => DeviceResponse::Command(DeviceSetResponse::SaveSettings),
        };
        Ok(r)
    }

    /// Reads a response from the bytes that came back.
    pub fn from_bytes(bytes: &[u8]) -> (r: Result<DeviceResponse, ResponseError>)
        ensures
            decode_spec(bytes@) matches Err(e) ==> r == Err::<DeviceResponse, ResponseError>(
                ResponseError::Decode(e),
            ),
            decode_spec(bytes@) matches Ok(m) ==> {
                &&& r is Err <==> missing_value(m)
                &&& r matches Ok(resp) ==> response_matches(m, resp)
                &&& r matches Err(e) ==> e == ResponseError::MissingValue
            },
    {
        match Message::decode(bytes) {
            Ok(m) => DeviceResponse::from_message(m),
            Err(e) => Err(ResponseError::Decode(e)),
        }
    }
}

/// Why one request of a session came to nothing. None of them ends the
/// session.
#[derive(Debug, Clone, Copy, PartialEq, Eq, Structural)]
pub enum SessionError {
    /// No appliance address was set.
    NoDevice,
    /// No response came in time.
    Timeout,
    /// The response could not be read.
    Response(ResponseError),
}

/// A client's channel to one appliance.
#[derive(Debug, Clone, Copy)]
pub struct Session {
    device: Option<Device>,
}

impl Session {
    pub closed spec fn device_spec(self) -> Option<Device> {
        self.device
    }

    /// A session with no appliance yet.
    pub fn new() -> (r: Session)
        ensures
            r.device_spec() is None,
    {
        Session { device: None }
    }

    /// A session with the appliance a preferences file or a scan named.
    pub fn with_device(device: Device) -> (r: Session)
        ensures
            r.device_spec() == Some(device),
    {
        Session { device: Some(device) }
    }

    /// Points the session at another appliance.
    pub fn set_device_addr(&mut self, device: Device)
        ensures
            final(self).device_spec() == Some(device),
    {
        self.device = Some(device);
    }

    pub fn device(&self) -> (r: Option<Device>)
        ensures
            r == self.device_spec(),
    {
        self.device
    }

    /// Where a query goes, and its bytes.
    pub fn prepare_get(&self, request: GetRequest) -> (r: Result<(Device, Vec<u8>), SessionError>)
        ensures
            self.device_spec() is None ==> r == Err::<(Device, Vec<u8>), SessionError>(
                SessionError::NoDevice,
            ),
            self.device_spec() matches Some(d) ==> r matches Ok((to, bytes)) && to == d
                && bytes@ == encode_spec(
                MessageView {
                    version: Version::V1,
                    method: get_request_method(request),
                    payload: Seq::empty(),
                },
            ),
    {
        match self.device {
            None => Err(SessionError::NoDevice),
            Some(d) => {
                let m = request.to_message();
                let bytes = m.encode();
                assert(m.payload@ =~= Seq::<u8>::empty());
                Ok((d, bytes))
            },
        }
    }

    /// Where a command goes, and its bytes; `text` is the caller's
    /// rendering of a structured argument.
    pub fn prepare_set(&self, request: &SetRequest, text: Vec<u8>) -> (r: Result<
        (Device, Vec<u8>),
        SessionError,
    >)
        ensures
            self.device_spec() is None ==> r == Err::<(Device, Vec<u8>), SessionError>(
                SessionError::NoDevice,
            ),
            self.device_spec() matches Some(d) ==> r matches Ok((to, bytes)) && to == d
                && bytes@ == encode_spec(
                MessageView {
                    version: Version::V1,
                    method: set_request_method(*request),
                    payload: set_request_payload(*request, text@),
                },
            ),
    {
        match self.device {
            None => Err(SessionError::NoDevice),
            Some(d) => {
                let m = request.to_message(text);
                Ok((d, m.encode()))
            },
        }
    }

    /// What came of one request: the bytes received in time, or `None`
    /// where the wait ran out.
    pub fn finish(&self, reply: Option<Vec<u8>>) -> (r: Result<DeviceResponse, SessionError>)
        ensures
            reply is None ==> r == Err::<DeviceResponse, SessionError>(SessionError::Timeout),
            reply matches Some(b) ==> match decode_spec(b@) {
                Err(e) => r == Err::<DeviceResponse, SessionError>(
                    SessionError::Response(ResponseError::Decode(e)),
                ),
                Ok(m) => {
                    &&& r is Err <==> missing_value(m)
                    &&& r matches Ok(resp) ==> response_matches(m, resp)
                    &&& r matches Err(e) ==> e == SessionError::Response(
                        ResponseError::MissingValue,
                    )
                },
            },
    {
        match reply {
            None => Err(SessionError::Timeout),
            Some(b) => match DeviceResponse::from_bytes(b.as_slice()) {
                Ok(resp) => Ok(resp),
                Err(e) => Err(SessionError::Response(e)),
            },
        }
    }
}

} // verus!
