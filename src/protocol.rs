//! Wire protocol: version and method tags, and the message codec.
//!
//! Layout of a message: byte 0 is the protocol version, byte 1 the method
//! tag, the rest is the payload.

use vstd::prelude::*;

verus! {

/// Smallest well-formed message: a version byte and a method byte.
pub const MINIMAL_MESSAGE_LENGTH: usize = 2;

/// Buffer size used on both sides for one message.
pub const MESSAGE_BUFFER_LENGTH: usize = 1024;

/// A byte that names no protocol version.
#[derive(Debug, Clone, Copy, PartialEq, Eq, Structural)]
pub enum VersionError {
    InvalidProtocolVersionCode,
}

/// The protocol versions this build speaks.
#[derive(Debug, Clone, Copy, PartialEq, Eq, Structural)]
pub enum Version {
    V1,
}

/// Tag byte of a version.
pub open spec fn version_tag(v: Version) -> u8 {
    match v {
        Version::V1 => 0x01,
    }
}

impl Version {
    pub fn as_u8(&self) -> (r: u8)
        ensures
            r == version_tag(*self),
    {
        match self {
            Version::V1 => 0x01,
        }
    }

    pub fn try_from_u8(byte: u8) -> (r: Result<Version, VersionError>)
        ensures
            r matches Ok(v) ==> version_of(byte) == Some(v),
            r is Err <==> version_of(byte) is None,
    {
        if byte == 0x01 {
            Ok(Version::V1)
        } else {
            Err(VersionError::InvalidProtocolVersionCode)
        }
    }
}

/// A byte that names no method.
#[derive(Debug, Clone, Copy, PartialEq, Eq, Structural)]
pub enum MethodError {
    InvalidProtocolMethodCode,
}

/// Method tags. `Error` stands for any failure on the appliance's side;
/// the `Get*` tags are queries, which read the configuration only; the
/// others are commands, which change it.
#[derive(Debug, Clone, Copy, PartialEq, Eq, Structural)]
pub enum Method {
    Error,
    GetPing,
    GetIsOn,
    GetCurrentPresetId,
    GetPresetInfo,
    GetSettings,
    GetCurrentPresetSettings,
    GetWifiSettings,
    SetToggle,
    SetTurnOn,
    SetTurnOff,
    SetPreset,
    SetSettings,
    SetWifiSettings,
    SetCurrentPresetSettings,
    SetBrightness,
    SetSpeed,
    SetScale,
    SaveSettings,
}

/// Tag byte of a method: one table for both sides of the wire.
pub open spec fn method_tag(m: Method) -> u8 {
    match m {
        Method::Error => 0x00,
        Method::GetPing => 0x01,
        Method::GetIsOn => 0x02,
        Method::GetCurrentPresetId => 0x03,
        Method::GetPresetInfo => 0x04,
        Method::GetSettings => 0x05,
        Method::GetCurrentPresetSettings => 0x06,
        Method::GetWifiSettings => 0x07,
        Method::SetToggle => 0x08,
        Method::SetTurnOn => 0x09,
        Method::SetTurnOff => 0x0a,
        Method::SetPreset => 0x0b,
        Method::SetSettings => 0x0c,
        Method::SetWifiSettings => 0x0d,
        Method::SetCurrentPresetSettings => 0x0e,
        Method::SetBrightness => 0x0f,
        Method::SetSpeed => 0x10,
        Method::SetScale => 0x11,
        Method::SaveSettings => 0x12,
    }
}

/// What a method's payload may hold besides nothing: a query's request and
/// a command's acknowledgement carry no payload.
#[derive(Debug, Clone, Copy, PartialEq, Eq, Structural)]
pub enum PayloadKind {
    /// Never a payload.
    Empty,
    /// One raw byte.
    Scalar,
    /// UTF-8 structured text of any length.
    Structured,
}

pub open spec fn payload_kind(m: Method) -> PayloadKind {
    match m {
        Method::Error => PayloadKind::Empty,
        Method::GetPing => PayloadKind::Empty,
        Method::GetIsOn => PayloadKind::Scalar,
        Method::GetCurrentPresetId => PayloadKind::Scalar,
        Method::GetPresetInfo => PayloadKind::Structured,
        Method::GetSettings => PayloadKind::Structured,
        Method::GetCurrentPresetSettings => PayloadKind::Structured,
        Method::GetWifiSettings => PayloadKind::Structured,
        Method::SetToggle => PayloadKind::Empty,
        Method::SetTurnOn => PayloadKind::Empty,
        Method::SetTurnOff => PayloadKind::Empty,
        Method::SetPreset => PayloadKind::Scalar,
        Method::SetSettings => PayloadKind::Structured,
        Method::SetWifiSettings => PayloadKind::Structured,
        Method::SetCurrentPresetSettings => PayloadKind::Structured,
        Method::SetBrightness => PayloadKind::Scalar,
        Method::SetSpeed => PayloadKind::Scalar,
        Method::SetScale => PayloadKind::Scalar,
        Method::SaveSettings => PayloadKind::Empty,
    }
}

/// Read-only methods.
pub open spec fn is_query(m: Method) -> bool {
    0x01 <= method_tag(m) <= 0x07
}

/// Mutating methods.
pub open spec fn is_command(m: Method) -> bool {
    0x08 <= method_tag(m) <= 0x12
}

/// Largest method tag in use.
pub const MAX_METHOD_TAG: u8 = 0x12;

impl Method {
    pub fn as_u8(&self) -> (r: u8)
        ensures
            r == method_tag(*self),
    {
        match self {
            Method::Error => 0x00,
            Method::GetPing => 0x01,
            Method::GetIsOn => 0x02,
            Method::GetCurrentPresetId => 0x03,
            Method::GetPresetInfo => 0x04,
            Method::GetSettings => 0x05,
            Method::GetCurrentPresetSettings => 0x06,
            Method::GetWifiSettings => 0x07,
            Method::SetToggle => 0x08,
            Method::SetTurnOn => 0x09,
            Method::SetTurnOff => 0x0a,
            Method::SetPreset => 0x0b,
            Method::SetSettings => 0x0c,
            Method::SetWifiSettings => 0x0d,
            Method::SetCurrentPresetSettings => 0x0e,
            Method::SetBrightness => 0x0f,
            Method::SetSpeed => 0x10,
            Method::SetScale => 0x11,
            Method::SaveSettings => 0x12,
        }
    }

    pub fn try_from_u8(byte: u8) -> (r: Result<Method, MethodError>)
        ensures
            r matches Ok(m) ==> method_tag(m) == byte,
            r is Err <==> byte > MAX_METHOD_TAG,
    {
        match byte {
            0x00 => Ok(Method::Error),
            0x01 => Ok(Method::GetPing),
            0x02 => Ok(Method::GetIsOn),
            0x03 => Ok(Method::GetCurrentPresetId),
            0x04 => Ok(Method::GetPresetInfo),
            0x05 => Ok(Method::GetSettings),
            0x06 => Ok(Method::GetCurrentPresetSettings),
            0x07 => Ok(Method::GetWifiSettings),
            0x08 => Ok(Method::SetToggle),
            0x09 => Ok(Method::SetTurnOn),
            0x0a => Ok(Method::SetTurnOff),
            0x0b => Ok(Method::SetPreset),
            0x0c => Ok(Method::SetSettings),
            0x0d => Ok(Method::SetWifiSettings),
            0x0e => Ok(Method::SetCurrentPresetSettings),
            0x0f => Ok(Method::SetBrightness),
            0x10 => Ok(Method::SetSpeed),
            0x11 => Ok(Method::SetScale),
            0x12 => Ok(Method::SaveSettings),
            _ => Err(MethodError::InvalidProtocolMethodCode),
        }
    }

    pub fn payload_kind(&self) -> (r: PayloadKind)
        ensures
            r == payload_kind(*self),
    {
        match self {
            Method::Error => PayloadKind::Empty,
            Method::GetPing => PayloadKind::Empty,
            Method::GetIsOn => PayloadKind::Scalar,
            Method::GetCurrentPresetId => PayloadKind::Scalar,
            Method::GetPresetInfo => PayloadKind::Structured,
            Method::GetSettings => PayloadKind::Structured,
            Method::GetCurrentPresetSettings => PayloadKind::Structured,
            Method::GetWifiSettings => PayloadKind::Structured,
            Method::SetToggle => PayloadKind::Empty,
            Method::SetTurnOn => PayloadKind::Empty,
            Method::SetTurnOff => PayloadKind::Empty,
            Method::SetPreset => PayloadKind::Scalar,
            Method::SetSettings => PayloadKind::Structured,
            Method::SetWifiSettings => PayloadKind::Structured,
            Method::SetCurrentPresetSettings => PayloadKind::Structured,
            Method::SetBrightness => PayloadKind::Scalar,
            Method::SetSpeed => PayloadKind::Scalar,
            Method::SetScale => PayloadKind::Scalar,
            Method::SaveSettings => PayloadKind::Empty,
        }
    }
}

/// Why a byte sequence is not a message.
#[derive(Debug, Clone, Copy, PartialEq, Eq, Structural)]
pub enum DecodeError {
    /// Fewer than two bytes.
    Truncated,
    UnsupportedVersion,
    UnsupportedMethod,
    /// The payload does not fit the method.
    MalformedPayload,
}

/// One message on the wire.
#[derive(Debug, Clone)]
pub struct Message {
    pub version: Version,
    pub method: Method,
    pub payload: Vec<u8>,
}

/// Mathematical model of a message.
pub struct MessageView {
    pub version: Version,
    pub method: Method,
    pub payload: Seq<u8>,
}

impl View for Message {
    type V = MessageView;

    open spec fn view(&self) -> MessageView {
        MessageView { version: self.version, method: self.method, payload: self.payload@ }
    }
}

/// Whether a payload fits a method.
pub open spec fn payload_fits(m: Method, payload: Seq<u8>) -> bool {
    match payload_kind(m) {
        PayloadKind::Empty => payload.len() == 0,
        PayloadKind::Scalar => payload.len() <= 1,
        PayloadKind::Structured => true,
    }
}

impl MessageView {
    /// A message that can go on the wire.
    pub open spec fn valid(self) -> bool {
        payload_fits(self.method, self.payload)
    }
}

/// The bytes of a message.
pub open spec fn encode_spec(m: MessageView) -> Seq<u8> {
    seq![version_tag(m.version), method_tag(m.method)] + m.payload
}

/// The version a byte names, if any.
pub open spec fn version_of(b: u8) -> Option<Version> {
    if b == 0x01 { Some(Version::V1) } else { None }
}

/// The method a byte names, if any.
pub open spec fn method_of(b: u8) -> Option<Method> {
    if b <= MAX_METHOD_TAG { Some(choose|m: Method| method_tag(m) == b) } else { None }
}

/// What a byte sequence decodes to.
pub open spec fn decode_spec(b: Seq<u8>) -> Result<MessageView, DecodeError> {
    if b.len() < MINIMAL_MESSAGE_LENGTH {
        Err(DecodeError::Truncated)
    } else if version_of(b[0]) is None {
        Err(DecodeError::UnsupportedVersion)
    } else if method_of(b[1]) is None {
        Err(DecodeError::UnsupportedMethod)
    } else if !payload_fits(method_of(b[1])->0, b.subrange(2, b.len() as int)) {
        Err(DecodeError::MalformedPayload)
    } else {
        Ok(
            MessageView {
                version: version_of(b[0])->0,
                method: method_of(b[1])->0,
                payload: b.subrange(2, b.len() as int),
            },
        )
    }
}

/// Distinct methods have distinct tags.
pub proof fn lemma_method_tag_injective(a: Method, b: Method)
    ensures
        method_tag(a) == method_tag(b) ==> a == b,
{
}

/// Every tag in use names a method, and only one.
pub proof fn lemma_method_of_tag(m: Method)
    ensures
        method_of(method_tag(m)) == Some(m),
{
    let b = method_tag(m);
    assert(b <= MAX_METHOD_TAG);
    let c = choose|x: Method| method_tag(x) == b;
    lemma_method_tag_injective(c, m);
}

/// Decoding the bytes of a valid message gives that message back.
pub proof fn lemma_decode_encode(m: MessageView)
    requires
        m.valid(),
    ensures
        decode_spec(encode_spec(m)) == Ok::<MessageView, DecodeError>(m),
{
    let b = encode_spec(m);
    lemma_method_of_tag(m.method);
    assert(version_of(version_tag(m.version)) == Some(m.version)) by {
        match m.version {
            Version::V1 => {},
        }
    }
    assert(b.subrange(2, b.len() as int) =~= m.payload);
}

/// Inputs shorter than two bytes are rejected before anything else is read.
pub proof fn lemma_short_input_rejected(b: Seq<u8>)
    requires
        b.len() < 2,
    ensures
        decode_spec(b) == Err::<MessageView, DecodeError>(DecodeError::Truncated),
{
}

impl Message {
    /// Writes the message out: version byte, method byte, payload.
    pub fn encode(&self) -> (r: Vec<u8>)
        ensures
            r@ == encode_spec(self@),
    {
        let mut r: Vec<u8> = Vec::with_capacity(self.payload.len());
        r.push(self.version.as_u8());
        r.push(self.method.as_u8());
        let mut i: usize = 0;
        while i < self.payload.len()
            invariant
                i <= self.payload.len(),
                r@ == seq![version_tag(self.version), method_tag(self.method)]
                    + self.payload@.subrange(0, i as int),
            decreases self.payload.len() - i,
        {
            r.push(self.payload[i]);
            i += 1;
            assert(self.payload@.subrange(0, i as int) =~= self.payload@.subrange(0, i - 1)
                .push(self.payload@[i - 1]));
        }
        assert(self.payload@.subrange(0, i as int) =~= self.payload@);
        r
    }

    /// Reads a message from bytes.
    pub fn decode(bytes: &[u8]) -> (r: Result<Message, DecodeError>)
        ensures
            match (r, decode_spec(bytes@)) {
                (Ok(m), Ok(v)) => m@ == v,
                (Err(e), Err(f)) => e == f,
                _ => false,
            },
    {
        if bytes.len() < MINIMAL_MESSAGE_LENGTH {
            return Err(DecodeError::Truncated);
        }
        let version = match Version::try_from_u8(bytes[0]) {
            Ok(v) => v,
            Err(_) => return Err(DecodeError::UnsupportedVersion),
        };
        let method = match Method::try_from_u8(bytes[1]) {
            Ok(m) => m,
            Err(_) => return Err(DecodeError::UnsupportedMethod),
        };
        proof {
            lemma_method_of_tag(method);
        }
        let len = bytes.len() - 2;
        let fits = match method.payload_kind() {
            PayloadKind::Empty => len == 0,
            PayloadKind::Scalar => len <= 1,
            PayloadKind::Structured => true,
        };
        if !fits {
            return Err(DecodeError::MalformedPayload);
        }
        let mut payload: Vec<u8> = Vec::with_capacity(len);
        let mut i: usize = 2;
        while i < bytes.len()
            invariant
                2 <= i <= bytes.len(),
                payload@ == bytes@.subrange(2, i as int),
            decreases bytes.len() - i,
        {
            payload.push(bytes[i]);
            i += 1;
            assert(bytes@.subrange(2, i as int) =~= bytes@.subrange(2, i - 1).push(bytes@[i - 1]));
        }
        Ok(Message { version, method, payload })
    }
}

} // verus!
