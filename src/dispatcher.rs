//! The appliance's request dispatcher: typed requests read from messages,
//! queries answered from the configuration cache, and commands carried out
//! as persist-then-acknowledge steps.

use vstd::prelude::*;
use crate::config::{
    DeviceSettings, DeviceWifiSettings, PresetId, PresetSettings, SettingsView, PRESET_COUNT,
};
use crate::protocol::{Message, MessageView, Method, Version, method_tag};
use crate::store::record_spec;

verus! {

/// Read-only requests.
#[derive(Debug, Clone, Copy, PartialEq, Eq, Structural)]
pub enum GetClientMessage {
    Ping,
    IsOn,
    CurrentPresetId,
    PresetInfo,
    Settings,
    WifiSettings,
    CurrentPresetSettings,
}

/// Mutating requests.
#[derive(Debug, Clone)]
pub enum SetClientMessage {
    Toggle,
    TurnOn,
    TurnOff,
    Preset(PresetId),
    Settings(DeviceSettings),
    WifiSettings(DeviceWifiSettings),
    CurrentPresetSettings(PresetSettings),
    Brightness(u8),
    Speed(u8),
    Scale(u8),
    SaveSettings,
}

/// A request read from a message.
#[derive(Debug, Clone)]
pub enum ClientMessage {
    Query(GetClientMessage),
    Command(SetClientMessage),
}

/// A structured payload, as the caller parsed it from the message's text.
#[derive(Debug, Clone)]
pub enum StructuredValue {
    Settings(DeviceSettings),
    WifiSettings(DeviceWifiSettings),
    PresetSettings(PresetSettings),
}

/// Why a message is not a request the appliance carries out.
#[derive(Debug, Clone, Copy, PartialEq, Eq, Structural)]
pub enum RequestError {
    /// The message is an error response, not a request.
    NotARequest,
    /// A scalar command without its byte.
    MissingArgument,
    /// A pattern id out of range.
    InvalidPresetId,
    /// A structured command whose text did not parse to what it needs.
    MalformedPayload,
}

pub open spec fn get_method(q: GetClientMessage) -> Method {
    match q {
        GetClientMessage::Ping => Method::GetPing,
        GetClientMessage::IsOn => Method::GetIsOn,
        GetClientMessage::CurrentPresetId => Method::GetCurrentPresetId,
        GetClientMessage::PresetInfo => Method::GetPresetInfo,
        GetClientMessage::Settings => Method::GetSettings,
        GetClientMessage::WifiSettings => Method::GetWifiSettings,
        GetClientMessage::CurrentPresetSettings => Method::GetCurrentPresetSettings,
    }
}

pub open spec fn set_method(c: SetClientMessage) -> Method {
    match c {
        SetClientMessage::Toggle => Method::SetToggle,
        SetClientMessage::TurnOn => Method::SetTurnOn,
        SetClientMessage::TurnOff => Method::SetTurnOff,
        SetClientMessage::Preset(_) => Method::SetPreset,
        SetClientMessage::Settings(_) => Method::SetSettings,
        SetClientMessage::WifiSettings(_) => Method::SetWifiSettings,
        SetClientMessage::CurrentPresetSettings(_) => Method::SetCurrentPresetSettings,
        SetClientMessage::Brightness(_) => Method::SetBrightness,
        SetClientMessage::Speed(_) => Method::SetSpeed,
        SetClientMessage::Scale(_) => Method::SetScale,
        SetClientMessage::SaveSettings => Method::SaveSettings,
    }
}

impl GetClientMessage {
    pub fn method(&self) -> (r: Method)
        ensures
            r == get_method(*self),
    {
        match self {
            GetClientMessage::Ping => Method::GetPing,
            GetClientMessage::IsOn => Method::GetIsOn,
            GetClientMessage::CurrentPresetId => Method::GetCurrentPresetId,
            GetClientMessage::PresetInfo => Method::GetPresetInfo,
            GetClientMessage::Settings => Method::GetSettings,
            GetClientMessage::WifiSettings => Method::GetWifiSettings,
            GetClientMessage::CurrentPresetSettings => Method::GetCurrentPresetSettings,
        }
    }

    pub fn method_id(&self) -> (r: u8)
        ensures
            r == method_tag(get_method(*self)),
    {
        self.method().as_u8()
    }
}

impl SetClientMessage {
    pub fn method(&self) -> (r: Method)
        ensures
            r == set_method(*self),
    {
        match self {
            SetClientMessage::Toggle => Method::SetToggle,
            SetClientMessage::TurnOn => Method::SetTurnOn,
            SetClientMessage::TurnOff => Method::SetTurnOff,
            SetClientMessage::Preset(_) => Method::SetPreset,
            SetClientMessage::Settings(_) => Method::SetSettings,
            SetClientMessage::WifiSettings(_) => Method::SetWifiSettings,
            SetClientMessage::CurrentPresetSettings(_) => Method::SetCurrentPresetSettings,
            SetClientMessage::Brightness(_) => Method::SetBrightness,
            SetClientMessage::Speed(_) => Method::SetSpeed,
            SetClientMessage::Scale(_) => Method::SetScale,
            SetClientMessage::SaveSettings => Method::SaveSettings,
        }
    }

    pub fn method_id(&self) -> (r: u8)
        ensures
            r == method_tag(set_method(*self)),
    {
        self.method().as_u8()
    }

    /// Well-formed arguments.
    pub open spec fn wf(&self) -> bool {
        match self {
            SetClientMessage::Settings(s) => s.wf(),
            SetClientMessage::WifiSettings(w) => w.wf(),
            _ => true,
        }
    }
}


/// Why a message is refused as a request, or `None` where it is accepted.
pub open spec fn request_error(m: MessageView, parsed: Option<StructuredValue>) -> Option<
    RequestError,
> {
    match m.method {
        Method::Error => Some(RequestError::NotARequest),
        Method::SetPreset => if m.payload.len() == 0 {
            Some(RequestError::MissingArgument)
        } else if m.payload.len() > 1 {
            Some(RequestError::MalformedPayload)
        } else if m.payload[0] >= PRESET_COUNT {
            Some(RequestError::InvalidPresetId)
        } else {
            None
        },
        Method::SetBrightness | Method::SetSpeed | Method::SetScale => if m.payload.len() == 0 {
            Some(RequestError::MissingArgument)
        } else if m.payload.len() > 1 {
            Some(RequestError::MalformedPayload)
        } else {
            None
        },
        Method::SetSettings => match parsed {
            Some(StructuredValue::Settings(s)) => if s.wf() {
                None
            } else {
                Some(RequestError::MalformedPayload)
            },
            _ => Some(RequestError::MalformedPayload),
        },
        Method::SetWifiSettings => match parsed {
            Some(StructuredValue::WifiSettings(w)) => if w.wf() {
                None
            } else {
                Some(RequestError::MalformedPayload)
            },
            _ => Some(RequestError::MalformedPayload),
        },
        Method::SetCurrentPresetSettings => match parsed {
            Some(StructuredValue::PresetSettings(_)) => None,
            _ => Some(RequestError::MalformedPayload),
        },
        _ => None,
    }
}

/// Whether `c` is the request that `m` asks for, given what its text parsed to.
pub open spec fn request_matches(
    m: MessageView,
    parsed: Option<StructuredValue>,
    c: ClientMessage,
) -> bool {
    match c {
        ClientMessage::Query(q) => get_method(q) == m.method,
        ClientMessage::Command(cmd) => {
            &&& set_method(cmd) == m.method
            &&& match cmd {
                SetClientMessage::Preset(p) => p.value() == m.payload[0],
                SetClientMessage::Brightness(v) => v == m.payload[0],
                SetClientMessage::Speed(v) => v == m.payload[0],
                SetClientMessage::Scale(v) => v == m.payload[0],
                SetClientMessage::Settings(s) => parsed == Some(StructuredValue::Settings(s)),
                SetClientMessage::WifiSettings(w) => parsed == Some(
                    StructuredValue::WifiSettings(w),
                ),
                SetClientMessage::CurrentPresetSettings(p) => parsed == Some(
                    StructuredValue::PresetSettings(p),
                ),
                _ => true,
            }
            &&& cmd.wf()
        },
    }
}

/// The one byte of a scalar payload.
fn scalar_argument(m: &Message) -> (r: Result<u8, RequestError>)
    ensures
        m.payload@.len() == 0 ==> r == Err::<u8, RequestError>(RequestError::MissingArgument),
        m.payload@.len() > 1 ==> r == Err::<u8, RequestError>(RequestError::MalformedPayload),
        m.payload@.len() == 1 ==> r == Ok::<u8, RequestError>(m.payload@[0]),
{
    if m.payload.len() == 0 {
        Err(RequestError::MissingArgument)
    } else if m.payload.len() > 1 {
        Err(RequestError::MalformedPayload)
    } else {
        Ok(m.payload[0])
    }
}

impl ClientMessage {
    /// Reads the request a decoded message asks for. A structured command
    /// takes its argument from `parsed`, what the caller parsed the
    /// message's text to.
    pub fn from_message(m: &Message, parsed: Option<StructuredValue>) -> (r: Result<
        ClientMessage,
        RequestError,
    >)
        ensures
            r is Ok <==> request_error(m@, parsed) is None,
            r matches Ok(c) ==> request_matches(m@, parsed, c),
            r matches Err(e) ==> request_error(m@, parsed) == Some(e),
    {
        match m.method {
            Method::Error => Err(RequestError::NotARequest),
            Method::GetPing => Ok(ClientMessage::Query(GetClientMessage::Ping)),
            Method::GetIsOn => Ok(ClientMessage::Query(GetClientMessage::IsOn)),
            Method::GetCurrentPresetId => Ok(ClientMessage::Query(GetClientMessage::CurrentPresetId)),
            Method::GetPresetInfo => Ok(ClientMessage::Query(GetClientMessage::PresetInfo)),
            Method::GetSettings => Ok(ClientMessage::Query(GetClientMessage::Settings)),
            Method::GetCurrentPresetSettings => Ok(ClientMessage::Query(GetClientMessage::CurrentPresetSettings)),
            Method::GetWifiSettings => Ok(ClientMessage::Query(GetClientMessage::WifiSettings)),
            Method::SetToggle => Ok(ClientMessage::Command(SetClientMessage::Toggle)),
            Method::SetTurnOn => Ok(ClientMessage::Command(SetClientMessage::TurnOn)),
            Method::SetTurnOff => Ok(ClientMessage::Command(SetClientMessage::TurnOff)),
            Method::SaveSettings => Ok(ClientMessage::Command(SetClientMessage::SaveSettings)),
            Method::SetPreset => {
                let b = scalar_argument(m)?;
                match PresetId::new_fallible(b) {
                    Ok(p) => Ok(ClientMessage::Command(SetClientMessage::Preset(p))),
                    Err(_) => Err(RequestError::InvalidPresetId),
                }
            },
            Method::SetBrightness => {
                let b = scalar_argument(m)?;
                Ok(ClientMessage::Command(SetClientMessage::Brightness(b)))
            },
            Method::SetSpeed => {
                let b = scalar_argument(m)?;
                Ok(ClientMessage::Command(SetClientMessage::Speed(b)))
            },
            Method::SetScale => {
                let b = scalar_argument(m)?;
                Ok(ClientMessage::Command(SetClientMessage::Scale(b)))
            },
            Method::SetSettings => match parsed {
                Some(StructuredValue::Settings(s)) => if s.is_wf() {
                    Ok(ClientMessage::Command(SetClientMessage::Settings(s)))
                } else {
                    Err(RequestError::MalformedPayload)
                },
                _ => Err(RequestError::MalformedPayload),
            },
            Method::SetWifiSettings => match parsed {
                Some(StructuredValue::WifiSettings(w)) => if w.is_wf() {
                    Ok(ClientMessage::Command(SetClientMessage::WifiSettings(w)))
                } else {
                    Err(RequestError::MalformedPayload)
                },
                _ => Err(RequestError::MalformedPayload),
            },
            Method::SetCurrentPresetSettings => match parsed {
                Some(StructuredValue::PresetSettings(p)) => Ok(
                    ClientMessage::Command(SetClientMessage::CurrentPresetSettings(p)),
                ),
                _ => Err(RequestError::MalformedPayload),
            },
        }
    }
}


/// `s` with the active pattern's parameters replaced by `p`.
pub open spec fn with_active(s: SettingsView, p: PresetSettings) -> SettingsView {
    SettingsView { presets: s.presets.update(s.current as int, p), ..s }
}

/// The configuration a command leads to from `s`.
pub open spec fn apply_spec(s: SettingsView, c: SetClientMessage) -> SettingsView {
    match c {
        SetClientMessage::Toggle => SettingsView { is_on: !s.is_on, ..s },
        SetClientMessage::TurnOn => SettingsView { is_on: true, ..s },
        SetClientMessage::TurnOff => SettingsView { is_on: false, ..s },
        SetClientMessage::Preset(p) => SettingsView { current: p.value(), ..s },
        SetClientMessage::Settings(n) => n@,
        SetClientMessage::WifiSettings(w) => SettingsView {
            ssid: w.ssid_spec(),
            password: w.password_spec(),
            ..s
        },
        SetClientMessage::CurrentPresetSettings(p) => with_active(s, p),
        SetClientMessage::Brightness(v) => with_active(s, PresetSettings { brightness: v, ..s.active() }),
        SetClientMessage::Speed(v) => with_active(s, PresetSettings { speed: v, ..s.active() }),
        SetClientMessage::Scale(v) => with_active(s, PresetSettings { scale: v, ..s.active() }),
        SetClientMessage::SaveSettings => s,
    }
}

/// Commands that take effect only after a restart: they replace state
/// that subsystems read at boot.
pub open spec fn needs_restart(c: SetClientMessage) -> bool {
    c is Settings || c is WifiSettings
}

/// The configuration cache after a command's persist step: the planned
/// configuration where the record was written, the old one otherwise.
pub open spec fn after_persist(prev: SettingsView, next: SettingsView, persisted: bool) -> SettingsView {
    if persisted { next } else { prev }
}

/// The epoch after one more applied command. It wraps around, so it
/// always differs from the one before.
pub open spec fn next_epoch(e: u64) -> u64 {
    if e == u64::MAX { 0 } else { (e + 1) as u64 }
}

/// What a command will do: the configuration it leads to, the record to
/// persist, whether a restart follows, and the acknowledgement. It was
/// worked out against the cache at epoch `base_epoch`.
#[derive(Debug)]
pub struct Plan {
    pub base_epoch: u64,
    pub next: DeviceSettings,
    pub record: Vec<u8>,
    pub restart: bool,
    pub ack: Method,
}

/// The appliance's configuration cache and its change epoch.
#[derive(Debug)]
pub struct Dispatcher {
    settings: DeviceSettings,
    epoch: u64,
}

/// An answer to a query.
#[derive(Debug, Clone)]
pub enum QueryAnswer {
    Ping,
    IsOn(bool),
    CurrentPresetId(u8),
    /// The catalog of patterns, which the caller renders as text.
    PresetInfo,
    Settings(DeviceSettings),
    WifiSettings(DeviceWifiSettings),
    CurrentPresetSettings(PresetSettings),
}

impl Dispatcher {
    pub closed spec fn settings_spec(&self) -> DeviceSettings {
        self.settings
    }

    pub closed spec fn epoch_spec(&self) -> u64 {
        self.epoch
    }

    pub open spec fn wf(&self) -> bool {
        self.settings_spec().wf()
    }

    /// A dispatcher over settings loaded at boot.
    pub fn new(settings: DeviceSettings) -> (r: Dispatcher)
        requires
            settings.wf(),
        ensures
            r.wf(),
            r.settings_spec() == settings,
            r.epoch_spec() == 0,
    {
        Dispatcher { settings, epoch: 0 }
    }

    /// The configuration cache.
    pub fn settings(&self) -> (r: &DeviceSettings)
        ensures
            *r == self.settings_spec(),
    {
        &self.settings
    }

    /// The change epoch: it moves on every applied command.
    pub fn epoch(&self) -> (r: u64)
        ensures
            r == self.epoch_spec(),
    {
        self.epoch
    }

    /// Answers a query from the cache, without changing anything.
    pub fn query(&self, q: GetClientMessage) -> (r: QueryAnswer)
        requires
            self.wf(),
        ensures
            match q {
                GetClientMessage::Ping => r is Ping,
                GetClientMessage::IsOn => r == QueryAnswer::IsOn(self.settings_spec()@.is_on),
                GetClientMessage::CurrentPresetId => r == QueryAnswer::CurrentPresetId(
                    self.settings_spec()@.current,
                ),
                GetClientMessage::PresetInfo => r is PresetInfo,
                GetClientMessage::Settings => r matches QueryAnswer::Settings(s) && s@
                    == self.settings_spec()@,
                GetClientMessage::WifiSettings => r matches QueryAnswer::WifiSettings(w)
                    && w.ssid_spec() == self.settings_spec()@.ssid && w.password_spec()
                    == self.settings_spec()@.password,
                GetClientMessage::CurrentPresetSettings => r
                    == QueryAnswer::CurrentPresetSettings(self.settings_spec()@.active()),
            },
    {
        match q {
            GetClientMessage::Ping => QueryAnswer::Ping,
            GetClientMessage::IsOn => QueryAnswer::IsOn(self.settings.is_on),
            GetClientMessage::CurrentPresetId => QueryAnswer::CurrentPresetId(
                self.settings.current_preset_id(),
            ),
            GetClientMessage::PresetInfo => QueryAnswer::PresetInfo,
            GetClientMessage::Settings => QueryAnswer::Settings(copy_settings(&self.settings)),
            GetClientMessage::WifiSettings => QueryAnswer::WifiSettings(
                copy_wifi(&self.settings.wifi_settings),
            ),
            GetClientMessage::CurrentPresetSettings => QueryAnswer::CurrentPresetSettings(
                self.settings.active_preset_settings(),
            ),
        }
    }

    /// Works out a command against the cache, without changing anything.
    pub fn plan(&self, c: SetClientMessage) -> (r: Plan)
        requires
            self.wf(),
            c.wf(),
        ensures
            r.next.wf(),
            r.next@ == apply_spec(self.settings_spec()@, c),
            r.record@ == record_spec(r.next@),
            r.restart == needs_restart(c),
            r.ack == set_method(c),
            r.base_epoch == self.epoch_spec(),
    {
        let ack = c.method();
        let restart = match &c {
            SetClientMessage::Settings(_) | SetClientMessage::WifiSettings(_) => true,
            _ => false,
        };
        let mut next = copy_settings(&self.settings);
        let id = next.current_preset_id.id();
        let ghost s = self.settings@;
        match c {
            SetClientMessage::Toggle => next.is_on = !next.is_on,
            SetClientMessage::TurnOn => next.is_on = true,
            SetClientMessage::TurnOff => next.is_on = false,
            SetClientMessage::Preset(p) => {
                proof {
                    use_type_invariant(&p);
                }
                next.current_preset_id = p;
            },
            SetClientMessage::Settings(n) => next = n,
            SetClientMessage::WifiSettings(w) => next.wifi_settings = w,
            SetClientMessage::CurrentPresetSettings(p) => next.preset_settings.set(id as usize, p),
            SetClientMessage::Brightness(v) => {
                let mut p = next.preset_settings[id as usize];
                p.brightness = v;
                next.preset_settings.set(id as usize, p);
            },
            SetClientMessage::Speed(v) => {
                let mut p = next.preset_settings[id as usize];
                p.speed = v;
                next.preset_settings.set(id as usize, p);
            },
            SetClientMessage::Scale(v) => {
                let mut p = next.preset_settings[id as usize];
                p.scale = v;
                next.preset_settings.set(id as usize, p);
            },
            SetClientMessage::SaveSettings => {},
        }
        let record = next.to_record();
        Plan { base_epoch: self.epoch, next, record, restart, ack }
    }

    /// Finishes a command once its record was written, or failed to be:
    /// the cache takes the planned configuration and the epoch moves on
    /// only where the write succeeded; a failed write leaves everything as
    /// it was and answers with an error. The plan must have been worked out
    /// against the cache as it stands, so that no command's update is lost.
    pub fn complete(&mut self, plan: Plan, persisted: bool) -> (r: Method)
        requires
            old(self).wf(),
            plan.next.wf(),
            plan.base_epoch == old(self).epoch_spec(),
        ensures
            final(self).wf(),
            final(self).settings_spec()@ == after_persist(
                old(self).settings_spec()@,
                plan.next@,
                persisted,
            ),
            persisted ==> final(self).epoch_spec() == next_epoch(old(self).epoch_spec()),
            !persisted ==> final(self).epoch_spec() == old(self).epoch_spec(),
            r == (if persisted { plan.ack } else { Method::Error }),
    {
        if persisted {
            self.settings = plan.next;
            self.epoch = self.epoch.wrapping_add(1);
            plan.ack
        } else {
            Method::Error
        }
    }
}

/// A copy of the credentials.
fn copy_wifi(w: &DeviceWifiSettings) -> (r: DeviceWifiSettings)
    ensures
        r.ssid_spec() == w.ssid_spec(),
        r.password_spec() == w.password_spec(),
{
    DeviceWifiSettings::from_parts(copy_bytes(w.ssid()), copy_bytes(w.password()))
}

fn copy_bytes(v: &Vec<u8>) -> (r: Vec<u8>)
    ensures
        r@ == v@,
{
    let mut r: Vec<u8> = Vec::with_capacity(v.len());
    let mut i: usize = 0;
    while i < v.len()
        invariant
            i <= v@.len(),
            r@ == v@.subrange(0, i as int),
        decreases v.len() - i,
    {
        r.push(v[i]);
        i += 1;
        assert(v@.subrange(0, i as int) =~= v@.subrange(0, i - 1).push(v@[i - 1]));
    }
    assert(v@.subrange(0, i as int) =~= v@);
    r
}

/// A copy of the settings.
fn copy_settings(s: &DeviceSettings) -> (r: DeviceSettings)
    requires
        s.wf(),
    ensures
        r.wf(),
        r@ == s@,
{
    let mut presets: Vec<PresetSettings> = Vec::with_capacity(s.preset_settings.len());
    let mut i: usize = 0;
    while i < s.preset_settings.len()
        invariant
            i <= s.preset_settings@.len(),
            presets@ == s.preset_settings@.subrange(0, i as int),
        decreases s.preset_settings.len() - i,
    {
        presets.push(s.preset_settings[i]);
        i += 1;
        assert(s.preset_settings@.subrange(0, i as int) =~= s.preset_settings@.subrange(0, i - 1).push(
            s.preset_settings@[i - 1],
        ));
    }
    assert(s.preset_settings@.subrange(0, i as int) =~= s.preset_settings@);
    DeviceSettings {
        wifi_settings: copy_wifi(&s.wifi_settings),
        preset_settings: presets,
        current_preset_id: s.current_preset_id,
        is_on: s.is_on,
    }
}


/// Setting the brightness to `v` and then asking for the active pattern's
/// parameters gives brightness `v`, and the record persisted for the
/// command reads back with brightness `v`.
pub proof fn lemma_brightness_then_query(s: SettingsView, v: u8)
    requires
        s.wf(),
    ensures
        apply_spec(s, SetClientMessage::Brightness(v)).active().brightness == v,
        apply_spec(s, SetClientMessage::Brightness(v)).wf(),
        crate::store::parse_record(
            record_spec(apply_spec(s, SetClientMessage::Brightness(v))),
        ).active().brightness == v,
{
    let n = apply_spec(s, SetClientMessage::Brightness(v));
    let p = PresetSettings { brightness: v, ..s.active() };
    assert(n == with_active(s, p));
    assert(n.presets.len() == PRESET_COUNT);
    assert(n.active() == p);
    assert(n.wf());
    crate::store::lemma_record_round_trip(n);
}

/// A full settings replace is seen whole or not at all: whatever the
/// persist step gave, the cache holds either the old configuration or
/// exactly the new one, never a mix of the two.
pub proof fn lemma_settings_replace_atomic(s: SettingsView, n: DeviceSettings, persisted: bool)
    requires
        s.wf(),
        n.wf(),
    ensures
        after_persist(s, apply_spec(s, SetClientMessage::Settings(n)), persisted) == s
            || after_persist(s, apply_spec(s, SetClientMessage::Settings(n)), persisted) == n@,
        persisted ==> after_persist(s, apply_spec(s, SetClientMessage::Settings(n)), persisted)
            == n@,
        !persisted ==> after_persist(s, apply_spec(s, SetClientMessage::Settings(n)), persisted)
            == s,
{
}

/// Setting the speed and then the brightness keeps both: the second
/// command does not undo the first.
pub proof fn lemma_speed_then_brightness(s: SettingsView, sp: u8, b: u8)
    requires
        s.wf(),
    ensures
        apply_spec(apply_spec(s, SetClientMessage::Speed(sp)), SetClientMessage::Brightness(b)).active()
            == (PresetSettings { brightness: b, speed: sp, scale: s.active().scale }),
        apply_spec(
            apply_spec(s, SetClientMessage::Speed(sp)),
            SetClientMessage::Brightness(b),
        ).current == s.current,
        forall|k: int|
            0 <= k < s.presets.len() && k != s.current ==> apply_spec(
                apply_spec(s, SetClientMessage::Speed(sp)),
                SetClientMessage::Brightness(b),
            ).presets[k] == s.presets[k],
{
}


pub open spec fn answer_method(a: QueryAnswer) -> Method {
    match a {
        QueryAnswer::Ping => Method::GetPing,
        QueryAnswer::IsOn(_) => Method::GetIsOn,
        QueryAnswer::CurrentPresetId(_) => Method::GetCurrentPresetId,
        QueryAnswer::PresetInfo => Method::GetPresetInfo,
        QueryAnswer::Settings(_) => Method::GetSettings,
        QueryAnswer::WifiSettings(_) => Method::GetWifiSettings,
        QueryAnswer::CurrentPresetSettings(_) => Method::GetCurrentPresetSettings,
    }
}

/// Whether an answer travels as text that the caller renders.
pub open spec fn answer_is_structured(a: QueryAnswer) -> bool {
    !(a is Ping || a is IsOn || a is CurrentPresetId)
}

/// Payload of the response to a query; `text` is the caller's rendering of
/// a structured answer.
pub open spec fn answer_payload(a: QueryAnswer, text: Seq<u8>) -> Seq<u8> {
    match a {
        QueryAnswer::Ping => Seq::empty(),
        QueryAnswer::IsOn(b) => seq![if b { 1u8 } else { 0u8 }],
        QueryAnswer::CurrentPresetId(id) => seq![id],
        _ => text,
    }
}

impl QueryAnswer {
    pub fn method(&self) -> (r: Method)
        ensures
            r == answer_method(*self),
    {
        match self {
            QueryAnswer::Ping => Method::GetPing,
            QueryAnswer::IsOn(_) => Method::GetIsOn,
            QueryAnswer::CurrentPresetId(_) => Method::GetCurrentPresetId,
            QueryAnswer::PresetInfo => Method::GetPresetInfo,
            QueryAnswer::Settings(_) => Method::GetSettings,
            QueryAnswer::WifiSettings(_) => Method::GetWifiSettings,
            QueryAnswer::CurrentPresetSettings(_) => Method::GetCurrentPresetSettings,
        }
    }

    /// The response message for this answer. Scalar answers are encoded
    /// here; a structured one carries `text`, which the caller rendered.
    pub fn to_message(&self, text: Vec<u8>) -> (r: Message)
        ensures
            r@.valid(),
            r.version == Version::V1,
            r.method == answer_method(*self),
            r.payload@ == answer_payload(*self, text@),
    {
        let method = self.method();
        let payload = match self {
            QueryAnswer::Ping => Vec::new(),
            QueryAnswer::IsOn(b) => vec![if *b { 1u8 } else { 0u8 }],
            QueryAnswer::CurrentPresetId(id) => vec![*id],
            _ => text,
        };
        proof {
            assert(payload@ =~= answer_payload(*self, text@));
        }
        Message { version: Version::V1, method, payload }
    }
}

/// A response that carries only its method: a command's acknowledgement,
/// or the error response.
pub fn reply_message(method: Method) -> (r: Message)
    ensures
        r@.valid(),
        r.version == Version::V1,
        r.method == method,
        r.payload@.len() == 0,
{
    Message { version: Version::V1, method, payload: Vec::new() }
}

} // verus!
