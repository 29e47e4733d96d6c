//! The appliance configuration: pattern ids and parameters, network
//! credentials, and the persisted record that holds all of it.

use vstd::prelude::*;

verus! {

/// Number of selectable patterns.
pub const PRESET_COUNT: u8 = 4;

/// Longest network identifier, in bytes.
pub const SSID_CAPACITY: usize = 32;

/// Longest network secret, in bytes.
pub const PASSWORD_CAPACITY: usize = 64;

/// Why a configuration value was refused.
#[derive(Debug, Clone, Copy, PartialEq, Eq, Structural)]
pub enum ConfigError {
    PresetIdOutOfBounds,
    CredentialTooLong,
}

/// A pattern id, always below `PRESET_COUNT`.
#[derive(Debug, Clone, Copy, PartialEq, Eq)]
pub struct PresetId {
    id: u8,
}

impl PresetId {
    #[verifier::type_invariant]
    pub open spec fn inv(self) -> bool {
        self.value() < PRESET_COUNT
    }

    /// The id as a number.
    pub closed spec fn value(self) -> u8 {
        self.id
    }

    /// Succeeds exactly on ids below `PRESET_COUNT`.
    pub fn new_fallible(id: u8) -> (r: Result<PresetId, ConfigError>)
        ensures
            r matches Ok(p) ==> p.value() == id,
            r is Ok <==> id < PRESET_COUNT,
            r matches Err(e) ==> e == ConfigError::PresetIdOutOfBounds,
    {
        if id < PRESET_COUNT {
            Ok(PresetId { id })
        } else {
            Err(ConfigError::PresetIdOutOfBounds)
        }
    }

    pub fn id(&self) -> (r: u8)
        ensures
            r == self.value(),
            r < PRESET_COUNT,
    {
        proof {
            use_type_invariant(self);
        }
        self.id
    }
}

/// Parameters of one pattern.
#[derive(Debug, Clone, Copy, PartialEq, Eq, Structural)]
pub struct PresetSettings {
    pub brightness: u8,
    pub speed: u8,
    pub scale: u8,
}

pub open spec fn default_preset_settings() -> PresetSettings {
    PresetSettings { brightness: 50, speed: 255, scale: 0 }
}

impl Default for PresetSettings {
    fn default() -> (r: PresetSettings)
        ensures
            r == default_preset_settings(),
    {
        PresetSettings { brightness: 50, speed: 255, scale: 0 }
    }
}

impl PresetSettings {
    pub fn new(brightness: u8, speed: u8, scale: u8) -> (r: PresetSettings)
        ensures
            r == (PresetSettings { brightness, speed, scale }),
    {
        PresetSettings { brightness, speed, scale }
    }

    pub fn brightness(&self) -> (r: u8)
        ensures
            r == self.brightness,
    {
        self.brightness
    }

    pub fn speed(&self) -> (r: u8)
        ensures
            r == self.speed,
    {
        self.speed
    }

    pub fn scale(&self) -> (r: u8)
        ensures
            r == self.scale,
    {
        self.scale
    }
}

/// Network credentials, as UTF-8 bytes.
#[derive(Debug, Clone)]
pub struct DeviceWifiSettings {
    ssid: Vec<u8>,
    password: Vec<u8>,
}

impl DeviceWifiSettings {
    pub closed spec fn ssid_spec(&self) -> Seq<u8> {
        self.ssid@
    }

    pub closed spec fn password_spec(&self) -> Seq<u8> {
        self.password@
    }

    /// Both fit their capacity.
    pub open spec fn wf(&self) -> bool {
        self.ssid_spec().len() <= SSID_CAPACITY && self.password_spec().len() <= PASSWORD_CAPACITY
    }

    /// Succeeds when both fit their capacity.
    pub fn new(ssid: Vec<u8>, password: Vec<u8>) -> (r: Result<DeviceWifiSettings, ConfigError>)
        ensures
            r is Ok <==> ssid@.len() <= SSID_CAPACITY && password@.len() <= PASSWORD_CAPACITY,
            r matches Ok(w) ==> w.ssid_spec() == ssid@ && w.password_spec() == password@ && w.wf(),
            r matches Err(e) ==> e == ConfigError::CredentialTooLong,
    {
        if ssid.len() <= SSID_CAPACITY && password.len() <= PASSWORD_CAPACITY {
            Ok(DeviceWifiSettings { ssid, password })
        } else {
            Err(ConfigError::CredentialTooLong)
        }
    }

    /// Credentials as given, whether or not they fit.
    pub(crate) fn from_parts(ssid: Vec<u8>, password: Vec<u8>) -> (r: DeviceWifiSettings)
        ensures
            r.ssid_spec() == ssid@,
            r.password_spec() == password@,
    {
        DeviceWifiSettings { ssid, password }
    }

    /// Whether both fit their capacity.
    pub fn is_wf(&self) -> (r: bool)
        ensures
            r == self.wf(),
    {
        self.ssid.len() <= SSID_CAPACITY && self.password.len() <= PASSWORD_CAPACITY
    }

    pub fn ssid(&self) -> (r: &Vec<u8>)
        ensures
            r@ == self.ssid_spec(),
    {
        &self.ssid
    }

    pub fn password(&self) -> (r: &Vec<u8>)
        ensures
            r@ == self.password_spec(),
    {
        &self.password
    }
}

/// Model of the whole configuration.
pub struct SettingsView {
    pub ssid: Seq<u8>,
    pub password: Seq<u8>,
    pub presets: Seq<PresetSettings>,
    pub current: u8,
    pub is_on: bool,
}

impl SettingsView {
    pub open spec fn wf(self) -> bool {
        &&& self.ssid.len() <= SSID_CAPACITY
        &&& self.password.len() <= PASSWORD_CAPACITY
        &&& self.presets.len() == PRESET_COUNT
        &&& self.current < PRESET_COUNT
    }

    /// Parameters of the active pattern.
    pub open spec fn active(self) -> PresetSettings {
        self.presets[self.current as int]
    }
}

/// The appliance's whole configuration: the persisted and exchanged state.
#[derive(Debug, Clone)]
pub struct DeviceSettings {
    pub wifi_settings: DeviceWifiSettings,
    pub preset_settings: Vec<PresetSettings>,
    pub current_preset_id: PresetId,
    pub is_on: bool,
}

impl View for DeviceSettings {
    type V = SettingsView;

    open spec fn view(&self) -> SettingsView {
        SettingsView {
            ssid: self.wifi_settings.ssid_spec(),
            password: self.wifi_settings.password_spec(),
            presets: self.preset_settings@,
            current: self.current_preset_id.value(),
            is_on: self.is_on,
        }
    }
}

pub open spec fn default_settings_view() -> SettingsView {
    SettingsView {
        ssid: Seq::empty(),
        password: Seq::empty(),
        presets: Seq::new(PRESET_COUNT as nat, |i: int| default_preset_settings()),
        current: 1,
        is_on: true,
    }
}

impl DeviceSettings {
    /// One parameter set per pattern, credentials within capacity.
    pub open spec fn wf(&self) -> bool {
        &&& self.wifi_settings.wf()
        &&& self.preset_settings@.len() == PRESET_COUNT
        &&& self.current_preset_id.value() < PRESET_COUNT
    }

    /// Succeeds when there is one parameter set per pattern.
    pub fn new(
        wifi_settings: DeviceWifiSettings,
        preset_settings: Vec<PresetSettings>,
        current_preset_id: PresetId,
        is_on: bool,
    ) -> (r: Option<DeviceSettings>)
        requires
            wifi_settings.wf(),
        ensures
            r is Some <==> preset_settings@.len() == PRESET_COUNT,
            r matches Some(s) ==> s.wf() && s.wifi_settings == wifi_settings
                && s.preset_settings@ == preset_settings@ && s.current_preset_id
                == current_preset_id && s.is_on == is_on,
    {
        proof {
            use_type_invariant(&current_preset_id);
        }
        if preset_settings.len() == PRESET_COUNT as usize {
            Some(DeviceSettings { wifi_settings, preset_settings, current_preset_id, is_on })
        } else {
            None
        }
    }

    /// Whether there is one parameter set per pattern and the credentials fit.
    pub fn is_wf(&self) -> (r: bool)
        ensures
            r == self.wf(),
    {
        proof {
            use_type_invariant(&self.current_preset_id);
        }
        self.wifi_settings.is_wf() && self.preset_settings.len() == PRESET_COUNT as usize
    }

    /// The settings a blank appliance starts from.
    pub fn default_settings() -> (r: DeviceSettings)
        ensures
            r.wf(),
            r@ == default_settings_view(),
    {
        let mut presets: Vec<PresetSettings> = Vec::new();
        let mut i: u8 = 0;
        while i < PRESET_COUNT
            invariant
                i <= PRESET_COUNT,
                presets@ == Seq::new(i as nat, |j: int| default_preset_settings()),
            decreases PRESET_COUNT - i,
        {
            presets.push(PresetSettings::default());
            i += 1;
            assert(presets@ =~= Seq::new(i as nat, |j: int| default_preset_settings()));
        }
        let current = PresetId { id: 1 };
        let r = DeviceSettings {
            wifi_settings: DeviceWifiSettings { ssid: Vec::new(), password: Vec::new() },
            preset_settings: presets,
            current_preset_id: current,
            is_on: true,
        };
        assert(r@.ssid =~= Seq::<u8>::empty());
        assert(r@.password =~= Seq::<u8>::empty());
        r
    }

    pub fn wifi_settings(&self) -> (r: &DeviceWifiSettings)
        ensures
            r == &self.wifi_settings,
    {
        &self.wifi_settings
    }

    pub fn preset_settings(&self) -> (r: &[PresetSettings])
        ensures
            r@ == self.preset_settings@,
    {
        self.preset_settings.as_slice()
    }

    pub fn current_preset_id(&self) -> (r: u8)
        ensures
            r == self@.current,
            r < PRESET_COUNT,
    {
        self.current_preset_id.id()
    }

    pub fn is_on(&self) -> (r: bool)
        ensures
            r == self.is_on,
    {
        self.is_on
    }

    /// Parameters of the active pattern.
    pub fn active_preset_settings(&self) -> (r: PresetSettings)
        requires
            self.wf(),
        ensures
            r == self@.active(),
    {
        let id = self.current_preset_id.id();
        self.preset_settings[id as usize]
    }
}

} // verus!
