//! The persisted configuration record and the store's decisions on it.
//!
//! The record has a fixed length: a format tag, the credentials each
//! behind a length byte and padded to capacity, three bytes per pattern,
//! the active pattern id and the power flag. A region whose bytes all read
//! as erased flash holds no record yet.

use vstd::prelude::*;
use crate::config::{
    DeviceSettings, DeviceWifiSettings, PresetId, PresetSettings, SettingsView, PRESET_COUNT,
    SSID_CAPACITY, PASSWORD_CAPACITY,
};

verus! {

/// Tag of the record layout written by this build.
pub const RECORD_FORMAT: u8 = 0x01;

/// Value of every byte of erased flash.
pub const ERASED_BYTE: u8 = 0xff;

pub const SSID_OFFSET: usize = 2;

pub const PASSWORD_LEN_OFFSET: usize = 34;

pub const PASSWORD_OFFSET: usize = 35;

pub const PRESETS_OFFSET: usize = 99;

pub const CURRENT_OFFSET: usize = 111;

pub const IS_ON_OFFSET: usize = 112;

/// Length of the record and of the region that holds it.
pub const RECORD_LEN: usize = 113;

/// A region that holds no readable record.
#[derive(Debug, Clone, Copy, PartialEq, Eq, Structural)]
pub enum StorageError {
    CorruptRecord,
}

/// One parameter of a pattern: 0 brightness, 1 speed, 2 scale.
pub open spec fn preset_field(p: PresetSettings, f: int) -> u8 {
    if f == 0 {
        p.brightness
    } else if f == 1 {
        p.speed
    } else {
        p.scale
    }
}

/// Byte `i` of the record of `v`.
pub open spec fn record_byte(v: SettingsView, i: int) -> u8 {
    if i == 0 {
        RECORD_FORMAT
    } else if i == 1 {
        v.ssid.len() as u8
    } else if i < PASSWORD_LEN_OFFSET {
        if i - SSID_OFFSET < v.ssid.len() { v.ssid[i - SSID_OFFSET] } else { 0 }
    } else if i == PASSWORD_LEN_OFFSET {
        v.password.len() as u8
    } else if i < PRESETS_OFFSET {
        if i - PASSWORD_OFFSET < v.password.len() { v.password[i - PASSWORD_OFFSET] } else { 0 }
    } else if i < CURRENT_OFFSET {
        preset_field(v.presets[(i - PRESETS_OFFSET) / 3], (i - PRESETS_OFFSET) % 3)
    } else if i == CURRENT_OFFSET {
        v.current
    } else {
        if v.is_on { 1 } else { 0 }
    }
}

/// The record that persists `v`.
pub open spec fn record_spec(v: SettingsView) -> Seq<u8> {
    Seq::new(RECORD_LEN as nat, |i: int| record_byte(v, i))
}

/// Whether `b` is a readable record.
pub open spec fn record_ok(b: Seq<u8>) -> bool {
    &&& b.len() == RECORD_LEN
    &&& b[0] == RECORD_FORMAT
    &&& b[1] <= SSID_CAPACITY
    &&& b[PASSWORD_LEN_OFFSET as int] <= PASSWORD_CAPACITY
    &&& b[CURRENT_OFFSET as int] < PRESET_COUNT
    &&& b[IS_ON_OFFSET as int] <= 1
}

/// Pattern `k`'s parameters as a record holds them.
pub open spec fn record_preset(b: Seq<u8>, k: int) -> PresetSettings {
    PresetSettings {
        brightness: b[PRESETS_OFFSET + 3 * k],
        speed: b[PRESETS_OFFSET + 3 * k + 1],
        scale: b[PRESETS_OFFSET + 3 * k + 2],
    }
}

/// The configuration a readable record holds.
pub open spec fn parse_record(b: Seq<u8>) -> SettingsView {
    SettingsView {
        ssid: b.subrange(SSID_OFFSET as int, SSID_OFFSET + b[1]),
        password: b.subrange(
            PASSWORD_OFFSET as int,
            PASSWORD_OFFSET + b[PASSWORD_LEN_OFFSET as int],
        ),
        presets: Seq::new(PRESET_COUNT as nat, |k: int| record_preset(b, k)),
        current: b[CURRENT_OFFSET as int],
        is_on: b[IS_ON_OFFSET as int] == 1,
    }
}

/// Whether a region reads as erased flash.
pub open spec fn is_blank_spec(region: Seq<u8>) -> bool {
    forall|i: int| 0 <= i < region.len() ==> region[i] == ERASED_BYTE
}

/// Reading back the record of a well-formed configuration gives that
/// configuration.
pub proof fn lemma_record_round_trip(v: SettingsView)
    requires
        v.wf(),
    ensures
        record_ok(record_spec(v)),
        parse_record(record_spec(v)) == v,
{
    let b = record_spec(v);
    let p = parse_record(b);
    assert(p.ssid =~= v.ssid);
    assert(p.password =~= v.password);
    assert forall|k: int| 0 <= k < PRESET_COUNT implies record_preset(b, k) == v.presets[k] by {
        assert((3 * k) / 3 == k);
        assert((3 * k + 1) / 3 == k);
        assert((3 * k + 2) / 3 == k);
        assert((3 * k) % 3 == 0);
        assert((3 * k + 1) % 3 == 1);
        assert((3 * k + 2) % 3 == 2);
    }
    assert(p.presets =~= v.presets);
}

/// A record is never blank: its format tag is not an erased byte.
pub proof fn lemma_record_not_blank(v: SettingsView)
    ensures
        !is_blank_spec(record_spec(v)),
{
    assert(record_spec(v)[0] == RECORD_FORMAT);
}

impl DeviceSettings {
    /// The record that persists these settings.
    pub fn to_record(&self) -> (r: Vec<u8>)
        requires
            self.wf(),
        ensures
            r@ == record_spec(self@),
    {
        let v = Ghost(self@);
        let ssid = self.wifi_settings.ssid();
        let password = self.wifi_settings.password();
        let mut r: Vec<u8> = Vec::with_capacity(RECORD_LEN);
        let mut i: usize = 0;
        while i < RECORD_LEN
            invariant
                i <= RECORD_LEN,
                r@.len() == i,
                ssid@ == v@.ssid,
                password@ == v@.password,
                v@ == self@,
                self.wf(),
                forall|j: int| 0 <= j < i ==> r@[j] == record_byte(v@, j),
            decreases RECORD_LEN - i,
        {
            let b: u8 = if i == 0 {
                RECORD_FORMAT
            } else if i == 1 {
                ssid.len() as u8
            } else if i < PASSWORD_LEN_OFFSET {
                if i - SSID_OFFSET < ssid.len() {
                    ssid[i - SSID_OFFSET]
                } else {
                    0
                }
            } else if i == PASSWORD_LEN_OFFSET {
                password.len() as u8
            } else if i < PRESETS_OFFSET {
                if i - PASSWORD_OFFSET < password.len() {
                    password[i - PASSWORD_OFFSET]
                } else {
                    0
                }
            } else if i < CURRENT_OFFSET {
                let p = self.preset_settings[(i - PRESETS_OFFSET) / 3];
                let f = (i - PRESETS_OFFSET) % 3;
                if f == 0 {
                    p.brightness
                } else if f == 1 {
                    p.speed
                } else {
                    p.scale
                }
            } else if i == CURRENT_OFFSET {
                self.current_preset_id.id()
            } else if self.is_on {
                1
            } else {
                0
            };
            r.push(b);
            i += 1;
        }
        assert(r@ =~= record_spec(v@));
        r
    }

    /// Reads settings back from a record.
    pub fn from_record(b: &[u8]) -> (r: Result<DeviceSettings, StorageError>)
        ensures
            r is Ok <==> record_ok(b@),
            r matches Ok(s) ==> s.wf() && s@ == parse_record(b@),
            r matches Err(e) ==> e == StorageError::CorruptRecord,
    {
        if b.len() != RECORD_LEN || b[0] != RECORD_FORMAT || b[1] as usize > SSID_CAPACITY
            || b[PASSWORD_LEN_OFFSET] as usize > PASSWORD_CAPACITY || b[IS_ON_OFFSET] > 1 {
            return Err(StorageError::CorruptRecord);
        }
        let current = match PresetId::new_fallible(b[CURRENT_OFFSET]) {
            Ok(p) => p,
            Err(_) => return Err(StorageError::CorruptRecord),
        };
        let ssid = copy_range(b, SSID_OFFSET, SSID_OFFSET + b[1] as usize);
        let password = copy_range(
            b,
            PASSWORD_OFFSET,
            PASSWORD_OFFSET + b[PASSWORD_LEN_OFFSET] as usize,
        );
        let wifi = match DeviceWifiSettings::new(ssid, password) {
            Ok(w) => w,
            Err(_) => return Err(StorageError::CorruptRecord),
        };
        let mut presets: Vec<PresetSettings> = Vec::with_capacity(PRESET_COUNT as usize);
        let mut k: usize = 0;
        while k < PRESET_COUNT as usize
            invariant
                k <= PRESET_COUNT,
                b@.len() == RECORD_LEN,
                presets@ == Seq::new(k as nat, |j: int| record_preset(b@, j)),
            decreases PRESET_COUNT - k,
        {
            let base = PRESETS_OFFSET + 3 * k;
            presets.push(PresetSettings::new(b[base], b[base + 1], b[base + 2]));
            k += 1;
            assert(presets@ =~= Seq::new(k as nat, |j: int| record_preset(b@, j)));
        }
        let s = DeviceSettings {
            wifi_settings: wifi,
            preset_settings: presets,
            current_preset_id: current,
            is_on: b[IS_ON_OFFSET] == 1,
        };
        assert(s@.presets =~= parse_record(b@).presets);
        Ok(s)
    }
}

/// A copy of `b[start..end]`.
fn copy_range(b: &[u8], start: usize, end: usize) -> (r: Vec<u8>)
    requires
        start <= end <= b@.len(),
    ensures
        r@ == b@.subrange(start as int, end as int),
{
    let mut r: Vec<u8> = Vec::with_capacity(end - start);
    let mut i: usize = start;
    while i < end
        invariant
            start <= i <= end,
            end <= b@.len(),
            r@ == b@.subrange(start as int, i as int),
        decreases end - i,
    {
        r.push(b[i]);
        i += 1;
        assert(b@.subrange(start as int, i as int) =~= b@.subrange(start as int, i - 1).push(
            b@[i - 1],
        ));
    }
    r
}

/// Whether every byte of a region reads as erased flash.
pub fn is_blank(region: &[u8]) -> (r: bool)
    ensures
        r == is_blank_spec(region@),
{
    let mut i: usize = 0;
    while i < region.len()
        invariant
            i <= region@.len(),
            forall|j: int| 0 <= j < i ==> region@[j] == ERASED_BYTE,
        decreases region.len() - i,
    {
        if region[i] != ERASED_BYTE {
            return false;
        }
        i += 1;
    }
    true
}

/// Decides what boot writes to the settings region: the record of the
/// default settings where the region is blank, nothing otherwise.
pub fn init_settings_storage(region: &[u8]) -> (r: Option<Vec<u8>>)
    ensures
        r is Some <==> is_blank_spec(region@),
        r matches Some(w) ==> w@ == record_spec(crate::config::default_settings_view()),
{
    if is_blank(region) {
        let d = DeviceSettings::default_settings();
        Some(d.to_record())
    } else {
        None
    }
}

/// Loads the settings that a region holds.
pub fn load(region: &[u8]) -> (r: Result<DeviceSettings, StorageError>)
    ensures
        r is Ok <==> record_ok(region@),
        r matches Ok(s) ==> s.wf() && s@ == parse_record(region@),
{
    DeviceSettings::from_record(region)
}

} // verus!
