//! Polling rates, batteries, protocols and connections, and the model record.
use crate::error::{plain_error, DeviceError, ErrorText};
use crate::models::ModelData;
use crate::text::{
    append_decimal, decimal, decimal_text, join_texts, joined, lower, lowered, remove_part,
    same_text, signed_decimal, texts, trim, trimmed, without_part, Margin,
};
use vstd::prelude::*;

pub use crate::reports::{
    build_eeprom16_dpi_entry, build_eeprom16_get_battery, build_eeprom16_get_rate,
    build_eeprom16_read, build_eeprom16_set_rate, build_eeprom16_write, build_feature64_get_battery,
    build_feature64_get_rate, build_feature64_set_rate, build_ipi_pix_v1_get_basic_info,
    build_ipi_pix_v1_get_rate, build_ipi_pix_v1_set_rate, eeprom16_block_checksum,
    eeprom16_raw_to_dpi, ipi_pix_v1_rate_from_sensor_byte, write_ipi_checksum,
    EEPROM16_DPI_ENTRY_LEN, EEPROM16_DPI_TABLE_OFFSET, EEPROM16_MAX_TRANSFER_LEN,
};
pub use crate::models::{
    fenrir_models, find_model, ipi_piao_models, logitech_models, razer_models, GWOLVES_VENDOR_ID,
    IPI_VENDOR_ID, LOGITECH_VENDOR_ID, RATES_1K, RATES_4K, RATES_8K, RAZER_VENDOR_ID,
};

verus! {

/// How many times a second a mouse reports its position.
#[derive(Clone, Copy, Debug, PartialEq, Eq, Hash, Structural)]
pub enum PollingRate {
    Hz125,
    Hz250,
    Hz500,
    Hz1000,
    Hz2000,
    Hz4000,
    Hz8000,
}

/// What a battery does at the moment.
#[derive(Clone, Copy, Debug, PartialEq, Eq, Structural)]
pub enum ChargeState {
    Discharging,
    Charging,
    Full,
    Unknown,
    /// A status byte that has no known meaning.
    Raw(u8),
}

impl ChargeState {
    /// Whether the state is one of a plugged-in mouse, where it tells.
    pub open spec fn spec_is_charging_like(self) -> Option<bool> {
        match self {
            ChargeState::Charging | ChargeState::Full => Some(true),
            ChargeState::Discharging => Some(false),
            ChargeState::Unknown | ChargeState::Raw(_) => None,
        }
    }

    /// Whether the state is one of a plugged-in mouse, where it tells.
    #[verifier::when_used_as_spec(spec_is_charging_like)]
    pub fn is_charging_like(self) -> (r: Option<bool>)
        ensures
            r == self.spec_is_charging_like(),
    {
        match self {
            ChargeState::Charging | ChargeState::Full => Some(true),
            ChargeState::Discharging => Some(false),
            ChargeState::Unknown | ChargeState::Raw(_) => None,
        }
    }

    /// The state in words.
    pub open spec fn spec_text(self) -> Seq<char> {
        match self {
            ChargeState::Discharging => "discharging"@,
            ChargeState::Charging => "charging"@,
            ChargeState::Full => "full"@,
            ChargeState::Unknown => "unknown"@,
            ChargeState::Raw(raw) => "raw "@ + decimal(raw as nat),
        }
    }

    /// The state in words.
    pub fn text(self) -> (s: String)
        ensures
            s@ == self.spec_text(),
    {
        match self {
            ChargeState::Discharging => "discharging".to_owned(),
            ChargeState::Charging => "charging".to_owned(),
            ChargeState::Full => "full".to_owned(),
            ChargeState::Unknown => "unknown".to_owned(),
            ChargeState::Raw(raw) => {
                let mut s = "raw ".to_owned();
                append_decimal(&mut s, raw as u128);
                s
            },
        }
    }
}

/// What a mouse tells of its battery.
#[derive(Clone, Copy, Debug, PartialEq, Eq, Structural)]
pub struct BatteryStatus {
    pub level_percent: Option<u8>,
    pub charge_state: ChargeState,
    pub raw_state: Option<u8>,
}

impl BatteryStatus {
    /// A battery of which only the level is known.
    pub fn level_only(level_percent: u8) -> (b: BatteryStatus)
        ensures
            b.level_percent == Some(level_percent),
            b.charge_state == ChargeState::Unknown,
            b.raw_state is None,
    {
        BatteryStatus {
            level_percent: Some(level_percent),
            charge_state: ChargeState::Unknown,
            raw_state: None,
        }
    }

    /// A battery of which level and state are known, with the status byte that
    /// the state was told from.
    pub fn with_raw_state(level_percent: u8, charge_state: ChargeState, raw_state: u8) -> (b:
        BatteryStatus)
        ensures
            b.level_percent == Some(level_percent),
            b.charge_state == charge_state,
            b.raw_state == Some(raw_state),
    {
        BatteryStatus {
            level_percent: Some(level_percent),
            charge_state,
            raw_state: Some(raw_state),
        }
    }

    /// Whether the state is one of a plugged-in mouse, where it tells.
    pub open spec fn spec_is_charging_like(self) -> Option<bool> {
        self.charge_state.is_charging_like()
    }

    /// Whether the state is one of a plugged-in mouse, where it tells.
    #[verifier::when_used_as_spec(spec_is_charging_like)]
    pub fn is_charging_like(self) -> (r: Option<bool>)
        ensures
            r == self.spec_is_charging_like(),
    {
        self.charge_state.is_charging_like()
    }

    /// Level and state in words, as far as they are known.
    pub open spec fn spec_text(self) -> Seq<char> {
        let state = match (self.charge_state, self.raw_state) {
            (ChargeState::Raw(raw), _) => "raw "@ + decimal(raw as nat),
            (state, Some(raw)) => state.spec_text() + " (raw "@ + decimal(raw as nat) + ")"@,
            (state, None) => state.spec_text(),
        };
        match self.level_percent {
            None => state,
            Some(level) => if self.charge_state == ChargeState::Unknown && self.raw_state is None {
                decimal(level as nat) + "%"@
            } else {
                decimal(level as nat) + "% "@ + state
            },
        }
    }

    /// Level and state in words, as far as they are known.
    pub fn text(self) -> (s: String)
        ensures
            s@ == self.spec_text(),
    {
        let state = match (self.charge_state, self.raw_state) {
            (ChargeState::Raw(raw), _) => self.charge_state.text(),
            (state, Some(raw)) => {
                let mut s = state.text();
                s.append(" (raw ");
                append_decimal(&mut s, raw as u128);
                s.append(")");
                s
            },
            (state, None) => state.text(),
        };
        match self.level_percent {
            None => state,
            Some(level) => {
                let mut s = decimal_text(level as u128);
                if self.charge_state == ChargeState::Unknown && self.raw_state.is_none() {
                    s.append("%");
                } else {
                    s.append("% ");
                    s.append(state.as_str());
                }
                s
            },
        }
    }
}

/// The rate that `name` stands for, where it is the name of one.
pub open spec fn rate_named(name: Seq<char>) -> Option<PollingRate> {
    if name == "125"@ {
        Some(PollingRate::Hz125)
    } else if name == "250"@ {
        Some(PollingRate::Hz250)
    } else if name == "500"@ {
        Some(PollingRate::Hz500)
    } else if name == "1000"@ || name == "1k"@ {
        Some(PollingRate::Hz1000)
    } else if name == "2000"@ || name == "2k"@ {
        Some(PollingRate::Hz2000)
    } else if name == "4000"@ || name == "4k"@ {
        Some(PollingRate::Hz4000)
    } else if name == "8000"@ || name == "8k"@ {
        Some(PollingRate::Hz8000)
    } else {
        None
    }
}

/// The rate that `raw` writes, in any case, with or without `hz`, and with
/// white space around it.
pub open spec fn written_rate(raw: Seq<char>) -> Option<PollingRate> {
    rate_named(
        trimmed(
            without_part(lowered(trimmed(raw, Margin::WhiteSpace)), "hz"@),
            Margin::WhiteSpace,
        ),
    )
}

/// What reading a rate from `raw` gives.
pub open spec fn parsed_rate(raw: Seq<char>) -> Result<PollingRate, ErrorText> {
    match written_rate(raw) {
        Some(rate) => Ok(rate),
        None => Err(plain_error("unknown polling rate: "@ + raw)),
    }
}

/// What reading a rate from an unsigned number gives.
pub open spec fn rate_of_number(value: u64) -> Result<PollingRate, ErrorText> {
    if value > u16::MAX {
        Err(plain_error("polling rate is too large: "@ + decimal(value as nat)))
    } else {
        parsed_rate(decimal(value as nat))
    }
}

/// What reading a rate from a signed number gives.
pub open spec fn rate_of_signed_number(value: i64) -> Result<PollingRate, ErrorText> {
    if value < 0 {
        Err(plain_error("polling rate must be positive: "@ + signed_decimal(value as int)))
    } else {
        rate_of_number(value as u64)
    }
}

/// A result with its error in view.
pub open spec fn outcome<V>(r: Result<V, DeviceError>) -> Result<V, ErrorText> {
    match r {
        Ok(v) => Ok(v),
        Err(e) => Err(e@),
    }
}

/// The rate that `code` stands for in 64-byte feature reports, where it stands for one.
pub open spec fn feature64_rate(code: u8) -> Option<PollingRate> {
    match code {
        8 => Some(PollingRate::Hz125),
        4 => Some(PollingRate::Hz250),
        2 => Some(PollingRate::Hz500),
        1 => Some(PollingRate::Hz1000),
        32 => Some(PollingRate::Hz2000),
        64 => Some(PollingRate::Hz4000),
        128 => Some(PollingRate::Hz8000),
        _ => None,
    }
}

/// The rate that `code` stands for in the memory of report8 mice, where it stands for one.
pub open spec fn eeprom16_rate(code: u8) -> Option<PollingRate> {
    match code {
        8 => Some(PollingRate::Hz125),
        4 => Some(PollingRate::Hz250),
        2 => Some(PollingRate::Hz500),
        1 => Some(PollingRate::Hz1000),
        16 => Some(PollingRate::Hz2000),
        32 => Some(PollingRate::Hz4000),
        64 => Some(PollingRate::Hz8000),
        _ => None,
    }
}

/// The rate that `code` stands for in IPI reports, where it stands for one.
pub open spec fn ipi_pix_v1_rate(code: u8) -> Option<PollingRate> {
    match code {
        0 => Some(PollingRate::Hz1000),
        1 => Some(PollingRate::Hz500),
        2 => Some(PollingRate::Hz250),
        3 => Some(PollingRate::Hz125),
        4 => Some(PollingRate::Hz8000),
        5 => Some(PollingRate::Hz4000),
        6 => Some(PollingRate::Hz2000),
        _ => None,
    }
}

impl PollingRate {
    /// The rate in reports a second.
    pub open spec fn spec_hz(self) -> u16 {
        match self {
            PollingRate::Hz125 => 125,
            PollingRate::Hz250 => 250,
            PollingRate::Hz500 => 500,
            PollingRate::Hz1000 => 1000,
            PollingRate::Hz2000 => 2000,
            PollingRate::Hz4000 => 4000,
            PollingRate::Hz8000 => 8000,
        }
    }

    /// The rate in reports a second.
    #[verifier::when_used_as_spec(spec_hz)]
    pub fn hz(self) -> (r: u16)
        ensures
            r == self.spec_hz(),
    {
        match self {
            PollingRate::Hz125 => 125,
            PollingRate::Hz250 => 250,
            PollingRate::Hz500 => 500,
            PollingRate::Hz1000 => 1000,
            PollingRate::Hz2000 => 2000,
            PollingRate::Hz4000 => 4000,
            PollingRate::Hz8000 => 8000,
        }
    }

    /// The byte for the rate in 64-byte feature reports.
    pub open spec fn spec_feature64_code(self) -> u8 {
        match self {
            PollingRate::Hz125 => 8,
            PollingRate::Hz250 => 4,
            PollingRate::Hz500 => 2,
            PollingRate::Hz1000 => 1,
            PollingRate::Hz2000 => 32,
            PollingRate::Hz4000 => 64,
            PollingRate::Hz8000 => 128,
        }
    }

    /// The byte for the rate in 64-byte feature reports.
    #[verifier::when_used_as_spec(spec_feature64_code)]
    pub fn feature64_code(self) -> (r: u8)
        ensures
            r == self.spec_feature64_code(),
    {
        match self {
            PollingRate::Hz125 => 8,
            PollingRate::Hz250 => 4,
            PollingRate::Hz500 => 2,
            PollingRate::Hz1000 => 1,
            PollingRate::Hz2000 => 32,
            PollingRate::Hz4000 => 64,
            PollingRate::Hz8000 => 128,
        }
    }

    /// The byte for the rate in the memory of report8 mice.
    pub open spec fn spec_eeprom16_code(self) -> u8 {
        match self {
            PollingRate::Hz125 => 8,
            PollingRate::Hz250 => 4,
            PollingRate::Hz500 => 2,
            PollingRate::Hz1000 => 1,
            PollingRate::Hz2000 => 16,
            PollingRate::Hz4000 => 32,
            PollingRate::Hz8000 => 64,
        }
    }

    /// The byte for the rate in the memory of report8 mice.
    #[verifier::when_used_as_spec(spec_eeprom16_code)]
    pub fn eeprom16_code(self) -> (r: u8)
        ensures
            r == self.spec_eeprom16_code(),
    {
        match self {
            PollingRate::Hz125 => 8,
            PollingRate::Hz250 => 4,
            PollingRate::Hz500 => 2,
            PollingRate::Hz1000 => 1,
            PollingRate::Hz2000 => 16,
            PollingRate::Hz4000 => 32,
            PollingRate::Hz8000 => 64,
        }
    }

    /// The rate that `code` stands for in 64-byte feature reports: the one
    /// whose code it is, and none where it is the code of none.
    pub fn from_feature64_code(code: u8) -> (r: Option<PollingRate>)
        ensures
            r == feature64_rate(code),
            r matches Some(rate) ==> rate.feature64_code() == code,
            r is None ==> forall|rate: PollingRate| rate.feature64_code() != code,
    {
        match code {
            8 => Some(PollingRate::Hz125),
            4 => Some(PollingRate::Hz250),
            2 => Some(PollingRate::Hz500),
            1 => Some(PollingRate::Hz1000),
            32 => Some(PollingRate::Hz2000),
            64 => Some(PollingRate::Hz4000),
            128 => Some(PollingRate::Hz8000),
            _ => None,
        }
    }

    /// The rate that `code` stands for in the memory of report8 mice: the one
    /// whose code it is, and none where it is the code of none.
    pub fn from_eeprom16_code(code: u8) -> (r: Option<PollingRate>)
        ensures
            r == eeprom16_rate(code),
            r matches Some(rate) ==> rate.eeprom16_code() == code,
            r is None ==> forall|rate: PollingRate| rate.eeprom16_code() != code,
    {
        match code {
            8 => Some(PollingRate::Hz125),
            4 => Some(PollingRate::Hz250),
            2 => Some(PollingRate::Hz500),
            1 => Some(PollingRate::Hz1000),
            16 => Some(PollingRate::Hz2000),
            32 => Some(PollingRate::Hz4000),
            64 => Some(PollingRate::Hz8000),
            _ => None,
        }
    }

    /// The number for the rate in IPI reports.
    pub open spec fn spec_ipi_pix_v1_code(self) -> u8 {
        match self {
            PollingRate::Hz1000 => 0,
            PollingRate::Hz500 => 1,
            PollingRate::Hz250 => 2,
            PollingRate::Hz125 => 3,
            PollingRate::Hz8000 => 4,
            PollingRate::Hz4000 => 5,
            PollingRate::Hz2000 => 6,
        }
    }

    /// The number for the rate in IPI reports.
    #[verifier::when_used_as_spec(spec_ipi_pix_v1_code)]
    pub fn ipi_pix_v1_code(self) -> (r: u8)
        ensures
            r == self.spec_ipi_pix_v1_code(),
    {
        match self {
            PollingRate::Hz1000 => 0,
            PollingRate::Hz500 => 1,
            PollingRate::Hz250 => 2,
            PollingRate::Hz125 => 3,
            PollingRate::Hz8000 => 4,
            PollingRate::Hz4000 => 5,
            PollingRate::Hz2000 => 6,
        }
    }

    /// The rate that `code` stands for in IPI reports: the one whose number it
    /// is, and none where it is the number of none.
    pub fn from_ipi_pix_v1_code(code: u8) -> (r: Option<PollingRate>)
        ensures
            r == ipi_pix_v1_rate(code),
            r matches Some(rate) ==> rate.ipi_pix_v1_code() == code,
            r is None ==> forall|rate: PollingRate| rate.ipi_pix_v1_code() != code,
    {
        match code {
            0 => Some(PollingRate::Hz1000),
            1 => Some(PollingRate::Hz500),
            2 => Some(PollingRate::Hz250),
            3 => Some(PollingRate::Hz125),
            4 => Some(PollingRate::Hz8000),
            5 => Some(PollingRate::Hz4000),
            6 => Some(PollingRate::Hz2000),
            _ => None,
        }
    }

    /// The interval in milliseconds that stands for the rate in HID++ reports;
    /// rates above 1000 Hz have none.
    pub open spec fn spec_logitech_hidpp_code(self) -> Option<u8> {
        if self.hz() <= 1000 {
            Some((1000u16 / self.hz()) as u8)
        } else {
            None
        }
    }

    /// The interval in milliseconds that stands for the rate in HID++ reports;
    /// rates above 1000 Hz have none.
    #[verifier::when_used_as_spec(spec_logitech_hidpp_code)]
    pub fn logitech_hidpp_code(self) -> (r: Option<u8>)
        ensures
            r == self.spec_logitech_hidpp_code(),
    {
        match self {
            PollingRate::Hz1000 => Some(0x01),
            PollingRate::Hz500 => Some(0x02),
            PollingRate::Hz250 => Some(0x04),
            PollingRate::Hz125 => Some(0x08),
            PollingRate::Hz2000 | PollingRate::Hz4000 | PollingRate::Hz8000 => None,
        }
    }

    /// The bit for the rate in Razer reports. Some mice count the bits from
    /// 125 Hz up, the reversed ones from 8000 Hz down.
    pub open spec fn spec_razer_v1_mask(self, reversed: bool) -> u8 {
        match (self, reversed) {
            (PollingRate::Hz125, false) => 0x01,
            (PollingRate::Hz250, false) => 0x02,
            (PollingRate::Hz500, false) => 0x04,
            (PollingRate::Hz1000, false) => 0x08,
            (PollingRate::Hz2000, false) => 0x10,
            (PollingRate::Hz4000, false) => 0x20,
            (PollingRate::Hz8000, false) => 0x40,
            (PollingRate::Hz125, true) => 0x40,
            (PollingRate::Hz250, true) => 0x20,
            (PollingRate::Hz500, true) => 0x10,
            (PollingRate::Hz1000, true) => 0x08,
            (PollingRate::Hz2000, true) => 0x04,
            (PollingRate::Hz4000, true) => 0x02,
            (PollingRate::Hz8000, true) => 0x01,
        }
    }

    /// The bit for the rate in Razer reports. Some mice count the bits from
    /// 125 Hz up, the reversed ones from 8000 Hz down.
    #[verifier::when_used_as_spec(spec_razer_v1_mask)]
    pub fn razer_v1_mask(self, reversed: bool) -> (r: u8)
        ensures
            r == self.spec_razer_v1_mask(reversed),
    {
        match (self, reversed) {
            (PollingRate::Hz125, false) => 0x01,
            (PollingRate::Hz250, false) => 0x02,
            (PollingRate::Hz500, false) => 0x04,
            (PollingRate::Hz1000, false) => 0x08,
            (PollingRate::Hz2000, false) => 0x10,
            (PollingRate::Hz4000, false) => 0x20,
            (PollingRate::Hz8000, false) => 0x40,
            (PollingRate::Hz125, true) => 0x40,
            (PollingRate::Hz250, true) => 0x20,
            (PollingRate::Hz500, true) => 0x10,
            (PollingRate::Hz1000, true) => 0x08,
            (PollingRate::Hz2000, true) => 0x04,
            (PollingRate::Hz4000, true) => 0x02,
            (PollingRate::Hz8000, true) => 0x01,
        }
    }

    /// The rate in words.
    pub open spec fn spec_text(self) -> Seq<char> {
        decimal(self.hz() as nat) + " Hz"@
    }

    /// The rate in words.
    pub fn text(self) -> (s: String)
        ensures
            s@ == self.spec_text(),
    {
        let mut s = decimal_text(self.hz() as u128);
        s.append(" Hz");
        s
    }

    /// Reads a rate such as `1000`, `1k`, `8K` or `500 Hz`.
    pub fn parse(raw: &str) -> (r: Result<PollingRate, DeviceError>)
        ensures
            outcome(r) == parsed_rate(raw@),
    {
        let outer = trim(raw, Margin::WhiteSpace);
        let lowered_name = lower(outer.as_str());
        let bare = remove_part(lowered_name.as_str(), "hz");
        let name = trim(bare.as_str(), Margin::WhiteSpace);
        let name = name.as_str();
        if same_text(name, "125") {
            Ok(PollingRate::Hz125)
        } else if same_text(name, "250") {
            Ok(PollingRate::Hz250)
        } else if same_text(name, "500") {
            Ok(PollingRate::Hz500)
        } else if same_text(name, "1000") || same_text(name, "1k") {
            Ok(PollingRate::Hz1000)
        } else if same_text(name, "2000") || same_text(name, "2k") {
            Ok(PollingRate::Hz2000)
        } else if same_text(name, "4000") || same_text(name, "4k") {
            Ok(PollingRate::Hz4000)
        } else if same_text(name, "8000") || same_text(name, "8k") {
            Ok(PollingRate::Hz8000)
        } else {
            let mut message = "unknown polling rate: ".to_owned();
            message.append(raw);
            Err(DeviceError::new(message))
        }
    }

    /// Reads a rate from an unsigned number.
    pub fn from_number(value: u64) -> (r: Result<PollingRate, DeviceError>)
        ensures
            outcome(r) == rate_of_number(value),
    {
        if value > u16::MAX as u64 {
            let mut message = "polling rate is too large: ".to_owned();
            append_decimal(&mut message, value as u128);
            return Err(DeviceError::new(message));
        }
        let name = decimal_text(value as u128);
        PollingRate::parse(name.as_str())
    }

    /// Reads a rate from a signed number.
    pub fn from_signed_number(value: i64) -> (r: Result<PollingRate, DeviceError>)
        ensures
            outcome(r) == rate_of_signed_number(value),
    {
        if value < 0 {
            let mut message = "polling rate must be positive: ".to_owned();
            assert(seq!['-'] == "-"@) by {
                reveal_strlit("-");
            }
            let ghost start = message@;
            message.append("-");
            append_decimal(&mut message, (-(value as i128)) as u128);
            assert(message@ == start + signed_decimal(value as int));
            return Err(DeviceError::new(message));
        }
        PollingRate::from_number(value as u64)
    }
}

impl std::str::FromStr for PollingRate {
    type Err = DeviceError;

    fn from_str(raw: &str) -> (r: Result<PollingRate, DeviceError>)
        ensures
            outcome(r) == parsed_rate(raw@),
    {
        PollingRate::parse(raw)
    }
}

/// What a status byte of a G-Wolves mouse says of its battery.
pub open spec fn gwolves_charge_state(status: u8) -> ChargeState {
    match status {
        0 => ChargeState::Discharging,
        1 => ChargeState::Charging,
        2 => ChargeState::Full,
        raw => ChargeState::Raw(raw),
    }
}

/// What a status byte of a G-Wolves mouse says of its battery.
pub fn gwolves_charge_state_from_status(status: u8) -> (r: ChargeState)
    ensures
        r == gwolves_charge_state(status),
{
    match status {
        0 => ChargeState::Discharging,
        1 => ChargeState::Charging,
        2 => ChargeState::Full,
        raw => ChargeState::Raw(raw),
    }
}

/// The language that a mouse is spoken to in.
#[derive(Clone, Copy, Debug, PartialEq, Eq, Structural)]
pub enum ProtocolKind {
    /// 64-byte feature reports, in an old and a new form.
    Feature64 { new_protocol: bool, wired_device_id: u8 },
    /// 16-byte reports that read and write the memory of the mouse.
    Eeprom16,
    /// IPI feature reports under a report id of their own.
    IpiPixV1 { report_id: u8 },
    /// Logitech HID++ output and input reports.
    LogitechHidpp,
    /// Razer 90-byte feature reports.
    RazerV1 { tx_id: u8, polling_reversed: bool },
}

impl ProtocolKind {
    /// The byte for `rate` in this protocol, and 0 where it has none.
    pub open spec fn spec_rate_code(self, rate: PollingRate) -> u8 {
        match self {
            ProtocolKind::Feature64 { .. } => rate.feature64_code(),
            ProtocolKind::Eeprom16 => rate.eeprom16_code(),
            ProtocolKind::IpiPixV1 { .. } => rate.ipi_pix_v1_code(),
            ProtocolKind::LogitechHidpp => match rate.logitech_hidpp_code() {
                Some(code) => code,
                None => 0,
            },
            ProtocolKind::RazerV1 { polling_reversed, .. } => rate.razer_v1_mask(polling_reversed),
        }
    }

    /// The byte for `rate` in this protocol, and 0 where it has none.
    #[verifier::when_used_as_spec(spec_rate_code)]
    pub fn rate_code(self, rate: PollingRate) -> (r: u8)
        ensures
            r == self.spec_rate_code(rate),
    {
        match self {
            ProtocolKind::Feature64 { .. } => rate.feature64_code(),
            ProtocolKind::Eeprom16 => rate.eeprom16_code(),
            ProtocolKind::IpiPixV1 { .. } => rate.ipi_pix_v1_code(),
            ProtocolKind::LogitechHidpp => match rate.logitech_hidpp_code() {
                Some(code) => code,
                None => 0,
            },
            ProtocolKind::RazerV1 { polling_reversed, .. } => rate.razer_v1_mask(polling_reversed),
        }
    }

    /// The rate whose byte `code` is in this protocol, where the protocol has
    /// a way to read the rate and `code` is the byte of one.
    pub open spec fn rate_coded(self, code: u8) -> Option<PollingRate> {
        match self {
            ProtocolKind::Feature64 { .. } => feature64_rate(code),
            ProtocolKind::Eeprom16 => eeprom16_rate(code),
            ProtocolKind::IpiPixV1 { .. } => ipi_pix_v1_rate(code),
            ProtocolKind::LogitechHidpp | ProtocolKind::RazerV1 { .. } => None,
        }
    }

    /// The rate whose byte `code` is in this protocol, where the protocol has
    /// a way to read the rate and `code` is the byte of one.
    pub fn rate_from_code(self, code: u8) -> (r: Option<PollingRate>)
        ensures
            r == self.rate_coded(code),
            r matches Some(rate) ==> self.rate_code(rate) == code,
    {
        match self {
            ProtocolKind::Feature64 { .. } => PollingRate::from_feature64_code(code),
            ProtocolKind::Eeprom16 => PollingRate::from_eeprom16_code(code),
            ProtocolKind::IpiPixV1 { .. } => PollingRate::from_ipi_pix_v1_code(code),
            ProtocolKind::LogitechHidpp | ProtocolKind::RazerV1 { .. } => None,
        }
    }

    /// Whether the configured rate can be read back in this protocol.
    pub open spec fn spec_supports_rate_read(self) -> bool {
        match self {
            ProtocolKind::Feature64 { .. }
            | ProtocolKind::Eeprom16
            | ProtocolKind::IpiPixV1 { .. } => true,
            ProtocolKind::LogitechHidpp | ProtocolKind::RazerV1 { .. } => false,
        }
    }

    /// Whether the configured rate can be read back in this protocol.
    #[verifier::when_used_as_spec(spec_supports_rate_read)]
    pub fn supports_rate_read(self) -> (r: bool)
        ensures
            r == self.spec_supports_rate_read(),
    {
        match self {
            ProtocolKind::Feature64 { .. }
            | ProtocolKind::Eeprom16
            | ProtocolKind::IpiPixV1 { .. } => true,
            ProtocolKind::LogitechHidpp | ProtocolKind::RazerV1 { .. } => false,
        }
    }

    /// Whether the battery can be read in this protocol: in each of them.
    pub open spec fn spec_supports_battery_read(self) -> bool {
        true
    }

    /// Whether the battery can be read in this protocol: in each of them.
    #[verifier::when_used_as_spec(spec_supports_battery_read)]
    pub fn supports_battery_read(self) -> (r: bool)
        ensures
            r == self.spec_supports_battery_read(),
    {
        true
    }

    /// Whether the sensor resolution can be read and set in this protocol with
    /// no more than the protocol being known. IPI mice are left out: where
    /// their resolutions stand, and what they stand for, differs between
    /// models and is not known of the protocol.
    pub open spec fn spec_supports_dpi(self) -> bool {
        self == ProtocolKind::Eeprom16
    }

    /// Whether the sensor resolution can be read and set in this protocol with
    /// no more than the protocol being known. IPI mice are left out: where
    /// their resolutions stand, and what they stand for, differs between
    /// models and is not known of the protocol.
    #[verifier::when_used_as_spec(spec_supports_dpi)]
    pub fn supports_dpi(self) -> (r: bool)
        ensures
            r == self.spec_supports_dpi(),
    {
        match self {
            ProtocolKind::Eeprom16 => true,
            _ => false,
        }
    }

    /// The protocol in words.
    pub open spec fn spec_text(self) -> Seq<char> {
        match self {
            ProtocolKind::Feature64 { new_protocol: true, .. } => "feature64 new"@,
            ProtocolKind::Feature64 { new_protocol: false, .. } => "feature64 old"@,
            ProtocolKind::Eeprom16 => "report8 eeprom"@,
            ProtocolKind::IpiPixV1 { .. } => "ipi pix v1"@,
            ProtocolKind::LogitechHidpp => "logitech hid++"@,
            ProtocolKind::RazerV1 { polling_reversed: true, .. } => "razer v1 reversed"@,
            ProtocolKind::RazerV1 { polling_reversed: false, .. } => "razer v1"@,
        }
    }

    /// The protocol in words.
    pub fn text(self) -> (s: &'static str)
        ensures
            s@ == self.spec_text(),
    {
        match self {
            ProtocolKind::Feature64 { new_protocol: true, .. } => "feature64 new",
            ProtocolKind::Feature64 { new_protocol: false, .. } => "feature64 old",
            ProtocolKind::Eeprom16 => "report8 eeprom",
            ProtocolKind::IpiPixV1 { .. } => "ipi pix v1",
            ProtocolKind::LogitechHidpp => "logitech hid++",
            ProtocolKind::RazerV1 { polling_reversed: true, .. } => "razer v1 reversed",
            ProtocolKind::RazerV1 { polling_reversed: false, .. } => "razer v1",
        }
    }
}

/// How a mouse is attached.
#[derive(Clone, Copy, Debug, PartialEq, Eq, Hash, Structural)]
pub enum ConnectionKind {
    Wired,
    Wireless,
    Receiver,
}

impl ConnectionKind {
    /// Whether the mouse hangs on a cable.
    pub open spec fn spec_is_wired(self) -> bool {
        self == ConnectionKind::Wired
    }

    /// Whether the mouse hangs on a cable.
    #[verifier::when_used_as_spec(spec_is_wired)]
    pub fn is_wired(self) -> (r: bool)
        ensures
            r == self.spec_is_wired(),
    {
        match self {
            ConnectionKind::Wired => true,
            _ => false,
        }
    }

    /// The connection in a word.
    pub open spec fn spec_text(self) -> Seq<char> {
        match self {
            ConnectionKind::Wired => "wired"@,
            ConnectionKind::Wireless => "wireless"@,
            ConnectionKind::Receiver => "receiver"@,
        }
    }

    /// The connection in a word.
    pub fn text(self) -> (s: &'static str)
        ensures
            s@ == self.spec_text(),
    {
        match self {
            ConnectionKind::Wired => "wired",
            ConnectionKind::Wireless => "wireless",
            ConnectionKind::Receiver => "receiver",
        }
    }
}

/// What is known of one model of mouse or receiver.
#[derive(Clone, Copy, Debug)]
pub struct ModelInfo {
    pub vendor_name: &'static str,
    pub name: &'static str,
    pub vid: u16,
    pub wired_pid: Option<u16>,
    pub wireless_pid: Option<u16>,
    pub receiver_pid: Option<u16>,
    pub receiver_idvd_pid: Option<u16>,
    pub protocol: ProtocolKind,
    pub wired_rates: &'static [PollingRate],
    pub wireless_rates: &'static [PollingRate],
    pub receiver_rates: &'static [PollingRate],
}

/// Whether `rate` is one of `rates`.
pub fn lists_rate(rates: &[PollingRate], rate: PollingRate) -> (yes: bool)
    ensures
        yes == rates@.contains(rate),
{
    for i in 0..rates.len()
        invariant
            forall|j: int| 0 <= j < i ==> rates[j] != rate,
    {
        if rates[i] == rate {
            return true;
        }
    }
    false
}

impl ModelData {
    /// What asking for `rate` over the given connection gives.
    pub open spec fn required_rate(self, connection: ConnectionKind, rate: PollingRate) -> Result<
        (),
        ErrorText,
    > {
        if self.rates_for(connection).contains(rate) {
            Ok(())
        } else {
            Err(
                plain_error(
                    self.name + " does not list "@ + rate.spec_text() + " for "@
                        + connection.spec_text() + " mode"@,
                ),
            )
        }
    }
}

impl ModelInfo {
    /// How the model is attached when it shows up under these ids.
    pub fn match_connection(&'static self, vid: u16, pid: u16) -> (r: Option<ConnectionKind>)
        ensures
            r == self@.connection_for(vid, pid),
    {
        if vid != self.vid {
            return None;
        }
        if self.wired_pid == Some(pid) {
            return Some(ConnectionKind::Wired);
        }
        if self.receiver_pid == Some(pid) || self.receiver_idvd_pid == Some(pid) {
            return Some(ConnectionKind::Receiver);
        }
        if self.wireless_pid == Some(pid) {
            return Some(ConnectionKind::Wireless);
        }
        None
    }

    /// The rates that the model offers over the given connection.
    pub fn supported_rates(self, connection: ConnectionKind) -> (r: &'static [PollingRate])
        ensures
            r@ == self@.rates_for(connection),
    {
        match connection {
            ConnectionKind::Wired => self.wired_rates,
            ConnectionKind::Wireless => self.wireless_rates,
            ConnectionKind::Receiver => self.receiver_rates,
        }
    }

    /// Fails where the model does not offer `rate` over the given connection.
    pub fn require_rate(self, connection: ConnectionKind, rate: PollingRate) -> (r: Result<
        (),
        DeviceError,
    >)
        ensures
            outcome(r) == self@.required_rate(connection, rate),
    {
        if lists_rate(self.supported_rates(connection), rate) {
            Ok(())
        } else {
            let mut message = self.name.to_owned();
            message.append(" does not list ");
            message.append(rate.text().as_str());
            message.append(" for ");
            message.append(connection.text());
            message.append(" mode");
            Err(DeviceError::new(message))
        }
    }

    /// The protocols to try on the model, in this order.
    pub fn protocol_candidates(self) -> (r: Vec<ProtocolKind>)
        ensures
            r@ == self@.candidates(),
    {
        let mut protocols: Vec<ProtocolKind> = Vec::new();
        protocols.push(self.protocol);
        if let ProtocolKind::Feature64 { new_protocol: false, wired_device_id } = self.protocol {
            protocols.push(ProtocolKind::Feature64 { new_protocol: true, wired_device_id });
        }
        protocols
    }
}

/// The rates in reports a second, as texts.
pub open spec fn rate_numbers(rates: Seq<PollingRate>) -> Seq<Seq<char>> {
    rates.map_values(|rate: PollingRate| decimal(rate.hz() as nat))
}

/// The rates in reports a second, with commas between them.
pub fn format_supported_rates(rates: &[PollingRate]) -> (s: String)
    ensures
        s@ == joined(rate_numbers(rates@), ", "@),
{
    let mut numbers: Vec<String> = Vec::new();
    for i in 0..rates.len()
        invariant
            texts(numbers@) == rate_numbers(rates@).take(i as int),
    {
        let ghost before = numbers@;
        numbers.push(decimal_text(rates[i].hz() as u128));
        assert(texts(numbers@) =~= texts(before).push(rate_numbers(rates@)[i as int]));
        assert(rate_numbers(rates@).take(i + 1) =~= rate_numbers(rates@).take(i as int).push(
            rate_numbers(rates@)[i as int],
        ));
    }
    assert(rate_numbers(rates@).take(rates.len() as int) == rate_numbers(rates@));
    join_texts(&numbers, ", ")
}

} // verus!
