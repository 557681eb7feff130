//! The mice and receivers that this crate knows, and how to tell them apart.
use crate::devices::{ConnectionKind, ModelInfo, PollingRate, ProtocolKind};
use vstd::prelude::*;

verus! {

pub const GWOLVES_VENDOR_ID: u16 = 0x33E4;

pub const IPI_VENDOR_ID: u16 = 0x372E;

pub const LOGITECH_VENDOR_ID: u16 = 0x046D;

pub const RAZER_VENDOR_ID: u16 = 0x1532;

pub const RATES_1K: [PollingRate; 4] = [
    PollingRate::Hz125,
    PollingRate::Hz250,
    PollingRate::Hz500,
    PollingRate::Hz1000,
];

pub const RATES_4K: [PollingRate; 5] = [
    PollingRate::Hz125,
    PollingRate::Hz500,
    PollingRate::Hz1000,
    PollingRate::Hz2000,
    PollingRate::Hz4000,
];

pub const RATES_8K: [PollingRate; 7] = [
    PollingRate::Hz125,
    PollingRate::Hz250,
    PollingRate::Hz500,
    PollingRate::Hz1000,
    PollingRate::Hz2000,
    PollingRate::Hz4000,
    PollingRate::Hz8000,
];

/// What a [`ModelInfo`] says.
#[verifier::ext_equal]
pub struct ModelData {
    pub vendor_name: Seq<char>,
    pub name: Seq<char>,
    pub vid: u16,
    pub wired_pid: Option<u16>,
    pub wireless_pid: Option<u16>,
    pub receiver_pid: Option<u16>,
    pub receiver_idvd_pid: Option<u16>,
    pub protocol: ProtocolKind,
    pub wired_rates: Seq<PollingRate>,
    pub wireless_rates: Seq<PollingRate>,
    pub receiver_rates: Seq<PollingRate>,
}

impl View for ModelInfo {
    type V = ModelData;

    open spec fn view(&self) -> ModelData {
        ModelData {
            vendor_name: self.vendor_name@,
            name: self.name@,
            vid: self.vid,
            wired_pid: self.wired_pid,
            wireless_pid: self.wireless_pid,
            receiver_pid: self.receiver_pid,
            receiver_idvd_pid: self.receiver_idvd_pid,
            protocol: self.protocol,
            wired_rates: self.wired_rates@,
            wireless_rates: self.wireless_rates@,
            receiver_rates: self.receiver_rates@,
        }
    }
}

impl ModelData {
    /// How the model is attached when it shows up under these ids.
    pub open spec fn connection_for(self, vid: u16, pid: u16) -> Option<ConnectionKind> {
        if vid != self.vid {
            None
        } else if self.wired_pid == Some(pid) {
            Some(ConnectionKind::Wired)
        } else if self.receiver_pid == Some(pid) || self.receiver_idvd_pid == Some(pid) {
            Some(ConnectionKind::Receiver)
        } else if self.wireless_pid == Some(pid) {
            Some(ConnectionKind::Wireless)
        } else {
            None
        }
    }

    /// The rates that the model offers over the given connection.
    pub open spec fn rates_for(self, connection: ConnectionKind) -> Seq<PollingRate> {
        match connection {
            ConnectionKind::Wired => self.wired_rates,
            ConnectionKind::Wireless => self.wireless_rates,
            ConnectionKind::Receiver => self.receiver_rates,
        }
    }

    /// The protocols to try on the model, in this order: its own, and for an
    /// old feature report model the new form of those reports too.
    pub open spec fn candidates(self) -> Seq<ProtocolKind> {
        match self.protocol {
            ProtocolKind::Feature64 { new_protocol: false, wired_device_id } => seq![
                self.protocol,
                ProtocolKind::Feature64 { new_protocol: true, wired_device_id },
            ],
            _ => seq![self.protocol],
        }
    }
}

/// What each of `models` says.
pub open spec fn models_data(models: Seq<ModelInfo>) -> Seq<ModelData> {
    models.map_values(|model: ModelInfo| model@)
}

/// What is known of the G-Wolves mice.
pub open spec fn fenrir_catalog() -> Seq<ModelData> {
    seq![
        ModelData {
            vendor_name: "G-Wolves"@,
            name: "Fenrir Pro"@,
            vid: GWOLVES_VENDOR_ID,
            wired_pid: Some(0x3608),
            wireless_pid: Some(0x3617),
            receiver_pid: Some(0x3617),
            receiver_idvd_pid: Some(0x3817),
            protocol: ProtocolKind::Feature64 { new_protocol: true, wired_device_id: 2 },
            wired_rates: RATES_8K@,
            wireless_rates: RATES_1K@,
            receiver_rates: RATES_8K@,
        },
        ModelData {
            vendor_name: "G-Wolves"@,
            name: "Fenrir Pro"@,
            vid: GWOLVES_VENDOR_ID,
            wired_pid: Some(0x3619),
            wireless_pid: Some(0x3854),
            receiver_pid: Some(0x3854),
            receiver_idvd_pid: None,
            protocol: ProtocolKind::Eeprom16,
            wired_rates: RATES_8K@,
            wireless_rates: RATES_8K@,
            receiver_rates: RATES_8K@,
        },
        ModelData {
            vendor_name: "G-Wolves"@,
            name: "Fenrir"@,
            vid: GWOLVES_VENDOR_ID,
            wired_pid: Some(0x3508),
            wireless_pid: Some(0x3517),
            receiver_pid: Some(0x3517),
            receiver_idvd_pid: Some(0x0017),
            protocol: ProtocolKind::Feature64 { new_protocol: false, wired_device_id: 2 },
            wired_rates: RATES_1K@,
            wireless_rates: RATES_1K@,
            receiver_rates: RATES_8K@,
        },
        ModelData {
            vendor_name: "G-Wolves"@,
            name: "Fenir Max"@,
            vid: GWOLVES_VENDOR_ID,
            wired_pid: Some(0x3708),
            wireless_pid: Some(0x3717),
            receiver_pid: Some(0x3717),
            receiver_idvd_pid: Some(0x0017),
            protocol: ProtocolKind::Feature64 { new_protocol: false, wired_device_id: 2 },
            wired_rates: RATES_1K@,
            wireless_rates: RATES_1K@,
            receiver_rates: RATES_8K@,
        },
    ]
}

/// What is known of the IPI mice.
pub open spec fn ipi_piao_catalog() -> Seq<ModelData> {
    seq![
        ModelData {
            vendor_name: "IPI"@,
            name: "Piao"@,
            vid: IPI_VENDOR_ID,
            wired_pid: Some(0x1015),
            wireless_pid: None,
            receiver_pid: None,
            receiver_idvd_pid: None,
            protocol: ProtocolKind::IpiPixV1 { report_id: 3 },
            wired_rates: RATES_8K@,
            wireless_rates: RATES_8K@,
            receiver_rates: RATES_8K@,
        },
        ModelData {
            vendor_name: "IPI"@,
            name: "Piao"@,
            vid: IPI_VENDOR_ID,
            wired_pid: Some(0x1028),
            wireless_pid: None,
            receiver_pid: None,
            receiver_idvd_pid: None,
            protocol: ProtocolKind::IpiPixV1 { report_id: 3 },
            wired_rates: RATES_8K@,
            wireless_rates: RATES_8K@,
            receiver_rates: RATES_8K@,
        },
        ModelData {
            vendor_name: "IPI"@,
            name: "Piao"@,
            vid: IPI_VENDOR_ID,
            wired_pid: Some(0x1056),
            wireless_pid: None,
            receiver_pid: None,
            receiver_idvd_pid: None,
            protocol: ProtocolKind::IpiPixV1 { report_id: 3 },
            wired_rates: RATES_8K@,
            wireless_rates: RATES_8K@,
            receiver_rates: RATES_8K@,
        },
        ModelData {
            vendor_name: "IPI"@,
            name: "Piao"@,
            vid: IPI_VENDOR_ID,
            wired_pid: None,
            wireless_pid: Some(0x1014),
            receiver_pid: None,
            receiver_idvd_pid: None,
            protocol: ProtocolKind::IpiPixV1 { report_id: 3 },
            wired_rates: RATES_8K@,
            wireless_rates: RATES_8K@,
            receiver_rates: RATES_8K@,
        },
    ]
}

/// What is known of the Logitech mice and receivers.
pub open spec fn logitech_catalog() -> Seq<ModelData> {
    seq![
        ModelData {
            vendor_name: "Logitech"@,
            name: "Lightspeed Receiver"@,
            vid: LOGITECH_VENDOR_ID,
            wired_pid: None,
            wireless_pid: None,
            receiver_pid: Some(0xC547),
            receiver_idvd_pid: None,
            protocol: ProtocolKind::LogitechHidpp,
            wired_rates: RATES_1K@,
            wireless_rates: RATES_1K@,
            receiver_rates: RATES_1K@,
        },
        ModelData {
            vendor_name: "Logitech"@,
            name: "PRO X SUPERLIGHT"@,
            vid: LOGITECH_VENDOR_ID,
            wired_pid: Some(0xC094),
            wireless_pid: None,
            receiver_pid: None,
            receiver_idvd_pid: None,
            protocol: ProtocolKind::LogitechHidpp,
            wired_rates: RATES_1K@,
            wireless_rates: RATES_1K@,
            receiver_rates: RATES_1K@,
        },
        ModelData {
            vendor_name: "Logitech"@,
            name: "PRO X SUPERLIGHT 2"@,
            vid: LOGITECH_VENDOR_ID,
            wired_pid: Some(0xC09B),
            wireless_pid: None,
            receiver_pid: None,
            receiver_idvd_pid: None,
            protocol: ProtocolKind::LogitechHidpp,
            wired_rates: RATES_1K@,
            wireless_rates: RATES_1K@,
            receiver_rates: RATES_1K@,
        },
        ModelData {
            vendor_name: "Logitech"@,
            name: "PRO X Superlight Wireless"@,
            vid: LOGITECH_VENDOR_ID,
            wired_pid: None,
            wireless_pid: Some(0x4093),
            receiver_pid: None,
            receiver_idvd_pid: None,
            protocol: ProtocolKind::LogitechHidpp,
            wired_rates: RATES_1K@,
            wireless_rates: RATES_1K@,
            receiver_rates: RATES_1K@,
        },
    ]
}

/// What is known of the Razer mice.
pub open spec fn razer_catalog() -> Seq<ModelData> {
    seq![
        ModelData {
            vendor_name: "Razer"@,
            name: "Viper V3 Pro"@,
            vid: RAZER_VENDOR_ID,
            wired_pid: Some(0x00C0),
            wireless_pid: Some(0x00C1),
            receiver_pid: None,
            receiver_idvd_pid: None,
            protocol: ProtocolKind::RazerV1 { tx_id: 0x1F, polling_reversed: true },
            wired_rates: RATES_8K@,
            wireless_rates: RATES_8K@,
            receiver_rates: RATES_8K@,
        },
        ModelData {
            vendor_name: "Razer"@,
            name: "Viper V3 HyperSpeed"@,
            vid: RAZER_VENDOR_ID,
            wired_pid: Some(0x00B6),
            wireless_pid: Some(0x00B8),
            receiver_pid: None,
            receiver_idvd_pid: None,
            protocol: ProtocolKind::RazerV1 { tx_id: 0x1F, polling_reversed: true },
            wired_rates: RATES_8K@,
            wireless_rates: RATES_8K@,
            receiver_rates: RATES_8K@,
        },
        ModelData {
            vendor_name: "Razer"@,
            name: "Viper V2 Pro"@,
            vid: RAZER_VENDOR_ID,
            wired_pid: Some(0x00A5),
            wireless_pid: Some(0x00A6),
            receiver_pid: None,
            receiver_idvd_pid: None,
            protocol: ProtocolKind::RazerV1 { tx_id: 0x1F, polling_reversed: true },
            wired_rates: RATES_8K@,
            wireless_rates: RATES_8K@,
            receiver_rates: RATES_8K@,
        },
        ModelData {
            vendor_name: "Razer"@,
            name: "DeathAdder V4 Pro"@,
            vid: RAZER_VENDOR_ID,
            wired_pid: Some(0x00BE),
            wireless_pid: Some(0x00BF),
            receiver_pid: None,
            receiver_idvd_pid: None,
            protocol: ProtocolKind::RazerV1 { tx_id: 0x1F, polling_reversed: true },
            wired_rates: RATES_8K@,
            wireless_rates: RATES_8K@,
            receiver_rates: RATES_8K@,
        },
        ModelData {
            vendor_name: "Razer"@,
            name: "DeathAdder V3"@,
            vid: RAZER_VENDOR_ID,
            wired_pid: Some(0x0090),
            wireless_pid: None,
            receiver_pid: None,
            receiver_idvd_pid: None,
            protocol: ProtocolKind::RazerV1 { tx_id: 0x1F, polling_reversed: true },
            wired_rates: RATES_8K@,
            wireless_rates: RATES_8K@,
            receiver_rates: RATES_8K@,
        },
        ModelData {
            vendor_name: "Razer"@,
            name: "DeathAdder V3 Pro"@,
            vid: RAZER_VENDOR_ID,
            wired_pid: None,
            wireless_pid: Some(0x0092),
            receiver_pid: None,
            receiver_idvd_pid: None,
            protocol: ProtocolKind::RazerV1 { tx_id: 0x1F, polling_reversed: true },
            wired_rates: RATES_8K@,
            wireless_rates: RATES_8K@,
            receiver_rates: RATES_8K@,
        },
        ModelData {
            vendor_name: "Razer"@,
            name: "DeathAdder V2"@,
            vid: RAZER_VENDOR_ID,
            wired_pid: Some(0x007A),
            wireless_pid: None,
            receiver_pid: None,
            receiver_idvd_pid: None,
            protocol: ProtocolKind::RazerV1 { tx_id: 0xFF, polling_reversed: false },
            wired_rates: RATES_8K@,
            wireless_rates: RATES_8K@,
            receiver_rates: RATES_8K@,
        },
        ModelData {
            vendor_name: "Razer"@,
            name: "DeathAdder V2 Pro"@,
            vid: RAZER_VENDOR_ID,
            wired_pid: None,
            wireless_pid: Some(0x007C),
            receiver_pid: None,
            receiver_idvd_pid: None,
            protocol: ProtocolKind::RazerV1 { tx_id: 0x3F, polling_reversed: false },
            wired_rates: RATES_8K@,
            wireless_rates: RATES_8K@,
            receiver_rates: RATES_8K@,
        },
        ModelData {
            vendor_name: "Razer"@,
            name: "Basilisk V3"@,
            vid: RAZER_VENDOR_ID,
            wired_pid: Some(0x0099),
            wireless_pid: None,
            receiver_pid: None,
            receiver_idvd_pid: None,
            protocol: ProtocolKind::RazerV1 { tx_id: 0x1F, polling_reversed: true },
            wired_rates: RATES_8K@,
            wireless_rates: RATES_8K@,
            receiver_rates: RATES_8K@,
        },
        ModelData {
            vendor_name: "Razer"@,
            name: "Basilisk V3 Pro"@,
            vid: RAZER_VENDOR_ID,
            wired_pid: None,
            wireless_pid: Some(0x008E),
            receiver_pid: None,
            receiver_idvd_pid: None,
            protocol: ProtocolKind::RazerV1 { tx_id: 0x1F, polling_reversed: true },
            wired_rates: RATES_8K@,
            wireless_rates: RATES_8K@,
            receiver_rates: RATES_8K@,
        },
        ModelData {
            vendor_name: "Razer"@,
            name: "Basilisk Ultimate"@,
            vid: RAZER_VENDOR_ID,
            wired_pid: None,
            wireless_pid: Some(0x0078),
            receiver_pid: None,
            receiver_idvd_pid: None,
            protocol: ProtocolKind::RazerV1 { tx_id: 0x1F, polling_reversed: false },
            wired_rates: RATES_8K@,
            wireless_rates: RATES_8K@,
            receiver_rates: RATES_8K@,
        },
        ModelData {
            vendor_name: "Razer"@,
            name: "Naga X"@,
            vid: RAZER_VENDOR_ID,
            wired_pid: Some(0x0086),
            wireless_pid: None,
            receiver_pid: None,
            receiver_idvd_pid: None,
            protocol: ProtocolKind::RazerV1 { tx_id: 0x1F, polling_reversed: false },
            wired_rates: RATES_8K@,
            wireless_rates: RATES_8K@,
            receiver_rates: RATES_8K@,
        },
    ]
}

/// The G-Wolves mice.
pub fn fenrir_models() -> (models: &'static [ModelInfo])
    ensures
        models_data(models@) == fenrir_catalog(),
{
    let models: &'static [ModelInfo] = &[
        ModelInfo {
            vendor_name: "G-Wolves",
            name: "Fenrir Pro",
            vid: GWOLVES_VENDOR_ID,
            wired_pid: Some(0x3608),
            wireless_pid: Some(0x3617),
            receiver_pid: Some(0x3617),
            receiver_idvd_pid: Some(0x3817),
            protocol: ProtocolKind::Feature64 { new_protocol: true, wired_device_id: 2 },
            wired_rates: &RATES_8K,
            wireless_rates: &RATES_1K,
            receiver_rates: &RATES_8K,
        },
        ModelInfo {
            vendor_name: "G-Wolves",
            name: "Fenrir Pro",
            vid: GWOLVES_VENDOR_ID,
            wired_pid: Some(0x3619),
            wireless_pid: Some(0x3854),
            receiver_pid: Some(0x3854),
            receiver_idvd_pid: None,
            protocol: ProtocolKind::Eeprom16,
            wired_rates: &RATES_8K,
            wireless_rates: &RATES_8K,
            receiver_rates: &RATES_8K,
        },
        ModelInfo {
            vendor_name: "G-Wolves",
            name: "Fenrir",
            vid: GWOLVES_VENDOR_ID,
            wired_pid: Some(0x3508),
            wireless_pid: Some(0x3517),
            receiver_pid: Some(0x3517),
            receiver_idvd_pid: Some(0x0017),
            protocol: ProtocolKind::Feature64 { new_protocol: false, wired_device_id: 2 },
            wired_rates: &RATES_1K,
            wireless_rates: &RATES_1K,
            receiver_rates: &RATES_8K,
        },
        ModelInfo {
            vendor_name: "G-Wolves",
            name: "Fenir Max",
            vid: GWOLVES_VENDOR_ID,
            wired_pid: Some(0x3708),
            wireless_pid: Some(0x3717),
            receiver_pid: Some(0x3717),
            receiver_idvd_pid: Some(0x0017),
            protocol: ProtocolKind::Feature64 { new_protocol: false, wired_device_id: 2 },
            wired_rates: &RATES_1K,
            wireless_rates: &RATES_1K,
            receiver_rates: &RATES_8K,
        },
    ];
    assert(models_data(models@) =~= fenrir_catalog());
    models
}

/// The IPI mice.
pub fn ipi_piao_models() -> (models: &'static [ModelInfo])
    ensures
        models_data(models@) == ipi_piao_catalog(),
{
    let models: &'static [ModelInfo] = &[
        ModelInfo {
            vendor_name: "IPI",
            name: "Piao",
            vid: IPI_VENDOR_ID,
            wired_pid: Some(0x1015),
            wireless_pid: None,
            receiver_pid: None,
            receiver_idvd_pid: None,
            protocol: ProtocolKind::IpiPixV1 { report_id: 3 },
            wired_rates: &RATES_8K,
            wireless_rates: &RATES_8K,
            receiver_rates: &RATES_8K,
        },
        ModelInfo {
            vendor_name: "IPI",
            name: "Piao",
            vid: IPI_VENDOR_ID,
            wired_pid: Some(0x1028),
            wireless_pid: None,
            receiver_pid: None,
            receiver_idvd_pid: None,
            protocol: ProtocolKind::IpiPixV1 { report_id: 3 },
            wired_rates: &RATES_8K,
            wireless_rates: &RATES_8K,
            receiver_rates: &RATES_8K,
        },
        ModelInfo {
            vendor_name: "IPI",
            name: "Piao",
            vid: IPI_VENDOR_ID,
            wired_pid: Some(0x1056),
            wireless_pid: None,
            receiver_pid: None,
            receiver_idvd_pid: None,
            protocol: ProtocolKind::IpiPixV1 { report_id: 3 },
            wired_rates: &RATES_8K,
            wireless_rates: &RATES_8K,
            receiver_rates: &RATES_8K,
        },
        ModelInfo {
            vendor_name: "IPI",
            name: "Piao",
            vid: IPI_VENDOR_ID,
            wired_pid: None,
            wireless_pid: Some(0x1014),
            receiver_pid: None,
            receiver_idvd_pid: None,
            protocol: ProtocolKind::IpiPixV1 { report_id: 3 },
            wired_rates: &RATES_8K,
            wireless_rates: &RATES_8K,
            receiver_rates: &RATES_8K,
        },
    ];
    assert(models_data(models@) =~= ipi_piao_catalog());
    models
}

/// The Logitech mice and receivers.
pub fn logitech_models() -> (models: &'static [ModelInfo])
    ensures
        models_data(models@) == logitech_catalog(),
{
    let models: &'static [ModelInfo] = &[
        ModelInfo {
            vendor_name: "Logitech",
            name: "Lightspeed Receiver",
            vid: LOGITECH_VENDOR_ID,
            wired_pid: None,
            wireless_pid: None,
            receiver_pid: Some(0xC547),
            receiver_idvd_pid: None,
            protocol: ProtocolKind::LogitechHidpp,
            wired_rates: &RATES_1K,
            wireless_rates: &RATES_1K,
            receiver_rates: &RATES_1K,
        },
        ModelInfo {
            vendor_name: "Logitech",
            name: "PRO X SUPERLIGHT",
            vid: LOGITECH_VENDOR_ID,
            wired_pid: Some(0xC094),
            wireless_pid: None,
            receiver_pid: None,
            receiver_idvd_pid: None,
            protocol: ProtocolKind::LogitechHidpp,
            wired_rates: &RATES_1K,
            wireless_rates: &RATES_1K,
            receiver_rates: &RATES_1K,
        },
        ModelInfo {
            vendor_name: "Logitech",
            name: "PRO X SUPERLIGHT 2",
            vid: LOGITECH_VENDOR_ID,
            wired_pid: Some(0xC09B),
            wireless_pid: None,
            receiver_pid: None,
            receiver_idvd_pid: None,
            protocol: ProtocolKind::LogitechHidpp,
            wired_rates: &RATES_1K,
            wireless_rates: &RATES_1K,
            receiver_rates: &RATES_1K,
        },
        ModelInfo {
            vendor_name: "Logitech",
            name: "PRO X Superlight Wireless",
            vid: LOGITECH_VENDOR_ID,
            wired_pid: None,
            wireless_pid: Some(0x4093),
            receiver_pid: None,
            receiver_idvd_pid: None,
            protocol: ProtocolKind::LogitechHidpp,
            wired_rates: &RATES_1K,
            wireless_rates: &RATES_1K,
            receiver_rates: &RATES_1K,
        },
    ];
    assert(models_data(models@) =~= logitech_catalog());
    models
}

/// The Razer mice.
pub fn razer_models() -> (models: &'static [ModelInfo])
    ensures
        models_data(models@) == razer_catalog(),
{
    let models: &'static [ModelInfo] = &[
        ModelInfo {
            vendor_name: "Razer",
            name: "Viper V3 Pro",
            vid: RAZER_VENDOR_ID,
            wired_pid: Some(0x00C0),
            wireless_pid: Some(0x00C1),
            receiver_pid: None,
            receiver_idvd_pid: None,
            protocol: ProtocolKind::RazerV1 { tx_id: 0x1F, polling_reversed: true },
            wired_rates: &RATES_8K,
            wireless_rates: &RATES_8K,
            receiver_rates: &RATES_8K,
        },
        ModelInfo {
            vendor_name: "Razer",
            name: "Viper V3 HyperSpeed",
            vid: RAZER_VENDOR_ID,
            wired_pid: Some(0x00B6),
            wireless_pid: Some(0x00B8),
            receiver_pid: None,
            receiver_idvd_pid: None,
            protocol: ProtocolKind::RazerV1 { tx_id: 0x1F, polling_reversed: true },
            wired_rates: &RATES_8K,
            wireless_rates: &RATES_8K,
            receiver_rates: &RATES_8K,
        },
        ModelInfo {
            vendor_name: "Razer",
            name: "Viper V2 Pro",
            vid: RAZER_VENDOR_ID,
            wired_pid: Some(0x00A5),
            wireless_pid: Some(0x00A6),
            receiver_pid: None,
            receiver_idvd_pid: None,
            protocol: ProtocolKind::RazerV1 { tx_id: 0x1F, polling_reversed: true },
            wired_rates: &RATES_8K,
            wireless_rates: &RATES_8K,
            receiver_rates: &RATES_8K,
        },
        ModelInfo {
            vendor_name: "Razer",
            name: "DeathAdder V4 Pro",
            vid: RAZER_VENDOR_ID,
            wired_pid: Some(0x00BE),
            wireless_pid: Some(0x00BF),
            receiver_pid: None,
            receiver_idvd_pid: None,
            protocol: ProtocolKind::RazerV1 { tx_id: 0x1F, polling_reversed: true },
            wired_rates: &RATES_8K,
            wireless_rates: &RATES_8K,
            receiver_rates: &RATES_8K,
        },
        ModelInfo {
            vendor_name: "Razer",
            name: "DeathAdder V3",
            vid: RAZER_VENDOR_ID,
            wired_pid: Some(0x0090),
            wireless_pid: None,
            receiver_pid: None,
            receiver_idvd_pid: None,
            protocol: ProtocolKind::RazerV1 { tx_id: 0x1F, polling_reversed: true },
            wired_rates: &RATES_8K,
            wireless_rates: &RATES_8K,
            receiver_rates: &RATES_8K,
        },
        ModelInfo {
            vendor_name: "Razer",
            name: "DeathAdder V3 Pro",
            vid: RAZER_VENDOR_ID,
            wired_pid: None,
            wireless_pid: Some(0x0092),
            receiver_pid: None,
            receiver_idvd_pid: None,
            protocol: ProtocolKind::RazerV1 { tx_id: 0x1F, polling_reversed: true },
            wired_rates: &RATES_8K,
            wireless_rates: &RATES_8K,
            receiver_rates: &RATES_8K,
        },
        ModelInfo {
            vendor_name: "Razer",
            name: "DeathAdder V2",
            vid: RAZER_VENDOR_ID,
            wired_pid: Some(0x007A),
            wireless_pid: None,
            receiver_pid: None,
            receiver_idvd_pid: None,
            protocol: ProtocolKind::RazerV1 { tx_id: 0xFF, polling_reversed: false },
            wired_rates: &RATES_8K,
            wireless_rates: &RATES_8K,
            receiver_rates: &RATES_8K,
        },
        ModelInfo {
            vendor_name: "Razer",
            name: "DeathAdder V2 Pro",
            vid: RAZER_VENDOR_ID,
            wired_pid: None,
            wireless_pid: Some(0x007C),
            receiver_pid: None,
            receiver_idvd_pid: None,
            protocol: ProtocolKind::RazerV1 { tx_id: 0x3F, polling_reversed: false },
            wired_rates: &RATES_8K,
            wireless_rates: &RATES_8K,
            receiver_rates: &RATES_8K,
        },
        ModelInfo {
            vendor_name: "Razer",
            name: "Basilisk V3",
            vid: RAZER_VENDOR_ID,
            wired_pid: Some(0x0099),
            wireless_pid: None,
            receiver_pid: None,
            receiver_idvd_pid: None,
            protocol: ProtocolKind::RazerV1 { tx_id: 0x1F, polling_reversed: true },
            wired_rates: &RATES_8K,
            wireless_rates: &RATES_8K,
            receiver_rates: &RATES_8K,
        },
        ModelInfo {
            vendor_name: "Razer",
            name: "Basilisk V3 Pro",
            vid: RAZER_VENDOR_ID,
            wired_pid: None,
            wireless_pid: Some(0x008E),
            receiver_pid: None,
            receiver_idvd_pid: None,
            protocol: ProtocolKind::RazerV1 { tx_id: 0x1F, polling_reversed: true },
            wired_rates: &RATES_8K,
            wireless_rates: &RATES_8K,
            receiver_rates: &RATES_8K,
        },
        ModelInfo {
            vendor_name: "Razer",
            name: "Basilisk Ultimate",
            vid: RAZER_VENDOR_ID,
            wired_pid: None,
            wireless_pid: Some(0x0078),
            receiver_pid: None,
            receiver_idvd_pid: None,
            protocol: ProtocolKind::RazerV1 { tx_id: 0x1F, polling_reversed: false },
            wired_rates: &RATES_8K,
            wireless_rates: &RATES_8K,
            receiver_rates: &RATES_8K,
        },
        ModelInfo {
            vendor_name: "Razer",
            name: "Naga X",
            vid: RAZER_VENDOR_ID,
            wired_pid: Some(0x0086),
            wireless_pid: None,
            receiver_pid: None,
            receiver_idvd_pid: None,
            protocol: ProtocolKind::RazerV1 { tx_id: 0x1F, polling_reversed: false },
            wired_rates: &RATES_8K,
            wireless_rates: &RATES_8K,
            receiver_rates: &RATES_8K,
        },
    ];
    assert(models_data(models@) =~= razer_catalog());
    models
}

/// All known models, in the order in which they are tried.
pub open spec fn catalog() -> Seq<ModelData> {
    fenrir_catalog() + ipi_piao_catalog() + logitech_catalog() + razer_catalog()
}

/// The first of `models` that goes by these ids, and its connection.
pub open spec fn first_match(models: Seq<ModelData>, vid: u16, pid: u16) -> Option<
    (ModelData, ConnectionKind),
>
    decreases models.len(),
{
    if models.len() == 0 {
        None
    } else {
        match models[0].connection_for(vid, pid) {
            Some(connection) => Some((models[0], connection)),
            None => first_match(models.skip(1), vid, pid),
        }
    }
}

/// The first match of two lists on end is that of the first, where it has one.
pub proof fn lemma_first_match_add(a: Seq<ModelData>, b: Seq<ModelData>, vid: u16, pid: u16)
    ensures
        first_match(a + b, vid, pid) == match first_match(a, vid, pid) {
            Some(found) => Some(found),
            None => first_match(b, vid, pid),
        },
    decreases a.len(),
{
    if a.len() == 0 {
        assert(a + b == b);
    } else {
        assert((a + b).skip(1) == a.skip(1) + b);
        lemma_first_match_add(a.skip(1), b, vid, pid);
    }
}

/// What [`find_model`] hands out, as data.
pub open spec fn found_data(found: Option<(&'static ModelInfo, ConnectionKind)>) -> Option<
    (ModelData, ConnectionKind),
> {
    match found {
        Some((model, connection)) => Some((model@, connection)),
        None => None,
    }
}

fn find_in(models: &'static [ModelInfo], vid: u16, pid: u16) -> (found: Option<
    (&'static ModelInfo, ConnectionKind),
>)
    ensures
        found_data(found) == first_match(models_data(models@), vid, pid),
{
    let ghost data = models_data(models@);
    assert(data.skip(0) == data);
    for i in 0..models.len()
        invariant
            data == models_data(models@),
            first_match(data.skip(i as int), vid, pid) == first_match(data, vid, pid),
    {
        assert(data.skip(i as int).skip(1) == data.skip(i + 1));
        if let Some(connection) = models[i].match_connection(vid, pid) {
            return Some((&models[i], connection));
        }
    }
    None
}

/// The first known model that goes by these ids, and how it is attached then.
pub fn find_model(vid: u16, pid: u16) -> (found: Option<(&'static ModelInfo, ConnectionKind)>)
    ensures
        found_data(found) == first_match(catalog(), vid, pid),
{
    proof {
        let first = fenrir_catalog() + ipi_piao_catalog();
        lemma_first_match_add(first + logitech_catalog(), razer_catalog(), vid, pid);
        lemma_first_match_add(first, logitech_catalog(), vid, pid);
        lemma_first_match_add(fenrir_catalog(), ipi_piao_catalog(), vid, pid);
    }
    if let Some(found) = find_in(fenrir_models(), vid, pid) {
        return Some(found);
    }
    if let Some(found) = find_in(ipi_piao_models(), vid, pid) {
        return Some(found);
    }
    if let Some(found) = find_in(logitech_models(), vid, pid) {
        return Some(found);
    }
    find_in(razer_models(), vid, pid)
}

} // verus!
