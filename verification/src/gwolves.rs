//! The G-Wolves mice on their own: two protocols, and no other vendor.
use crate::devices::{outcome, ProtocolKind as DeviceProtocol};
use crate::error::DeviceError;
use crate::models::{
    catalog, fenrir_catalog, first_match, ipi_piao_catalog, lemma_first_match_add, logitech_catalog,
    razer_catalog, ModelData,
};
use crate::reports::{feature64_get_rate, feature64_set_rate};
use vstd::prelude::*;

pub use crate::devices::{format_supported_rates, ConnectionKind, PollingRate};
pub use crate::models::{GWOLVES_VENDOR_ID, RATES_1K, RATES_4K, RATES_8K};
pub use crate::reports::{build_eeprom16_get_rate, build_eeprom16_set_rate};

verus! {

/// The language that a G-Wolves mouse is spoken to in.
#[derive(Clone, Copy, Debug, PartialEq, Eq, Structural)]
pub enum ProtocolKind {
    /// 64-byte feature reports, in an old and a new form.
    Feature64 { new_protocol: bool, wired_device_id: u8 },
    /// 16-byte reports that read and write the memory of the mouse.
    Eeprom16,
}

impl ProtocolKind {
    /// The same protocol among those of all vendors.
    pub open spec fn spec_general(self) -> DeviceProtocol {
        match self {
            ProtocolKind::Feature64 { new_protocol, wired_device_id } => DeviceProtocol::Feature64 {
                new_protocol,
                wired_device_id,
            },
            ProtocolKind::Eeprom16 => DeviceProtocol::Eeprom16,
        }
    }

    /// The same protocol among those of all vendors.
    #[verifier::when_used_as_spec(spec_general)]
    pub fn general(self) -> (r: DeviceProtocol)
        ensures
            r == self.spec_general(),
    {
        match self {
            ProtocolKind::Feature64 { new_protocol, wired_device_id } => DeviceProtocol::Feature64 {
                new_protocol,
                wired_device_id,
            },
            ProtocolKind::Eeprom16 => DeviceProtocol::Eeprom16,
        }
    }

    /// The byte for `rate` in this protocol.
    pub fn rate_code(self, rate: PollingRate) -> (r: u8)
        ensures
            r == self.general().rate_code(rate),
    {
        self.general().rate_code(rate)
    }

    /// The rate whose byte `code` is in this protocol, where it is the byte of
    /// one.
    pub fn rate_from_code(self, code: u8) -> (r: Option<PollingRate>)
        ensures
            r == self.general().rate_coded(code),
            r matches Some(rate) ==> self.general().rate_code(rate) == code,
    {
        self.general().rate_from_code(code)
    }

    /// The protocol in words.
    pub fn text(self) -> (s: &'static str)
        ensures
            s@ == self.general().spec_text(),
    {
        self.general().text()
    }
}

/// What is known of one model of G-Wolves mouse or receiver.
#[derive(Clone, Copy, Debug)]
pub struct ModelInfo {
    pub name: &'static str,
    pub vid: u16,
    pub wired_pid: Option<u16>,
    pub wireless_pid: Option<u16>,
    pub receiver_pid: Option<u16>,
    pub receiver_idvd_pid: Option<u16>,
    pub protocol: ProtocolKind,
    pub wired_rates: &'static [PollingRate],
    pub wireless_rates: &'static [PollingRate],
    pub receiver_rates: &'static [PollingRate],
}

impl View for ModelInfo {
    type V = ModelData;

    open spec fn view(&self) -> ModelData {
        ModelData {
            vendor_name: "G-Wolves"@,
            name: self.name@,
            vid: self.vid,
            wired_pid: self.wired_pid,
            wireless_pid: self.wireless_pid,
            receiver_pid: self.receiver_pid,
            receiver_idvd_pid: self.receiver_idvd_pid,
            protocol: self.protocol.general(),
            wired_rates: self.wired_rates@,
            wireless_rates: self.wireless_rates@,
            receiver_rates: self.receiver_rates@,
        }
    }
}

/// What each of `models` says.
pub open spec fn gwolves_data(models: Seq<ModelInfo>) -> Seq<ModelData> {
    models.map_values(|model: ModelInfo| model@)
}

/// The protocols, each among those of all vendors.
pub open spec fn general_protocols(protocols: Seq<ProtocolKind>) -> Seq<DeviceProtocol> {
    protocols.map_values(|protocol: ProtocolKind| protocol.general())
}

impl ModelInfo {
    /// How the model is attached when it shows up under these ids.
    pub fn match_connection(&'static self, vid: u16, pid: u16) -> (r: Option<ConnectionKind>)
        ensures
            r == self@.connection_for(vid, pid),
    {
        if vid != self.vid {
            return None;
        }
        if self.wired_pid == Some(pid) {
            return Some(ConnectionKind::Wired);
        }
        if self.receiver_pid == Some(pid) || self.receiver_idvd_pid == Some(pid) {
            return Some(ConnectionKind::Receiver);
        }
        if self.wireless_pid == Some(pid) {
            return Some(ConnectionKind::Wireless);
        }
        None
    }

    /// The same model among those of all vendors.
    pub fn general(self) -> (r: crate::devices::ModelInfo)
        ensures
            r@ == self@,
    {
        crate::devices::ModelInfo {
            vendor_name: "G-Wolves",
            name: self.name,
            vid: self.vid,
            wired_pid: self.wired_pid,
            wireless_pid: self.wireless_pid,
            receiver_pid: self.receiver_pid,
            receiver_idvd_pid: self.receiver_idvd_pid,
            protocol: self.protocol.general(),
            wired_rates: self.wired_rates,
            wireless_rates: self.wireless_rates,
            receiver_rates: self.receiver_rates,
        }
    }

    /// The rates that the model offers over the given connection.
    pub fn supported_rates(self, connection: ConnectionKind) -> (r: &'static [PollingRate])
        ensures
            r@ == self@.rates_for(connection),
    {
        self.general().supported_rates(connection)
    }

    /// Fails where the model does not offer `rate` over the given connection.
    pub fn require_rate(self, connection: ConnectionKind, rate: PollingRate) -> (r: Result<
        (),
        DeviceError,
    >)
        ensures
            outcome(r) == self@.required_rate(connection, rate),
    {
        self.general().require_rate(connection, rate)
    }

    /// The protocols to try on the model, in this order.
    pub fn protocol_candidates(self) -> (r: Vec<ProtocolKind>)
        ensures
            general_protocols(r@) == self@.candidates(),
    {
        let mut protocols: Vec<ProtocolKind> = Vec::new();
        protocols.push(self.protocol);
        if let ProtocolKind::Feature64 { new_protocol: false, wired_device_id } = self.protocol {
            protocols.push(ProtocolKind::Feature64 { new_protocol: true, wired_device_id });
        }
        assert(general_protocols(protocols@) =~= self@.candidates());
        protocols
    }
}

/// The G-Wolves mice.
pub fn fenrir_models() -> (models: &'static [ModelInfo])
    ensures
        gwolves_data(models@) == fenrir_catalog(),
{
    let models: &'static [ModelInfo] = &[
        ModelInfo {
            name: "Fenrir Pro",
            vid: GWOLVES_VENDOR_ID,
            wired_pid: Some(0x3608),
            wireless_pid: Some(0x3617),
            receiver_pid: Some(0x3617),
            receiver_idvd_pid: Some(0x3817),
            protocol: ProtocolKind::Feature64 { new_protocol: true, wired_device_id: 2 },
            wired_rates: &RATES_8K,
            wireless_rates: &RATES_1K,
            receiver_rates: &RATES_8K,
        },
        ModelInfo {
            name: "Fenrir Pro",
            vid: GWOLVES_VENDOR_ID,
            wired_pid: Some(0x3619),
            wireless_pid: Some(0x3854),
            receiver_pid: Some(0x3854),
            receiver_idvd_pid: None,
            protocol: ProtocolKind::Eeprom16,
            wired_rates: &RATES_8K,
            wireless_rates: &RATES_8K,
            receiver_rates: &RATES_8K,
        },
        ModelInfo {
            name: "Fenrir",
            vid: GWOLVES_VENDOR_ID,
            wired_pid: Some(0x3508),
            wireless_pid: Some(0x3517),
            receiver_pid: Some(0x3517),
            receiver_idvd_pid: Some(0x0017),
            protocol: ProtocolKind::Feature64 { new_protocol: false, wired_device_id: 2 },
            wired_rates: &RATES_1K,
            wireless_rates: &RATES_1K,
            receiver_rates: &RATES_8K,
        },
        ModelInfo {
            name: "Fenir Max",
            vid: GWOLVES_VENDOR_ID,
            wired_pid: Some(0x3708),
            wireless_pid: Some(0x3717),
            receiver_pid: Some(0x3717),
            receiver_idvd_pid: Some(0x0017),
            protocol: ProtocolKind::Feature64 { new_protocol: false, wired_device_id: 2 },
            wired_rates: &RATES_1K,
            wireless_rates: &RATES_1K,
            receiver_rates: &RATES_8K,
        },
    ];
    assert(gwolves_data(models@) =~= fenrir_catalog());
    models
}

/// The first G-Wolves model that goes by these ids, and how it is attached
/// then.
pub fn find_model(vid: u16, pid: u16) -> (found: Option<(&'static ModelInfo, ConnectionKind)>)
    ensures
        match found {
            Some((model, connection)) => first_match(fenrir_catalog(), vid, pid) == Some(
                (model@, connection),
            ),
            None => first_match(fenrir_catalog(), vid, pid) is None,
        },
{
    let models = fenrir_models();
    let ghost data = fenrir_catalog();
    assert(data.skip(0) =~= data);
    for i in 0..models.len()
        invariant
            data == fenrir_catalog(),
            data == gwolves_data(models@),
            first_match(data.skip(i as int), vid, pid) == first_match(data, vid, pid),
    {
        assert(data.skip(i as int).skip(1) =~= data.skip(i + 1));
        assert(data[i as int] == models@[i as int]@);
        if let Some(connection) = models[i].match_connection(vid, pid) {
            return Some((&models[i], connection));
        }
    }
    None
}

/// A model that is found here is found under the same ids among those of all
/// vendors.
pub proof fn law_found_among_all(vid: u16, pid: u16)
    requires
        first_match(fenrir_catalog(), vid, pid) is Some,
    ensures
        first_match(catalog(), vid, pid) == first_match(fenrir_catalog(), vid, pid),
{
    let first = fenrir_catalog() + ipi_piao_catalog();
    lemma_first_match_add(first + logitech_catalog(), razer_catalog(), vid, pid);
    lemma_first_match_add(first, logitech_catalog(), vid, pid);
    lemma_first_match_add(fenrir_catalog(), ipi_piao_catalog(), vid, pid);
}

/// The question for the rate in 64-byte feature reports; all zero for a report8
/// mouse.
pub fn build_feature64_get_rate(
    protocol: ProtocolKind,
    connection: ConnectionKind,
    profile: u8,
) -> (r: [u8; 64])
    ensures
        r@ == feature64_get_rate(protocol.general(), connection, profile),
{
    crate::reports::build_feature64_get_rate(protocol.general(), connection, profile)
}

/// The order to set the rate in 64-byte feature reports; all zero for a report8
/// mouse.
pub fn build_feature64_set_rate(
    protocol: ProtocolKind,
    connection: ConnectionKind,
    profile: u8,
    rate: PollingRate,
) -> (r: [u8; 64])
    ensures
        r@ == feature64_set_rate(protocol.general(), connection, profile, rate),
{
    crate::reports::build_feature64_set_rate(protocol.general(), connection, profile, rate)
}

} // verus!
