//! Which mice are known, under which ids, and what they offer.
use crate::devices::{ConnectionKind, PollingRate, ProtocolKind};
use crate::gwolves::{general_protocols, ProtocolKind as GwolvesProtocol};
use crate::models::{
    catalog, fenrir_catalog, first_match, ipi_piao_catalog, logitech_catalog, razer_catalog,
    ModelData, RATES_1K, RATES_4K, RATES_8K,
};
use vstd::prelude::*;

verus! {

/// The four rates up to 1000.
pub open spec fn up_to_1000() -> Seq<PollingRate> {
    seq![PollingRate::Hz125, PollingRate::Hz250, PollingRate::Hz500, PollingRate::Hz1000]
}

/// All rates.
pub open spec fn up_to_8000() -> Seq<PollingRate> {
    up_to_1000() + seq![PollingRate::Hz2000, PollingRate::Hz4000, PollingRate::Hz8000]
}

/// Whether this is all that is known of a model: its names, its ids when wired,
/// wireless, on its receiver and on the other one, how it is spoken to, and the
/// rates in each of the three ways.
pub open spec fn is_model(
    model: ModelData,
    vendor_name: Seq<char>,
    name: Seq<char>,
    vid: u16,
    pids: (Option<u16>, Option<u16>, Option<u16>, Option<u16>),
    protocol: ProtocolKind,
    rates: (Seq<PollingRate>, Seq<PollingRate>, Seq<PollingRate>),
) -> bool {
    &&& model.vendor_name == vendor_name
    &&& model.name == name
    &&& model.vid == vid
    &&& (model.wired_pid, model.wireless_pid, model.receiver_pid, model.receiver_idvd_pid) == pids
    &&& model.protocol == protocol
    &&& (model.wired_rates, model.wireless_rates, model.receiver_rates) == rates
}

/// The lists of rates: those up to 1000, all, and those up to 4000 without 250.
pub proof fn law_rate_lists()
    ensures
        RATES_1K@ == up_to_1000(),
        RATES_8K@ == up_to_8000(),
        RATES_4K@ == seq![
            PollingRate::Hz125,
            PollingRate::Hz500,
            PollingRate::Hz1000,
            PollingRate::Hz2000,
            PollingRate::Hz4000,
        ],
{
    assert(RATES_1K@ =~= up_to_1000());
    assert(RATES_8K@ =~= up_to_8000());
}

/// The known mice, in the order in which they are tried, vendor by vendor.
pub proof fn law_known_mice()
    ensures
        catalog().len() == 24,
        fenrir_catalog().len() == 4,
        ipi_piao_catalog().len() == 4,
        logitech_catalog().len() == 4,
        razer_catalog().len() == 12,
        is_model(
            catalog()[0],
            "G-Wolves"@,
            "Fenrir Pro"@,
            0x33E4,
            (Some(0x3608), Some(0x3617), Some(0x3617), Some(0x3817)),
            ProtocolKind::Feature64 { new_protocol: true, wired_device_id: 2 },
            (up_to_8000(), up_to_1000(), up_to_8000()),
        ),
        is_model(
            catalog()[1],
            "G-Wolves"@,
            "Fenrir Pro"@,
            0x33E4,
            (Some(0x3619), Some(0x3854), Some(0x3854), None),
            ProtocolKind::Eeprom16,
            (up_to_8000(), up_to_8000(), up_to_8000()),
        ),
        is_model(
            catalog()[2],
            "G-Wolves"@,
            "Fenrir"@,
            0x33E4,
            (Some(0x3508), Some(0x3517), Some(0x3517), Some(0x0017)),
            ProtocolKind::Feature64 { new_protocol: false, wired_device_id: 2 },
            (up_to_1000(), up_to_1000(), up_to_8000()),
        ),
        is_model(
            catalog()[3],
            "G-Wolves"@,
            "Fenir Max"@,
            0x33E4,
            (Some(0x3708), Some(0x3717), Some(0x3717), Some(0x0017)),
            ProtocolKind::Feature64 { new_protocol: false, wired_device_id: 2 },
            (up_to_1000(), up_to_1000(), up_to_8000()),
        ),
        is_model(
            catalog()[4],
            "IPI"@,
            "Piao"@,
            0x372E,
            (Some(0x1015), None, None, None),
            ProtocolKind::IpiPixV1 { report_id: 3 },
            (up_to_8000(), up_to_8000(), up_to_8000()),
        ),
        is_model(
            catalog()[5],
            "IPI"@,
            "Piao"@,
            0x372E,
            (Some(0x1028), None, None, None),
            ProtocolKind::IpiPixV1 { report_id: 3 },
            (up_to_8000(), up_to_8000(), up_to_8000()),
        ),
        is_model(
            catalog()[6],
            "IPI"@,
            "Piao"@,
            0x372E,
            (Some(0x1056), None, None, None),
            ProtocolKind::IpiPixV1 { report_id: 3 },
            (up_to_8000(), up_to_8000(), up_to_8000()),
        ),
        is_model(
            catalog()[7],
            "IPI"@,
            "Piao"@,
            0x372E,
            (None, Some(0x1014), None, None),
            ProtocolKind::IpiPixV1 { report_id: 3 },
            (up_to_8000(), up_to_8000(), up_to_8000()),
        ),
        is_model(
            catalog()[8],
            "Logitech"@,
            "Lightspeed Receiver"@,
            0x046D,
            (None, None, Some(0xC547), None),
            ProtocolKind::LogitechHidpp,
            (up_to_1000(), up_to_1000(), up_to_1000()),
        ),
        is_model(
            catalog()[9],
            "Logitech"@,
            "PRO X SUPERLIGHT"@,
            0x046D,
            (Some(0xC094), None, None, None),
            ProtocolKind::LogitechHidpp,
            (up_to_1000(), up_to_1000(), up_to_1000()),
        ),
        is_model(
            catalog()[10],
            "Logitech"@,
            "PRO X SUPERLIGHT 2"@,
            0x046D,
            (Some(0xC09B), None, None, None),
            ProtocolKind::LogitechHidpp,
            (up_to_1000(), up_to_1000(), up_to_1000()),
        ),
        is_model(
            catalog()[11],
            "Logitech"@,
            "PRO X Superlight Wireless"@,
            0x046D,
            (None, Some(0x4093), None, None),
            ProtocolKind::LogitechHidpp,
            (up_to_1000(), up_to_1000(), up_to_1000()),
        ),
        is_model(
            catalog()[12],
            "Razer"@,
            "Viper V3 Pro"@,
            0x1532,
            (Some(0x00C0), Some(0x00C1), None, None),
            ProtocolKind::RazerV1 { tx_id: 0x1F, polling_reversed: true },
            (up_to_8000(), up_to_8000(), up_to_8000()),
        ),
        is_model(
            catalog()[13],
            "Razer"@,
            "Viper V3 HyperSpeed"@,
            0x1532,
            (Some(0x00B6), Some(0x00B8), None, None),
            ProtocolKind::RazerV1 { tx_id: 0x1F, polling_reversed: true },
            (up_to_8000(), up_to_8000(), up_to_8000()),
        ),
        is_model(
            catalog()[14],
            "Razer"@,
            "Viper V2 Pro"@,
            0x1532,
            (Some(0x00A5), Some(0x00A6), None, None),
            ProtocolKind::RazerV1 { tx_id: 0x1F, polling_reversed: true },
            (up_to_8000(), up_to_8000(), up_to_8000()),
        ),
        is_model(
            catalog()[15],
            "Razer"@,
            "DeathAdder V4 Pro"@,
            0x1532,
            (Some(0x00BE), Some(0x00BF), None, None),
            ProtocolKind::RazerV1 { tx_id: 0x1F, polling_reversed: true },
            (up_to_8000(), up_to_8000(), up_to_8000()),
        ),
        is_model(
            catalog()[16],
            "Razer"@,
            "DeathAdder V3"@,
            0x1532,
            (Some(0x0090), None, None, None),
            ProtocolKind::RazerV1 { tx_id: 0x1F, polling_reversed: true },
            (up_to_8000(), up_to_8000(), up_to_8000()),
        ),
        is_model(
            catalog()[17],
            "Razer"@,
            "DeathAdder V3 Pro"@,
            0x1532,
            (None, Some(0x0092), None, None),
            ProtocolKind::RazerV1 { tx_id: 0x1F, polling_reversed: true },
            (up_to_8000(), up_to_8000(), up_to_8000()),
        ),
        is_model(
            catalog()[18],
            "Razer"@,
            "DeathAdder V2"@,
            0x1532,
            (Some(0x007A), None, None, None),
            ProtocolKind::RazerV1 { tx_id: 0xFF, polling_reversed: false },
            (up_to_8000(), up_to_8000(), up_to_8000()),
        ),
        is_model(
            catalog()[19],
            "Razer"@,
            "DeathAdder V2 Pro"@,
            0x1532,
            (None, Some(0x007C), None, None),
            ProtocolKind::RazerV1 { tx_id: 0x3F, polling_reversed: false },
            (up_to_8000(), up_to_8000(), up_to_8000()),
        ),
        is_model(
            catalog()[20],
            "Razer"@,
            "Basilisk V3"@,
            0x1532,
            (Some(0x0099), None, None, None),
            ProtocolKind::RazerV1 { tx_id: 0x1F, polling_reversed: true },
            (up_to_8000(), up_to_8000(), up_to_8000()),
        ),
        is_model(
            catalog()[21],
            "Razer"@,
            "Basilisk V3 Pro"@,
            0x1532,
            (None, Some(0x008E), None, None),
            ProtocolKind::RazerV1 { tx_id: 0x1F, polling_reversed: true },
            (up_to_8000(), up_to_8000(), up_to_8000()),
        ),
        is_model(
            catalog()[22],
            "Razer"@,
            "Basilisk Ultimate"@,
            0x1532,
            (None, Some(0x0078), None, None),
            ProtocolKind::RazerV1 { tx_id: 0x1F, polling_reversed: false },
            (up_to_8000(), up_to_8000(), up_to_8000()),
        ),
        is_model(
            catalog()[23],
            "Razer"@,
            "Naga X"@,
            0x1532,
            (Some(0x0086), None, None, None),
            ProtocolKind::RazerV1 { tx_id: 0x1F, polling_reversed: false },
            (up_to_8000(), up_to_8000(), up_to_8000()),
        ),
{
    law_rate_lists();
}

/// The mouse that is found for two ids is the first that goes by them.
pub proof fn law_first_mouse_is_found(models: Seq<ModelData>, vid: u16, pid: u16, i: int)
    requires
        0 <= i < models.len(),
        models[i].connection_for(vid, pid) is Some,
        forall|j: int| 0 <= j < i ==> (#[trigger] models[j]).connection_for(vid, pid) is None,
    ensures
        first_match(models, vid, pid) == Some(
            (models[i], models[i].connection_for(vid, pid)->Some_0),
        ),
    decreases models.len(),
{
    if i > 0 {
        let rest = models.skip(1);
        assert(models[0].connection_for(vid, pid) is None);
        assert forall|j: int| 0 <= j < i - 1 implies (#[trigger] rest[j]).connection_for(
            vid,
            pid,
        ) is None by {
            assert(rest[j] == models[j + 1]);
        }
        assert(rest[i - 1] == models[i]);
        law_first_mouse_is_found(rest, vid, pid, i - 1);
    }
}

/// Ids that no model goes by are those of no mouse.
pub proof fn law_other_ids_are_unknown(models: Seq<ModelData>, vid: u16, pid: u16)
    requires
        forall|j: int|
            0 <= j < models.len() ==> (#[trigger] models[j]).connection_for(vid, pid) is None,
    ensures
        first_match(models, vid, pid) is None,
    decreases models.len(),
{
    if models.len() > 0 {
        let rest = models.skip(1);
        assert(models[0].connection_for(vid, pid) is None);
        assert forall|j: int| 0 <= j < rest.len() implies (#[trigger] rest[j]).connection_for(
            vid,
            pid,
        ) is None by {
            assert(rest[j] == models[j + 1]);
        }
        law_other_ids_are_unknown(rest, vid, pid);
    }
}

/// The protocols of the G-Wolves mice are among the general ones, unchanged.
pub proof fn law_gwolves_protocols(
    protocols: Seq<GwolvesProtocol>,
    i: int,
    new_protocol: bool,
    wired_device_id: u8,
)
    requires
        0 <= i < protocols.len(),
    ensures
        (GwolvesProtocol::Feature64 { new_protocol, wired_device_id }).spec_general() == (
        ProtocolKind::Feature64 { new_protocol, wired_device_id }),
        GwolvesProtocol::Eeprom16.spec_general() == ProtocolKind::Eeprom16,
        general_protocols(protocols).len() == protocols.len(),
        general_protocols(protocols)[i] == protocols[i].spec_general(),
{
}

/// A mouse that is known under an id of its cable, its receiver or its radio is
/// attached that way there.
pub proof fn law_ids_tell_the_connection(i: int, vid: u16, pid: u16)
    requires
        0 <= i < catalog().len(),
        catalog()[i].vid == vid,
    ensures
        catalog()[i].wired_pid == Some(pid) ==> catalog()[i].connection_for(vid, pid) == Some(
            ConnectionKind::Wired,
        ),
        catalog()[i].receiver_pid == Some(pid) && catalog()[i].wired_pid != Some(pid)
            ==> catalog()[i].connection_for(vid, pid) == Some(ConnectionKind::Receiver),
{
}

} // verus!
