//! How a device is asked and told things, protocol by protocol.
use crate::bytes::{at, byte_at, copy_bytes};
use crate::courses::{
    battery_run, chunk_len, colors, dpi_header, dpi_levels, dpi_readback_run, dpi_run,
    eeprom16_battery_run, eeprom16_bytes_run, eeprom16_dpi_config_run, eeprom16_dpi_run,
    eeprom16_rate_run, eeprom16_set_dpi_run, eeprom16_set_rate_run, exchange_run, feature64_battery,
    feature64_battery_at, feature64_battery_run, feature64_rate_code, feature64_rate_run,
    feature64_set_rate_run, flushed, hidpp_battery_feature_run, hidpp_battery_run,
    hidpp_discover_request, hidpp_discover_run, hidpp_matching_run, hidpp_rate_request, hidpp_reads,
    hidpp_set_rate_run, ipi_ask_run, ipi_battery_run, ipi_dpi_answer_run, ipi_dpi_config_run,
    ipi_dpi_data, ipi_dpi_order_run, ipi_made_order_run, ipi_pages_run, ipi_rate_run, ipi_response_run,
    ipi_set_rate_run, probe_run, rate_for_code, rate_run, razer_battery_run, razer_response_run,
    razer_run, razer_set_rate_run, read_bytes, report8_run, report8_tries, set_dpi_run,
    set_rate_run, short_battery_report, words, IpiDpiData, Run, DEFAULT_PROFILE, FLUSH_LIMIT,
    HIDPP_BATTERY_STATUS_FEATURE_ID, HIDPP_BATTERY_TIMEOUT_MS, HIDPP_DEVICE_INDEX,
    HIDPP_REPORT_RATE_FALLBACK_INDEX, HIDPP_REPORT_RATE_FEATURE_ID, HIDPP_ROOT_FEATURE_INDEX,
    HIDPP_SCAN_DISCOVERY_TIMEOUT_MS, HIDPP_SW_ID, HIDPP_UNIFIED_BATTERY_FEATURE_ID,
    RAZER_STATUS_BUSY, RAZER_STATUS_FAILURE, RAZER_STATUS_NEW, RAZER_STATUS_SUCCESS,
};
use crate::devices::{
    gwolves_charge_state_from_status, outcome, BatteryStatus, ChargeState, ConnectionKind,
    ModelInfo, PollingRate, ProtocolKind,
};
use crate::error::{DeviceError, ErrorText};
use crate::reports::{
    build_eeprom16_dpi_entry, build_eeprom16_get_battery, build_eeprom16_get_rate,
    build_eeprom16_read, build_eeprom16_set_rate, build_eeprom16_write, build_feature64_get_battery,
    build_feature64_get_rate, build_feature64_set_rate, build_ipi_pix_v1_get_basic_info,
    build_ipi_pix_v1_get_rate, build_ipi_pix_v1_set_rate, ipi_pix_v1_rate_from_sensor_byte,
    report_outcome, EEPROM16_DPI_TABLE_OFFSET, EEPROM16_MAX_TRANSFER_LEN,
};
use crate::text::append_decimal;
use crate::transport::read_outcome;
use vstd::prelude::*;

pub use crate::payloads::{
    build_razer_v1_command, decode_eeprom16_dpi_entry, logitech_charge_state_from_status,
    normalize_feature_payload, normalize_ipi_pix_v1_payload, normalize_logitech_hidpp_payload,
    normalize_report8_payload, normalize_report_payload, razer_v1_crc, report8_crc,
    write_report8_crc, FEATURE_PAYLOAD_LEN, FEATURE_REPORT_ID, HIDPP_LONG_ID,
    HIDPP_LONG_PAYLOAD_LEN, HIDPP_SHORT_ID, HIDPP_SHORT_PAYLOAD_LEN, IPI_PIX_PAYLOAD_LEN,
    RAZER_V1_PAYLOAD_LEN, RAZER_V1_REPORT_ID, REPORT8_BUFFER_LEN, REPORT8_ID, REPORT8_PAYLOAD_LEN,
};
pub use crate::transport::DeviceTransport;

verus! {

/// Where the resolutions of an IPI model stand: the six page requests, how
/// many levels there are, and how many bytes of colours.
pub struct IpiDpiFormat {
    pub page_requests: [[u8; IPI_PIX_PAYLOAD_LEN]; 6],
    pub levels: usize,
    pub color_bytes: usize,
}

/// The resolutions of an IPI mouse as it stores them.
pub struct IpiDpiConfig {
    pub profile: u8,
    pub raw_levels: Vec<u16>,
    pub colors: Vec<[u8; 3]>,
}

impl View for IpiDpiConfig {
    type V = IpiDpiData;

    open spec fn view(&self) -> IpiDpiData {
        IpiDpiData {
            profile: self.profile,
            raw_levels: self.raw_levels@,
            colors: self.colors@.map_values(|c: [u8; 3]| c@),
        }
    }
}

/// A device with the protocol that it is spoken to in.
pub struct ProtocolDevice<T: DeviceTransport> {
    pub transport: T,
    pub model: &'static ModelInfo,
    pub connection: ConnectionKind,
    pub protocol: ProtocolKind,
}

impl<T: DeviceTransport> ProtocolDevice<T> {
    /// Whether the two differ in the transport at most.
    pub open spec fn same_target(self, other: Self) -> bool {
        &&& self.model == other.model
        &&& self.connection == other.connection
        &&& self.protocol == other.protocol
    }

    /// Whether an operation took the given course.
    pub open spec fn ran<V>(
        before: Self,
        after: Self,
        result: Result<V, DeviceError>,
        run: Run<V>,
    ) -> bool {
        &&& after.same_target(before)
        &&& after.transport.wire() == run.wire
        &&& outcome(result) == run.outcome
    }

    /// Whether an operation that reads bytes took the given course.
    pub open spec fn ran_bytes(
        before: Self,
        after: Self,
        result: Result<Vec<u8>, DeviceError>,
        run: Run<Seq<u8>>,
    ) -> bool {
        &&& after.same_target(before)
        &&& after.transport.wire() == run.wire
        &&& read_outcome(result) == run.outcome
    }

    /// A device of the given model behind a transport.
    pub fn new(
        transport: T,
        model: &'static ModelInfo,
        connection: ConnectionKind,
        protocol: ProtocolKind,
    ) -> (device: Self)
        ensures
            device.transport == transport,
            device.model == model,
            device.connection == connection,
            device.protocol == protocol,
    {
        ProtocolDevice { transport, model, connection, protocol }
    }

    /// Reads the configured rate.
    pub fn read_rate(&mut self) -> (r: Result<PollingRate, DeviceError>)
        ensures
            Self::ran(
                *old(self),
                *final(self),
                r,
                rate_run(old(self).transport.wire(), old(self).protocol, old(self).connection),
            ),
    {
        match self.protocol {
            ProtocolKind::Feature64 { .. } => self.read_feature64_rate(),
            ProtocolKind::Eeprom16 => self.read_eeprom16_rate(),
            ProtocolKind::IpiPixV1 { report_id } => self.read_ipi_pix_v1_rate(report_id),
            ProtocolKind::LogitechHidpp => Err(
                DeviceError::from_words(
                    "current polling-rate read is not implemented for logitech hid++ protocol",
                ),
            ),
            ProtocolKind::RazerV1 { .. } => Err(
                DeviceError::from_words(
                    "current polling-rate read is not implemented for razer v1 protocol",
                ),
            ),
        }
    }

    /// Reads the battery.
    pub fn read_battery(&mut self) -> (r: Result<BatteryStatus, DeviceError>)
        ensures
            Self::ran(
                *old(self),
                *final(self),
                r,
                battery_run(old(self).transport.wire(), old(self).protocol, old(self).connection),
            ),
    {
        match self.protocol {
            ProtocolKind::Feature64 { .. } => self.read_feature64_battery(),
            ProtocolKind::Eeprom16 => self.read_eeprom16_battery(),
            ProtocolKind::IpiPixV1 { report_id } => self.read_ipi_pix_v1_battery(report_id),
            ProtocolKind::LogitechHidpp => self.read_logitech_hidpp_battery(),
            ProtocolKind::RazerV1 { tx_id, .. } => self.read_razer_v1_battery(tx_id),
        }
    }

    /// Sets the rate, where the model offers it.
    pub fn set_rate(&mut self, rate: PollingRate) -> (r: Result<(), DeviceError>)
        ensures
            Self::ran(
                *old(self),
                *final(self),
                r,
                set_rate_run(
                    old(self).transport.wire(),
                    old(self).model@,
                    old(self).protocol,
                    old(self).connection,
                    rate,
                ),
            ),
    {
        let required = self.model.require_rate(self.connection, rate);
        if required.is_err() {
            return required;
        }
        match self.protocol {
            ProtocolKind::Feature64 { .. } => self.set_feature64_rate(rate),
            ProtocolKind::Eeprom16 => self.set_eeprom16_rate(rate),
            ProtocolKind::IpiPixV1 { report_id } => self.set_ipi_pix_v1_rate(report_id, rate),
            ProtocolKind::LogitechHidpp => self.set_logitech_hidpp_rate(rate),
            ProtocolKind::RazerV1 { tx_id, polling_reversed } => self.set_razer_v1_rate(
                tx_id,
                polling_reversed,
                rate,
            ),
        }
    }

    /// Reads the active resolution, in the one protocol where it is known how.
    /// IPI mice hold resolutions too, but in a layout of their model: for them
    /// this gives the error, and [`Self::read_ipi_pix_v1_dpi`] takes the
    /// layout.
    pub fn read_dpi(&mut self) -> (r: Result<u16, DeviceError>)
        ensures
            Self::ran(
                *old(self),
                *final(self),
                r,
                dpi_run(old(self).transport.wire(), old(self).protocol),
            ),
    {
        if self.protocol.supports_dpi() {
            self.read_eeprom16_dpi()
        } else {
            let mut message = "DPI read is not implemented for ".to_owned();
            message.append(self.protocol.text());
            message.append(" protocol");
            Err(DeviceError::new(message))
        }
    }

    /// Sets the active resolution, in the one protocol where it is known how.
    /// For IPI mice this gives the error, and [`Self::set_ipi_pix_v1_dpi`] takes
    /// the layout of the model.
    pub fn set_dpi(&mut self, dpi: u16) -> (r: Result<(), DeviceError>)
        ensures
            Self::ran(
                *old(self),
                *final(self),
                r,
                set_dpi_run(old(self).transport.wire(), old(self).protocol, dpi),
            ),
    {
        if self.protocol.supports_dpi() {
            self.set_eeprom16_dpi(dpi)
        } else {
            let mut message = "DPI writes are not implemented for ".to_owned();
            message.append(self.protocol.text());
            message.append(" protocol");
            Err(DeviceError::new(message))
        }
    }

    /// Finds out whether the device answers in its protocol.
    pub fn probe_control(&mut self) -> (r: Result<(), DeviceError>)
        ensures
            Self::ran(
                *old(self),
                *final(self),
                r,
                probe_run(old(self).transport.wire(), old(self).protocol, old(self).connection),
            ),
    {
        match self.protocol {
            ProtocolKind::LogitechHidpp => {
                let found = self.discover_logitech_hidpp_feature(
                    HIDPP_REPORT_RATE_FEATURE_ID,
                    HIDPP_SCAN_DISCOVERY_TIMEOUT_MS,
                );
                if found.is_some() {
                    Ok(())
                } else {
                    Err(DeviceError::from_words("logitech hid++ control feature did not answer"))
                }
            },
            ProtocolKind::RazerV1 { tx_id, .. } => {
                let args: [u8; 2] = [0x00, 0x00];
                assert(args@ =~= seq![0x00u8, 0x00]);
                let command = build_razer_v1_command(tx_id, 0x07, 0x80, 0x02, &args);
                match self.send_razer_v1_and_recv(&command) {
                    Ok(_) => Ok(()),
                    Err(e) => Err(e),
                }
            },
            _ => match self.read_rate() {
                Ok(_) => Ok(()),
                Err(e) => Err(e),
            },
        }
    }

    /// Sends a feature report, waits, and reads a feature report.
    fn exchange_feature(&mut self, payload: &[u8], delay: u64) -> (r: Result<Vec<u8>, DeviceError>)
        ensures
            Self::ran_bytes(
                *old(self),
                *final(self),
                r,
                exchange_run(
                    old(self).transport.wire(),
                    FEATURE_REPORT_ID,
                    payload@,
                    delay as nat,
                    64,
                ),
            ),
    {
        match self.transport.send_feature_payload(FEATURE_REPORT_ID, payload) {
            Err(e) => return Err(e),
            Ok(_) => {},
        }
        self.transport.sleep(delay);
        self.transport.get_feature_payload(FEATURE_REPORT_ID, FEATURE_PAYLOAD_LEN)
    }

    /// The rate that a code read from the device stands for.
    fn rate_of_code(&self, code: u8) -> (r: Result<PollingRate, DeviceError>)
        ensures
            outcome(r) == rate_for_code(self.protocol, code),
    {
        match self.protocol.rate_from_code(code) {
            Some(rate) => Ok(rate),
            None => {
                let mut message = "device returned unknown polling-rate code ".to_owned();
                append_decimal(&mut message, code as u128);
                Err(DeviceError::new(message))
            },
        }
    }

    fn read_feature64_rate(&mut self) -> (r: Result<PollingRate, DeviceError>)
        requires
            old(self).protocol is Feature64,
        ensures
            Self::ran(
                *old(self),
                *final(self),
                r,
                feature64_rate_run(
                    old(self).transport.wire(),
                    old(self).protocol,
                    old(self).connection,
                ),
            ),
    {
        let report = build_feature64_get_rate(self.protocol, self.connection, DEFAULT_PROFILE);
        let response = match self.exchange_feature(&report, 20) {
            Err(e) => return Err(e),
            Ok(response) => response,
        };
        match self.extract_feature64_rate_code(&response) {
            Err(e) => Err(e),
            Ok(code) => self.rate_of_code(code),
        }
    }

    fn set_feature64_rate(&mut self, rate: PollingRate) -> (r: Result<(), DeviceError>)
        requires
            old(self).protocol is Feature64,
        ensures
            Self::ran(
                *old(self),
                *final(self),
                r,
                feature64_set_rate_run(
                    old(self).transport.wire(),
                    old(self).protocol,
                    old(self).connection,
                    rate,
                ),
            ),
    {
        let report = build_feature64_set_rate(
            self.protocol,
            self.connection,
            DEFAULT_PROFILE,
            rate,
        );
        match self.transport.send_feature_payload(FEATURE_REPORT_ID, &report) {
            Err(e) => return Err(e),
            Ok(_) => {},
        }
        self.transport.sleep(20);
        let _ = self.transport.get_feature_payload(FEATURE_REPORT_ID, FEATURE_PAYLOAD_LEN);
        Ok(())
    }

    fn read_feature64_battery(&mut self) -> (r: Result<BatteryStatus, DeviceError>)
        requires
            old(self).protocol is Feature64,
        ensures
            Self::ran(
                *old(self),
                *final(self),
                r,
                feature64_battery_run(
                    old(self).transport.wire(),
                    old(self).protocol,
                    old(self).connection,
                ),
            ),
    {
        let report = build_feature64_get_battery(self.protocol, self.connection);
        let delay: u64 = match self.protocol {
            ProtocolKind::Feature64 { new_protocol: true, .. } => 100,
            _ => 50,
        };
        let response = match self.exchange_feature(&report, delay) {
            Err(e) => return Err(e),
            Ok(response) => response,
        };
        match self.extract_feature64_battery(&response) {
            Err(e) => Err(e),
            Ok((raw_state, level)) => Ok(
                BatteryStatus::with_raw_state(
                    level,
                    gwolves_charge_state_from_status(raw_state),
                    raw_state,
                ),
            ),
        }
    }

    fn read_eeprom16_rate(&mut self) -> (r: Result<PollingRate, DeviceError>)
        ensures
            Self::ran(
                *old(self),
                *final(self),
                r,
                eeprom16_rate_run(old(self).transport.wire(), old(self).protocol),
            ),
    {
        let response = match self.transact_report8(build_eeprom16_get_rate(), 8, 50, 5) {
            Err(e) => return Err(e),
            Ok(response) => response,
        };
        match byte_at(&response, 5) {
            None => Err(
                DeviceError::from_words("short report8 response while reading polling rate"),
            ),
            Some(code) => self.rate_of_code(code),
        }
    }

    fn set_eeprom16_rate(&mut self, rate: PollingRate) -> (r: Result<(), DeviceError>)
        ensures
            Self::ran(
                *old(self),
                *final(self),
                r,
                eeprom16_set_rate_run(old(self).transport.wire(), rate),
            ),
    {
        let report = build_eeprom16_set_rate(rate);
        match self.transact_report8(report, 7, 50, 5) {
            Err(e) => Err(e),
            Ok(_) => Ok(()),
        }
    }

    fn read_eeprom16_battery(&mut self) -> (r: Result<BatteryStatus, DeviceError>)
        ensures
            Self::ran(
                *old(self),
                *final(self),
                r,
                eeprom16_battery_run(old(self).transport.wire()),
            ),
    {
        let response = match self.transact_report8(build_eeprom16_get_battery(), 4, 50, 5) {
            Err(e) => return Err(e),
            Ok(response) => response,
        };
        let level = match byte_at(&response, 5) {
            None => return Err(
                DeviceError::from_words("short report8 response while reading battery level"),
            ),
            Some(level) => if level > 100 {
                100
            } else {
                level
            },
        };
        let raw_state = match byte_at(&response, 6) {
            None => return Err(
                DeviceError::from_words("short report8 response while reading charging state"),
            ),
            Some(raw_state) => raw_state,
        };
        let charge_state = match raw_state {
            0 => ChargeState::Discharging,
            1 => ChargeState::Charging,
            raw => ChargeState::Raw(raw),
        };
        Ok(BatteryStatus::with_raw_state(level, charge_state, raw_state))
    }

    fn read_eeprom16_dpi(&mut self) -> (r: Result<u16, DeviceError>)
        ensures
            Self::ran(*old(self), *final(self), r, eeprom16_dpi_run(old(self).transport.wire())),
    {
        let (active, levels) = match self.read_eeprom16_dpi_config() {
            Err(e) => return Err(e),
            Ok(config) => config,
        };
        if active < levels.len() {
            Ok(levels[active])
        } else {
            let mut message = "missing active report8 DPI level ".to_owned();
            append_decimal(&mut message, active as u128 + 1);
            Err(DeviceError::new(message))
        }
    }

    fn set_eeprom16_dpi(&mut self, dpi: u16) -> (r: Result<(), DeviceError>)
        ensures
            Self::ran(
                *old(self),
                *final(self),
                r,
                eeprom16_set_dpi_run(old(self).transport.wire(), dpi),
            ),
    {
        let active = match self.read_eeprom16_dpi_config() {
            Err(e) => return Err(e),
            Ok((active, _)) => active,
        };
        let entry = match build_eeprom16_dpi_entry(dpi) {
            Err(e) => return Err(e),
            Ok(entry) => entry,
        };
        if active > 60 {
            return Err(DeviceError::from_words("report8 DPI table offset overflow"));
        }
        let offset = EEPROM16_DPI_TABLE_OFFSET + 4 * (active as u8);
        let report = match build_eeprom16_write(offset, &entry) {
            Err(e) => return Err(e),
            Ok(report) => report,
        };
        match self.transact_report8(report, 7, 50, 5) {
            Ok(_) => Ok(()),
            Err(write_error) => self.confirm_eeprom16_dpi(dpi, write_error),
        }
    }

    /// Checks by reading whether a write that was not acknowledged took place.
    fn confirm_eeprom16_dpi(&mut self, dpi: u16, write_error: DeviceError) -> (r: Result<
        (),
        DeviceError,
    >)
        ensures
            Self::ran(
                *old(self),
                *final(self),
                r,
                dpi_readback_run(old(self).transport.wire(), dpi, write_error@),
            ),
    {
        match self.read_eeprom16_dpi() {
            Ok(after) => {
                if after == dpi {
                    Ok(())
                } else {
                    let mut message = write_error.message;
                    message.append("; active DPI readback is ");
                    append_decimal(&mut message, after as u128);
                    message.append(", expected ");
                    append_decimal(&mut message, dpi as u128);
                    Err(DeviceError::new(message))
                }
            },
            Err(read_error) => {
                let mut message = write_error.message;
                message.append("; active DPI readback failed: ");
                message.append(read_error.message.as_str());
                Err(DeviceError::new(message))
            },
        }
    }

    fn read_eeprom16_dpi_config(&mut self) -> (r: Result<(usize, Vec<u16>), DeviceError>)
        ensures
            final(self).same_target(*old(self)),
            final(self).transport.wire() == eeprom16_dpi_config_run(old(self).transport.wire()).wire,
            match r {
                Ok((active, levels)) => eeprom16_dpi_config_run(old(self).transport.wire()).outcome
                    == Ok::<(nat, Seq<u16>), ErrorText>((active as nat, levels@)) && active < 256,
                Err(e) => eeprom16_dpi_config_run(old(self).transport.wire()).outcome == Err::<
                    (nat, Seq<u16>),
                    ErrorText,
                >(e@),
            },
    {
        let header = match self.read_eeprom16_bytes(0, 6) {
            Err(e) => return Err(e),
            Ok(header) => header,
        };
        let (count, active) = match parse_eeprom16_dpi_header(&header) {
            Err(e) => return Err(e),
            Ok(parts) => parts,
        };
        let table = match self.read_eeprom16_bytes(EEPROM16_DPI_TABLE_OFFSET, count * 4) {
            Err(e) => return Err(e),
            Ok(table) => table,
        };
        match decode_eeprom16_dpi_table(&table, count) {
            Err(e) => Err(e),
            Ok(levels) => Ok((active, levels)),
        }
    }

    #[verifier::loop_isolation(false)]
    fn read_eeprom16_bytes(&mut self, offset: u8, len: usize) -> (r: Result<Vec<u8>, DeviceError>)
        ensures
            Self::ran_bytes(
                *old(self),
                *final(self),
                r,
                eeprom16_bytes_run(old(self).transport.wire(), offset, len as nat, seq![]),
            ),
            r matches Ok(bytes) ==> bytes@.len() == len,
    {
        let mut bytes: Vec<u8> = Vec::new();
        let ghost whole = eeprom16_bytes_run(self.transport.wire(), offset, len as nat, seq![]);
        assert(bytes@ =~= seq![]);
        while bytes.len() < len
            invariant
                self.same_target(*old(self)),
                bytes@.len() <= len,
                eeprom16_bytes_run(self.transport.wire(), offset, len as nat, bytes@) == whole,
            decreases len - bytes@.len(),
        {
            let cursor: usize = bytes.len();
            let chunk_len: usize = if len - cursor > EEPROM16_MAX_TRANSFER_LEN {
                EEPROM16_MAX_TRANSFER_LEN
            } else {
                len - cursor
            };
            let place: usize = offset as usize + cursor % 256;
            if place > 255 {
                return Err(DeviceError::from_words("report8 eeprom offset overflow"));
            }
            let report = match build_eeprom16_read(place as u8, chunk_len as u8) {
                Err(e) => return Err(e),
                Ok(report) => report,
            };
            let response = match self.transact_report8(report, 8, 50, 5) {
                Err(e) => return Err(e),
                Ok(response) => response,
            };
            let mut chunk = match take_eeprom16_bytes(&response, place as u8, chunk_len) {
                Err(e) => return Err(e),
                Ok(chunk) => chunk,
            };
            bytes.append(&mut chunk);
        }
        Ok(bytes)
    }

    fn read_ipi_pix_v1_rate(&mut self, report_id: u8) -> (r: Result<PollingRate, DeviceError>)
        ensures
            Self::ran(
                *old(self),
                *final(self),
                r,
                ipi_rate_run(old(self).transport.wire(), report_id, old(self).connection),
            ),
    {
        let report = build_ipi_pix_v1_get_rate();
        let response = match self.ask_ipi_pix_v1(report_id, &report, 50) {
            Err(e) => return Err(e),
            Ok(response) => response,
        };
        let raw = match byte_at(&response, 6) {
            None => return Err(
                DeviceError::from_words("short ipi pix v1 response while reading polling rate"),
            ),
            Some(raw) => raw,
        };
        match ipi_pix_v1_rate_from_sensor_byte(self.connection, raw) {
            Some(rate) => Ok(rate),
            None => {
                let mut message = "device returned unknown ipi pix v1 polling-rate byte ".to_owned();
                append_decimal(&mut message, raw as u128);
                Err(DeviceError::new(message))
            },
        }
    }

    fn set_ipi_pix_v1_rate(&mut self, report_id: u8, rate: PollingRate) -> (r: Result<
        (),
        DeviceError,
    >)
        ensures
            Self::ran(
                *old(self),
                *final(self),
                r,
                ipi_set_rate_run(old(self).transport.wire(), report_id, old(self).connection, rate),
            ),
    {
        let report = build_ipi_pix_v1_set_rate(self.connection, rate);
        match self.transport.send_feature_payload(report_id, &report) {
            Err(e) => return Err(e),
            Ok(_) => {},
        }
        self.transport.sleep(60);
        let _ = self.get_ipi_pix_v1_response(report_id, report[3]);
        Ok(())
    }

    fn read_ipi_pix_v1_battery(&mut self, report_id: u8) -> (r: Result<BatteryStatus, DeviceError>)
        ensures
            Self::ran(
                *old(self),
                *final(self),
                r,
                ipi_battery_run(old(self).transport.wire(), report_id),
            ),
    {
        let report = build_ipi_pix_v1_get_basic_info();
        let response = match self.ask_ipi_pix_v1(report_id, &report, 100) {
            Err(e) => return Err(e),
            Ok(response) => response,
        };
        match byte_at(&response, 5) {
            None => Err(
                DeviceError::from_words("short ipi pix v1 response while reading battery"),
            ),
            Some(level) => Ok(BatteryStatus::level_only(level)),
        }
    }

    /// Reads the resolutions of an IPI mouse, in the form in which it stores
    /// them.
    pub fn read_ipi_pix_v1_dpi_config(&mut self, format: &IpiDpiFormat) -> (r: Result<
        IpiDpiConfig,
        DeviceError,
    >)
        requires
            old(self).protocol is IpiPixV1,
        ensures
            final(self).same_target(*old(self)),
            ({
                let run = ipi_dpi_config_run(
                    old(self).transport.wire(),
                    old(self).protocol->report_id,
                    format.page_requests@,
                    format.levels as nat,
                    format.color_bytes as nat,
                );
                &&& final(self).transport.wire() == run.wire
                &&& match r {
                    Ok(config) => run.outcome == Ok::<IpiDpiData, ErrorText>(config@),
                    Err(e) => run.outcome == Err::<IpiDpiData, ErrorText>(e@),
                }
            }),
    {
        let report_id: u8 = match self.protocol {
            ProtocolKind::IpiPixV1 { report_id } => report_id,
            _ => 0,
        };
        let sensor_report = build_ipi_pix_v1_get_rate();
        let sensor = match self.ask_ipi_pix_v1(report_id, &sensor_report, 50) {
            Err(e) => return Err(e),
            Ok(response) => response,
        };
        let profile = match byte_at(&sensor, 7) {
            None => return Err(
                DeviceError::from_words("short ipi pix v1 response while reading DPI profile"),
            ),
            Some(profile) => profile,
        };
        let bytes = match self.read_ipi_pix_v1_pages(report_id, &format.page_requests) {
            Err(e) => return Err(e),
            Ok(bytes) => bytes,
        };
        parse_ipi_pix_v1_dpi(profile, &bytes, format.levels, format.color_bytes)
    }

    /// Reads the six resolution pages.
    #[verifier::loop_isolation(false)]
    fn read_ipi_pix_v1_pages(
        &mut self,
        report_id: u8,
        page_requests: &[[u8; IPI_PIX_PAYLOAD_LEN]; 6],
    ) -> (r: Result<Vec<u8>, DeviceError>)
        ensures
            Self::ran_bytes(
                *old(self),
                *final(self),
                r,
                ipi_pages_run(
                    old(self).transport.wire(),
                    report_id,
                    page_requests@,
                    0,
                    seq![],
                ),
            ),
            r matches Ok(bytes) ==> bytes@.len() == 59,
    {
        let mut bytes: Vec<u8> = Vec::new();
        let ghost whole = ipi_pages_run(
            self.transport.wire(),
            report_id,
            page_requests@,
            0,
            seq![],
        );
        assert(bytes@ =~= seq![]);
        for page in 0..6usize
            invariant
                self.same_target(*old(self)),
                bytes@.len() == if page == 0 {
                    0
                } else {
                    10 * page - 1
                },
                ipi_pages_run(
                    self.transport.wire(),
                    report_id,
                    page_requests@,
                    page as nat,
                    bytes@,
                ) == whole,
        {
            let response = match self.ask_ipi_pix_v1(report_id, &page_requests[page], 20) {
                Err(e) => return Err(e),
                Ok(response) => response,
            };
            if response.len() < 15 {
                let mut message = "short ipi pix v1 response while reading DPI page ".to_owned();
                append_decimal(&mut message, page as u128);
                return Err(DeviceError::new(message));
            }
            let start: usize = if page == 0 {
                6
            } else {
                5
            };
            let mut chunk = copy_bytes(&response, start, 15);
            bytes.append(&mut chunk);
        }
        Ok(bytes)
    }

    /// Gives an IPI mouse a resolution order and waits until it answers.
    #[verifier::loop_isolation(false)]
    pub fn send_ipi_pix_v1_dpi(&mut self, report: &[u8; IPI_PIX_PAYLOAD_LEN]) -> (r: Result<
        (),
        DeviceError,
    >)
        requires
            old(self).protocol is IpiPixV1,
        ensures
            Self::ran(
                *old(self),
                *final(self),
                r,
                ipi_dpi_order_run(
                    old(self).transport.wire(),
                    old(self).protocol->report_id,
                    report@,
                ),
            ),
    {
        let report_id: u8 = match self.protocol {
            ProtocolKind::IpiPixV1 { report_id } => report_id,
            _ => 0,
        };
        match self.transport.send_feature_payload(report_id, report) {
            Err(e) => return Err(e),
            Ok(_) => {},
        }
        let ghost whole = ipi_dpi_answer_run(self.transport.wire(), report_id, report[3], 3);
        for round in 0..3usize
            invariant
                self.same_target(*old(self)),
                ipi_dpi_answer_run(
                    self.transport.wire(),
                    report_id,
                    report[3],
                    (3 - round) as nat,
                ) == whole,
        {
            self.transport.sleep(20);
            if self.get_ipi_pix_v1_response(report_id, report[3]).is_ok() {
                return Ok(());
            }
        }
        Err(DeviceError::from_words("timed out waiting for ipi pix v1 DPI write response"))
    }

    /// The course of reading the resolutions of an IPI mouse in a layout.
    pub open spec fn ipi_dpi_read(self, format: IpiDpiFormat) -> Run<IpiDpiData> {
        ipi_dpi_config_run(
            self.transport.wire(),
            self.protocol->report_id,
            format.page_requests@,
            format.levels as nat,
            format.color_bytes as nat,
        )
    }

    /// Reads the active resolution of an IPI mouse. How the stored resolutions
    /// are laid out, and which of them is the active one and what it stands
    /// for, differs between models: `format` and `current_dpi` say so.
    pub fn read_ipi_pix_v1_dpi<F: Fn(&IpiDpiConfig) -> Result<u16, DeviceError>>(
        &mut self,
        format: &IpiDpiFormat,
        current_dpi: F,
    ) -> (r: Result<u16, DeviceError>)
        requires
            old(self).protocol is IpiPixV1,
            forall|config: &IpiDpiConfig| #[trigger] call_requires(current_dpi, (config,)),
        ensures
            final(self).same_target(*old(self)),
            final(self).transport.wire() == old(self).ipi_dpi_read(*format).wire,
            match old(self).ipi_dpi_read(*format).outcome {
                Err(e) => outcome(r) == Err::<u16, ErrorText>(e),
                Ok(data) => exists|config: IpiDpiConfig| #[trigger]
                    call_ensures(current_dpi, (&config,), r) && config@ == data,
            },
    {
        let config = match self.read_ipi_pix_v1_dpi_config(format) {
            Err(e) => return Err(e),
            Ok(config) => config,
        };
        let r = current_dpi(&config);
        assert(call_ensures(current_dpi, (&config,), r));
        r
    }

    /// Sets the active resolution of an IPI mouse: its stored resolutions are
    /// read, the order is made of them, and the order is given. How they are
    /// laid out, and how an order for a resolution is made, differs between
    /// models: `format` and `make_order` say so.
    pub fn set_ipi_pix_v1_dpi<
        F: Fn(&IpiDpiConfig, u16) -> Result<[u8; IPI_PIX_PAYLOAD_LEN], DeviceError>,
    >(&mut self, format: &IpiDpiFormat, dpi: u16, make_order: F) -> (r: Result<(), DeviceError>)
        requires
            old(self).protocol is IpiPixV1,
            forall|config: &IpiDpiConfig| #[trigger] call_requires(make_order, (config, dpi)),
        ensures
            final(self).same_target(*old(self)),
            match old(self).ipi_dpi_read(*format).outcome {
                Err(e) => {
                    &&& final(self).transport.wire() == old(self).ipi_dpi_read(*format).wire
                    &&& outcome(r) == Err::<(), ErrorText>(e)
                },
                Ok(data) => exists|
                    config: IpiDpiConfig,
                    order: Result<[u8; IPI_PIX_PAYLOAD_LEN], DeviceError>,
                |
                    {
                        &&& #[trigger] call_ensures(make_order, (&config, dpi), order)
                        &&& config@ == data
                        &&& Self::ran(
                            *old(self),
                            *final(self),
                            r,
                            ipi_made_order_run(
                                old(self).ipi_dpi_read(*format).wire,
                                old(self).protocol->report_id,
                                report_outcome(order),
                            ),
                        )
                    },
            },
    {
        let config = match self.read_ipi_pix_v1_dpi_config(format) {
            Err(e) => return Err(e),
            Ok(config) => config,
        };
        let order = make_order(&config, dpi);
        assert(call_ensures(make_order, (&config, dpi), order));
        match order {
            Err(e) => Err(e),
            Ok(report) => self.send_ipi_pix_v1_dpi(&report),
        }
    }

    fn set_logitech_hidpp_rate(&mut self, rate: PollingRate) -> (r: Result<(), DeviceError>)
        ensures
            Self::ran(
                *old(self),
                *final(self),
                r,
                hidpp_set_rate_run(old(self).transport.wire(), rate),
            ),
    {
        let code = match rate.logitech_hidpp_code() {
            None => {
                let mut message = "unsupported logitech hid++ polling rate ".to_owned();
                message.append(rate.text().as_str());
                return Err(DeviceError::new(message));
            },
            Some(code) => code,
        };
        let index = match self.discover_logitech_hidpp_feature(HIDPP_REPORT_RATE_FEATURE_ID, 2_000) {
            Some(index) => index,
            None => HIDPP_REPORT_RATE_FALLBACK_INDEX,
        };
        let order: [u8; 6] = [0xFF, index, 0x2E, code, 0x00, 0x00];
        assert(order@ =~= hidpp_rate_request(index, code)->WriteOutput_payload);
        match self.transport.write_output_payload(HIDPP_SHORT_ID, &order) {
            Err(e) => Err(e),
            Ok(_) => Ok(()),
        }
    }

    /// Looks for either of the two battery features.
    fn discover_logitech_hidpp_battery(&mut self) -> (r: Option<u8>)
        ensures
            final(self).same_target(*old(self)),
            (final(self).transport.wire(), r) == hidpp_battery_feature_run(
                old(self).transport.wire(),
            ),
    {
        let unified = self.discover_logitech_hidpp_feature(
            HIDPP_UNIFIED_BATTERY_FEATURE_ID,
            HIDPP_SCAN_DISCOVERY_TIMEOUT_MS,
        );
        match unified {
            Some(index) => Some(index),
            None => self.discover_logitech_hidpp_feature(
                HIDPP_BATTERY_STATUS_FEATURE_ID,
                HIDPP_SCAN_DISCOVERY_TIMEOUT_MS,
            ),
        }
    }

    fn read_logitech_hidpp_battery(&mut self) -> (r: Result<BatteryStatus, DeviceError>)
        ensures
            Self::ran(*old(self), *final(self), r, hidpp_battery_run(old(self).transport.wire())),
    {
        let index = match self.discover_logitech_hidpp_battery() {
            None => return Err(
                DeviceError::from_words("battery feature not found on this logitech hid++ device"),
            ),
            Some(index) => index,
        };
        let query: [u8; 6] = [HIDPP_DEVICE_INDEX, index, 0x1D, 0x00, 0x00, 0x00];
        assert(query@ =~= seq![HIDPP_DEVICE_INDEX, index, 0x1D, 0x00, 0x00, 0x00]);
        match self.transport.write_output_payload(HIDPP_SHORT_ID, &query) {
            Err(e) => return Err(e),
            Ok(_) => {},
        }
        self.transport.sleep(500);
        match self.transport.write_output_payload(HIDPP_SHORT_ID, &query) {
            Err(e) => return Err(e),
            Ok(_) => {},
        }
        let response = match self.read_logitech_hidpp_matching(index, HIDPP_BATTERY_TIMEOUT_MS) {
            Err(e) => return Err(e),
            Ok(None) => return Err(
                DeviceError::from_words(
                    "battery query timed out; device may be asleep or out of range",
                ),
            ),
            Ok(Some(response)) => response,
        };
        let raw_level = byte_at(&response, 3).unwrap_or(0);
        let level = if raw_level > 100 {
            100
        } else {
            raw_level
        };
        let raw_state = byte_at(&response, 5).unwrap_or(0);
        Ok(
            BatteryStatus::with_raw_state(
                level,
                logitech_charge_state_from_status(raw_state),
                raw_state,
            ),
        )
    }

    fn set_razer_v1_rate(&mut self, tx_id: u8, polling_reversed: bool, rate: PollingRate) -> (r:
        Result<(), DeviceError>)
        ensures
            Self::ran(
                *old(self),
                *final(self),
                r,
                razer_set_rate_run(old(self).transport.wire(), tx_id, polling_reversed, rate),
            ),
    {
        let args: [u8; 2] = [0x01, rate.razer_v1_mask(polling_reversed)];
        assert(args@ =~= seq![0x01, rate.razer_v1_mask(polling_reversed)]);
        let command = build_razer_v1_command(tx_id, 0x00, 0x40, 0x02, &args);
        self.transport.send_feature_payload(RAZER_V1_REPORT_ID, &command)
    }

    fn read_razer_v1_battery(&mut self, tx_id: u8) -> (r: Result<BatteryStatus, DeviceError>)
        ensures
            Self::ran(
                *old(self),
                *final(self),
                r,
                razer_battery_run(old(self).transport.wire(), tx_id),
            ),
    {
        let args: [u8; 2] = [0x00, 0x00];
        assert(args@ =~= seq![0x00u8, 0x00]);
        let level_command = build_razer_v1_command(tx_id, 0x07, 0x80, 0x02, &args);
        let level_response = match self.send_razer_v1_and_recv(&level_command) {
            Err(e) => return Err(e),
            Ok(response) => response,
        };
        let raw_level = match byte_at(&level_response, 9) {
            None => return Err(DeviceError::from_words("short razer v1 battery level response")),
            Some(raw_level) => raw_level,
        };
        let level = ((raw_level as u16 * 100 + 127) / 255) as u8;
        self.transport.sleep(60);
        let charge_command = build_razer_v1_command(tx_id, 0x07, 0x84, 0x02, &args);
        let charge_response = match self.send_razer_v1_and_recv(&charge_command) {
            Err(e) => return Err(e),
            Ok(response) => response,
        };
        let raw_state = match byte_at(&charge_response, 9) {
            None => return Err(DeviceError::from_words("short razer v1 charging-state response")),
            Some(raw_state) => raw_state,
        };
        let charge_state = if raw_state == 0 {
            ChargeState::Discharging
        } else {
            ChargeState::Charging
        };
        Ok(BatteryStatus::with_raw_state(level, charge_state, raw_state))
    }

    fn discover_logitech_hidpp_feature(&mut self, feature_id: u16, timeout_ms: i32) -> (r: Option<
        u8,
    >)
        ensures
            final(self).same_target(*old(self)),
            (final(self).transport.wire(), r) == hidpp_discover_run(
                old(self).transport.wire(),
                feature_id,
                timeout_ms,
            ),
    {
        let payload: [u8; 6] = [
            HIDPP_DEVICE_INDEX,
            HIDPP_ROOT_FEATURE_INDEX,
            HIDPP_SW_ID,
            (feature_id / 256) as u8,
            (feature_id % 256) as u8,
            0x00,
        ];
        assert(payload@ =~= hidpp_discover_request(feature_id)->WriteOutput_payload);
        match self.transport.write_output_payload(HIDPP_SHORT_ID, &payload) {
            Err(_) => return None,
            Ok(_) => {},
        }
        let response = match self.read_logitech_hidpp_matching(
            HIDPP_ROOT_FEATURE_INDEX,
            timeout_ms,
        ) {
            Ok(Some(response)) => response,
            _ => return None,
        };
        match byte_at(&response, 3) {
            Some(index) => if index == 0 {
                None
            } else {
                Some(index)
            },
            None => None,
        }
    }

    /// Waits for an answer of the device with the given second byte.
    #[verifier::loop_isolation(false)]
    fn read_logitech_hidpp_matching(&mut self, second: u8, timeout_ms: i32) -> (r: Result<
        Option<Vec<u8>>,
        DeviceError,
    >)
        ensures
            final(self).same_target(*old(self)),
            ({
                let run = hidpp_matching_run(
                    old(self).transport.wire(),
                    second,
                    hidpp_reads(timeout_ms),
                );
                &&& final(self).transport.wire() == run.wire
                &&& match r {
                    Ok(Some(response)) => run.outcome == Ok::<Option<Seq<u8>>, ErrorText>(
                        Some(response@),
                    ),
                    Ok(None) => run.outcome == Ok::<Option<Seq<u8>>, ErrorText>(None),
                    Err(e) => run.outcome == Err::<Option<Seq<u8>>, ErrorText>(e@),
                }
            }),
    {
        let mut left: u32 = if timeout_ms < 1 {
            1
        } else {
            (timeout_ms as u32 + 49) / 50
        };
        let ghost whole = hidpp_matching_run(self.transport.wire(), second, left as nat);
        assert(left == hidpp_reads(timeout_ms));
        while left > 0
            invariant
                self.same_target(*old(self)),
                hidpp_matching_run(self.transport.wire(), second, left as nat) == whole,
            decreases left,
        {
            let raw = match self.transport.read_input_payload(
                HIDPP_LONG_ID,
                HIDPP_LONG_PAYLOAD_LEN,
                50,
            ) {
                Err(e) => return Err(e),
                Ok(raw) => raw,
            };
            left = left - 1;
            if raw.len() > 0 {
                let response = normalize_logitech_hidpp_payload(&raw);
                if byte_at(&response, 0) == Some(HIDPP_DEVICE_INDEX) && byte_at(&response, 1)
                    == Some(second) {
                    return Ok(Some(response));
                }
            }
        }
        Ok(None)
    }

    /// Sends a Razer command and waits for its answer.
    #[verifier::loop_isolation(false)]
    fn send_razer_v1_and_recv(&mut self, command: &[u8; RAZER_V1_PAYLOAD_LEN]) -> (r: Result<
        Vec<u8>,
        DeviceError,
    >)
        ensures
            Self::ran_bytes(
                *old(self),
                *final(self),
                r,
                razer_run(old(self).transport.wire(), command@),
            ),
    {
        match self.transport.send_feature_payload(RAZER_V1_REPORT_ID, command) {
            Err(e) => return Err(e),
            Ok(_) => {},
        }
        let ghost whole = razer_response_run(self.transport.wire(), 0);
        for attempt in 0..10u64
            invariant
                self.same_target(*old(self)),
                razer_response_run(self.transport.wire(), attempt as nat) == whole,
        {
            self.transport.sleep(20 + attempt * 10);
            let response = match self.transport.get_feature_payload(
                RAZER_V1_REPORT_ID,
                RAZER_V1_PAYLOAD_LEN,
            ) {
                Err(e) => return Err(e),
                Ok(response) => response,
            };
            if response.len() > 0 {
                let answer = response[0];
                if answer == RAZER_STATUS_SUCCESS {
                    return Ok(response);
                } else if answer == RAZER_STATUS_FAILURE {
                    return Err(DeviceError::from_words("razer v1 command returned failure"));
                } else if answer != RAZER_STATUS_BUSY && answer != RAZER_STATUS_NEW {
                    let mut message = "razer v1 command returned unknown status ".to_owned();
                    append_decimal(&mut message, answer as u128);
                    return Err(DeviceError::new(message));
                }
            }
        }
        Err(DeviceError::from_words("timed out waiting for razer v1 command response"))
    }

    /// Sends an IPI report and waits for its answer.
    fn ask_ipi_pix_v1(&mut self, report_id: u8, report: &[u8; IPI_PIX_PAYLOAD_LEN], delay: u64) -> (r:
        Result<Vec<u8>, DeviceError>)
        ensures
            Self::ran_bytes(
                *old(self),
                *final(self),
                r,
                ipi_ask_run(old(self).transport.wire(), report_id, report@, delay as nat),
            ),
    {
        match self.transport.send_feature_payload(report_id, report) {
            Err(e) => return Err(e),
            Ok(_) => {},
        }
        self.transport.sleep(delay);
        self.get_ipi_pix_v1_response(report_id, report[3])
    }

    /// Waits for the answer to an IPI command.
    #[verifier::loop_isolation(false)]
    fn get_ipi_pix_v1_response(&mut self, report_id: u8, command: u8) -> (r: Result<
        Vec<u8>,
        DeviceError,
    >)
        ensures
            Self::ran_bytes(
                *old(self),
                *final(self),
                r,
                ipi_response_run(old(self).transport.wire(), report_id, command, 4),
            ),
    {
        let ghost whole = ipi_response_run(self.transport.wire(), report_id, command, 4);
        for attempt in 0..4usize
            invariant
                self.same_target(*old(self)),
                ipi_response_run(
                    self.transport.wire(),
                    report_id,
                    command,
                    (4 - attempt) as nat,
                ) == whole,
        {
            let raw = match self.transport.get_feature_payload(report_id, IPI_PIX_PAYLOAD_LEN) {
                Err(e) => return Err(e),
                Ok(raw) => raw,
            };
            let response = normalize_ipi_pix_v1_payload(&raw);
            if byte_at(&response, 3) == Some(command) && response.len() > 6 {
                return Ok(response);
            }
            self.transport.sleep(50);
        }
        let mut message = "timed out waiting for ipi pix v1 command ".to_owned();
        append_decimal(&mut message, command as u128);
        Err(DeviceError::new(message))
    }

    /// Makes a report8 exchange.
    #[verifier::loop_isolation(false)]
    fn transact_report8(
        &mut self,
        payload: [u8; REPORT8_PAYLOAD_LEN],
        response_command: u8,
        step_delay_ms: i32,
        attempts: usize,
    ) -> (r: Result<Vec<u8>, DeviceError>)
        ensures
            Self::ran_bytes(
                *old(self),
                *final(self),
                r,
                report8_run(
                    old(self).transport.wire(),
                    payload@,
                    response_command,
                    step_delay_ms as int,
                    attempts as nat,
                ),
            ),
    {
        self.flush_report8();
        let mut payload = payload;
        write_report8_crc(&mut payload);
        let ghost whole = report8_tries(
            self.transport.wire(),
            payload@,
            response_command,
            step_delay_ms as int,
            attempts as nat,
            attempts as nat,
        );
        for attempt in 0..attempts
            invariant
                self.same_target(*old(self)),
                report8_tries(
                    self.transport.wire(),
                    payload@,
                    response_command,
                    step_delay_ms as int,
                    (attempts - attempt) as nat,
                    attempts as nat,
                ) == whole,
        {
            match self.transport.write_output_payload(REPORT8_ID, &payload) {
                Err(e) => return Err(e),
                Ok(_) => {},
            }
            let response = match self.transport.read_input_payload(
                REPORT8_ID,
                REPORT8_PAYLOAD_LEN,
                step_delay_ms,
            ) {
                Err(e) => return Err(e),
                Ok(response) => response,
            };
            if byte_at(&response, 0) == Some(response_command) {
                return Ok(response);
            }
        }
        let mut message = "timed out waiting for report8 command ".to_owned();
        append_decimal(&mut message, response_command as u128);
        message.append(" after ");
        append_decimal(&mut message, attempts as u128);
        message.append(" attempts");
        Err(DeviceError::new(message))
    }

    /// Throws stale reports away.
    pub fn flush_report8(&mut self)
        ensures
            final(self).same_target(*old(self)),
            final(self).transport.wire() == flushed(
                old(self).transport.wire(),
                FLUSH_LIMIT as nat,
            ),
    {
        let mut left: u64 = FLUSH_LIMIT;
        let ghost whole = flushed(self.transport.wire(), FLUSH_LIMIT as nat);
        loop
            invariant
                self.same_target(*old(self)),
                flushed(self.transport.wire(), left as nat) == whole,
                whole == flushed(old(self).transport.wire(), FLUSH_LIMIT as nat),
            decreases left,
        {
            match self.transport.read_input_payload(REPORT8_ID, REPORT8_PAYLOAD_LEN, 1) {
                Ok(response) => {
                    if left == 0 || response.len() == 0 {
                        return;
                    }
                },
                Err(_) => {
                    return;
                },
            }
            left = left - 1;
        }
    }

    fn extract_feature64_battery(&self, response: &[u8]) -> (r: Result<(u8, u8), DeviceError>)
        requires
            self.protocol is Feature64,
        ensures
            outcome(r) == feature64_battery(self.protocol->new_protocol, response@),
    {
        let new_protocol = match self.protocol {
            ProtocolKind::Feature64 { new_protocol, .. } => new_protocol,
            _ => false,
        };
        match find_feature64_battery(new_protocol, response, 1) {
            Some(found) => return found,
            None => {},
        }
        match find_feature64_battery(new_protocol, response, 0) {
            Some(found) => found,
            None => Err(
                DeviceError::from_words("device returned an unrecognized battery response"),
            ),
        }
    }

    fn extract_feature64_rate_code(&self, response: &[u8]) -> (r: Result<u8, DeviceError>)
        requires
            self.protocol is Feature64,
        ensures
            outcome(r) == feature64_rate_code(
                self.protocol->new_protocol,
                self.connection,
                response@,
            ),
    {
        let new_protocol = match self.protocol {
            ProtocolKind::Feature64 { new_protocol, .. } => new_protocol,
            _ => false,
        };
        let shift: usize = if response.len() > 0 && response[0] >= 0xA0 {
            1
        } else {
            0
        };
        let place: usize = if new_protocol {
            8
        } else {
            5
        };
        match byte_at(response, place - shift) {
            None => Err(
                DeviceError::from_words("short feature response while reading polling rate"),
            ),
            Some(code) => if !new_protocol && self.connection.is_wired() && code == 64 {
                Ok(1)
            } else {
                Ok(code)
            },
        }
    }
}

/// State and level in a battery report whose layout starts at `shift`.
fn find_feature64_battery(new_protocol: bool, response: &[u8], shift: usize) -> (r: Option<
    Result<(u8, u8), DeviceError>,
>)
    requires
        shift <= 1,
    ensures
        match r {
            Some(found) => feature64_battery_at(new_protocol, response@, shift as int) == Some(
                outcome(found),
            ),
            None => feature64_battery_at(new_protocol, response@, shift as int) is None,
        },
{
    let mark: usize = if new_protocol {
        3
    } else {
        1
    };
    let command: usize = if new_protocol {
        5
    } else {
        2
    };
    let code: u8 = if new_protocol {
        131
    } else {
        143
    };
    let state: usize = if new_protocol {
        6
    } else {
        4
    };
    if byte_at(response, shift) != Some(0xA1) || byte_at(response, mark + shift) != Some(2)
        || byte_at(response, command + shift) != Some(code) {
        return None;
    }
    let found = match byte_at(response, state + shift) {
        None => Err(short_battery("state")),
        Some(raw_state) => match byte_at(response, state + 1 + shift) {
            None => Err(short_battery("level")),
            Some(level) => Ok((raw_state, level)),
        },
    };
    Some(found)
}

/// The error for a byte that is missing from a battery report.
fn short_battery(what: &str) -> (e: DeviceError)
    ensures
        e@ == short_battery_report(what@),
{
    let mut message = "short feature response while reading battery ".to_owned();
    message.append(what);
    DeviceError::new(message)
}

/// The count of resolutions and the active one, out of the head of the memory.
fn parse_eeprom16_dpi_header(header: &[u8]) -> (r: Result<(usize, usize), DeviceError>)
    ensures
        match r {
            Ok((count, active)) => dpi_header(header@) == Ok::<(nat, nat), ErrorText>(
                (count as nat, active as nat),
            ) && active < count < 256,
            Err(e) => dpi_header(header@) == Err::<(nat, nat), ErrorText>(e@),
        },
{
    let count = match byte_at(header, 2) {
        None => return Err(
            DeviceError::from_words("short report8 header while reading DPI level count"),
        ),
        Some(count) => count,
    };
    if count == 0 {
        return Err(DeviceError::from_words("device returned zero report8 DPI levels"));
    }
    let active = match byte_at(header, 4) {
        None => return Err(
            DeviceError::from_words("short report8 header while reading active DPI level"),
        ),
        Some(active) => active,
    };
    if active >= count {
        let mut message = "device active report8 DPI level ".to_owned();
        append_decimal(&mut message, active as u128);
        message.append(" is outside ");
        append_decimal(&mut message, count as u128);
        message.append(" configured level(s)");
        return Err(DeviceError::new(message));
    }
    Ok((count as usize, active as usize))
}

/// The resolutions in a table.
fn decode_eeprom16_dpi_table(table: &[u8], count: usize) -> (r: Result<Vec<u16>, DeviceError>)
    requires
        count < 256,
        table@.len() == 4 * count,
    ensures
        match r {
            Ok(levels) => dpi_levels(table@, count as nat) == Ok::<Seq<u16>, ErrorText>(levels@),
            Err(e) => dpi_levels(table@, count as nat) == Err::<Seq<u16>, ErrorText>(e@),
        },
{
    let mut levels: Vec<u16> = Vec::new();
    assert(levels@ =~= seq![]);
    for i in 0..count
        invariant
            count < 256,
            table@.len() == 4 * count,
            dpi_levels(table@, i as nat) == Ok::<Seq<u16>, ErrorText>(levels@),
    {
        let entry = copy_bytes(table, 4 * i, 4 * i + 4);
        match decode_eeprom16_dpi_entry(&entry) {
            Err(e) => {
                proof {
                    lemma_dpi_levels_error(table@, (i + 1) as nat, count as nat);
                }
                return Err(e);
            },
            Ok(dpi) => {
                levels.push(dpi);
            },
        }
    }
    Ok(levels)
}

/// An entry that cannot be read spoils the table for good.
proof fn lemma_dpi_levels_error(table: Seq<u8>, some: nat, count: nat)
    requires
        some <= count,
        dpi_levels(table, some) is Err,
    ensures
        dpi_levels(table, count) == dpi_levels(table, some),
    decreases count,
{
    if some < count {
        lemma_dpi_levels_error(table, some, (count - 1) as nat);
    }
}

/// The bytes in the answer to a report8 read.
fn take_eeprom16_bytes(response: &[u8], offset: u8, len: usize) -> (r: Result<
    Vec<u8>,
    DeviceError,
>)
    requires
        len <= 10,
    ensures
        read_outcome(r) == read_bytes(response@, offset as int, len as nat),
{
    if byte_at(response, 3) != Some(offset) || byte_at(response, 4) != Some(len as u8) {
        let mut message = "report8 eeprom response did not match offset ".to_owned();
        append_decimal(&mut message, offset as u128);
        message.append(" length ");
        append_decimal(&mut message, len as u128);
        return Err(DeviceError::new(message));
    }
    if response.len() < 5 + len {
        let mut message = "short report8 eeprom response at offset ".to_owned();
        append_decimal(&mut message, offset as u128);
        message.append(": ");
        append_decimal(&mut message, response.len() as u128);
        message.append(" byte(s)");
        return Err(DeviceError::new(message));
    }
    Ok(copy_bytes(response, 5, 5 + len))
}

/// The resolutions in the bytes of all pages.
fn parse_ipi_pix_v1_dpi(profile: u8, bytes: &[u8], levels: usize, color_bytes: usize) -> (r: Result<
    IpiDpiConfig,
    DeviceError,
>)
    requires
        bytes@.len() == 59,
    ensures
        match r {
            Ok(config) => ipi_dpi_data(profile, bytes@, levels as nat, color_bytes as nat) == Ok::<
                IpiDpiData,
                ErrorText,
            >(config@),
            Err(e) => ipi_dpi_data(profile, bytes@, levels as nat, color_bytes as nat) == Err::<
                IpiDpiData,
                ErrorText,
            >(e@),
        },
{
    if bytes.len() - 16 < color_bytes {
        let mut message = "short ipi pix v1 DPI config response: ".to_owned();
        append_decimal(&mut message, bytes.len() as u128);
        message.append(" byte(s)");
        return Err(DeviceError::new(message));
    }
    let count: usize = if levels < 8 {
        levels
    } else {
        8
    };
    let mut raw_levels: Vec<u16> = Vec::new();
    for i in 0..count
        invariant
            count <= 8,
            bytes@.len() == 59,
            raw_levels@ == words(bytes@, i as nat),
    {
        raw_levels.push(bytes[2 * i] as u16 + 256 * (bytes[2 * i + 1] as u16));
        assert(raw_levels@ =~= words(bytes@, (i + 1) as nat));
    }
    let mut found: Vec<[u8; 3]> = Vec::new();
    for i in 0..color_bytes / 3
        invariant
            color_bytes <= 43,
            bytes@.len() == 59,
            found@.map_values(|c: [u8; 3]| c@) == colors(bytes@, 16, i as nat),
    {
        let ghost before = found@;
        let start: usize = 16 + 3 * i;
        let color: [u8; 3] = [bytes[start], bytes[start + 1], bytes[start + 2]];
        found.push(color);
        assert(color@ =~= bytes@.subrange(start as int, start + 3));
        assert(found@.map_values(|c: [u8; 3]| c@) =~= before.map_values(|c: [u8; 3]| c@).push(
            color@,
        ));
        assert(colors(bytes@, 16, (i + 1) as nat) =~= colors(bytes@, 16, i as nat).push(color@));
    }
    Ok(IpiDpiConfig { profile, raw_levels, colors: found })
}

} // verus!
