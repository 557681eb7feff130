//! What the command line takes in, and what it prints.
use crate::devices::{format_supported_rates, outcome, rate_numbers, ConnectionKind, PollingRate};
use crate::error::{plain_error, DeviceError, ErrorText};
use crate::interfaces::{append_ids, ids_text};
use crate::payloads::{with_report8_crc, write_report8_crc};
use crate::probing::{DeviceDiagnostic, OutcomeData, ProbeOutcome};
use crate::reports::report_outcome;
use crate::snapshots::{DeviceSnapshot, SnapshotData};
use crate::text::{
    append_decimal, append_hex2, append_hex4, append_padded, decimal, hex2, hex4, join_texts,
    joined, maybe_text, number, padded, parse_number, signed_decimal, signed_decimal_text,
    stands_at, starts_with, texts, trim, trimmed, Margin, NumberError,
};
use crate::watch::{rate_text, rate_words};
use vstd::prelude::*;

verus! {

/// What `Debug` writes of a text: the text in quotes, with what cannot stand
/// there escaped.
pub uninterp spec fn quoted(s: Seq<char>) -> Seq<char>;

/// The text in quotes: what `std::fmt::Debug` of `str` writes, by
/// `format!("{:?}")`. It depends on the text alone; which characters are
/// escaped, and how, is left to `std`.
#[verifier::external_body]
fn quoted_text(s: &str) -> (r: String)
    ensures
        r@ == quoted(s@),
{
    format!("{:?}", s)
}

/// The number that a text writes as one byte: decimal, or hexadecimal behind
/// `0x` or `0X`, with white space around it.
pub open spec fn byte_number(raw: Seq<char>) -> Result<nat, NumberError> {
    let bare = trimmed(raw, Margin::WhiteSpace);
    if stands_at(bare, "0x"@, 0) || stands_at(bare, "0X"@, 0) {
        number(bare.skip(2), 16, 255)
    } else {
        number(bare, 10, 255)
    }
}

/// The error for a text, given in quotes, that is no byte.
pub open spec fn byte_error(quoted: Seq<char>, reason: NumberError) -> ErrorText {
    plain_error("invalid byte "@ + quoted + ": "@ + reason.spec_reason())
}

/// What reading a byte gives, where `quoted` is the text in quotes.
pub open spec fn parsed_byte(raw: Seq<char>, quoted: Seq<char>) -> Result<u8, ErrorText> {
    match byte_number(raw) {
        Ok(n) => Ok(n as u8),
        Err(e) => Err(byte_error(quoted, e)),
    }
}

/// Reads a byte, where `quoted` is the text in quotes.
pub fn read_byte(raw: &str, quoted: &str) -> (r: Result<u8, DeviceError>)
    ensures
        outcome(r) == parsed_byte(raw@, quoted@),
{
    let bare = trim(raw, Margin::WhiteSpace);
    let bare = bare.as_str();
    proof {
        reveal_strlit("0x");
        reveal_strlit("0X");
    }
    let parsed = if starts_with(bare, "0x") || starts_with(bare, "0X") {
        let len = bare.unicode_len();
        let digits = bare.substring_char(2, len);
        assert(digits@ =~= bare@.skip(2));
        parse_number(digits, 16, 255)
    } else {
        parse_number(bare, 10, 255)
    };
    match parsed {
        Ok(n) => Ok(n as u8),
        Err(e) => {
            let mut message = "invalid byte ".to_owned();
            message.append(quoted);
            message.append(": ");
            message.append(e.reason());
            Err(DeviceError::new(message))
        },
    }
}

/// Reads a byte such as `7`, `0x1f` or `0X1F`.
pub fn parse_byte(raw: &str) -> (r: Result<u8, DeviceError>)
    ensures
        outcome(r) == parsed_byte(raw@, quoted(raw@)),
{
    let quoted = quoted_text(raw);
    read_byte(raw, quoted.as_str())
}

/// The bytes of the first `n` texts, or the error of the first that is none.
pub open spec fn parsed_bytes(raw: Seq<String>, n: nat) -> Result<Seq<u8>, ErrorText>
    decreases n,
{
    if n == 0 {
        Ok(seq![])
    } else {
        match parsed_bytes(raw, (n - 1) as nat) {
            Err(e) => Err(e),
            Ok(bytes) => match parsed_byte(raw[n - 1]@, quoted(raw[n - 1]@)) {
                Err(e) => Err(e),
                Ok(byte) => Ok(bytes.push(byte)),
            },
        }
    }
}

/// The report8 payload that texts write: at most sixteen bytes, filled up with
/// zero bytes, with its checksum where that is wanted.
pub open spec fn typed_payload(raw: Seq<String>, write_crc: bool) -> Result<Seq<u8>, ErrorText> {
    if raw.len() > 16 {
        Err(
            plain_error(
                "report8 payload accepts at most 16 byte(s), got "@ + decimal(raw.len()),
            ),
        )
    } else {
        match parsed_bytes(raw, raw.len()) {
            Err(e) => Err(e),
            Ok(bytes) => {
                let payload = crate::bytes::filled(bytes, 16);
                Ok(
                    if write_crc {
                        with_report8_crc(payload)
                    } else {
                        payload
                    },
                )
            },
        }
    }
}

proof fn lemma_bad_byte(raw: Seq<String>, some: nat, count: nat)
    requires
        some <= count,
        parsed_bytes(raw, some) is Err,
    ensures
        parsed_bytes(raw, count) == parsed_bytes(raw, some),
    decreases count,
{
    if some < count {
        lemma_bad_byte(raw, some, (count - 1) as nat);
    }
}

/// The report8 payload that texts write.
pub fn report8_payload(raw: &Vec<String>, write_crc: bool) -> (r: Result<[u8; 16], DeviceError>)
    ensures
        report_outcome(r) == typed_payload(raw@, write_crc),
{
    if raw.len() > 16 {
        let mut message = "report8 payload accepts at most 16 byte(s), got ".to_owned();
        append_decimal(&mut message, raw.len() as u128);
        return Err(DeviceError::new(message));
    }
    let mut payload: [u8; 16] = [0; 16];
    let ghost mut bytes: Seq<u8> = seq![];
    assert(payload@ =~= crate::bytes::filled(bytes, 16));
    for i in 0..raw.len()
        invariant
            raw@.len() <= 16,
            bytes.len() == i,
            parsed_bytes(raw@, i as nat) == Ok::<Seq<u8>, ErrorText>(bytes),
            payload@ == crate::bytes::filled(bytes, 16),
    {
        match parse_byte(raw[i].as_str()) {
            Err(e) => {
                proof {
                    lemma_bad_byte(raw@, (i + 1) as nat, raw@.len());
                }
                return Err(e);
            },
            Ok(byte) => {
                payload[i] = byte;
                assert(payload@ =~= crate::bytes::filled(bytes.push(byte), 16));
                proof {
                    bytes = bytes.push(byte);
                }
            },
        }
    }
    if write_crc {
        write_report8_crc(&mut payload);
    }
    Ok(payload)
}

/// The bytes as texts of two hexadecimal digits.
pub open spec fn hex_bytes(bytes: Seq<u8>) -> Seq<Seq<char>> {
    bytes.map_values(|b: u8| hex2(b))
}

/// The bytes in hexadecimal, with spaces between them.
pub fn format_bytes(bytes: &[u8]) -> (s: String)
    ensures
        s@ == joined(hex_bytes(bytes@), " "@),
{
    let mut parts: Vec<String> = Vec::new();
    assert(texts(parts@) =~= hex_bytes(bytes@).take(0));
    for i in 0..bytes.len()
        invariant
            texts(parts@) == hex_bytes(bytes@).take(i as int),
    {
        let ghost before = parts@;
        let mut part = String::new();
        append_hex2(&mut part, bytes[i]);
        assert(part@ =~= hex2(bytes[i as int]));
        parts.push(part);
        assert(texts(parts@) =~= texts(before).push(part@));
        assert(hex_bytes(bytes@).take(i + 1) =~= hex_bytes(bytes@).take(i as int).push(part@));
    }
    assert(hex_bytes(bytes@).take(bytes@.len() as int) =~= hex_bytes(bytes@));
    join_texts(&parts, " ")
}

/// The rates in reports a second.
pub fn rates_hz(rates: &[PollingRate]) -> (r: Vec<u16>)
    ensures
        r@ == rates@.map_values(|rate: PollingRate| rate.hz()),
{
    let ghost all = rates@.map_values(|rate: PollingRate| rate.hz());
    let mut r: Vec<u16> = Vec::new();
    for i in 0..rates.len()
        invariant
            all == rates@.map_values(|rate: PollingRate| rate.hz()),
            r@ == all.take(i as int),
    {
        r.push(rates[i].hz());
        assert(all.take(i + 1) =~= all.take(i as int).push(all[i as int]));
    }
    assert(all.take(rates@.len() as int) =~= all);
    r
}

/// A number of four hexadecimal digits, where it is known.
pub open spec fn hex_words(value: Option<u16>) -> Seq<char> {
    match value {
        Some(value) => "0x"@ + hex4(value),
        None => "unknown"@,
    }
}

/// A number of four hexadecimal digits, where it is known.
pub fn optional_hex(value: Option<u16>) -> (s: String)
    ensures
        s@ == hex_words(value),
{
    match value {
        Some(value) => {
            let mut s = "0x".to_owned();
            append_hex4(&mut s, value);
            s
        },
        None => "unknown".to_owned(),
    }
}

/// The lines for one device in the list.
pub open spec fn listed(device: SnapshotData) -> Seq<Seq<char>> {
    let first = ids_text(device.vid, device.pid) + " "@ + padded(device.vendor_name, 9) + " "@
        + padded(device.model_name, 18) + " "@ + device.connection.spec_text() + " current: "@
        + padded(rate_words(device.current_rate), 8) + " battery: "@ + padded(
        device.battery_text(),
        24,
    ) + " supported: "@ + device.rates_text();
    let second = match device.read_error {
        Some(error) => seq!["  read error: "@ + error],
        None => seq![],
    };
    let third = match device.battery_error {
        Some(error) => seq!["  battery error: "@ + error],
        None => seq![],
    };
    seq![first] + second + third
}

/// The lines for one device in the list.
pub fn list_lines(device: &DeviceSnapshot) -> (lines: Vec<String>)
    ensures
        texts(lines@) == listed(device@),
{
    let mut first = String::new();
    append_ids(&mut first, device.vid, device.pid);
    assert(first@ =~= ids_text(device.vid, device.pid));
    first.append(" ");
    append_padded(&mut first, device.vendor_name, 9);
    first.append(" ");
    append_padded(&mut first, device.model_name, 18);
    first.append(" ");
    first.append(device.connection.text());
    first.append(" current: ");
    append_padded(&mut first, rate_text(device.current_rate).as_str(), 8);
    first.append(" battery: ");
    append_padded(&mut first, device.battery_text().as_str(), 24);
    first.append(" supported: ");
    first.append(device.supported_rates_text().as_str());
    let mut lines: Vec<String> = Vec::new();
    lines.push(first);
    if let Some(error) = &device.read_error {
        let mut line = "  read error: ".to_owned();
        line.append(error.as_str());
        lines.push(line);
    }
    if let Some(error) = &device.battery_error {
        let mut line = "  battery error: ".to_owned();
        line.append(error.as_str());
        lines.push(line);
    }
    assert(texts(lines@) =~= listed(device@));
    lines
}

/// The line for one step of a diagnosis.
pub open spec fn step_words(label: Seq<char>, outcome: OutcomeData) -> Seq<char> {
    "    "@ + label + match outcome {
        OutcomeData::Passed { detail, elapsed_ms } => ": ok ("@ + detail + ", "@ + decimal(
            elapsed_ms as nat,
        ) + " ms)"@,
        OutcomeData::Skipped { reason } => ": skipped ("@ + reason + ")"@,
        OutcomeData::Error { error, elapsed_ms } => ": error ("@ + error + ", "@ + decimal(
            elapsed_ms as nat,
        ) + " ms)"@,
    }
}

/// The line for one step of a diagnosis.
pub fn probe_line(label: &str, outcome: &ProbeOutcome) -> (s: String)
    ensures
        s@ == step_words(label@, outcome@),
{
    let mut rest = String::new();
    match outcome {
        ProbeOutcome::Passed { detail, elapsed_ms } => {
            rest.append(": ok (");
            rest.append(detail.as_str());
            rest.append(", ");
            append_decimal(&mut rest, *elapsed_ms);
            rest.append(" ms)");
        },
        ProbeOutcome::Skipped { reason } => {
            rest.append(": skipped (");
            rest.append(reason.as_str());
            rest.append(")");
        },
        ProbeOutcome::Error { error, elapsed_ms } => {
            rest.append(": error (");
            rest.append(error.as_str());
            rest.append(", ");
            append_decimal(&mut rest, *elapsed_ms);
            rest.append(" ms)");
        },
    }
    let mut s = "    ".to_owned();
    s.append(label);
    s.append(rest.as_str());
    assert(s@ =~= step_words(label@, outcome@));
    s
}

/// A line for a text that is there.
pub open spec fn maybe_line(label: Seq<char>, text: Option<Seq<char>>) -> Seq<Seq<char>> {
    match text {
        Some(text) => seq![label + text],
        None => seq![],
    }
}

/// The lines for the protocols of a diagnosis.
pub open spec fn protocol_lines(
    protocols: Seq<crate::probing::ProtocolDiagnostic>,
    n: nat,
) -> Seq<Seq<char>>
    decreases n,
{
    if n == 0 {
        seq![]
    } else {
        let p = protocols[n - 1];
        protocol_lines(protocols, (n - 1) as nat) + seq![
            "  protocol "@ + p.protocol.spec_text(),
            step_words("open"@, p.open@),
            step_words("control"@, p.control_probe@),
            step_words("rate"@, p.rate_read@),
            step_words("battery"@, p.battery_read@),
        ]
    }
}

/// The first line of the diagnosis of an interface.
pub open spec fn diagnosis_head(device: DeviceDiagnostic) -> Seq<char> {
    ids_text(device.vid, device.pid) + " iface "@ + signed_decimal(device.interface_number as int)
        + " usage "@ + hex_words(device.usage_page) + ":"@ + hex_words(device.usage) + " "@
        + device.vendor_name@ + " "@ + device.model_name@ + " "@ + device.connection.spec_text()
}

/// The lines of the diagnosis of an interface.
pub open spec fn diagnosis(device: DeviceDiagnostic) -> Seq<Seq<char>> {
    seq![diagnosis_head(device), "  path: "@ + device.path@] + maybe_line(
        "  product: "@,
        maybe_text(device.product),
    ) + maybe_line("  manufacturer: "@, maybe_text(device.manufacturer)) + maybe_line(
        "  serial: "@,
        maybe_text(device.serial),
    ) + seq![
        "  release: 0x"@ + hex4(device.release_number) + " bus: "@ + device.bus_type@
            + " supported: "@ + joined(rate_numbers(device.supported_rates@), ", "@),
    ] + protocol_lines(device.protocols@, device.protocols@.len())
}

/// Adds a line for a text that is there.
fn push_maybe(lines: &mut Vec<String>, label: &str, text: &Option<String>)
    ensures
        texts(final(lines)@) == texts(old(lines)@) + maybe_line(label@, maybe_text(*text)),
{
    if let Some(text) = text {
        let mut line = label.to_owned();
        line.append(text.as_str());
        lines.push(line);
    }
    assert(texts(lines@) =~= texts(old(lines)@) + maybe_line(label@, maybe_text(*text)));
}

/// The lines of the diagnosis of an interface.
pub fn diagnostic_lines(device: &DeviceDiagnostic) -> (lines: Vec<String>)
    ensures
        texts(lines@) == diagnosis(*device),
{
    let mut head = String::new();
    append_ids(&mut head, device.vid, device.pid);
    assert(head@ =~= ids_text(device.vid, device.pid));
    head.append(" iface ");
    head.append(signed_decimal_text(device.interface_number).as_str());
    head.append(" usage ");
    head.append(optional_hex(device.usage_page).as_str());
    head.append(":");
    head.append(optional_hex(device.usage).as_str());
    head.append(" ");
    head.append(device.vendor_name);
    head.append(" ");
    head.append(device.model_name);
    head.append(" ");
    head.append(device.connection.text());
    let mut path = "  path: ".to_owned();
    path.append(device.path.as_str());
    let mut lines: Vec<String> = Vec::new();
    lines.push(head);
    lines.push(path);
    assert(texts(lines@) =~= seq![diagnosis_head(*device), "  path: "@ + device.path@]);
    push_maybe(&mut lines, "  product: ", &device.product);
    push_maybe(&mut lines, "  manufacturer: ", &device.manufacturer);
    push_maybe(&mut lines, "  serial: ", &device.serial);
    let mut release = "  release: 0x".to_owned();
    append_hex4(&mut release, device.release_number);
    release.append(" bus: ");
    release.append(device.bus_type.as_str());
    release.append(" supported: ");
    release.append(format_supported_rates(&device.supported_rates).as_str());
    let ghost before = lines@;
    lines.push(release);
    assert(texts(lines@) =~= texts(before) + seq![release@]);
    let ghost start = texts(lines@);
    assert(start =~= start + protocol_lines(device.protocols@, 0));
    for i in 0..device.protocols.len()
        invariant
            texts(lines@) == start + protocol_lines(device.protocols@, i as nat),
    {
        let ghost earlier = lines@;
        let p = &device.protocols[i];
        let mut name = "  protocol ".to_owned();
        name.append(p.protocol.text());
        lines.push(name);
        lines.push(probe_line("open", &p.open));
        lines.push(probe_line("control", &p.control_probe));
        lines.push(probe_line("rate", &p.rate_read));
        lines.push(probe_line("battery", &p.battery_read));
        assert(texts(lines@) =~= texts(earlier) + seq![
            "  protocol "@ + p.protocol.spec_text(),
            step_words("open"@, p.open@),
            step_words("control"@, p.control_probe@),
            step_words("rate"@, p.rate_read@),
            step_words("battery"@, p.battery_read@),
        ]);
        assert(texts(lines@) =~= start + protocol_lines(device.protocols@, (i + 1) as nat));
    }
    lines
}

/// The line for a rate that was set.
pub open spec fn rate_set_words(
    model: Seq<char>,
    connection: ConnectionKind,
    before: Option<PollingRate>,
    after: Option<PollingRate>,
    rate: PollingRate,
) -> Seq<char> {
    model + " "@ + connection.spec_text() + ": "@ + rate_words(before) + " -> "@ + match after {
        Some(after) => after.spec_text(),
        None => rate.spec_text(),
    }
}

/// The line for a rate that was set.
pub fn rate_set_line(
    model: &str,
    connection: ConnectionKind,
    before: Option<PollingRate>,
    after: Option<PollingRate>,
    rate: PollingRate,
) -> (s: String)
    ensures
        s@ == rate_set_words(model@, connection, before, after, rate),
{
    let mut s = model.to_owned();
    s.append(" ");
    s.append(connection.text());
    s.append(": ");
    s.append(rate_text(before).as_str());
    s.append(" -> ");
    let last = match after {
        Some(after) => after.text(),
        None => rate.text(),
    };
    s.append(last.as_str());
    s
}

/// The line for a resolution that was set.
pub open spec fn dpi_set_words(
    model: Seq<char>,
    connection: ConnectionKind,
    before: Option<u16>,
    after: Option<u16>,
    dpi: u16,
) -> Seq<char> {
    model + " "@ + connection.spec_text() + " DPI: "@ + match before {
        Some(before) => decimal(before as nat),
        None => "unknown"@,
    } + " -> "@ + decimal(
        match after {
            Some(after) => after as nat,
            None => dpi as nat,
        },
    )
}

/// The line for a resolution that was set.
pub fn dpi_set_line(
    model: &str,
    connection: ConnectionKind,
    before: Option<u16>,
    after: Option<u16>,
    dpi: u16,
) -> (s: String)
    ensures
        s@ == dpi_set_words(model@, connection, before, after, dpi),
{
    let mut s = model.to_owned();
    s.append(" ");
    s.append(connection.text());
    s.append(" DPI: ");
    let first = match before {
        Some(before) => crate::text::decimal_text(before as u128),
        None => "unknown".to_owned(),
    };
    s.append(first.as_str());
    s.append(" -> ");
    append_decimal(
        &mut s,
        match after {
            Some(after) => after as u128,
            None => dpi as u128,
        },
    );
    s
}

/// The lines for a report8 exchange.
pub open spec fn exchange_words(
    model: Seq<char>,
    connection: ConnectionKind,
    payload: Seq<u8>,
    responses: Seq<Seq<u8>>,
) -> Seq<Seq<char>> {
    let first = model + " "@ + connection.spec_text() + " report8 tx: "@ + joined(
        hex_bytes(payload),
        " "@,
    );
    if responses.len() == 0 {
        seq![first, "no report8 response"@]
    } else {
        seq![first] + responses.map_values(
            |r: Seq<u8>| "report8 rx: "@ + joined(hex_bytes(r), " "@),
        )
    }
}

/// The lines for a report8 exchange.
pub fn exchange_lines(
    model: &str,
    connection: ConnectionKind,
    payload: &[u8],
    responses: &Vec<Vec<u8>>,
) -> (lines: Vec<String>)
    ensures
        texts(lines@) == exchange_words(
            model@,
            connection,
            payload@,
            crate::hid_device::byte_lists(responses@),
        ),
{
    let ghost lists = crate::hid_device::byte_lists(responses@);
    let ghost rest = lists.map_values(|r: Seq<u8>| "report8 rx: "@ + joined(hex_bytes(r), " "@));
    let mut first = model.to_owned();
    first.append(" ");
    first.append(connection.text());
    first.append(" report8 tx: ");
    first.append(format_bytes(payload).as_str());
    let ghost head = first@;
    let mut lines: Vec<String> = Vec::new();
    lines.push(first);
    if responses.len() == 0 {
        lines.push("no report8 response".to_owned());
        assert(texts(lines@) =~= seq![head, "no report8 response"@]);
        return lines;
    }
    assert(texts(lines@) =~= seq![head] + rest.take(0));
    for i in 0..responses.len()
        invariant
            lists == crate::hid_device::byte_lists(responses@),
            rest == lists.map_values(|r: Seq<u8>| "report8 rx: "@ + joined(hex_bytes(r), " "@)),
            texts(lines@) == seq![head] + rest.take(i as int),
    {
        let ghost before = lines@;
        let mut line = "report8 rx: ".to_owned();
        line.append(format_bytes(&responses[i]).as_str());
        lines.push(line);
        assert(lists[i as int] == responses@[i as int]@);
        assert(texts(lines@) =~= texts(before).push(rest[i as int]));
        assert(seq![head] + rest.take(i + 1) =~= (seq![head] + rest.take(i as int)).push(
            rest[i as int],
        ));
    }
    assert(rest.take(responses@.len() as int) =~= rest);
    lines
}

/// The line at the start of a watch.
pub open spec fn watching_words(rules: nat, path: Seq<char>, scan_interval_ms: u64) -> Seq<char> {
    "watching "@ + decimal(rules) + " rule(s) from "@ + path + " every "@ + decimal(
        if scan_interval_ms < 250 {
            250
        } else {
            scan_interval_ms as nat
        },
    ) + " ms"@
}

/// The line at the start of a watch.
pub fn watching_line(rules: usize, path: &str, scan_interval_ms: u64) -> (s: String)
    ensures
        s@ == watching_words(rules as nat, path@, scan_interval_ms),
{
    let mut s = "watching ".to_owned();
    append_decimal(&mut s, rules as u128);
    s.append(" rule(s) from ");
    s.append(path);
    s.append(" every ");
    append_decimal(
        &mut s,
        if scan_interval_ms < 250 {
            250
        } else {
            scan_interval_ms as u128
        },
    );
    s.append(" ms");
    s
}

} // verus!
