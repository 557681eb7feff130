use std::str::FromStr;

use orpheus::config::{
    default_config_path, AppRule, PollMonitorConfig, PowerPolicy, EXAMPLE_CONFIG,
};
use orpheus::devices::{
    fenrir_models, find_model, format_supported_rates, gwolves_charge_state_from_status,
    ipi_piao_models, logitech_models, razer_models, BatteryStatus, ChargeState, ConnectionKind,
    ModelInfo, PollingRate, ProtocolKind, RATES_4K, RATES_8K,
};
use orpheus::process_rules::{active_rule, is_running, normalize_exe};

fn all_models() -> Vec<&'static ModelInfo> {
    fenrir_models()
        .iter()
        .chain(ipi_piao_models())
        .chain(logitech_models())
        .chain(razer_models())
        .collect()
}

const CONNECTIONS: [ConnectionKind; 3] = [
    ConnectionKind::Wired,
    ConnectionKind::Wireless,
    ConnectionKind::Receiver,
];

#[test]
fn rates_read_back_from_their_texts() {
    for rate in RATES_8K {
        assert_eq!(PollingRate::parse(&rate.text()), Ok(rate));
        assert_eq!(PollingRate::parse(&rate.hz().to_string()), Ok(rate));
        assert_eq!(PollingRate::from_number(u64::from(rate.hz())), Ok(rate));
        assert_eq!(PollingRate::from_signed_number(i64::from(rate.hz())), Ok(rate));
        assert_eq!(PollingRate::from_str(&rate.text()), Ok(rate));
    }
    assert_eq!(PollingRate::Hz2000.text(), "2000 Hz");
}

#[test]
fn rates_are_read_in_any_case_and_with_margins() {
    assert_eq!(PollingRate::parse("\t 8K \n"), Ok(PollingRate::Hz8000));
    assert_eq!(PollingRate::parse("500 HZ"), Ok(PollingRate::Hz500));
    assert_eq!(PollingRate::parse("4kHz"), Ok(PollingRate::Hz4000));
    assert_eq!(PollingRate::parse("hz250"), Ok(PollingRate::Hz250));
    assert_eq!(PollingRate::parse("1hz25"), Ok(PollingRate::Hz125));
    assert_eq!(PollingRate::parse("\u{a0}1k\u{3000}"), Ok(PollingRate::Hz1000));
}

#[test]
fn unknown_rates_are_refused_with_their_text() {
    assert_eq!(
        PollingRate::parse(" 3k ").unwrap_err().text(),
        "unknown polling rate:  3k "
    );
    assert_eq!(
        PollingRate::parse("").unwrap_err().text(),
        "unknown polling rate: "
    );
    assert_eq!(
        PollingRate::from_number(999).unwrap_err().text(),
        "unknown polling rate: 999"
    );
    assert_eq!(
        PollingRate::from_number(65_536).unwrap_err().text(),
        "polling rate is too large: 65536"
    );
    assert_eq!(
        PollingRate::from_signed_number(-125).unwrap_err().text(),
        "polling rate must be positive: -125"
    );
    assert_eq!(
        PollingRate::from_signed_number(i64::MIN).unwrap_err().text(),
        "polling rate must be positive: -9223372036854775808"
    );
}

#[test]
fn codes_read_back_where_the_protocol_can_read() {
    let protocols = [
        ProtocolKind::Feature64 {
            new_protocol: false,
            wired_device_id: 0,
        },
        ProtocolKind::Eeprom16,
        ProtocolKind::IpiPixV1 { report_id: 3 },
    ];
    for protocol in protocols {
        for rate in RATES_8K {
            assert_eq!(protocol.rate_from_code(protocol.rate_code(rate)), Some(rate));
        }
        assert_eq!(protocol.rate_from_code(255), None);
        assert!(protocol.supports_rate_read());
    }
    for protocol in [
        ProtocolKind::LogitechHidpp,
        ProtocolKind::RazerV1 {
            tx_id: 0x1F,
            polling_reversed: false,
        },
    ] {
        assert_eq!(protocol.rate_from_code(1), None);
        assert!(!protocol.supports_rate_read());
    }
    assert_eq!(ProtocolKind::LogitechHidpp.rate_code(PollingRate::Hz8000), 0);
}

#[test]
fn batteries_are_put_into_words() {
    assert_eq!(BatteryStatus::level_only(82).text(), "82%");
    assert_eq!(
        BatteryStatus::with_raw_state(40, ChargeState::Charging, 1).text(),
        "40% charging (raw 1)"
    );
    assert_eq!(
        BatteryStatus::with_raw_state(40, ChargeState::Raw(7), 7).text(),
        "40% raw 7"
    );
    let unknown = BatteryStatus {
        level_percent: None,
        charge_state: ChargeState::Full,
        raw_state: None,
    };
    assert_eq!(unknown.text(), "full");
    assert_eq!(unknown.is_charging_like(), Some(true));
    assert_eq!(BatteryStatus::level_only(1).is_charging_like(), None);
    assert_eq!(ChargeState::Raw(9).text(), "raw 9");
    assert_eq!(gwolves_charge_state_from_status(0), ChargeState::Discharging);
    assert_eq!(gwolves_charge_state_from_status(2), ChargeState::Full);
    assert_eq!(gwolves_charge_state_from_status(5), ChargeState::Raw(5));
}

#[test]
fn found_models_go_by_their_ids() {
    for model in all_models() {
        for pid in [
            model.wired_pid,
            model.wireless_pid,
            model.receiver_pid,
            model.receiver_idvd_pid,
        ]
        .into_iter()
        .flatten()
        {
            let (found, connection) = find_model(model.vid, pid).unwrap();
            assert_eq!(found.vid, model.vid);
            assert_eq!(found.match_connection(model.vid, pid), Some(connection));
        }
    }
    assert!(find_model(0x0000, 0x3608).is_none());
    assert!(find_model(0x33E4, 0x0000).is_none());
}

#[test]
fn all_offered_rates_can_be_set() {
    for model in all_models() {
        for connection in CONNECTIONS {
            let rates = model.supported_rates(connection);
            assert!(rates.contains(&PollingRate::Hz1000));
            if model.protocol == ProtocolKind::LogitechHidpp {
                assert!(rates.iter().all(|rate| rate.logitech_hidpp_code().is_some()));
            }
        }
    }
}

#[test]
fn rates_that_are_not_listed_are_refused() {
    let model = logitech_models().first().unwrap();
    let error = model
        .require_rate(ConnectionKind::Wired, PollingRate::Hz8000)
        .unwrap_err();
    assert_eq!(
        error.text(),
        format!("{} does not list 8000 Hz for wired mode", model.name)
    );
    assert!(model
        .require_rate(ConnectionKind::Wired, PollingRate::Hz500)
        .is_ok());
}

#[test]
fn rate_lists_are_joined_with_commas() {
    assert_eq!(format_supported_rates(&RATES_4K), "125, 500, 1000, 2000, 4000");
    assert_eq!(format_supported_rates(&[PollingRate::Hz250]), "250");
    assert_eq!(format_supported_rates(&[]), "");
    let text = format_supported_rates(&RATES_8K);
    let parts: Vec<&str> = text.split(", ").collect();
    assert_eq!(parts.len(), RATES_8K.len());
    for (part, rate) in parts.iter().zip(RATES_8K) {
        assert_eq!(*part, rate.hz().to_string());
        assert_eq!(PollingRate::from_str(part).unwrap(), rate);
    }
}

#[test]
fn the_configuration_has_its_defaults() {
    let config = PollMonitorConfig::default();
    assert_eq!(config.default_rate, PollingRate::Hz8000);
    assert_eq!(config.restore_rate, Some(PollingRate::Hz8000));
    assert_eq!(config.scan_interval_ms, 1_000);
    assert_eq!(config.pending_retry_interval_ms, 1_000);
    assert_eq!(config.active_device_poll_interval_ms, 5_000);
    assert_eq!(config.background_device_poll_interval_ms, 600_000);
    assert_eq!(config.power_policy, PowerPolicy::FirstDevice);
    assert_eq!(config.battery_trend_window_ms, 600_000);
    assert_eq!(config.battery_trend_min_delta, 1);
    assert!(!config.assume_wired_is_charging);
    assert!(!config.assume_wireless_is_discharging);
    assert!(config.allow_unknown_power_active);
    assert!(config.rules.is_empty());
    assert_eq!(default_config_path(false, false), "orpheus.toml");
    assert_eq!(default_config_path(true, false), "orpheus.toml");
    assert_eq!(default_config_path(true, true), "orpheus.toml");
    assert_eq!(default_config_path(false, true), "poll-monitor.toml");
    assert!(EXAMPLE_CONFIG.starts_with("# poll-monitor config\ndefault_rate = 1000\n"));
    assert!(EXAMPLE_CONFIG.ends_with("rate = 4000\nrestore = 1000\n"));
}

fn rule(exe: &str, rate: PollingRate) -> AppRule {
    AppRule {
        exe: exe.to_string(),
        rate,
        restore: None,
    }
}

#[test]
fn the_first_rule_with_a_running_process_wins() {
    let rules = [
        rule("absent.exe", PollingRate::Hz500),
        rule("Game", PollingRate::Hz4000),
        rule("other.exe", PollingRate::Hz1000),
    ];
    let processes = vec!["other".to_string(), "GAME.exe".to_string()];
    let active = active_rule(&rules, &processes).unwrap();
    assert_eq!(active.exe, "Game");
    assert_eq!(active.rate, PollingRate::Hz4000);
    assert!(active_rule(&rules, &vec!["none".to_string()]).is_none());
    assert!(active_rule(&[], &processes).is_none());
}

#[test]
fn process_names_ignore_case_and_suffix() {
    let processes = vec!["Problem-Game.EXE".to_string()];
    assert!(is_running(&processes, "problem-game"));
    assert!(is_running(&processes, " \"PROBLEM-GAME.exe\" "));
    assert!(!is_running(&processes, "problem"));
    assert_eq!(normalize_exe("game.exe.exe"), "game.exe");
    assert_eq!(normalize_exe("\" game \""), " game ");
    assert_eq!(normalize_exe("ÄPFEL.EXE"), "Äpfel");
}
