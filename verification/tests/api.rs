use restless_drive_monitor::api::{
    alerts_response, drive_by_id, drive_by_name, filter, minimum_from_lowercase, minimum_level,
    new_api, respond, AlertQuery, Api, RdmResponde,
};
use restless_drive_monitor::config::Config;
use restless_drive_monitor::data::{
    Alert, AlertLevel, Blockdevice, Smart, SmartDevice,
};
use uuid::Uuid;

fn alert(n: u128, level: AlertLevel, dismissed: bool) -> Alert {
    Alert {
        uuid: Uuid::from_u128(n),
        source: "".to_string(),
        klass: "Test".to_string(),
        node: "A".to_string(),
        dismissed,
        text: format!("alert {}", n),
        level,
        one_shot: false,
        datetime_ms: 1,
        last_occurrence_ms: 2,
    }
}

fn numbers(alerts: &[Alert]) -> Vec<u128> {
    alerts.iter().map(|a| a.uuid.as_u128()).collect()
}

fn disk(name: &str) -> Blockdevice {
    Blockdevice {
        name: name.to_string(),
        removable: false,
        size_kb: 0,
        read_only: false,
        mountpoint: None,
        device_type: "disk".to_string(),
        maj_min: "8:0".to_string(),
        model: None,
        serial: None,
        uuid: None,
        label: None,
        world_wide_name: None,
        disk_id: None,
        children: None,
    }
}

#[test]
fn filter_at_warning_without_dismissed() {
    let alerts = vec![
        alert(1, AlertLevel::Info, false),
        alert(2, AlertLevel::Warning, false),
        alert(3, AlertLevel::Critical, true),
        alert(4, AlertLevel::Unknown, false),
    ];
    let out = filter(alerts, AlertLevel::Warning, false);
    assert_eq!(numbers(&out), vec![2, 4]);
}

#[test]
fn filter_with_dismissed_goes_by_level_alone() {
    let alerts = vec![
        alert(1, AlertLevel::Info, true),
        alert(2, AlertLevel::Warning, true),
        alert(3, AlertLevel::Critical, true),
        alert(4, AlertLevel::Critical, false),
    ];
    let out = filter(alerts, AlertLevel::Critical, true);
    assert_eq!(numbers(&out), vec![3, 4]);
}

#[test]
fn unknown_level_passes_every_minimum() {
    for minimum in [AlertLevel::Info, AlertLevel::Warning, AlertLevel::Critical, AlertLevel::Unknown] {
        let out = filter(vec![alert(9, AlertLevel::Unknown, false)], minimum, false);
        assert_eq!(numbers(&out), vec![9]);
    }
}

#[test]
fn filter_at_info_keeps_all_that_are_not_dismissed() {
    let alerts = vec![
        alert(1, AlertLevel::Critical, false),
        alert(2, AlertLevel::Info, true),
        alert(3, AlertLevel::Info, false),
    ];
    assert_eq!(numbers(&filter(alerts, AlertLevel::Info, false)), vec![1, 3]);
}

#[test]
fn filter_of_nothing_is_nothing() {
    assert!(filter(Vec::new(), AlertLevel::Info, true).is_empty());
}

#[test]
fn filter_keeps_the_alerts_as_they_are() {
    let out = filter(vec![alert(7, AlertLevel::Critical, false)], AlertLevel::Info, false);
    assert_eq!(out[0].text, "alert 7");
    assert_eq!(out[0].klass, "Test");
    assert_eq!(out[0].level, AlertLevel::Critical);
    assert_eq!(out[0].datetime_ms, 1);
    assert_eq!(out[0].last_occurrence_ms, 2);
}

#[test]
fn minimum_level_reads_names_in_any_case() {
    assert_eq!(minimum_level(Some("info".to_string())), Some(AlertLevel::Info));
    assert_eq!(minimum_level(Some("Warning".to_string())), Some(AlertLevel::Warning));
    assert_eq!(minimum_level(Some("CRITICAL".to_string())), Some(AlertLevel::Critical));
}

#[test]
fn minimum_level_defaults_to_warning() {
    assert_eq!(minimum_level(None), Some(AlertLevel::Warning));
}

#[test]
fn minimum_level_knows_no_other_name() {
    assert_eq!(minimum_level(Some("unknown".to_string())), None);
    assert_eq!(minimum_level(Some("".to_string())), None);
    assert_eq!(minimum_level(Some("warn".to_string())), None);
    assert_eq!(minimum_from_lowercase("INFO"), None);
    assert_eq!(minimum_from_lowercase("info"), Some(AlertLevel::Info));
    assert_eq!(minimum_from_lowercase("warning"), Some(AlertLevel::Warning));
    assert_eq!(minimum_from_lowercase("critical"), Some(AlertLevel::Critical));
}

fn api(smart_enabled: bool, truenas_enabled: bool) -> Api {
    Api { smart_enabled, truenas_enabled }
}

#[test]
fn alert_query_is_refused_while_disabled() {
    assert!(matches!(
        api(true, false).get_alerts_on_level(Some("info".to_string()), Some(true)),
        RdmResponde::ServiceDisabled
    ));
    assert!(matches!(
        api(true, false).get_alerts_on_level(Some("nonsense".to_string()), None),
        RdmResponde::ServiceDisabled
    ));
}

#[test]
fn alert_query_with_unknown_level_is_not_found() {
    assert!(matches!(
        api(false, true).get_alerts_on_level(Some("fatal".to_string()), None),
        RdmResponde::NotFound
    ));
}

#[test]
fn alert_query_fills_in_the_defaults() {
    match api(false, true).get_alerts_on_level(None, None) {
        RdmResponde::Okay(query) => {
            assert_eq!(query.minimum_level, AlertLevel::Warning);
            assert!(!query.include_dismissed);
        }
        _ => panic!("the query should be accepted"),
    }
    match api(false, true).get_alerts_on_level(Some("Critical".to_string()), Some(true)) {
        RdmResponde::Okay(query) => {
            assert_eq!(query.minimum_level, AlertLevel::Critical);
            assert!(query.include_dismissed);
        }
        _ => panic!("the query should be accepted"),
    }
    match api(false, true).get_alerts_on_level(Some("INFO".to_string()), Some(false)) {
        RdmResponde::Okay(query) => {
            assert_eq!(query.minimum_level, AlertLevel::Info);
            assert!(!query.include_dismissed);
        }
        _ => panic!("the query should be accepted"),
    }
}

#[test]
fn alerts_response_filters_what_was_fetched() {
    let query = AlertQuery { minimum_level: AlertLevel::Warning, include_dismissed: false };
    let fetched = vec![
        alert(1, AlertLevel::Info, false),
        alert(2, AlertLevel::Critical, false),
        alert(3, AlertLevel::Critical, true),
    ];
    match alerts_response(Some(fetched), &query) {
        RdmResponde::Okay(alerts) => assert_eq!(numbers(&alerts), vec![2]),
        _ => panic!("the alerts should be served"),
    }
    assert!(matches!(alerts_response(None, &query), RdmResponde::InternalServerError));
}

#[test]
fn drive_by_name_answers_for_known_disks_only() {
    match drive_by_name(Some(vec![disk("sda"), disk("sdb")]), "sdb") {
        RdmResponde::Okay(name) => assert_eq!(name, "sdb"),
        _ => panic!("the disk should be found"),
    }
    assert!(matches!(
        drive_by_name(Some(vec![disk("sda"), disk("sdb")]), "sdc"),
        RdmResponde::NotFound
    ));
    assert!(matches!(
        drive_by_name(Some(vec![disk("sda")]), "sda; rm -rf /"),
        RdmResponde::NotFound
    ));
    assert!(matches!(drive_by_name(Some(Vec::new()), "sda"), RdmResponde::NotFound));
    assert!(matches!(drive_by_name(None, "sda"), RdmResponde::InternalServerError));
}

#[test]
fn drive_by_id_answers_with_the_path_of_the_id() {
    let ids = vec![
        ("ata-ST1000".to_string(), "/dev/sda".to_string()),
        ("wwn-0x5000".to_string(), "/dev/sda".to_string()),
    ];
    match drive_by_id(Some(ids.clone()), "wwn-0x5000") {
        RdmResponde::Okay(path) => assert_eq!(path, "disk/by-id/wwn-0x5000"),
        _ => panic!("the id should be found"),
    }
    assert!(matches!(drive_by_id(Some(ids.clone()), "/dev/sda"), RdmResponde::NotFound));
    assert!(matches!(drive_by_id(Some(ids), "../../sda"), RdmResponde::NotFound));
    assert!(matches!(drive_by_id(None, "ata-ST1000"), RdmResponde::InternalServerError));
}

#[test]
fn smart_reader_refuses_while_disabled() {
    assert!(matches!(api(false, true).smart_reader("sda".to_string()), RdmResponde::ServiceDisabled));
    match api(true, false).smart_reader("sda".to_string()) {
        RdmResponde::Okay(name) => assert_eq!(name, "sda"),
        _ => panic!("the drive should be read"),
    }
}

#[test]
fn smart_data_by_name_looks_the_drive_up_first() {
    let disks = || Some(vec![disk("sda"), disk("sdb")]);
    match api(true, false).get_smart_data(disks(), "sdb") {
        RdmResponde::Okay(name) => assert_eq!(name, "sdb"),
        _ => panic!("the drive should be read"),
    }
    assert!(matches!(api(false, false).get_smart_data(disks(), "sdb"), RdmResponde::ServiceDisabled));
    assert!(matches!(api(true, false).get_smart_data(disks(), "sdc"), RdmResponde::NotFound));
    assert!(matches!(api(false, false).get_smart_data(disks(), "sdc"), RdmResponde::NotFound));
    assert!(matches!(api(true, false).get_smart_data(None, "sda"), RdmResponde::InternalServerError));
    assert!(matches!(api(false, false).get_smart_data(None, "sda"), RdmResponde::InternalServerError));
}

#[test]
fn smart_data_by_id_looks_the_id_up_first() {
    let ids = || Some(vec![("ata-ST1000".to_string(), "/dev/sda".to_string())]);
    match api(true, false).get_smart_data_by_id(ids(), "ata-ST1000") {
        RdmResponde::Okay(path) => assert_eq!(path, "disk/by-id/ata-ST1000"),
        _ => panic!("the drive should be read"),
    }
    assert!(matches!(
        api(false, true).get_smart_data_by_id(ids(), "ata-ST1000"),
        RdmResponde::ServiceDisabled
    ));
    assert!(matches!(api(true, true).get_smart_data_by_id(ids(), "sda"), RdmResponde::NotFound));
    assert!(matches!(
        api(true, true).get_smart_data_by_id(None, "ata-ST1000"),
        RdmResponde::InternalServerError
    ));
}

#[test]
fn smart_response_serves_the_record() {
    let record = Smart {
        device: SmartDevice {
            name: "/dev/sda".to_string(),
            device_type: "sat".to_string(),
            protocol: "ATA".to_string(),
        },
        passed: true,
        power_on_hours: 7,
        power_cycle_count: 3,
        attributes: Vec::new(),
        caution: false,
    };
    match api(true, false).smart_response(Some(record)) {
        RdmResponde::Okay(smart) => {
            assert_eq!(smart.device.name, "/dev/sda");
            assert_eq!(smart.power_on_hours, 7);
        }
        _ => panic!("the record should be served"),
    }
    assert!(matches!(api(true, false).smart_response(None), RdmResponde::InternalServerError));
}

#[test]
fn drive_list_serves_the_disks() {
    match api(false, false).get_drive_list(Some(vec![disk("sda"), disk("sdb")])) {
        RdmResponde::Okay(disks) => {
            assert_eq!(disks.len(), 2);
            assert_eq!(disks[1].name, "sdb");
        }
        _ => panic!("the disks should be served"),
    }
    assert!(matches!(api(true, true).get_drive_list(None), RdmResponde::InternalServerError));
}

#[test]
fn ping_is_answered_with_pong() {
    assert_eq!(api(false, false).get_ping(), "pong");
}

#[test]
fn respond_serves_a_result_and_reports_its_absence() {
    assert!(matches!(respond(Some(5u8)), RdmResponde::Okay(5)));
    assert!(matches!(respond::<u8>(None), RdmResponde::InternalServerError));
}

#[test]
fn services_report_the_probe_only_while_enabled() {
    let s = api(false, true).get_services(Some(true));
    assert!(s.truenas_enabled && !s.smart_enabled && s.truenas_status);
    let s = api(true, true).get_services(Some(false));
    assert!(s.truenas_enabled && s.smart_enabled && !s.truenas_status);
    let s = api(true, true).get_services(None);
    assert!(!s.truenas_status);
    let s = api(true, false).get_services(Some(true));
    assert!(!s.truenas_enabled && s.smart_enabled && !s.truenas_status);
}

fn config(use_truenas: bool, address: Option<&str>, token: Option<&str>) -> Config {
    Config {
        use_truenas,
        truenas_address: address.map(|a| a.to_string()),
        truenas_token: token.map(|t| t.to_string()),
        accept_invalid_certs: false,
        port: 30603,
    }
}

#[test]
fn remote_system_needs_configuration_and_client() {
    let c = config(true, Some("https://nas.local/"), Some("1-abcdef"));
    assert!(new_api(&c, true, false).truenas_enabled);
    assert!(!new_api(&c, false, false).truenas_enabled);
    assert!(!new_api(&config(false, Some("https://nas.local/"), Some("t")), true, false).truenas_enabled);
    assert!(!new_api(&config(true, Some("mailto:a@b"), Some("t")), true, false).truenas_enabled);
    assert!(!new_api(&config(true, Some("https://nas.local/"), Some("")), true, false).truenas_enabled);
}

#[test]
fn smart_needs_root_on_linux() {
    let c = config(false, None, None);
    assert!(new_api(&c, false, true).smart_enabled);
    assert!(!new_api(&c, true, false).smart_enabled);
}

#[test]
fn cloned_alert_is_the_same_alert() {
    let first = alert(0xfeed_beef, AlertLevel::Critical, true);
    let copy = first.clone();
    assert_eq!(copy.uuid, first.uuid);
    assert_eq!(copy.uuid, Uuid::from_u128(0xfeed_beef));
    assert_eq!(copy.text, first.text);
    assert_eq!(copy.level, AlertLevel::Critical);
    assert!(copy.dismissed);
}
