use ble_weather::address::DeviceAddress;
use ble_weather::config::{AppConfig, Cli};
use ble_weather::labels::{handle_record, ConfigError, DeviceLabelMap};

fn cli(host: &str, port: u16, tls: bool) -> Cli {
    Cli {
        host: host.to_string(),
        port,
        tls,
        database: "weather_data".to_string(),
        measurement: "weather_meas".to_string(),
        sensors: None,
        verbose: false,
        dry_run: true,
    }
}

#[test]
fn conn_string_plain() {
    assert_eq!(cli("localhost", 8086, false).get_influx_conn_string(), "http://localhost:8086");
}

#[test]
fn conn_string_tls() {
    assert_eq!(cli("db.example", 443, true).get_influx_conn_string(), "https://db.example:443");
}

#[test]
fn conn_string_port_edges() {
    assert_eq!(cli("h", 0, false).get_influx_conn_string(), "http://h:0");
    assert_eq!(cli("h", 9, false).get_influx_conn_string(), "http://h:9");
    assert_eq!(cli("h", 10, false).get_influx_conn_string(), "http://h:10");
    assert_eq!(cli("h", 65535, false).get_influx_conn_string(), "http://h:65535");
}

#[test]
fn app_config_from_cli() {
    let mut m = DeviceLabelMap::new();
    m.insert(DeviceAddress::new([1, 2, 3, 4, 5, 6]), "office".to_string());
    let c = AppConfig::from_cli(cli("10.0.0.2", 8086, true), m);
    assert_eq!(c.influx_conn, "https://10.0.0.2:8086");
    assert_eq!(c.influx_database, "weather_data");
    assert_eq!(c.influx_measurement, "weather_meas");
    assert!(c.dry_run);
    assert!(!c.be_verbose);
    let got = c.sensors_names.get(&DeviceAddress::new([1, 2, 3, 4, 5, 6]));
    assert_eq!(got.map(|s| s.as_str()), Some("office"));
}

#[test]
fn label_map_lookup_and_replace() {
    let a = DeviceAddress::new([0xA4, 0xC1, 0x38, 0x00, 0x00, 0x01]);
    let b = DeviceAddress::new([0xA4, 0xC1, 0x38, 0x00, 0x00, 0x02]);
    let m = DeviceLabelMap::from_entries(vec![
        (a, "garden".to_string()),
        (b, "garage".to_string()),
        (a, "greenhouse".to_string()),
    ]);
    assert_eq!(m.get(&a).map(|s| s.as_str()), Some("greenhouse"));
    assert_eq!(m.get(&b).map(|s| s.as_str()), Some("garage"));
    assert!(m.get(&DeviceAddress::new([0; 6])).is_none());
}

#[test]
fn record_with_two_fields() {
    let rec = csv::StringRecord::from(vec!["A4:C1:38:00:00:01", "garden"]);
    let (a, l) = handle_record(Ok(rec)).unwrap();
    assert_eq!(a, "A4:C1:38:00:00:01");
    assert_eq!(l, "garden");
}

#[test]
fn record_with_extra_fields_keeps_first_two() {
    let rec = csv::StringRecord::from(vec!["01:02:03:04:05:06", "attic", "spare"]);
    let (a, l) = handle_record(Ok(rec)).unwrap();
    assert_eq!(a, "01:02:03:04:05:06");
    assert_eq!(l, "attic");
}

#[test]
fn record_with_one_field_is_refused() {
    let rec = csv::StringRecord::from(vec!["01:02:03:04:05:06"]);
    assert!(matches!(handle_record(Ok(rec)), Err(ConfigError::MissingFields)));
}

#[test]
fn read_failure_is_passed_on() {
    let e = csv::Error::from(std::io::Error::new(std::io::ErrorKind::Other, "broken"));
    assert!(matches!(handle_record(Err(e)), Err(ConfigError::Read(_))));
}
