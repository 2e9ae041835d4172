use airdrop_pro::advertise::{normalize_host_name, ServiceRecord};
use airdrop_pro::config::{parse_port, parse_switch, resolve_base_directory, Config, ConfigError};

#[test]
fn host_label_gets_local_suffix() {
    assert_eq!(normalize_host_name("MyHost"), "MyHost.local.");
    assert_eq!(normalize_host_name("MyHost.local."), "MyHost.local.");
    assert_eq!(normalize_host_name(&normalize_host_name("MyHost")), "MyHost.local.");
    assert_eq!(normalize_host_name(""), ".local.");
    assert_eq!(normalize_host_name("a.local"), "a.local.local.");
}

#[test]
fn service_record_fields() {
    let r = ServiceRecord::new("box", [192, 168, 1, 5], 8080);
    assert_eq!(r.service_type, "_http._tcp.local.");
    assert_eq!(r.instance_name, "AirDropPro");
    assert_eq!(r.host_label, "box.local.");
    assert_eq!(r.ip, [192, 168, 1, 5]);
    assert_eq!(r.port, 8080);
    assert_eq!(r.to_service_info().get_hostname(), "box.local.");
    assert_eq!(r.to_service_info().get_port(), 8080);
    let other = ServiceRecord::new("x.local.", [0, 0, 0, 0], 0).to_service_info();
    assert_eq!(other.get_hostname(), "x.local.");
}

#[test]
fn ports() {
    assert_eq!(parse_port("8080"), Ok(8080));
    assert_eq!(parse_port("+80"), Ok(80));
    assert_eq!(parse_port("0"), Ok(0));
    assert_eq!(parse_port("65535"), Ok(65535));
    assert_eq!(parse_port("65536"), Err(ConfigError::BadPort("65536".to_string())));
    assert_eq!(parse_port(" 80"), Err(ConfigError::BadPort(" 80".to_string())));
    assert_eq!(parse_port("-1"), Err(ConfigError::BadPort("-1".to_string())));
    assert_eq!(parse_port(""), Err(ConfigError::BadPort(String::new())));
}

#[test]
fn switches() {
    for w in ["true", "t", "yes", "y", "1", "on"] {
        assert_eq!(parse_switch(w), Some(true));
    }
    for w in ["false", "f", "no", "n", "0", "off"] {
        assert_eq!(parse_switch(w), Some(false));
    }
    assert_eq!(parse_switch("TRUE"), None);
    assert_eq!(parse_switch(""), None);
}

#[test]
fn plain_directory_kept() {
    assert_eq!(resolve_base_directory("/srv/uploads"), Ok("/srv/uploads".to_string()));
}

fn s(x: &str) -> Option<String> {
    Some(x.to_string())
}

#[test]
fn config_from_values() {
    let (c, on) = Config::new(s("box"), s("8848"), s("/srv/in"), s("off")).unwrap();
    assert_eq!(c.name, "box");
    assert_eq!(c.port, 8848);
    assert_eq!(c.path, "/srv/in");
    assert!(!on);
    assert_eq!(Config::new(None, s("1"), s("/"), s("on")).unwrap_err(), ConfigError::MissingName);
    assert_eq!(Config::new(s("a"), None, s("/"), s("on")).unwrap_err(), ConfigError::MissingPort);
    assert_eq!(
        Config::new(s("a"), s("x"), s("/"), s("on")).unwrap_err(),
        ConfigError::BadPort("x".to_string())
    );
    assert_eq!(Config::new(s("a"), s("1"), None, s("on")).unwrap_err(), ConfigError::MissingPath);
    assert_eq!(Config::new(s("a"), s("1"), s("/"), None).unwrap_err(), ConfigError::MissingAutoLaunch);
    assert_eq!(
        Config::new(s("a"), s("1"), s("/"), s("maybe")).unwrap_err(),
        ConfigError::BadAutoLaunch("maybe".to_string())
    );
}

#[test]
fn config_set_once() {
    let mut slot: Option<Config> = None;
    let first = Config { name: "a".to_string(), port: 1, path: "/a".to_string() };
    let second = Config { name: "b".to_string(), port: 2, path: "/b".to_string() };
    assert_eq!(Config::init(&mut slot, first), Ok(()));
    assert_eq!(Config::init(&mut slot, second), Err(ConfigError::AlreadyInitialized));
    assert_eq!(Config::get(&slot).name, "a");
    assert_eq!(Config::get(&slot).port, 1);
}
