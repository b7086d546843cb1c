//! The stored configuration and the background service.

use qsonaut_hostbridge::bridge::Authorizer;
use qsonaut_hostbridge::config::{config_path, ConfigError, ConfigPlace, StoredConfig};
use qsonaut_hostbridge::service::{
    service, systemctl_failure, systemd_quote, unit_contents, ServiceAction, ServiceError,
    ServiceStep,
};
use qsonaut_hostbridge::text::trim_end;

fn to_json(config: &StoredConfig) -> String {
    let mut fields = serde_json::Map::new();
    let mut put = |name: &str, value: &String| {
        fields.insert(name.to_owned(), serde_json::Value::String(value.clone()));
    };
    put("bind", &config.bind);
    put("host_name", &config.host_name);
    put("access_key", &config.access_key);
    put("password", &config.password);
    serde_json::to_string(&serde_json::Value::Object(fields)).unwrap()
}

fn from_json(json: &str) -> StoredConfig {
    let value: serde_json::Value = serde_json::from_str(json).unwrap();
    let field = |name: &str| value.get(name).unwrap().as_str().unwrap().to_owned();
    StoredConfig {
        bind: field("bind"),
        host_name: field("host_name"),
        access_key: field("access_key"),
        password: field("password"),
    }
}

fn call(arguments: &[&str], must_succeed: bool) -> ServiceStep {
    ServiceStep::Systemctl {
        arguments: arguments.iter().map(|a| (*a).to_owned()).collect(),
        must_succeed,
    }
}

#[test]
fn stored_config_round_trips() {
    let config = StoredConfig {
        access_key: "station".into(),
        password: "secret".into(),
        ..Default::default()
    };
    let json = to_json(&config);
    assert_eq!(from_json(&json), config);
}

#[test]
fn unit_quotes_paths() {
    let unit = unit_contents("/usr/bin/qsonaut-hostbridge", "/tmp/a path/config.json");
    assert!(unit.contains("\"/tmp/a path/config.json\""));
}

#[test]
fn unit_is_written_out() {
    assert_eq!(
        unit_contents("/opt/host bridge", "/home/op/c.json"),
        "[Unit]\nDescription=QSONaut HostBridge\nAfter=network-online.target\n\n[Service]\n\
         ExecStart=\"/opt/host bridge\" run --config \"/home/op/c.json\"\nRestart=on-failure\n\
         RestartSec=3\n\n[Install]\nWantedBy=default.target\n"
    );
}

#[test]
fn quoting_escapes_what_would_end_the_quote() {
    assert_eq!(systemd_quote(""), "\"\"");
    assert_eq!(systemd_quote("plain"), "\"plain\"");
    assert_eq!(systemd_quote("a\"b\\c"), "\"a\\\"b\\\\c\"");
    assert_ne!(systemd_quote("\\\""), systemd_quote("\""));
}

#[test]
fn defaults_stay_on_the_own_machine() {
    let config = StoredConfig::default();
    assert_eq!(config.bind, "127.0.0.1:8765");
    assert_eq!(config.host_name, "QSONaut HostBridge");
    assert_eq!(config.access_key, "");
    assert_eq!(config.password, "");
    assert!(matches!(config.into_host(), Err(ConfigError::MissingCredentials)));
}

#[test]
fn missing_credentials_are_reported() {
    let mut config = StoredConfig::default();
    config.update("key".into(), "".into(), None, None);
    let error = config.into_host().err().unwrap();
    assert_eq!(error.message(), "access key and password must be configured");
    let mut config = StoredConfig::default();
    config.update("".into(), "word".into(), None, None);
    assert!(config.into_host().is_err());
}

#[test]
fn update_keeps_what_is_not_given() {
    let mut config = StoredConfig::default();
    config.update("k".into(), "p".into(), Some("0.0.0.0:9000".into()), Some("Shack".into()));
    config.update("k2".into(), "p2".into(), None, None);
    assert_eq!(config.bind, "0.0.0.0:9000");
    assert_eq!(config.host_name, "Shack");
    let (host, authorizer) = config.into_host().unwrap();
    assert_eq!(host.bind, "0.0.0.0:9000");
    assert_eq!(host.host_name, "Shack");
    assert!(authorizer.authorize("k2", "p2"));
    assert!(!authorizer.authorize("k", "p"));
    assert!(!authorizer.authorize("k2", "p"));
    assert!(!authorizer.authorize("", ""));
}

#[test]
fn configuration_is_found_in_order() {
    assert_eq!(
        config_path(Some("a"), Some("b"), Some("c")),
        ConfigPlace::Given("a")
    );
    assert_eq!(config_path(None, Some("b"), Some("c")), ConfigPlace::InConfigHome("b"));
    assert_eq!(config_path(None, None, Some("c")), ConfigPlace::InHome("c"));
    assert_eq!(config_path::<&str>(None, None, None), ConfigPlace::Here);
}

#[test]
fn prompts_lose_their_line_end() {
    assert_eq!(trim_end("secret \t\r\n"), "secret");
    assert_eq!(trim_end("  two words\n"), "  two words");
}

#[test]
fn install_needs_linux_home_and_configuration() {
    let unsupported = service(ServiceAction::Install, false, true, true).err().unwrap();
    assert_eq!(unsupported, ServiceError::Unsupported);
    assert_eq!(
        unsupported.message(),
        "the automatic service installer currently supports Linux systemd user services"
    );
    let no_home = service(ServiceAction::Status, true, false, true).err().unwrap();
    assert_eq!(no_home, ServiceError::NoHome);
    assert_eq!(no_home.message(), "HOME is required for a user service");
    let no_config = service(ServiceAction::Install, true, true, false).err().unwrap();
    assert_eq!(no_config, ServiceError::NoConfig);
    assert_eq!(no_config.message(), "configuration is missing; run `config set` first");
}

#[test]
fn install_writes_before_it_starts() {
    assert_eq!(
        service(ServiceAction::Install, true, true, true).unwrap(),
        vec![
            ServiceStep::WriteUnit,
            call(&["daemon-reload"], true),
            call(&["enable", "qsonaut-hostbridge.service"], true),
            call(&["start", "qsonaut-hostbridge.service"], true),
            ServiceStep::ReportInstalled,
        ]
    );
}

#[test]
fn uninstall_goes_on_when_nothing_runs() {
    assert_eq!(
        service(ServiceAction::Uninstall, true, true, false).unwrap(),
        vec![
            call(&["stop", "qsonaut-hostbridge.service"], false),
            call(&["disable", "qsonaut-hostbridge.service"], false),
            ServiceStep::RemoveUnit,
            call(&["daemon-reload"], true),
            ServiceStep::ReportRemoved,
        ]
    );
}

#[test]
fn other_actions_are_one_call() {
    let plan = |action| service(action, true, true, false).unwrap();
    let unit = "qsonaut-hostbridge.service";
    assert_eq!(plan(ServiceAction::Start), vec![call(&["start", unit], true)]);
    assert_eq!(plan(ServiceAction::Stop), vec![call(&["stop", unit], true)]);
    assert_eq!(plan(ServiceAction::Restart), vec![call(&["restart", unit], true)]);
    assert_eq!(plan(ServiceAction::Status), vec![call(&["status", unit], true)]);
}

#[test]
fn failed_call_is_named() {
    let arguments = vec!["enable".to_owned(), "qsonaut-hostbridge.service".to_owned()];
    assert_eq!(
        systemctl_failure(&arguments, "exit status: 1"),
        "systemctl --user enable qsonaut-hostbridge.service failed with exit status: 1"
    );
    assert_eq!(systemctl_failure(&Vec::new(), "x"), "systemctl --user  failed with x");
}
