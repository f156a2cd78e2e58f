use edcb_mcp::keys::PluginKind;
use edcb_mcp::mcp::{PluginKindParam, ReservationEventParam, SearchProgramsParam, ServerConfig};
use edcb_mcp::{EventKey, ServiceKey};

#[test]
fn config_uses_cli_then_env_then_defaults() {
    let config = ServerConfig::from_args_and_env(
        &["edcb-mcp", "--host", "192.0.2.10", "--port", "5510"],
        &[
            ("EDCB_HOST", "127.0.0.2"),
            ("EDCB_PORT", "4511"),
            ("EDCB_TIMEOUT_SECONDS", "3"),
        ],
    )
    .expect("config should parse");

    assert_eq!(config.host, "192.0.2.10");
    assert_eq!(config.port, 5510);
    assert_eq!(config.timeout_seconds, 3);

    let default_config =
        ServerConfig::from_args_and_env(&["edcb-mcp"], &[]).expect("default config should parse");
    assert_eq!(default_config.host, "127.0.0.1");
    assert_eq!(default_config.port, 4510);
    assert_eq!(default_config.timeout_seconds, 15);
}

#[test]
fn invalid_config_reports_the_bad_field() {
    let error = ServerConfig::from_args_and_env(&["edcb-mcp", "--port", "nope"], &[])
        .expect_err("invalid port should fail");

    assert!(error.contains("port"));
}

#[test]
fn plugin_kind_param_parses_supported_values() {
    assert_eq!(
        PluginKindParam {
            kind: "write".to_string()
        }
        .try_into_plugin_kind()
        .expect("write plugin kind should parse")
        .code(),
        2
    );
    assert_eq!(
        PluginKindParam {
            kind: "rec_name".to_string()
        }
        .try_into_plugin_kind()
        .expect("rec_name plugin kind should parse")
        .code(),
        1
    );
    assert!(
        PluginKindParam {
            kind: "other".to_string()
        }
        .try_into_plugin_kind()
        .is_err()
    );
}

#[test]
fn config_errors_name_the_argument() {
    assert_eq!(
        ServerConfig::from_args_and_env(&["edcb-mcp", "--host"], &[]).unwrap_err(),
        "--host requires a value"
    );
    assert_eq!(
        ServerConfig::from_args_and_env(&["edcb-mcp", "--verbose"], &[]).unwrap_err(),
        "unknown argument --verbose"
    );
    assert_eq!(
        ServerConfig::from_args_and_env(&["edcb-mcp", "--timeout-seconds", "0"], &[]).unwrap_err(),
        "timeout must be greater than zero"
    );
    assert_eq!(
        ServerConfig::from_args_and_env(&["edcb-mcp"], &[("EDCB_TIMEOUT_SECONDS", "soon")])
            .unwrap_err(),
        "timeout must be a positive integer: soon"
    );
    assert_eq!(
        PluginKindParam { kind: "other".to_string() }.try_into_plugin_kind().unwrap_err(),
        "unsupported plugin kind other; expected \"write\" or \"rec_name\""
    );
    assert_eq!(ServerConfig::default(), ServerConfig::from_args_and_env(&["x"], &[]).unwrap());
}

#[test]
fn tool_parameters_convert_to_queries_and_keys() {
    let query = SearchProgramsParam {
        keyword: "ニュース".to_string(),
        title_only: true,
        service: Some("1:2:3".to_string()),
    }
    .try_into_query()
    .unwrap();
    assert_eq!(query.keyword, "ニュース");
    assert!(query.title_only);
    assert_eq!(query.service, Some(ServiceKey { onid: 1, tsid: 2, sid: 3 }));
    assert!(SearchProgramsParam {
        keyword: String::new(),
        title_only: false,
        service: Some("1:2".to_string()),
    }
    .try_into_query()
    .is_err());

    let key = ReservationEventParam { event: "1:2:3:4".to_string() }
        .try_into_event_key()
        .unwrap();
    assert_eq!(key, EventKey { service: ServiceKey { onid: 1, tsid: 2, sid: 3 }, eid: 4 });
    assert!(ReservationEventParam { event: "1:2:3".to_string() }.try_into_event_key().is_err());
    assert_eq!(PluginKind::RecName.code(), 1);
}

#[test]
fn server_options_win_over_any_valid_environment() {
    let args = ["edcb-mcp", "--host", "h", "--port", "1", "--timeout-seconds", "2"];
    let a = ServerConfig::from_args_and_env(&args, &[]).unwrap();
    let b = ServerConfig::from_args_and_env(
        &args,
        &[("EDCB_HOST", "x"), ("EDCB_PORT", "9"), ("EDCB_TIMEOUT_SECONDS", "9")],
    )
    .unwrap();
    assert_eq!(a, b);
    assert_eq!(a, ServerConfig { host: "h".to_string(), port: 1, timeout_seconds: 2 });
    // an environment setting that is no valid port is refused before the options are read
    assert_eq!(
        ServerConfig::from_args_and_env(&args, &[("EDCB_PORT", "x")]).unwrap_err(),
        "port must be a number in 0..=65535: x"
    );
}
