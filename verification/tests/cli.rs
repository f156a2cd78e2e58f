use edcb_mcp::cli::{
    format_services_plain, invalid_search_date_range, parse_program_genre_range,
    parse_search_date_endpoint, parse_search_date_range, version_text, CliAction, CliCommand,
    CliInvocation, OutputMode, ProgramGenreRange,
};
use edcb_mcp::types::ServiceInfo;
use edcb_mcp::{EventKey, PluginKind, ProgramSearchQuery, ServiceKey};

#[test]
fn parses_global_flags_env_and_recorded_get_command() {
    let action = CliAction::from_args_and_env(
        &[
            "edcb",
            "--host",
            "cli-host",
            "--port",
            "4511",
            "--timeout-seconds",
            "2",
            "--json",
            "recorded",
            "get",
            "42",
        ],
        &[
            ("EDCB_HOST", "env-host"),
            ("EDCB_PORT", "4510"),
            ("EDCB_TIMEOUT_SECONDS", "9"),
        ],
    )
    .expect("valid CLI invocation should parse");

    assert_eq!(
        action,
        CliAction::Run(CliInvocation {
            host: "cli-host".to_string(),
            port: 4511,
            timeout_seconds: 2,
            output: OutputMode::Json,
            command: CliCommand::RecordedGet(42),
        })
    );
}

#[test]
fn parses_plain_plugin_command_without_cli_suffix() {
    let action = CliAction::from_args_and_env(&["edcb", "plugins", "write", "--plain"], &[]).unwrap();

    assert_eq!(
        action,
        CliAction::Run(CliInvocation {
            host: "127.0.0.1".to_string(),
            port: 4510,
            timeout_seconds: 15,
            output: OutputMode::Plain,
            command: CliCommand::Plugins(PluginKind::Write),
        })
    );
}

#[test]
fn help_ignores_other_arguments() {
    let action =
        CliAction::from_args_and_env(&["edcb", "--help", "--host", "bad", "services"], &[]).unwrap();

    assert_eq!(action, CliAction::Help);
}

#[test]
fn invalid_usage_uses_exit_code_2() {
    let error = CliAction::from_args_and_env(&["edcb", "recorded", "get", "not-an-id"], &[])
        .expect_err("invalid info id should fail");

    assert_eq!(error.exit_code, 2);
    assert!(error.message.contains("info-id"));
}

#[test]
fn parses_program_search_command() {
    let action = CliAction::from_args_and_env(
        &[
            "edcb",
            "--json",
            "programs",
            "search",
            "--keyword",
            "ニュース",
            "--title-only",
            "--service",
            "32736:32736:1024",
        ],
        &[],
    )
    .expect("program search command should parse");

    assert_eq!(
        action,
        CliAction::Run(CliInvocation {
            host: "127.0.0.1".to_string(),
            port: 4510,
            timeout_seconds: 15,
            output: OutputMode::Json,
            command: CliCommand::ProgramsSearch(ProgramSearchQuery {
                keyword: "ニュース".to_string(),
                title_only: true,
                service: Some(ServiceKey {
                    onid: 32736,
                    tsid: 32736,
                    sid: 1024,
                }),
            }),
        })
    );
}

#[test]
fn parses_reservation_preview_and_create_commands() {
    let preview =
        CliAction::from_args_and_env(&["edcb", "reserves", "preview", "--event", "1:2:3:4"], &[])
            .expect("reservation preview command should parse");
    let create = CliAction::from_args_and_env(
        &["edcb", "reserves", "create", "--event", "1:2:3:4", "--yes"],
        &[],
    )
    .expect("reservation create command should parse");
    let event = EventKey {
        service: ServiceKey {
            onid: 1,
            tsid: 2,
            sid: 3,
        },
        eid: 4,
    };

    assert!(matches!(
        preview,
        CliAction::Run(CliInvocation {
            command: CliCommand::ReservePreview(parsed),
            ..
        }) if parsed == event
    ));
    assert!(matches!(
        create,
        CliAction::Run(CliInvocation {
            command: CliCommand::ReserveCreate(parsed),
            ..
        }) if parsed == event
    ));
}

#[test]
fn parses_reservation_get_and_delete_commands() {
    let get = CliAction::from_args_and_env(&["edcb", "reserves", "get", "42"], &[])
        .expect("reservation get command should parse");
    let delete = CliAction::from_args_and_env(&["edcb", "reserves", "delete", "42", "--yes"], &[])
        .expect("reservation delete command should parse");

    assert!(matches!(
        get,
        CliAction::Run(CliInvocation {
            command: CliCommand::ReserveGet(42),
            ..
        })
    ));
    assert!(matches!(
        delete,
        CliAction::Run(CliInvocation {
            command: CliCommand::ReserveDelete(42),
            ..
        })
    ));
}

#[test]
fn reserve_create_requires_confirmation() {
    let error =
        CliAction::from_args_and_env(&["edcb", "reserves", "create", "--event", "1:2:3:4"], &[])
            .expect_err("reservation creation should require --yes");

    assert_eq!(error.exit_code, 2);
    assert!(error.message.contains("--yes"));
}

#[test]
fn reserve_delete_requires_confirmation() {
    let error = CliAction::from_args_and_env(&["edcb", "reserves", "delete", "42"], &[])
        .expect_err("reservation deletion should require --yes");

    assert_eq!(error.exit_code, 2);
    assert!(error.message.contains("--yes"));
}

#[test]
fn formats_services_as_stable_plain_lines() {
    let services = [ServiceInfo {
        onid: 32736,
        tsid: 32736,
        sid: 1024,
        service_type: 1,
        partial_reception_flag: 0,
        service_provider_name: String::new(),
        service_name: "NHK総合1・東京".to_string(),
        network_name: "関東広域0".to_string(),
        ts_name: "NHK総合・東京".to_string(),
        remote_control_key_id: 1,
    }];

    assert_eq!(
        format_services_plain(&services),
        "32736\t32736\t1024\t1\tNHK総合1・東京\n"
    );
}

#[test]
fn environment_fills_in_what_options_leave_out() {
    let action = CliAction::from_args_and_env(
        &["edcb", "services"],
        &[("EDCB_HOST", "first"), ("EDCB_PORT", "4600"), ("EDCB_HOST", "env-host")],
    )
    .unwrap();
    assert_eq!(
        action,
        CliAction::Run(CliInvocation {
            host: "env-host".to_string(),
            port: 4600,
            timeout_seconds: 15,
            output: OutputMode::Human,
            command: CliCommand::Services,
        })
    );
}

#[test]
fn bad_environment_settings_are_usage_errors() {
    let port = CliAction::from_args_and_env(&["edcb", "services"], &[("EDCB_PORT", "70000")])
        .unwrap_err();
    assert_eq!(port.exit_code, 2);
    assert_eq!(port.message, "port must be a number in 0..=65535: 70000");

    let timeout =
        CliAction::from_args_and_env(&["edcb", "services"], &[("EDCB_TIMEOUT_SECONDS", "0")])
            .unwrap_err();
    assert_eq!(timeout.message, "timeout must be greater than zero");

    // An option given on the command line makes the environment's value irrelevant.
    let action = CliAction::from_args_and_env(
        &["edcb", "--port", "1", "services"],
        &[("EDCB_PORT", "bad")],
    )
    .unwrap();
    assert!(matches!(action, CliAction::Run(CliInvocation { port: 1, .. })));
}

const HINT: &str = "\n\nFor more information, try '--help'.\n";

#[test]
fn usage_errors_name_what_is_wrong() {
    let cases: Vec<(&[&str], String)> = vec![
        (
            &["edcb", "recorded"],
            format!(
                "'edcb recorded' requires a subcommand but one was not provided\n  [subcommands: list, get, help]\n\nUsage: edcb recorded [OPTIONS] <COMMAND>{HINT}"
            ),
        ),
        (
            &["edcb", "--json"],
            format!(
                "'edcb' requires a subcommand but one was not provided\n  [subcommands: services, reserves, recorded, programs, tuner-reserves, tuner-processes, plugins, notify-status, help]\n\nUsage: edcb [OPTIONS] <COMMAND>{HINT}"
            ),
        ),
        (
            &["edcb", "nope"],
            format!("unrecognized subcommand 'nope'\n\nUsage: edcb [OPTIONS] <COMMAND>{HINT}"),
        ),
        (
            &["edcb", "services", "extra"],
            format!("unexpected argument 'extra' found\n\nUsage: edcb services [OPTIONS]{HINT}"),
        ),
        (
            &["edcb", "--json", "--plain", "services"],
            format!(
                "the argument '--json' cannot be used with '--plain'\n\nUsage: edcb services [OPTIONS]{HINT}"
            ),
        ),
        (
            &["edcb", "--host"],
            format!("a value is required for '--host <host>' but none was supplied{HINT}"),
        ),
        (
            &["edcb", "--port", "x", "services"],
            format!("invalid value 'x' for '--port <port>': invalid digit found in string{HINT}"),
        ),
        (
            &["edcb", "--port=70000", "services"],
            format!("invalid value '70000' for '--port <port>': 70000 is not in 0..=65535{HINT}"),
        ),
        (
            &["edcb", "--port=-1", "services"],
            format!("invalid value '-1' for '--port <port>': -1 is not in 0..=65535{HINT}"),
        ),
        (
            &["edcb", "--timeout-seconds", "0", "services"],
            format!(
                "invalid value '0' for '--timeout-seconds <n>': 0 is not in 1..18446744073709551615{HINT}"
            ),
        ),
        (
            &["edcb", "--timeout-seconds", "99999999999999999999", "services"],
            format!(
                "invalid value '99999999999999999999' for '--timeout-seconds <n>': number too large to fit in target type{HINT}"
            ),
        ),
        (
            &["edcb", "recorded", "get", "4000000000"],
            format!(
                "invalid value '4000000000' for '<info-id>': 4000000000 is not in -2147483648..=2147483647{HINT}"
            ),
        ),
        (
            &["edcb", "reserves", "get", "+"],
            format!("invalid value '+' for '<reserve-id>': invalid digit found in string{HINT}"),
        ),
        (
            &["edcb", "reserves", "preview", "--event", "1:2"],
            format!(
                "invalid value '1:2' for '--event <onid:tsid:sid:eid>': event key must be onid:tsid:sid:eid: 1:2{HINT}"
            ),
        ),
        (
            &["edcb", "plugins", "other"],
            format!(
                "invalid value 'other' for '<write|rec_name>'\n  [possible values: write, rec_name]{HINT}"
            ),
        ),
        (
            &["edcb", "reserves", "preview"],
            format!(
                "the following required arguments were not provided:\n  --event <onid:tsid:sid:eid>\n\nUsage: edcb reserves preview --event <onid:tsid:sid:eid>{HINT}"
            ),
        ),
        (
            &["edcb", "recorded", "get"],
            format!(
                "the following required arguments were not provided:\n  <info-id>\n\nUsage: edcb recorded get <info-id>{HINT}"
            ),
        ),
        (
            &["edcb", "--json", "--json", "services"],
            format!(
                "the argument '--json' cannot be used multiple times\n\nUsage: edcb [OPTIONS] <COMMAND>{HINT}"
            ),
        ),
    ];
    for (args, message) in cases {
        let error = CliAction::from_args_and_env(args, &[]).unwrap_err();
        assert_eq!(error.exit_code, 2);
        assert_eq!(error.message, message);
    }
    // a port of -0 reads as 0, as a signed 64-bit parse gives it
    let zero = CliAction::from_args_and_env(&["edcb", "--port=-0", "services"], &[]).unwrap();
    assert!(matches!(zero, CliAction::Run(CliInvocation { port: 0, .. })));
}

#[test]
fn options_can_carry_their_value_after_an_equals_sign() {
    let action = CliAction::from_args_and_env(
        &["edcb", "programs", "search", "--keyword=a=b", "--timeout-seconds=3"],
        &[],
    )
    .unwrap();
    assert_eq!(
        action,
        CliAction::Run(CliInvocation {
            host: "127.0.0.1".to_string(),
            port: 4510,
            timeout_seconds: 3,
            output: OutputMode::Human,
            command: CliCommand::ProgramsSearch(ProgramSearchQuery {
                keyword: "a=b".to_string(),
                title_only: false,
                service: None,
            }),
        })
    );
    let error =
        CliAction::from_args_and_env(&["edcb", "--json=yes", "services"], &[]).unwrap_err();
    assert_eq!(
        error.message,
        format!(
            "unexpected value 'yes' for '--json' found; no more were expected\n\nUsage: edcb [OPTIONS] <COMMAND>{HINT}"
        )
    );
}

#[test]
fn version_and_remaining_commands() {
    assert_eq!(CliAction::from_args_and_env(&["edcb", "-V"], &[]).unwrap(), CliAction::Version);
    assert_eq!(version_text(), "edcb 0.1.0\n");
    let names: [(&str, CliCommand); 5] = [
        ("reserves", CliCommand::Reserves),
        ("tuner-reserves", CliCommand::TunerReserves),
        ("tuner-processes", CliCommand::TunerProcesses),
        ("notify-status", CliCommand::NotifyStatus),
        ("services", CliCommand::Services),
    ];
    for (name, command) in names {
        let action = CliAction::from_args_and_env(&["edcb", name], &[]).unwrap();
        assert!(matches!(action, CliAction::Run(CliInvocation { command: c, .. }) if c == command));
    }
    let list = CliAction::from_args_and_env(&["edcb", "recorded", "list"], &[]).unwrap();
    assert!(matches!(list, CliAction::Run(CliInvocation { command: CliCommand::RecordedList, .. })));
    let plugins = CliAction::from_args_and_env(&["edcb", "plugins", "rec_name"], &[]).unwrap();
    assert!(matches!(
        plugins,
        CliAction::Run(CliInvocation { command: CliCommand::Plugins(PluginKind::RecName), .. })
    ));
}

#[test]
fn genre_ranges_read_two_or_three_numbers() {
    assert_eq!(
        parse_program_genre_range("7:1").unwrap(),
        ProgramGenreRange { major: 7, middle: 1, user_nibble: None }
    );
    assert_eq!(
        parse_program_genre_range("15:15:300").unwrap(),
        ProgramGenreRange { major: 15, middle: 15, user_nibble: Some(300) }
    );
    let e = parse_program_genre_range("7").unwrap_err();
    assert_eq!(e.exit_code, 2);
    assert_eq!(e.message, "genre must be major:middle[:user_nibble]: 7");
    assert_eq!(
        parse_program_genre_range("256:1").unwrap_err().message,
        "genre major must be u8: 256:1"
    );
    assert_eq!(
        parse_program_genre_range("1:x").unwrap_err().message,
        "genre middle must be u8: 1:x"
    );
    assert_eq!(
        parse_program_genre_range("1:2:70000").unwrap_err().message,
        "genre user_nibble must be u16: 1:2:70000"
    );
    assert!(parse_program_genre_range("1:2:3:4").is_err());
}

#[test]
fn date_ranges_read_both_ends() {
    let d = parse_search_date_range("1:09:30-5:23:59").unwrap();
    assert_eq!(
        (d.start_day_of_week, d.start_hour, d.start_min, d.end_day_of_week, d.end_hour, d.end_min),
        (1, 9, 30, 5, 23, 59)
    );
    assert_eq!(
        parse_search_date_range("1:09:30").unwrap_err().message,
        "date range must be start-dow:HH:MM-end-dow:HH:MM: 1:09:30"
    );
    let e = parse_search_date_range("7:00:00-1:00:00").unwrap_err();
    assert_eq!(e.exit_code, 2);
    assert_eq!(
        e.message,
        "date range must be start-dow:HH:MM-end-dow:HH:MM with day 0..=6, hour 0..=23, and minute 0..=59: 7:00:00-1:00:00"
    );
    assert!(parse_search_date_range("0:24:00-1:00:00").is_err());
    assert!(parse_search_date_range("0:00:60-1:00:00").is_err());
    assert!(parse_search_date_range("0:00:00-1:00:00:00").is_err());
    assert_eq!(parse_search_date_endpoint("6:23:59", "src").unwrap(), (6, 23, 59));
    assert_eq!(
        invalid_search_date_range("abc").message,
        "date range must be start-dow:HH:MM-end-dow:HH:MM with day 0..=6, hour 0..=23, and minute 0..=59: abc"
    );
}
