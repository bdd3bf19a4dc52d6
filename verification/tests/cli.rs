use blueos_recorder::cli::{
    self, expand_args, expanded_or_same, init, init_expanded, init_with, lookup, parse_chunk_size,
    parse_compression, path_dir_from_arg, session_settings, zkey_config, Args, Manager,
    OptionValues, PathDecision, UsageError,
};
use blueos_recorder::recording::config::McapCompression;
use blueos_recorder::text_map::TextMap;

fn argv(args: &[&str]) -> Vec<String> {
    args.iter().map(|arg| arg.to_string()).collect()
}

fn parse(args: &[&str]) -> Args {
    Args::try_parse_from(&argv(args)).expect("accepted")
}

fn refused(args: &[&str]) -> UsageError {
    Args::try_parse_from(&argv(args)).expect_err("refused")
}

fn variables(entries: &[(&str, &str)]) -> TextMap<String> {
    let mut map = TextMap::new();
    for (name, value) in entries {
        map.insert(name.to_string(), value.to_string());
    }
    map
}

fn values() -> OptionValues {
    OptionValues {
        verbose: false,
        recorder_path: vec!["/tmp".to_string()],
        schema_path: vec![],
        zkey: vec![],
        mcap_compression: vec!["lz4".to_string()],
        mcap_crc: true,
        mcap_chunk_size: 10485760,
        mcap_async_io: false,
    }
}

#[test]
fn test_args_parsing() {
    // Test with both arguments
    let args = parse(&["program_name", "--verbose", "--recorder-path", "/custom/path"]);
    assert_eq!(args.verbose, true);
    assert_eq!(args.recorder_path, "/custom/path");

    // Test with zkey arguments
    let args = parse(&[
        "program_name",
        "--zkey",
        "potato=elefante",
        "--zkey",
        "potato.coiso=fifi",
    ]);
    assert_eq!(args.zkey, vec!["potato=elefante", "potato.coiso=fifi"]);

    // Test with all arguments
    let args = parse(&[
        "program_name",
        "--verbose",
        "--recorder-path",
        "/custom/path",
        "--zkey",
        "eita",
        "--zkey",
        "potato=elefante",
        "--zkey",
        "potato.coiso=fifi",
    ]);
    assert_eq!(args.verbose, true);
    assert_eq!(args.recorder_path, "/custom/path");
    assert_eq!(
        args.zkey,
        vec!["eita", "potato=elefante", "potato.coiso=fifi"]
    );

    let mut manager = Manager::new();
    init_with(&mut manager, args);

    let config = zkey_config(&manager);
    assert_eq!(config.get("eita"), None);
    assert_eq!(config.get("potato"), Some(&"elefante".to_string()));
    assert_eq!(config.get("potato.coiso"), Some(&"fifi".to_string()));
    assert_eq!(config.len(), 2);
}

#[test]
fn defaults_without_arguments() {
    let args = parse(&["program_name"]);
    assert!(!args.verbose);
    assert_eq!(args.recorder_path, "/tmp");
    assert_eq!(args.schema_path, None);
    assert!(args.zkey.is_empty());
    assert_eq!(args.mcap_compression, McapCompression::Lz4);
    assert!(args.mcap_crc);
    assert_eq!(args.mcap_chunk_size, 10 * 1024 * 1024);
    assert!(!args.mcap_async_io);
}

#[test]
fn every_option_is_read() {
    let args = parse(&[
        "program_name",
        "-v",
        "--schema-path",
        "/schemas",
        "--zkey",
        "a=1",
        "b=2",
        "--mcap-compression",
        "zstd",
        "--mcap-crc",
        "--mcap-chunk-size=4096",
        "--mcap-async-io",
    ]);
    assert!(args.verbose);
    assert_eq!(args.schema_path.as_deref(), Some("/schemas"));
    assert_eq!(args.zkey, vec!["a=1", "b=2"]);
    assert_eq!(args.mcap_compression, McapCompression::Zstd);
    assert!(args.mcap_crc);
    assert_eq!(args.mcap_chunk_size, 4096);
    assert!(args.mcap_async_io);
}

#[test]
fn unknown_options_are_refused() {
    let error = refused(&["program_name", "--potato"]);
    assert!(error.use_stderr);
    assert_eq!(error.exit_code, 2);
    assert!(error.text.contains("--potato"));
}

#[test]
fn help_and_version_are_shown() {
    let help = refused(&["program_name", "--help"]);
    assert!(!help.use_stderr);
    assert_eq!(help.exit_code, 0);
    assert!(help.text.starts_with("Records what a vehicle publishes\n"));
    assert!(help.text.contains("--mcap-chunk-size <MCAP_CHUNK_SIZE>"));
    assert!(help.text.contains("[possible values: none, lz4, zstd]"));
    let version = refused(&["program_name", "--version"]);
    assert!(!version.use_stderr);
    assert_eq!(version.exit_code, 0);
    assert_eq!(version.text, "blueos-recorder 0.1.0\n");
}

#[test]
fn values_are_checked() {
    let compression = refused(&["program_name", "--mcap-compression", "rar"]);
    assert!(compression.use_stderr);
    assert_eq!(compression.exit_code, 2);
    assert_eq!(
        compression.text,
        "error: invalid value 'rar' for '--mcap-compression <MCAP_COMPRESSION>'\n  [possible values: none, lz4, zstd]\n\nFor more information, try '--help'.\n"
    );
    let chunk_size = refused(&["program_name", "--mcap-chunk-size", "0"]);
    assert!(chunk_size.use_stderr);
    assert_eq!(chunk_size.exit_code, 2);
    assert_eq!(
        chunk_size.text,
        "error: invalid value '0' for '--mcap-chunk-size <MCAP_CHUNK_SIZE>': mcap chunk size must be greater than zero\n\nFor more information, try '--help'.\n"
    );
    assert!(refused(&["program_name", "--mcap-chunk-size", "x"])
        .text
        .contains("invalid mcap chunk size \"x\": invalid digit found in string"));
}

#[test]
fn values_are_checked_in_order() {
    let early = refused(&["program_name", "--mcap-chunk-size", "0", "--help"]);
    assert!(early.use_stderr);
    assert_eq!(early.exit_code, 2);
    assert!(early.text.contains("greater than zero"));
    let first = refused(&[
        "program_name",
        "--mcap-chunk-size",
        "0",
        "--mcap-compression",
        "rar",
    ]);
    assert!(first.text.contains("--mcap-chunk-size"));
    let help = refused(&["program_name", "--help", "--mcap-chunk-size", "0"]);
    assert_eq!(help.exit_code, 0);
}

#[test]
fn settings_from_values() {
    let mut given = values();
    given.schema_path = vec!["/schemas".to_string()];
    given.mcap_compression = vec!["none".to_string()];
    let args = Args::from_values(given);
    assert_eq!(args.schema_path.as_deref(), Some("/schemas"));
    assert_eq!(args.mcap_compression, McapCompression::Uncompressed);
    assert_eq!(args.mcap_chunk_size, 10_485_760);
}

#[test]
fn chunk_sizes() {
    assert_eq!(parse_chunk_size("1"), Ok(1));
    assert_eq!(parse_chunk_size("+42"), Ok(42));
    assert_eq!(parse_chunk_size("0007"), Ok(7));
    assert_eq!(
        parse_chunk_size("18446744073709551615"),
        Ok(18446744073709551615)
    );
    assert_eq!(
        parse_chunk_size("000"),
        Err("mcap chunk size must be greater than zero".to_string())
    );
    assert_eq!(
        parse_chunk_size("18446744073709551616"),
        Err("invalid mcap chunk size \"18446744073709551616\": number too large to fit in target type".to_string())
    );
    assert_eq!(
        parse_chunk_size(""),
        Err(
            "invalid mcap chunk size \"\": cannot parse integer from empty string".to_string()
        )
    );
    assert_eq!(
        parse_chunk_size("-1\n"),
        Err("invalid mcap chunk size \"-1\\n\": invalid digit found in string".to_string())
    );
    assert!(parse_chunk_size("+").is_err());
    assert!(parse_chunk_size("1 ").is_err());
}

#[test]
fn compressions() {
    assert_eq!(
        parse_compression("none"),
        Some(McapCompression::Uncompressed)
    );
    assert_eq!(parse_compression("lz4"), Some(McapCompression::Lz4));
    assert_eq!(parse_compression("zstd"), Some(McapCompression::Zstd));
    assert_eq!(parse_compression("LZ4"), None);
    assert_eq!(parse_compression(""), None);
}

#[test]
fn first_settings_stay() {
    let mut manager = Manager::new();
    assert!(!manager.is_initialized());
    init_with(&mut manager, parse(&["program_name", "--verbose"]));
    assert!(manager.is_initialized());
    init_with(&mut manager, parse(&["program_name"]));
    assert!(cli::is_verbose(&manager));
    assert!(init_expanded(&mut manager, &argv(&["program_name"])).is_ok());
    assert!(cli::is_verbose(&manager));
}

#[test]
fn refused_command_line_changes_nothing() {
    let mut manager = Manager::new();
    let none = variables(&[]);
    assert!(init(&mut manager, &argv(&["program_name", "--potato"]), &none).is_err());
    assert!(!manager.is_initialized());
    let set = variables(&[("LOGS", "/logs")]);
    assert!(init(
        &mut manager,
        &argv(&["program_name", "--recorder-path", "$LOGS/x"]),
        &set
    )
    .is_ok());
    assert_eq!(cli::args(&manager).recorder_path, "/logs/x");
}

#[test]
fn later_key_counts() {
    let mut manager = Manager::new();
    init_with(
        &mut manager,
        parse(&["program_name", "--zkey", "a=1", "b=2", "a=3=4", "=x", "c="]),
    );
    let config = zkey_config(&manager);
    assert_eq!(config.len(), 4);
    assert_eq!(config.get("a"), Some(&"3=4".to_string()));
    assert_eq!(config.get("b"), Some(&"2".to_string()));
    assert_eq!(config.get(""), Some(&"x".to_string()));
    assert_eq!(config.get("c"), Some(&"".to_string()));
}

#[test]
fn arguments_without_dollar_stay() {
    let raw = argv(&["program_name", "--zkey", "a=%PATH%", "~", ""]);
    assert_eq!(expand_args(&raw, &variables(&[("PATH", "x")])), raw);
}

#[test]
fn variables_are_expanded() {
    let set = variables(&[("A", "1"), ("LONG_NAME", "two"), ("EMPTY", "")]);
    let raw = argv(&[
        "$A",
        "${A}b",
        "x/$LONG_NAME/y",
        "$EMPTY.",
        "${NONE:-default}",
        "$A$LONG_NAME",
        "$",
    ]);
    assert_eq!(
        expand_args(&raw, &set),
        argv(&["1", "1b", "x/two/y", ".", "default", "1two", "$"])
    );
}

#[test]
fn missing_variables_leave_the_argument() {
    let set = variables(&[("A", "1")]);
    let raw = argv(&["$NONE/x", "$A$NONE", "${NONE}"]);
    assert_eq!(expand_args(&raw, &set), raw);
    assert_eq!(lookup(&set, "A"), Ok(Some("1".to_string())));
    assert_eq!(lookup(&set, "NONE"), Err(()));
}

#[test]
fn escaped_dollar_is_expanded() {
    let none = variables(&[]);
    assert_eq!(
        expand_args(&argv(&["a$$b", "$$"]), &none),
        argv(&["a$b", "$"])
    );
    assert_eq!(
        expanded_or_same(&"a".to_string(), Some("b".to_string())),
        "b"
    );
    assert_eq!(expanded_or_same(&"a".to_string(), None), "a");
}

#[test]
fn paths_and_levels() {
    let mut manager = Manager::new();
    init_with(
        &mut manager,
        parse(&["program_name", "--schema-path", "/schemas"]),
    );
    assert_eq!(cli::default_level(&manager), "info");
    let recordings = cli::recorder_path(&manager);
    assert_eq!(recordings.path, "/tmp");
    assert!(recordings.create_if_not_exists);
    let schemas = cli::schema_path(&manager).expect("set");
    assert_eq!(schemas.path, "/schemas");
    assert!(!schemas.create_if_not_exists);

    let mut verbose = Manager::new();
    init_with(&mut verbose, parse(&["program_name", "-v"]));
    assert_eq!(cli::default_level(&verbose), "debug");
    assert!(cli::schema_path(&verbose).is_none());
}

#[test]
fn directories() {
    assert_eq!(path_dir_from_arg(true, true, true), PathDecision::Use);
    assert_eq!(path_dir_from_arg(true, true, false), PathDecision::Use);
    assert_eq!(path_dir_from_arg(true, false, true), PathDecision::Exit);
    assert_eq!(path_dir_from_arg(true, false, false), PathDecision::Exit);
    assert_eq!(path_dir_from_arg(false, false, true), PathDecision::Create);
    assert_eq!(path_dir_from_arg(false, false, false), PathDecision::Exit);
}

#[test]
fn write_config_follows_the_settings() {
    let mut manager = Manager::new();
    init_with(
        &mut manager,
        parse(&[
            "program_name",
            "--mcap-compression",
            "none",
            "--mcap-chunk-size",
            "123",
        ]),
    );
    let config = cli::mcap_write_config(&manager);
    assert_eq!(config.compression, McapCompression::Uncompressed);
    assert!(config.crc);
    assert_eq!(config.chunk_size, 123);
    assert_eq!(config.flush_interval_secs, 30);
}

#[test]
fn session_settings_in_order() {
    let mut manager = Manager::new();
    init_with(
        &mut manager,
        parse(&["program_name", "--zkey", "mode=peer", "q=say \"hi\"\t\\"]),
    );
    let settings: Vec<(String, String)> = session_settings(&zkey_config(&manager))
        .into_iter()
        .map(|setting| (setting.key, setting.json5))
        .collect();
    let expected = vec![
        ("mode", "\"client\""),
        ("connect/endpoints", "[\"tcp/127.0.0.1:7447\"]"),
        ("adminspace", "{\"enabled\": true}"),
        ("metadata", "{\"name\": \"blueos-recorder\"}"),
        ("mode", "\"peer\""),
        ("q", "\"say \\\"hi\\\"\\t\\\\\""),
    ];
    assert_eq!(
        settings,
        expected
            .into_iter()
            .map(|(key, json5)| (key.to_string(), json5.to_string()))
            .collect::<Vec<_>>()
    );
}
