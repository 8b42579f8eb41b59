use template_ci::config::{ConfigError, ConfigSource, ManifestQuery, TemplateCIConfig};
use template_ci::entry::{custom_defaults, merge_entry, MatrixEntry, PartialEntry};

fn empty_partial() -> PartialEntry {
    PartialEntry {
        run: None,
        run_cron: None,
        version: None,
        install_commandline: None,
        commandline: None,
        timeout: None,
    }
}

fn assert_entries_equal(a: &MatrixEntry, b: &MatrixEntry) {
    assert_eq!(a.run, b.run);
    assert_eq!(a.run_cron, b.run_cron);
    assert_eq!(a.version, b.version);
    assert_eq!(a.install_commandline, b.install_commandline);
    assert_eq!(a.commandline, b.commandline);
    assert_eq!(a.timeout, b.timeout);
}

fn assert_is_default_config(conf: &TemplateCIConfig) {
    let d = TemplateCIConfig::default();
    assert_entries_equal(&conf.bench, &d.bench);
    assert_entries_equal(&conf.clippy, &d.clippy);
    assert_entries_equal(&conf.rustfmt, &d.rustfmt);
    assert_eq!(conf.additional_matrix_entries.len(), 0);
    assert_eq!(conf.cache, d.cache);
    assert_eq!(conf.os, d.os);
    assert_eq!(conf.dist, d.dist);
    assert_eq!(conf.versions, d.versions);
    assert_eq!(conf.test_commandline, d.test_commandline);
    assert_eq!(conf.scheduled_test_branches, d.scheduled_test_branches);
    assert_eq!(conf.test_schedule, d.test_schedule);
}

#[test]
fn default_values_are_the_documented_ones() {
    let d = TemplateCIConfig::default();
    assert_eq!(d.cache, "cargo");
    assert_eq!(d.os, "linux");
    assert_eq!(d.dist, "xenial");
    assert_eq!(d.versions, vec!["stable".to_owned(), "nightly".to_owned()]);
    assert_eq!(d.test_commandline, "cargo test --verbose --all");
    assert_eq!(d.scheduled_test_branches, vec!["master".to_owned()]);
    assert_eq!(d.test_schedule, "0 0 * * 0");
    assert_eq!(TemplateCIConfig::default_cache(), "cargo");
    assert_eq!(TemplateCIConfig::default_os(), "linux");
    assert_eq!(TemplateCIConfig::default_dist(), "xenial");
    assert_eq!(TemplateCIConfig::default_versions(), d.versions);
    assert_eq!(TemplateCIConfig::default_test_commandline(), d.test_commandline);
    assert_eq!(TemplateCIConfig::default_test_schedule(), d.test_schedule);
    assert_eq!(TemplateCIConfig::default_scheduled_test_branches(), d.scheduled_test_branches);
}

#[test]
fn role_defaults_are_the_documented_ones() {
    let bench = template_ci::entry::bench_defaults();
    assert!(!bench.run);
    assert_eq!(bench.version, "nightly");
    assert_eq!(bench.install_commandline, None);
    assert_eq!(bench.commandline, "cargo bench");
    let clippy = template_ci::entry::clippy_defaults();
    assert!(clippy.run);
    assert_eq!(clippy.version, "stable");
    assert_eq!(clippy.install_commandline, Some("rustup component add clippy".to_owned()));
    assert_eq!(clippy.commandline, "cargo clippy -- -D warnings");
    let rustfmt = template_ci::entry::rustfmt_defaults();
    assert!(rustfmt.run);
    assert_eq!(rustfmt.version, "stable");
    assert_eq!(rustfmt.install_commandline, Some("rustup component add rustfmt".to_owned()));
    assert_eq!(rustfmt.commandline, "cargo fmt -v -- --check");
}

#[test]
fn merge_overrides_only_the_supplied_fields() {
    let defaults = template_ci::entry::clippy_defaults();
    let mut partial = empty_partial();
    partial.version = Some("nightly".to_owned());
    let merged = merge_entry(&defaults, &partial);
    assert_eq!(merged.version, "nightly");
    assert_eq!(merged.run, defaults.run);
    assert_eq!(merged.run_cron, defaults.run_cron);
    assert_eq!(merged.install_commandline, defaults.install_commandline);
    assert_eq!(merged.commandline, defaults.commandline);
    assert_eq!(merged.timeout, defaults.timeout);
}

#[test]
fn merge_with_nothing_supplied_is_the_default() {
    let defaults = template_ci::entry::bench_defaults();
    let merged = merge_entry(&defaults, &empty_partial());
    assert_entries_equal(&merged, &defaults);
}

#[test]
fn merge_can_supply_every_field() {
    let defaults = template_ci::entry::bench_defaults();
    let partial = PartialEntry {
        run: Some(true),
        run_cron: Some(true),
        version: Some("beta".to_owned()),
        install_commandline: Some("make deps".to_owned()),
        commandline: Some("make bench".to_owned()),
        timeout: Some(120),
    };
    let merged = merge_entry(&defaults, &partial);
    assert!(merged.run);
    assert!(merged.run_cron);
    assert_eq!(merged.version, "beta");
    assert_eq!(merged.install_commandline, Some("make deps".to_owned()));
    assert_eq!(merged.commandline, "make bench");
    assert_eq!(merged.timeout, Some(120));
}

#[test]
fn custom_entry_without_command_gets_the_failing_placeholder() {
    let merged = merge_entry(&custom_defaults(), &empty_partial());
    assert_eq!(merged.commandline, "/bin/false");
    assert!(!merged.run);
    assert_eq!(merged.version, "stable");
}

#[test]
fn timeout_renders_as_seconds() {
    let mut entry = custom_defaults();
    entry.timeout = Some(90);
    assert_eq!(entry.timeout_string(), Some("90s".to_owned()));
    entry.timeout = None;
    assert_eq!(entry.timeout_string(), None);
}

#[test]
fn config_file_overrides_field_by_field() {
    let text = r#"
os = "mac"
versions = ["1.40.0"]

[bench]
run = true
commandline = "cargo bench --all"

[additional_matrix_entries.custom1]
run = true
commandline = "echo hi"
timeout = { secs = 33, nanos = 0 }
"#;
    let conf = TemplateCIConfig::from_config_str(text).unwrap();
    assert_eq!(conf.os, "mac");
    assert_eq!(conf.dist, "xenial");
    assert_eq!(conf.versions, vec!["1.40.0".to_owned()]);
    assert!(conf.bench.run);
    assert_eq!(conf.bench.commandline, "cargo bench --all");
    assert_eq!(conf.bench.version, "nightly");
    assert_eq!(conf.additional_matrix_entries.len(), 1);
    let (name, custom) = &conf.additional_matrix_entries[0];
    assert_eq!(name, "custom1");
    assert!(custom.run);
    assert_eq!(custom.commandline, "echo hi");
    assert_eq!(custom.version, "stable");
    assert_eq!(custom.timeout, Some(33));
}

#[test]
fn empty_config_file_resolves_to_the_default_config() {
    let conf = TemplateCIConfig::from_config_str("").unwrap();
    assert_is_default_config(&conf);
}

#[test]
fn empty_version_list_stays_empty() {
    let conf = TemplateCIConfig::from_config_str("versions = []").unwrap();
    assert_eq!(conf.versions.len(), 0);
    assert_eq!(conf.os, "linux");
}

#[test]
fn custom_entries_keep_their_distinct_names() {
    let text = r#"
[additional_matrix_entries.first]
commandline = "echo one"
[additional_matrix_entries.second]
commandline = "echo two"
"#;
    let conf = TemplateCIConfig::from_config_str(text).unwrap();
    assert_eq!(conf.additional_matrix_entries.len(), 2);
    let names: Vec<&String> = conf.additional_matrix_entries.iter().map(|p| &p.0).collect();
    assert!(names.contains(&&"first".to_owned()));
    assert!(names.contains(&&"second".to_owned()));
    assert_ne!(conf.additional_matrix_entries[0].0, conf.additional_matrix_entries[1].0);
}

#[test]
fn timeout_bounds_render_exactly() {
    let mut entry = custom_defaults();
    entry.timeout = Some(0);
    assert_eq!(entry.timeout_string(), Some("0s".to_owned()));
    entry.timeout = Some(u64::MAX);
    assert_eq!(entry.timeout_string(), Some("18446744073709551615s".to_owned()));
}

#[test]
fn config_file_with_bad_toml_is_a_parse_error() {
    let r = TemplateCIConfig::from_config_str("os = [");
    assert!(matches!(r, Err(ConfigError::TomlParse)));
}

#[test]
fn config_file_with_wrong_field_shape_names_the_field() {
    match TemplateCIConfig::from_config_str("cache = 1") {
        Err(ConfigError::BadField { field }) => assert_eq!(field, "cache"),
        other => panic!("Expected a shape error, got {:?}", other),
    }
    match TemplateCIConfig::from_config_str("versions = \"stable\"") {
        Err(ConfigError::BadField { field }) => assert_eq!(field, "versions"),
        other => panic!("Expected a shape error, got {:?}", other),
    }
    match TemplateCIConfig::from_config_str("[bench]\nrun = \"yes\"") {
        Err(ConfigError::BadField { field }) => assert_eq!(field, "run"),
        other => panic!("Expected a shape error, got {:?}", other),
    }
    match TemplateCIConfig::from_config_str("[additional_matrix_entries.c]\ntimeout = { secs = -1 }") {
        Err(ConfigError::BadField { field }) => assert_eq!(field, "timeout"),
        other => panic!("Expected a shape error, got {:?}", other),
    }
}

#[test]
fn empty_supplied_command_is_rejected_as_malformed() {
    match TemplateCIConfig::from_config_str("[bench]\ncommandline = \"\"") {
        Err(ConfigError::BadField { field }) => assert_eq!(field, "commandline"),
        other => panic!("Expected a shape error, got {:?}", other),
    }
    match TemplateCIConfig::from_config_str(
        "[additional_matrix_entries.c]\nrun = true\ncommandline = \"\"",
    ) {
        Err(ConfigError::BadField { field }) => assert_eq!(field, "commandline"),
        other => panic!("Expected a shape error, got {:?}", other),
    }
    let metadata: serde_json::Value = serde_json::from_str(
        r#"{ "template_ci": { "rustfmt": { "commandline": "" } } }"#,
    ).unwrap();
    let r = TemplateCIConfig::from_manifest(Some(&metadata));
    assert!(matches!(r, Err(ConfigError::BadField { .. })));
}

#[test]
fn resolved_commands_are_never_empty() {
    let text = r#"
[bench]
run = true
[additional_matrix_entries.quiet]
run = true
"#;
    let conf = TemplateCIConfig::from_config_str(text).unwrap();
    assert!(!conf.bench.commandline.is_empty());
    assert!(!conf.clippy.commandline.is_empty());
    assert!(!conf.rustfmt.commandline.is_empty());
    assert_eq!(conf.additional_matrix_entries[0].1.commandline, "/bin/false");
}

#[test]
fn cascade_returns_the_manifest_error_when_all_sources_fail() {
    let not_an_object: serde_json::Value = serde_json::from_str("42").unwrap();
    let r = TemplateCIConfig::merged_configs(
        None,
        Some("os = ["),
        &ManifestQuery::Metadata(Some(not_an_object)),
    );
    assert!(matches!(r, Err(ConfigError::MetadataJson)));
    let bad_section: serde_json::Value = serde_json::from_str(
        r#"{ "template_ci": { "os": 3 } }"#,
    ).unwrap();
    let r = TemplateCIConfig::merged_configs(
        None,
        None,
        &ManifestQuery::Metadata(Some(bad_section)),
    );
    match r {
        Err(ConfigError::BadField { field }) => assert_eq!(field, "os"),
        other => panic!("Expected the manifest's own error, got {:?}", other),
    }
}

#[test]
fn primary_file_beats_dotfile_and_manifest() {
    let r = TemplateCIConfig::merged_configs(
        Some("os = \"alpha\""),
        Some("os = \"beta\""),
        &ManifestQuery::Unavailable,
    );
    let (conf, source) = r.unwrap();
    assert_eq!(conf.os, "alpha");
    assert_eq!(source, ConfigSource::PrimaryFile);
}

#[test]
fn broken_primary_file_falls_through_to_dotfile() {
    let r = TemplateCIConfig::merged_configs(
        Some("os = ["),
        Some("os = \"beta\""),
        &ManifestQuery::Unavailable,
    );
    let (conf, source) = r.unwrap();
    assert_eq!(conf.os, "beta");
    assert_eq!(source, ConfigSource::DotFile);
}

#[test]
fn no_source_at_all_resolves_to_the_default_config() {
    let r = TemplateCIConfig::merged_configs(None, None, &ManifestQuery::Metadata(None));
    let (conf, source) = r.unwrap();
    assert_is_default_config(&conf);
    assert_eq!(source, ConfigSource::Manifest);
}

#[test]
fn no_usable_manifest_is_the_hard_error() {
    let r = TemplateCIConfig::merged_configs(None, None, &ManifestQuery::Unavailable);
    assert!(matches!(r, Err(ConfigError::CargoMetadata)));
}

#[test]
fn parses_cargo_without_metadata() {
    let conf = TemplateCIConfig::from_manifest(None).unwrap();
    assert_is_default_config(&conf);
    let null: serde_json::Value = serde_json::from_str("null").unwrap();
    let conf = TemplateCIConfig::from_manifest(Some(&null)).unwrap();
    assert_is_default_config(&conf);
}

#[test]
fn parses_cargo_without_matching_metadata() {
    let metadata: serde_json::Value = serde_json::from_str(
        r#"{ "foo": { "bar": "baz" } }"#,
    ).unwrap();
    let conf = TemplateCIConfig::from_manifest(Some(&metadata)).unwrap();
    assert_is_default_config(&conf);
}

#[test]
fn parses_cargo_with_custom_entry() {
    let metadata: serde_json::Value = serde_json::from_str(
        r#"{ "template_ci": { "additional_matrix_entries": { "something_custom": {
            "name": "custom_templated_run",
            "install_commandline": "echo \"installing for custom tests\"",
            "commandline": "echo \"running custom tests\"",
            "timeout": { "secs": 90, "nanos": 0 }
        } } } }"#,
    ).unwrap();
    let conf = TemplateCIConfig::from_manifest(Some(&metadata)).unwrap();
    assert_eq!(conf.additional_matrix_entries.len(), 1);
    let (name, entry) = &conf.additional_matrix_entries[0];
    assert_eq!(name, "something_custom");
    assert_eq!(
        entry.install_commandline,
        Some("echo \"installing for custom tests\"".to_owned())
    );
    assert_eq!(entry.commandline, "echo \"running custom tests\"");
    assert_eq!(entry.timeout, Some(90));
    assert!(!entry.run);
}

#[test]
fn parses_cargo_customizing_stuff() {
    let metadata: serde_json::Value = serde_json::from_str(
        r#"{ "template_ci": { "os": "foo" } }"#,
    ).unwrap();
    let conf = TemplateCIConfig::from_manifest(Some(&metadata)).unwrap();
    assert_eq!(conf.os, "foo");
    assert_eq!(conf.dist, TemplateCIConfig::default().dist);
}

#[test]
fn manifest_metadata_tolerates_nulls_outside_the_section() {
    let metadata: serde_json::Value = serde_json::from_str(
        r#"{ "other_tool": null, "template_ci": { "os": "zzz" } }"#,
    ).unwrap();
    let conf = TemplateCIConfig::from_manifest(Some(&metadata)).unwrap();
    assert_eq!(conf.os, "zzz");
}

#[test]
fn manifest_section_that_does_not_convert_is_an_error() {
    let metadata: serde_json::Value = serde_json::from_str(
        r#"{ "template_ci": { "os": null } }"#,
    ).unwrap();
    let r = TemplateCIConfig::from_manifest(Some(&metadata));
    assert!(matches!(r, Err(ConfigError::MetadataJson)));
}

#[test]
fn null_manifest_section_means_all_defaults() {
    let metadata: serde_json::Value = serde_json::from_str(
        r#"{ "template_ci": null }"#,
    ).unwrap();
    let conf = TemplateCIConfig::from_manifest(Some(&metadata)).unwrap();
    assert_is_default_config(&conf);
}

#[test]
fn manifest_metadata_that_is_no_object_is_an_error() {
    let metadata: serde_json::Value = serde_json::from_str("42").unwrap();
    let r = TemplateCIConfig::from_manifest(Some(&metadata));
    assert!(matches!(r, Err(ConfigError::MetadataJson)));
}

#[test]
fn error_messages_are_nonempty_and_name_the_field() {
    let msg = ConfigError::BadField { field: "cache".to_owned() }.message();
    assert!(msg.contains("cache"));
    assert!(!ConfigError::CargoMetadata.message().is_empty());
    assert!(!ConfigError::TomlParse.message().is_empty());
    assert!(!ConfigError::MetadataJson.message().is_empty());
    assert!(!ConfigError::MissingSource.message().is_empty());
}
