use template_ci::bors::BorsError;
use template_ci::ci::circleci::{CircleCI, Filters};
use template_ci::ci::travis::TravisCI;
use template_ci::ci::CiError;
use template_ci::config::TemplateCIConfig;

#[test]
fn filter_policy_is_fixed() {
    let f = Filters::from_config(&TemplateCIConfig::default());
    assert_eq!(f.branches.only.len(), 0);
    assert_eq!(f.branches.ignore, vec!["/.*\\.tmp/".to_owned()]);
    assert_eq!(f.tags.only, vec!["/^v\\d+\\.\\d+\\.\\d+.*$/".to_owned()]);
    assert_eq!(f.tags.ignore.len(), 0);
}

#[test]
fn config_file_names_are_canonical() {
    let circle = CircleCI::from(TemplateCIConfig::default());
    assert_eq!(circle.config_file_name("/repo"), "/repo/.circleci/config.yml");
    let travis = TravisCI::from(TemplateCIConfig::default());
    assert_eq!(travis.config_file_name("/repo"), "/repo/.travis.yml");
}

#[test]
fn preamble_is_a_comment_dumping_the_config() {
    let travis = TravisCI::from(TemplateCIConfig::default());
    let preamble = travis.preamble();
    assert!(preamble.starts_with(
        "# TemplateCIConfig { bench: MatrixEntry { run: false, run_cron: false, \
         version: \"nightly\", install_commandline: None, commandline: \"cargo bench\", \
         timeout: None }, clippy: "
    ));
    assert!(preamble.contains("cache: \"cargo\""));
    assert!(preamble.contains("versions: [\"stable\", \"nightly\"]"));
    assert!(preamble.contains("additional_matrix_entries: {}"));
    assert!(!preamble.contains('\n'));
}

#[test]
fn preamble_dumps_custom_entries_and_timeouts() {
    let conf = TemplateCIConfig::from_config_str(
        "[additional_matrix_entries.c1]\ncommandline = \"echo hi\"\ntimeout = { secs = 90, nanos = 0 }",
    )
    .unwrap();
    let travis = TravisCI::from(conf);
    let preamble = travis.preamble();
    assert!(preamble.contains(
        "additional_matrix_entries: {\"c1\": MatrixEntry { run: false, run_cron: false, \
         version: \"stable\", install_commandline: None, commandline: \"echo hi\", \
         timeout: Some(90s) }}"
    ));
}

#[test]
fn travis_plan_holds_preamble_body_and_trailing_newline() {
    let travis = TravisCI::from(TemplateCIConfig::default());
    let plan = travis.persist_plan("/repo", Some("language: rust")).unwrap();
    assert_eq!(plan.path, "/repo/.travis.yml");
    let expected = {
        let mut s = String::new();
        s.push_str(travis.preamble().as_str());
        s.push('\n');
        s.push_str("language: rust");
        s.push('\n');
        s
    };
    assert_eq!(plan.document, expected);
    assert!(plan.document.starts_with('#'));
}

#[test]
fn failed_render_yields_no_plan() {
    let travis = TravisCI::from(TemplateCIConfig::default());
    let r = travis.persist_plan("/repo", None);
    assert!(matches!(r, Err(CiError::TemplateError)));
    let circle = CircleCI::from(TemplateCIConfig::default());
    let r = circle.persist_plan("/repo", None, Some("status = [\"continuous_integration\"]"));
    assert!(matches!(r, Err(CiError::TemplateError)));
}

#[test]
fn circle_plan_requires_a_passing_validation() {
    let circle = CircleCI::from(TemplateCIConfig::default());
    let r = circle.persist_plan("/repo", Some("version: 2"), None);
    assert!(matches!(
        r,
        Err(CiError::BorsConfig { source: BorsError::IOError })
    ));
    let r = circle.persist_plan(
        "/repo",
        Some("version: 2"),
        Some("status = [\"ci/circleci: ci_success\"]"),
    );
    match r {
        Err(CiError::BorsConfig { source: BorsError::BadCircleStatusCheck { name } }) => {
            assert_eq!(name, "ci/circleci: ci_success");
        }
        other => panic!("Expected a validation error, got {:?}", other),
    }
    let plan = circle
        .persist_plan("/repo", Some("version: 2"), Some("status = [\"continuous_integration\"]"))
        .unwrap();
    assert_eq!(plan.path, "/repo/.circleci/config.yml");
    assert!(plan.document.ends_with("version: 2\n"));
}

#[test]
fn persisting_twice_with_unchanged_inputs_is_byte_identical() {
    let circle = CircleCI::from(TemplateCIConfig::default());
    let first = circle
        .persist_plan("/repo", Some("version: 2"), Some("status = [\"continuous_integration\"]"))
        .unwrap();
    let second = circle
        .persist_plan("/repo", Some("version: 2"), Some("status = [\"continuous_integration\"]"))
        .unwrap();
    assert_eq!(first.document, second.document);
    assert_eq!(first.path, second.path);
    let travis = TravisCI::from(TemplateCIConfig::default());
    let a = travis.persist_plan("/r", Some("x")).unwrap();
    let b = travis.persist_plan("/r", Some("x")).unwrap();
    assert_eq!(a.document, b.document);
}

#[test]
fn ci_error_messages_carry_the_validation_detail() {
    assert_eq!(CiError::TemplateError.message(), "could not render template");
    assert_eq!(
        CiError::BorsConfig { source: BorsError::IOError }.message(),
        "could not read bors-ng config"
    );
    let bad = CiError::BorsConfig {
        source: BorsError::BadCircleStatusCheck { name: "ci/circleci: ci_success".to_owned() },
    };
    assert_eq!(
        bad.message(),
        "Bad status check \"ci/circleci: ci_success\": Use \"continuous_integration\""
    );
    let missing = CiError::BorsConfig {
        source: BorsError::MissingCircleStatusCheck { name: "continuous_integration".to_owned() },
    };
    assert_eq!(missing.message(), "Missing status check \"continuous_integration\"");
}
