use template_ci::bors::{check_status, config_from_str, BorsError};
use template_ci::ci::circleci::CircleCI;
use template_ci::config::TemplateCIConfig;

#[test]
fn validate_old_style_bors_config() {
    let sys = CircleCI::from(TemplateCIConfig::default());
    match sys.validate_config(Some("status = [\"ci/circleci: ci_success\"]")) {
        Err(BorsError::BadCircleStatusCheck { name }) => {
            assert_eq!(name, "ci/circleci: ci_success");
        }
        other => {
            panic!("Expected an error, got {:?}", other);
        }
    }
}

#[test]
fn validate_missing_status_check() {
    let sys = CircleCI::from(TemplateCIConfig::default());
    match sys.validate_config(Some("status = [\"welp\"]")) {
        Err(BorsError::MissingCircleStatusCheck { name }) => {
            assert_eq!(name, "continuous_integration");
        }
        other => {
            panic!("Expected an error, got {:?}", other);
        }
    }
}

#[test]
fn validate_accepts_the_sentinel_check() {
    let sys = CircleCI::from(TemplateCIConfig::default());
    let r = sys.validate_config(Some("status = [\"continuous_integration\"]"));
    assert!(r.is_ok());
}

#[test]
fn validate_reports_the_legacy_check_even_beside_the_sentinel() {
    let sys = CircleCI::from(TemplateCIConfig::default());
    let r = sys.validate_config(Some(
        "status = [\"continuous_integration\", \"ci/circleci: ci_success\"]",
    ));
    match r {
        Err(BorsError::BadCircleStatusCheck { name }) => {
            assert_eq!(name, "ci/circleci: ci_success");
        }
        other => {
            panic!("Expected an error, got {:?}", other);
        }
    }
}

#[test]
fn validate_without_a_readable_bors_config_fails() {
    let sys = CircleCI::from(TemplateCIConfig::default());
    let r = sys.validate_config(None);
    assert!(matches!(r, Err(BorsError::IOError)));
}

#[test]
fn bors_config_without_status_list_is_a_toml_error() {
    assert!(matches!(config_from_str("welp = 3"), Err(BorsError::Toml)));
    assert!(matches!(config_from_str("status = 3"), Err(BorsError::Toml)));
    assert!(matches!(config_from_str("status = ["), Err(BorsError::Toml)));
}

#[test]
fn bors_config_reads_the_status_list_in_order() {
    let cfg = config_from_str("status = [\"a\", \"b\"]").unwrap();
    assert_eq!(cfg.status, vec!["a".to_owned(), "b".to_owned()]);
}

#[test]
fn check_status_rules_match_the_list_contents() {
    let ok = vec!["continuous_integration".to_owned()];
    assert!(check_status(&ok).is_ok());
    let empty: Vec<String> = Vec::new();
    assert!(matches!(
        check_status(&empty),
        Err(BorsError::MissingCircleStatusCheck { .. })
    ));
    let bad = vec!["ci/circleci: ci_success".to_owned()];
    assert!(matches!(
        check_status(&bad),
        Err(BorsError::BadCircleStatusCheck { .. })
    ));
}

#[test]
fn bors_error_messages_name_the_check() {
    let bad = BorsError::BadCircleStatusCheck { name: "ci/circleci: ci_success".to_owned() };
    let msg = bad.message();
    assert!(msg.contains("ci/circleci: ci_success"));
    assert!(msg.contains("continuous_integration"));
    let missing = BorsError::MissingCircleStatusCheck { name: "continuous_integration".to_owned() };
    assert!(missing.message().contains("continuous_integration"));
    assert!(!BorsError::IOError.message().is_empty());
    assert!(!BorsError::Toml.message().is_empty());
}
