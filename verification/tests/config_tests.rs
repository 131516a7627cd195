use rust_jira_mcp::config::jira::{check_email_format, check_url_format, JiraConfig, JiraFieldCheck};
use rust_jira_mcp::config::manager::{ConfigManager, ConfigOptions, ConfigSource};
use rust_jira_mcp::config::secrets::{classify_env_value, SecretManager, SecretValue};
use rust_jira_mcp::config::validation::{ConfigValidationError, ConfigValidator, ValidationRule};

fn sample_config() -> JiraConfig {
    JiraConfig {
        api_base_url: "https://jira.example.com/rest/api/2".to_string(),
        email: "user@example.com".to_string(),
        personal_access_token: "abcdefghijkl".to_string(),
        default_project: Some("PROJ".to_string()),
        max_results: Some(50),
        timeout_seconds: Some(30),
        log_file: None,
        strict_ssl: Some(true),
    }
}

#[test]
fn valid_config_passes_validation() {
    assert!(sample_config().validate().is_ok());
}

#[test]
fn empty_email_is_a_missing_field() {
    let mut c = sample_config();
    c.email = String::new();
    match c.validate() {
        Err(ConfigValidationError::MissingRequiredField(f)) => assert_eq!(f, "email"),
        _ => panic!("expected a missing email"),
    }
}

#[test]
fn malformed_email_is_rejected_with_its_reason() {
    let mut c = sample_config();
    c.email = "not-an-email".to_string();
    match c.validate() {
        Err(ConfigValidationError::InvalidEnvironmentVariable(f, v)) => {
            assert_eq!(f, "email");
            assert_eq!(v, "not-an-email: Invalid email format");
        }
        _ => panic!("expected an invalid email"),
    }
}

#[test]
fn short_token_is_out_of_range() {
    let mut c = sample_config();
    c.personal_access_token = "short".to_string();
    match c.validate() {
        Err(ConfigValidationError::InvalidRange(f, v, lo, hi)) => {
            assert_eq!(f, "personal_access_token");
            assert_eq!(v, 5);
            assert_eq!(lo, 10);
            assert_eq!(hi, i64::MAX);
        }
        _ => panic!("expected a short token"),
    }
}

#[test]
fn non_http_url_is_rejected() {
    let mut c = sample_config();
    c.api_base_url = "ftp://jira.example.com".to_string();
    match c.validate() {
        Err(ConfigValidationError::InvalidEnvironmentVariable(f, v)) => {
            assert_eq!(f, "api_base_url");
            assert_eq!(v, "ftp://jira.example.com: Invalid URL format");
        }
        _ => panic!("expected an invalid url"),
    }
}

#[test]
fn auth_header_is_basic_base64_of_email_and_token() {
    let mut c = sample_config();
    c.email = "user".to_string();
    c.personal_access_token = "token".to_string();
    assert_eq!(c.auth_header(), "Basic dXNlcjp0b2tlbg==");
}

#[test]
fn long_tokens_without_colons_are_bearer_tokens() {
    let mut c = sample_config();
    c.personal_access_token = "abcdefghijklmnopqrstuvwxyz".to_string();
    assert_eq!(c.auth_header(), "Bearer abcdefghijklmnopqrstuvwxyz");
    c.personal_access_token = "abcdefghijklmnopqrstuvwxyz:1".to_string();
    assert!(c.auth_header().starts_with("Basic "));
    c.personal_access_token = "a".repeat(20);
    assert!(c.auth_header().starts_with("Basic "));
    c.personal_access_token = "a".repeat(21);
    assert!(c.auth_header().starts_with("Bearer "));
}

#[test]
fn timeout_defaults_to_thirty_seconds() {
    let mut c = sample_config();
    c.timeout_seconds = None;
    assert_eq!(c.timeout_duration(), std::time::Duration::from_secs(30));
    c.timeout_seconds = Some(7);
    assert_eq!(c.timeout_duration(), std::time::Duration::from_secs(7));
}

#[test]
fn default_config_has_the_documented_values() {
    let c = JiraConfig::default();
    assert_eq!(c.api_base_url, "https://jira.corp.adobe.com/rest/api/2");
    assert_eq!(c.email, "");
    assert_eq!(c.personal_access_token, "");
    assert_eq!(c.timeout_seconds, Some(30));
}

#[test]
fn email_and_url_format_checks() {
    assert!(check_email_format("a@b.c"));
    assert!(!check_email_format("@b.c"));
    assert!(!check_email_format("ab.c@"));
    assert!(!check_email_format("abc"));
    assert!(check_url_format("http://x"));
    assert!(check_url_format("https://x"));
    assert!(!check_url_format("htp://x"));
}

#[test]
fn finish_loading_requires_email_and_token() {
    let mut c = sample_config();
    c.email = String::new();
    match c.finish_loading(None) {
        Err(m) => assert_eq!(m, "JIRA_EMAIL environment variable is required"),
        Ok(_) => panic!("expected an error"),
    }
    let mut c = sample_config();
    c.personal_access_token = String::new();
    match c.finish_loading(None) {
        Err(m) => assert_eq!(m, "JIRA_PERSONAL_ACCESS_TOKEN environment variable is required"),
        Ok(_) => panic!("expected an error"),
    }
}

#[test]
fn finish_loading_sets_the_default_log_file() {
    let c = sample_config().finish_loading(Some("/home/u".to_string())).ok().unwrap();
    assert_eq!(c.log_file, Some("/home/u/Desktop/jira-api.log".to_string()));
    let c = sample_config().finish_loading(None).ok().unwrap();
    assert_eq!(c.log_file, Some("./Desktop/jira-api.log".to_string()));
    let mut given = sample_config();
    given.log_file = Some("/tmp/x.log".to_string());
    let c = given.finish_loading(None).ok().unwrap();
    assert_eq!(c.log_file, Some("/tmp/x.log".to_string()));
}

#[test]
fn secrets_replace_token_then_email() {
    let c = sample_config().with_secrets(Some("secret-token".to_string()), None);
    assert_eq!(c.personal_access_token, "secret-token");
    assert_eq!(c.email, "user@example.com");
}

#[test]
fn validator_applies_every_rule_of_a_field() {
    let v: ConfigValidator<JiraFieldCheck> = ConfigValidator::new()
        .add_rule(ValidationRule::new("name".to_string()).required().min_length(3))
        .add_rule(ValidationRule::new("name".to_string()).min_length(5));
    assert!(v.validate("name", "abcdef").is_ok());
    assert!(v.validate("other", "").is_ok());
    match v.validate("name", "") {
        Err(ConfigValidationError::MissingRequiredField(f)) => assert_eq!(f, "name"),
        _ => panic!("expected a missing field"),
    }
    match v.validate("name", "ab") {
        Err(ConfigValidationError::InvalidRange(_, v, lo, _)) => {
            assert_eq!(v, 2);
            assert_eq!(lo, 3);
        }
        _ => panic!("expected a short value"),
    }
    match v.validate("name", "abcd") {
        Err(ConfigValidationError::InvalidRange(_, v, lo, _)) => {
            assert_eq!(v, 4);
            assert_eq!(lo, 5);
        }
        _ => panic!("expected the second rule to refuse the value"),
    }
}

#[test]
fn validator_reports_a_later_required_rule() {
    let v: ConfigValidator<JiraFieldCheck> = ConfigValidator::new()
        .add_rule(ValidationRule::new("f".to_string()).min_length(3))
        .add_rule(ValidationRule::new("f".to_string()).required());
    match v.validate("f", "") {
        Err(ConfigValidationError::MissingRequiredField(f)) => assert_eq!(f, "f"),
        _ => panic!("expected a missing field"),
    }
    assert!(v.validate("f", "abc").is_ok());
}

#[test]
fn validator_checks_numeric_ranges_and_patterns() {
    let mut rule: ValidationRule<JiraFieldCheck> = ValidationRule::new("port".to_string());
    rule.min_value = Some(1);
    rule.max_value = Some(100);
    let mut pattern_rule: ValidationRule<JiraFieldCheck> = ValidationRule::new("id".to_string());
    pattern_rule.pattern = Some("alphanumeric".to_string());
    let v = ConfigValidator::new().add_rule(rule).add_rule(pattern_rule);
    assert!(v.validate("port", "50").is_ok());
    match v.validate("port", "500") {
        Err(ConfigValidationError::InvalidRange(f, val, lo, hi)) => {
            assert_eq!(f, "port");
            assert_eq!((val, lo, hi), (500, 1, 100));
        }
        _ => panic!("expected a range error"),
    }
    assert!(v.validate("port", "abc").is_ok());
    assert!(v.validate("id", "abc123").is_ok());
    match v.validate("id", "abc-123") {
        Err(ConfigValidationError::InvalidEnvironmentVariable(f, val)) => {
            assert_eq!(f, "id");
            assert_eq!(val, "abc-123");
        }
        _ => panic!("expected a pattern error"),
    }
}

#[test]
fn validation_error_messages() {
    let e = ConfigValidationError::MissingRequiredField("email".to_string());
    assert_eq!(e.to_string(), "Required field 'email' is missing");
    let e = ConfigValidationError::InvalidRange("f".to_string(), -5, 0, 10);
    assert_eq!(e.to_string(), "Field 'f' value -5 is outside valid range [0, 10]");
    let e = ConfigValidationError::ValidationFailed(vec![
        ConfigValidationError::InvalidEmail("x".to_string()),
        ConfigValidationError::ConfigFileNotFound("a.toml".to_string()),
    ]);
    assert_eq!(
        e.to_string(),
        "Configuration validation failed with 2 errors:\n  - Invalid email format: 'x'\n  - Configuration file not found: 'a.toml'"
    );
}

#[test]
fn config_options_default() {
    let o = ConfigOptions::default();
    assert!(!o.hot_reload);
    assert!(o.watch_paths.is_empty());
    assert!(o.strict_validation);
    assert!(o.fail_on_missing);
}

#[test]
fn config_sources_in_precedence_order() {
    let mut m = ConfigManager::new();
    assert!(!m.is_hot_reload_enabled());
    m.enable_hot_reload(1, vec!["config.toml".to_string()]);
    assert!(m.is_hot_reload_enabled());
    let sources = m.get_config_sources(true, true);
    assert_eq!(sources.len(), 4);
    assert!(matches!(sources[0], ConfigSource::Environment));
    assert!(matches!(sources[1], ConfigSource::DotEnv));
    assert!(matches!(&sources[2], ConfigSource::Toml(p) if p == "config.toml"));
    assert!(matches!(sources[3], ConfigSource::Default));
    let sources = m.get_config_sources(false, false);
    assert_eq!(sources.len(), 2);
    assert!(matches!(&sources[0], ConfigSource::Toml(p) if p == "config.toml"));
}

#[test]
fn strict_validation_fails_or_warns() {
    let mut c = sample_config();
    c.email = "bad".to_string();
    assert!(matches!(
        ConfigManager::validate_config(&c, true),
        Err(ConfigValidationError::ValidationFailed(_))
    ));
    match ConfigManager::validate_config(&c, false) {
        Ok(warnings) => assert_eq!(warnings.len(), 1),
        Err(_) => panic!("expected warnings"),
    }
    assert!(matches!(ConfigManager::validate_config(&sample_config(), true), Ok(w) if w.is_empty()));
}

#[test]
fn secret_values_resolve() {
    assert_eq!(SecretValue::Plain("p".to_string()).resolve(None), Ok("p".to_string()));
    assert_eq!(SecretValue::Base64("aGVsbG8=".to_string()).resolve(None), Ok("hello".to_string()));
    assert_eq!(
        SecretValue::Base64("!!!".to_string()).resolve(None),
        Err("Failed to decode base64 secret".to_string())
    );
    assert_eq!(
        SecretValue::EnvVar("TOKEN".to_string()).resolve(None),
        Err("Environment variable 'TOKEN' not found".to_string())
    );
    assert_eq!(
        SecretValue::EnvVar("TOKEN".to_string()).resolve(Some("v".to_string())),
        Ok("v".to_string())
    );
    assert_eq!(
        SecretValue::FilePath("/x".to_string()).resolve(None),
        Err("Failed to read secret from file: /x".to_string())
    );
}

#[test]
fn invalid_utf8_in_a_base64_secret_is_reported() {
    assert_eq!(
        SecretValue::Base64("/w==".to_string()).resolve(None),
        Err("Invalid UTF-8 in decoded secret".to_string())
    );
}

#[test]
fn env_values_are_classified_by_prefix() {
    assert!(matches!(classify_env_value("base64:aGk=".to_string()), SecretValue::Base64(v) if v == "aGk="));
    assert!(matches!(classify_env_value("file:/etc/x".to_string()), SecretValue::FilePath(v) if v == "/etc/x"));
    assert!(matches!(classify_env_value("env:HOME".to_string()), SecretValue::EnvVar(v) if v == "HOME"));
    assert!(matches!(classify_env_value("plain".to_string()), SecretValue::Plain(v) if v == "plain"));
}

#[test]
fn secret_table_reads_back_what_was_written() {
    let mut m = SecretManager::new();
    assert!(m.get("a").is_none());
    m.insert("a".to_string(), SecretValue::Plain("1".to_string()));
    m.insert("b".to_string(), SecretValue::Plain("2".to_string()));
    m.insert("a".to_string(), SecretValue::Plain("3".to_string()));
    assert!(matches!(m.get("a"), Some(SecretValue::Plain(v)) if v == "3"));
    assert!(matches!(m.get("b"), Some(SecretValue::Plain(v)) if v == "2"));
}

#[test]
fn env_loading_takes_prefixed_variables_in_lower_case() {
    let mut m = SecretManager::new();
    m.load_from_env(
        vec![
            ("JIRA_TOKEN".to_string(), "base64:aGk=".to_string()),
            ("OTHER".to_string(), "x".to_string()),
        ],
        "JIRA_",
    );
    assert!(matches!(m.get("token"), Some(SecretValue::Base64(v)) if v == "aGk="));
    assert!(m.get("other").is_none());
}
