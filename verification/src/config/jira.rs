//! The Jira connection settings and their validation.
use crate::config::validation::{
    rule_outcome, ConfigValidationError, ConfigValidator, FieldCheck, ValidationErrorView,
    ValidationRule,
};
use crate::encoding;
use crate::text;
use crate::text::{append_str, contains_char, ends_with_char, starts_with_char, starts_with_str};
use vstd::prelude::*;
use vstd::string::*;
use vstd::utf8::*;

verus! {

/// Jira connection settings.
#[derive(Clone, Debug)]
pub struct JiraConfig {
    pub api_base_url: String,
    pub email: String,
    pub personal_access_token: String,
    pub default_project: Option<String>,
    pub max_results: Option<u32>,
    pub timeout_seconds: Option<u64>,
    pub log_file: Option<String>,
    pub strict_ssl: Option<bool>,
}

/// An e-mail address of acceptable form: it holds `@` and `.`, and neither
/// starts nor ends with `@`.
pub open spec fn is_valid_email(s: Seq<char>) -> bool {
    &&& s.contains('@')
    &&& s.contains('.')
    &&& !(s.len() > 0 && s[0] == '@')
    &&& !(s.len() > 0 && s[s.len() - 1] == '@')
}

/// A token is sent as a bearer token when it is longer than 20 characters
/// and holds no colon; other tokens go with the e-mail in Basic
/// authentication.
pub open spec fn uses_bearer(token: Seq<char>) -> bool {
    token.len() > 20 && !token.contains(':')
}

/// A URL of acceptable form: it starts with `http://` or `https://`.
pub open spec fn is_valid_url(s: Seq<char>) -> bool {
    text::has_prefix(s, "http://"@) || text::has_prefix(s, "https://"@)
}

/// Whether an e-mail address has acceptable form.
pub fn check_email_format(email: &str) -> (r: bool)
    ensures
        r == is_valid_email(email@),
{
    contains_char(email, '@') && contains_char(email, '.') && !starts_with_char(email, '@')
        && !ends_with_char(email, '@')
}

/// Whether a URL has acceptable form.
pub fn check_url_format(url: &str) -> (r: bool)
    ensures
        r == is_valid_url(url@),
{
    starts_with_str(url, "http://") || starts_with_str(url, "https://")
}

/// The custom checks that the Jira settings apply.
pub enum JiraFieldCheck {
    /// The value must be an e-mail address of acceptable form.
    EmailFormat,
    /// The value must be an HTTP or HTTPS URL.
    UrlFormat,
}

impl FieldCheck for JiraFieldCheck {
    open spec fn accepts(&self, value: Seq<char>) -> bool {
        match self {
            JiraFieldCheck::EmailFormat => is_valid_email(value),
            JiraFieldCheck::UrlFormat => is_valid_url(value),
        }
    }

    open spec fn rejection(&self, value: Seq<char>) -> Seq<char> {
        match self {
            JiraFieldCheck::EmailFormat => "Invalid email format"@,
            JiraFieldCheck::UrlFormat => "Invalid URL format"@,
        }
    }

    fn check(&self, value: &str) -> (r: Result<(), String>) {
        match self {
            JiraFieldCheck::EmailFormat => {
                if check_email_format(value) {
                    Ok(())
                } else {
                    Err(String::from_str("Invalid email format"))
                }
            },
            JiraFieldCheck::UrlFormat => {
                if check_url_format(value) {
                    Ok(())
                } else {
                    Err(String::from_str("Invalid URL format"))
                }
            },
        }
    }
}

/// The problem (if any) that validation reports for a settings value: the
/// e-mail is checked first, then the token, then the base URL.
pub open spec fn jira_config_problem(
    email: Seq<char>,
    email_bytes: int,
    token: Seq<char>,
    token_bytes: int,
    url: Seq<char>,
) -> Option<ValidationErrorView> {
    if email.len() == 0 {
        Some(ValidationErrorView::MissingRequiredField("email"@))
    } else if !is_valid_email(email) {
        Some(
            ValidationErrorView::InvalidEnvironmentVariable(
                "email"@,
                email + ": "@ + "Invalid email format"@,
            ),
        )
    } else if token.len() == 0 {
        Some(ValidationErrorView::MissingRequiredField("personal_access_token"@))
    } else if token_bytes < 10 {
        Some(
            ValidationErrorView::InvalidRange(
                "personal_access_token"@,
                if token_bytes <= i64::MAX {
                    token_bytes
                } else {
                    i64::MAX as int
                },
                10,
                i64::MAX as int,
            ),
        )
    } else if url.len() == 0 {
        Some(ValidationErrorView::MissingRequiredField("api_base_url"@))
    } else if !is_valid_url(url) {
        Some(
            ValidationErrorView::InvalidEnvironmentVariable(
                "api_base_url"@,
                url + ": "@ + "Invalid URL format"@,
            ),
        )
    } else {
        None
    }
}

/// The log file used when none is configured: `Desktop/jira-api.log` under
/// the home directory, or under `.` when there is no home directory.
pub open spec fn default_log_file(home: Option<Seq<char>>) -> Seq<char> {
    let base = match home {
        Some(h) => h,
        None => "."@,
    };
    path_join(path_join(base, "Desktop"@), "jira-api.log"@)
}

/// Joining a relative component onto a Unix path: a separator is added
/// unless the path is empty or already ends with one.
pub open spec fn path_join(base: Seq<char>, component: Seq<char>) -> Seq<char> {
    if base.len() == 0 {
        component
    } else if base[base.len() - 1] == '/' {
        base + component
    } else {
        base + "/"@ + component
    }
}

/// Joins a relative path component onto a Unix path.
pub fn join_path(base: &str, component: &str) -> (r: String)
    ensures
        r@ == path_join(base@, component@),
{
    let mut out = String::from_str(base);
    if base.unicode_len() == 0 {
        return String::from_str(component);
    }
    if !ends_with_char(base, '/') {
        append_str(&mut out, "/");
    }
    append_str(&mut out, component);
    out
}

/// `std::time::Duration::from_secs`: the duration of `secs` whole seconds,
/// which std documents as `Duration::new(secs, 0)`.
#[verifier::external_body]
pub(crate) fn duration_from_secs(secs: u64) -> (d: std::time::Duration)
    ensures
        d == crate::performance::timing::duration_of_parts(secs, 0),
{
    std::time::Duration::from_secs(secs)
}

/// The settings used when nothing else is configured.
pub open spec fn is_default_config(c: JiraConfig) -> bool {
    &&& c.api_base_url@ == "https://jira.corp.adobe.com/rest/api/2"@
    &&& c.email@ == Seq::<char>::empty()
    &&& c.personal_access_token@ == Seq::<char>::empty()
    &&& c.default_project is None
    &&& c.max_results == Some(50u32)
    &&& c.timeout_seconds == Some(30u64)
    &&& c.log_file is None
    &&& c.strict_ssl == Some(true)
}

impl Default for JiraConfig {
    /// The settings used when nothing else is configured.
    fn default() -> (r: Self)
        ensures
            is_default_config(r),
    {
        JiraConfig {
            api_base_url: String::from_str("https://jira.corp.adobe.com/rest/api/2"),
            email: String::new(),
            personal_access_token: String::new(),
            default_project: None,
            max_results: Some(50),
            timeout_seconds: Some(30),
            log_file: None,
            strict_ssl: Some(true),
        }
    }
}

impl JiraConfig {
    /// The request timeout in seconds: the configured one, or 30.
    pub fn timeout_secs(&self) -> (r: u64)
        ensures
            r == match self.timeout_seconds {
                Some(t) => t,
                None => 30,
            },
    {
        match self.timeout_seconds {
            Some(t) => t,
            None => 30,
        }
    }

    /// The request timeout: the configured number of seconds, or 30.
    pub fn timeout_duration(&self) -> (r: std::time::Duration)
        ensures
            r == crate::performance::timing::duration_of_parts(
                match self.timeout_seconds {
                    Some(t) => t,
                    None => 30,
                },
                0,
            ),
    {
        duration_from_secs(self.timeout_secs())
    }

    /// The HTTP `Authorization` header: `Bearer ` and the token for a long
    /// token without colons; otherwise `Basic ` and the Base64 of
    /// `email:token`.
    pub fn auth_header(&self) -> (r: String)
        requires
            !uses_bearer(self.personal_access_token@) ==> encode_utf8(
                self.email@ + ":"@ + self.personal_access_token@,
            ).len() <= encoding::base64_input_limit(),
        ensures
            uses_bearer(self.personal_access_token@) ==> r@ == "Bearer "@
                + self.personal_access_token@,
            !uses_bearer(self.personal_access_token@) ==> r@ == "Basic "@ + encoding::base64_encoding(
                encode_utf8(self.email@ + ":"@ + self.personal_access_token@),
            ),
    {
        let token = self.personal_access_token.as_str();
        if token.unicode_len() > 20 && !contains_char(token, ':') {
            let mut header = String::from_str("Bearer ");
            append_str(&mut header, token);
            proof {
                reveal_strlit("Bearer ");
            }
            return header;
        }
        let mut credentials = String::from_str(self.email.as_str());
        append_str(&mut credentials, ":");
        append_str(&mut credentials, self.personal_access_token.as_str());
        let encoded = encoding::base64_encode(credentials.as_str());
        basic_auth_header(encoded.as_str())
    }

    /// Checks the e-mail, the token and the base URL, in that order, and
    /// reports the first problem.
    pub fn validate(&self) -> (r: Result<(), ConfigValidationError>)
        ensures
            r is Ok <==> jira_config_problem(
                self.email@,
                text::str_byte_len(self.email@),
                self.personal_access_token@,
                text::str_byte_len(self.personal_access_token@),
                self.api_base_url@,
            ) is None,
            r matches Err(e) ==> jira_config_problem(
                self.email@,
                text::str_byte_len(self.email@),
                self.personal_access_token@,
                text::str_byte_len(self.personal_access_token@),
                self.api_base_url@,
            ) == Some(e@),
    {
        let validator = ConfigValidator::new().add_rule(
            ValidationRule::new(String::from_str("email")).required().custom_validator(
                JiraFieldCheck::EmailFormat,
            ),
        ).add_rule(
            ValidationRule::new(String::from_str("personal_access_token")).required().min_length(
                10,
            ),
        ).add_rule(
            ValidationRule::new(String::from_str("api_base_url")).required().custom_validator(
                JiraFieldCheck::UrlFormat,
            ),
        );
        proof {
            reveal_strlit("email");
            reveal_strlit("personal_access_token");
            reveal_strlit("api_base_url");
            let rules = validator.rules();
            assert(rules[0].field@ == "email"@);
            assert(rules[1].field@ == "personal_access_token"@);
            assert(rules[2].field@ == "api_base_url"@);
            assert("personal_access_token"@ != "email"@);
            assert("api_base_url"@ != "email"@);
            assert("api_base_url"@ != "personal_access_token"@);
            crate::config::validation::law_single_rule_decides(
                rules,
                0,
                "email"@,
                self.email@,
                text::str_byte_len(self.email@),
            );
            crate::config::validation::law_single_rule_decides(
                rules,
                1,
                "personal_access_token"@,
                self.personal_access_token@,
                text::str_byte_len(self.personal_access_token@),
            );
            crate::config::validation::law_single_rule_decides(
                rules,
                2,
                "api_base_url"@,
                self.api_base_url@,
                text::str_byte_len(self.api_base_url@),
            );
        }
        validator.validate("email", self.email.as_str())?;
        validator.validate("personal_access_token", self.personal_access_token.as_str())?;
        validator.validate("api_base_url", self.api_base_url.as_str())?;
        Ok(())
    }
}

/// The `Authorization` header for already encoded credentials.
pub fn basic_auth_header(encoded: &str) -> (r: String)
    ensures
        r@ == "Basic "@ + encoded@,
{
    let mut out = String::from_str("Basic ");
    append_str(&mut out, encoded);
    out
}

/// Why freshly loaded settings are refused.
pub open spec fn load_problem(email: Seq<char>, token: Seq<char>) -> Option<Seq<char>> {
    if email.len() == 0 {
        Some("JIRA_EMAIL environment variable is required"@)
    } else if token.len() == 0 {
        Some("JIRA_PERSONAL_ACCESS_TOKEN environment variable is required"@)
    } else {
        None
    }
}

impl JiraConfig {
    /// Completes settings that were just read from the configuration sources:
    /// the e-mail and the token must be present, and a missing log file
    /// becomes the default one under `home_dir`.
    pub fn finish_loading(self, home_dir: Option<String>) -> (r: Result<Self, String>)
        ensures
            load_problem(self.email@, self.personal_access_token@) matches Some(m) ==> (r matches Err(
                e) && e@ == m),
            load_problem(self.email@, self.personal_access_token@) is None ==> (r matches Ok(c) && c
                == (JiraConfig { log_file: c.log_file, ..self }) && (match self.log_file {
                Some(f) => c.log_file == Some(f),
                None => (c.log_file matches Some(f) && f@ == default_log_file(
                    match home_dir {
                        Some(h) => Some(h@),
                        None => None,
                    },
                )),
            })),
    {
        if self.email.as_str().unicode_len() == 0 {
            return Err(String::from_str("JIRA_EMAIL environment variable is required"));
        }
        if self.personal_access_token.as_str().unicode_len() == 0 {
            return Err(String::from_str("JIRA_PERSONAL_ACCESS_TOKEN environment variable is required"));
        }
        let mut config = self;
        if config.log_file.is_none() {
            let base = match home_dir {
                Some(h) => h,
                None => String::from_str("."),
            };
            let desktop = join_path(base.as_str(), "Desktop");
            config.log_file = Some(join_path(desktop.as_str(), "jira-api.log"));
        }
        Ok(config)
    }

    /// The settings with the sensitive fields replaced by the secrets that
    /// were found: the token first, then the e-mail.
    pub fn with_secrets(self, token: Option<String>, email: Option<String>) -> (r: Self)
        ensures
            r.personal_access_token == match token {
                Some(t) => t,
                None => self.personal_access_token,
            },
            r.email == match email {
                Some(e) => e,
                None => self.email,
            },
            r.api_base_url == self.api_base_url,
            r.default_project == self.default_project,
            r.max_results == self.max_results,
            r.timeout_seconds == self.timeout_seconds,
            r.log_file == self.log_file,
            r.strict_ssl == self.strict_ssl,
    {
        let mut config = self;
        if let Some(t) = token {
            config.personal_access_token = t;
        }
        if let Some(e) = email {
            config.email = e;
        }
        config
    }
}

} // verus!
