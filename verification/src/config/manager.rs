//! Where configuration comes from, how strictly it is checked, and the
//! state of the configuration manager.
use crate::config::jira::{check_email_format, check_url_format, is_valid_email, is_valid_url, JiraConfig};
use crate::config::validation::{ConfigValidationError, ValidationErrorView};
use crate::text::str_equal;
use crate::text;
use vstd::prelude::*;
use vstd::string::*;

verus! {

/// Configuration sources in order of precedence (highest to lowest).
pub enum ConfigSource {
    /// Environment variables
    Environment,
    /// .env file
    DotEnv,
    /// TOML configuration file
    Toml(String),
    /// YAML configuration file
    Yaml(String),
    /// JSON configuration file
    Json(String),
    /// Default values
    Default,
}

/// The format a configuration file is read in.
pub enum ConfigFileFormat {
    Toml,
    Yaml,
    Json,
}

/// Configuration loading options.
pub struct ConfigOptions {
    /// Whether to enable hot-reloading
    pub hot_reload: bool,
    /// Configuration file paths to watch
    pub watch_paths: Vec<String>,
    /// Validation strictness level
    pub strict_validation: bool,
    /// Whether to fail on missing required fields
    pub fail_on_missing: bool,
}

impl Default for ConfigOptions {
    fn default() -> (r: Self)
        ensures
            !r.hot_reload,
            r.watch_paths@.len() == 0,
            r.strict_validation,
            r.fail_on_missing,
    {
        ConfigOptions {
            hot_reload: false,
            watch_paths: Vec::new(),
            strict_validation: true,
            fail_on_missing: true,
        }
    }
}

/// The extension of the file a path names, as `Path::extension` finds it.
pub uninterp spec fn path_extension(path: Seq<char>) -> Option<Seq<char>>;

/// `std::path::Path::extension` (the text after the last `.` of the file
/// name, if any) on a path given as text; its result is `path_extension`.
#[verifier::external_body]
pub(crate) fn file_extension(path: &str) -> (r: Option<String>)
    ensures
        r matches Some(e) ==> path_extension(path@) == Some(e@),
        r is None ==> path_extension(path@) is None,
{
    std::path::Path::new(path).extension().and_then(|e| e.to_str()).map(|e| e.to_string())
}

/// The format for a file extension: `yaml` and `yml` are YAML, `json` is
/// JSON, anything else (or no extension) is TOML.
pub open spec fn format_for_extension(ext: Option<Seq<char>>) -> ConfigFileFormat {
    match ext {
        Some(e) => if e == "yaml"@ || e == "yml"@ {
            ConfigFileFormat::Yaml
        } else if e == "json"@ {
            ConfigFileFormat::Json
        } else {
            ConfigFileFormat::Toml
        },
        None => ConfigFileFormat::Toml,
    }
}

/// The format a configuration file is read in, by its extension.
pub fn format_for_path(path: &str) -> (r: ConfigFileFormat)
    ensures
        r == format_for_extension(path_extension(path@)),
{
    match file_extension(path) {
        Some(e) => {
            if str_equal(e.as_str(), "yaml") || str_equal(e.as_str(), "yml") {
                ConfigFileFormat::Yaml
            } else if str_equal(e.as_str(), "json") {
                ConfigFileFormat::Json
            } else {
                ConfigFileFormat::Toml
            }
        },
        None => ConfigFileFormat::Toml,
    }
}

/// The source that a configuration file stands for.
pub fn source_for_path(path: String) -> (r: ConfigSource)
    ensures
        match format_for_extension(path_extension(path@)) {
            ConfigFileFormat::Yaml => r == ConfigSource::Yaml(path),
            ConfigFileFormat::Json => r == ConfigSource::Json(path),
            ConfigFileFormat::Toml => r == ConfigSource::Toml(path),
        },
{
    match format_for_path(path.as_str()) {
        ConfigFileFormat::Yaml => ConfigSource::Yaml(path),
        ConfigFileFormat::Json => ConfigSource::Json(path),
        ConfigFileFormat::Toml => ConfigSource::Toml(path),
    }
}

/// A value that may stand in a sequence or not.
pub open spec fn optional<A>(present: bool, a: A) -> Seq<A> {
    if present {
        seq![a]
    } else {
        Seq::empty()
    }
}

/// The problems that strict validation finds in settings, in the order
/// they are checked.
pub open spec fn config_problems(c: JiraConfig) -> Seq<ValidationErrorView> {
    let email = if c.email@.len() == 0 {
        seq![ValidationErrorView::MissingRequiredField("email"@)]
    } else {
        optional(!is_valid_email(c.email@), ValidationErrorView::InvalidEmail(c.email@))
    };
    let token = optional(
        c.personal_access_token@.len() == 0,
        ValidationErrorView::MissingRequiredField("personal_access_token"@),
    );
    let url = optional(
        !is_valid_url(c.api_base_url@),
        ValidationErrorView::InvalidUrl("api_base_url"@, c.api_base_url@),
    );
    let max_results = match c.max_results {
        Some(m) => optional(
            m == 0 || m > 1000,
            ValidationErrorView::InvalidRange("max_results"@, m as int, 1, 1000),
        ),
        None => Seq::empty(),
    };
    let timeout = match c.timeout_seconds {
        Some(t) => optional(
            t == 0 || t > 300,
            ValidationErrorView::InvalidRange(
                "timeout_seconds"@,
                if t <= i64::MAX {
                    t as int
                } else {
                    300
                },
                1,
                300,
            ),
        ),
        None => Seq::empty(),
    };
    email + token + url + max_results + timeout
}

/// The views of a vector of errors.
pub open spec fn views_of(errors: Seq<ConfigValidationError>) -> Seq<ValidationErrorView> {
    errors.map_values(|e: ConfigValidationError| e@)
}

/// The state of the configuration manager: the current settings, the files
/// being watched and whether hot-reloading is on.
pub struct ConfigManager {
    config: JiraConfig,
    config_paths: Vec<String>,
    watch_enabled: bool,
}

impl ConfigManager {
    /// The files being watched, in the order they were registered.
    pub closed spec fn watched(&self) -> Seq<String> {
        self.config_paths@
    }

    /// The current settings.
    pub closed spec fn current(&self) -> JiraConfig {
        self.config
    }

    /// Whether hot-reloading was turned on.
    pub closed spec fn watching(&self) -> bool {
        self.watch_enabled
    }

    /// A manager with the default settings, watching nothing.
    pub fn new() -> (r: Self)
        ensures
            r.watched().len() == 0,
            !r.watching(),
            crate::config::jira::is_default_config(r.current()),
    {
        ConfigManager { config: JiraConfig::default(), config_paths: Vec::new(), watch_enabled: false }
    }

    /// The current settings.
    pub fn get_config(&self) -> (r: &JiraConfig)
        ensures
            *r == self.current(),
    {
        &self.config
    }

    /// Replaces the current settings (after a load or a reload).
    pub fn set_config(&mut self, config: JiraConfig)
        ensures
            final(self).current() == config,
            final(self).watched() == old(self).watched(),
            final(self).watching() == old(self).watching(),
    {
        self.config = config;
    }

    /// Whether hot-reloading is enabled.
    pub fn is_hot_reload_enabled(&self) -> (r: bool)
        ensures
            r == self.watching(),
    {
        self.watch_enabled
    }

    /// Records that hot-reloading was set up: `existing` are the requested
    /// paths that exist and are now watched. Nothing changes when nothing
    /// was requested.
    pub fn enable_hot_reload(&mut self, requested: usize, existing: Vec<String>)
        ensures
            requested == 0 ==> *final(self) == *old(self),
            requested != 0 ==> final(self).watched() == old(self).watched() + existing@,
            requested != 0 ==> final(self).watching(),
            final(self).current() == old(self).current(),
    {
        if requested == 0 {
            return;
        }
        let mut existing = existing;
        let ghost before = self.config_paths@;
        let ghost added = existing@;
        let mut i: usize = 0;
        let n = existing.len();
        let mut paths = Vec::new();
        std::mem::swap(&mut paths, &mut self.config_paths);
        while i < n
            invariant
                n == added.len(),
                i <= n,
                paths@ == before + added.take(i as int),
                existing@ == added,
            decreases n - i,
        {
            paths.push(existing[i].clone());
            assert(added.take(i + 1) =~= added.take(i as int).push(added[i as int]));
            i = i + 1;
        }
        assert(added.take(n as int) =~= added);
        self.config_paths = paths;
        self.watch_enabled = true;
    }

    /// The configuration sources in effect, highest precedence first: the
    /// environment when a Jira variable is set, then a `.env` file when
    /// there is one, then the watched configuration files (the last one
    /// registered first), then the defaults.
    pub fn get_config_sources(&self, dotenv_present: bool, jira_env_present: bool) -> (r: Vec<
        ConfigSource,
    >)
        ensures
            ({
                let lead = optional(jira_env_present, ConfigSource::Environment) + optional(
                    dotenv_present,
                    ConfigSource::DotEnv,
                );
                &&& r@.len() == lead.len() + self.watched().len() + 1
                &&& r@.take(lead.len() as int) == lead
                &&& forall|i: int|
                    0 <= i < self.watched().len() ==> {
                        let p = self.watched()[self.watched().len() - 1 - i];
                        match format_for_extension(path_extension(p@)) {
                            ConfigFileFormat::Yaml => #[trigger] r@[lead.len() + i]
                                == ConfigSource::Yaml(p),
                            ConfigFileFormat::Json => r@[lead.len() + i] == ConfigSource::Json(p),
                            ConfigFileFormat::Toml => r@[lead.len() + i] == ConfigSource::Toml(p),
                        }
                    }
                &&& r@.last() == ConfigSource::Default
            }),
    {
        let mut sources: Vec<ConfigSource> = Vec::new();
        if jira_env_present {
            sources.push(ConfigSource::Environment);
        }
        if dotenv_present {
            sources.push(ConfigSource::DotEnv);
        }
        let ghost lead = sources@;
        assert(lead =~= optional(jira_env_present, ConfigSource::Environment) + optional(
            dotenv_present,
            ConfigSource::DotEnv,
        ));
        let n = self.config_paths.len();
        let ghost paths = self.config_paths@;
        let mut i: usize = n;
        while i > 0
            invariant
                n == paths.len(),
                paths == self.config_paths@,
                i <= n,
                sources@.len() == lead.len() + n - i,
                sources@.take(lead.len() as int) == lead,
                forall|k: int|
                    0 <= k < n - i ==> {
                        let p = paths[n - 1 - k];
                        match format_for_extension(path_extension(p@)) {
                            ConfigFileFormat::Yaml => #[trigger] sources@[lead.len() + k]
                                == ConfigSource::Yaml(p),
                            ConfigFileFormat::Json => sources@[lead.len() + k] == ConfigSource::Json(p),
                            ConfigFileFormat::Toml => sources@[lead.len() + k] == ConfigSource::Toml(p),
                        }
                    },
            decreases i,
        {
            i = i - 1;
            let source = source_for_path(self.config_paths[i].clone());
            let ghost before = sources@;
            sources.push(source);
            assert(sources@.take(lead.len() as int) =~= before.take(lead.len() as int));
        }
        let ghost before = sources@;
        sources.push(ConfigSource::Default);
        assert(sources@.take(lead.len() as int) =~= before.take(lead.len() as int));
        sources
    }

    /// The problems strict validation finds in settings, in order.
    pub fn config_errors(config: &JiraConfig) -> (r: Vec<ConfigValidationError>)
        ensures
            views_of(r@) == config_problems(*config),
    {
        let mut errors: Vec<ConfigValidationError> = Vec::new();
        if config.email.as_str().unicode_len() == 0 {
            errors.push(ConfigValidationError::MissingRequiredField(String::from_str("email")));
        } else if !check_email_format(config.email.as_str()) {
            errors.push(ConfigValidationError::InvalidEmail(config.email.clone()));
        }
        let ghost e1 = errors@;
        if config.personal_access_token.as_str().unicode_len() == 0 {
            errors.push(
                ConfigValidationError::MissingRequiredField(String::from_str("personal_access_token")),
            );
        }
        let ghost e2 = errors@;
        if !check_url_format(config.api_base_url.as_str()) {
            errors.push(
                ConfigValidationError::InvalidUrl(
                    String::from_str("api_base_url"),
                    config.api_base_url.clone(),
                ),
            );
        }
        let ghost e3 = errors@;
        if let Some(max_results) = config.max_results {
            if max_results == 0 || max_results > 1000 {
                errors.push(
                    ConfigValidationError::InvalidRange(
                        String::from_str("max_results"),
                        max_results as i64,
                        1,
                        1000,
                    ),
                );
            }
        }
        let ghost e4 = errors@;
        if let Some(timeout) = config.timeout_seconds {
            if timeout == 0 || timeout > 300 {
                let shown: i64 = if timeout <= i64::MAX as u64 {
                    timeout as i64
                } else {
                    300
                };
                errors.push(
                    ConfigValidationError::InvalidRange(
                        String::from_str("timeout_seconds"),
                        shown,
                        1,
                        300,
                    ),
                );
            }
        }
        proof {
            let c = *config;
            let email = if c.email@.len() == 0 {
                seq![ValidationErrorView::MissingRequiredField("email"@)]
            } else {
                optional(!is_valid_email(c.email@), ValidationErrorView::InvalidEmail(c.email@))
            };
            assert(views_of(e1) =~= email);
            assert(views_of(e2) =~= email + optional(
                c.personal_access_token@.len() == 0,
                ValidationErrorView::MissingRequiredField("personal_access_token"@),
            ));
            assert(views_of(errors@) =~= config_problems(c));
        }
        errors
    }

    /// Strict validation: all problems are errors when `fail_on_missing`;
    /// otherwise they come back as warnings.
    pub fn validate_config(config: &JiraConfig, fail_on_missing: bool) -> (r: Result<
        Vec<ConfigValidationError>,
        ConfigValidationError,
    >)
        ensures
            (fail_on_missing && config_problems(*config).len() > 0) ==> (r matches Err(e) && e@
                == ValidationErrorView::ValidationFailed(config_problems(*config))),
            !(fail_on_missing && config_problems(*config).len() > 0) ==> (r matches Ok(w) && views_of(
                w@,
            ) == config_problems(*config)),
    {
        let errors = Self::config_errors(config);
        if errors.len() > 0 && fail_on_missing {
            let e = ConfigValidationError::ValidationFailed(errors);
            proof {
                assert(e@->ValidationFailed_0 =~= views_of(errors@));
            }
            return Err(e);
        }
        Ok(errors)
    }
}

impl Default for ConfigManager {
    fn default() -> (r: Self)
        ensures
            r.watched().len() == 0,
            !r.watching(),
            crate::config::jira::is_default_config(r.current()),
    {
        Self::new()
    }
}

/// Strict validation reports the base URL exactly when it starts with
/// neither `http://` nor `https://`, and then as an invalid URL of the
/// field `api_base_url` holding the URL as given.
#[verifier::spinoff_prover]
#[verifier::rlimit(40)]
pub proof fn law_strict_validation_flags_non_http_base_urls(c: JiraConfig)
    ensures
        config_problems(c).contains(ValidationErrorView::InvalidUrl("api_base_url"@, c.api_base_url@)) <==> !(
        text::has_prefix(c.api_base_url@, "http://"@) || text::has_prefix(c.api_base_url@, "https://"@)),
        forall|i: int|
            0 <= i < config_problems(c).len() && (#[trigger] config_problems(c)[i]) is InvalidUrl
                ==> config_problems(c)[i] == ValidationErrorView::InvalidUrl("api_base_url"@, c.api_base_url@),
{
    let bad = ValidationErrorView::InvalidUrl("api_base_url"@, c.api_base_url@);
    let email = if c.email@.len() == 0 {
        seq![ValidationErrorView::MissingRequiredField("email"@)]
    } else {
        optional(!is_valid_email(c.email@), ValidationErrorView::InvalidEmail(c.email@))
    };
    let token = optional(
        c.personal_access_token@.len() == 0,
        ValidationErrorView::MissingRequiredField("personal_access_token"@),
    );
    let url = optional(!is_valid_url(c.api_base_url@), bad);
    let max_results = match c.max_results {
        Some(m) => optional(
            m == 0 || m > 1000,
            ValidationErrorView::InvalidRange("max_results"@, m as int, 1, 1000),
        ),
        None => Seq::empty(),
    };
    let timeout = match c.timeout_seconds {
        Some(t) => optional(
            t == 0 || t > 300,
            ValidationErrorView::InvalidRange(
                "timeout_seconds"@,
                if t <= i64::MAX {
                    t as int
                } else {
                    300
                },
                1,
                300,
            ),
        ),
        None => Seq::empty(),
    };
    let all = config_problems(c);
    assert(all == email + token + url + max_results + timeout);
    let head = email + token;
    assert forall|i: int| 0 <= i < all.len() && (#[trigger] all[i]) is InvalidUrl implies all[i] == bad by {
        if i < head.len() {
            if i < email.len() {
                assert(all[i] == email[i]);
            } else {
                assert(all[i] == token[i - email.len()]);
            }
        } else if i < head.len() + url.len() {
            assert(all[i] == url[i - head.len()]);
        } else if i < head.len() + url.len() + max_results.len() {
            assert(all[i] == max_results[i - head.len() - url.len()]);
        } else {
            assert(all[i] == timeout[i - head.len() - url.len() - max_results.len()]);
        }
    }
    if !is_valid_url(c.api_base_url@) {
        assert(all[head.len() as int] == bad);
    } else {
        assert(url.len() == 0);
        if all.contains(bad) {
            let i = choose|i: int| 0 <= i < all.len() && all[i] == bad;
            assert(all[i] is InvalidUrl);
            assert(false);
        }
    }
}

} // verus!
