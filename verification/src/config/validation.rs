//! Field validation rules for configuration values and the errors they report.
use crate::text;
use crate::text::{
    all_alphanumeric, append_decimal, append_signed_decimal, append_str, contains_char, parse_i64,
    starts_with_str, str_equal,
};
use vstd::prelude::*;
use vstd::string::*;

verus! {

/// Configuration validation errors with detailed information.
pub enum ConfigValidationError {
    /// A required field is missing
    MissingRequiredField(String),
    /// Invalid email format
    InvalidEmail(String),
    /// Invalid URL format: field, url
    InvalidUrl(String, String),
    /// Value is outside valid range: field, value, min, max
    InvalidRange(String, i64, i64, i64),
    /// Invalid file path: field, path
    InvalidFilePath(String, String),
    /// Configuration file not found
    ConfigFileNotFound(String),
    /// Configuration file parse error: file, error
    ConfigFileParseError(String, String),
    /// Multiple validation errors
    ValidationFailed(Vec<ConfigValidationError>),
    /// Environment variable not set
    MissingEnvironmentVariable(String),
    /// Invalid environment variable value: variable, value
    InvalidEnvironmentVariable(String, String),
}

/// The mathematical form of a [`ConfigValidationError`].
pub enum ValidationErrorView {
    MissingRequiredField(Seq<char>),
    InvalidEmail(Seq<char>),
    InvalidUrl(Seq<char>, Seq<char>),
    InvalidRange(Seq<char>, int, int, int),
    InvalidFilePath(Seq<char>, Seq<char>),
    ConfigFileNotFound(Seq<char>),
    ConfigFileParseError(Seq<char>, Seq<char>),
    ValidationFailed(Seq<ValidationErrorView>),
    MissingEnvironmentVariable(Seq<char>),
    InvalidEnvironmentVariable(Seq<char>, Seq<char>),
}

/// The views of a sequence of errors, element by element.
pub open spec fn error_views(errors: Seq<ConfigValidationError>) -> Seq<ValidationErrorView>
    decreases errors.len(),
{
    if errors.len() == 0 {
        Seq::empty()
    } else {
        error_views(errors.drop_last()).push(error_view(errors.last()))
    }
}

/// The view of one error.
pub open spec fn error_view(e: ConfigValidationError) -> ValidationErrorView
    decreases e,
{
    match e {
        ConfigValidationError::MissingRequiredField(f) => ValidationErrorView::MissingRequiredField(
            f@,
        ),
        ConfigValidationError::InvalidEmail(m) => ValidationErrorView::InvalidEmail(m@),
        ConfigValidationError::InvalidUrl(f, u) => ValidationErrorView::InvalidUrl(f@, u@),
        ConfigValidationError::InvalidRange(f, v, lo, hi) => ValidationErrorView::InvalidRange(
            f@,
            v as int,
            lo as int,
            hi as int,
        ),
        ConfigValidationError::InvalidFilePath(f, p) => ValidationErrorView::InvalidFilePath(f@, p@),
        ConfigValidationError::ConfigFileNotFound(f) => ValidationErrorView::ConfigFileNotFound(f@),
        ConfigValidationError::ConfigFileParseError(f, m) => ValidationErrorView::ConfigFileParseError(
            f@,
            m@,
        ),
        ConfigValidationError::ValidationFailed(errors) => ValidationErrorView::ValidationFailed(
            Seq::new(
                errors@.len(),
                |i: int|
                    if 0 <= i < errors@.len() {
                        error_view(errors@[i])
                    } else {
                        ValidationErrorView::ValidationFailed(Seq::empty())
                    },
            ),
        ),
        ConfigValidationError::MissingEnvironmentVariable(v) => ValidationErrorView::MissingEnvironmentVariable(v@),
        ConfigValidationError::InvalidEnvironmentVariable(v, x) => ValidationErrorView::InvalidEnvironmentVariable(v@, x@),
    }
}

impl View for ConfigValidationError {
    type V = ValidationErrorView;

    open spec fn view(&self) -> ValidationErrorView {
        error_view(*self)
    }
}

/// The human-readable message of an error (what the error displays as).
pub open spec fn error_message(e: ValidationErrorView) -> Seq<char>
    decreases e, 1int,
{
    match e {
        ValidationErrorView::MissingRequiredField(f) => "Required field '"@ + f + "' is missing"@,
        ValidationErrorView::InvalidEmail(m) => "Invalid email format: '"@ + m + "'"@,
        ValidationErrorView::InvalidUrl(f, u) => "Invalid URL in field '"@ + f + "': '"@ + u + "'"@,
        ValidationErrorView::InvalidRange(f, v, lo, hi) => "Field '"@ + f + "' value "@
            + text::signed_decimal(v) + " is outside valid range ["@ + text::signed_decimal(lo) + ", "@
            + text::signed_decimal(hi) + "]"@,
        ValidationErrorView::InvalidFilePath(f, p) => "Invalid file path in field '"@ + f + "': '"@
            + p + "'"@,
        ValidationErrorView::ConfigFileNotFound(f) => "Configuration file not found: '"@ + f + "'"@,
        ValidationErrorView::ConfigFileParseError(f, m) => "Failed to parse configuration file '"@
            + f + "': "@ + m,
        ValidationErrorView::ValidationFailed(errors) => "Configuration validation failed with "@
            + text::decimal(errors.len()) + " errors:"@ + error_list_message(errors),
        ValidationErrorView::MissingEnvironmentVariable(v) => "Required environment variable '"@ + v
            + "' is not set"@,
        ValidationErrorView::InvalidEnvironmentVariable(v, x) =>
            "Invalid value for environment variable '"@ + v + "': '"@ + x + "'"@,
    }
}

/// Each error of the list on a line of its own, bulleted.
pub open spec fn error_list_message(errors: Seq<ValidationErrorView>) -> Seq<char>
    decreases errors, 0int,
{
    if errors.len() == 0 {
        Seq::empty()
    } else {
        error_list_message(errors.drop_last()) + "\n  - "@ + error_message(errors.last())
    }
}

impl ConfigValidationError {
    /// The human-readable message of the error.
    pub fn to_string(&self) -> (r: String)
        ensures
            r@ == error_message(self@),
        decreases self,
    {
        match self {
            ConfigValidationError::MissingRequiredField(f) => {
                let mut out = String::from_str("Required field '");
                append_str(&mut out, f.as_str());
                append_str(&mut out, "' is missing");
                out
            },
            ConfigValidationError::InvalidEmail(m) => {
                let mut out = String::from_str("Invalid email format: '");
                append_str(&mut out, m.as_str());
                append_str(&mut out, "'");
                out
            },
            ConfigValidationError::InvalidUrl(f, u) => {
                let mut out = String::from_str("Invalid URL in field '");
                append_str(&mut out, f.as_str());
                append_str(&mut out, "': '");
                append_str(&mut out, u.as_str());
                append_str(&mut out, "'");
                out
            },
            ConfigValidationError::InvalidRange(f, v, lo, hi) => {
                let mut out = String::from_str("Field '");
                append_str(&mut out, f.as_str());
                append_str(&mut out, "' value ");
                append_signed_decimal(&mut out, *v);
                append_str(&mut out, " is outside valid range [");
                append_signed_decimal(&mut out, *lo);
                append_str(&mut out, ", ");
                append_signed_decimal(&mut out, *hi);
                append_str(&mut out, "]");
                out
            },
            ConfigValidationError::InvalidFilePath(f, p) => {
                let mut out = String::from_str("Invalid file path in field '");
                append_str(&mut out, f.as_str());
                append_str(&mut out, "': '");
                append_str(&mut out, p.as_str());
                append_str(&mut out, "'");
                out
            },
            ConfigValidationError::ConfigFileNotFound(f) => {
                let mut out = String::from_str("Configuration file not found: '");
                append_str(&mut out, f.as_str());
                append_str(&mut out, "'");
                out
            },
            ConfigValidationError::ConfigFileParseError(f, m) => {
                let mut out = String::from_str("Failed to parse configuration file '");
                append_str(&mut out, f.as_str());
                append_str(&mut out, "': ");
                append_str(&mut out, m.as_str());
                out
            },
            ConfigValidationError::ValidationFailed(errors) => {
                let ghost views = self@->ValidationFailed_0;
                let mut out = String::from_str("Configuration validation failed with ");
                append_decimal(&mut out, errors.len() as u64);
                append_str(&mut out, " errors:");
                let ghost head = out@;
                assert(views.take(0) =~= Seq::<ValidationErrorView>::empty());
                let mut i: usize = 0;
                while i < errors.len()
                    invariant
                        self is ValidationFailed,
                        self->ValidationFailed_0 == *errors,
                        views == self@->ValidationFailed_0,
                        i <= errors@.len(),
                        views.len() == errors@.len(),
                        forall|j: int| 0 <= j < errors@.len() ==> views[j] == error_view(#[trigger] errors@[j]),
                        out@ == head + error_list_message(views.take(i as int)),
                    decreases errors@.len() - i,
                {
                    proof {
                        assert(decreases_to!(*self => self->ValidationFailed_0));
                        assert(decreases_to!(*errors => errors@));
                        assert(decreases_to!(errors@ => errors@[i as int]));
                        assert(decreases_to!(*self => errors@[i as int]));
                    }
                    let m = errors[i].to_string();
                    append_str(&mut out, "\n  - ");
                    append_str(&mut out, m.as_str());
                    assert(views.take(i + 1).drop_last() =~= views.take(i as int));
                    i = i + 1;
                }
                assert(views.take(i as int) =~= views);
                out
            },
            ConfigValidationError::MissingEnvironmentVariable(v) => {
                let mut out = String::from_str("Required environment variable '");
                append_str(&mut out, v.as_str());
                append_str(&mut out, "' is not set");
                out
            },
            ConfigValidationError::InvalidEnvironmentVariable(v, x) => {
                let mut out = String::from_str("Invalid value for environment variable '");
                append_str(&mut out, v.as_str());
                append_str(&mut out, "': '");
                append_str(&mut out, x.as_str());
                append_str(&mut out, "'");
                out
            },
        }
    }
}

/// A custom check applied to a field's value after the built-in rules.
///
/// `accepts` says which values pass; `rejection` is the reason reported for
/// a value that does not.
pub trait FieldCheck {
    spec fn accepts(&self, value: Seq<char>) -> bool;

    spec fn rejection(&self, value: Seq<char>) -> Seq<char>;

    fn check(&self, value: &str) -> (r: Result<(), String>)
        ensures
            r is Ok <==> self.accepts(value@),
            r matches Err(m) ==> m@ == self.rejection(value@),
    ;
}

/// Configuration validation rule for one field.
pub struct ValidationRule<C> {
    pub field: String,
    pub required: bool,
    pub min_length: Option<usize>,
    pub max_length: Option<usize>,
    pub min_value: Option<i64>,
    pub max_value: Option<i64>,
    pub pattern: Option<String>,
    pub custom_validator: Option<C>,
}

impl<C: FieldCheck> ValidationRule<C> {
    /// A rule for `field` that checks nothing yet.
    pub fn new(field: String) -> (r: Self)
        ensures
            r.field == field,
            !r.required,
            r.min_length is None,
            r.max_length is None,
            r.min_value is None,
            r.max_value is None,
            r.pattern is None,
            r.custom_validator is None,
    {
        ValidationRule {
            field,
            required: false,
            min_length: None,
            max_length: None,
            min_value: None,
            max_value: None,
            pattern: None,
            custom_validator: None,
        }
    }

    /// The same rule, with the field required to be non-empty.
    pub fn required(self) -> (r: Self)
        ensures
            r == (ValidationRule { required: true, ..self }),
    {
        ValidationRule { required: true, ..self }
    }

    /// The same rule, with a minimum length in bytes.
    pub fn min_length(self, min: usize) -> (r: Self)
        ensures
            r == (ValidationRule { min_length: Some(min), ..self }),
    {
        ValidationRule { min_length: Some(min), ..self }
    }

    /// The same rule, with a custom check.
    pub fn custom_validator(self, validator: C) -> (r: Self)
        ensures
            r == (ValidationRule { custom_validator: Some(validator), ..self }),
    {
        ValidationRule { custom_validator: Some(validator), ..self }
    }
}

/// A length converted to `i64`, or `fallback` when it does not fit.
pub open spec fn length_as_i64(n: int, fallback: int) -> int {
    if n <= i64::MAX {
        n
    } else {
        fallback
    }
}

/// Whether `value` matches one of the named patterns; unknown patterns match everything.
pub open spec fn pattern_matches(value: Seq<char>, pattern: Seq<char>) -> bool {
    if pattern == "email"@ {
        value.contains('@') && value.contains('.')
    } else if pattern == "url"@ {
        text::has_prefix(value, "http://"@) || text::has_prefix(value, "https://"@)
    } else if pattern == "alphanumeric"@ {
        forall|i: int| 0 <= i < value.len() ==> text::char_alphanumeric(#[trigger] value[i])
    } else {
        true
    }
}

/// The error (if any) that a rule reports for a value whose length in bytes is `byte_len`.
/// The checks apply in order and the first that fails decides.
pub open spec fn rule_outcome<C: FieldCheck>(
    rule: ValidationRule<C>,
    value: Seq<char>,
    byte_len: int,
) -> Option<ValidationErrorView> {
    if rule.required && value.len() == 0 {
        Some(ValidationErrorView::MissingRequiredField(rule.field@))
    } else if value.len() == 0 {
        None
    } else if rule.min_length is Some && byte_len < rule.min_length->0 {
        Some(
            ValidationErrorView::InvalidRange(
                rule.field@,
                length_as_i64(byte_len, i64::MAX as int),
                length_as_i64(rule.min_length->0 as int, i64::MAX as int),
                i64::MAX as int,
            ),
        )
    } else if rule.max_length is Some && byte_len > rule.max_length->0 {
        Some(
            ValidationErrorView::InvalidRange(
                rule.field@,
                length_as_i64(byte_len, 0),
                0,
                length_as_i64(rule.max_length->0 as int, i64::MAX as int),
            ),
        )
    } else if rule.min_value is Some && rule.max_value is Some && text::parsed_integer(
        value,
        i64::MIN as int,
        i64::MAX as int,
    ) is Some && (text::parsed_integer(value, i64::MIN as int, i64::MAX as int)->0
        < rule.min_value->0 || text::parsed_integer(value, i64::MIN as int, i64::MAX as int)->0
        > rule.max_value->0) {
        Some(
            ValidationErrorView::InvalidRange(
                rule.field@,
                text::parsed_integer(value, i64::MIN as int, i64::MAX as int)->0,
                rule.min_value->0 as int,
                rule.max_value->0 as int,
            ),
        )
    } else if rule.pattern is Some && !pattern_matches(value, rule.pattern->0@) {
        Some(ValidationErrorView::InvalidEnvironmentVariable(rule.field@, value))
    } else if rule.custom_validator is Some && !rule.custom_validator->0.accepts(value) {
        Some(
            ValidationErrorView::InvalidEnvironmentVariable(
                rule.field@,
                value + ": "@ + rule.custom_validator->0.rejection(value),
            ),
        )
    } else {
        None
    }
}

/// What the rules for `field` report on a value, taken in the order they
/// were added: the outcome of the first one that fails, if any.
pub open spec fn first_failure<C: FieldCheck>(
    rules: Seq<ValidationRule<C>>,
    field: Seq<char>,
    value: Seq<char>,
    byte_len: int,
) -> Option<ValidationErrorView>
    decreases rules.len(),
{
    if rules.len() == 0 {
        None
    } else {
        let earlier = first_failure(rules.drop_last(), field, value, byte_len);
        if earlier is Some {
            earlier
        } else if rules.last().field@ == field {
            rule_outcome(rules.last(), value, byte_len)
        } else {
            None
        }
    }
}

/// A field without rules is valid, whatever its value.
pub proof fn law_field_without_rules_is_valid<C: FieldCheck>(
    rules: Seq<ValidationRule<C>>,
    field: Seq<char>,
    value: Seq<char>,
    byte_len: int,
)
    requires
        forall|j: int| 0 <= j < rules.len() ==> (#[trigger] rules[j]).field@ != field,
    ensures
        first_failure(rules, field, value, byte_len) is None,
    decreases rules.len(),
{
    if rules.len() > 0 {
        law_field_without_rules_is_valid(rules.drop_last(), field, value, byte_len);
    }
}

/// A field with a single rule gets that rule's outcome.
pub proof fn law_single_rule_decides<C: FieldCheck>(
    rules: Seq<ValidationRule<C>>,
    k: int,
    field: Seq<char>,
    value: Seq<char>,
    byte_len: int,
)
    requires
        0 <= k < rules.len(),
        rules[k].field@ == field,
        forall|j: int| 0 <= j < rules.len() && j != k ==> (#[trigger] rules[j]).field@ != field,
    ensures
        first_failure(rules, field, value, byte_len) == rule_outcome(rules[k], value, byte_len),
    decreases rules.len(),
{
    if k == rules.len() - 1 {
        law_field_without_rules_is_valid(rules.drop_last(), field, value, byte_len);
    } else {
        law_single_rule_decides(rules.drop_last(), k, field, value, byte_len);
    }
}

/// Adding a rule keeps what the earlier rules report: a field they refuse
/// stays refused for the same reason; otherwise the new rule decides for
/// its own field and other fields are unaffected.
pub proof fn law_add_rule_keeps_earlier_failures<C: FieldCheck>(
    rules: Seq<ValidationRule<C>>,
    rule: ValidationRule<C>,
    field: Seq<char>,
    value: Seq<char>,
    byte_len: int,
)
    ensures
        first_failure(rules.push(rule), field, value, byte_len) == if first_failure(
            rules,
            field,
            value,
            byte_len,
        ) is Some {
            first_failure(rules, field, value, byte_len)
        } else if rule.field@ == field {
            rule_outcome(rule, value, byte_len)
        } else {
            None
        },
{
    assert(rules.push(rule).drop_last() =~= rules);
}

proof fn lemma_failure_in_prefix<C: FieldCheck>(
    rules: Seq<ValidationRule<C>>,
    k: int,
    field: Seq<char>,
    value: Seq<char>,
    byte_len: int,
)
    requires
        0 <= k <= rules.len(),
        first_failure(rules.take(k), field, value, byte_len) is Some,
    ensures
        first_failure(rules, field, value, byte_len) == first_failure(rules.take(k), field, value, byte_len),
    decreases rules.len(),
{
    if k == rules.len() {
        assert(rules.take(k) =~= rules);
    } else {
        assert(rules.drop_last().take(k) =~= rules.take(k));
        lemma_failure_in_prefix(rules.drop_last(), k, field, value, byte_len);
    }
}

/// Configuration validator that applies rules to configuration values.
pub struct ConfigValidator<C> {
    rules: Vec<ValidationRule<C>>,
}

impl<C: FieldCheck> ConfigValidator<C> {
    /// The rules, in the order they were added.
    pub closed spec fn rules(&self) -> Seq<ValidationRule<C>> {
        self.rules@
    }

    /// A validator with no rules.
    pub fn new() -> (r: Self)
        ensures
            r.rules() == Seq::<ValidationRule<C>>::empty(),
    {
        ConfigValidator { rules: Vec::new() }
    }

    /// The same validator with one more rule at the end.
    pub fn add_rule(self, rule: ValidationRule<C>) -> (r: Self)
        ensures
            r.rules() == self.rules().push(rule),
    {
        let mut rules = self.rules;
        rules.push(rule);
        ConfigValidator { rules }
    }

    /// Validates a field value against all the rules for that field, in
    /// the order they were added; the first rule that fails decides, and a
    /// field without rules is valid.
    pub fn validate(&self, field: &str, value: &str) -> (r: Result<(), ConfigValidationError>)
        ensures
            r is Ok <==> first_failure(self.rules(), field@, value@, text::str_byte_len(value@)) is None,
            r matches Err(e) ==> first_failure(self.rules(), field@, value@, text::str_byte_len(value@))
                == Some(e@),
    {
        let ghost byte_len = text::str_byte_len(value@);
        let n = self.rules.len();
        let mut i: usize = 0;
        while i < n
            invariant
                n == self.rules@.len(),
                i <= n,
                byte_len == text::str_byte_len(value@),
                first_failure(self.rules@.take(i as int), field@, value@, byte_len) is None,
            decreases n - i,
        {
            assert(self.rules@.take(i as int + 1).drop_last() =~= self.rules@.take(i as int));
            assert(self.rules@.take(i as int + 1).last() == self.rules@[i as int]);
            if str_equal(self.rules[i].field.as_str(), field) {
                let r = Self::validate_field(&self.rules[i], value);
                if r.is_err() {
                    proof {
                        lemma_failure_in_prefix(self.rules@, i as int + 1, field@, value@, byte_len);
                    }
                    return r;
                }
            }
            i = i + 1;
        }
        assert(self.rules@.take(n as int) =~= self.rules@);
        Ok(())
    }

    /// Applies one rule to a value.
    fn validate_field(rule: &ValidationRule<C>, value: &str) -> (r: Result<(), ConfigValidationError>)
        ensures
            r is Ok <==> rule_outcome(*rule, value@, text::str_byte_len(value@)) is None,
            r matches Err(e) ==> rule_outcome(*rule, value@, text::str_byte_len(value@)) == Some(e@),
    {
        if rule.required && value.is_empty() {
            return Err(ConfigValidationError::MissingRequiredField(rule.field.clone()));
        }
        if value.is_empty() {
            return Ok(());
        }
        let byte_len: usize = value.len();
        if let Some(min_len) = rule.min_length {
            if byte_len < min_len {
                return Err(
                    ConfigValidationError::InvalidRange(
                        rule.field.clone(),
                        usize_as_i64_or(byte_len, i64::MAX),
                        usize_as_i64_or(min_len, i64::MAX),
                        i64::MAX,
                    ),
                );
            }
        }
        if let Some(max_len) = rule.max_length {
            if byte_len > max_len {
                return Err(
                    ConfigValidationError::InvalidRange(
                        rule.field.clone(),
                        usize_as_i64_or(byte_len, 0),
                        0,
                        usize_as_i64_or(max_len, i64::MAX),
                    ),
                );
            }
        }
        if let (Some(min_val), Some(max_val)) = (rule.min_value, rule.max_value) {
            if let Some(num_value) = parse_i64(value) {
                if num_value < min_val || num_value > max_val {
                    return Err(
                        ConfigValidationError::InvalidRange(
                            rule.field.clone(),
                            num_value,
                            min_val,
                            max_val,
                        ),
                    );
                }
            }
        }
        if let Some(pattern) = &rule.pattern {
            if !Self::matches_pattern(value, pattern.as_str()) {
                return Err(
                    ConfigValidationError::InvalidEnvironmentVariable(
                        rule.field.clone(),
                        String::from_str(value),
                    ),
                );
            }
        }
        if let Some(validator) = &rule.custom_validator {
            if let Err(error) = validator.check(value) {
                let mut message = String::from_str(value);
                append_str(&mut message, ": ");
                append_str(&mut message, error.as_str());
                return Err(
                    ConfigValidationError::InvalidEnvironmentVariable(rule.field.clone(), message),
                );
            }
        }
        Ok(())
    }

    /// Whether `value` matches the named pattern.
    fn matches_pattern(value: &str, pattern: &str) -> (r: bool)
        ensures
            r == pattern_matches(value@, pattern@),
    {
        if str_equal(pattern, "email") {
            contains_char(value, '@') && contains_char(value, '.')
        } else if str_equal(pattern, "url") {
            starts_with_str(value, "http://") || starts_with_str(value, "https://")
        } else if str_equal(pattern, "alphanumeric") {
            all_alphanumeric(value)
        } else {
            true
        }
    }
}

impl<C: FieldCheck> Default for ConfigValidator<C> {
    fn default() -> (r: Self)
        ensures
            r.rules() == Seq::<ValidationRule<C>>::empty(),
    {
        Self::new()
    }
}

/// A length as an `i64`, or `fallback` when it does not fit.
pub fn usize_as_i64_or(n: usize, fallback: i64) -> (r: i64)
    ensures
        r as int == length_as_i64(n as int, fallback as int),
{
    if n as u128 <= i64::MAX as u128 {
        n as i64
    } else {
        fallback
    }
}

} // verus!
