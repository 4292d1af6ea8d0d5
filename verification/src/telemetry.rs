//! Opt-in, platform-only telemetry: the guard held while it runs and the
//! settings that administrators read and update.

use vstd::prelude::*;
use vstd::string::*;

use crate::entities::opt_text;
use crate::validation::{broken, check_length, finish, is_url, length_within, note, url_parses,
    validation_outcome, FieldError, Rule, refused_for, lemma_outcome_reports_violations,
    lemma_broken_lists_only_its_rule};
use vstd::seq_lib::lemma_seq_concat_contains_all_elements;

verus! {

/// Held while platform telemetry is set up; records whether it is enabled.
#[derive(Debug)]
pub struct TelemetryGuard {
    enabled: bool,
}

impl TelemetryGuard {
    /// A guard for telemetry that is enabled or not.
    pub fn new(enabled: bool) -> (r: Self)
        ensures
            r.is_enabled_spec() == enabled,
    {
        TelemetryGuard { enabled }
    }

    /// Whether telemetry is enabled.
    pub closed spec fn is_enabled_spec(&self) -> bool {
        self.enabled
    }

    /// Whether telemetry is enabled.
    pub fn is_enabled(&self) -> (r: bool)
        ensures
            r == self.is_enabled_spec(),
    {
        self.enabled
    }
}

/// Ends platform telemetry. Nothing is buffered, so this always succeeds.
pub fn shutdown(guard: TelemetryGuard) -> (r: Result<(), anyhow::Error>)
    ensures
        r is Ok,
{
    Ok(())
}

/// The telemetry settings that administrators see and submit.
#[derive(Debug, Clone)]
pub struct TelemetrySettings {
    pub enabled: bool,
    pub service_name: String,
    pub otlp_endpoint: Option<String>,
    pub platform_only: bool,
}

/// The rules submitted settings break: a service name of 1 to 120
/// characters and an exporter endpoint, when given, that parses as a URL.
pub open spec fn settings_violations(s: TelemetrySettings) -> Seq<(Seq<char>, Rule)> {
    broken(length_within(s.service_name@, 1, Some(120)), "service_name"@, Rule::Length) + broken(
        match opt_text(s.otlp_endpoint) {
            Some(e) => url_parses(e),
            None => true,
        },
        "otlp_endpoint"@,
        Rule::Url,
    )
}

/// What submitted settings are refused for: a service name with fewer than
/// 1 or more than 120 characters, an exporter endpoint given that does not
/// parse as a URL. They are accepted exactly when neither holds.
pub proof fn lemma_settings_rules(s: TelemetrySettings, outcome: Result<(), Vec<FieldError>>)
    requires
        validation_outcome(outcome, settings_violations(s)),
    ensures
        refused_for(outcome, "service_name"@, Rule::Length) <==> (s.service_name@.len() < 1
            || s.service_name@.len() > 120),
        refused_for(outcome, "otlp_endpoint"@, Rule::Url) <==> (opt_text(s.otlp_endpoint) matches Some(
            e,
        ) && !url_parses(e)),
        outcome is Ok <==> (1 <= s.service_name@.len() <= 120 && !(opt_text(s.otlp_endpoint) matches Some(
            e,
        ) && !url_parses(e))),
{
    broadcast use {lemma_seq_concat_contains_all_elements, lemma_broken_lists_only_its_rule};

    let v = settings_violations(s);
    lemma_outcome_reports_violations(outcome, v, "service_name"@, Rule::Length);
    lemma_outcome_reports_violations(outcome, v, "otlp_endpoint"@, Rule::Url);
}

impl TelemetrySettings {
    /// The settings in force: telemetry never covers hosted applications, so
    /// they are always platform-only.
    pub fn current(enabled: bool, service_name: String, otlp_endpoint: Option<String>) -> (r: Self)
        ensures
            r.enabled == enabled,
            r.service_name@ == service_name@,
            opt_text(r.otlp_endpoint) == opt_text(otlp_endpoint),
            r.platform_only,
    {
        TelemetrySettings { enabled, service_name, otlp_endpoint, platform_only: true }
    }

    /// The settings an update answers with: what was submitted, except that
    /// they stay platform-only whatever was asked.
    pub fn accept_update(self) -> (r: Self)
        ensures
            r.enabled == self.enabled,
            r.service_name@ == self.service_name@,
            opt_text(r.otlp_endpoint) == opt_text(self.otlp_endpoint),
            r.platform_only,
    {
        TelemetrySettings { platform_only: true, ..self }
    }

    /// Checks submitted settings against their rules.
    pub fn validate(&self) -> (r: Result<(), Vec<FieldError>>)
        ensures
            validation_outcome(r, settings_violations(*self)),
            refused_for(r, "service_name"@, Rule::Length) <==> (self.service_name@.len() < 1
                || self.service_name@.len() > 120),
            refused_for(r, "otlp_endpoint"@, Rule::Url) <==> (opt_text(self.otlp_endpoint) matches Some(
                e,
            ) && !url_parses(e)),
            r is Ok <==> (1 <= self.service_name@.len() <= 120 && !(opt_text(self.otlp_endpoint) matches Some(
                e,
            ) && !url_parses(e))),
    {
        let mut errors: Vec<FieldError> = Vec::new();
        note(
            &mut errors,
            check_length(self.service_name.as_str(), 1, Some(120)),
            "service_name",
            Rule::Length,
        );
        let endpoint_ok = match &self.otlp_endpoint {
            Some(e) => is_url(e.as_str()),
            None => true,
        };
        note(&mut errors, endpoint_ok, "otlp_endpoint", Rule::Url);
        assert(errors@.map_values(|e: FieldError| crate::validation::field_error_text(e))
            =~= settings_violations(*self));
        let r = finish(errors);
        proof {
            lemma_settings_rules(*self, r);
        }
        r
    }
}

} // verus!
