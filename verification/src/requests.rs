//! The request bodies of the platform API, the rules each is held to, and
//! the service inputs and responses they lead to.

use uuid::Uuid;
use vstd::prelude::*;
use vstd::string::*;

use crate::docker::DeployKind;
use crate::entities::{opt_text, CreateProjectsFromTemplateInput, CreateTemplateInput};
use crate::templates::SecretCopyMode;
use crate::validation::{broken, check_length, check_optional_length, finish, length_within, note,
    optional_length_within, validation_outcome, FieldError, Rule, refused_for,
    lemma_outcome_reports_violations, lemma_broken_lists_only_its_rule};
use vstd::seq_lib::lemma_seq_concat_contains_all_elements;

verus! {

/// Registry credentials to store for a project.
#[derive(Debug, Clone)]
pub struct CreateCredentialRequest {
    pub registry: String,
    pub username: String,
    pub password: String,
}

/// A stored registry credential as the API presents it; the password is
/// never echoed back in the clear.
#[derive(Debug, Clone)]
pub struct CredentialResponse {
    pub id: Uuid,
    pub project_id: Uuid,
    pub registry: String,
    pub username: String,
    pub password: String,
}

/// An environment variable to store for a project, optionally scoped to an
/// environment or a service.
#[derive(Debug, Clone)]
pub struct CreateEnvVarRequest {
    pub environment_id: Option<Uuid>,
    pub service_id: Option<Uuid>,
    pub key: String,
    pub value: String,
}

/// A stored environment variable as the API presents it; the value is never
/// echoed back in the clear.
#[derive(Debug, Clone)]
pub struct EnvVarResponse {
    pub id: Uuid,
    pub project_id: Uuid,
    pub environment_id: Option<Uuid>,
    pub service_id: Option<Uuid>,
    pub key: String,
    pub value: String,
}

/// What the credential service needs to store a registry credential.
#[derive(Debug, Clone)]
pub struct CreateCredentialInput {
    pub project_id: Uuid,
    pub registry: String,
    pub username: String,
    pub password: String,
}

/// What the credential service needs to store an environment variable.
#[derive(Debug, Clone)]
pub struct CreateEnvVarInput {
    pub project_id: Uuid,
    pub environment_id: Option<Uuid>,
    pub service_id: Option<Uuid>,
    pub key: String,
    pub value: String,
}

/// A new environment of a project.
#[derive(Debug, Clone)]
pub struct CreateEnvironmentRequest {
    pub name: String,
}

/// A new project.
#[derive(Debug, Clone)]
pub struct CreateProjectRequest {
    pub name: String,
    pub description: Option<String>,
}

/// A new service of a project environment.
#[derive(Debug, Clone)]
pub struct CreateServiceRequest {
    pub environment_id: Uuid,
    pub name: String,
    pub deploy_kind: DeployKind,
    pub image: Option<String>,
    pub compose_file: Option<String>,
    pub dockerfile: Option<String>,
    pub internal_port: Option<u16>,
}

/// A new template made from a project.
#[derive(Debug, Clone)]
pub struct CreateTemplateRequest {
    pub name: String,
    pub description: Option<String>,
}

/// Projects to create from a template, by name.
#[derive(Debug, Clone)]
pub struct CreateProjectsFromTemplateRequest {
    pub names: Vec<String>,
    pub secret_copy_mode: SecretCopyMode,
}

/// The rules a credential request breaks: a registry of 1 to 253 characters,
/// a non-empty username and a non-empty password.
pub open spec fn credential_violations(r: CreateCredentialRequest) -> Seq<(Seq<char>, Rule)> {
    broken(length_within(r.registry@, 1, Some(253)), "registry"@, Rule::Length) + broken(
        length_within(r.username@, 1, None),
        "username"@,
        Rule::Length,
    ) + broken(length_within(r.password@, 1, None), "password"@, Rule::Length)
}

/// The rules an environment-variable request breaks: a key of 1 to 255
/// characters and a non-empty value.
pub open spec fn env_var_violations(r: CreateEnvVarRequest) -> Seq<(Seq<char>, Rule)> {
    broken(length_within(r.key@, 1, Some(255)), "key"@, Rule::Length) + broken(
        length_within(r.value@, 1, None),
        "value"@,
        Rule::Length,
    )
}

/// The rules an environment request breaks: a name of 1 to 80 characters.
pub open spec fn environment_violations(r: CreateEnvironmentRequest) -> Seq<(Seq<char>, Rule)> {
    broken(length_within(r.name@, 1, Some(80)), "name"@, Rule::Length)
}

/// The rules a project request breaks: a name of 1 to 120 characters and a
/// description, when given, of at most 500.
pub open spec fn project_violations(r: CreateProjectRequest) -> Seq<(Seq<char>, Rule)> {
    broken(length_within(r.name@, 1, Some(120)), "name"@, Rule::Length) + broken(
        optional_length_within(opt_text(r.description), 0, Some(500)),
        "description"@,
        Rule::Length,
    )
}

/// Whether an optional port is absent or between 1 and 65535.
pub open spec fn port_in_range(port: Option<u16>) -> bool {
    match port {
        Some(p) => 1 <= p && p <= 65535,
        None => true,
    }
}

/// The rules a service request breaks: a name of 1 to 120 characters, an
/// image, Compose file and Dockerfile that are non-empty when given, and an
/// internal port, when given, between 1 and 65535.
pub open spec fn service_violations(r: CreateServiceRequest) -> Seq<(Seq<char>, Rule)> {
    broken(length_within(r.name@, 1, Some(120)), "name"@, Rule::Length) + broken(
        optional_length_within(opt_text(r.image), 1, None),
        "image"@,
        Rule::Length,
    ) + broken(optional_length_within(opt_text(r.compose_file), 1, None), "compose_file"@, Rule::Length)
        + broken(optional_length_within(opt_text(r.dockerfile), 1, None), "dockerfile"@, Rule::Length)
        + broken(port_in_range(r.internal_port), "internal_port"@, Rule::Range)
}

/// The rules a template request breaks: a name of 1 to 120 characters and a
/// description, when given, of at most 500.
pub open spec fn template_violations(r: CreateTemplateRequest) -> Seq<(Seq<char>, Rule)> {
    broken(length_within(r.name@, 1, Some(120)), "name"@, Rule::Length) + broken(
        optional_length_within(opt_text(r.description), 0, Some(500)),
        "description"@,
        Rule::Length,
    )
}

/// The rules a bulk template request breaks: between 1 and 100 names.
pub open spec fn bulk_template_violations(r: CreateProjectsFromTemplateRequest) -> Seq<
    (Seq<char>, Rule),
> {
    broken(1 <= r.names@.len() <= 100, "names"@, Rule::Length)
}

/// What a service request is refused for: a name with fewer than 1 or more
/// than 120 characters; an image, Compose file or Dockerfile given empty; an
/// internal port of 0. It is accepted exactly when none of these holds.
pub proof fn lemma_service_request_rules(r: CreateServiceRequest, outcome: Result<(), Vec<FieldError>>)
    requires
        validation_outcome(outcome, service_violations(r)),
    ensures
        refused_for(outcome, "name"@, Rule::Length) <==> (r.name@.len() < 1 || r.name@.len() > 120),
        refused_for(outcome, "image"@, Rule::Length) <==> opt_text(r.image) == Some(
            Seq::<char>::empty(),
        ),
        refused_for(outcome, "compose_file"@, Rule::Length) <==> opt_text(r.compose_file) == Some(
            Seq::<char>::empty(),
        ),
        refused_for(outcome, "dockerfile"@, Rule::Length) <==> opt_text(r.dockerfile) == Some(
            Seq::<char>::empty(),
        ),
        refused_for(outcome, "internal_port"@, Rule::Range) <==> r.internal_port == Some(0u16),
        outcome is Ok <==> (1 <= r.name@.len() <= 120 && opt_text(r.image) != Some(
            Seq::<char>::empty(),
        ) && opt_text(r.compose_file) != Some(Seq::<char>::empty()) && opt_text(r.dockerfile)
            != Some(Seq::<char>::empty()) && r.internal_port != Some(0u16)),
{
    broadcast use {lemma_seq_concat_contains_all_elements, lemma_broken_lists_only_its_rule};

    reveal_strlit("name");
    reveal_strlit("image");
    reveal_strlit("compose_file");
    reveal_strlit("dockerfile");
    reveal_strlit("internal_port");
    assert("name"@.len() == 4 && "image"@.len() == 5 && "compose_file"@.len() == 12
        && "dockerfile"@.len() == 10);
    assert("name"@ != "image"@ && "name"@ != "compose_file"@ && "name"@ != "dockerfile"@);
    assert("image"@ != "compose_file"@ && "image"@ != "dockerfile"@);
    let v = service_violations(r);
    lemma_outcome_reports_violations(outcome, v, "name"@, Rule::Length);
    lemma_outcome_reports_violations(outcome, v, "image"@, Rule::Length);
    lemma_outcome_reports_violations(outcome, v, "compose_file"@, Rule::Length);
    lemma_outcome_reports_violations(outcome, v, "dockerfile"@, Rule::Length);
    lemma_outcome_reports_violations(outcome, v, "internal_port"@, Rule::Range);
    assert(opt_text(r.image) == Some(Seq::<char>::empty()) <==> !optional_length_within(
        opt_text(r.image),
        1,
        None,
    )) by {
        if let Some(t) = opt_text(r.image) {
            if t.len() == 0 {
                assert(t =~= Seq::<char>::empty());
            }
        }
    }
    assert(opt_text(r.compose_file) == Some(Seq::<char>::empty()) <==> !optional_length_within(
        opt_text(r.compose_file),
        1,
        None,
    )) by {
        if let Some(t) = opt_text(r.compose_file) {
            if t.len() == 0 {
                assert(t =~= Seq::<char>::empty());
            }
        }
    }
    assert(opt_text(r.dockerfile) == Some(Seq::<char>::empty()) <==> !optional_length_within(
        opt_text(r.dockerfile),
        1,
        None,
    )) by {
        if let Some(t) = opt_text(r.dockerfile) {
            if t.len() == 0 {
                assert(t =~= Seq::<char>::empty());
            }
        }
    }
}

/// What a credential request is refused for: a registry with fewer than 1
/// or more than 253 characters, an empty username, an empty password. It is
/// accepted exactly when none of these holds.
pub proof fn lemma_credential_request_rules(
    r: CreateCredentialRequest,
    outcome: Result<(), Vec<FieldError>>,
)
    requires
        validation_outcome(outcome, credential_violations(r)),
    ensures
        refused_for(outcome, "registry"@, Rule::Length) <==> (r.registry@.len() < 1
            || r.registry@.len() > 253),
        refused_for(outcome, "username"@, Rule::Length) <==> r.username@.len() == 0,
        refused_for(outcome, "password"@, Rule::Length) <==> r.password@.len() == 0,
        outcome is Ok <==> (1 <= r.registry@.len() <= 253 && r.username@.len() > 0
            && r.password@.len() > 0),
{
    broadcast use {lemma_seq_concat_contains_all_elements, lemma_broken_lists_only_its_rule};

    reveal_strlit("registry");
    reveal_strlit("username");
    reveal_strlit("password");
    assert("registry"@[0] == 'r' && "username"@[0] == 'u' && "password"@[0] == 'p');
    let v = credential_violations(r);
    lemma_outcome_reports_violations(outcome, v, "registry"@, Rule::Length);
    lemma_outcome_reports_violations(outcome, v, "username"@, Rule::Length);
    lemma_outcome_reports_violations(outcome, v, "password"@, Rule::Length);
}

/// What an environment-variable request is refused for: a key with fewer
/// than 1 or more than 255 characters, an empty value. It is accepted
/// exactly when neither holds.
pub proof fn lemma_env_var_request_rules(r: CreateEnvVarRequest, outcome: Result<(), Vec<FieldError>>)
    requires
        validation_outcome(outcome, env_var_violations(r)),
    ensures
        refused_for(outcome, "key"@, Rule::Length) <==> (r.key@.len() < 1 || r.key@.len() > 255),
        refused_for(outcome, "value"@, Rule::Length) <==> r.value@.len() == 0,
        outcome is Ok <==> (1 <= r.key@.len() <= 255 && r.value@.len() > 0),
{
    broadcast use {lemma_seq_concat_contains_all_elements, lemma_broken_lists_only_its_rule};

    reveal_strlit("key");
    reveal_strlit("value");
    assert("key"@.len() == 3 && "value"@.len() == 5);
    let v = env_var_violations(r);
    lemma_outcome_reports_violations(outcome, v, "key"@, Rule::Length);
    lemma_outcome_reports_violations(outcome, v, "value"@, Rule::Length);
}

/// What an environment request is refused for: a name with fewer than 1 or
/// more than 80 characters; otherwise it is accepted.
pub proof fn lemma_environment_request_rules(
    r: CreateEnvironmentRequest,
    outcome: Result<(), Vec<FieldError>>,
)
    requires
        validation_outcome(outcome, environment_violations(r)),
    ensures
        refused_for(outcome, "name"@, Rule::Length) <==> (r.name@.len() < 1 || r.name@.len() > 80),
        outcome is Ok <==> 1 <= r.name@.len() <= 80,
{
    broadcast use lemma_broken_lists_only_its_rule;

    lemma_outcome_reports_violations(outcome, environment_violations(r), "name"@, Rule::Length);
}

/// What a project request is refused for: a name with fewer than 1 or more
/// than 120 characters, a description of more than 500. It is accepted
/// exactly when neither holds.
pub proof fn lemma_project_request_rules(r: CreateProjectRequest, outcome: Result<(), Vec<FieldError>>)
    requires
        validation_outcome(outcome, project_violations(r)),
    ensures
        refused_for(outcome, "name"@, Rule::Length) <==> (r.name@.len() < 1 || r.name@.len() > 120),
        refused_for(outcome, "description"@, Rule::Length) <==> (opt_text(r.description) matches Some(
            d,
        ) && d.len() > 500),
        outcome is Ok <==> (1 <= r.name@.len() <= 120 && !(opt_text(r.description) matches Some(d)
            && d.len() > 500)),
{
    broadcast use {lemma_seq_concat_contains_all_elements, lemma_broken_lists_only_its_rule};

    reveal_strlit("name");
    reveal_strlit("description");
    assert("name"@.len() == 4 && "description"@.len() == 11);
    let v = project_violations(r);
    lemma_outcome_reports_violations(outcome, v, "name"@, Rule::Length);
    lemma_outcome_reports_violations(outcome, v, "description"@, Rule::Length);
}

/// What a template request is refused for: a name with fewer than 1 or more
/// than 120 characters, a description of more than 500. It is accepted
/// exactly when neither holds.
pub proof fn lemma_template_request_rules(
    r: CreateTemplateRequest,
    outcome: Result<(), Vec<FieldError>>,
)
    requires
        validation_outcome(outcome, template_violations(r)),
    ensures
        refused_for(outcome, "name"@, Rule::Length) <==> (r.name@.len() < 1 || r.name@.len() > 120),
        refused_for(outcome, "description"@, Rule::Length) <==> (opt_text(r.description) matches Some(
            d,
        ) && d.len() > 500),
        outcome is Ok <==> (1 <= r.name@.len() <= 120 && !(opt_text(r.description) matches Some(d)
            && d.len() > 500)),
{
    broadcast use {lemma_seq_concat_contains_all_elements, lemma_broken_lists_only_its_rule};

    reveal_strlit("name");
    reveal_strlit("description");
    assert("name"@.len() == 4 && "description"@.len() == 11);
    let v = template_violations(r);
    lemma_outcome_reports_violations(outcome, v, "name"@, Rule::Length);
    lemma_outcome_reports_violations(outcome, v, "description"@, Rule::Length);
}

/// What a bulk template request is refused for: no names, or more than 100;
/// otherwise it is accepted.
pub proof fn lemma_bulk_template_request_rules(
    r: CreateProjectsFromTemplateRequest,
    outcome: Result<(), Vec<FieldError>>,
)
    requires
        validation_outcome(outcome, bulk_template_violations(r)),
    ensures
        refused_for(outcome, "names"@, Rule::Length) <==> (r.names@.len() == 0 || r.names@.len()
            > 100),
        outcome is Ok <==> 1 <= r.names@.len() <= 100,
{
    broadcast use lemma_broken_lists_only_its_rule;

    lemma_outcome_reports_violations(outcome, bulk_template_violations(r), "names"@, Rule::Length);
}

impl CreateCredentialRequest {
    /// Checks the request against its rules.
    pub fn validate(&self) -> (r: Result<(), Vec<FieldError>>)
        ensures
            validation_outcome(r, credential_violations(*self)),
            refused_for(r, "registry"@, Rule::Length) <==> (self.registry@.len() < 1
                || self.registry@.len() > 253),
            refused_for(r, "username"@, Rule::Length) <==> self.username@.len() == 0,
            refused_for(r, "password"@, Rule::Length) <==> self.password@.len() == 0,
            r is Ok <==> (1 <= self.registry@.len() <= 253 && self.username@.len() > 0
                && self.password@.len() > 0),
    {
        let mut errors: Vec<FieldError> = Vec::new();
        note(&mut errors, check_length(self.registry.as_str(), 1, Some(253)), "registry", Rule::Length);
        note(&mut errors, check_length(self.username.as_str(), 1, None), "username", Rule::Length);
        note(&mut errors, check_length(self.password.as_str(), 1, None), "password", Rule::Length);
        assert(errors@.map_values(|e: FieldError| crate::validation::field_error_text(e))
            =~= credential_violations(*self));
        let r = finish(errors);
        proof {
            lemma_credential_request_rules(*self, r);
        }
        r
    }

    /// The credential to store for `project_id`.
    pub fn into_input(self, project_id: Uuid) -> (r: CreateCredentialInput)
        ensures
            r.project_id == project_id,
            r.registry@ == self.registry@,
            r.username@ == self.username@,
            r.password@ == self.password@,
    {
        CreateCredentialInput {
            project_id,
            registry: self.registry,
            username: self.username,
            password: self.password,
        }
    }
}

impl CreateEnvVarRequest {
    /// Checks the request against its rules.
    pub fn validate(&self) -> (r: Result<(), Vec<FieldError>>)
        ensures
            validation_outcome(r, env_var_violations(*self)),
            refused_for(r, "key"@, Rule::Length) <==> (self.key@.len() < 1 || self.key@.len() > 255),
            refused_for(r, "value"@, Rule::Length) <==> self.value@.len() == 0,
            r is Ok <==> (1 <= self.key@.len() <= 255 && self.value@.len() > 0),
    {
        let mut errors: Vec<FieldError> = Vec::new();
        note(&mut errors, check_length(self.key.as_str(), 1, Some(255)), "key", Rule::Length);
        note(&mut errors, check_length(self.value.as_str(), 1, None), "value", Rule::Length);
        assert(errors@.map_values(|e: FieldError| crate::validation::field_error_text(e))
            =~= env_var_violations(*self));
        let r = finish(errors);
        proof {
            lemma_env_var_request_rules(*self, r);
        }
        r
    }

    /// The variable to store for `project_id`.
    pub fn into_input(self, project_id: Uuid) -> (r: CreateEnvVarInput)
        ensures
            r.project_id == project_id,
            r.environment_id == self.environment_id,
            r.service_id == self.service_id,
            r.key@ == self.key@,
            r.value@ == self.value@,
    {
        CreateEnvVarInput {
            project_id,
            environment_id: self.environment_id,
            service_id: self.service_id,
            key: self.key,
            value: self.value,
        }
    }
}

impl CreateEnvironmentRequest {
    /// Checks the request against its rules.
    pub fn validate(&self) -> (r: Result<(), Vec<FieldError>>)
        ensures
            validation_outcome(r, environment_violations(*self)),
            refused_for(r, "name"@, Rule::Length) <==> (self.name@.len() < 1 || self.name@.len() > 80),
            r is Ok <==> 1 <= self.name@.len() <= 80,
    {
        let mut errors: Vec<FieldError> = Vec::new();
        note(&mut errors, check_length(self.name.as_str(), 1, Some(80)), "name", Rule::Length);
        assert(errors@.map_values(|e: FieldError| crate::validation::field_error_text(e))
            =~= environment_violations(*self));
        let r = finish(errors);
        proof {
            lemma_environment_request_rules(*self, r);
        }
        r
    }
}

impl CreateProjectRequest {
    /// Checks the request against its rules.
    pub fn validate(&self) -> (r: Result<(), Vec<FieldError>>)
        ensures
            validation_outcome(r, project_violations(*self)),
            refused_for(r, "name"@, Rule::Length) <==> (self.name@.len() < 1 || self.name@.len() > 120),
            refused_for(r, "description"@, Rule::Length) <==> (opt_text(self.description) matches Some(
                d,
            ) && d.len() > 500),
            r is Ok <==> (1 <= self.name@.len() <= 120 && !(opt_text(self.description) matches Some(d)
                && d.len() > 500)),
    {
        let mut errors: Vec<FieldError> = Vec::new();
        note(&mut errors, check_length(self.name.as_str(), 1, Some(120)), "name", Rule::Length);
        note(
            &mut errors,
            check_optional_length(&self.description, 0, Some(500)),
            "description",
            Rule::Length,
        );
        assert(errors@.map_values(|e: FieldError| crate::validation::field_error_text(e))
            =~= project_violations(*self));
        let r = finish(errors);
        proof {
            lemma_project_request_rules(*self, r);
        }
        r
    }
}

impl CreateServiceRequest {
    /// Checks the request against its rules.
    pub fn validate(&self) -> (r: Result<(), Vec<FieldError>>)
        ensures
            validation_outcome(r, service_violations(*self)),
            refused_for(r, "name"@, Rule::Length) <==> (self.name@.len() < 1 || self.name@.len() > 120),
            refused_for(r, "image"@, Rule::Length) <==> opt_text(self.image) == Some(
                Seq::<char>::empty(),
            ),
            refused_for(r, "compose_file"@, Rule::Length) <==> opt_text(self.compose_file) == Some(
                Seq::<char>::empty(),
            ),
            refused_for(r, "dockerfile"@, Rule::Length) <==> opt_text(self.dockerfile) == Some(
                Seq::<char>::empty(),
            ),
            refused_for(r, "internal_port"@, Rule::Range) <==> self.internal_port == Some(0u16),
            r is Ok <==> (1 <= self.name@.len() <= 120 && opt_text(self.image) != Some(
                Seq::<char>::empty(),
            ) && opt_text(self.compose_file) != Some(Seq::<char>::empty()) && opt_text(self.dockerfile)
                != Some(Seq::<char>::empty()) && self.internal_port != Some(0u16)),
    {
        let mut errors: Vec<FieldError> = Vec::new();
        note(&mut errors, check_length(self.name.as_str(), 1, Some(120)), "name", Rule::Length);
        note(&mut errors, check_optional_length(&self.image, 1, None), "image", Rule::Length);
        note(
            &mut errors,
            check_optional_length(&self.compose_file, 1, None),
            "compose_file",
            Rule::Length,
        );
        note(&mut errors, check_optional_length(&self.dockerfile, 1, None), "dockerfile", Rule::Length);
        let port_ok = match self.internal_port {
            Some(p) => 1 <= p,
            None => true,
        };
        note(&mut errors, port_ok, "internal_port", Rule::Range);
        assert(errors@.map_values(|e: FieldError| crate::validation::field_error_text(e))
            =~= service_violations(*self));
        let r = finish(errors);
        proof {
            lemma_service_request_rules(*self, r);
        }
        r
    }
}

impl CreateTemplateRequest {
    /// Checks the request against its rules.
    pub fn validate(&self) -> (r: Result<(), Vec<FieldError>>)
        ensures
            validation_outcome(r, template_violations(*self)),
            refused_for(r, "name"@, Rule::Length) <==> (self.name@.len() < 1 || self.name@.len() > 120),
            refused_for(r, "description"@, Rule::Length) <==> (opt_text(self.description) matches Some(
                d,
            ) && d.len() > 500),
            r is Ok <==> (1 <= self.name@.len() <= 120 && !(opt_text(self.description) matches Some(d)
                && d.len() > 500)),
    {
        let mut errors: Vec<FieldError> = Vec::new();
        note(&mut errors, check_length(self.name.as_str(), 1, Some(120)), "name", Rule::Length);
        note(
            &mut errors,
            check_optional_length(&self.description, 0, Some(500)),
            "description",
            Rule::Length,
        );
        assert(errors@.map_values(|e: FieldError| crate::validation::field_error_text(e))
            =~= template_violations(*self));
        let r = finish(errors);
        proof {
            lemma_template_request_rules(*self, r);
        }
        r
    }

    /// The template to create from `project_id`.
    pub fn into_input(self, project_id: Uuid) -> (r: CreateTemplateInput)
        ensures
            r.project_id == project_id,
            r.name@ == self.name@,
            opt_text(r.description) == opt_text(self.description),
    {
        CreateTemplateInput { project_id, name: self.name, description: self.description }
    }
}

impl CreateProjectsFromTemplateRequest {
    /// Checks the request against its rules.
    pub fn validate(&self) -> (r: Result<(), Vec<FieldError>>)
        ensures
            validation_outcome(r, bulk_template_violations(*self)),
            refused_for(r, "names"@, Rule::Length) <==> (self.names@.len() == 0 || self.names@.len()
                > 100),
            r is Ok <==> 1 <= self.names@.len() <= 100,
    {
        let mut errors: Vec<FieldError> = Vec::new();
        let n: usize = self.names.len();
        note(&mut errors, 1 <= n && n <= 100, "names", Rule::Length);
        assert(errors@.map_values(|e: FieldError| crate::validation::field_error_text(e))
            =~= bulk_template_violations(*self));
        let r = finish(errors);
        proof {
            lemma_bulk_template_request_rules(*self, r);
        }
        r
    }

    /// The projects to create from `template_id`.
    pub fn into_input(self, template_id: Uuid) -> (r: CreateProjectsFromTemplateInput)
        ensures
            r.template_id == template_id,
            r.names.deep_view() == self.names.deep_view(),
            r.secret_copy_mode == self.secret_copy_mode,
    {
        CreateProjectsFromTemplateInput {
            template_id,
            names: self.names,
            secret_copy_mode: self.secret_copy_mode,
        }
    }
}

} // verus!
