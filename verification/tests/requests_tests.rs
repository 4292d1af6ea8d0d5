use uuid::Uuid;
use wara_backend::docker::DeployKind;
use wara_backend::requests::{
    CreateCredentialRequest, CreateEnvVarRequest, CreateEnvironmentRequest,
    CreateProjectRequest, CreateProjectsFromTemplateRequest, CreateServiceRequest,
    CreateTemplateRequest,
};
use wara_backend::telemetry::{shutdown, TelemetryGuard, TelemetrySettings};
use wara_backend::templates::SecretCopyMode;
use wara_backend::validation::{FieldError, Rule};

fn fields(result: Result<(), Vec<FieldError>>) -> Vec<(&'static str, Rule)> {
    match result {
        Ok(()) => vec![],
        Err(errors) => {
            assert!(!errors.is_empty());
            errors.into_iter().map(|e| (e.field, e.rule)).collect()
        }
    }
}

#[test]
fn project_request_rules() {
    let ok = CreateProjectRequest { name: "shop".to_string(), description: None };
    assert!(ok.validate().is_ok());
    let bad = CreateProjectRequest { name: String::new(), description: Some("x".repeat(501)) };
    assert_eq!(fields(bad.validate()), vec![("name", Rule::Length), ("description", Rule::Length)]);
    let edge = CreateProjectRequest { name: "é".repeat(120), description: Some("d".repeat(500)) };
    assert!(edge.validate().is_ok());
    let long = CreateProjectRequest { name: "n".repeat(121), description: Some(String::new()) };
    assert_eq!(fields(long.validate()), vec![("name", Rule::Length)]);
}

#[test]
fn credential_request_rules() {
    let ok = CreateCredentialRequest {
        registry: "ghcr.io".to_string(),
        username: "bot".to_string(),
        password: "SECRET-REDACTED".to_string(),
    };
    assert!(ok.validate().is_ok());
    let bad = CreateCredentialRequest {
        registry: "r".repeat(254),
        username: String::new(),
        password: String::new(),
    };
    assert_eq!(
        fields(bad.validate()),
        vec![("registry", Rule::Length), ("username", Rule::Length), ("password", Rule::Length)]
    );
    let input = ok.into_input(Uuid::from_u128(5));
    assert_eq!(input.project_id, Uuid::from_u128(5));
    assert_eq!(input.registry, "ghcr.io");
}

#[test]
fn env_var_request_rules() {
    let ok = CreateEnvVarRequest {
        environment_id: None,
        service_id: Some(Uuid::from_u128(3)),
        key: "PORT".to_string(),
        value: "8080".to_string(),
    };
    assert!(ok.validate().is_ok());
    let input = ok.into_input(Uuid::from_u128(1));
    assert_eq!(input.service_id, Some(Uuid::from_u128(3)));
    assert_eq!(input.key, "PORT");
    let bad = CreateEnvVarRequest {
        environment_id: None,
        service_id: None,
        key: "k".repeat(256),
        value: String::new(),
    };
    assert_eq!(fields(bad.validate()), vec![("key", Rule::Length), ("value", Rule::Length)]);
}

#[test]
fn environment_request_rules() {
    assert!(CreateEnvironmentRequest { name: "staging".to_string() }.validate().is_ok());
    assert_eq!(
        fields(CreateEnvironmentRequest { name: "s".repeat(81) }.validate()),
        vec![("name", Rule::Length)]
    );
}

#[test]
fn service_request_rules() {
    let ok = CreateServiceRequest {
        environment_id: Uuid::from_u128(2),
        name: "api".to_string(),
        deploy_kind: DeployKind::DockerImage,
        image: Some("nginx".to_string()),
        compose_file: None,
        dockerfile: None,
        internal_port: Some(65535),
    };
    assert!(ok.validate().is_ok());
    let bad = CreateServiceRequest {
        environment_id: Uuid::from_u128(2),
        name: "api".to_string(),
        deploy_kind: DeployKind::DockerCompose,
        image: Some(String::new()),
        compose_file: Some(String::new()),
        dockerfile: Some(String::new()),
        internal_port: Some(0),
    };
    assert_eq!(
        fields(bad.validate()),
        vec![
            ("image", Rule::Length),
            ("compose_file", Rule::Length),
            ("dockerfile", Rule::Length),
            ("internal_port", Rule::Range),
        ]
    );
}

#[test]
fn template_request_rules() {
    let ok = CreateTemplateRequest { name: "starter".to_string(), description: None };
    assert!(ok.validate().is_ok());
    let input = ok.into_input(Uuid::from_u128(1));
    assert_eq!(input.project_id, Uuid::from_u128(1));
    assert_eq!(input.name, "starter");
    let bulk = CreateProjectsFromTemplateRequest {
        names: vec![],
        secret_copy_mode: SecretCopyMode::Rebind,
    };
    assert_eq!(fields(bulk.validate()), vec![("names", Rule::Length)]);
    let too_many = CreateProjectsFromTemplateRequest {
        names: vec!["p".to_string(); 101],
        secret_copy_mode: SecretCopyMode::Empty,
    };
    assert_eq!(fields(too_many.validate()), vec![("names", Rule::Length)]);
    let fine = CreateProjectsFromTemplateRequest {
        names: vec!["p".to_string(); 100],
        secret_copy_mode: SecretCopyMode::CopyEncrypted,
    };
    assert!(fine.validate().is_ok());
    let input = fine.into_input(Uuid::from_u128(9));
    assert_eq!(input.template_id, Uuid::from_u128(9));
    assert_eq!(input.names.len(), 100);
    assert_eq!(input.secret_copy_mode, SecretCopyMode::CopyEncrypted);
}

#[test]
fn telemetry_settings_stay_platform_only() {
    let current = TelemetrySettings::current(true, "wara".to_string(), None);
    assert!(current.platform_only);
    assert!(current.enabled);
    let submitted = TelemetrySettings {
        enabled: false,
        service_name: "wara-api".to_string(),
        otlp_endpoint: Some("http://collector:4317".to_string()),
        platform_only: false,
    };
    let answered = submitted.accept_update();
    assert!(answered.platform_only);
    assert!(!answered.enabled);
    assert_eq!(answered.service_name, "wara-api");
    assert_eq!(answered.otlp_endpoint.as_deref(), Some("http://collector:4317"));
}

#[test]
fn telemetry_settings_rules() {
    let ok = TelemetrySettings {
        enabled: true,
        service_name: "wara".to_string(),
        otlp_endpoint: Some("http://localhost:4317".to_string()),
        platform_only: true,
    };
    assert!(ok.validate().is_ok());
    let bad = TelemetrySettings {
        enabled: true,
        service_name: String::new(),
        otlp_endpoint: Some("not a url".to_string()),
        platform_only: true,
    };
    assert_eq!(
        fields(bad.validate()),
        vec![("service_name", Rule::Length), ("otlp_endpoint", Rule::Url)]
    );
}

#[test]
fn telemetry_guard_and_shutdown() {
    let guard = TelemetryGuard::new(true);
    assert!(guard.is_enabled());
    assert!(shutdown(guard).is_ok());
    assert!(!TelemetryGuard::new(false).is_enabled());
}
