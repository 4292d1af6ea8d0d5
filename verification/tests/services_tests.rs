use uuid::Uuid;
use wara_backend::docker::DeployKind;
use wara_backend::entities::{
    template_project_drafts, AppService, AppServiceRecord, CreateTemplateInput, Environment,
    Project, ProjectTemplate, ProjectTemplateRecord,
};
use wara_backend::errors::{database_failure, found_or_not_found, require_handle, ApiError};

#[test]
fn new_project_starts_with_a_production_environment() {
    let project = Project::new(Uuid::from_u128(1), "shop".to_string(), None);
    let env = Environment::default_for(&project, Uuid::from_u128(2));
    assert_eq!(env.name, "production");
    assert_eq!(env.project_id, project.id);
    assert_eq!(env.id, Uuid::from_u128(2));
}

#[test]
fn service_record_reads_deploy_kind_by_name() {
    let record = AppServiceRecord {
        id: Uuid::from_u128(3),
        project_id: Uuid::from_u128(1),
        environment_id: Uuid::from_u128(2),
        name: "api".to_string(),
        deploy_kind: "dockerfile".to_string(),
        image: None,
        compose_file: None,
        dockerfile: Some("FROM scratch".to_string()),
        internal_port: Some(8080),
    };
    let service = AppService::from(record);
    assert_eq!(service.deploy_kind, DeployKind::Dockerfile);
    assert_eq!(service.name, "api");
    assert_eq!(service.internal_port, Some(8080));
    assert_eq!(service.dockerfile.as_deref(), Some("FROM scratch"));

    let unknown = AppService::from(AppServiceRecord {
        id: Uuid::from_u128(4),
        project_id: Uuid::from_u128(1),
        environment_id: Uuid::from_u128(2),
        name: "legacy".to_string(),
        deploy_kind: "helm".to_string(),
        image: Some("legacy:1".to_string()),
        compose_file: None,
        dockerfile: None,
        internal_port: None,
    });
    assert_eq!(unknown.deploy_kind, DeployKind::DockerImage);
}

#[test]
fn template_records_round_trip_through_input() {
    let record = ProjectTemplateRecord::for_input(
        Uuid::from_u128(9),
        CreateTemplateInput {
            project_id: Uuid::from_u128(1),
            name: "starter".to_string(),
            description: Some("base stack".to_string()),
        },
    );
    assert_eq!(record.source_project_id, Uuid::from_u128(1));
    let template = ProjectTemplate::from(record);
    assert_eq!(template.id, Uuid::from_u128(9));
    assert_eq!(template.name, "starter");
    assert_eq!(template.description.as_deref(), Some("base stack"));
}

#[test]
fn template_drafts_keep_names_in_order_with_template_description() {
    let template = ProjectTemplate {
        id: Uuid::from_u128(9),
        source_project_id: Uuid::from_u128(1),
        name: "starter".to_string(),
        description: Some("base stack".to_string()),
    };
    let drafts = template_project_drafts(&template, vec!["a".to_string(), "b".to_string()]);
    assert_eq!(drafts.len(), 2);
    assert_eq!(drafts[0].name, "a");
    assert_eq!(drafts[1].name, "b");
    assert!(drafts.iter().all(|d| d.description.as_deref() == Some("base stack")));
    assert!(template_project_drafts(&template, vec![]).is_empty());
}

#[test]
fn missing_records_and_handles_are_reported() {
    match found_or_not_found::<u8>(None, "project") {
        Err(ApiError::NotFound(kind)) => assert_eq!(kind, "project"),
        other => panic!("unexpected {other:?}"),
    }
    assert!(matches!(found_or_not_found(Some(5u8), "project"), Ok(5)));
    match require_handle::<u8>(None) {
        Err(ApiError::Internal(message)) => assert_eq!(message, "database handle is unavailable"),
        other => panic!("unexpected {other:?}"),
    }
    assert!(matches!(require_handle(Some(1u8)), Ok(1)));
}

#[test]
fn database_failures_carry_the_cause() {
    match database_failure("connection reset") {
        ApiError::Internal(message) => {
            assert_eq!(message, "database operation failed: connection reset")
        }
        other => panic!("unexpected {other:?}"),
    }
}
