//! Projects, environments, services and templates, as stored and as the API
//! presents them, and the records that the project services create.

use uuid::Uuid;
use vstd::prelude::*;
use vstd::string::*;

use crate::docker::{deploy_kind_from_name, DeployKind};
use crate::templates::SecretCopyMode;

verus! {

/// A project: the unit that groups environments, services and secrets.
#[derive(Debug, Clone)]
pub struct Project {
    pub id: Uuid,
    pub name: String,
    pub description: Option<String>,
}

/// An environment of a project, such as production.
#[derive(Debug, Clone)]
pub struct Environment {
    pub id: Uuid,
    pub project_id: Uuid,
    pub name: String,
}

/// A deployable service as the API presents it.
#[derive(Debug, Clone)]
pub struct AppService {
    pub id: Uuid,
    pub project_id: Uuid,
    pub environment_id: Uuid,
    pub name: String,
    pub deploy_kind: DeployKind,
    pub image: Option<String>,
    pub compose_file: Option<String>,
    pub dockerfile: Option<String>,
    pub internal_port: Option<u16>,
}

/// A stored service row; the deploy kind is kept by name.
#[derive(Debug, Clone)]
pub struct AppServiceRecord {
    pub id: Uuid,
    pub project_id: Uuid,
    pub environment_id: Uuid,
    pub name: String,
    pub deploy_kind: String,
    pub image: Option<String>,
    pub compose_file: Option<String>,
    pub dockerfile: Option<String>,
    pub internal_port: Option<u16>,
}

/// A project template as the API presents it.
#[derive(Debug, Clone)]
pub struct ProjectTemplate {
    pub id: Uuid,
    pub source_project_id: Uuid,
    pub name: String,
    pub description: Option<String>,
}

/// A stored template row.
#[derive(Debug, Clone)]
pub struct ProjectTemplateRecord {
    pub id: Uuid,
    pub source_project_id: Uuid,
    pub name: String,
    pub description: Option<String>,
}

/// What a caller supplies to create a template from a project.
#[derive(Debug, Clone)]
pub struct CreateTemplateInput {
    pub project_id: Uuid,
    pub name: String,
    pub description: Option<String>,
}

/// What a caller supplies to create projects from a template.
#[derive(Debug, Clone)]
pub struct CreateProjectsFromTemplateInput {
    pub template_id: Uuid,
    pub names: Vec<String>,
    pub secret_copy_mode: SecretCopyMode,
}

/// The projects created from one template.
#[derive(Debug, Clone)]
pub struct BulkProjectCreateResponse {
    pub projects: Vec<Project>,
}

/// A project that is about to be created: its name and description.
#[derive(Debug, Clone)]
pub struct ProjectDraft {
    pub name: String,
    pub description: Option<String>,
}

/// The view of an optional string.
pub open spec fn opt_text(s: Option<String>) -> Option<Seq<char>> {
    match s {
        Some(v) => Some(v@),
        None => None,
    }
}

/// A copy of an optional string.
pub fn clone_opt_text(s: &Option<String>) -> (r: Option<String>)
    ensures
        opt_text(r) == opt_text(*s),
{
    match s {
        Some(v) => Some(v.clone()),
        None => None,
    }
}

/// The name of the environment that every new project starts with.
pub open spec fn default_environment_name() -> Seq<char> {
    "production"@
}

impl Project {
    /// A new project with the given identifier, name and description.
    pub fn new(id: Uuid, name: String, description: Option<String>) -> (r: Project)
        ensures
            r.id == id,
            r.name@ == name@,
            opt_text(r.description) == opt_text(description),
    {
        Project { id, name, description }
    }
}

impl Environment {
    /// A new environment of `project_id` with the given name.
    pub fn new(id: Uuid, project_id: Uuid, name: String) -> (r: Environment)
        ensures
            r.id == id,
            r.project_id == project_id,
            r.name@ == name@,
    {
        Environment { id, project_id, name }
    }

    /// The production environment that a new project is created with.
    pub fn default_for(project: &Project, id: Uuid) -> (r: Environment)
        ensures
            r.id == id,
            r.project_id == project.id,
            r.name@ == default_environment_name(),
    {
        Environment { id, project_id: project.id, name: String::from_str("production") }
    }
}

/// The service that a stored row presents, its deploy kind read from its name.
pub open spec fn service_of_record(record: AppServiceRecord) -> AppService {
    AppService {
        id: record.id,
        project_id: record.project_id,
        environment_id: record.environment_id,
        name: record.name,
        deploy_kind: deploy_kind_from_name(record.deploy_kind@),
        image: record.image,
        compose_file: record.compose_file,
        dockerfile: record.dockerfile,
        internal_port: record.internal_port,
    }
}

impl From<AppServiceRecord> for AppService {
    fn from(record: AppServiceRecord) -> (r: AppService)
        ensures
            r.id == record.id,
            r.project_id == record.project_id,
            r.environment_id == record.environment_id,
            r.name == record.name,
            r.deploy_kind == deploy_kind_from_name(record.deploy_kind@),
            r.image == record.image,
            r.compose_file == record.compose_file,
            r.dockerfile == record.dockerfile,
            r.internal_port == record.internal_port,
    {
        let deploy_kind = DeployKind::from(record.deploy_kind.as_str());
        AppService {
            id: record.id,
            project_id: record.project_id,
            environment_id: record.environment_id,
            name: record.name,
            deploy_kind,
            image: record.image,
            compose_file: record.compose_file,
            dockerfile: record.dockerfile,
            internal_port: record.internal_port,
        }
    }
}

impl vstd::std_specs::convert::FromSpecImpl<AppServiceRecord> for AppService {
    open spec fn obeys_from_spec() -> bool {
        true
    }

    open spec fn from_spec(record: AppServiceRecord) -> AppService {
        service_of_record(record)
    }
}

/// The template that a stored row presents.
pub open spec fn template_of_record(record: ProjectTemplateRecord) -> ProjectTemplate {
    ProjectTemplate {
        id: record.id,
        source_project_id: record.source_project_id,
        name: record.name,
        description: record.description,
    }
}

impl From<ProjectTemplateRecord> for ProjectTemplate {
    fn from(record: ProjectTemplateRecord) -> (r: ProjectTemplate)
        ensures
            r.id == record.id,
            r.source_project_id == record.source_project_id,
            r.name == record.name,
            r.description == record.description,
    {
        ProjectTemplate {
            id: record.id,
            source_project_id: record.source_project_id,
            name: record.name,
            description: record.description,
        }
    }
}

impl vstd::std_specs::convert::FromSpecImpl<ProjectTemplateRecord> for ProjectTemplate {
    open spec fn obeys_from_spec() -> bool {
        true
    }

    open spec fn from_spec(record: ProjectTemplateRecord) -> ProjectTemplate {
        template_of_record(record)
    }
}

/// Presenting a stored service keeps every field it carries: the
/// identifiers, the name, the image, the Compose file, the Dockerfile and the
/// port are the record's own, and only the deploy kind is read from its name.
pub proof fn lemma_service_presentation_keeps_fields(record: AppServiceRecord)
    ensures
        ({
            let s = service_of_record(record);
            &&& s.id == record.id
            &&& s.project_id == record.project_id
            &&& s.environment_id == record.environment_id
            &&& s.name == record.name
            &&& s.image == record.image
            &&& s.compose_file == record.compose_file
            &&& s.dockerfile == record.dockerfile
            &&& s.internal_port == record.internal_port
            &&& s.deploy_kind == (if record.deploy_kind@ == "docker_compose"@ {
                DeployKind::DockerCompose
            } else if record.deploy_kind@ == "dockerfile"@ {
                DeployKind::Dockerfile
            } else {
                DeployKind::DockerImage
            })
        }),
{
}

/// Presenting a stored template keeps every field: its own identifier, the
/// project it was made from, its name and its description.
pub proof fn lemma_template_presentation_keeps_fields(record: ProjectTemplateRecord)
    ensures
        ({
            let t = template_of_record(record);
            &&& t.id == record.id
            &&& t.source_project_id == record.source_project_id
            &&& t.name == record.name
            &&& t.description == record.description
        }),
{
}

impl ProjectTemplateRecord {
    /// The row stored for a new template of `input.project_id`.
    pub fn for_input(id: Uuid, input: CreateTemplateInput) -> (r: ProjectTemplateRecord)
        ensures
            r.id == id,
            r.source_project_id == input.project_id,
            r.name@ == input.name@,
            opt_text(r.description) == opt_text(input.description),
    {
        ProjectTemplateRecord {
            id,
            source_project_id: input.project_id,
            name: input.name,
            description: input.description,
        }
    }
}

/// The projects to create from `template`: one per name, in order, each
/// described as the template is.
pub fn template_project_drafts(template: &ProjectTemplate, names: Vec<String>) -> (r: Vec<
    ProjectDraft,
>)
    ensures
        r@.len() == names@.len(),
        forall|i: int|
            0 <= i < r@.len() ==> #[trigger] r@[i].name@ == names@[i]@ && opt_text(
                r@[i].description,
            ) == opt_text(template.description),
{
    let mut r: Vec<ProjectDraft> = Vec::new();
    let n: usize = names.len();
    let mut i: usize = 0;
    while i < n
        invariant
            n == names@.len(),
            i <= n,
            r@.len() == i,
            forall|k: int|
                0 <= k < i ==> #[trigger] r@[k].name@ == names@[k]@ && opt_text(
                    r@[k].description,
                ) == opt_text(template.description),
        decreases n - i,
    {
        let name = names[i].clone();
        let description = clone_opt_text(&template.description);
        r.push(ProjectDraft { name, description });
        i = i + 1;
    }
    r
}

} // verus!
