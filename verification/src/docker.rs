//! Deployment kinds and the controlled Docker commands that a deploy runs on
//! a remote host.

use vstd::prelude::*;
use vstd::string::*;

use crate::text::{concat2, concat3, concat4, owned, push_char, str_equal, trim_both_char,
    trim_end_char, trim_end_matching, trim_matching};

verus! {

/// Where per-service directories live on a remote host by default.
pub const DEFAULT_REMOTE_SERVICES_ROOT: &'static str = "/opt/sango/services";

/// The build context directory inside a service directory by default.
pub const DEFAULT_DOCKERFILE_CONTEXT_DIR: &'static str = "context";

/// The prefix of every container name that Wara manages.
pub const DEFAULT_CONTAINER_NAME_PREFIX: &'static str = "sango-";

/// The repository prefix of images that Wara builds from Dockerfiles.
pub const DEFAULT_BUILT_IMAGE_PREFIX: &'static str = "sango";

/// How a service is deployed.
#[derive(Debug, Clone, Copy, PartialEq, Eq, Structural)]
pub enum DeployKind {
    DockerImage,
    DockerCompose,
    Dockerfile,
}

/// The stored name of a deploy kind.
pub open spec fn deploy_kind_name(kind: DeployKind) -> Seq<char> {
    match kind {
        DeployKind::DockerImage => "docker_image"@,
        DeployKind::DockerCompose => "docker_compose"@,
        DeployKind::Dockerfile => "dockerfile"@,
    }
}

/// The deploy kind a stored name stands for; unknown names mean a plain image.
pub open spec fn deploy_kind_from_name(name: Seq<char>) -> DeployKind {
    if name == "docker_compose"@ {
        DeployKind::DockerCompose
    } else if name == "dockerfile"@ {
        DeployKind::Dockerfile
    } else {
        DeployKind::DockerImage
    }
}

impl DeployKind {
    /// The stored name of this deploy kind.
    pub fn as_str(&self) -> (r: &'static str)
        ensures
            r@ == deploy_kind_name(*self),
    {
        match self {
            DeployKind::DockerImage => "docker_image",
            DeployKind::DockerCompose => "docker_compose",
            DeployKind::Dockerfile => "dockerfile",
        }
    }
}

impl<'a> From<&'a str> for DeployKind {
    fn from(value: &'a str) -> (r: DeployKind) {
        if str_equal(value, "docker_compose") {
            DeployKind::DockerCompose
        } else if str_equal(value, "dockerfile") {
            DeployKind::Dockerfile
        } else {
            DeployKind::DockerImage
        }
    }
}

impl<'a> vstd::std_specs::convert::FromSpecImpl<&'a str> for DeployKind {
    open spec fn obeys_from_spec() -> bool {
        true
    }

    open spec fn from_spec(value: &'a str) -> DeployKind {
        deploy_kind_from_name(value@)
    }
}

/// Reading back the stored name of a deploy kind gives the same kind.
pub proof fn lemma_deploy_kind_round_trip(kind: DeployKind)
    ensures
        deploy_kind_from_name(deploy_kind_name(kind)) == kind,
{
    reveal_strlit("docker_image");
    reveal_strlit("docker_compose");
    reveal_strlit("dockerfile");
    assert("docker_image"@.len() == 12);
    assert("docker_compose"@.len() == 14);
    assert("dockerfile"@.len() == 10);
}

/// Which reverse proxy fronts a service.
#[derive(Debug, Clone, Copy, PartialEq, Eq, Structural)]
pub enum ProxyKind {
    Nginx,
    Traefik,
}

/// The stored name of a proxy kind.
pub open spec fn proxy_kind_name(kind: ProxyKind) -> Seq<char> {
    match kind {
        ProxyKind::Nginx => "nginx"@,
        ProxyKind::Traefik => "traefik"@,
    }
}

/// The proxy kind a stored name stands for; unknown names mean nginx.
pub open spec fn proxy_kind_from_name(name: Seq<char>) -> ProxyKind {
    if name == "traefik"@ {
        ProxyKind::Traefik
    } else {
        ProxyKind::Nginx
    }
}

impl ProxyKind {
    /// The stored name of this proxy kind.
    pub fn as_str(&self) -> (r: &'static str)
        ensures
            r@ == proxy_kind_name(*self),
    {
        match self {
            ProxyKind::Nginx => "nginx",
            ProxyKind::Traefik => "traefik",
        }
    }
}

impl<'a> From<&'a str> for ProxyKind {
    fn from(value: &'a str) -> (r: ProxyKind) {
        if str_equal(value, "traefik") {
            ProxyKind::Traefik
        } else {
            ProxyKind::Nginx
        }
    }
}

impl<'a> vstd::std_specs::convert::FromSpecImpl<&'a str> for ProxyKind {
    open spec fn obeys_from_spec() -> bool {
        true
    }

    open spec fn from_spec(value: &'a str) -> ProxyKind {
        proxy_kind_from_name(value@)
    }
}

/// Reading back the stored name of a proxy kind gives the same kind.
pub proof fn lemma_proxy_kind_round_trip(kind: ProxyKind)
    ensures
        proxy_kind_from_name(proxy_kind_name(kind)) == kind,
{
    reveal_strlit("nginx");
    reveal_strlit("traefik");
    assert("nginx"@.len() == 5);
    assert("traefik"@.len() == 7);
}

/// Where service directories live on a host and where a Dockerfile's build
/// context sits inside one.
#[derive(Debug, Clone)]
pub struct DockerCommandConfig {
    pub remote_services_root: String,
    pub dockerfile_context_dir: String,
}

impl DockerCommandConfig {
    pub fn new(remote_services_root: String, dockerfile_context_dir: String) -> (r: Self)
        ensures
            r.remote_services_root@ == remote_services_root@,
            r.dockerfile_context_dir@ == dockerfile_context_dir@,
    {
        DockerCommandConfig { remote_services_root, dockerfile_context_dir }
    }
}

/// `child` placed under `parent`: trailing slashes of `parent` and all
/// surrounding slashes of `child` are dropped, and exactly one slash joins
/// them; an empty side falls away, and two empty sides give the root.
pub open spec fn joined_path(parent: Seq<char>, child: Seq<char>) -> Seq<char> {
    let p = trim_end_char(parent, '/');
    let c = trim_both_char(child, '/');
    if p.len() == 0 && c.len() == 0 {
        seq!['/']
    } else if p.len() == 0 {
        seq!['/'] + c
    } else if c.len() == 0 {
        p
    } else {
        p + seq!['/'] + c
    }
}

/// The name of the container that runs `service`.
pub open spec fn container_name_of(service: Seq<char>) -> Seq<char> {
    DEFAULT_CONTAINER_NAME_PREFIX@ + service
}

/// The tag of the image built for `service`.
pub open spec fn built_image_of(service: Seq<char>) -> Seq<char> {
    DEFAULT_BUILT_IMAGE_PREFIX@ + seq!['/'] + service + ":latest"@
}

/// The directory of `service` under the services root.
pub open spec fn service_dir_of(root: Seq<char>, service: Seq<char>) -> Seq<char> {
    joined_path(root, service)
}

/// The command that (re)starts `container` from `image`.
pub open spec fn run_command(container: Seq<char>, image: Seq<char>) -> Seq<char> {
    "docker run -d --name "@ + container + " --restart unless-stopped "@ + image
}

/// The command that removes `container` if it exists.
pub open spec fn remove_command(container: Seq<char>) -> Seq<char> {
    "docker rm -f "@ + container + " || true"@
}

/// The commands that deploy a published image.
pub open spec fn image_deploy_plan(image: Seq<char>, service: Seq<char>) -> Seq<Seq<char>> {
    let container = container_name_of(service);
    seq!["docker pull "@ + image, remove_command(container), run_command(container, image)]
}

/// The commands that deploy a Compose project.
pub open spec fn compose_deploy_plan(root: Seq<char>, service: Seq<char>) -> Seq<Seq<char>> {
    let dir = service_dir_of(root, service);
    seq!["mkdir -p "@ + dir, "cd "@ + dir + " && docker compose up -d"@]
}

/// The commands that build and deploy a Dockerfile.
pub open spec fn dockerfile_deploy_plan(
    root: Seq<char>,
    context_dir: Seq<char>,
    service: Seq<char>,
) -> Seq<Seq<char>> {
    let context = joined_path(service_dir_of(root, service), context_dir);
    let image = built_image_of(service);
    let container = container_name_of(service);
    seq![
        "docker build -t "@ + image + " "@ + context,
        remove_command(container),
        run_command(container, image),
    ]
}

/// Joins two path segments as `joined_path` describes.
pub fn path_join(parent: &str, child: &str) -> (r: String)
    ensures
        r@ == joined_path(parent@, child@),
{
    let p = trim_end_matching(parent, '/');
    let c = trim_matching(child, '/');
    let p_empty = p.as_str().unicode_len() == 0;
    let c_empty = c.as_str().unicode_len() == 0;
    if p_empty && c_empty {
        let mut r = String::new();
        push_char(&mut r, '/');
        assert(r@ =~= seq!['/']);
        r
    } else if p_empty {
        let mut r = String::new();
        push_char(&mut r, '/');
        r.append(c.as_str());
        assert(r@ =~= seq!['/'] + c@);
        r
    } else if c_empty {
        p
    } else {
        let mut r = p;
        push_char(&mut r, '/');
        r.append(c.as_str());
        r
    }
}

/// The name of the container that runs `service`.
pub fn container_name(service: &str) -> (r: String)
    ensures
        r@ == container_name_of(service@),
{
    concat2(DEFAULT_CONTAINER_NAME_PREFIX, service)
}

fn built_image_name(service: &str) -> (r: String)
    ensures
        r@ == built_image_of(service@),
{
    let mut r = owned(DEFAULT_BUILT_IMAGE_PREFIX);
    push_char(&mut r, '/');
    r.append(service);
    r.append(":latest");
    r
}

fn service_dir(remote_services_root: &str, service: &str) -> (r: String)
    ensures
        r@ == service_dir_of(remote_services_root@, service@),
{
    path_join(remote_services_root, service)
}

fn remove_container_command(container: &str) -> (r: String)
    ensures
        r@ == remove_command(container@),
{
    concat3("docker rm -f ", container, " || true")
}

fn run_container_command(container: &str, image: &str) -> (r: String)
    ensures
        r@ == run_command(container@, image@),
{
    concat4("docker run -d --name ", container, " --restart unless-stopped ", image)
}

/// The commands that pull `image` and run it as the container of `service`.
pub fn image_deploy_commands(image: &str, service: &str) -> (r: Vec<String>)
    ensures
        r.deep_view() == image_deploy_plan(image@, service@),
{
    let container = container_name(service);
    let mut r: Vec<String> = Vec::new();
    r.push(concat2("docker pull ", image));
    r.push(remove_container_command(container.as_str()));
    r.push(run_container_command(container.as_str(), image));
    assert(r.deep_view() =~= image_deploy_plan(image@, service@));
    r
}

/// The commands that bring up the Compose project of `service`.
pub fn compose_deploy_commands(service: &str, config: &DockerCommandConfig) -> (r: Vec<String>)
    ensures
        r.deep_view() == compose_deploy_plan(config.remote_services_root@, service@),
{
    let dir = service_dir(config.remote_services_root.as_str(), service);
    let mut r: Vec<String> = Vec::new();
    r.push(concat2("mkdir -p ", dir.as_str()));
    r.push(concat3("cd ", dir.as_str(), " && docker compose up -d"));
    assert(r.deep_view() =~= compose_deploy_plan(config.remote_services_root@, service@));
    r
}

/// The commands that build the Dockerfile of `service` and run the image.
pub fn dockerfile_deploy_commands(service: &str, config: &DockerCommandConfig) -> (r: Vec<
    String,
>)
    ensures
        r.deep_view() == dockerfile_deploy_plan(
            config.remote_services_root@,
            config.dockerfile_context_dir@,
            service@,
        ),
{
    let dir = service_dir(config.remote_services_root.as_str(), service);
    let context_dir = path_join(dir.as_str(), config.dockerfile_context_dir.as_str());
    let image = built_image_name(service);
    let container = container_name(service);
    let mut r: Vec<String> = Vec::new();
    r.push(concat4("docker build -t ", image.as_str(), " ", context_dir.as_str()));
    r.push(remove_container_command(container.as_str()));
    r.push(run_container_command(container.as_str(), image.as_str()));
    assert(r.deep_view() =~= dockerfile_deploy_plan(
        config.remote_services_root@,
        config.dockerfile_context_dir@,
        service@,
    ));
    r
}

} // verus!
