use wara_backend::docker::{
    compose_deploy_commands, container_name, dockerfile_deploy_commands, image_deploy_commands,
    path_join, DeployKind, DockerCommandConfig, ProxyKind, DEFAULT_DOCKERFILE_CONTEXT_DIR,
    DEFAULT_REMOTE_SERVICES_ROOT,
};

fn command_config() -> DockerCommandConfig {
    DockerCommandConfig::new(
        "/srv/sango/services/".to_string(),
        "/build-context/".to_string(),
    )
}

#[test]
fn compose_commands_use_configured_services_root() {
    assert_eq!(
        compose_deploy_commands("api", &command_config()),
        vec![
            "mkdir -p /srv/sango/services/api",
            "cd /srv/sango/services/api && docker compose up -d",
        ]
    );
}

#[test]
fn dockerfile_commands_use_configured_root_and_context_dir() {
    assert_eq!(
        dockerfile_deploy_commands("worker", &command_config()),
        vec![
            "docker build -t sango/worker:latest /srv/sango/services/worker/build-context",
            "docker rm -f sango-worker || true",
            "docker run -d --name sango-worker --restart unless-stopped sango/worker:latest",
        ]
    );
}

#[test]
fn image_commands_pull_replace_and_run() {
    assert_eq!(
        image_deploy_commands("nginx:1.27", "web"),
        vec![
            "docker pull nginx:1.27",
            "docker rm -f sango-web || true",
            "docker run -d --name sango-web --restart unless-stopped nginx:1.27",
        ]
    );
}

#[test]
fn default_config_places_compose_projects_under_opt() {
    let config = DockerCommandConfig::new(
        DEFAULT_REMOTE_SERVICES_ROOT.to_string(),
        DEFAULT_DOCKERFILE_CONTEXT_DIR.to_string(),
    );
    assert_eq!(
        compose_deploy_commands("db", &config),
        vec!["mkdir -p /opt/sango/services/db", "cd /opt/sango/services/db && docker compose up -d"]
    );
    assert_eq!(
        dockerfile_deploy_commands("db", &config)[0],
        "docker build -t sango/db:latest /opt/sango/services/db/context"
    );
}

#[test]
fn container_names_carry_the_prefix() {
    assert_eq!(container_name("api"), "sango-api");
    assert_eq!(container_name(""), "sango-");
}

#[test]
fn path_join_edge_cases() {
    assert_eq!(path_join("", ""), "/");
    assert_eq!(path_join("///", "//"), "/");
    assert_eq!(path_join("", "/child/"), "/child");
    assert_eq!(path_join("/parent//", ""), "/parent");
    assert_eq!(path_join("/parent/", "//child//"), "/parent/child");
    assert_eq!(path_join("parent", "a/b"), "parent/a/b");
}

#[test]
fn deploy_kind_names_round_trip() {
    for kind in [DeployKind::DockerImage, DeployKind::DockerCompose, DeployKind::Dockerfile] {
        assert_eq!(DeployKind::from(kind.as_str()), kind);
    }
    assert_eq!(DeployKind::DockerCompose.as_str(), "docker_compose");
    assert_eq!(DeployKind::from("something-else"), DeployKind::DockerImage);
}

#[test]
fn proxy_kind_names_round_trip() {
    for kind in [ProxyKind::Nginx, ProxyKind::Traefik] {
        assert_eq!(ProxyKind::from(kind.as_str()), kind);
    }
    assert_eq!(ProxyKind::Traefik.as_str(), "traefik");
    assert_eq!(ProxyKind::from("caddy"), ProxyKind::Nginx);
}
