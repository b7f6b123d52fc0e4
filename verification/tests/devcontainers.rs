use bollard::Docker;
use devmgr::devcontainer::{
    local_folder_filter, ContainerState, ContainerSummary, Devcontainer, DevcontainerMetadata,
    MountPoint, LOCAL_FOLDER_LABEL, METADATA_LABEL,
};
use devmgr::terminal::{is_stopped_exec_resize_error, DockerError};

fn docker() -> Docker {
    Docker::connect_with_http("http://localhost:2375", 4, bollard::API_DEFAULT_VERSION).unwrap()
}

/// Reads `{"remoteUser":"<user>"}` (the only form these tests write).
fn parse_metadata(json: &String) -> Option<DevcontainerMetadata> {
    let rest = json.strip_prefix("{\"remoteUser\":\"")?;
    let user = rest.strip_suffix("\"}")?;
    Some(DevcontainerMetadata { remote_user: user.to_string() })
}

fn summary(id: &str, name: &str, folder: &str, workspace: &str, user: &str) -> ContainerSummary {
    ContainerSummary {
        id: Some(id.to_string()),
        names: Some(vec![name.to_string()]),
        labels: Some(vec![
            ("other".to_string(), "x".to_string()),
            (LOCAL_FOLDER_LABEL.to_string(), folder.to_string()),
            (METADATA_LABEL.to_string(), format!("{{\"remoteUser\":\"{user}\"}}")),
        ]),
        mounts: Some(vec![
            MountPoint { source: Some("/var/run".to_string()), destination: Some("/run".to_string()) },
            MountPoint { source: Some(folder.to_string()), destination: Some(workspace.to_string()) },
        ]),
        state: Some(ContainerState::Running),
    }
}

#[test]
fn reads_a_devcontainer_from_its_summary() {
    let docker = docker();
    let d = Devcontainer::from_container_summary(
        &docker,
        summary("abc", "/busy_moser", "/home/u/p1", "/workspaces/p1", "vscode"),
        parse_metadata,
    )
    .unwrap();
    assert_eq!(d.id, "abc");
    assert_eq!(d.name, "busy_moser");
    assert!(d.running);
    assert_eq!(d.path, "/home/u/p1");
    assert_eq!(d.workspace, "/workspaces/p1");
    assert_eq!(d.user, "vscode");
}

#[test]
fn all_leading_slashes_are_trimmed_from_the_name() {
    let docker = docker();
    let d = Devcontainer::from_container_summary(
        &docker,
        summary("abc", "//a/b", "/p", "/w", "u"),
        parse_metadata,
    )
    .unwrap();
    assert_eq!(d.name, "a/b");
}

#[test]
fn stopped_container_is_not_running() {
    let docker = docker();
    let mut c = summary("abc", "/n", "/p", "/w", "u");
    c.state = Some(ContainerState::Exited);
    assert!(!Devcontainer::from_container_summary(&docker, c, parse_metadata).unwrap().running);
    let mut c = summary("abc", "/n", "/p", "/w", "u");
    c.state = None;
    assert!(!Devcontainer::from_container_summary(&docker, c, parse_metadata).unwrap().running);
}

#[test]
fn containers_missing_a_part_are_not_devcontainers() {
    let docker = docker();
    let base = || summary("abc", "/n", "/p", "/w", "u");
    let mut c = base();
    c.id = None;
    assert!(Devcontainer::from_container_summary(&docker, c, parse_metadata).is_none());
    let mut c = base();
    c.names = Some(vec![]);
    assert!(Devcontainer::from_container_summary(&docker, c, parse_metadata).is_none());
    let mut c = base();
    c.labels = Some(vec![(METADATA_LABEL.to_string(), "{\"remoteUser\":\"u\"}".to_string())]);
    assert!(Devcontainer::from_container_summary(&docker, c, parse_metadata).is_none());
    let mut c = base();
    c.mounts = Some(vec![MountPoint { source: Some("/p".to_string()), destination: None }]);
    assert!(Devcontainer::from_container_summary(&docker, c, parse_metadata).is_none());
    let mut c = base();
    c.labels = Some(vec![(LOCAL_FOLDER_LABEL.to_string(), "/p".to_string())]);
    assert!(Devcontainer::from_container_summary(&docker, c, parse_metadata).is_none());
    let mut c = base();
    c.labels = Some(vec![
        (LOCAL_FOLDER_LABEL.to_string(), "/p".to_string()),
        (METADATA_LABEL.to_string(), "not json".to_string()),
    ]);
    assert!(Devcontainer::from_container_summary(&docker, c, parse_metadata).is_none());
}

#[test]
fn workspace_is_the_first_mount_of_the_folder_with_a_destination() {
    let docker = docker();
    let mut c = summary("abc", "/n", "/p", "/w", "u");
    c.mounts = Some(vec![
        MountPoint { source: Some("/p".to_string()), destination: None },
        MountPoint { source: Some("/p".to_string()), destination: Some("/second".to_string()) },
        MountPoint { source: Some("/p".to_string()), destination: Some("/third".to_string()) },
    ]);
    let d = Devcontainer::from_container_summary(&docker, c, parse_metadata).unwrap();
    assert_eq!(d.workspace, "/second");
}

#[test]
fn lists_only_devcontainers_in_order() {
    let docker = docker();
    let mut broken = summary("b", "/b", "/pb", "/wb", "u");
    broken.mounts = None;
    let found = Devcontainer::from_summaries(
        &docker,
        vec![
            summary("a", "/a", "/pa", "/wa", "u1"),
            broken,
            summary("c", "/c", "/pc", "/wc", "u2"),
        ],
        parse_metadata,
    );
    let ids: Vec<&str> = found.iter().map(|d| d.id.as_str()).collect();
    assert_eq!(ids, vec!["a", "c"]);
    assert_eq!(found[1].user, "u2");
}

#[test]
fn finds_the_first_devcontainer_at_a_path() {
    let docker = docker();
    let containers = vec![
        summary("a", "/a", "/pa", "/wa", "u1"),
        summary("b", "/b", "/pb", "/wb", "u2"),
        summary("c", "/c", "/pb", "/wc", "u3"),
    ];
    let d = Devcontainer::find_at_path(&docker, containers, "/pb", parse_metadata).unwrap();
    assert_eq!(d.id, "b");
    let none = Devcontainer::find_at_path(
        &docker,
        vec![summary("a", "/a", "/pa", "/wa", "u1")],
        "/elsewhere",
        parse_metadata,
    );
    assert!(none.is_none());
}

#[test]
fn path_comparison_is_by_components() {
    let docker = docker();
    let d = Devcontainer::find_at_path(
        &docker,
        vec![summary("a", "/a", "/home/u/p/", "/w", "u")],
        "/home/u/p",
        parse_metadata,
    );
    assert!(d.is_some());
}

#[test]
fn found_devcontainer_is_among_the_listed_ones() {
    let docker = docker();
    let make = || vec![summary("a", "/a", "/pa", "/wa", "u1"), summary("b", "/b", "/pb", "/wb", "u2")];
    let listed = Devcontainer::from_summaries(&docker, make(), parse_metadata);
    let found = Devcontainer::find_at_path(&docker, make(), "/pb", parse_metadata).unwrap();
    assert!(listed.iter().any(|d| d.id == found.id && d.path == found.path && d.user == found.user));
}

#[test]
fn shows_a_devcontainer_compactly_and_in_detail() {
    let docker = docker();
    let d = Devcontainer::from_container_summary(
        &docker,
        summary("ded0", "/busy_moser", "/home/ubuntu/project1", "/workspaces/project1", "vscode"),
        parse_metadata,
    )
    .unwrap();
    assert_eq!(d.display_string(false), "🟢 Devcontainer ded0 (/home/ubuntu/project1)");
    assert_eq!(
        d.display_string(true),
        "🟢 Devcontainer ded0\n  Name: busy_moser\n  Path: /home/ubuntu/project1\n  Workspace: /workspaces/project1\n  User: vscode"
    );
    let mut c = summary("x", "/n", "/p", "/w", "u");
    c.state = Some(ContainerState::Paused);
    let stopped = Devcontainer::from_container_summary(&docker, c, parse_metadata).unwrap();
    assert_eq!(stopped.display_string(false), "🔴 Devcontainer x (/p)");
}

#[test]
fn path_filter_names_the_local_folder_label() {
    assert_eq!(local_folder_filter("/home/u/p"), "devcontainer.local_folder=/home/u/p");
}

#[test]
fn stopped_resize_errors_are_recognised() {
    let stopped = DockerError::ServerResponse {
        status_code: 500,
        message: "Error: cannot resize a stopped container: unknown".to_string(),
    };
    assert!(is_stopped_exec_resize_error(&stopped));
    let other_status = DockerError::ServerResponse {
        status_code: 409,
        message: "cannot resize a stopped container".to_string(),
    };
    assert!(!is_stopped_exec_resize_error(&other_status));
    let other_message = DockerError::ServerResponse {
        status_code: 500,
        message: "cannot resize a running container".to_string(),
    };
    assert!(!is_stopped_exec_resize_error(&other_message));
    assert!(!is_stopped_exec_resize_error(&DockerError::Other));
}

#[test]
fn labels_are_found_wherever_they_stand() {
    let docker = docker();
    let mut c = summary("abc", "/n", "/p", "/w", "u");
    c.labels = Some(vec![
        (METADATA_LABEL.to_string(), "{\"remoteUser\":\"root\"}".to_string()),
        ("com.example".to_string(), "y".to_string()),
        (LOCAL_FOLDER_LABEL.to_string(), "/p".to_string()),
    ]);
    let d = Devcontainer::from_container_summary(&docker, c, parse_metadata).unwrap();
    assert_eq!(d.user, "root");
    assert_eq!(d.path, "/p");
}

#[test]
fn a_path_written_exactly_as_the_query_is_found() {
    let docker = docker();
    let d = Devcontainer::find_at_path(
        &docker,
        vec![summary("a", "/a", "/srv/p", "/w", "u"), summary("b", "/b", "/srv/q", "/w", "u")],
        "/srv/q",
        parse_metadata,
    );
    assert_eq!(d.unwrap().id, "b");
}
