use agent_of_empires::cli::sounds::{sound_installed, SoundsCommands};
use agent_of_empires::docker::{
    check_runtime, text_contains, trim_output, ContainerConfig, DockerContainer, DockerError,
    Operation,
};
use agent_of_empires::lifecycle::{ContainerState, LifecycleError};
use agent_of_empires::reconcile::{
    delete_begin_for, delete_step, DeleteAction, DeleteEvent, DeletePhase,
};
use agent_of_empires::session::{Instance, SandboxInfo, Timestamp};

fn strings(v: &[&str]) -> Vec<String> {
    v.iter().map(|s| s.to_string()).collect()
}

fn container() -> DockerContainer {
    DockerContainer::new("abcd1234efgh", "alpine:latest")
}

#[test]
fn name_is_the_same_on_every_call() {
    let a = DockerContainer::generate_name("0123456789");
    let b = DockerContainer::generate_name("0123456789");
    assert_eq!(a, b);
    assert_eq!(a, "aoe-sandbox-01234567");
}

#[test]
fn name_of_exactly_eight_characters_is_whole() {
    assert_eq!(DockerContainer::generate_name("12345678"), "aoe-sandbox-12345678");
}

#[test]
fn name_counts_characters_not_bytes() {
    assert_eq!(DockerContainer::generate_name("ééééééééé"), "aoe-sandbox-éééééééé");
}

#[test]
fn name_of_empty_identifier_is_the_prefix() {
    assert_eq!(DockerContainer::generate_name(""), "aoe-sandbox-");
}

#[test]
fn new_container_keeps_name_and_image() {
    let c = container();
    assert_eq!(c.name, "aoe-sandbox-abcd1234");
    assert_eq!(c.image, "alpine:latest");
}

#[test]
fn query_arguments() {
    let c = container();
    assert_eq!(
        c.exists_args(),
        strings(&["ps", "-a", "-q", "--filter", "name=^aoe-sandbox-abcd1234$"])
    );
    assert_eq!(
        c.running_args(),
        strings(&[
            "ps",
            "-q",
            "--filter",
            "name=^aoe-sandbox-abcd1234$",
            "--filter",
            "status=running"
        ])
    );
    assert_eq!(c.stop_args(), strings(&["stop", "aoe-sandbox-abcd1234"]));
    assert_eq!(c.remove_args(false), strings(&["rm", "aoe-sandbox-abcd1234"]));
    assert_eq!(c.remove_args(true), strings(&["rm", "-f", "aoe-sandbox-abcd1234"]));
}

#[test]
fn create_arguments_minimal() {
    let config = ContainerConfig {
        working_dir: "/workspace".to_string(),
        volumes: vec![],
        named_volumes: vec![],
        environment: vec![],
        cpu_limit: None,
        memory_limit: None,
    };
    assert_eq!(
        container().create_args(&config),
        strings(&[
            "run",
            "-d",
            "--name",
            "aoe-sandbox-abcd1234",
            "-w",
            "/workspace",
            "alpine:latest"
        ])
    );
}

#[test]
fn create_arguments_full() {
    let config = ContainerConfig {
        working_dir: "/workspace".to_string(),
        volumes: vec![
            ("/home/u/proj".to_string(), "/workspace".to_string()),
            ("/home/u/.gitconfig".to_string(), "/root/.gitconfig:ro".to_string()),
        ],
        named_volumes: vec![("aoe-cache".to_string(), "/root/.cache".to_string())],
        environment: vec![
            ("TERM".to_string(), "xterm".to_string()),
            ("LANG".to_string(), "C.UTF-8".to_string()),
        ],
        cpu_limit: Some("2".to_string()),
        memory_limit: Some("4g".to_string()),
    };
    assert_eq!(
        container().create_args(&config),
        strings(&[
            "run",
            "-d",
            "--name",
            "aoe-sandbox-abcd1234",
            "-w",
            "/workspace",
            "-v",
            "/home/u/proj:/workspace",
            "-v",
            "/home/u/.gitconfig:/root/.gitconfig:ro",
            "-v",
            "aoe-cache:/root/.cache",
            "-e",
            "TERM=xterm",
            "-e",
            "LANG=C.UTF-8",
            "--cpus",
            "2",
            "--memory",
            "4g",
            "alpine:latest"
        ])
    );
}

#[test]
fn trimming_and_search() {
    assert_eq!(trim_output("  \tabc def\r\n"), "abc def");
    assert_eq!(trim_output(" \n "), "");
    assert_eq!(trim_output(""), "");
    assert!(text_contains("Error: No such container: x", "No such container"));
    assert!(!text_contains("No such", "No such container"));
    assert!(text_contains("abc", ""));
}

#[test]
fn listing_answers() {
    let c = container();
    assert_eq!(c.read_listing(true, "3f2a9c\n", ""), Ok(true));
    assert_eq!(c.read_listing(true, " \n", ""), Ok(false));
    assert_eq!(
        c.read_listing(false, "", "Cannot connect to the Docker daemon\n"),
        Err(DockerError::Rejected {
            op: Operation::Query,
            name: "aoe-sandbox-abcd1234".to_string(),
            message: "Cannot connect to the Docker daemon".to_string(),
        })
    );
}

#[test]
fn created_answers() {
    let c = container();
    assert_eq!(c.read_created(true, "deadbeef01\n", ""), Ok("deadbeef01".to_string()));
    assert_eq!(
        c.read_created(true, "\n", ""),
        Err(DockerError::EmptyId { name: "aoe-sandbox-abcd1234".to_string() })
    );
    assert_eq!(
        c.read_created(
            false,
            "",
            "docker: Error response from daemon: Conflict. The container name \"/aoe-sandbox-abcd1234\" is already in use."
        ),
        Err(DockerError::Conflict { name: "aoe-sandbox-abcd1234".to_string() })
    );
    assert_eq!(
        c.read_created(false, "", "invalid mount config\n"),
        Err(DockerError::Rejected {
            op: Operation::Create,
            name: "aoe-sandbox-abcd1234".to_string(),
            message: "invalid mount config".to_string(),
        })
    );
}

#[test]
fn stop_and_remove_answers() {
    let c = container();
    assert_eq!(c.read_done(Operation::Stop, true, ""), Ok(()));
    assert_eq!(
        c.read_done(Operation::Stop, false, "Error: No such container: aoe-sandbox-abcd1234"),
        Err(DockerError::NotFound { name: "aoe-sandbox-abcd1234".to_string() })
    );
    assert_eq!(
        c.read_done(
            Operation::Remove,
            false,
            "Error response from daemon: cannot remove container: container is running"
        ),
        Err(DockerError::StillRunning { name: "aoe-sandbox-abcd1234".to_string() })
    );
    assert_eq!(
        c.read_done(Operation::Stop, false, "permission denied"),
        Err(DockerError::Rejected {
            op: Operation::Stop,
            name: "aoe-sandbox-abcd1234".to_string(),
            message: "permission denied".to_string(),
        })
    );
}

#[test]
fn runtime_probes() {
    assert_eq!(check_runtime(false, false), Err(DockerError::NotInstalled));
    assert_eq!(check_runtime(false, true), Err(DockerError::NotInstalled));
    assert_eq!(check_runtime(true, false), Err(DockerError::DaemonNotRunning));
    assert_eq!(check_runtime(true, true), Ok(()));
}

#[test]
fn lifecycle_refusals() {
    let mut s = ContainerState::Running;
    assert_eq!(s.create(), Err(LifecycleError::AlreadyExists));
    assert_eq!(s, ContainerState::Running);

    let mut s = ContainerState::Absent;
    assert_eq!(s.stop(), Err(LifecycleError::NotFound));
    assert_eq!(s.remove(true), Err(LifecycleError::NotFound));
    assert_eq!(s, ContainerState::Absent);

    let mut s = ContainerState::Stopped;
    assert_eq!(s.stop(), Ok(()));
    assert_eq!(s, ContainerState::Stopped);
    assert_eq!(s.remove(true), Ok(()));
    assert_eq!(s, ContainerState::Absent);
}

#[test]
fn observed_states() {
    assert_eq!(ContainerState::observe(false, true), ContainerState::Absent);
    assert_eq!(ContainerState::observe(true, true), ContainerState::Running);
    assert_eq!(ContainerState::observe(true, false), ContainerState::Stopped);
}

#[test]
fn timestamps() {
    assert_eq!(
        Timestamp::from_parts(1_700_000_000, 999_999_999),
        Some(Timestamp { secs: 1_700_000_000, nanos: 999_999_999 })
    );
    assert_eq!(Timestamp::from_parts(0, 1_000_000_000), None);
}

#[test]
fn recording_a_created_container() {
    let mut inst = Instance::new("sandbox-session", "/tmp/project");
    let at = Timestamp { secs: 10, nanos: 5 };
    let r = inst.record_created(
        "aoe-sandbox-sandbox-".to_string(),
        "custom:image".to_string(),
        Ok("container123".to_string()),
        at,
        Some(true),
    );
    assert_eq!(r, Ok(()));
    assert!(inst.is_sandboxed());
    assert_eq!(
        inst.sandbox_info,
        Some(SandboxInfo {
            enabled: true,
            container_id: Some("container123".to_string()),
            image: Some("custom:image".to_string()),
            container_name: "aoe-sandbox-sandbox-".to_string(),
            created_at: Some(at),
            yolo_mode: Some(true),
        })
    );

    inst.clear_sandbox();
    assert!(!inst.is_sandboxed());
    let info = inst.sandbox_info.clone().unwrap();
    assert!(!info.enabled);
    assert_eq!(info.container_id, None);
    assert_eq!(info.image, Some("custom:image".to_string()));
    assert_eq!(info.created_at, Some(at));
}

#[test]
fn failed_creation_leaves_session_unchanged() {
    let mut inst = Instance::new("s1", "/tmp/p");
    let r = inst.record_created(
        "aoe-sandbox-s1".to_string(),
        "img".to_string(),
        Err(DockerError::Conflict { name: "aoe-sandbox-s1".to_string() }),
        Timestamp { secs: 0, nanos: 0 },
        None,
    );
    assert_eq!(r, Err(DockerError::Conflict { name: "aoe-sandbox-s1".to_string() }));
    assert!(inst.sandbox_info.is_none());
    assert!(!inst.is_sandboxed());
}

#[test]
fn clearing_without_record_keeps_none() {
    let mut inst = Instance::new("s1", "/tmp/p");
    inst.clear_sandbox();
    assert!(inst.sandbox_info.is_none());
}

#[test]
fn deleting_a_host_session_does_nothing() {
    let inst = Instance::new("s1", "/tmp/p");
    assert_eq!(delete_begin_for(&inst), (DeletePhase::Finished, DeleteAction::Nothing));
}

#[test]
fn deleting_a_sandboxed_session() {
    let mut inst = Instance::new("s1", "/tmp/p");
    inst.sandbox_info = Some(SandboxInfo {
        enabled: true,
        container_id: Some("c".to_string()),
        image: None,
        container_name: "aoe-sandbox-s1".to_string(),
        created_at: None,
        yolo_mode: None,
    });
    let (p, a) = delete_begin_for(&inst);
    assert_eq!((p, a), (DeletePhase::Stopping, DeleteAction::Stop));
    let (p, a) = delete_step(p, DeleteEvent::Succeeded);
    assert_eq!((p, a), (DeletePhase::Removing, DeleteAction::Remove { force: false }));
    let (p, a) = delete_step(p, DeleteEvent::Succeeded);
    assert_eq!((p, a), (DeletePhase::Confirming, DeleteAction::CheckExists));
    let (p, a) = delete_step(p, DeleteEvent::Listed { exists: false });
    assert_eq!((p, a), (DeletePhase::Finished, DeleteAction::ClearRecord));
    assert_eq!(delete_step(p, DeleteEvent::Refused), (DeletePhase::Finished, DeleteAction::Nothing));
}

#[test]
fn deletion_falls_back_to_force_and_keeps_record_if_container_stays() {
    let (p, _) = delete_step(DeletePhase::Stopping, DeleteEvent::Refused);
    let (p, a) = delete_step(p, DeleteEvent::Refused);
    assert_eq!((p, a), (DeletePhase::ForceRemoving, DeleteAction::Remove { force: true }));
    let (p, a) = delete_step(p, DeleteEvent::Refused);
    assert_eq!((p, a), (DeletePhase::Confirming, DeleteAction::CheckExists));
    let (p, a) = delete_step(p, DeleteEvent::Listed { exists: true });
    assert_eq!((p, a), (DeletePhase::Failed, DeleteAction::KeepRecord));
    let (p, a) = delete_step(DeletePhase::Confirming, DeleteEvent::Refused);
    assert_eq!((p, a), (DeletePhase::Failed, DeleteAction::KeepRecord));
}

#[test]
fn sounds_lookup() {
    let sounds = vec!["bell".to_string(), "chime".to_string()];
    assert!(sound_installed(&sounds, "chime"));
    assert!(!sound_installed(&sounds, "chim"));
    assert!(!sound_installed(&vec![], "bell"));
    let cmd = SoundsCommands::Test { name: "bell".to_string() };
    assert_eq!(cmd, SoundsCommands::Test { name: "bell".to_string() });
    assert_ne!(SoundsCommands::List, SoundsCommands::Install);
}
