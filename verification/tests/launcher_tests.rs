use sidecar_supervisor::launcher::{
    detect_launch_mode, plan_launch, resolve_data_directory, LaunchMode, LaunchRequest,
};

#[test]
fn empty_request_resolves_to_platform_default() {
    let request = LaunchRequest { data_directory: Some(b"".to_vec()) };
    let plan = plan_launch(&request, b"/home/user", b"/opt/app");
    assert_eq!(plan.data_dir, b"/home/user/.sidecar".to_vec());
    assert_eq!(
        plan.dirs_to_create,
        vec![
            b"/home/user/.sidecar".to_vec(),
            b"/home/user/.sidecar/logs".to_vec(),
            b"/home/user/.sidecar/cache".to_vec(),
        ]
    );
}

#[test]
fn absent_request_resolves_to_platform_default() {
    let dir = resolve_data_directory(&None, b"/home/user");
    assert_eq!(dir, b"/home/user/.sidecar".to_vec());
}

#[test]
fn supplied_directory_is_kept() {
    let request = LaunchRequest { data_directory: Some(b"/srv/data".to_vec()) };
    let plan = plan_launch(&request, b"/home/user", b"/opt/app");
    assert_eq!(plan.data_dir, b"/srv/data".to_vec());
    assert_eq!(
        plan.dirs_to_create,
        vec![
            b"/srv/data".to_vec(),
            b"/srv/data/logs".to_vec(),
            b"/srv/data/cache".to_vec(),
        ]
    );
}

#[test]
fn environment_handoff_uses_one_variable() {
    let request = LaunchRequest { data_directory: Some(b"/srv/data".to_vec()) };
    let plan = plan_launch(&request, b"/home/user", b"/opt/app");
    assert_eq!(plan.env_key, b"DATA_DIR".to_vec());
    assert_eq!(plan.env_value, b"/srv/data".to_vec());
}

#[test]
fn development_tree_means_interpreted_mode() {
    assert_eq!(
        detect_launch_mode(b"/code/app/target/debug"),
        LaunchMode::Interpreted
    );
    let request = LaunchRequest { data_directory: None };
    let plan = plan_launch(&request, b"/home/user", b"/code/app/target/debug");
    assert_eq!(plan.mode, LaunchMode::Interpreted);
    assert_eq!(plan.program, b"bun".to_vec());
    assert_eq!(plan.args, vec![b"/code/app/target/debug/sidecar/server.ts".to_vec()]);
}

#[test]
fn packaged_install_means_standalone_mode() {
    assert_eq!(detect_launch_mode(b"/usr/lib/app"), LaunchMode::Standalone);
    let request = LaunchRequest { data_directory: None };
    let plan = plan_launch(&request, b"/home/user", b"/usr/lib/app");
    assert_eq!(plan.mode, LaunchMode::Standalone);
    assert_eq!(plan.program, b"/usr/lib/app/bun-sidecar".to_vec());
    assert!(plan.args.is_empty());
}
