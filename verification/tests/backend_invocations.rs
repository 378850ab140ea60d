use cmd_sandbox::backend::{
    container_list_invocation, container_start_invocation, container_stop_invocation,
    get_command_parts, Backend, Platform,
};
use cmd_sandbox::root::SandboxRoot;

fn views(args: &[String]) -> Vec<&str> {
    args.iter().map(|a| a.as_str()).collect()
}

#[test]
fn direct_backend_uses_platform_shell() {
    let root = SandboxRoot::from_raw("/work");
    let (program, args) = get_command_parts(
        "echo hello",
        &Backend::Direct { platform: Platform::Linux },
        &root,
        "",
    );
    assert_eq!(program, "/bin/sh");
    assert_eq!(views(&args), ["-c", "echo hello"]);

    let (program, args) = get_command_parts(
        "dir",
        &Backend::Direct { platform: Platform::Windows },
        &root,
        "",
    );
    assert_eq!(program, "cmd");
    assert_eq!(views(&args), ["/C", "dir"]);

    let (program, args) = get_command_parts(
        "ls",
        &Backend::Direct { platform: Platform::MacOs },
        &root,
        "",
    );
    assert_eq!(program, "/bin/zsh");
    assert_eq!(views(&args), ["-c", "ls"]);

    let (program, _) = get_command_parts(
        "ls",
        &Backend::Direct { platform: Platform::OtherUnix },
        &root,
        "",
    );
    assert_eq!(program, "/bin/sh");
}

#[test]
fn bind_mount_backend_wraps_the_shell() {
    let root = SandboxRoot::from_raw("/home/user/sandbox");
    let (program, args) =
        get_command_parts("make test", &Backend::BindMountNamespace, &root, "");
    assert_eq!(program, "bwrap");
    assert_eq!(
        views(&args),
        [
            "--ro-bind",
            "/",
            "/",
            "--bind",
            "/home/user/sandbox",
            "/home/user/sandbox",
            "--dev",
            "/dev",
            "--proc",
            "/proc",
            "/bin/sh",
            "-c",
            "make test",
        ]
    );
}

#[test]
fn syscall_filter_backend_presplits_the_command() {
    let root = SandboxRoot::from_raw("/work");
    let (program, args) = get_command_parts("ls -la /tmp", &Backend::SyscallFilter, &root, "");
    assert_eq!(program, "ls");
    assert_eq!(views(&args), ["-la", "/tmp"]);

    let (program, args) = get_command_parts("pwd", &Backend::SyscallFilter, &root, "");
    assert_eq!(program, "pwd");
    assert!(args.is_empty());
}

#[test]
fn persistent_container_backend_joins_by_name() {
    let root = SandboxRoot::from_raw("/work");
    let (program, args) =
        get_command_parts("echo hi", &Backend::PersistentContainer, &root, "sandbox_42");
    assert_eq!(program, "podman");
    assert_eq!(
        views(&args),
        ["exec", "--interactive", "--workdir", "/work", "sandbox_42", "/bin/sh", "-c", "echo hi"]
    );
}

#[test]
fn container_start_restricts_the_supervisor() {
    let root = SandboxRoot::from_raw("/work");
    let (program, args) = container_start_invocation("sandbox_7", &root);
    assert_eq!(program, "podman");
    assert_eq!(
        views(&args),
        [
            "run",
            "--rm",
            "--detach",
            "--name",
            "sandbox_7",
            "--network",
            "none",
            "--cap-drop",
            "ALL",
            "--tmpfs",
            "/tmp",
            "--volume",
            "/work:/work",
            "--workdir",
            "/work",
            "alpine",
            "sleep",
            "infinity",
        ]
    );
}

#[test]
fn container_stop_names_the_context() {
    let (program, args) = container_stop_invocation("sandbox_7");
    assert_eq!(program, "podman");
    assert_eq!(views(&args), ["rm", "--force", "sandbox_7"]);
}

#[test]
fn container_list_queries_names() {
    let (program, args) = container_list_invocation();
    assert_eq!(program, "podman");
    assert_eq!(views(&args), ["ps", "--format", "{{.Names}}"]);
}

#[test]
fn sandbox_root_strips_verbatim_prefix() {
    let root = SandboxRoot::from_raw("\\\\?\\C:\\work");
    assert_eq!(root.as_str(), "C:\\work");
}

#[test]
fn sandbox_root_keeps_ordinary_paths() {
    let root = SandboxRoot::from_raw("/home/user");
    assert_eq!(root.as_str(), "/home/user");
}

#[test]
fn sandbox_root_falls_back_to_current_directory() {
    let root = SandboxRoot::from_raw("");
    assert_eq!(root.as_str(), ".");
    let root = SandboxRoot::from_raw("\\\\?\\");
    assert_eq!(root.as_str(), ".");
}
