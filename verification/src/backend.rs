//! Isolation backends: each maps a raw shell command into the concrete
//! process invocation that enforces its isolation guarantee.
//!
//! The backend in use is chosen once at startup by the host, which probes
//! what the machine offers (helper binaries, container tooling); building the
//! invocation itself is pure text work and is verified here.

use vstd::prelude::*;

use crate::root::SandboxRoot;
use crate::text::{is_blank, lemma_words_from_blank, words_of};

verus! {

/// The host platform, probed at startup.  It decides which default shell the
/// no-isolation backend invokes.
#[derive(Clone, Copy, PartialEq, Eq, Structural, Debug)]
pub enum Platform {
    Windows,
    MacOs,
    Linux,
    OtherUnix,
}

/// The isolation mechanisms this subsystem knows how to drive.
#[derive(Clone, Copy, PartialEq, Eq, Structural, Debug)]
pub enum Backend {
    /// Working-directory confinement only: the platform's default shell runs
    /// the whole command line.
    Direct { platform: Platform },
    /// Filesystem isolation through a bind-mount namespace helper: the whole
    /// filesystem is re-mounted read-only except the sandbox root, with
    /// minimal device and proc views.
    BindMountNamespace,
    /// Per-process syscall filtering: the host installs a filesystem
    /// allow-list rule-set before exec.  The command must be pre-split into
    /// program and arguments so the target executable can be checked, so
    /// shell metacharacters are not interpreted on this backend — a known
    /// limitation.
    SyscallFilter,
    /// A long-lived capability-dropped container started once and joined by
    /// every subsequent command.
    PersistentContainer,
}

/// The default shell program of a platform.
pub open spec fn spec_shell_program(p: Platform) -> Seq<char> {
    match p {
        Platform::Windows => "cmd"@,
        Platform::MacOs => "/bin/zsh"@,
        Platform::Linux => "/bin/sh"@,
        Platform::OtherUnix => "/bin/sh"@,
    }
}

/// The flag that makes the shell run one command line.
pub open spec fn spec_shell_flag(p: Platform) -> Seq<char> {
    match p {
        Platform::Windows => "/C"@,
        _ => "-c"@,
    }
}

/// The invocation each backend builds for one command: the program to spawn
/// and its arguments.  `root` is the sandbox root path, `context` the name of
/// the active isolation context (read only by the persistent-container
/// backend).
pub open spec fn spec_command_parts(
    command: Seq<char>,
    backend: Backend,
    root: Seq<char>,
    context: Seq<char>,
) -> (Seq<char>, Seq<Seq<char>>) {
    match backend {
        Backend::Direct { platform } => (
            spec_shell_program(platform),
            seq![spec_shell_flag(platform), command],
        ),
        Backend::BindMountNamespace => (
            "bwrap"@,
            seq![
                "--ro-bind"@,
                "/"@,
                "/"@,
                "--bind"@,
                root,
                root,
                "--dev"@,
                "/dev"@,
                "--proc"@,
                "/proc"@,
                "/bin/sh"@,
                "-c"@,
                command,
            ],
        ),
        Backend::SyscallFilter => (words_of(command)[0], words_of(command).drop_first()),
        Backend::PersistentContainer => (
            "podman"@,
            seq![
                "exec"@,
                "--interactive"@,
                "--workdir"@,
                root,
                context,
                "/bin/sh"@,
                "-c"@,
                command,
            ],
        ),
    }
}

/// Builds the backend-specific invocation for one command.
///
/// The syscall-filter backend needs at least one word to name the program,
/// so a blank command is excluded there; the runner rejects blank commands
/// before any invocation is built.
pub fn get_command_parts(
    command: &str,
    backend: &Backend,
    root: &SandboxRoot,
    context_name: &str,
) -> (r: (String, Vec<String>))
    requires
        (*backend matches Backend::SyscallFilter) ==> !is_blank(command@),
    ensures
        r.0@ == spec_command_parts(command@, *backend, root@, context_name@).0,
        r.1.deep_view() == spec_command_parts(command@, *backend, root@, context_name@).1,
        r.0@.len() > 0,
{
    proof {
        reveal_strlit("cmd");
        reveal_strlit("/bin/zsh");
        reveal_strlit("/bin/sh");
        reveal_strlit("bwrap");
        reveal_strlit("podman");
    }
    match backend {
        Backend::Direct { platform } => {
            let program = match platform {
                Platform::Windows => String::from_str("cmd"),
                Platform::MacOs => String::from_str("/bin/zsh"),
                Platform::Linux => String::from_str("/bin/sh"),
                Platform::OtherUnix => String::from_str("/bin/sh"),
            };
            let flag = match platform {
                Platform::Windows => String::from_str("/C"),
                Platform::MacOs => String::from_str("-c"),
                Platform::Linux => String::from_str("-c"),
                Platform::OtherUnix => String::from_str("-c"),
            };
            let mut args: Vec<String> = Vec::new();
            args.push(flag);
            args.push(String::from_str(command));
            proof {
                assert(args.deep_view() =~= spec_command_parts(
                    command@,
                    *backend,
                    root@,
                    context_name@,
                ).1);
            }
            (program, args)
        },
        Backend::BindMountNamespace => {
            let program = String::from_str("bwrap");
            let mut args: Vec<String> = Vec::new();
            args.push(String::from_str("--ro-bind"));
            args.push(String::from_str("/"));
            args.push(String::from_str("/"));
            args.push(String::from_str("--bind"));
            args.push(String::from_str(root.as_str()));
            args.push(String::from_str(root.as_str()));
            args.push(String::from_str("--dev"));
            args.push(String::from_str("/dev"));
            args.push(String::from_str("--proc"));
            args.push(String::from_str("/proc"));
            args.push(String::from_str("/bin/sh"));
            args.push(String::from_str("-c"));
            args.push(String::from_str(command));
            proof {
                assert(args.deep_view() =~= spec_command_parts(
                    command@,
                    *backend,
                    root@,
                    context_name@,
                ).1);
            }
            (program, args)
        },
        Backend::SyscallFilter => {
            let ws = split_words_nonblank(command);
            proof {
                crate::text::lemma_words_are_words(command@, 0);
            }
            let program = ws[0].clone();
            proof {
                assert(program@ == ws.deep_view()[0]);
            }
            let mut args: Vec<String> = Vec::new();
            let mut i: usize = 1;
            while i < ws.len()
                invariant
                    1 <= i <= ws.len(),
                    ws.deep_view() == words_of(command@),
                    ws@.len() == words_of(command@).len(),
                    args@.len() == i - 1,
                    args.deep_view() == words_of(command@).subrange(1, i as int),
                decreases ws.len() - i,
            {
                let w = ws[i].clone();
                proof {
                    assert(w@ == ws.deep_view()[i as int]);
                }
                args.push(w);
                proof {
                    assert(args.deep_view() =~= words_of(command@).subrange(1, i as int + 1));
                }
                i += 1;
            }
            proof {
                assert(args.deep_view() =~= words_of(command@).drop_first());
            }
            (program, args)
        },
        Backend::PersistentContainer => {
            let program = String::from_str("podman");
            let mut args: Vec<String> = Vec::new();
            args.push(String::from_str("exec"));
            args.push(String::from_str("--interactive"));
            args.push(String::from_str("--workdir"));
            args.push(String::from_str(root.as_str()));
            args.push(String::from_str(context_name));
            args.push(String::from_str("/bin/sh"));
            args.push(String::from_str("-c"));
            args.push(String::from_str(command));
            proof {
                assert(args.deep_view() =~= spec_command_parts(
                    command@,
                    *backend,
                    root@,
                    context_name@,
                ).1);
            }
            (program, args)
        },
    }
}

/// Splits a command known not to be blank; the result has at least one word.
fn split_words_nonblank(command: &str) -> (ws: Vec<String>)
    requires
        !is_blank(command@),
    ensures
        ws.deep_view() == words_of(command@),
        ws.len() > 0,
{
    let ws = crate::text::split_words(command);
    proof {
        lemma_words_from_blank(command@, 0);
    }
    ws
}

/// The invocation that starts the persistent container supervisor: detached,
/// with networking off, capabilities dropped, a private tmpfs, and the
/// sandbox root as the only writable host area.
pub open spec fn spec_container_start(name: Seq<char>, root: Seq<char>) -> (Seq<char>, Seq<
    Seq<char>,
>) {
    (
        "podman"@,
        seq![
            "run"@,
            "--rm"@,
            "--detach"@,
            "--name"@,
            name,
            "--network"@,
            "none"@,
            "--cap-drop"@,
            "ALL"@,
            "--tmpfs"@,
            "/tmp"@,
            "--volume"@,
            root + ":"@ + root,
            "--workdir"@,
            root,
            "alpine"@,
            "sleep"@,
            "infinity"@,
        ],
    )
}

/// Builds the supervisor start invocation for a context name.
pub fn container_start_invocation(name: &str, root: &SandboxRoot) -> (r: (String, Vec<String>))
    ensures
        r.0@ == spec_container_start(name@, root@).0,
        r.1.deep_view() == spec_container_start(name@, root@).1,
{
    let program = String::from_str("podman");
    let mut volume = String::from_str(root.as_str());
    volume.append(":");
    volume.append(root.as_str());
    let mut args: Vec<String> = Vec::new();
    args.push(String::from_str("run"));
    args.push(String::from_str("--rm"));
    args.push(String::from_str("--detach"));
    args.push(String::from_str("--name"));
    args.push(String::from_str(name));
    args.push(String::from_str("--network"));
    args.push(String::from_str("none"));
    args.push(String::from_str("--cap-drop"));
    args.push(String::from_str("ALL"));
    args.push(String::from_str("--tmpfs"));
    args.push(String::from_str("/tmp"));
    args.push(String::from_str("--volume"));
    args.push(volume);
    args.push(String::from_str("--workdir"));
    args.push(String::from_str(root.as_str()));
    args.push(String::from_str("alpine"));
    args.push(String::from_str("sleep"));
    args.push(String::from_str("infinity"));
    proof {
        assert(args.deep_view() =~= spec_container_start(name@, root@).1);
    }
    (program, args)
}

/// The invocation that shuts the persistent container down by name.
pub open spec fn spec_container_stop(name: Seq<char>) -> (Seq<char>, Seq<Seq<char>>) {
    ("podman"@, seq!["rm"@, "--force"@, name])
}

/// Builds the supervisor shutdown invocation for a context name.
pub fn container_stop_invocation(name: &str) -> (r: (String, Vec<String>))
    ensures
        r.0@ == spec_container_stop(name@).0,
        r.1.deep_view() == spec_container_stop(name@).1,
{
    let program = String::from_str("podman");
    let mut args: Vec<String> = Vec::new();
    args.push(String::from_str("rm"));
    args.push(String::from_str("--force"));
    args.push(String::from_str(name));
    proof {
        assert(args.deep_view() =~= spec_container_stop(name@).1);
    }
    (program, args)
}

/// The query that lists the names of the active isolation contexts; readiness
/// polling looks for the new context's name in its output.
pub open spec fn spec_container_list() -> (Seq<char>, Seq<Seq<char>>) {
    ("podman"@, seq!["ps"@, "--format"@, "{{.Names}}"@])
}

/// Builds the active-context query invocation.
pub fn container_list_invocation() -> (r: (String, Vec<String>))
    ensures
        r.0@ == spec_container_list().0,
        r.1.deep_view() == spec_container_list().1,
{
    let program = String::from_str("podman");
    let mut args: Vec<String> = Vec::new();
    args.push(String::from_str("ps"));
    args.push(String::from_str("--format"));
    args.push(String::from_str("{{.Names}}"));
    proof {
        assert(args.deep_view() =~= spec_container_list().1);
    }
    (program, args)
}

} // verus!
