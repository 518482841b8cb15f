//! The project commands' own decisions: `robo up`'s steps and what it
//! reports, the state `robo shell` shows when already inside a runtime,
//! and the answers a confirmation prompt accepts.
use vstd::prelude::*;
use crate::host_bridge::{auto_host_cuda_driver_path, auto_host_graphics_library_dirs, auto_host_graphics_manifests};
use crate::shell_env::{env_lookup, env_pairs};
use crate::text::{chars_of, concat, eq_str, file_name, lower, opt_str, string_of, strs, trim, Sep};

verus! {

/// The name of a shell: its file name, or the text itself when it has
/// none.
pub fn shell_name(shell: &str) -> (r: String)
    ensures
        r@ == match file_name(shell@) {
            Some(n) => n,
            None => shell@,
        },
{
    match crate::text::file_name_str(shell) {
        Some(n) => string_of(&n),
        None => shell.to_string(),
    }
}

/// A confirmation answer that accepts: empty, `y` or `yes`, ignoring case
/// and surrounding whitespace.
pub open spec fn accepts(answer: Seq<char>) -> bool {
    let a = lower(trim(answer, Sep::Whitespace));
    a.len() == 0 || a == "y"@ || a == "yes"@
}

pub fn is_yes_answer(answer: &str) -> (r: bool)
    ensures
        r == accepts(answer@),
{
    let a = crate::text::lowercase(&crate::text::trim_ws(&chars_of(answer)));
    a.len() == 0 || eq_str(&a, "y") || eq_str(&a, "yes")
}

/// `robo up` asks nothing when `--yes`, `--force` or `--shell` is given.
pub fn up_implicit_yes(yes: bool, force: bool, open_shell: bool) -> (r: bool)
    ensures
        r == (yes || force || open_shell),
{
    yes || force || open_shell
}

/// What `robo up` does about a target directory that may not exist.
#[derive(PartialEq, Eq, Structural, Clone, Copy, Debug)]
pub enum UpTarget {
    /// The directory is there.
    Exists,
    /// Create it without asking.
    Create,
    /// Ask before creating it.
    ConfirmCreate,
}

pub fn up_target(exists: bool, implicit_yes: bool) -> (r: UpTarget)
    ensures
        r == (if exists {
            UpTarget::Exists
        } else if implicit_yes {
            UpTarget::Create
        } else {
            UpTarget::ConfirmCreate
        }),
{
    if exists {
        UpTarget::Exists
    } else if implicit_yes {
        UpTarget::Create
    } else {
        UpTarget::ConfirmCreate
    }
}

/// What `robo up` does about the runtime files. They are generated only
/// when `flake.nix` or `robo.nix` is missing; once both exist they are the
/// user's and are left alone.
#[derive(PartialEq, Eq, Structural, Clone, Copy, Debug)]
pub enum UpInit {
    /// Both files exist: nothing is generated.
    AlreadyInitialized,
    /// Generate them now; `announce` says whether to print that it does.
    Initialize(bool),
    /// Ask before generating them.
    Confirm,
}

pub fn up_init(flake_exists: bool, robo_nix_exists: bool, open_shell: bool, implicit_yes: bool) -> (r: UpInit)
    ensures
        r == (if flake_exists && robo_nix_exists {
            UpInit::AlreadyInitialized
        } else if open_shell {
            UpInit::Initialize(true)
        } else if implicit_yes {
            UpInit::Initialize(false)
        } else {
            UpInit::Confirm
        }),
{
    if flake_exists && robo_nix_exists {
        UpInit::AlreadyInitialized
    } else if open_shell {
        UpInit::Initialize(true)
    } else if implicit_yes {
        UpInit::Initialize(false)
    } else {
        UpInit::Confirm
    }
}

/// What `robo up` reports it found in the runtime shell's variables: the
/// host CUDA driver, the NVIDIA graphics vendor files and their libraries.
pub open spec fn detection_messages(env: Seq<(Seq<char>, Seq<char>)>) -> Seq<Seq<char>> {
    (match env_lookup(env, "ROBO_NIX_HOST_LIBCUDA_AUTO"@) {
        Some(p) => seq!["up: detected NVIDIA CUDA driver at "@ + p],
        None => Seq::empty(),
    }) + (match env_lookup(env, "ROBO_NIX_HOST_GRAPHICS_AUTO"@) {
        Some(m) => seq!["up: detected NVIDIA graphics manifests: "@ + m],
        None => Seq::empty(),
    }) + (match env_lookup(env, "ROBO_NIX_HOST_GRAPHICS_LIB_DIRS_AUTO"@) {
        Some(d) => seq!["up: detected NVIDIA graphics libraries at "@ + d],
        None => Seq::empty(),
    })
}

pub fn up_detection_messages(envs: &Vec<(String, String)>) -> (r: Vec<String>)
    ensures
        strs(r@) == detection_messages(env_pairs(envs@)),
{
    let mut out: Vec<String> = Vec::new();
    match auto_host_cuda_driver_path(envs) {
        Some(p) => {
            out.push(concat("up: detected NVIDIA CUDA driver at ", p.as_str()));
        },
        None => {},
    }
    let ghost o1 = strs(out@);
    match auto_host_graphics_manifests(envs) {
        Some(m) => {
            let ghost prev = out@;
            out.push(concat("up: detected NVIDIA graphics manifests: ", m.as_str()));
            proof {
                crate::text::lemma_strs_push(prev, out@.last());
            }
        },
        None => {},
    }
    match auto_host_graphics_library_dirs(envs) {
        Some(d) => {
            let ghost prev = out@;
            out.push(concat("up: detected NVIDIA graphics libraries at ", d.as_str()));
            proof {
                crate::text::lemma_strs_push(prev, out@.last());
            }
        },
        None => {},
    }
    assert(strs(out@) =~= detection_messages(env_pairs(envs@)));
    out
}

/// What `robo shell` shows when a runtime is already active.
pub struct RuntimeState {
    pub active: bool,
    pub env_name: String,
    pub python_version: String,
    pub workspace: String,
    pub shell: Option<String>,
}

/// The state from the environment: the runtime's own variables first,
/// then what `robo.nix` declares (read only outside an active runtime),
/// else `unknown`.
pub fn runtime_state(
    active: bool,
    env_name: Option<String>,
    python_version: Option<String>,
    runtime: Option<&crate::runtime::ProjectRuntime>,
    workspace: String,
    shell: Option<String>,
) -> (r: RuntimeState)
    ensures
        r.active == active,
        r.env_name@ == match env_name {
            Some(n) => n@,
            None => match runtime {
                Some(rt) => rt.env_name@,
                None => "unknown"@,
            },
        },
        r.python_version@ == match python_version {
            Some(v) => v@,
            None => match runtime {
                Some(rt) => rt.python_version@,
                None => "unknown"@,
            },
        },
        r.workspace@ == workspace@,
        opt_str(r.shell) == opt_str(shell),
{
    let env_name = match env_name {
        Some(n) => n,
        None => match runtime {
            Some(rt) => rt.env_name.clone(),
            None => "unknown".to_string(),
        },
    };
    let python_version = match python_version {
        Some(v) => v,
        None => match runtime {
            Some(rt) => rt.python_version.clone(),
            None => "unknown".to_string(),
        },
    };
    RuntimeState { active, env_name, python_version, workspace, shell }
}

/// The Nix system name of a machine (`std::env::consts::ARCH` and `OS`);
/// other machines are named by their OS.
pub fn nix_system_name(arch: &str, os: &str) -> (r: String)
    ensures
        r@ == (if arch@ == "x86_64"@ && os@ == "linux"@ {
            "x86_64-linux"@
        } else if arch@ == "aarch64"@ && os@ == "linux"@ {
            "aarch64-linux"@
        } else if arch@ == "x86_64"@ && os@ == "macos"@ {
            "x86_64-darwin"@
        } else if arch@ == "aarch64"@ && os@ == "macos"@ {
            "aarch64-darwin"@
        } else {
            os@
        }),
{
    let x86 = crate::text::str_eq(arch, "x86_64");
    let arm = crate::text::str_eq(arch, "aarch64");
    let linux = crate::text::str_eq(os, "linux");
    let mac = crate::text::str_eq(os, "macos");
    if x86 && linux {
        "x86_64-linux".to_string()
    } else if arm && linux {
        "aarch64-linux".to_string()
    } else if x86 && mac {
        "x86_64-darwin".to_string()
    } else if arm && mac {
        "aarch64-darwin".to_string()
    } else {
        os.to_string()
    }
}

/// The exit code robo ends with after a command it ran: the command's own
/// code when it is one, else 1.
pub fn exit_code_of(code: Option<i32>) -> (r: u8)
    ensures
        r as int == match code {
            Some(c) => if 0 <= c <= 255 {
                c as int
            } else {
                1
            },
            None => 1,
        },
{
    match code {
        Some(c) => if 0 <= c && c <= 255 {
            c as u8
        } else {
            1
        },
        None => 1,
    }
}

/// How many leading arguments `robo run` drops: a leading `uv run` is
/// implied, so it is dropped.
pub fn uv_run_prefix(first: Option<&str>, second: Option<&str>) -> (r: usize)
    ensures
        r == (if (first matches Some(a) && a@ == "uv"@) && (second matches Some(b) && b@ == "run"@) {
            2usize
        } else {
            0usize
        }),
{
    match (first, second) {
        (Some(a), Some(b)) => if crate::text::str_eq(a, "uv") && crate::text::str_eq(b, "run") {
            2
        } else {
            0
        },
        _ => 0,
    }
}

} // verus!
