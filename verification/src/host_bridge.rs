//! Bridging host NVIDIA driver libraries into the project shell: which
//! runtimes need the host CUDA driver or host graphics, and the variables
//! the shell gets for them.
use vstd::prelude::*;
use crate::json::{json_document, parse_json, JsonValue};
use crate::runtime::{has_component, runtime_has_component, ProjectRuntime};
use crate::shell_env::{entries_named, env_lookup, env_pairs, env_set, set_shell_env, shell_env_value};
use crate::text::{
    chars_of, contains, eq_chars, eq_str, is_prefix, lower, opt_str, rfind, split, string_of, trim,
    trim_end, Sep,
};

verus! {

/// A runtime needs the host's `libcuda` when it installs CUDA wheels or
/// runs Isaac Sim.
pub fn runtime_needs_host_cuda_driver(runtime: &ProjectRuntime) -> (r: bool)
    ensures
        r == (runtime.cuda_wheel_version is Some || has_component(*runtime, "isaac-sim"@)),
{
    runtime.cuda_wheel_version.is_some() || runtime_has_component(runtime, "isaac-sim")
}

/// A runtime needs the host's NVIDIA graphics stack when it asks for the
/// `host-nvidia-gl` component.
pub fn runtime_needs_host_nvidia_graphics(runtime: &ProjectRuntime) -> (r: bool)
    ensures
        r == has_component(*runtime, "host-nvidia-gl"@),
{
    runtime_has_component(runtime, "host-nvidia-gl")
}

/// An EGL vendor file from a Nix store Mesa.
pub open spec fn nix_mesa(v: Seq<char>) -> bool {
    is_prefix("/nix/store/"@, v) && contains(v, "mesa-"@)
}

pub fn egl_vendor_is_nix_mesa(value: Option<&String>) -> (r: bool)
    ensures
        r == (value matches Some(v) && nix_mesa(v@)),
{
    match value {
        Some(v) => {
            let s = chars_of(v.as_str());
            crate::text::starts_with_str(&s, "/nix/store/") && crate::text::contains_str(&s, "mesa-")
        },
        None => false,
    }
}

/// Whether a `:`-separated path list has `needle` as one of its entries.
pub fn path_list_contains(paths: &str, needle: &str) -> (r: bool)
    ensures
        r == split(paths@, Sep::Char(':')).contains(needle@),
{
    let pieces = crate::text::split_str(&chars_of(paths), ':');
    let ghost pv = crate::text::views(pieces@);
    let n = chars_of(needle);
    let mut i: usize = 0;
    while i < pieces.len()
        invariant
            i <= pieces.len(),
            pv == crate::text::views(pieces@),
            pv == split(paths@, Sep::Char(':')),
            n@ == needle@,
            forall|k: int| 0 <= k < i ==> pv[k] != needle@,
        decreases pieces.len() - i,
    {
        assert(pv[i as int] == pieces@[i as int]@);
        if eq_chars(&pieces[i], &n) {
            assert(pv[i as int] == needle@);
            return true;
        }
        i = i + 1;
    }
    proof {
        if pv.contains(needle@) {
            let k = choose|k: int| 0 <= k < pv.len() && pv[k] == needle@;
        }
    }
    false
}

/// The words that switch a flag on, compared without case or surrounding
/// whitespace.
pub open spec fn flag_word(w: Seq<char>) -> bool {
    w == "1"@ || w == "true"@ || w == "yes"@ || w == "on"@
}

/// Whether an environment flag's value switches it on.
pub fn env_flag_enabled(value: Option<&str>) -> (r: bool)
    ensures
        r == (value matches Some(v) && flag_word(lower(trim(v@, Sep::Whitespace)))),
{
    match value {
        Some(v) => {
            let w = crate::text::lowercase(&crate::text::trim_ws(&chars_of(v)));
            eq_str(&w, "1") || eq_str(&w, "true") || eq_str(&w, "yes") || eq_str(&w, "on")
        },
        None => false,
    }
}

/// `Path::parent` of a `/`-separated path without `.` components: the path
/// without its last component and the separators before it; `/` for a
/// component right under the root; the empty path for a relative path of
/// one component; none for the root or the empty path.
pub open spec fn parent_dir(path: Seq<char>) -> Option<Seq<char>> {
    let t = trim_end(path, Sep::Char('/'));
    if t.len() == 0 {
        None
    } else {
        match rfind(t, "/"@) {
            None => Some(Seq::empty()),
            Some(k) => {
                let p = trim_end(t.take(k), Sep::Char('/'));
                if p.len() == 0 {
                    Some("/"@)
                } else {
                    Some(p)
                }
            },
        }
    }
}

pub fn parent_dir_of(path: &str) -> (r: Option<String>)
    ensures
        opt_str(r) == parent_dir(path@),
{
    proof {
        reveal_strlit("/");
    }
    let t = crate::text::trim_end_chars(&chars_of(path), Sep::Char('/'));
    if t.len() == 0 {
        return None;
    }
    let slash = chars_of("/");
    match crate::text::rfind_chars(&t, &slash) {
        None => Some(String::new()),
        Some(k) => {
            proof {
                crate::text::lemma_rfind_upto(t@, slash@, t@.len() - slash@.len());
            }
            let head = crate::text::slice(&t, 0, k);
            assert(head@ == t@.take(k as int));
            let p = crate::text::trim_end_chars(&head, Sep::Char('/'));
            if p.len() == 0 {
                Some("/".to_string())
            } else {
                Some(string_of(&p))
            }
        },
    }
}

pub type Env = Seq<(Seq<char>, Seq<char>)>;

/// The library path a shell would start from: its own `LD_LIBRARY_PATH`,
/// else robo's, else empty.
pub open spec fn library_path_of(env: Env, parent: Option<Seq<char>>) -> Seq<char> {
    match env_lookup(env, "LD_LIBRARY_PATH"@) {
        Some(v) => v,
        None => match parent {
            Some(p) => p,
            None => Seq::empty(),
        },
    }
}

/// `dir` appended to the library path unless it is on it already.
pub open spec fn with_library_dir(env: Env, dir: Seq<char>, parent: Option<Seq<char>>) -> Env {
    let lp = library_path_of(env, parent);
    if split(lp, Sep::Char(':')).contains(dir) {
        env
    } else {
        env_set(
            env,
            "LD_LIBRARY_PATH"@,
            if lp.len() == 0 {
                dir
            } else {
                lp + ":"@ + dir
            },
        )
    }
}

/// `path` joined to `list` with a `:`, or `path` alone when `list` is empty.
fn path_list_append(list: &str, path: &str) -> (r: String)
    ensures
        r@ == (if list@.len() == 0 {
            path@
        } else {
            list@ + ":"@ + path@
        }),
{
    if list.unicode_len() == 0 {
        path.to_string()
    } else {
        crate::text::concat3(list, ":", path)
    }
}

fn library_path(envs: &Vec<(String, String)>, parent: &Option<String>) -> (r: String)
    ensures
        r@ == library_path_of(env_pairs(envs@), opt_str(*parent)),
{
    match shell_env_value(envs, "LD_LIBRARY_PATH") {
        Some(v) => v.clone(),
        None => match parent {
            Some(p) => p.clone(),
            None => String::new(),
        },
    }
}

pub fn append_ld_library_path(envs: &mut Vec<(String, String)>, path: &str, parent_library_path: &Option<String>)
    ensures
        env_pairs(final(envs)@) == with_library_dir(env_pairs(old(envs)@), path@, opt_str(*parent_library_path)),
{
    let current = library_path(envs, parent_library_path);
    if path_list_contains(current.as_str(), path) {
        return;
    }
    let value = path_list_append(current.as_str(), path);
    set_shell_env(envs, "LD_LIBRARY_PATH", value);
}

/// What robo learns outside the shell's own variables before bridging the
/// host CUDA driver.
pub struct HostCudaFacts {
    /// `TRITON_LIBCUDA_PATH` is set in robo's own environment.
    pub parent_triton_set: bool,
    /// robo's own `LD_LIBRARY_PATH`.
    pub parent_library_path: Option<String>,
    /// The driver's directory holds glibc (`libc.so.6` or
    /// `ld-linux-x86-64.so.2`).
    pub driver_dir_has_glibc: bool,
    /// The directory of `libcuda` links made inside the project, when made.
    pub bridge_dir: Option<String>,
}

/// The shell's variables once the host `libcuda` is bridged in: its path
/// and directory recorded, Triton pointed at the directory unless already
/// pointed elsewhere, and the directory put on the library path; when the
/// directory also holds glibc, only the project's link directory goes on
/// the library path and the skipped directory is recorded.
pub open spec fn cuda_driver_bridge(env: Env, libcuda: Seq<char>, f: HostCudaFacts) -> Env {
    match parent_dir(libcuda) {
        None => env,
        Some(dir) => {
            let e1 = env_set(
                env_set(env, "ROBO_NIX_LIBCUDA_PATH"@, libcuda),
                "ROBO_NIX_HOST_LIBCUDA_AUTO"@,
                dir,
            );
            let e2 = if env_lookup(e1, "TRITON_LIBCUDA_PATH"@) is None && !f.parent_triton_set {
                env_set(e1, "TRITON_LIBCUDA_PATH"@, dir)
            } else {
                e1
            };
            if f.driver_dir_has_glibc {
                let e3 = match f.bridge_dir {
                    Some(b) => with_library_dir(
                        env_set(e2, "ROBO_NIX_HOST_LIBCUDA_BRIDGE"@, b@),
                        b@,
                        opt_str(f.parent_library_path),
                    ),
                    None => e2,
                };
                env_set(e3, "ROBO_NIX_HOST_LIBCUDA_LD_LIBRARY_PATH_SKIPPED"@, dir)
            } else {
                with_library_dir(e2, dir, opt_str(f.parent_library_path))
            }
        },
    }
}

pub fn apply_host_cuda_driver_bridge(envs: &mut Vec<(String, String)>, libcuda: &str, facts: &HostCudaFacts)
    ensures
        env_pairs(final(envs)@) == cuda_driver_bridge(env_pairs(old(envs)@), libcuda@, *facts),
{
    let driver_dir = match parent_dir_of(libcuda) {
        Some(d) => d,
        None => {
            return;
        },
    };
    set_shell_env(envs, "ROBO_NIX_LIBCUDA_PATH", libcuda.to_string());
    set_shell_env(envs, "ROBO_NIX_HOST_LIBCUDA_AUTO", driver_dir.clone());
    if shell_env_value(envs, "TRITON_LIBCUDA_PATH").is_none() && !facts.parent_triton_set {
        set_shell_env(envs, "TRITON_LIBCUDA_PATH", driver_dir.clone());
    }
    if facts.driver_dir_has_glibc {
        match &facts.bridge_dir {
            Some(bridge) => {
                set_shell_env(envs, "ROBO_NIX_HOST_LIBCUDA_BRIDGE", bridge.clone());
                append_ld_library_path(envs, bridge.as_str(), &facts.parent_library_path);
            },
            None => {},
        }
        set_shell_env(envs, "ROBO_NIX_HOST_LIBCUDA_LD_LIBRARY_PATH_SKIPPED", driver_dir);
        return;
    }
    append_ld_library_path(envs, driver_dir.as_str(), &facts.parent_library_path);
}

/// Whether the host CUDA driver is to be bridged in: the runtime needs it,
/// the user has not switched it off, and neither the shell nor robo's own
/// environment names a `libcuda` already.
pub open spec fn cuda_bridge_wanted(env: Env, runtime: ProjectRuntime, disable_flag: Option<Seq<char>>, parent_libcuda_set: bool) -> bool {
    &&& (runtime.cuda_wheel_version is Some || has_component(runtime, "isaac-sim"@))
    &&& !(disable_flag matches Some(v) && flag_word(lower(trim(v, Sep::Whitespace))))
    &&& env_lookup(env, "ROBO_NIX_LIBCUDA_PATH"@) is None
    &&& !parent_libcuda_set
}

pub fn host_cuda_bridge_wanted(
    envs: &Vec<(String, String)>,
    runtime: &ProjectRuntime,
    disable_flag: Option<&str>,
    parent_libcuda_set: bool,
) -> (r: bool)
    ensures
        r == cuda_bridge_wanted(
            env_pairs(envs@),
            *runtime,
            match disable_flag {
                Some(v) => Some(v@),
                None => None,
            },
            parent_libcuda_set,
        ),
{
    runtime_needs_host_cuda_driver(runtime) && !env_flag_enabled(disable_flag) && shell_env_value(
        envs,
        "ROBO_NIX_LIBCUDA_PATH",
    ).is_none() && !parent_libcuda_set
}

/// The shell's graphics variables once host NVIDIA vendor files are chosen:
/// the EGL vendor file replaces none or a Nix Mesa one unless robo's own
/// environment chose one, the Vulkan ICD file is set when neither the shell
/// nor robo's environment has one, and the files applied are recorded.
/// Returns the variables and the files applied, in that order.
pub open spec fn graphics_selection(
    env: Env,
    egl: Option<Seq<char>>,
    vk: Option<Seq<char>>,
    parent_egl_set: bool,
    parent_vk_set: bool,
) -> (Env, Seq<Seq<char>>) {
    let current = env_lookup(env, "__EGL_VENDOR_LIBRARY_FILENAMES"@);
    let egl_open = !parent_egl_set && (current is None || (current matches Some(v) && nix_mesa(v)));
    let (e1, a1) = match egl {
        Some(p) => if egl_open {
            (env_set(env, "__EGL_VENDOR_LIBRARY_FILENAMES"@, p), seq![p])
        } else {
            (env, Seq::<Seq<char>>::empty())
        },
        None => (env, Seq::<Seq<char>>::empty()),
    };
    let (e2, a2) = match vk {
        Some(p) => if env_lookup(e1, "VK_ICD_FILENAMES"@) is None && !parent_vk_set {
            (env_set(e1, "VK_ICD_FILENAMES"@, p), a1.push(p))
        } else {
            (e1, a1)
        },
        None => (e1, a1),
    };
    if a2.len() > 0 {
        (env_set(e2, "ROBO_NIX_HOST_GRAPHICS_AUTO"@, crate::text::join(a2, ":"@)), a2)
    } else {
        (e2, a2)
    }
}

pub open spec fn opt_text(o: Option<&str>) -> Option<Seq<char>> {
    match o {
        Some(v) => Some(v@),
        None => None,
    }
}


/// Points the shell at the host's NVIDIA EGL and Vulkan vendor files where
/// it may, and returns the files applied (see `graphics_selection`).
pub fn apply_host_graphics_bridge_with_parent_env(
    envs: &mut Vec<(String, String)>,
    egl_vendor_file: Option<&str>,
    vulkan_icd_file: Option<&str>,
    parent_egl_vendor_set: bool,
    parent_vulkan_icd_set: bool,
) -> (applied: Vec<String>)
    ensures
        (env_pairs(final(envs)@), crate::text::strs(applied@)) == graphics_selection(
            env_pairs(old(envs)@),
            opt_text(egl_vendor_file),
            opt_text(vulkan_icd_file),
            parent_egl_vendor_set,
            parent_vulkan_icd_set,
        ),
{
    let ghost e0 = env_pairs(envs@);
    let mut applied: Vec<String> = Vec::new();
    let open = !parent_egl_vendor_set && match shell_env_value(envs, "__EGL_VENDOR_LIBRARY_FILENAMES") {
        None => true,
        Some(v) => egl_vendor_is_nix_mesa(Some(v)),
    };
    match egl_vendor_file {
        Some(path) => {
            if open {
                set_shell_env(envs, "__EGL_VENDOR_LIBRARY_FILENAMES", path.to_string());
                applied.push(path.to_string());
                assert(crate::text::strs(applied@) =~= seq![path@]);
            }
        },
        None => {},
    }
    match vulkan_icd_file {
        Some(path) => {
            if shell_env_value(envs, "VK_ICD_FILENAMES").is_none() && !parent_vulkan_icd_set {
                set_shell_env(envs, "VK_ICD_FILENAMES", path.to_string());
                let ghost before = applied@;
                applied.push(path.to_string());
                assert(crate::text::strs(applied@) =~= crate::text::strs(before).push(path@));
            }
        },
        None => {},
    }
    if applied.len() > 0 {
        let all = crate::text::join_strings(&applied, ":");
        set_shell_env(envs, "ROBO_NIX_HOST_GRAPHICS_AUTO", all);
    }
    applied
}

/// The host graphics bridge for a runtime: nothing when the runtime does
/// not ask for host NVIDIA graphics or the user switched it off, else the
/// vendor files applied as `apply_host_graphics_bridge_with_parent_env` does.
pub fn append_host_graphics_bridge(
    envs: &mut Vec<(String, String)>,
    runtime: &ProjectRuntime,
    disable_flag: Option<&str>,
    egl_vendor_file: Option<&str>,
    vulkan_icd_file: Option<&str>,
    parent_egl_vendor_set: bool,
    parent_vulkan_icd_set: bool,
) -> (applied: Vec<String>)
    ensures
        if has_component(*runtime, "host-nvidia-gl"@) && !(disable_flag matches Some(v) && flag_word(
            lower(trim(v@, Sep::Whitespace)),
        )) {
            (env_pairs(final(envs)@), crate::text::strs(applied@)) == graphics_selection(
                env_pairs(old(envs)@),
                opt_text(egl_vendor_file),
                opt_text(vulkan_icd_file),
                parent_egl_vendor_set,
                parent_vulkan_icd_set,
            )
        } else {
            final(envs)@ == old(envs)@ && applied@.len() == 0
        },
{
    if !runtime_needs_host_nvidia_graphics(runtime) || env_flag_enabled(disable_flag) {
        return Vec::new();
    }
    apply_host_graphics_bridge_with_parent_env(
        envs,
        egl_vendor_file,
        vulkan_icd_file,
        parent_egl_vendor_set,
        parent_vulkan_icd_set,
    )
}

/// The library path after appending directories one after another, each
/// unless it is on the path already.
pub open spec fn joined_dirs(lp: Seq<char>, dirs: Seq<Seq<char>>) -> Seq<char>
    decreases dirs.len(),
{
    if dirs.len() == 0 {
        lp
    } else {
        let prev = joined_dirs(lp, dirs.drop_last());
        let d = dirs.last();
        if split(prev, Sep::Char(':')).contains(d) {
            prev
        } else if prev.len() == 0 {
            d
        } else {
            prev + ":"@ + d
        }
    }
}

pub open spec fn with_library_dirs(env: Env, dirs: Seq<Seq<char>>, parent: Option<Seq<char>>) -> Env {
    if dirs.len() == 0 {
        env
    } else {
        env_set(env, "LD_LIBRARY_PATH"@, joined_dirs(library_path_of(env, parent), dirs))
    }
}

pub fn append_library_path_dirs(envs: &mut Vec<(String, String)>, dirs: &Vec<String>, parent_library_path: &Option<String>)
    ensures
        env_pairs(final(envs)@) == with_library_dirs(
            env_pairs(old(envs)@),
            crate::text::strs(dirs@),
            opt_str(*parent_library_path),
        ),
{
    if dirs.len() == 0 {
        return;
    }
    let ghost start = library_path_of(env_pairs(envs@), opt_str(*parent_library_path));
    let ghost ds = crate::text::strs(dirs@);
    let mut lp = library_path(envs, parent_library_path);
    let mut i: usize = 0;
    while i < dirs.len()
        invariant
            i <= dirs.len(),
            ds == crate::text::strs(dirs@),
            lp@ == joined_dirs(start, ds.take(i as int)),
        decreases dirs.len() - i,
    {
        assert(ds.take(i + 1).drop_last() == ds.take(i as int));
        assert(ds.take(i + 1).last() == dirs@[i as int]@);
        if !path_list_contains(lp.as_str(), dirs[i].as_str()) {
            lp = path_list_append(lp.as_str(), dirs[i].as_str());
        }
        i = i + 1;
    }
    assert(ds.take(dirs.len() as int) == ds);
    set_shell_env(envs, "LD_LIBRARY_PATH", lp);
}

/// The shell's variables once the project's graphics link directory (when
/// one was made) is on the library path and recorded.
pub open spec fn graphics_library_dir(env: Env, bridge_dir: Option<Seq<char>>, parent: Option<Seq<char>>) -> Env {
    match bridge_dir {
        Some(b) => env_set(
            with_library_dirs(env, seq![b], parent),
            "ROBO_NIX_HOST_GRAPHICS_LIB_DIRS_AUTO"@,
            b,
        ),
        None => env,
    }
}

/// The step after the vendor files are applied and the project's graphics
/// link directory is made inside the workspace: that directory goes on the
/// library path and is recorded.
pub fn apply_host_graphics_bridge_in_workspace(
    envs: &mut Vec<(String, String)>,
    bridge_dir: Option<String>,
    parent_library_path: &Option<String>,
)
    ensures
        env_pairs(final(envs)@) == graphics_library_dir(
            env_pairs(old(envs)@),
            opt_str(bridge_dir),
            opt_str(*parent_library_path),
        ),
{
    match bridge_dir {
        Some(b) => {
            let dirs = vec![b.clone()];
            assert(crate::text::strs(dirs@) =~= seq![b@]);
            append_library_path_dirs(envs, &dirs, parent_library_path);
            set_shell_env(envs, "ROBO_NIX_HOST_GRAPHICS_LIB_DIRS_AUTO", b);
        },
        None => {},
    }
}

pub fn auto_host_cuda_driver_path(envs: &Vec<(String, String)>) -> (r: Option<&String>)
    ensures
        match r {
            Some(v) => env_lookup(env_pairs(envs@), "ROBO_NIX_HOST_LIBCUDA_AUTO"@) == Some(v@),
            None => env_lookup(env_pairs(envs@), "ROBO_NIX_HOST_LIBCUDA_AUTO"@) is None,
        },
{
    shell_env_value(envs, "ROBO_NIX_HOST_LIBCUDA_AUTO")
}

pub fn auto_host_graphics_manifests(envs: &Vec<(String, String)>) -> (r: Option<&String>)
    ensures
        match r {
            Some(v) => env_lookup(env_pairs(envs@), "ROBO_NIX_HOST_GRAPHICS_AUTO"@) == Some(v@),
            None => env_lookup(env_pairs(envs@), "ROBO_NIX_HOST_GRAPHICS_AUTO"@) is None,
        },
{
    shell_env_value(envs, "ROBO_NIX_HOST_GRAPHICS_AUTO")
}

pub fn auto_host_graphics_library_dirs(envs: &Vec<(String, String)>) -> (r: Option<&String>)
    ensures
        match r {
            Some(v) => env_lookup(env_pairs(envs@), "ROBO_NIX_HOST_GRAPHICS_LIB_DIRS_AUTO"@) == Some(v@),
            None => env_lookup(env_pairs(envs@), "ROBO_NIX_HOST_GRAPHICS_LIB_DIRS_AUTO"@) is None,
        },
{
    shell_env_value(envs, "ROBO_NIX_HOST_GRAPHICS_LIB_DIRS_AUTO")
}

// ---------------------------------------------------------------------
// Reading `ldconfig -p` and `ldd` output
// ---------------------------------------------------------------------

/// The values `f` gives the lines, where it gives one, in order.
pub open spec fn collect_entries(ls: Seq<Seq<char>>, f: spec_fn(Seq<char>) -> Option<Seq<char>>) -> Seq<Seq<char>>
    decreases ls.len(),
{
    if ls.len() == 0 {
        Seq::empty()
    } else {
        let prev = collect_entries(ls.drop_last(), f);
        match f(ls.last()) {
            Some(v) => prev.push(v),
            None => prev,
        }
    }
}

/// The path an `ldconfig -p` line gives for `library`: the line names
/// the library followed by whitespace, and the path is what follows its
/// last ` => `.
pub open spec fn ldconfig_entry(line: Seq<char>, library: Seq<char>) -> Option<Seq<char>> {
    let t = trim(line, Sep::Whitespace);
    match crate::text::strip_prefix(t, library) {
        Some(rest) => if rest.len() > 0 && crate::text::is_ws(rest[0]) {
            match crate::text::rsplit_once(t, " => "@) {
                Some(parts) => Some(trim(parts.1, Sep::Whitespace)),
                None => None,
            }
        } else {
            None
        },
        None => None,
    }
}

fn ldconfig_entry_of(line: &Vec<char>, library: &str) -> (r: Option<Vec<char>>)
    ensures
        crate::init::probe::opt_chars(r) == ldconfig_entry(line@, library@),
{
    let t = crate::text::trim_ws(line);
    match crate::text::strip_prefix_str(&t, library) {
        Some(rest) => {
            if rest.len() > 0 && crate::text::is_whitespace(rest[0]) {
                match crate::text::rsplit_once_str(&t, " => ") {
                    Some((_, path)) => Some(crate::text::trim_ws(&path)),
                    None => None,
                }
            } else {
                None
            }
        },
        None => None,
    }
}

/// The paths `ldconfig -p` lists for a library, in cache order; the first
/// that is a file is the one the loader would use.
pub fn ldconfig_library_candidates(cache: &str, library: &str) -> (r: Vec<String>)
    ensures
        crate::text::strs(r@) == collect_entries(
            crate::text::lines(cache@),
            |l: Seq<char>| ldconfig_entry(l, library@),
        ),
{
    let ls = crate::text::lines_str(cache);
    let ghost lv = crate::text::views(ls@);
    let ghost f = |l: Seq<char>| ldconfig_entry(l, library@);
    let mut out: Vec<String> = Vec::new();
    let mut i: usize = 0;
    while i < ls.len()
        invariant
            i <= ls.len(),
            lv == crate::text::views(ls@),
            f == (|l: Seq<char>| ldconfig_entry(l, library@)),
            crate::text::strs(out@) == collect_entries(lv.take(i as int), f),
        decreases ls.len() - i,
    {
        assert(lv.take(i + 1).drop_last() == lv.take(i as int));
        assert(lv.take(i + 1).last() == ls@[i as int]@);
        match ldconfig_entry_of(&ls[i], library) {
            Some(path) => {
                let ghost prev = out@;
                out.push(string_of(&path));
                assert(crate::text::strs(out@) =~= crate::text::strs(prev).push(path@));
            },
            None => {},
        }
        i = i + 1;
    }
    assert(lv.take(ls.len() as int) == lv);
    out
}

/// A host library the graphics bridge links: an NVIDIA library or a GLVND
/// `libGLX_`, `libEGL_` or `libGLES` one.
pub open spec fn graphics_library_name(path: Seq<char>) -> bool {
    match crate::text::file_name(path) {
        Some(n) => contains(n, "nvidia"@) || is_prefix("libGLX_"@, n) || is_prefix("libEGL_"@, n)
            || is_prefix("libGLES"@, n),
        None => false,
    }
}

pub fn host_graphics_library_name(path: &str) -> (r: bool)
    ensures
        r == graphics_library_name(path@),
{
    match crate::text::file_name_str(path) {
        Some(n) => crate::text::contains_str(&n, "nvidia") || crate::text::starts_with_str(&n, "libGLX_")
            || crate::text::starts_with_str(&n, "libEGL_") || crate::text::starts_with_str(&n, "libGLES"),
        None => false,
    }
}

/// The first whitespace-separated word after the last ` => ` of a line.
pub open spec fn arrow_target(line: Seq<char>) -> Option<Seq<char>> {
    match crate::text::rsplit_once(line, " => "@) {
        Some(parts) => {
            let w = crate::text::split_whitespace(trim(parts.1, Sep::Whitespace));
            if w.len() > 0 {
                Some(w[0])
            } else {
                None
            }
        },
        None => None,
    }
}

fn arrow_target_of(line: &Vec<char>) -> (r: Option<Vec<char>>)
    ensures
        crate::init::probe::opt_chars(r) == arrow_target(line@),
{
    match crate::text::rsplit_once_str(line, " => ") {
        Some((_, path)) => {
            let w = crate::text::words(&crate::text::trim_ws(&path));
            if w.len() > 0 {
                Some(crate::text::clone_chars(&w[0]))
            } else {
                None
            }
        },
        None => None,
    }
}

/// The graphics libraries an `ldd` listing resolves, in order.
pub open spec fn ldd_entry(line: Seq<char>) -> Option<Seq<char>> {
    match arrow_target(line) {
        Some(p) => if graphics_library_name(p) {
            Some(p)
        } else {
            None
        },
        None => None,
    }
}

pub fn ldd_graphics_dependencies(output: &str) -> (r: Vec<String>)
    ensures
        crate::text::strs(r@) == collect_entries(crate::text::lines(output@), |l: Seq<char>| ldd_entry(l)),
{
    let ls = crate::text::lines_str(output);
    let ghost lv = crate::text::views(ls@);
    let ghost f = |l: Seq<char>| ldd_entry(l);
    let mut out: Vec<String> = Vec::new();
    let mut i: usize = 0;
    while i < ls.len()
        invariant
            i <= ls.len(),
            lv == crate::text::views(ls@),
            f == (|l: Seq<char>| ldd_entry(l)),
            crate::text::strs(out@) == collect_entries(lv.take(i as int), f),
        decreases ls.len() - i,
    {
        assert(lv.take(i + 1).drop_last() == lv.take(i as int));
        assert(lv.take(i + 1).last() == ls@[i as int]@);
        match arrow_target_of(&ls[i]) {
            Some(path) => {
                let p = string_of(&path);
                if host_graphics_library_name(p.as_str()) {
                    let ghost prev = out@;
                    out.push(p);
                    assert(crate::text::strs(out@) =~= crate::text::strs(prev).push(path@));
                }
            },
            None => {},
        }
        i = i + 1;
    }
    assert(lv.take(ls.len() as int) == lv);
    out
}

/// The library paths an `ldconfig -p` listing names, in order.
pub fn ldconfig_paths(cache: &str) -> (r: Vec<String>)
    ensures
        crate::text::strs(r@) == collect_entries(crate::text::lines(cache@), |l: Seq<char>| arrow_target(l)),
{
    let ls = crate::text::lines_str(cache);
    let ghost lv = crate::text::views(ls@);
    let ghost f = |l: Seq<char>| arrow_target(l);
    let mut out: Vec<String> = Vec::new();
    let mut i: usize = 0;
    while i < ls.len()
        invariant
            i <= ls.len(),
            lv == crate::text::views(ls@),
            f == (|l: Seq<char>| arrow_target(l)),
            crate::text::strs(out@) == collect_entries(lv.take(i as int), f),
        decreases ls.len() - i,
    {
        assert(lv.take(i + 1).drop_last() == lv.take(i as int));
        assert(lv.take(i + 1).last() == ls@[i as int]@);
        match arrow_target_of(&ls[i]) {
            Some(path) => {
                let ghost prev = out@;
                out.push(string_of(&path));
                assert(crate::text::strs(out@) =~= crate::text::strs(prev).push(path@));
            },
            None => {},
        }
        i = i + 1;
    }
    assert(lv.take(ls.len() as int) == lv);
    out
}

/// The NVIDIA driver version a versioned `libGLX_nvidia` or `libEGL_nvidia`
/// file name carries (not the `.so.0` soname).
pub open spec fn driver_version(name: Seq<char>) -> Option<Seq<char>> {
    let glx = crate::text::strip_prefix(name, "libGLX_nvidia.so."@);
    if glx matches Some(v) && v != "0"@ {
        glx
    } else {
        match crate::text::strip_prefix(name, "libEGL_nvidia.so."@) {
            Some(v) => if v != "0"@ {
                Some(v)
            } else {
                None
            },
            None => None,
        }
    }
}

pub fn nvidia_driver_version(name: &str) -> (r: Option<String>)
    ensures
        opt_str(r) == driver_version(name@),
{
    let n = chars_of(name);
    match crate::text::strip_prefix_str(&n, "libGLX_nvidia.so.") {
        Some(v) => {
            if !eq_str(&v, "0") {
                return Some(string_of(&v));
            }
        },
        None => {},
    }
    match crate::text::strip_prefix_str(&n, "libEGL_nvidia.so.") {
        Some(v) => {
            if !eq_str(&v, "0") {
                Some(string_of(&v))
            } else {
                None
            }
        },
        None => None,
    }
}

/// Whether a library's file name is a graphics library of that driver
/// version.
pub fn is_versioned_graphics_library(name: &str, driver_version: &str) -> (r: bool)
    ensures
        r == (contains(name@, driver_version@) && graphics_library_name(name@)),
{
    crate::text::contains_str(&chars_of(name), driver_version) && host_graphics_library_name(name)
}

/// Where a vendor file's library is looked for: an absolute path is the
/// file itself, any other name is looked up in the loader cache.
pub enum ManifestLibrary {
    File(String),
    Cached(String),
}

pub fn resolve_manifest_library_path(library: &str) -> (r: ManifestLibrary)
    ensures
        match r {
            ManifestLibrary::File(p) => is_prefix("/"@, library@) && p@ == library@,
            ManifestLibrary::Cached(n) => !is_prefix("/"@, library@) && n@ == library@,
        },
{
    if crate::text::starts_with_str(&chars_of(library), "/") {
        ManifestLibrary::File(library.to_string())
    } else {
        ManifestLibrary::Cached(library.to_string())
    }
}

// ---------------------------------------------------------------------
// Vendor files
// ---------------------------------------------------------------------

/// `acc` with the `library_path` strings of a JSON value added, depth
/// first in document order, each once.
pub open spec fn paths_in(v: JsonValue, acc: Seq<Seq<char>>) -> Seq<Seq<char>>
    decreases v, 0int,
{
    match v {
        JsonValue::Object(entries) => paths_in_entries(entries@, acc),
        JsonValue::Array(items) => paths_in_items(items@, acc),
        _ => acc,
    }
}

pub open spec fn paths_in_entries(es: Seq<(String, JsonValue)>, acc: Seq<Seq<char>>) -> Seq<Seq<char>>
    decreases es, 1int,
{
    if es.len() == 0 {
        acc
    } else {
        let e = es[0];
        let acc1 = match e.1 {
            JsonValue::Str(p) => if e.0@ == "library_path"@ {
                crate::init::spec::push_new(acc, p@)
            } else {
                acc
            },
            _ => acc,
        };
        paths_in_entries(es.skip(1), paths_in(e.1, acc1))
    }
}

pub open spec fn paths_in_items(vs: Seq<JsonValue>, acc: Seq<Seq<char>>) -> Seq<Seq<char>>
    decreases vs, 1int,
{
    if vs.len() == 0 {
        acc
    } else {
        paths_in_items(vs.skip(1), paths_in(vs[0], acc))
    }
}

fn collect_manifest_library_paths(json: &JsonValue, paths: &mut Vec<String>)
    ensures
        crate::text::strs(final(paths)@) == paths_in(*json, crate::text::strs(old(paths)@)),
    decreases json,
{
    match json {
        JsonValue::Object(entries) => {
            let ghost es = entries@;
            let ghost acc0 = crate::text::strs(paths@);
            let mut i: usize = 0;
            assert(es.skip(0) =~= es);
            while i < entries.len()
                invariant
                    i <= entries.len(),
                    es == entries@,
                    *json == JsonValue::Object(*entries),
                    paths_in_entries(es, acc0) == paths_in_entries(es.skip(i as int), crate::text::strs(paths@)),
                decreases entries.len() - i,
            {
                assert(es.skip(i as int)[0] == es[i as int]);
                assert(es.skip(i as int).skip(1) == es.skip(i + 1));
                match &entries[i].1 {
                    JsonValue::Str(p) => {
                        if eq_str(&chars_of(entries[i].0.as_str()), "library_path") {
                            crate::init::spec::push_unique(paths, p.as_str());
                        }
                    },
                    _ => {},
                }
                proof {
                    vstd::std_specs::vec::axiom_vec_index_decreases(*entries, i as int);
                    assert(decreases_to!(*entries => entries@[i as int]));
                    assert(decreases_to!(entries@[i as int] => entries@[i as int].1));
                    assert(decreases_to!(*json => (*json)->Object_0));
                    assert(decreases_to!(*json => entries@[i as int].1));
                }
                collect_manifest_library_paths(&entries[i].1, paths);
                i = i + 1;
            }
            assert(es.skip(entries.len() as int).len() == 0);
        },
        JsonValue::Array(items) => {
            let ghost vs = items@;
            let ghost acc0 = crate::text::strs(paths@);
            let mut i: usize = 0;
            assert(vs.skip(0) =~= vs);
            while i < items.len()
                invariant
                    i <= items.len(),
                    vs == items@,
                    *json == JsonValue::Array(*items),
                    paths_in_items(vs, acc0) == paths_in_items(vs.skip(i as int), crate::text::strs(paths@)),
                decreases items.len() - i,
            {
                assert(vs.skip(i as int)[0] == vs[i as int]);
                assert(vs.skip(i as int).skip(1) == vs.skip(i + 1));
                proof {
                    vstd::std_specs::vec::axiom_vec_index_decreases(*items, i as int);
                    assert(decreases_to!(*json => (*json)->Array_0));
                }
                collect_manifest_library_paths(&items[i], paths);
                i = i + 1;
            }
            assert(vs.skip(items.len() as int).len() == 0);
        },
        _ => {},
    }
}

/// The `library_path` strings of a vendor file, depth first, each once.
pub fn manifest_library_names(json: &JsonValue) -> (r: Vec<String>)
    ensures
        crate::text::strs(r@) == paths_in(*json, Seq::empty()),
{
    let mut paths: Vec<String> = Vec::new();
    assert(crate::text::strs(paths@) =~= Seq::<Seq<char>>::empty());
    collect_manifest_library_paths(json, &mut paths);
    paths
}

/// The library paths named in a vendor file's text: none when it is not
/// JSON.
pub fn manifest_library_names_in(text: &str) -> (r: Vec<String>)
    ensures
        crate::text::strs(r@) == match json_document(text@) {
            Some(v) => paths_in(v, Seq::empty()),
            None => Seq::empty(),
        },
{
    match parse_json(text) {
        Some(v) => manifest_library_names(&v),
        None => {
            let r: Vec<String> = Vec::new();
            assert(crate::text::strs(r@) =~= Seq::<Seq<char>>::empty());
            r
        },
    }
}

// ---------------------------------------------------------------------
// Laws
// ---------------------------------------------------------------------

/// A `:`-separated list split after one more entry without `:` is the
/// same split with that entry at the end.
pub proof fn lemma_split_append(x: Seq<char>, y: Seq<char>)
    requires
        !y.contains(':'),
    ensures
        split(x + ":"@ + y, Sep::Char(':')) == split(x, Sep::Char(':')).push(y),
    decreases y.len(),
{
    reveal_strlit(":");
    if y.len() == 0 {
        assert(y =~= Seq::<char>::empty());
        assert(x + ":"@ + y =~= x.push(':'));
        assert((x + ":"@ + y).drop_last() =~= x);
        assert((x + ":"@ + y).last() == ':');
        assert(split(x + ":"@ + y, Sep::Char(':')) =~= split(x, Sep::Char(':')).push(y));
    } else {
        let s = x + ":"@ + y;
        lemma_split_append(x, y.drop_last());
        assert(s.drop_last() =~= x + ":"@ + y.drop_last());
        assert(s.last() == y.last());
        assert(!y.drop_last().contains(':')) by {
            if y.drop_last().contains(':') {
                let k = choose|k: int| 0 <= k < y.drop_last().len() && y.drop_last()[k] == ':';
                assert(y[k] == ':');
            }
        }
        assert(y.last() != ':') by {
            if y.last() == ':' {
                assert(y[y.len() - 1] == ':');
            }
        }
        assert(y.drop_last().push(y.last()) =~= y);
        assert(split(s, Sep::Char(':')) =~= split(x, Sep::Char(':')).push(y));
    }
}

/// A string without `:` splits into itself.
pub proof fn lemma_split_single(y: Seq<char>)
    requires
        !y.contains(':'),
    ensures
        split(y, Sep::Char(':')) == seq![y],
    decreases y.len(),
{
    if y.len() > 0 {
        assert(!y.drop_last().contains(':')) by {
            if y.drop_last().contains(':') {
                let k = choose|k: int| 0 <= k < y.drop_last().len() && y.drop_last()[k] == ':';
                assert(y[k] == ':');
            }
        }
        assert(y.last() != ':') by {
            if y.last() == ':' {
                assert(y[y.len() - 1] == ':');
            }
        }
        lemma_split_single(y.drop_last());
        assert(y.drop_last().push(y.last()) =~= y);
        assert(split(y, Sep::Char(':')) =~= seq![y]);
    } else {
        assert(y =~= Seq::<char>::empty());
    }
}

/// Once a directory (without `:`) is appended, it is on the library path.
pub proof fn law_library_dir_on_path(env: Env, dir: Seq<char>, parent: Option<Seq<char>>)
    requires
        entries_named(env, "LD_LIBRARY_PATH"@) <= 1,
        !dir.contains(':'),
    ensures
        split(library_path_of(with_library_dir(env, dir, parent), parent), Sep::Char(':')).contains(dir),
{
    let lp = library_path_of(env, parent);
    if split(lp, Sep::Char(':')).contains(dir) {
    } else {
        let v = if lp.len() == 0 {
            dir
        } else {
            lp + ":"@ + dir
        };
        crate::shell_env::lemma_set_then_lookup(env, "LD_LIBRARY_PATH"@, v, "LD_LIBRARY_PATH"@);
        if lp.len() == 0 {
            lemma_split_single(dir);
            assert(seq![dir][0] == dir);
        } else {
            lemma_split_append(lp, dir);
            assert(split(lp, Sep::Char(':')).push(dir).last() == dir);
            assert(split(lp, Sep::Char(':')).push(dir)[split(lp, Sep::Char(':')).len() as int] == dir);
        }
    }
}

/// Appending a library directory twice is appending it once, so a shell
/// never gets the same directory on its library path twice (for a
/// directory without `:`, in an environment that names `LD_LIBRARY_PATH`
/// at most once).
pub proof fn law_library_dir_idempotent(env: Env, dir: Seq<char>, parent: Option<Seq<char>>)
    requires
        entries_named(env, "LD_LIBRARY_PATH"@) <= 1,
        !dir.contains(':'),
    ensures
        with_library_dir(with_library_dir(env, dir, parent), dir, parent) == with_library_dir(env, dir, parent),
{
    law_library_dir_on_path(env, dir, parent);
}

} // verus!
