//! The Python checks: where the project's virtualenv came from, and
//! whether `.python-version` and `pyproject.toml` agree with `robo.nix`.
use vstd::prelude::*;
use crate::check::output::{check_error, check_hint, check_ok, check_warn, plain_hints, plain_line};
use crate::pyproject::{exact_python, exact_python_requirement};
use crate::text::{chars_of, is_prefix, split_once, string_of, strs, trim, Sep};
use crate::ui::{renders_lines, Config, Rendered};

verus! {

/// Where the project's virtualenv gets its interpreter.
#[derive(Debug, Clone, PartialEq, Eq)]
pub enum PythonEnvironmentOrigin {
    Missing,
    NixBacked(String),
    HostBacked(String),
}

/// The `home` a `pyvenv.cfg` line gives, trimmed.
pub open spec fn home_entry(line: Seq<char>) -> Option<Seq<char>> {
    match split_once(line, "="@) {
        Some(parts) => if trim(parts.0, Sep::Whitespace) == "home"@ {
            Some(trim(parts.1, Sep::Whitespace))
        } else {
            None
        },
        None => None,
    }
}

/// The first `home` entry of a `pyvenv.cfg`.
pub open spec fn first_home(ls: Seq<Seq<char>>) -> Option<Seq<char>>
    decreases ls.len(),
{
    if ls.len() == 0 {
        None
    } else {
        match home_entry(ls[0]) {
            Some(h) => Some(h),
            None => first_home(ls.skip(1)),
        }
    }
}

pub fn pyvenv_home(config: &str) -> (r: Option<String>)
    ensures
        opt_text(r) == first_home(crate::text::lines(config@)),
{
    let ls = crate::text::lines_str(config);
    let ghost lv = crate::text::views(ls@);
    let mut i: usize = 0;
    assert(lv.skip(0) =~= lv);
    while i < ls.len()
        invariant
            i <= ls.len(),
            lv == crate::text::views(ls@),
            lv == crate::text::lines(config@),
            first_home(lv) == first_home(lv.skip(i as int)),
        decreases ls.len() - i,
    {
        assert(lv.skip(i as int)[0] == ls@[i as int]@);
        assert(lv.skip(i as int).skip(1) =~= lv.skip(i + 1));
        match crate::text::split_once_str(&ls[i], "=") {
            Some((name, value)) => {
                let n = crate::text::trim_ws(&name);
                if crate::text::eq_str(&n, "home") {
                    return Some(string_of(&crate::text::trim_ws(&value)));
                }
            },
            None => {},
        }
        i = i + 1;
    }
    None
}

pub open spec fn opt_text(o: Option<String>) -> Option<Seq<char>> {
    crate::text::opt_str(o)
}

/// Where the virtualenv's interpreter comes from: none without `.venv`;
/// else the `home` of its `pyvenv.cfg`, else where `.venv/bin/python`
/// resolves to, else `.venv/bin/python` itself; Nix-backed when that is in
/// the Nix store.
pub open spec fn origin_of(venv_exists: bool, pyvenv_cfg: Option<Seq<char>>, python_target: Option<Seq<char>>) -> Option<(bool, Seq<char>)> {
    if !venv_exists {
        None
    } else {
        let home = match pyvenv_cfg {
            Some(cfg) => first_home(crate::text::lines(cfg)),
            None => None,
        };
        let origin = match home {
            Some(h) => Some(h),
            None => python_target,
        };
        match origin {
            Some(p) => Some((is_prefix("/nix/store/"@, p), p)),
            None => Some((false, ".venv/bin/python"@)),
        }
    }
}

pub fn python_environment_origin(venv_exists: bool, pyvenv_cfg: Option<&str>, python_target: Option<String>) -> (r: PythonEnvironmentOrigin)
    ensures
        match r {
            PythonEnvironmentOrigin::Missing => origin_of(venv_exists, crate::host_bridge::opt_text(pyvenv_cfg), opt_text(python_target)) is None,
            PythonEnvironmentOrigin::NixBacked(p) => origin_of(venv_exists, crate::host_bridge::opt_text(pyvenv_cfg), opt_text(python_target)) == Some((true, p@)),
            PythonEnvironmentOrigin::HostBacked(p) => origin_of(venv_exists, crate::host_bridge::opt_text(pyvenv_cfg), opt_text(python_target)) == Some((false, p@)),
        },
{
    if !venv_exists {
        return PythonEnvironmentOrigin::Missing;
    }
    let home = match pyvenv_cfg {
        Some(cfg) => pyvenv_home(cfg),
        None => None,
    };
    let origin = match home {
        Some(h) => Some(h),
        None => python_target,
    };
    match origin {
        Some(p) => {
            if crate::text::starts_with_str(&chars_of(p.as_str()), "/nix/store/") {
                PythonEnvironmentOrigin::NixBacked(p)
            } else {
                PythonEnvironmentOrigin::HostBacked(p)
            }
        },
        None => PythonEnvironmentOrigin::HostBacked(".venv/bin/python".to_string()),
    }
}

/// The plain report on `.python-version` and `pyproject.toml` against the
/// runtime's Python, with the issues and warnings it adds.
pub open spec fn python_files_report(python: Seq<char>, version_file: Option<Seq<char>>, pyproject: Option<Seq<char>>) -> (Seq<Seq<char>>, nat, nat) {
    let (a, aw) = match version_file {
        Some(v) => if trim(v, Sep::Whitespace) == python {
            (seq![plain_line("ok:"@, ".python-version matches "@ + python)], 0nat)
        } else {
            (
                seq![plain_line("warn:"@, ".python-version is "@ + trim(v, Sep::Whitespace) + " but robo.nix declares "@ + python)]
                    + plain_hints("update .python-version or pythonVersion in robo.nix"@),
                1nat,
            )
        },
        None => (
            seq![plain_line("warn:"@, ".python-version is missing"@)] + plain_hints(
                "create .python-version with "@ + python + " so uv uses the intended interpreter"@,
            ),
            1nat,
        ),
    };
    let (b, bi, bw) = match pyproject {
        Some(text) => match exact_python(text) {
            Some(req) => if req == python {
                (seq![plain_line("ok:"@, "pyproject.toml requires Python "@ + req)], 0nat, 0nat)
            } else {
                (
                    seq![plain_line("error:"@, "pyproject.toml requires Python "@ + req + " but robo.nix declares "@ + python)]
                        + plain_hints("set `pythonVersion = \""@ + req + "\";` in robo.nix and write `"@ + req + "` to .python-version"@),
                    1nat,
                    0nat,
                )
            },
            None => (Seq::empty(), 0nat, 0nat),
        },
        None => (
            seq![plain_line("warn:"@, "pyproject.toml is missing"@)] + plain_hints(
                "run `robo init .` or create pyproject.toml for uv"@,
            ),
            0nat,
            1nat,
        ),
    };
    (a + b, bi, aw + bw)
}

fn push_lines(out: &mut Vec<String>, lines: Vec<String>)
    ensures
        final(out)@ == old(out)@ + lines@,
{
    let ghost start = out@;
    let mut i: usize = 0;
    while i < lines.len()
        invariant
            i <= lines.len(),
            out@ == start + lines@.take(i as int),
        decreases lines.len() - i,
    {
        out.push(lines[i].clone());
        assert(lines@.take(i + 1) =~= lines@.take(i as int).push(lines@[i as int]));
        i = i + 1;
    }
    assert(lines@.take(lines.len() as int) == lines@);
}

/// The Python file checks (the file texts where they could be read).
pub fn check_python_files(
    config: Config,
    python_version: &str,
    version_file: Option<&str>,
    pyproject: Option<&str>,
    issues: &mut usize,
    warnings: &mut usize,
) -> (r: Vec<String>)
    requires
        *old(issues) < usize::MAX,
        *old(warnings) < usize::MAX - 1,
    ensures
        ({
            let (ls, i, w) = python_files_report(
                python_version@,
                crate::host_bridge::opt_text(version_file),
                crate::host_bridge::opt_text(pyproject),
            );
            &&& *final(issues) == *old(issues) + i
            &&& *final(warnings) == *old(warnings) + w
            &&& renders_lines(config, strs(r@), ls)
        }),
{
    let mut out = Rendered::new(config);
    match version_file {
        Some(v) => {
            let version = string_of(&crate::text::trim_ws(&chars_of(v)));
            if crate::text::str_eq(version.as_str(), python_version) {
                {
        let m = crate::text::concat(".python-version matches ", python_version);
        out.push(config, check_ok(config, m.as_str()), Ghost(plain_line("ok:"@, m@)));
    };
            } else {
                let m = crate::text::concat4(".python-version is ", version.as_str(), " but robo.nix declares ", python_version);
                {
        let m = m;
        out.push(config, check_warn(config, warnings, m.as_str()), Ghost(plain_line("warn:"@, m@)));
    };
                out.append(config, check_hint(config, "update .python-version or pythonVersion in robo.nix"), Ghost(plain_hints("update .python-version or pythonVersion in robo.nix"@)));
            }
        },
        None => {
            out.push(config, check_warn(config, warnings, ".python-version is missing"), Ghost(plain_line("warn:"@, ".python-version is missing"@)));
            let h = crate::text::concat3("create .python-version with ", python_version, " so uv uses the intended interpreter");
            {
        let h = h;
        out.append(config, check_hint(config, h.as_str()), Ghost(plain_hints(h@)));
    };
        },
    }
    let ghost first = out.plain@;
    match pyproject {
        Some(text) => {
            match exact_python_requirement(text) {
                Some(req) => {
                    if crate::text::str_eq(req.as_str(), python_version) {
                        {
        let m = crate::text::concat("pyproject.toml requires Python ", req.as_str());
        out.push(config, check_ok(config, m.as_str()), Ghost(plain_line("ok:"@, m@)));
    };
                    } else {
                        let m = crate::text::concat4("pyproject.toml requires Python ", req.as_str(), " but robo.nix declares ", python_version);
                        {
        let m = m;
        out.push(config, check_error(config, issues, m.as_str()), Ghost(plain_line("error:"@, m@)));
    };
                        let h1 = crate::text::concat3("set `pythonVersion = \"", req.as_str(), "\";` in robo.nix and write `");
                        let h = crate::text::concat3(h1.as_str(), req.as_str(), "` to .python-version");
                        {
        let h = h;
        out.append(config, check_hint(config, h.as_str()), Ghost(plain_hints(h@)));
    };
                    }
                },
                None => {},
            }
        },
        None => {
            out.push(config, check_warn(config, warnings, "pyproject.toml is missing"), Ghost(plain_line("warn:"@, "pyproject.toml is missing"@)));
            out.append(config, check_hint(config, "run `robo init .` or create pyproject.toml for uv"), Ghost(plain_hints("run `robo init .` or create pyproject.toml for uv"@)));
        },
    }
    proof {
        {
            let (ls, i, w) = python_files_report(
                python_version@,
                crate::host_bridge::opt_text(version_file),
                crate::host_bridge::opt_text(pyproject),
            );
            assert(out.plain@ =~= ls);
        }
    }
    out.lines
}

/// The plain report on the virtualenv's origin, with the issues and
/// warnings it adds.
pub open spec fn python_environment_report(origin: PythonEnvironmentOrigin) -> (Seq<Seq<char>>, nat, nat) {
    match origin {
        PythonEnvironmentOrigin::Missing => (
            seq![plain_line("warn:"@, "Python virtualenv is missing"@)] + plain_hints("run `robo shell`, then `uv sync`"@),
            0,
            1,
        ),
        PythonEnvironmentOrigin::NixBacked(o) => (
            seq![plain_line("ok:"@, "Python virtualenv uses robo-nix Python ("@ + o@ + ")"@)],
            0,
            0,
        ),
        PythonEnvironmentOrigin::HostBacked(o) => (
            seq![plain_line("error:"@, "Python virtualenv was created outside robo-nix"@)]
                + plain_hints("found interpreter origin: "@ + o@)
                + plain_hints("run `robo shell -c 'uv venv --python \"$ROBO_NIX_PYTHON\" --clear && uv sync'`"@)
                + plain_hints("Nix runtime libraries require an ABI-aligned Python process on older distros"@),
            1,
            0,
        ),
    }
}

pub fn check_python_environment(config: Config, origin: &PythonEnvironmentOrigin, issues: &mut usize, warnings: &mut usize) -> (r: Vec<String>)
    requires
        *old(issues) < usize::MAX,
        *old(warnings) < usize::MAX,
    ensures
        ({
            let (ls, i, w) = python_environment_report(*origin);
            &&& *final(issues) == *old(issues) + i
            &&& *final(warnings) == *old(warnings) + w
            &&& renders_lines(config, strs(r@), ls)
        }),
{
    let mut out = Rendered::new(config);
    match origin {
        PythonEnvironmentOrigin::Missing => {
            out.push(config, check_warn(config, warnings, "Python virtualenv is missing"), Ghost(plain_line("warn:"@, "Python virtualenv is missing"@)));
            out.append(config, check_hint(config, "run `robo shell`, then `uv sync`"), Ghost(plain_hints("run `robo shell`, then `uv sync`"@)));
        },
        PythonEnvironmentOrigin::NixBacked(o) => {
            let m = crate::text::concat3("Python virtualenv uses robo-nix Python (", o.as_str(), ")");
            {
        let m = m;
        out.push(config, check_ok(config, m.as_str()), Ghost(plain_line("ok:"@, m@)));
    };
        },
        PythonEnvironmentOrigin::HostBacked(o) => {
            out.push(config, check_error(config, issues, "Python virtualenv was created outside robo-nix"), Ghost(plain_line("error:"@, "Python virtualenv was created outside robo-nix"@)));
            {
        let h = crate::text::concat("found interpreter origin: ", o.as_str());
        out.append(config, check_hint(config, h.as_str()), Ghost(plain_hints(h@)));
    };
            out.append(config, check_hint(config, "run `robo shell -c 'uv venv --python \"$ROBO_NIX_PYTHON\" --clear && uv sync'`"), Ghost(plain_hints("run `robo shell -c 'uv venv --python \"$ROBO_NIX_PYTHON\" --clear && uv sync'`"@)));
            out.append(config, check_hint(config, "Nix runtime libraries require an ABI-aligned Python process on older distros"), Ghost(plain_hints("Nix runtime libraries require an ABI-aligned Python process on older distros"@)));
        },
    }
    proof {
        {
            let (ls, i, w) = python_environment_report(*origin);
            assert(out.plain@ =~= ls);
        }
    }
    out.lines
}

} // verus!
