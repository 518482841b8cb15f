//! Which interactive shells the hooks support, and how a shell is named.
use vstd::prelude::*;
use crate::text::{append_str, chars_of, eq_str, file_name, file_name_str, string_of};

verus! {

/// The shells listed in messages about unsupported shells.
pub const SUPPORTED_INTERACTIVE_SHELLS: &'static str = "bash, zsh, fish";

/// The shells that `robo hook` and `robo shell` can drive.
pub open spec fn is_interactive_shell(shell: Seq<char>) -> bool {
    shell == "bash"@ || shell == "zsh"@ || shell == "fish"@
}

/// The name a shell is known by: the last component of its path, or the
/// text itself when it has none.
pub open spec fn basename(shell: Seq<char>) -> Seq<char> {
    match file_name(shell) {
        Some(name) => name,
        None => shell,
    }
}

pub fn supports_interactive_shell(shell: &str) -> (r: bool)
    ensures
        r == is_interactive_shell(shell@),
{
    let v = chars_of(shell);
    eq_str(&v, "bash") || eq_str(&v, "zsh") || eq_str(&v, "fish")
}

pub fn shell_basename(shell: &str) -> (r: String)
    ensures
        r@ == basename(shell@),
{
    match file_name_str(shell) {
        Some(name) => string_of(&name),
        None => shell.to_owned(),
    }
}

/// The message given when no shell was named and `SHELL` is unset.
pub open spec fn no_shell_message(command_name: Seq<char>) -> Seq<char> {
    command_name + " needs a shell name when SHELL is unknown."@
}

/// The shell a command was asked for: the argument when there is one,
/// otherwise the value of `SHELL`, reduced to its base name.
pub fn requested_shell_name(shell: Option<&str>, env_shell: Option<&str>, command_name: &str) -> (r:
    Result<String, String>)
    ensures
        shell matches Some(s) ==> r is Ok && r->Ok_0@ == basename(s@),
        shell is None ==> (env_shell matches Some(e) ==> r is Ok && r->Ok_0@ == basename(e@)),
        shell is None && env_shell is None ==> r is Err && r->Err_0@ == no_shell_message(
            command_name@,
        ),
{
    match shell {
        Some(s) => Ok(shell_basename(s)),
        None => match env_shell {
            Some(e) => Ok(shell_basename(e)),
            None => {
                let mut out = chars_of(command_name);
                append_str(&mut out, " needs a shell name when SHELL is unknown.");
                Err(string_of(&out))
            },
        },
    }
}

/// The shells completions are written for.
#[derive(PartialEq, Eq, Structural, Clone, Copy, Debug)]
pub enum CompletionShell {
    Bash,
    Zsh,
    Fish,
}

pub open spec fn completion_kind(name: Seq<char>) -> Option<CompletionShell> {
    if name == "bash"@ {
        Some(CompletionShell::Bash)
    } else if name == "zsh"@ {
        Some(CompletionShell::Zsh)
    } else if name == "fish"@ {
        Some(CompletionShell::Fish)
    } else {
        None
    }
}

fn completion_kind_of(name: &str) -> (r: Option<CompletionShell>)
    ensures
        r == completion_kind(name@),
{
    let v = chars_of(name);
    if eq_str(&v, "bash") {
        Some(CompletionShell::Bash)
    } else if eq_str(&v, "zsh") {
        Some(CompletionShell::Zsh)
    } else if eq_str(&v, "fish") {
        Some(CompletionShell::Fish)
    } else {
        None
    }
}

/// The shell `robo completion` writes for: the one named (by path or name),
/// else the login shell; an unsupported or unknown shell is an error.
pub fn completion_shell(shell: Option<&str>, env_shell: Option<&str>) -> (r: Result<CompletionShell, String>)
    ensures
        match shell {
            Some(s) => match completion_kind(basename(s@)) {
                Some(k) => r == Ok::<CompletionShell, String>(k),
                None => r matches Err(e) && e@ == "unsupported completion shell: "@ + basename(s@),
            },
            None => match env_shell {
                Some(s) => match completion_kind(basename(s@)) {
                    Some(k) => r == Ok::<CompletionShell, String>(k),
                    None => r matches Err(e) && e@ == "unsupported completion shell: "@ + basename(s@),
                },
                None => r matches Err(e) && e@ == no_shell_message("robo completion"@),
            },
        },
{
    let name = match requested_shell_name(shell, env_shell, "robo completion") {
        Ok(n) => n,
        Err(e) => {
            return Err(e);
        },
    };
    match completion_kind_of(name.as_str()) {
        Some(k) => Ok(k),
        None => Err(crate::text::concat("unsupported completion shell: ", name.as_str())),
    }
}

/// The login shell the standalone tool's completion falls back to: the
/// shell whose path ends in `bash`, `zsh` or `fish`.
pub open spec fn login_completion_name(env_shell: Seq<char>) -> Option<Seq<char>> {
    if crate::text::is_suffix("bash"@, env_shell) {
        Some("bash"@)
    } else if crate::text::is_suffix("zsh"@, env_shell) {
        Some("zsh"@)
    } else if crate::text::is_suffix("fish"@, env_shell) {
        Some("fish"@)
    } else {
        None
    }
}

/// The standalone tool's completion shell: the one named, else the login
/// shell by the end of its path; an error names an unsupported shell, or
/// asks for a name when the login shell is unknown.
pub fn standalone_completion_shell(shell: Option<&str>, env_shell: Option<&str>) -> (r: Result<CompletionShell, String>)
    ensures
        match shell {
            Some(s) => match completion_kind(s@) {
                Some(k) => r == Ok::<CompletionShell, String>(k),
                None => r matches Err(e) && e@ == "robo: unsupported completion shell: "@ + s@,
            },
            None => match env_shell {
                Some(e) => match login_completion_name(e@) {
                    Some(n) => r == Ok::<CompletionShell, String>(completion_kind(n)->0),
                    None => r matches Err(m) && m@ == "robo completion needs a shell name when SHELL is unknown."@,
                },
                None => r matches Err(m) && m@ == "robo completion needs a shell name when SHELL is unknown."@,
            },
        },
{
    proof {
        reveal_strlit("bash");
        reveal_strlit("zsh");
        reveal_strlit("fish");
    }
    match shell {
        Some(s) => match completion_kind_of(s) {
            Some(k) => Ok(k),
            None => Err(crate::text::concat("robo: unsupported completion shell: ", s)),
        },
        None => {
            let unknown = "robo completion needs a shell name when SHELL is unknown.";
            match env_shell {
                Some(e) => {
                    let v = chars_of(e);
                    if crate::text::ends_with_str(&v, "bash") {
                        Ok(CompletionShell::Bash)
                    } else if crate::text::ends_with_str(&v, "zsh") {
                        Ok(CompletionShell::Zsh)
                    } else if crate::text::ends_with_str(&v, "fish") {
                        Ok(CompletionShell::Fish)
                    } else {
                        Err(unknown.to_string())
                    }
                },
                None => Err(unknown.to_string()),
            }
        },
    }
}

} // verus!
