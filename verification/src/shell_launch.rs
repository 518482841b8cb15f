//! How `robo shell` picks the shell it starts and the argv it starts it with.
//!
//! Which files exist and are executable is for the caller to find out: the
//! functions here take the shells already resolved to executable paths and
//! decide between them.
use vstd::prelude::*;
use crate::text::{
    chars_of, contains, eq_str, file_name, file_name_str, is_ws, opt_str, string_of, strs,
};

verus! {

/// The argv and extra environment of a shell process.
#[derive(Debug, PartialEq, Eq)]
pub struct ShellLaunch {
    pub args: Vec<String>,
    pub env: Vec<(String, String)>,
}

/// What a `ShellLaunch` holds, as text.
pub struct LaunchView {
    pub args: Seq<Seq<char>>,
    pub env: Seq<(Seq<char>, Seq<char>)>,
}

pub open spec fn env_view(env: Seq<(String, String)>) -> Seq<(Seq<char>, Seq<char>)> {
    env.map_values(|p: (String, String)| (p.0@, p.1@))
}

impl View for ShellLaunch {
    type V = LaunchView;

    open spec fn view(&self) -> LaunchView {
        LaunchView { args: strs(self.args@), env: env_view(self.env@) }
    }
}

impl ShellLaunch {
    /// A launch with these arguments and no extra environment.
    pub fn args(args: Vec<String>) -> (r: Self)
        ensures
            r.args == args,
            r.env@ == Seq::<(String, String)>::empty(),
    {
        ShellLaunch { args, env: Vec::new() }
    }
}

/// The name of the file a path ends in, as `Path::file_name` gives it.
pub open spec fn named(path: Seq<char>, name: Seq<char>) -> bool {
    file_name(path) == Some(name)
}

/// A bash from the Nix store, as `nix develop` sets `SHELL` to.
pub open spec fn nix_bash(shell: Seq<char>) -> bool {
    contains(shell, "/nix/store/"@) && named(shell, "bash"@)
}

/// `sh` or `dash`: a shell that stands for no user's choice.
pub open spec fn generic_sh(shell: Seq<char>) -> bool {
    named(shell, "sh"@) || named(shell, "dash"@)
}

fn file_name_is(shell: &str, name: &str) -> (r: bool)
    ensures
        r == named(shell@, name@),
{
    match file_name_str(shell) {
        Some(n) => eq_str(&n, name),
        None => false,
    }
}

pub fn is_nix_bash(shell: &str) -> (r: bool)
    ensures
        r == nix_bash(shell@),
{
    let v = chars_of(shell);
    crate::text::contains_str(&v, "/nix/store/") && file_name_is(shell, "bash")
}

pub fn is_generic_sh(shell: &str) -> (r: bool)
    ensures
        r == generic_sh(shell@),
{
    file_name_is(shell, "sh") || file_name_is(shell, "dash")
}

/// Shells that read the user's login files when given `-lc`.
pub open spec fn login_command_shell(name: Seq<char>) -> bool {
    name == "bash"@ || name == "zsh"@ || name == "fish"@ || name == "ksh"@ || name == "mksh"@
}

pub fn command_shell_flag(shell_name: &str) -> (r: &'static str)
    ensures
        r@ == (if login_command_shell(shell_name@) {
            "-lc"@
        } else {
            "-c"@
        }),
{
    let v = chars_of(shell_name);
    if eq_str(&v, "bash") || eq_str(&v, "zsh") || eq_str(&v, "fish") || eq_str(&v, "ksh")
        || eq_str(&v, "mksh") {
        "-lc"
    } else {
        "-c"
    }
}

/// Every shell is started plainly interactive, so that it reads the user's
/// own startup files.
pub fn clean_interactive_shell_args(shell_name: &str) -> (r: Vec<&'static str>)
    ensures
        r@.map_values(|s: &str| s@) == seq!["-i"@],
{
    let r = vec!["-i"];
    assert(r@.map_values(|s: &str| s@) =~= seq!["-i"@]);
    r
}

/// A shell path after resolution: the path itself when it is an executable
/// file; otherwise what a search of `PATH` for its file name found
/// (`found_in_path`), or nothing when it has no file name.
pub open spec fn resolved_shell(
    shell: Seq<char>,
    executable: bool,
    found_in_path: Option<Seq<char>>,
) -> Option<Seq<char>> {
    if executable {
        Some(shell)
    } else if file_name(shell) is None {
        None
    } else {
        found_in_path
    }
}

pub fn resolve_shell_path_with(shell: String, executable: bool, found_in_path: Option<String>) -> (r:
    Option<String>)
    ensures
        opt_str(r) == resolved_shell(shell@, executable, opt_str(found_in_path)),
{
    if executable {
        return Some(shell);
    }
    match file_name_str(shell.as_str()) {
        Some(_) => found_in_path,
        None => None,
    }
}

/// The shells found by searching `PATH` for each name.
pub struct ShellsInPath {
    pub zsh: Option<String>,
    pub bash: Option<String>,
    pub fish: Option<String>,
    pub sh: Option<String>,
}

pub open spec fn or_else(a: Option<Seq<char>>, b: Option<Seq<char>>) -> Option<Seq<char>> {
    if a is Some {
        a
    } else {
        b
    }
}

/// `o` unless it is a generic `sh`.
pub open spec fn not_generic(o: Option<Seq<char>>) -> Option<Seq<char>> {
    match o {
        Some(s) => if generic_sh(s) {
            None
        } else {
            Some(s)
        },
        None => None,
    }
}

/// The interactive shell to start, from the resolved candidates: an
/// explicit `ROBO_NIX_SHELL` first; then `SHELL` unless it is a generic
/// `sh` (or the bash of `nix develop`, which defers to the login and parent
/// shells); then the login shell and the parent process's shell; then the
/// first of zsh, bash and fish on `PATH`; and `sh` last.
pub open spec fn default_shell_choice(
    robo_nix_shell: Option<Seq<char>>,
    shell_env: Option<Seq<char>>,
    parent_shell: Option<Seq<char>>,
    login_shell: Option<Seq<char>>,
    zsh: Option<Seq<char>>,
    bash: Option<Seq<char>>,
    fish: Option<Seq<char>>,
    sh: Option<Seq<char>>,
) -> Option<Seq<char>> {
    if robo_nix_shell is Some {
        robo_nix_shell
    } else if shell_env is Some && nix_bash(shell_env->0) {
        or_else(not_generic(login_shell), or_else(not_generic(parent_shell), shell_env))
    } else if shell_env is Some && !generic_sh(shell_env->0) {
        shell_env
    } else {
        or_else(
            not_generic(login_shell),
            or_else(
                not_generic(parent_shell),
                or_else(zsh, or_else(bash, or_else(fish, or_else(shell_env, sh)))),
            ),
        )
    }
}

fn first_of(a: Option<String>, b: Option<String>) -> (r: Option<String>)
    ensures
        opt_str(r) == or_else(opt_str(a), opt_str(b)),
{
    match a {
        Some(s) => Some(s),
        None => b,
    }
}

fn drop_generic(o: Option<String>) -> (r: Option<String>)
    ensures
        opt_str(r) == not_generic(opt_str(o)),
{
    match o {
        Some(s) => if is_generic_sh(s.as_str()) {
            None
        } else {
            Some(s)
        },
        None => None,
    }
}

/// `robo_nix_shell`, `shell_env` and `login_shell` are given resolved (see
/// `resolve_shell_path_with`); `parent_shell` is the executable of the
/// parent process as it is.
pub fn select_default_interactive_shell(
    robo_nix_shell: Option<String>,
    shell_env: Option<String>,
    parent_shell: Option<String>,
    login_shell: Option<String>,
    in_path: ShellsInPath,
) -> (r: Option<String>)
    ensures
        opt_str(r) == default_shell_choice(
            opt_str(robo_nix_shell),
            opt_str(shell_env),
            opt_str(parent_shell),
            opt_str(login_shell),
            opt_str(in_path.zsh),
            opt_str(in_path.bash),
            opt_str(in_path.fish),
            opt_str(in_path.sh),
        ),
{
    if robo_nix_shell.is_some() {
        return robo_nix_shell;
    }
    match &shell_env {
        Some(shell) => {
            if is_nix_bash(shell.as_str()) {
                let env_choice = shell_env.clone();
                return first_of(
                    drop_generic(login_shell),
                    first_of(drop_generic(parent_shell), env_choice),
                );
            }
            if !is_generic_sh(shell.as_str()) {
                return shell_env;
            }
        },
        None => {},
    }
    let fallback = first_of(
        in_path.zsh,
        first_of(in_path.bash, first_of(in_path.fish, first_of(shell_env, in_path.sh))),
    );
    first_of(drop_generic(login_shell), first_of(drop_generic(parent_shell), fallback))
}

/// The shell that runs a `-c` command: the interactive shell, else bash or
/// sh from `PATH`.
pub fn default_command_shell(
    interactive: Option<String>,
    bash_in_path: Option<String>,
    sh_in_path: Option<String>,
) -> (r: Option<String>)
    ensures
        opt_str(r) == or_else(
            opt_str(interactive),
            or_else(opt_str(bash_in_path), opt_str(sh_in_path)),
        ),
{
    first_of(interactive, first_of(bash_in_path, sh_in_path))
}

/// The file name of a path, or the empty text when it has none.
pub open spec fn name_or_empty(path: Seq<char>) -> Seq<char> {
    match file_name(path) {
        Some(n) => n,
        None => Seq::empty(),
    }
}

fn shell_name_of(shell: &str) -> (r: String)
    ensures
        r@ == name_or_empty(shell@),
{
    match file_name_str(shell) {
        Some(n) => string_of(&n),
        None => String::new(),
    }
}

/// Runs `command` through `shell`, with the flag that shell needs.
pub fn shell_command_args_for(shell: String, command: String) -> (r: ShellLaunch)
    ensures
        r@.args == seq![
            "-c"@,
            shell@,
            (if login_command_shell(name_or_empty(shell@)) {
                "-lc"@
            } else {
                "-c"@
            }),
            command@,
        ],
        r@.env == seq![("SHELL"@, shell@)],
{
    let name = shell_name_of(shell.as_str());
    let flag = command_shell_flag(name.as_str());
    let args = vec![
        "-c".to_owned(),
        shell.clone(),
        flag.to_owned(),
        command,
    ];
    let env = vec![("SHELL".to_owned(), shell)];
    let r = ShellLaunch { args, env };
    assert(r@.args =~= seq![
        "-c"@,
        shell@,
        (if login_command_shell(name_or_empty(shell@)) {
            "-lc"@
        } else {
            "-c"@
        }),
        command@,
    ]);
    assert(r@.env =~= seq![("SHELL"@, shell@)]);
    r
}

/// Whether a character of the text is whitespace.
pub open spec fn has_whitespace(s: Seq<char>) -> bool {
    exists|i: int| 0 <= i < s.len() && is_ws(#[trigger] s[i])
}

fn any_whitespace(s: &str) -> (r: bool)
    ensures
        r == has_whitespace(s@),
{
    let v = chars_of(s);
    let mut i: usize = 0;
    while i < v.len()
        invariant
            i <= v.len(),
            v@ == s@,
            forall|k: int| 0 <= k < i ==> !is_ws(#[trigger] v@[k]),
        decreases v.len() - i,
    {
        if crate::text::is_whitespace(v[i]) {
            return true;
        }
        i = i + 1;
    }
    false
}

/// What `robo shell ARGS` runs. `None` when there are no arguments: the
/// default interactive shell is started then. A single `-c` command that
/// holds whitespace is run through `command_shell` when there is one; any
/// other argv is kept as it is.
pub fn normalize_shell_args_with(args: Vec<String>, command_shell: Option<String>) -> (r: Option<
    ShellLaunch,
>)
    ensures
        args.len() == 0 <==> r is None,
        r matches Some(l) ==> {
            if args.len() == 2 && args@[0]@ == "-c"@ && has_whitespace(args@[1]@)
                && command_shell is Some {
                let shell = command_shell->0@;
                &&& l@.args == seq![
                    "-c"@,
                    shell,
                    (if login_command_shell(name_or_empty(shell)) {
                        "-lc"@
                    } else {
                        "-c"@
                    }),
                    args@[1]@,
                ]
                &&& l@.env == seq![("SHELL"@, shell)]
            } else {
                l.args == args && l.env@.len() == 0
            }
        },
{
    if args.len() == 0 {
        return None;
    }
    if args.len() != 2 {
        return Some(ShellLaunch::args(args));
    }
    let first = chars_of(args[0].as_str());
    if !eq_str(&first, "-c") {
        return Some(ShellLaunch::args(args));
    }
    if !any_whitespace(args[1].as_str()) {
        return Some(ShellLaunch::args(args));
    }
    match command_shell {
        Some(shell) => {
            let command = args[1].clone();
            Some(shell_command_args_for(shell, command))
        },
        None => Some(ShellLaunch::args(args)),
    }
}

/// An interactive launch of `shell`: `-c SHELL ARGS...`, where the
/// arguments and environment come from the prompt set-up written for that
/// shell (`prompted`), or are the plain interactive flag when there is none.
/// `SHELL` is set to the shell last.
pub fn interactive_launch(shell: String, prompted: Option<(Vec<String>, Vec<(String, String)>)>) -> (r:
    ShellLaunch)
    ensures
        ({
            let (extra_args, extra_env) = match prompted {
                Some(p) => (strs(p.0@), env_view(p.1@)),
                None => (seq!["-i"@], Seq::empty()),
            };
            &&& r@.args == seq!["-c"@, shell@] + extra_args
            &&& r@.env == extra_env.push(("SHELL"@, shell@))
        }),
{
    let (extra_args, mut env) = match prompted {
        Some(p) => p,
        None => (vec!["-i".to_owned()], Vec::new()),
    };
    let mut args = vec!["-c".to_owned(), shell.clone()];
    let ghost start = args@;
    let mut i: usize = 0;
    while i < extra_args.len()
        invariant
            i <= extra_args.len(),
            args@ == start + extra_args@.take(i as int),
        decreases extra_args.len() - i,
    {
        args.push(extra_args[i].clone());
        assert(extra_args@.take(i + 1) == extra_args@.take(i as int).push(extra_args@[i as int]));
        i = i + 1;
    }
    assert(extra_args@.take(extra_args.len() as int) == extra_args@);
    let ghost old_env = env@;
    env.push(("SHELL".to_owned(), shell));
    let r = ShellLaunch { args, env };
    assert(strs(r.args@) =~= seq!["-c"@, r.args@[1]@] + strs(extra_args@));
    assert(env_view(r.env@) =~= env_view(old_env).push(("SHELL"@, r.args@[1]@)));
    r
}

/// The short name shown for a launch: the file name of the shell after
/// `-c`, or of the program, or `unknown`.
pub open spec fn launch_label(args: Seq<Seq<char>>) -> Seq<char> {
    if args.len() > 0 && args[0] == "-c"@ {
        if args.len() < 2 {
            "unknown"@
        } else {
            match file_name(args[1]) {
                Some(n) => n,
                None => args[1],
            }
        }
    } else if args.len() > 0 && file_name(args[0]) is Some {
        file_name(args[0])->0
    } else {
        "unknown"@
    }
}

pub fn shell_launch_label(launch: &ShellLaunch) -> (r: String)
    ensures
        r@ == launch_label(launch@.args),
{
    let ghost a = launch@.args;
    if launch.args.len() > 0 {
        let first = chars_of(launch.args[0].as_str());
        assert(a[0] == launch.args@[0]@);
        if eq_str(&first, "-c") {
            if launch.args.len() < 2 {
                return "unknown".to_owned();
            }
            assert(a[1] == launch.args@[1]@);
            return match file_name_str(launch.args[1].as_str()) {
                Some(n) => string_of(&n),
                None => launch.args[1].clone(),
            };
        }
        match file_name_str(launch.args[0].as_str()) {
            Some(n) => string_of(&n),
            None => "unknown".to_owned(),
        }
    } else {
        "unknown".to_owned()
    }
}

/// The program and arguments of a launch argv: what follows `-c` is the
/// program, otherwise the first argument is.
pub fn launch_program(args: Vec<String>) -> (r: Result<(String, Vec<String>), String>)
    ensures
        args.len() == 0 ==> r is Err && r->Err_0@
            == "could not determine an interactive shell to launch."@,
        args.len() > 0 && args@[0]@ == "-c"@ ==> if args.len() < 2 {
            r is Err && r->Err_0@ == "shell command is missing a program after -c."@
        } else {
            r is Ok && r->Ok_0.0 == args@[1] && r->Ok_0.1@ == args@.skip(2)
        },
        args.len() > 0 && args@[0]@ != "-c"@ ==> r is Ok && r->Ok_0.0 == args@[0]
            && r->Ok_0.1@ == args@.skip(1),
{
    if args.len() == 0 {
        return Err("could not determine an interactive shell to launch.".to_owned());
    }
    let first = chars_of(args[0].as_str());
    let start: usize = if eq_str(&first, "-c") {
        if args.len() < 2 {
            return Err("shell command is missing a program after -c.".to_owned());
        }
        1
    } else {
        0
    };
    let program = args[start].clone();
    let mut rest: Vec<String> = Vec::new();
    let mut i: usize = start + 1;
    while i < args.len()
        invariant
            start + 1 <= i <= args.len(),
            rest@ == args@.subrange(start + 1, i as int),
        decreases args.len() - i,
    {
        rest.push(args[i].clone());
        assert(args@.subrange(start + 1, i + 1) == args@.subrange(start + 1, i as int).push(
            args@[i as int],
        ));
        i = i + 1;
    }
    assert(args@.subrange(start + 1, args.len() as int) == args@.skip(start + 1));
    Ok((program, rest))
}

/// The fish prompt set-up passed with `--init-command`.
pub open spec fn fish_prompt_command() -> Seq<char> {
    "if test -n \"$ROBO_NIX_PROMPT_PREFIX\"; functions -q fish_prompt; and functions -c fish_prompt __robo_fish_prompt_orig; function fish_prompt --description 'robo prompt prefix'; set_color brblack; printf '['; set_color white; printf 'ro'; set_color cyan; printf 'bo'; set_color brblack; printf ']'; set_color normal; functions -q __robo_fish_prompt_orig; and __robo_fish_prompt_orig; end; end"@
}

/// fish needs no startup file: its prompt is set with `--init-command`.
pub fn prompted_fish_args() -> (r: (Vec<String>, Vec<(String, String)>))
    ensures
        strs(r.0@) == seq!["--init-command"@, fish_prompt_command(), "-i"@],
        r.1@.len() == 0,
{
    let args = vec![
        "--init-command".to_owned(),
        "if test -n \"$ROBO_NIX_PROMPT_PREFIX\"; functions -q fish_prompt; and functions -c fish_prompt __robo_fish_prompt_orig; function fish_prompt --description 'robo prompt prefix'; set_color brblack; printf '['; set_color white; printf 'ro'; set_color cyan; printf 'bo'; set_color brblack; printf ']'; set_color normal; functions -q __robo_fish_prompt_orig; and __robo_fish_prompt_orig; end; end".to_owned(),
        "-i".to_owned(),
    ];
    assert(strs(args@) =~= seq!["--init-command"@, fish_prompt_command(), "-i"@]);
    (args, Vec::new())
}

/// The `.zshenv` written for a project zsh whose startup directory is `dir`.
pub open spec fn zshenv_text(quoted_dir: Seq<char>) -> Seq<char> {
    "if [ -n \"${ROBO_NIX_PARENT_ZDOTDIR:-}\" ] && [ -f \"${ROBO_NIX_PARENT_ZDOTDIR}/.zshenv\" ]; then source \"${ROBO_NIX_PARENT_ZDOTDIR}/.zshenv\"; elif [ -f \"$HOME/.zshenv\" ]; then source \"$HOME/.zshenv\"; fi\nexport ZDOTDIR="@
        + quoted_dir + "\n"@
}

pub fn zshenv(dir: &str) -> (r: String)
    ensures
        r@ == zshenv_text(crate::hook::posix_quoted(dir@)),
{
    let quoted = crate::hook::shell_quote(dir);
    let mut out = chars_of(
        "if [ -n \"${ROBO_NIX_PARENT_ZDOTDIR:-}\" ] && [ -f \"${ROBO_NIX_PARENT_ZDOTDIR}/.zshenv\" ]; then source \"${ROBO_NIX_PARENT_ZDOTDIR}/.zshenv\"; elif [ -f \"$HOME/.zshenv\" ]; then source \"$HOME/.zshenv\"; fi\nexport ZDOTDIR=",
    );
    crate::text::append_str(&mut out, quoted.as_str());
    crate::text::append_str(&mut out, "\n");
    string_of(&out)
}

} // verus!
