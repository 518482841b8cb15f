//! The text of the shell hooks that `robo hook` prints.
//!
//! The POSIX hook is evaluated unquoted by `eval "$(robo hook bash)"`, so it
//! is one line of `;`-separated commands.
use vstd::prelude::*;
use crate::shell::{is_interactive_shell, requested_shell_name, supports_interactive_shell};
use crate::text::{
    append_chars, append_str, avoids, chars_of, join, lemma_join_avoids, lemma_replace_avoids,
    replace_char, replace_char_chars, string_of, views,
};

verus! {

/// The variables a shell hook saves before entering a project shell and
/// restores when leaving it, in order.
pub open spec fn hook_state_vars() -> Seq<Seq<char>> {
    seq![
        "PATH"@,
        "LD_LIBRARY_PATH"@,
        "LIBRARY_PATH"@,
        "CPATH"@,
        "CMAKE_PREFIX_PATH"@,
        "CUDA_HOME"@,
        "CUDA_PATH"@,
        "MUJOCO_GL"@,
        "ROBO_NIX_MUJOCO_GL_DEFAULT"@,
        "NIX_CFLAGS_COMPILE"@,
        "NIX_LDFLAGS"@,
        "ROBO_NIX_PYTHON"@,
        "ROBO_NIX_PYTHON_MAJOR_MINOR"@,
        "ROBO_NIX_HOST_GRAPHICS_AUTO"@,
        "ROBO_NIX_HOST_GRAPHICS_LIB_DIRS_AUTO"@,
        "ROBO_NIX_LIBCUDA_PATH"@,
        "ROBO_NIX_HOST_LIBCUDA_AUTO"@,
        "TRITON_LIBCUDA_PATH"@,
        "XDG_DATA_DIRS"@,
        "SHELL"@,
        "UV_CACHE_DIR"@,
        "UV_PROJECT_ENVIRONMENT"@,
        "UV_PYTHON"@,
        "UV_PYTHON_DOWNLOADS"@,
        "VIRTUAL_ENV"@,
    ]
}

fn state_vars() -> (r: Vec<&'static str>)
    ensures
        r@.map_values(|s: &str| s@) == hook_state_vars(),
{
    let r = vec![
        "PATH",
        "LD_LIBRARY_PATH",
        "LIBRARY_PATH",
        "CPATH",
        "CMAKE_PREFIX_PATH",
        "CUDA_HOME",
        "CUDA_PATH",
        "MUJOCO_GL",
        "ROBO_NIX_MUJOCO_GL_DEFAULT",
        "NIX_CFLAGS_COMPILE",
        "NIX_LDFLAGS",
        "ROBO_NIX_PYTHON",
        "ROBO_NIX_PYTHON_MAJOR_MINOR",
        "ROBO_NIX_HOST_GRAPHICS_AUTO",
        "ROBO_NIX_HOST_GRAPHICS_LIB_DIRS_AUTO",
        "ROBO_NIX_LIBCUDA_PATH",
        "ROBO_NIX_HOST_LIBCUDA_AUTO",
        "TRITON_LIBCUDA_PATH",
        "XDG_DATA_DIRS",
        "SHELL",
        "UV_CACHE_DIR",
        "UV_PROJECT_ENVIRONMENT",
        "UV_PYTHON",
        "UV_PYTHON_DOWNLOADS",
        "VIRTUAL_ENV",
    ];
    assert(r@.map_values(|s: &str| s@) =~= hook_state_vars());
    r
}

/// Single quotes for a POSIX shell: `'` inside becomes `'\''`.
pub open spec fn posix_quoted(value: Seq<char>) -> Seq<char> {
    seq!['\''] + replace_char(value, '\'', seq!['\'', '\\', '\'', '\'']) + seq!['\'']
}

/// Single quotes for fish: `\` becomes `\\`, then `'` becomes `\'`.
pub open spec fn fish_quoted(value: Seq<char>) -> Seq<char> {
    seq!['\''] + replace_char(
        replace_char(value, '\\', seq!['\\', '\\']),
        '\'',
        seq!['\\', '\''],
    ) + seq!['\'']
}

pub fn shell_quote(value: &str) -> (r: String)
    ensures
        r@ == posix_quoted(value@),
{
    let v = chars_of(value);
    let with = vec!['\'', '\\', '\'', '\''];
    let body = replace_char_chars(&v, '\'', &with);
    let mut out = vec!['\''];
    append_chars(&mut out, &body);
    out.push('\'');
    string_of(&out)
}

pub fn fish_quote(value: &str) -> (r: String)
    ensures
        r@ == fish_quoted(value@),
{
    let v = chars_of(value);
    let backslashes = vec!['\\', '\\'];
    let escaped = replace_char_chars(&v, '\\', &backslashes);
    let quote = vec!['\\', '\''];
    let body = replace_char_chars(&escaped, '\'', &quote);
    let mut out = vec!['\''];
    append_chars(&mut out, &body);
    out.push('\'');
    string_of(&out)
}

/// `name() { body[0]; body[1]; ...; }`.
pub open spec fn posix_function_text(name: Seq<char>, body: Seq<Seq<char>>) -> Seq<char> {
    name + "() { "@ + join(body, "; "@) + "; }"@
}

fn join_strs(pieces: &[&str], sep: &str) -> (r: Vec<char>)
    ensures
        r@ == join(pieces@.map_values(|s: &str| s@), sep@),
{
    let ghost pv = pieces@.map_values(|s: &str| s@);
    if pieces.len() == 0 {
        return Vec::new();
    }
    let mut out = chars_of(pieces[0]);
    let mut i: usize = 1;
    assert(pv.take(1).drop_last().len() == 0);
    assert(pv.take(1) =~= seq![pv[0]]);
    while i < pieces.len()
        invariant
            1 <= i <= pieces.len(),
            pv == pieces@.map_values(|s: &str| s@),
            out@ == join(pv.take(i as int), sep@),
        decreases pieces.len() - i,
    {
        append_str(&mut out, sep);
        append_str(&mut out, pieces[i]);
        assert(pv.take(i + 1).drop_last() == pv.take(i as int));
        i = i + 1;
    }
    assert(pv.take(pieces.len() as int) == pv);
    out
}

pub fn posix_function(name: &str, body: &[&str]) -> (r: String)
    ensures
        r@ == posix_function_text(name@, body@.map_values(|s: &str| s@)),
{
    let mut out = chars_of(name);
    append_str(&mut out, "() { ");
    let joined = join_strs(body, "; ");
    append_chars(&mut out, &joined);
    append_str(&mut out, "; }");
    string_of(&out)
}

/// `function VAR` for each hook state variable, joined by `; `.
pub open spec fn var_calls_text(function: Seq<char>) -> Seq<char> {
    join(
        Seq::new(
            hook_state_vars().len(),
            |i: int| function + seq![' '] + hook_state_vars()[i],
        ),
        "; "@,
    )
}

pub fn posix_hook_var_calls(function: &str) -> (r: String)
    ensures
        r@ == var_calls_text(function@),
{
    let vars = state_vars();
    let ghost calls = Seq::new(
        hook_state_vars().len(),
        |i: int| function@ + seq![' '] + hook_state_vars()[i],
    );
    let mut out: Vec<char> = Vec::new();
    let mut i: usize = 0;
    while i < vars.len()
        invariant
            i <= vars.len(),
            vars@.map_values(|s: &str| s@) == hook_state_vars(),
            calls == Seq::new(
                hook_state_vars().len(),
                |i: int| function@ + seq![' '] + hook_state_vars()[i],
            ),
            out@ == join(calls.take(i as int), "; "@),
        decreases vars.len() - i,
    {
        if i > 0 {
            append_str(&mut out, "; ");
        }
        append_str(&mut out, function);
        out.push(' ');
        append_str(&mut out, vars[i]);
        proof {
            assert(calls.take(i + 1).drop_last() == calls.take(i as int));
            assert(vars@.map_values(|s: &str| s@)[i as int] == vars@[i as int]@);
            assert(calls[i as int] == function@ + seq![' '] + hook_state_vars()[i as int]);
            if i == 0 {
                assert(calls.take(1) =~= seq![calls[0]]);
            }
        }
        i = i + 1;
    }
    assert(calls.take(vars.len() as int) == calls);
    string_of(&out)
}

/// The body lines of `__robo_save_var`.
pub open spec fn save_var_body() -> Seq<Seq<char>> {
    seq![
        "eval \"__robo_state=\\${__ROBO_SAVED_${1}_STATE+x}\""@,
        "if [ -n \"$__robo_state\" ]; then unset __robo_state; return; fi"@,
        "eval \"__robo_has_value=\\${${1}+x}\""@,
        "if [ -n \"$__robo_has_value\" ]; then eval \"__ROBO_SAVED_${1}_STATE=set\"; eval \"__ROBO_SAVED_${1}=\\${${1}}\"; else eval \"__ROBO_SAVED_${1}_STATE=unset\"; fi"@,
        "unset __robo_state __robo_has_value"@,
    ]
}

pub fn posix_save_var_function() -> (r: String)
    ensures
        r@ == posix_function_text("__robo_save_var"@, save_var_body()),
{
    let body = [
        "eval \"__robo_state=\\${__ROBO_SAVED_${1}_STATE+x}\"",
        "if [ -n \"$__robo_state\" ]; then unset __robo_state; return; fi",
        "eval \"__robo_has_value=\\${${1}+x}\"",
        "if [ -n \"$__robo_has_value\" ]; then eval \"__ROBO_SAVED_${1}_STATE=set\"; eval \"__ROBO_SAVED_${1}=\\${${1}}\"; else eval \"__ROBO_SAVED_${1}_STATE=unset\"; fi",
        "unset __robo_state __robo_has_value",
    ];
    assert(body@.map_values(|s: &str| s@) =~= save_var_body());
    posix_function("__robo_save_var", &body)
}

/// The body lines of `__robo_restore_var`.
pub open spec fn restore_var_body() -> Seq<Seq<char>> {
    seq![
        "eval \"__robo_state=\\${__ROBO_SAVED_${1}_STATE:-}\""@,
        "case \"$__robo_state\" in set) eval \"export $1=\\\"\\${__ROBO_SAVED_${1}}\\\"\" ;; unset) unset \"$1\" ;; esac"@,
        "eval \"unset __ROBO_SAVED_${1}_STATE __ROBO_SAVED_${1}\""@,
        "unset __robo_state"@,
    ]
}

pub fn posix_restore_var_function() -> (r: String)
    ensures
        r@ == posix_function_text("__robo_restore_var"@, restore_var_body()),
{
    let body = [
        "eval \"__robo_state=\\${__ROBO_SAVED_${1}_STATE:-}\"",
        "case \"$__robo_state\" in set) eval \"export $1=\\\"\\${__ROBO_SAVED_${1}}\\\"\" ;; unset) unset \"$1\" ;; esac",
        "eval \"unset __ROBO_SAVED_${1}_STATE __ROBO_SAVED_${1}\"",
        "unset __robo_state",
    ];
    assert(body@.map_values(|s: &str| s@) =~= restore_var_body());
    posix_function("__robo_restore_var", &body)
}

/// The body of `__robo_prompt_enable`.
pub open spec fn prompt_enable_line() -> Seq<char> {
    "if [ -n \"${ROBO_NIX_PROMPT_PREFIX:-}\" ] && [ -z \"${__ROBO_PROMPT_ACTIVE:-}\" ]; then __ROBO_PROMPT_ACTIVE=1; __ROBO_SAVED_PS1=\"${PS1-}\"; PS1=\"${ROBO_NIX_PROMPT_PREFIX}${PS1-}\"; fi"@
}

pub fn posix_prompt_enable_function() -> (r: String)
    ensures
        r@ == posix_function_text("__robo_prompt_enable"@, seq![prompt_enable_line()]),
{
    let body = [
        "if [ -n \"${ROBO_NIX_PROMPT_PREFIX:-}\" ] && [ -z \"${__ROBO_PROMPT_ACTIVE:-}\" ]; then __ROBO_PROMPT_ACTIVE=1; __ROBO_SAVED_PS1=\"${PS1-}\"; PS1=\"${ROBO_NIX_PROMPT_PREFIX}${PS1-}\"; fi",
    ];
    assert(body@.map_values(|s: &str| s@) =~= seq![prompt_enable_line()]);
    posix_function("__robo_prompt_enable", &body)
}

/// The body of `__robo_prompt_disable`.
pub open spec fn prompt_disable_line() -> Seq<char> {
    "if [ -n \"${__ROBO_PROMPT_ACTIVE:-}\" ]; then PS1=\"${__ROBO_SAVED_PS1-}\"; unset __ROBO_PROMPT_ACTIVE __ROBO_SAVED_PS1; fi"@
}

pub fn posix_prompt_disable_function() -> (r: String)
    ensures
        r@ == posix_function_text("__robo_prompt_disable"@, seq![prompt_disable_line()]),
{
    let body = [
        "if [ -n \"${__ROBO_PROMPT_ACTIVE:-}\" ]; then PS1=\"${__ROBO_SAVED_PS1-}\"; unset __ROBO_PROMPT_ACTIVE __ROBO_SAVED_PS1; fi",
    ];
    assert(body@.map_values(|s: &str| s@) =~= seq![prompt_disable_line()]);
    posix_function("__robo_prompt_disable", &body)
}

/// The `shell)` arm of the `robo` function: enter the project shell in
/// place, saving the variables first.
pub open spec fn shell_arm(save_vars: Seq<char>) -> Seq<char> {
    "shell) shift; if [ -n \"${ROBO_NIX_ACTIVE:-}\" ]; then \"$__robo_bin\" status; return; fi; if [ \"$#\" -eq 0 ]; then "@
        + save_vars
        + "; __robo_env=\"$(\"$__robo_bin\" __shell-env)\" || return; eval \"$__robo_env\"; unset __robo_env; __robo_prompt_enable; else \"$__robo_bin\" shell \"$@\"; fi ;;"@
}

/// The `deactivate)` arm: leave the project shell, restoring the variables.
pub open spec fn deactivate_arm(restore_vars: Seq<char>) -> Seq<char> {
    "deactivate) if [ -n \"${ROBO_NIX_ACTIVE:-}\" ]; then __robo_prompt_disable; "@
        + restore_vars
        + "; unset ROBO_NIX_ACTIVE ROBO_NIX_ENV_NAME ROBO_NIX_PYTHON_VERSION ROBO_NIX_PROMPT_PREFIX; hash -r 2>/dev/null || true; else \"$__robo_bin\" deactivate; fi ;;"@
}

pub open spec fn robo_function_text(save_vars: Seq<char>, restore_vars: Seq<char>) -> Seq<char> {
    "robo() { case \"${1-}\" in "@ + shell_arm(save_vars) + " "@ + deactivate_arm(restore_vars)
        + " *) \"$__robo_bin\" \"$@\" ;; esac; }"@
}

pub fn posix_robo_function(save_vars: &str, restore_vars: &str) -> (r: String)
    ensures
        r@ == robo_function_text(save_vars@, restore_vars@),
{
    let mut out = chars_of("robo() { case \"${1-}\" in ");
    append_str(
        &mut out,
        "shell) shift; if [ -n \"${ROBO_NIX_ACTIVE:-}\" ]; then \"$__robo_bin\" status; return; fi; if [ \"$#\" -eq 0 ]; then ",
    );
    append_str(&mut out, save_vars);
    append_str(
        &mut out,
        "; __robo_env=\"$(\"$__robo_bin\" __shell-env)\" || return; eval \"$__robo_env\"; unset __robo_env; __robo_prompt_enable; else \"$__robo_bin\" shell \"$@\"; fi ;;",
    );
    append_str(&mut out, " ");
    append_str(&mut out, "deactivate) if [ -n \"${ROBO_NIX_ACTIVE:-}\" ]; then __robo_prompt_disable; ");
    append_str(&mut out, restore_vars);
    append_str(
        &mut out,
        "; unset ROBO_NIX_ACTIVE ROBO_NIX_ENV_NAME ROBO_NIX_PYTHON_VERSION ROBO_NIX_PROMPT_PREFIX; hash -r 2>/dev/null || true; else \"$__robo_bin\" deactivate; fi ;;",
    );
    append_str(&mut out, " *) \"$__robo_bin\" \"$@\" ;; esac; }");
    string_of(&out)
}

/// The last command of the hook: restore the prompt prefix of a project
/// shell that is already active.
pub open spec fn reenable_line() -> Seq<char> {
    "if [ -n \"${ROBO_NIX_ACTIVE:-}\" ]; then __robo_prompt_enable; fi"@
}

/// The seven commands of the POSIX hook, in order.
pub open spec fn posix_hook_parts(robo: Seq<char>) -> Seq<Seq<char>> {
    seq![
        "__robo_bin="@ + posix_quoted(robo),
        posix_function_text("__robo_save_var"@, save_var_body()),
        posix_function_text("__robo_restore_var"@, restore_var_body()),
        posix_function_text("__robo_prompt_enable"@, seq![prompt_enable_line()]),
        posix_function_text("__robo_prompt_disable"@, seq![prompt_disable_line()]),
        robo_function_text(var_calls_text("__robo_save_var"@), var_calls_text("__robo_restore_var"@)),
        reenable_line(),
    ]
}

/// The hook for bash and zsh, for the `robo` binary at `robo`.
pub fn posix_hook_text(robo: &str) -> (r: String)
    ensures
        r@ == join(posix_hook_parts(robo@), "; "@),
{
    let save_vars = posix_hook_var_calls("__robo_save_var");
    let restore_vars = posix_hook_var_calls("__robo_restore_var");
    let quoted = shell_quote(robo);
    let mut first = chars_of("__robo_bin=");
    append_str(&mut first, quoted.as_str());
    let parts: Vec<Vec<char>> = vec![
        first,
        chars_of(posix_save_var_function().as_str()),
        chars_of(posix_restore_var_function().as_str()),
        chars_of(posix_prompt_enable_function().as_str()),
        chars_of(posix_prompt_disable_function().as_str()),
        chars_of(posix_robo_function(save_vars.as_str(), restore_vars.as_str()).as_str()),
        chars_of("if [ -n \"${ROBO_NIX_ACTIVE:-}\" ]; then __robo_prompt_enable; fi"),
    ];
    assert(views(parts@) =~= posix_hook_parts(robo@));
    let sep = chars_of("; ");
    string_of(&crate::text::join_chars(&parts, &sep))
}

/// The fish hook for the `robo` binary at `robo` (already quoted for fish).
pub open spec fn fish_hook_text(quoted_robo: Seq<char>) -> Seq<char> {
    "\nset -gx __robo_bin "@ + quoted_robo
        + "\n\nfunction robo\n    command $__robo_bin $argv\nend\n\nif test -n \"$ROBO_NIX_ACTIVE\"; and test -n \"$ROBO_NIX_PROMPT_PREFIX\"\n    if functions -q fish_prompt; and not functions -q __robo_fish_prompt_orig\n        functions -c fish_prompt __robo_fish_prompt_orig\n    end\n\n    function fish_prompt --description 'robo prompt prefix'\n        printf '%s' \"$ROBO_NIX_PROMPT_PREFIX\"\n        functions -q __robo_fish_prompt_orig; and __robo_fish_prompt_orig\n    end\nend\n"@
}

/// The hook for fish, for the `robo` binary at `robo`.
pub fn fish_hook(robo: &str) -> (r: String)
    ensures
        r@ == fish_hook_text(fish_quoted(robo@)),
{
    let quoted = fish_quote(robo);
    let mut out = chars_of("\nset -gx __robo_bin ");
    append_str(&mut out, quoted.as_str());
    append_str(
        &mut out,
        "\n\nfunction robo\n    command $__robo_bin $argv\nend\n\nif test -n \"$ROBO_NIX_ACTIVE\"; and test -n \"$ROBO_NIX_PROMPT_PREFIX\"\n    if functions -q fish_prompt; and not functions -q __robo_fish_prompt_orig\n        functions -c fish_prompt __robo_fish_prompt_orig\n    end\n\n    function fish_prompt --description 'robo prompt prefix'\n        printf '%s' \"$ROBO_NIX_PROMPT_PREFIX\"\n        functions -q __robo_fish_prompt_orig; and __robo_fish_prompt_orig\n    end\nend\n",
    );
    string_of(&out)
}

/// The message for a shell that has no hook.
pub open spec fn unsupported_hook_message(shell: Seq<char>) -> Seq<char> {
    "unsupported hook shell: "@ + shell
}

/// The shell `robo hook` prints a hook for: the one named, or `SHELL`,
/// when it is one of the supported interactive shells.
pub fn hook_shell(arg: Option<&str>, env_shell: Option<&str>) -> (r: Result<String, String>)
    ensures
        ({
            let requested = if arg is Some { arg->0@ } else { env_shell->0@ };
            let named = crate::shell::basename(requested);
            if arg is None && env_shell is None {
                r is Err && r->Err_0@ == crate::shell::no_shell_message("robo hook"@)
            } else if is_interactive_shell(named) {
                r is Ok && r->Ok_0@ == named
            } else {
                r is Err && r->Err_0@ == unsupported_hook_message(named)
            }
        }),
{
    let shell = requested_shell_name(arg, env_shell, "robo hook")?;
    if supports_interactive_shell(shell.as_str()) {
        Ok(shell)
    } else {
        let mut out = chars_of("unsupported hook shell: ");
        append_str(&mut out, shell.as_str());
        Err(string_of(&out))
    }
}

proof fn lemma_parts_avoid(a: Seq<char>, b: Seq<char>, c: Seq<char>, d: char)
    requires
        avoids(a, d),
        avoids(b, d),
        avoids(c, d),
    ensures
        avoids(a + b + c, d),
{
    assert forall|i: int| 0 <= i < (a + b + c).len() implies (a + b + c)[i] != d by {
        if i < a.len() {
            assert((a + b + c)[i] == a[i]);
        } else if i < a.len() + b.len() {
            assert((a + b + c)[i] == b[i - a.len()]);
        } else {
            assert((a + b + c)[i] == c[i - a.len() - b.len()]);
        }
    }
}

proof fn lemma_function_text_single_line(name: Seq<char>, body: Seq<Seq<char>>)
    requires
        avoids(name, '\n'),
        forall|k: int| 0 <= k < body.len() ==> avoids(#[trigger] body[k], '\n'),
    ensures
        avoids(posix_function_text(name, body), '\n'),
{
    reveal_strlit("() { ");
    reveal_strlit("; ");
    reveal_strlit("; }");
    lemma_join_avoids(body, "; "@, '\n');
    lemma_parts_avoid(name, "() { "@, join(body, "; "@), '\n');
    lemma_parts_avoid(name + "() { "@ + join(body, "; "@), "; }"@, seq![], '\n');
    assert(name + "() { "@ + join(body, "; "@) + "; }"@ + seq![] =~= posix_function_text(
        name,
        body,
    ));
}

proof fn lemma_var_calls_single_line(function: Seq<char>)
    requires
        avoids(function, '\n'),
    ensures
        avoids(var_calls_text(function), '\n'),
{
    reveal_strlit("; ");
    reveal_strlit("PATH");
    reveal_strlit("LD_LIBRARY_PATH");
    reveal_strlit("LIBRARY_PATH");
    reveal_strlit("CPATH");
    reveal_strlit("CMAKE_PREFIX_PATH");
    reveal_strlit("CUDA_HOME");
    reveal_strlit("CUDA_PATH");
    reveal_strlit("MUJOCO_GL");
    reveal_strlit("ROBO_NIX_MUJOCO_GL_DEFAULT");
    reveal_strlit("NIX_CFLAGS_COMPILE");
    reveal_strlit("NIX_LDFLAGS");
    reveal_strlit("ROBO_NIX_PYTHON");
    reveal_strlit("ROBO_NIX_PYTHON_MAJOR_MINOR");
    reveal_strlit("ROBO_NIX_HOST_GRAPHICS_AUTO");
    reveal_strlit("ROBO_NIX_HOST_GRAPHICS_LIB_DIRS_AUTO");
    reveal_strlit("ROBO_NIX_LIBCUDA_PATH");
    reveal_strlit("ROBO_NIX_HOST_LIBCUDA_AUTO");
    reveal_strlit("TRITON_LIBCUDA_PATH");
    reveal_strlit("XDG_DATA_DIRS");
    reveal_strlit("SHELL");
    reveal_strlit("UV_CACHE_DIR");
    reveal_strlit("UV_PROJECT_ENVIRONMENT");
    reveal_strlit("UV_PYTHON");
    reveal_strlit("UV_PYTHON_DOWNLOADS");
    reveal_strlit("VIRTUAL_ENV");
    let vars = hook_state_vars();
    assert forall|k: int| 0 <= k < vars.len() implies avoids(#[trigger] vars[k], '\n') by {}
    let calls = Seq::new(vars.len(), |i: int| function + seq![' '] + vars[i]);
    assert forall|k: int| 0 <= k < calls.len() implies avoids(#[trigger] calls[k], '\n') by {
        lemma_parts_avoid(function, seq![' '], vars[k], '\n');
    }
    lemma_join_avoids(calls, "; "@, '\n');
}

/// The POSIX hook is a single line whenever the path of the `robo` binary
/// is: `eval` of its unquoted output then runs every command.
pub proof fn lemma_posix_hook_single_line(robo: Seq<char>)
    requires
        avoids(robo, '\n'),
    ensures
        avoids(join(posix_hook_parts(robo), "; "@), '\n'),
{
    reveal_strlit("; ");
    reveal_strlit("__robo_bin=");
    reveal_strlit("__robo_save_var");
    reveal_strlit("__robo_restore_var");
    reveal_strlit("__robo_prompt_enable");
    reveal_strlit("__robo_prompt_disable");
    reveal_strlit("eval \"__robo_state=\\${__ROBO_SAVED_${1}_STATE+x}\"");
    reveal_strlit("if [ -n \"$__robo_state\" ]; then unset __robo_state; return; fi");
    reveal_strlit("eval \"__robo_has_value=\\${${1}+x}\"");
    reveal_strlit("if [ -n \"$__robo_has_value\" ]; then eval \"__ROBO_SAVED_${1}_STATE=set\"; eval \"__ROBO_SAVED_${1}=\\${${1}}\"; else eval \"__ROBO_SAVED_${1}_STATE=unset\"; fi");
    reveal_strlit("unset __robo_state __robo_has_value");
    reveal_strlit("eval \"__robo_state=\\${__ROBO_SAVED_${1}_STATE:-}\"");
    reveal_strlit("case \"$__robo_state\" in set) eval \"export $1=\\\"\\${__ROBO_SAVED_${1}}\\\"\" ;; unset) unset \"$1\" ;; esac");
    reveal_strlit("eval \"unset __ROBO_SAVED_${1}_STATE __ROBO_SAVED_${1}\"");
    reveal_strlit("unset __robo_state");
    reveal_strlit("if [ -n \"${ROBO_NIX_PROMPT_PREFIX:-}\" ] && [ -z \"${__ROBO_PROMPT_ACTIVE:-}\" ]; then __ROBO_PROMPT_ACTIVE=1; __ROBO_SAVED_PS1=\"${PS1-}\"; PS1=\"${ROBO_NIX_PROMPT_PREFIX}${PS1-}\"; fi");
    reveal_strlit("if [ -n \"${__ROBO_PROMPT_ACTIVE:-}\" ]; then PS1=\"${__ROBO_SAVED_PS1-}\"; unset __ROBO_PROMPT_ACTIVE __ROBO_SAVED_PS1; fi");
    reveal_strlit("robo() { case \"${1-}\" in ");
    reveal_strlit("shell) shift; if [ -n \"${ROBO_NIX_ACTIVE:-}\" ]; then \"$__robo_bin\" status; return; fi; if [ \"$#\" -eq 0 ]; then ");
    reveal_strlit("; __robo_env=\"$(\"$__robo_bin\" __shell-env)\" || return; eval \"$__robo_env\"; unset __robo_env; __robo_prompt_enable; else \"$__robo_bin\" shell \"$@\"; fi ;;");
    reveal_strlit(" ");
    reveal_strlit("deactivate) if [ -n \"${ROBO_NIX_ACTIVE:-}\" ]; then __robo_prompt_disable; ");
    reveal_strlit("; unset ROBO_NIX_ACTIVE ROBO_NIX_ENV_NAME ROBO_NIX_PYTHON_VERSION ROBO_NIX_PROMPT_PREFIX; hash -r 2>/dev/null || true; else \"$__robo_bin\" deactivate; fi ;;");
    reveal_strlit(" *) \"$__robo_bin\" \"$@\" ;; esac; }");
    reveal_strlit("if [ -n \"${ROBO_NIX_ACTIVE:-}\" ]; then __robo_prompt_enable; fi");
    let quote = seq!['\'', '\\', '\'', '\''];
    lemma_replace_avoids(robo, '\'', quote, '\n');
    lemma_parts_avoid(seq!['\''], replace_char(robo, '\'', quote), seq!['\''], '\n');
    lemma_parts_avoid("__robo_bin="@, posix_quoted(robo), seq![], '\n');
    assert("__robo_bin="@ + posix_quoted(robo) + seq![] =~= "__robo_bin="@ + posix_quoted(robo));
    let save = save_var_body();
    assert forall|k: int| 0 <= k < save.len() implies avoids(#[trigger] save[k], '\n') by {}
    lemma_function_text_single_line("__robo_save_var"@, save);
    let restore = restore_var_body();
    assert forall|k: int| 0 <= k < restore.len() implies avoids(#[trigger] restore[k], '\n') by {}
    lemma_function_text_single_line("__robo_restore_var"@, restore);
    let enable = seq![prompt_enable_line()];
    assert forall|k: int| 0 <= k < enable.len() implies avoids(#[trigger] enable[k], '\n') by {}
    lemma_function_text_single_line("__robo_prompt_enable"@, enable);
    let disable = seq![prompt_disable_line()];
    assert forall|k: int| 0 <= k < disable.len() implies avoids(#[trigger] disable[k], '\n') by {}
    lemma_function_text_single_line("__robo_prompt_disable"@, disable);
    lemma_var_calls_single_line("__robo_save_var"@);
    lemma_var_calls_single_line("__robo_restore_var"@);
    let save_calls = var_calls_text("__robo_save_var"@);
    let restore_calls = var_calls_text("__robo_restore_var"@);
    lemma_parts_avoid(
        "shell) shift; if [ -n \"${ROBO_NIX_ACTIVE:-}\" ]; then \"$__robo_bin\" status; return; fi; if [ \"$#\" -eq 0 ]; then "@,
        save_calls,
        "; __robo_env=\"$(\"$__robo_bin\" __shell-env)\" || return; eval \"$__robo_env\"; unset __robo_env; __robo_prompt_enable; else \"$__robo_bin\" shell \"$@\"; fi ;;"@,
        '\n',
    );
    lemma_parts_avoid(
        "deactivate) if [ -n \"${ROBO_NIX_ACTIVE:-}\" ]; then __robo_prompt_disable; "@,
        restore_calls,
        "; unset ROBO_NIX_ACTIVE ROBO_NIX_ENV_NAME ROBO_NIX_PYTHON_VERSION ROBO_NIX_PROMPT_PREFIX; hash -r 2>/dev/null || true; else \"$__robo_bin\" deactivate; fi ;;"@,
        '\n',
    );
    lemma_parts_avoid("robo() { case \"${1-}\" in "@, shell_arm(save_calls), " "@, '\n');
    lemma_parts_avoid(
        "robo() { case \"${1-}\" in "@ + shell_arm(save_calls) + " "@,
        deactivate_arm(restore_calls),
        " *) \"$__robo_bin\" \"$@\" ;; esac; }"@,
        '\n',
    );
    let parts = posix_hook_parts(robo);
    assert forall|k: int| 0 <= k < parts.len() implies avoids(#[trigger] parts[k], '\n') by {}
    lemma_join_avoids(parts, "; "@, '\n');
}

} // verus!
