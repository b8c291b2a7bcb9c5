use vstd::prelude::*;

use crate::text::rsplit_once;
use crate::text::rsplit_once_seq;
use crate::text::str_eq;
use crate::text::string_views;

verus! {

// ---------------------------------------------------------------------------
// Conservative shell parsing: without a Bash grammar in the browser, every
// syntax-dependent parse reports "not parsed", so an unparsed command is never
// approved on the strength of its syntax.
// ---------------------------------------------------------------------------

/// A parsed script; the browser runtime never produces one.
pub struct Tree;

pub fn try_parse_shell(shell_lc_arg: &str) -> (r: Option<Tree>)
    ensures
        r is None,
{
    None
}

pub fn try_parse_word_only_commands_sequence(tree: &Tree, src: &str) -> (r: Option<Vec<Vec<String>>>)
    ensures
        r is None,
{
    None
}

pub fn parse_shell_script_into_commands(script: &str) -> (r: Option<Vec<Vec<String>>>)
    ensures
        r is None,
{
    None
}

pub fn parse_shell_lc_plain_commands(command: &[String]) -> (r: Option<Vec<Vec<String>>>)
    ensures
        r is None,
{
    None
}

pub fn parse_shell_lc_literal_commands(command: &[String]) -> (r: Option<Vec<Vec<String>>>)
    ensures
        r is None,
{
    None
}

pub fn parse_shell_lc_single_command_prefix(command: &[String]) -> (r: Option<Vec<String>>)
    ensures
        r is None,
{
    None
}

/// The last `/`-separated segment of a path: the executable's name.
pub open spec fn executable_name(shell: Seq<char>) -> Seq<char> {
    match rsplit_once_seq(shell, '/') {
        Some((_, name)) => name,
        None => shell,
    }
}

pub open spec fn is_login_flag(flag: Seq<char>) -> bool {
    flag == "-lc"@ || flag == "-c"@
}

pub open spec fn is_known_shell(name: Seq<char>) -> bool {
    name == "bash"@ || name == "sh"@ || name == "zsh"@
}

/// A command of exactly three words `[shell, flag, script]` whose flag is
/// `-lc` or `-c` and whose shell is bash, sh or zsh (by the last path
/// segment) gives the shell and the script.
pub open spec fn extract_bash_command_spec(command: Seq<Seq<char>>) -> Option<(Seq<char>, Seq<char>)> {
    if command.len() == 3 && is_login_flag(command[1]) && is_known_shell(
        executable_name(command[0]),
    ) {
        Some((command[0], command[2]))
    } else {
        None
    }
}

fn executable_of(shell: &str) -> (r: &str)
    ensures
        r@ == executable_name(shell@),
{
    match rsplit_once(shell, '/') {
        Some((_, name)) => name,
        None => shell,
    }
}

/// Recognises `bash -lc <script>` and its relatives (see
/// `extract_bash_command_spec`).
pub fn extract_bash_command(command: &[String]) -> (r: Option<(&str, &str)>)
    ensures
        match r {
            Some((shell, script)) => extract_bash_command_spec(string_views(command@)) == Some(
                (shell@, script@),
            ),
            None => extract_bash_command_spec(string_views(command@)) is None,
        },
{
    if command.len() != 3 {
        return None;
    }
    let shell = command[0].as_str();
    let flag = command[1].as_str();
    let script = command[2].as_str();
    proof {
        reveal_strlit("-lc");
        reveal_strlit("-c");
        reveal_strlit("bash");
        reveal_strlit("sh");
        reveal_strlit("zsh");
        assert(string_views(command@)[0] == shell@);
        assert(string_views(command@)[1] == flag@);
        assert(string_views(command@)[2] == script@);
    }
    let executable = executable_of(shell);
    let flag_ok = str_eq(flag, "-lc") || str_eq(flag, "-c");
    let shell_ok = str_eq(executable, "bash") || str_eq(executable, "sh") || str_eq(
        executable,
        "zsh",
    );
    if !flag_ok || !shell_ok {
        return None;
    }
    Some((shell, script))
}

} // verus!
