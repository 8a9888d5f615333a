//! The script that runs one test command inside an activated environment.
use vstd::prelude::*;
use crate::text::str_eq;

verus! {

/// The shells that test scripts run under.
#[derive(Clone, Copy, Debug, PartialEq, Eq, Structural)]
pub enum ShellKind {
    /// A POSIX shell, run as `bash`.
    Bash,
    /// The Windows command interpreter, run as `cmd.exe`.
    CmdExe,
}

pub open spec fn quote() -> char {
    '"'
}

/// The line that sets the variable `key` to `value` in `shell`.
pub open spec fn env_line(shell: ShellKind, key: Seq<char>, value: Seq<char>) -> Seq<char> {
    match shell {
        ShellKind::Bash => seq!['e', 'x', 'p', 'o', 'r', 't', ' '] + key + seq!['=', quote()] + value
            + seq![quote(), '\n'],
        ShellKind::CmdExe => seq!['@', 'S', 'E', 'T', ' ', quote()] + key + seq!['='] + value + seq![
            quote(),
            '\n',
        ],
    }
}

/// Relies on `ShellScript::set_env_var` of rattler_shell, which writes
/// `export K="V"` for bash and `@SET "K=V"` for cmd.exe, each as one line.
#[verifier::external_body]
fn set_env_var_line(shell: ShellKind, key: &str, value: &str) -> (r: String)
    ensures
        r@ == env_line(shell, key@, value@),
{
    let shell: rattler_shell::shell::ShellEnum = match shell {
        ShellKind::Bash => rattler_shell::shell::Bash.into(),
        ShellKind::CmdExe => rattler_shell::shell::CmdExe.into(),
    };
    let platform = rattler_conda_types::Platform::current();
    let mut script = rattler_shell::shell::ShellScript::new(shell, platform);
    script.set_env_var(key, value);
    script.contents
}

pub open spec fn path_name() -> Seq<char> {
    seq!['P', 'A', 'T', 'H']
}

pub open spec fn prefix_name() -> Seq<char> {
    seq!['P', 'R', 'E', 'F', 'I', 'X']
}

/// The assignments of `vars` in order, leaving out `PATH`, which the
/// environment's own activation composes.
pub open spec fn env_lines(shell: ShellKind, vars: Seq<(Seq<char>, Seq<char>)>) -> Seq<char>
    decreases vars.len(),
{
    if vars.len() == 0 {
        Seq::empty()
    } else {
        let before = env_lines(shell, vars.drop_last());
        let (k, v) = vars.last();
        if k == path_name() {
            before
        } else {
            before + env_line(shell, k, v)
        }
    }
}

/// The environment variables of a list of pairs, as character sequences.
pub open spec fn vars_view(vars: Seq<(String, String)>) -> Seq<(Seq<char>, Seq<char>)> {
    vars.map_values(|p: (String, String)| (p.0@, p.1@))
}

/// The whole script: the variables (without `PATH`), `PREFIX`, the
/// environment's activation script, then the command, each block ending a line.
pub open spec fn script_text(
    shell: ShellKind,
    vars: Seq<(Seq<char>, Seq<char>)>,
    prefix: Seq<char>,
    activation: Seq<char>,
    command: Seq<char>,
) -> Seq<char> {
    env_lines(shell, vars) + env_line(shell, prefix_name(), prefix) + seq!['\n'] + activation
        + seq!['\n'] + command + seq!['\n']
}

/// Builds the script that reproduces the test environment's activation and
/// then runs `command`.
pub fn activation_script(
    shell: ShellKind,
    os_vars: &Vec<(String, String)>,
    prefix: &str,
    activation: &str,
    command: &str,
) -> (r: String)
    ensures
        r@ == script_text(shell, vars_view(os_vars@), prefix@, activation@, command@),
{
    let ghost vars = vars_view(os_vars@);
    let mut out = String::new();
    let mut i: usize = 0;
    proof {
        reveal_strlit("PATH");
        reveal_strlit("PREFIX");
        reveal_strlit("\n");
        assert("PATH"@ =~= path_name());
        assert("PREFIX"@ =~= prefix_name());
        assert("\n"@ =~= seq!['\n']);
        assert(vars.subrange(0, 0) =~= Seq::<(Seq<char>, Seq<char>)>::empty());
    }
    while i < os_vars.len()
        invariant
            i <= os_vars@.len(),
            vars == vars_view(os_vars@),
            "PATH"@ == path_name(),
            out@ == env_lines(shell, vars.subrange(0, i as int)),
        decreases os_vars@.len() - i,
    {
        let key = os_vars[i].0.as_str();
        let value = os_vars[i].1.as_str();
        assert(vars.subrange(0, i + 1).drop_last() =~= vars.subrange(0, i as int));
        assert(vars.subrange(0, i + 1).last() == (key@, value@));
        if !str_eq(key, "PATH") {
            let line = set_env_var_line(shell, key, value);
            out.append(line.as_str());
        }
        i = i + 1;
    }
    assert(vars.subrange(0, i as int) =~= vars);
    let prefix_line = set_env_var_line(shell, "PREFIX", prefix);
    out.append(prefix_line.as_str());
    out.append("\n");
    out.append(activation);
    out.append("\n");
    out.append(command);
    out.append("\n");
    out
}

} // verus!
