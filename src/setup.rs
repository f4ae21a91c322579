//! Program configuration: the supported shells, the options a run is given,
//! and the shell code that hooks the prompt into each shell.

use vstd::prelude::*;
use vstd::string::*;
use crate::misc::{ansi_escape_wrapper, wrapped};

verus! {

/// Supported shells.
#[derive(Debug, Clone, Copy, PartialEq, Eq, Structural)]
pub enum ShellName {
    Bash,
    Zsh,
    Fish,
}

/// The options a run is started with.
///
/// A shell calls the program with `--init --shell SHELL` once, to get the
/// code that hooks it in, and then with `--show-lprompt` or `--show-rprompt`
/// (and the last exit status) each time it draws a prompt.
#[derive(Debug, Clone, Copy, PartialEq, Eq, Structural)]
pub struct Args {
    /// Print the shell's setup code.
    pub init: bool,
    /// The shell that the output is for.
    pub shell: ShellName,
    /// Print the left prompt.
    pub show_lprompt: bool,
    /// Print the right prompt.
    pub show_rprompt: bool,
    /// The exit status of the last command, when the shell gives it.
    pub exit_status: Option<u8>,
}

/// The Bash code that sets the prompt before each command line.
pub const BASH_HOOK: &'static str = "\
    prompt_function ()\n\
    {\n    \
        PS1=\"$(prettyline --shell bash --show-lprompt --exit-status $?)\"\n\
    }\n
        PROMPT_COMMAND=prompt_function\n\
    ";

/// The Zsh code that sets both prompts before each command line.
pub const ZSH_HOOK: &'static str = "\
    function precmd() {\n    \
        PROMPT=\"$(prettyline --shell zsh --show-lprompt --exit-status $?)\"\n    \
        RPROMPT=\"$(prettyline --shell zsh --show-rprompt)\"\n\
    }\
    ";

/// The Fish functions that print both prompts.
pub const FISH_HOOK: &'static str = "\
    function fish_prompt\n    \
        command prettyline --shell fish --show-lprompt --exit-status $status\n\
    end\n\
    function fish_right_prompt\n    \
        command prettyline --shell fish --show-rprompt\n\
    end\
    ";

/// The Bash and Zsh line that keeps a virtual environment from changing
/// the prompt itself.
pub const POSIX_VENV_OFF: &'static str = "export VIRTUAL_ENV_DISABLE_PROMPT=1";

/// The Fish line that keeps a virtual environment from changing the prompt
/// itself.
pub const FISH_VENV_OFF: &'static str = "set --export VIRTUAL_ENV_DISABLE_PROMPT 1";

/// The Bash setup code.
pub fn bash() -> (r: String)
    ensures
        r@ == BASH_HOOK@,
{
    String::from_str(BASH_HOOK)
}

/// The Zsh setup code.
pub fn zsh() -> (r: String)
    ensures
        r@ == ZSH_HOOK@,
{
    String::from_str(ZSH_HOOK)
}

/// The Fish setup code.
pub fn fish() -> (r: String)
    ensures
        r@ == FISH_HOOK@,
{
    String::from_str(FISH_HOOK)
}

/// The hook code of `shell`.
pub open spec fn hook_of(shell: ShellName) -> Seq<char> {
    match shell {
        ShellName::Bash => BASH_HOOK@,
        ShellName::Zsh => ZSH_HOOK@,
        ShellName::Fish => FISH_HOOK@,
    }
}

/// The line of `shell` that turns off a virtual environment's own prompt.
pub open spec fn venv_off_of(shell: ShellName) -> Seq<char> {
    match shell {
        ShellName::Fish => FISH_VENV_OFF@,
        _ => POSIX_VENV_OFF@,
    }
}

/// Everything the shell evaluates once to take the prompt into use: the line
/// that turns off a virtual environment's own prompt, then the hook code.
pub fn init_text(shell: ShellName) -> (r: String)
    ensures
        r@ == venv_off_of(shell) + seq!['\n'] + hook_of(shell),
{
    let mut out = match shell {
        ShellName::Fish => String::from_str(FISH_VENV_OFF),
        _ => String::from_str(POSIX_VENV_OFF),
    };
    out.push('\n');
    let hook = match shell {
        ShellName::Bash => bash(),
        ShellName::Zsh => zsh(),
        ShellName::Fish => fish(),
    };
    out.append(hook.as_str());
    out
}

/// The zero-width markers that `shell` wants around styling codes, if it
/// wants any: Fish measures its prompt by itself.
pub open spec fn markers_of(shell: ShellName) -> Option<(Seq<char>, Seq<char>)> {
    match shell {
        ShellName::Bash => Some(("\\["@, "\\]"@)),
        ShellName::Zsh => Some(("%{"@, "%}"@)),
        ShellName::Fish => None,
    }
}

/// `prompt` as `shell` should receive it.
pub open spec fn for_shell_of(shell: ShellName, prompt: Seq<char>) -> Seq<char> {
    match markers_of(shell) {
        Some((start, end)) => wrapped(prompt, start, end),
        None => prompt,
    }
}

/// Brackets the styling codes of `prompt` with the markers of `shell`, so
/// that its line editor counts only the visible characters.
pub fn for_shell(shell: ShellName, prompt: &str) -> (r: String)
    ensures
        r@ == for_shell_of(shell, prompt@),
{
    match shell {
        ShellName::Bash => ansi_escape_wrapper(prompt, "\\[", "\\]"),
        ShellName::Zsh => ansi_escape_wrapper(prompt, "%{", "%}"),
        ShellName::Fish => String::from_str(prompt),
    }
}

} // verus!
