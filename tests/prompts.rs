use prettyline::assembly::{left_prompt, left_segments, render_segments, right_prompt, right_segments};
use prettyline::constants::{palette, Palette, Role};
use prettyline::setup::{bash, fish, init_text, zsh, ShellName};
use prettyline::style::{AnsiColor, Color};

const BLACK: Color = Color::Ansi(AnsiColor::Black);

#[test]
fn root_user_with_success_status() {
    let p = left_prompt("root", Some(0), BLACK);
    let user = "\x1b[1m\x1b[30m\x1b[101m root \x1b[0m\x1b[91m\x1b[40m\u{E0B0}\x1b[0m";
    let status = "\x1b[30m\x1b[104m\u{E0B0}\x1b[0m\x1b[30m\x1b[104m E0 \x1b[0m\x1b[94m\u{E0B0}\x1b[0m";
    assert_eq!(p, format!("{user}{status}"));
}

#[test]
fn ordinary_user_with_failure_status() {
    let p = left_prompt("alice", Some(1), Color::Rgb(28, 28, 28));
    let user = "\x1b[1m\x1b[30m\x1b[107m alice \x1b[0m\x1b[97m\x1b[48;2;28;28;28m\u{E0B0}\x1b[0m";
    let status = "\x1b[38;2;28;28;28m\x1b[101m\u{E0B0}\x1b[0m\x1b[30m\x1b[101m E1 \x1b[0m\x1b[91m\u{E0B0}\x1b[0m";
    assert_eq!(p, format!("{user}{status}"));
}

#[test]
fn unknown_status_shows_question_mark_in_failure_colors() {
    let p = left_prompt("bob", None, BLACK);
    assert!(p.ends_with("\x1b[30m\x1b[101m\u{E0B0}\x1b[0m\x1b[30m\x1b[101m E? \x1b[0m\x1b[91m\u{E0B0}\x1b[0m"));
}

#[test]
fn large_status_is_written_in_decimal() {
    assert!(left_prompt("bob", Some(255), BLACK).contains(" E255 "));
    assert!(left_prompt("bob", Some(10), BLACK).contains(" E10 "));
    assert!(left_prompt("bob", Some(7), BLACK).contains(" E7 "));
}

#[test]
fn right_prompt_without_venv_is_the_clock() {
    let p = right_prompt(false, "12:34");
    let clock = " \x1b[38;5;237m\u{E0B6}\x1b[0m\x1b[2m\x1b[37m\x1b[48;5;237m12:34\x1b[0m\x1b[38;5;237m\u{E0B4}\x1b[0m";
    assert_eq!(p, clock);
    assert!(!p.contains('\u{E235}'));
}

#[test]
fn right_prompt_with_venv() {
    let p = right_prompt(true, "09:05");
    let venv = " \x1b[38;5;25m\u{E0B6}\x1b[0m\x1b[1m\x1b[38;5;220m\x1b[48;5;25m\u{E235}\x1b[0m\x1b[38;5;25m\u{E0B4}\x1b[0m";
    let clock = " \x1b[38;5;237m\u{E0B6}\x1b[0m\x1b[2m\x1b[37m\x1b[48;5;237m09:05\x1b[0m\x1b[38;5;237m\u{E0B4}\x1b[0m";
    assert_eq!(p, format!("{venv}{clock}"));
}

#[test]
fn segment_lists() {
    assert_eq!(left_segments("root", Some(0), BLACK).len(), 2);
    assert_eq!(right_segments(false, "t").len(), 1);
    assert_eq!(right_segments(true, "t").len(), 2);
    let segs = right_segments(false, "t");
    assert_eq!(render_segments(&segs, ""), segs[0].render());
}

#[test]
fn palette_table() {
    assert_eq!(palette(Role::UserRoot), Palette { fg: BLACK, bg: Color::Ansi(AnsiColor::BrightRed) });
    assert_eq!(palette(Role::Time), Palette { fg: Color::Ansi(AnsiColor::White), bg: Color::Ansi256(237) });
    assert_eq!(palette(Role::VenvPython), Palette { fg: Color::Ansi256(220), bg: Color::Ansi256(25) });
}

#[test]
fn shell_hooks() {
    assert_eq!(
        bash(),
        "prompt_function ()\n{\n    PS1=\"$(prettyline --shell bash --show-lprompt --exit-status $?)\"\n}\n\n        PROMPT_COMMAND=prompt_function\n"
    );
    assert_eq!(
        zsh(),
        "function precmd() {\n    PROMPT=\"$(prettyline --shell zsh --show-lprompt --exit-status $?)\"\n    RPROMPT=\"$(prettyline --shell zsh --show-rprompt)\"\n}"
    );
    assert_eq!(
        fish(),
        "function fish_prompt\n    command prettyline --shell fish --show-lprompt --exit-status $status\nend\nfunction fish_right_prompt\n    command prettyline --shell fish --show-rprompt\nend"
    );
}

#[test]
fn init_text_per_shell() {
    assert_eq!(init_text(ShellName::Bash), format!("export VIRTUAL_ENV_DISABLE_PROMPT=1\n{}", bash()));
    assert_eq!(init_text(ShellName::Zsh), format!("export VIRTUAL_ENV_DISABLE_PROMPT=1\n{}", zsh()));
    assert_eq!(init_text(ShellName::Fish), format!("set --export VIRTUAL_ENV_DISABLE_PROMPT 1\n{}", fish()));
}
