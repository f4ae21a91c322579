use prettyline::misc::ansi_escape_wrapper;
use prettyline::setup::{for_shell, ShellName};

#[test]
fn text_without_codes_is_unchanged() {
    for text in ["", "plain", "A[1mB", "m\x1b", "\x1b", "a\x1b[", "\x1b[12\nm", "x \u{E0B0} y"] {
        assert_eq!(ansi_escape_wrapper(text, "<", ">"), text);
    }
}

#[test]
fn codes_are_bracketed() {
    assert_eq!(ansi_escape_wrapper("A\x1b[1mB\x1b[0mC", "<", ">"), "A<\x1b[1m>B<\x1b[0m>C");
}

#[test]
fn single_code_alone() {
    assert_eq!(ansi_escape_wrapper("\x1b[0m", "%{", "%}"), "%{\x1b[0m%}");
}

#[test]
fn code_ends_at_first_m() {
    assert_eq!(ansi_escape_wrapper("\x1b[38;5;2mmm", "(", ")"), "(\x1b[38;5;2m)mm");
}

#[test]
fn line_break_stops_a_code() {
    assert_eq!(ansi_escape_wrapper("\x1b[1\nm\x1b[2m", "(", ")"), "\x1b[1\nm(\x1b[2m)");
}

#[test]
fn escape_inside_a_code_belongs_to_it() {
    assert_eq!(ansi_escape_wrapper("\x1b[\x1b[1m", "(", ")"), "(\x1b[\x1b[1m)");
}

#[test]
fn wrapper_agrees_with_a_lazy_regex() {
    let re = regex::Regex::new(r"\x1b\[.*?m").unwrap();
    let inputs = [
        "A\x1b[1mB\x1b[0mC",
        "\x1b[1m\x1b[30m\x1b[101m root \x1b[0m",
        "\x1b[\nm\x1b[m",
        "\x1b[[m]m",
        "é\x1b[2mü\x1b[48;2;1;2;3mñ",
        "\x1b\x1b[1m",
        "no codes",
    ];
    for text in inputs {
        let expected = re.replace_all(text, |c: &regex::Captures| format!("<{}>", &c[0])).to_string();
        assert_eq!(ansi_escape_wrapper(text, "<", ">"), expected, "{text:?}");
    }
}

#[test]
fn shell_markers() {
    let p = "a\x1b[1mb";
    assert_eq!(for_shell(ShellName::Bash, p), "a\\[\x1b[1m\\]b");
    assert_eq!(for_shell(ShellName::Zsh, p), "a%{\x1b[1m%}b");
    assert_eq!(for_shell(ShellName::Fish, p), p);
}
