use yaorust::command::{pretty_cmd, shell_escape, with_sudo, ProcessSpec};
use yaorust::prompt::{editor_from_answer, editor_from_settings, parse_answer, Answer};
use yaorust::text::{file_name_of, join, non_blank_lines_of, trim_str};

#[test]
fn trim_removes_unicode_whitespace() {
    assert_eq!(trim_str("  hello \t\n"), "hello");
    assert_eq!(trim_str("\u{3000}x y\u{a0}"), "x y");
    assert_eq!(trim_str(" \r\n "), "");
    assert_eq!(trim_str(""), "");
}

#[test]
fn lines_are_trimmed_and_blank_ones_dropped() {
    let out = non_blank_lines_of("/d/a-1-x86_64.pkg.tar.zst\n\n  /d/b-1-any.pkg.tar.zst \r\n   \n");
    assert_eq!(out, vec!["/d/a-1-x86_64.pkg.tar.zst".to_string(), "/d/b-1-any.pkg.tar.zst".to_string()]);
    assert!(non_blank_lines_of("").is_empty());
    assert!(non_blank_lines_of("\n \n\t\n").is_empty());
    assert_eq!(non_blank_lines_of("last-without-newline"), vec!["last-without-newline".to_string()]);
}

#[test]
fn affirmative_answers() {
    for s in ["", "\n", "y", "Y\n", "yes", "YES", " YeS \n"] {
        assert_eq!(parse_answer(s), Answer::Yes, "{:?}", s);
    }
}

#[test]
fn negative_answers() {
    for s in ["n", "N\n", "no", "No", " nO "] {
        assert_eq!(parse_answer(s), Answer::No, "{:?}", s);
    }
}

#[test]
fn other_answers_ask_again() {
    for s in ["x", "ye", "yess", "nope", "y y", "0", "oui"] {
        assert_eq!(parse_answer(s), Answer::Unclear, "{:?}", s);
    }
}

#[test]
fn editor_settings_take_first_non_blank() {
    let s = vec![None, Some("  ".to_string()), Some("vim".to_string()), Some("emacs".to_string())];
    assert_eq!(editor_from_settings(&s), Some("vim".to_string()));
    let s = vec![Some(" code -w ".to_string()), Some("vim".to_string())];
    assert_eq!(editor_from_settings(&s), Some(" code -w ".to_string()));
    let s = vec![None, Some("\t".to_string()), None];
    assert_eq!(editor_from_settings(&s), None);
    assert_eq!(editor_from_settings(&Vec::new()), None);
}

#[test]
fn editor_answer_defaults_to_nano() {
    assert_eq!(editor_from_answer("\n"), "nano");
    assert_eq!(editor_from_answer(""), "nano");
    assert_eq!(editor_from_answer("  vim \n"), "vim");
}

#[test]
fn shell_escape_quotes_only_when_needed() {
    assert_eq!(shell_escape("abc-1.2_x/y=z:w"), "abc-1.2_x/y=z:w");
    assert_eq!(shell_escape(""), "");
    assert_eq!(shell_escape("a b"), "'a b'");
    assert_eq!(shell_escape("it's"), "'it'\\''s'");
    assert_eq!(shell_escape("$HOME"), "'$HOME'");
}

fn spec(program: &str, args: &[&str]) -> ProcessSpec {
    ProcessSpec {
        program: program.to_string(),
        args: args.iter().map(|a| a.to_string()).collect(),
        dir: None,
        env: Vec::new(),
    }
}

#[test]
fn pretty_cmd_renders_words() {
    assert_eq!(pretty_cmd(&spec("pacman", &["-S", "foo bar", "baz"])), "pacman -S 'foo bar' baz");
    assert_eq!(pretty_cmd(&spec("true", &[])), "true ");
}

#[test]
fn sudo_wraps_program_and_args_unchanged() {
    let mut cmd = spec("pacman", &["-U", "/a b.pkg", "x;rm -rf /"]);
    cmd.dir = Some("/tmp".to_string());
    cmd.env = vec![("K".to_string(), "V".to_string())];
    let w = with_sudo("doas", &cmd);
    assert_eq!(w.program, "doas");
    assert_eq!(w.args, vec!["pacman", "-U", "/a b.pkg", "x;rm -rf /"]);
    assert_eq!(w.dir, Some("/tmp".to_string()));
    assert_eq!(w.env, vec![("K".to_string(), "V".to_string())]);
}

#[test]
fn join_and_file_name() {
    assert_eq!(join("/var/cache", "x.tar.gz"), "/var/cache/x.tar.gz");
    assert_eq!(join("/var/cache/", "x.tar.gz"), "/var/cache/x.tar.gz");
    assert_eq!(join("", "x"), "x");
    assert_eq!(join("/a", "/abs"), "/abs");
    assert_eq!(file_name_of("/var/cache/makepkg/foo-1-1-x86_64.pkg.tar.zst"), "foo-1-1-x86_64.pkg.tar.zst");
    assert_eq!(file_name_of("plain"), "plain");
    assert_eq!(file_name_of("/dir/"), "");
}
