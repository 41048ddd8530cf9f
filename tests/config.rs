use jump::config::{parse_args, AppMode, BookmarkAction, ParseResult, ShellAction};
use jump::shell::Shell;

fn args(list: &[&str]) -> Vec<String> {
    list.iter().map(|s| s.to_string()).collect()
}

#[test]
fn no_arguments_browse() {
    let (result, shell, bookmark) = parse_args(&args(&[]), None);
    match result {
        ParseResult::Config(c) => {
            assert_eq!(c.mode, AppMode::Browse);
            assert!(!c.show_hidden);
            assert!(!c.fuzzy_mode);
            assert!(c.query.is_none());
        }
        _ => panic!("expected a configuration"),
    }
    assert_eq!(shell, ShellAction::Nothing);
    assert!(matches!(bookmark, BookmarkAction::Nothing));
}

#[test]
fn query_selects_fuzzy_mode() {
    let (result, _, _) = parse_args(&args(&["-a", "work", "other", "--unknown"]), None);
    match result {
        ParseResult::Config(c) => {
            assert_eq!(c.mode, AppMode::Fuzzy);
            assert!(c.fuzzy_mode);
            assert!(c.show_hidden);
            assert_eq!(c.query, Some("work".to_string()));
        }
        _ => panic!("expected a configuration"),
    }
    let (number, _, _) = parse_args(&args(&["-n", "work"]), None);
    match number {
        ParseResult::Config(c) => assert_eq!(c.mode, AppMode::Number),
        _ => panic!("expected a configuration"),
    }
}

#[test]
fn help_and_version_stop_reading() {
    assert!(matches!(parse_args(&args(&["-a", "--help"]), None).0, ParseResult::Help));
    assert!(matches!(parse_args(&args(&["-v", "-h"]), None).0, ParseResult::Version));
}

#[test]
fn bookmark_subcommands() {
    match parse_args(&args(&["-b", "add", "w", "/srv/work"]), None).2 {
        BookmarkAction::Add { key, name, path } => {
            assert_eq!(key, "w");
            assert_eq!(name, Some("/srv/work".to_string()));
            assert_eq!(path, Some("/srv/work".to_string()));
        }
        _ => panic!("expected add"),
    }
    match parse_args(&args(&["--bookmark", "a", "w", "work"]), None).2 {
        BookmarkAction::Add { name, path, .. } => {
            assert_eq!(name, Some("work".to_string()));
            assert_eq!(path, None);
        }
        _ => panic!("expected add"),
    }
    assert!(matches!(parse_args(&args(&["-b", "rm", "w"]), None).2, BookmarkAction::Remove { .. }));
    assert!(matches!(parse_args(&args(&["-b", "ls"]), None).2, BookmarkAction::List));
    assert!(matches!(parse_args(&args(&["-b", "jump", "w"]), None).2, BookmarkAction::Jump { .. }));
    assert!(matches!(parse_args(&args(&["-b"]), None).0, ParseResult::BookmarkHelp));
    assert!(matches!(parse_args(&args(&["-b", "add"]), None).0, ParseResult::MissingBookmarkKey));
    match parse_args(&args(&["-b", "frob"]), None).0 {
        ParseResult::UnknownBookmarkCommand(s) => assert_eq!(s, "frob"),
        _ => panic!("expected an unknown subcommand"),
    }
}

#[test]
fn script_flags_pick_a_shell() {
    let (r, s, _) = parse_args(&args(&["--shell-init", "zsh"]), None);
    assert!(matches!(r, ParseResult::Exit));
    assert_eq!(s, ShellAction::ShellInit(Shell::Zsh));
    assert_eq!(parse_args(&args(&["--shell-init", "auto"]), Some(Shell::Fish)).1, ShellAction::ShellInit(Shell::Fish));
    assert_eq!(parse_args(&args(&["--shell-init"]), None).1, ShellAction::ShellInit(Shell::Bash));
    assert_eq!(parse_args(&args(&["--completions", "fish"]), Some(Shell::Zsh)).1, ShellAction::Completions(Shell::Fish));
    assert_eq!(parse_args(&args(&["--completions", "auto"]), Some(Shell::Zsh)).1, ShellAction::Completions(Shell::Zsh));
}
