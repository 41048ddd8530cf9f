use vstd::prelude::*;

use crate::shell::Shell;

verus! {

/// Which selection engine a run starts in.
#[derive(Debug, Clone, Copy, PartialEq, Eq, Structural)]
pub enum AppMode {
    Browse,
    Fuzzy,
    Number,
    Bookmark,
}

/// How an interactive run is set up.
#[derive(Debug, Clone)]
pub struct Config {
    pub show_hidden: bool,
    pub fuzzy_mode: bool,
    pub query: Option<String>,
    pub mode: AppMode,
}

/// What the command line asks of the program as a whole.
#[derive(Debug, Clone)]
pub enum ParseResult {
    /// Run interactively with this configuration.
    Config(Config),
    /// Nothing to run (a script was asked for).
    Exit,
    /// Print the usage text.
    Help,
    /// Print the bookmark usage text.
    BookmarkHelp,
    /// Print the version.
    Version,
    /// A bookmark subcommand that does not exist.
    UnknownBookmarkCommand(String),
    /// A bookmark subcommand given without its key.
    MissingBookmarkKey,
}

/// A shell script that the command line asks for.
#[derive(Debug, Clone, Copy, PartialEq, Eq, Structural)]
pub enum ShellAction {
    Nothing,
    ShellInit(Shell),
    Completions(Shell),
}

/// A bookmark operation that the command line asks for.
#[derive(Debug, Clone)]
pub enum BookmarkAction {
    Add { key: String, name: Option<String>, path: Option<String> },
    Remove { key: String },
    List,
    Jump { key: String },
    Nothing,
}

/// The flags seen so far while reading the arguments.
#[derive(Debug, Clone)]
pub struct ArgState {
    pub show_hidden: bool,
    pub fuzzy_mode: bool,
    pub mode: AppMode,
    pub query: Option<String>,
    pub bookmark: BookmarkAction,
}

/// The shell that a name stands for (`auto` for the detected one).
pub open spec fn shell_for(name: Seq<char>, allow_auto: bool, detected: Option<Shell>) -> Option<Shell> {
    if name == "bash"@ {
        Some(Shell::Bash)
    } else if name == "zsh"@ {
        Some(Shell::Zsh)
    } else if name == "fish"@ {
        Some(Shell::Fish)
    } else if allow_auto && name == "auto"@ {
        detected
    } else {
        None
    }
}

/// The first argument from index `i` on that is not `flag`.
pub open spec fn first_other(args: Seq<String>, i: int, flag: Seq<char>) -> Option<Seq<char>>
    decreases args.len() - i,
{
    if i < 0 || i >= args.len() {
        None
    } else if args[i]@ != flag {
        Some(args[i]@)
    } else {
        first_other(args, i + 1, flag)
    }
}

/// The shell a script flag asks for: the first other argument names it,
/// else the detected shell, else bash.
pub open spec fn script_shell(args: Seq<String>, flag: Seq<char>, allow_auto: bool, detected: Option<Shell>) -> Shell {
    let named = match first_other(args, 0, flag) {
        Some(a) => shell_for(a, allow_auto, detected),
        None => None,
    };
    match named {
        Some(s) => s,
        None => match detected {
            Some(d) => d,
            None => Shell::Bash,
        },
    }
}

/// A path argument: one that starts with `/` or `~`.
pub open spec fn looks_like_path(s: Seq<char>) -> bool {
    s.len() > 0 && (s[0] == '/' || s[0] == '~')
}

/// The argument at `i`, if there is one.
pub open spec fn arg_at(args: Seq<String>, i: int) -> Option<String> {
    if 0 <= i < args.len() { Some(args[i]) } else { None }
}

/// The configuration that the flags seen give: a query without a mode flag
/// selects fuzzy mode.
pub open spec fn finish(st: ArgState) -> Config {
    if st.query.is_some() && st.mode == AppMode::Browse {
        Config { show_hidden: st.show_hidden, fuzzy_mode: true, query: st.query, mode: AppMode::Fuzzy }
    } else {
        Config { show_hidden: st.show_hidden, fuzzy_mode: st.fuzzy_mode, query: st.query, mode: st.mode }
    }
}

/// What reading the arguments from index `i` on gives, with the flags in `st`
/// seen before it.
pub open spec fn parse_from(args: Seq<String>, i: int, st: ArgState, detected: Option<Shell>) -> (
    ParseResult,
    ShellAction,
    BookmarkAction,
)
    decreases args.len() - i,
{
    if i < 0 || i >= args.len() {
        (ParseResult::Config(finish(st)), ShellAction::Nothing, st.bookmark)
    } else {
        let a = args[i]@;
        if a == "-h"@ || a == "--help"@ {
            (ParseResult::Help, ShellAction::Nothing, BookmarkAction::Nothing)
        } else if a == "-v"@ || a == "--version"@ {
            (ParseResult::Version, ShellAction::Nothing, BookmarkAction::Nothing)
        } else if a == "-a"@ || a == "--all"@ {
            parse_from(args, i + 1, ArgState { show_hidden: true, ..st }, detected)
        } else if a == "-f"@ || a == "--fuzzy"@ {
            parse_from(args, i + 1, ArgState { fuzzy_mode: true, mode: AppMode::Fuzzy, ..st }, detected)
        } else if a == "-n"@ || a == "--number"@ {
            parse_from(args, i + 1, ArgState { mode: AppMode::Number, ..st }, detected)
        } else if a == "-b"@ || a == "--bookmark"@ {
            let sub = if i + 1 < args.len() { args[i + 1]@ } else { Seq::empty() };
            let next = if i + 1 < args.len() { i + 2 } else { i + 1 };
            if sub == "add"@ || sub == "a"@ {
                match arg_at(args, next) {
                    Some(key) => {
                        let name = arg_at(args, next + 1);
                        let path = match name {
                            Some(n) => if looks_like_path(n@) { Some(n) } else { None },
                            None => None,
                        };
                        let after = if next + 1 < args.len() { next + 2 } else { next + 1 };
                        parse_from(args, after, ArgState { bookmark: BookmarkAction::Add { key, name, path }, ..st }, detected)
                    },
                    None => (ParseResult::MissingBookmarkKey, ShellAction::Nothing, BookmarkAction::Nothing),
                }
            } else if sub == "remove"@ || sub == "rm"@ || sub == "del"@ {
                match arg_at(args, next) {
                    Some(key) => parse_from(args, next + 1, ArgState { bookmark: BookmarkAction::Remove { key }, ..st }, detected),
                    None => (ParseResult::MissingBookmarkKey, ShellAction::Nothing, BookmarkAction::Nothing),
                }
            } else if sub == "list"@ || sub == "ls"@ {
                parse_from(args, next, ArgState { bookmark: BookmarkAction::List, ..st }, detected)
            } else if sub == "jump"@ || sub == "j"@ {
                match arg_at(args, next) {
                    Some(key) => parse_from(args, next + 1, ArgState { bookmark: BookmarkAction::Jump { key }, ..st }, detected),
                    None => (ParseResult::MissingBookmarkKey, ShellAction::Nothing, BookmarkAction::Nothing),
                }
            } else if sub.len() == 0 || sub == "help"@ || sub == "h"@ {
                (ParseResult::BookmarkHelp, ShellAction::Nothing, BookmarkAction::Nothing)
            } else {
                (ParseResult::UnknownBookmarkCommand(args[i + 1]), ShellAction::Nothing, BookmarkAction::Nothing)
            }
        } else if a == "--shell-init"@ {
            (ParseResult::Exit, ShellAction::ShellInit(script_shell(args, a, true, detected)), BookmarkAction::Nothing)
        } else if a == "--completions"@ {
            (ParseResult::Exit, ShellAction::Completions(script_shell(args, a, false, detected)), BookmarkAction::Nothing)
        } else if a.len() > 0 && a[0] == '-' {
            parse_from(args, i + 1, st, detected)
        } else if st.query.is_none() {
            parse_from(args, i + 1, ArgState { query: Some(args[i]), ..st }, detected)
        } else {
            parse_from(args, i + 1, st, detected)
        }
    }
}

/// The state before any argument is read.
pub open spec fn initial_state() -> ArgState {
    ArgState { show_hidden: false, fuzzy_mode: false, mode: AppMode::Browse, query: None, bookmark: BookmarkAction::Nothing }
}

/// Whether `s` is exactly `lit`.
fn is(s: &String, lit: &str) -> (r: bool)
    ensures
        r == (s@ == lit@),
{
    *s == String::from_str(lit)
}

/// The shell that `name` stands for.
fn shell_named(name: &String, allow_auto: bool, detected: Option<Shell>) -> (r: Option<Shell>)
    ensures
        r == shell_for(name@, allow_auto, detected),
{
    if is(name, "bash") {
        Some(Shell::Bash)
    } else if is(name, "zsh") {
        Some(Shell::Zsh)
    } else if is(name, "fish") {
        Some(Shell::Fish)
    } else if allow_auto && is(name, "auto") {
        detected
    } else {
        None
    }
}

/// The shell that a script flag asks for.
fn pick_shell(args: &Vec<String>, flag: &String, allow_auto: bool, detected: Option<Shell>) -> (r: Shell)
    ensures
        r == script_shell(args@, flag@, allow_auto, detected),
{
    let mut i: usize = 0;
    while i < args.len() && args[i] == *flag
        invariant
            i <= args@.len(),
            first_other(args@, 0, flag@) == first_other(args@, i as int, flag@),
        decreases args@.len() - i,
    {
        i = i + 1;
    }
    let found: Option<usize> = if i < args.len() { Some(i) } else { None };
    let named = match found {
        Some(k) => shell_named(&args[k], allow_auto, detected),
        None => None,
    };
    match named {
        Some(s) => s,
        None => match detected {
            Some(d) => d,
            None => Shell::Bash,
        },
    }
}

/// Whether `s` starts with `c`.
fn starts_with_char(s: &String, c: char) -> (r: bool)
    ensures
        r == (s@.len() > 0 && s@[0] == c),
{
    s.as_str().unicode_len() > 0 && s.as_str().get_char(0) == c
}

/// Reads the command line (without the program name): flags, at most one
/// query, a bookmark subcommand, or a request for a shell script.
/// `detected` is the user's shell, for script flags that name none.
pub fn parse_args(args: &Vec<String>, detected: Option<Shell>) -> (r: (ParseResult, ShellAction, BookmarkAction))
    ensures
        r == parse_from(args@, 0, initial_state(), detected),
{
    let mut st = ArgState {
        show_hidden: false,
        fuzzy_mode: false,
        mode: AppMode::Browse,
        query: None,
        bookmark: BookmarkAction::Nothing,
    };
    let mut i: usize = 0;
    while i < args.len()
        invariant
            i <= args@.len(),
            parse_from(args@, i as int, st, detected) == parse_from(args@, 0, initial_state(), detected),
        decreases args@.len() - i,
    {
        let a = &args[i];
        if is(a, "-h") || is(a, "--help") {
            return (ParseResult::Help, ShellAction::Nothing, BookmarkAction::Nothing);
        } else if is(a, "-v") || is(a, "--version") {
            return (ParseResult::Version, ShellAction::Nothing, BookmarkAction::Nothing);
        } else if is(a, "-a") || is(a, "--all") {
            st.show_hidden = true;
            i = i + 1;
        } else if is(a, "-f") || is(a, "--fuzzy") {
            st.fuzzy_mode = true;
            st.mode = AppMode::Fuzzy;
            i = i + 1;
        } else if is(a, "-n") || is(a, "--number") {
            st.mode = AppMode::Number;
            i = i + 1;
        } else if is(a, "-b") || is(a, "--bookmark") {
            let empty = String::new();
            let sub: &String = if i + 1 < args.len() { &args[i + 1] } else { &empty };
            let next: usize = if i + 1 < args.len() { i + 2 } else { i + 1 };
            if is(sub, "add") || is(sub, "a") {
                if next < args.len() {
                    let key = args[next].clone();
                    let name: Option<String> = if next + 1 < args.len() { Some(args[next + 1].clone()) } else { None };
                    let path: Option<String> = match &name {
                        Some(n) => if starts_with_char(n, '/') || starts_with_char(n, '~') { Some(n.clone()) } else { None },
                        None => None,
                    };
                    st.bookmark = BookmarkAction::Add { key, name, path };
                    i = if next + 1 < args.len() { next + 2 } else { next + 1 };
                } else {
                    return (ParseResult::MissingBookmarkKey, ShellAction::Nothing, BookmarkAction::Nothing);
                }
            } else if is(sub, "remove") || is(sub, "rm") || is(sub, "del") {
                if next < args.len() {
                    st.bookmark = BookmarkAction::Remove { key: args[next].clone() };
                    i = next + 1;
                } else {
                    return (ParseResult::MissingBookmarkKey, ShellAction::Nothing, BookmarkAction::Nothing);
                }
            } else if is(sub, "list") || is(sub, "ls") {
                st.bookmark = BookmarkAction::List;
                i = next;
            } else if is(sub, "jump") || is(sub, "j") {
                if next < args.len() {
                    st.bookmark = BookmarkAction::Jump { key: args[next].clone() };
                    i = next + 1;
                } else {
                    return (ParseResult::MissingBookmarkKey, ShellAction::Nothing, BookmarkAction::Nothing);
                }
            } else if sub.as_str().unicode_len() == 0 || is(sub, "help") || is(sub, "h") {
                return (ParseResult::BookmarkHelp, ShellAction::Nothing, BookmarkAction::Nothing);
            } else {
                return (ParseResult::UnknownBookmarkCommand(sub.clone()), ShellAction::Nothing, BookmarkAction::Nothing);
            }
        } else if is(a, "--shell-init") {
            let shell = pick_shell(args, a, true, detected);
            return (ParseResult::Exit, ShellAction::ShellInit(shell), BookmarkAction::Nothing);
        } else if is(a, "--completions") {
            let shell = pick_shell(args, a, false, detected);
            return (ParseResult::Exit, ShellAction::Completions(shell), BookmarkAction::Nothing);
        } else if starts_with_char(a, '-') {
            i = i + 1;
        } else if st.query.is_none() {
            st.query = Some(a.clone());
            i = i + 1;
        } else {
            i = i + 1;
        }
    }
    let config = if st.query.is_some() && st.mode == AppMode::Browse {
        Config { show_hidden: st.show_hidden, fuzzy_mode: true, query: st.query, mode: AppMode::Fuzzy }
    } else {
        Config { show_hidden: st.show_hidden, fuzzy_mode: st.fuzzy_mode, query: st.query, mode: st.mode }
    };
    (ParseResult::Config(config), ShellAction::Nothing, st.bookmark)
}

} // verus!
