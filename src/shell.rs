use vstd::prelude::*;

verus! {

/// A shell that the integration scripts are written for.
#[derive(Debug, Clone, Copy, PartialEq, Eq, Structural)]
pub enum Shell {
    Bash,
    Zsh,
    Fish,
}

/// The bash integration: a `jump` function that changes to the chosen directory, a `j` alias and a Ctrl+F binding.
pub const BASH_INIT: &'static str = r#"# jump shell integration
# Add this to ~/.bashrc

# Autojump-style function
jump() {
    local target
    target="$(command jump "$@")"
    if [[ -n "$target" && -d "$target" ]]; then
        cd "$target" || return 1
    fi
}

# Short alias
j() { jump "$@"; }

# Fuzzy find mode (Ctrl+F)
_bind_jump_fzf() {
    local target
    target="$(command jump --fuzzy)"
    if [[ -n "$target" && -d "$target" ]]; then
        cd "$target" || return 1
    fi
}
bind -x '"\C-f": _bind_jump_fzf'
"#;

/// The zsh integration: a `jump` function, a `j` alias and a Ctrl+F widget.
pub const ZSH_INIT: &'static str = r#"# jump shell integration
# Add this to ~/.zshrc

# Autojump-style function
jump() {
    local target
    target="$(command jump "$@")"
    if [[ -n "$target" && -d "$target" ]]; then
        cd "$target" || return 1
    fi
}

# Short alias
j() { jump "$@"; }

# Fuzzy find mode (Ctrl+F)
_bind_jump_fzf() {
    local target
    target="$(command jump --fuzzy)"
    if [[ -n "$target" && -d "$target" ]]; then
        cd "$target" || return 1
    fi
}
zle -N _bind_jump_fzf
bindkey '^F' _bind_jump_fzf
"#;

/// The fish integration: a `jump` function, a `j` abbreviation and a Ctrl+F binding.
pub const FISH_INIT: &'static str = r#"# jump shell integration
# Add this to ~/.config/fish/config.fish

# Main jump function
function jump --description "Quick directory navigation"
    set -l target (command jump $argv)
    if test -n "$target" -a -d "$target"
        cd $target
    end
end

# Short alias
abbr -a j jump

# Fuzzy find mode (Ctrl+F)
function _jump_fish_fzf --description "Jump with fuzzy search"
    set -l target (command jump --fuzzy)
    if test -n "$target" -a -d "$target"
        cd $target
    end
    commandline -f repaint
end
bind \cf _jump_fish_fzf
"#;

/// Part 0 of the bash completion script; the program name goes between parts.
pub const BASH_COMPLETION_0: &'static str = r#"# jump bash completion
# Source this file: source <(jump --completions bash)

_"#;

/// Part 1 of the bash completion script; the program name goes between parts.
pub const BASH_COMPLETION_1: &'static str = r#"_jump() {
    local cur prev words cword
    _init_completion || return

    case "$prev" in
        --completions)
            COMPREPLY=(bash zsh fish)
            return
            ;;
        --shell-init)
            COMPREPLY=(bash zsh fish auto)
            return
            ;;
    esac

    if [[ "$cur" == -* ]]; then
        COMPREPLY=($(compgen -W "$("#;

/// Part 2 of the bash completion script; the program name goes between parts.
pub const BASH_COMPLETION_2: &'static str = r#" --help 2>/dev/null | grep -oP '(--\S+)' | tr '\n' ' ')" -- "$cur"))
        return
    fi
} && complete -F _"#;

/// Part 3 of the bash completion script; the program name goes between parts.
pub const BASH_COMPLETION_3: &'static str = r#"_jump "#;

/// Part 4 of the bash completion script; the program name goes between parts.
pub const BASH_COMPLETION_4: &'static str = r#"
"#;

/// Part 0 of the zsh completion script; the program name goes between parts.
pub const ZSH_COMPLETION_0: &'static str = r#"#compdef "#;

/// Part 1 of the zsh completion script; the program name goes between parts.
pub const ZSH_COMPLETION_1: &'static str = r#"

_"#;

/// Part 2 of the zsh completion script; the program name goes between parts.
pub const ZSH_COMPLETION_2: &'static str = r#"() {
    local -a args
    args=(
        "-h[Show help]"
        "-v[Show version]"
        "-a[Show hidden directories]"
        "--all[Show hidden directories]"
        "--bookmark[Bookmark management]"
        "--shell-init[Print shell initialization script]"
        "--completions[Print shell completion script]"
    )
    _arguments -s $args
}

_"#;

/// Part 3 of the zsh completion script; the program name goes between parts.
pub const ZSH_COMPLETION_3: &'static str = r#" "$@"
"#;

/// Part 0 of the fish completion script; the program name goes between parts.
pub const FISH_COMPLETION_0: &'static str = r#"# fish completion for "#;

/// Part 1 of the fish completion script; the program name goes between parts.
pub const FISH_COMPLETION_1: &'static str = r#"

complete -c "#;

/// Part 2 of the fish completion script; the program name goes between parts.
pub const FISH_COMPLETION_2: &'static str = r#" -f -a "(
    echo --all
    echo --bookmark
    echo --shell-init
    echo --completions
)"
"#;

/// The bash completion script for a program called `name`.
pub open spec fn bash_completion(name: Seq<char>) -> Seq<char> {
    BASH_COMPLETION_0@ + name + BASH_COMPLETION_1@ + name + BASH_COMPLETION_2@ + name + BASH_COMPLETION_3@ + name + BASH_COMPLETION_4@
}

/// The zsh completion script for a program called `name`.
pub open spec fn zsh_completion(name: Seq<char>) -> Seq<char> {
    ZSH_COMPLETION_0@ + name + ZSH_COMPLETION_1@ + name + ZSH_COMPLETION_2@ + name + ZSH_COMPLETION_3@
}

/// The fish completion script for a program called `name`.
pub open spec fn fish_completion(name: Seq<char>) -> Seq<char> {
    FISH_COMPLETION_0@ + name + FISH_COMPLETION_1@ + name + FISH_COMPLETION_2@
}

/// The bash integration script.
pub fn generate_bash_init() -> (r: String)
    ensures
        r@ == BASH_INIT@,
{
    String::from_str(BASH_INIT)
}

/// The zsh integration script.
pub fn generate_zsh_init() -> (r: String)
    ensures
        r@ == ZSH_INIT@,
{
    String::from_str(ZSH_INIT)
}

/// The fish integration script.
pub fn generate_fish_init() -> (r: String)
    ensures
        r@ == FISH_INIT@,
{
    String::from_str(FISH_INIT)
}

/// The integration script for `shell`.
pub fn generate_shell_init(shell: Shell) -> (r: String)
    ensures
        r@ == match shell {
            Shell::Bash => BASH_INIT@,
            Shell::Zsh => ZSH_INIT@,
            Shell::Fish => FISH_INIT@,
        },
{
    match shell {
        Shell::Bash => generate_bash_init(),
        Shell::Zsh => generate_zsh_init(),
        Shell::Fish => generate_fish_init(),
    }
}

/// The bash completion script for a program called `name`.
pub fn generate_bash_completion(name: &str) -> (r: String)
    ensures
        r@ == bash_completion(name@),
{
    let mut s = String::from_str(BASH_COMPLETION_0);
    s.append(name);
    s.append(BASH_COMPLETION_1);
    s.append(name);
    s.append(BASH_COMPLETION_2);
    s.append(name);
    s.append(BASH_COMPLETION_3);
    s.append(name);
    s.append(BASH_COMPLETION_4);
    s
}

/// The zsh completion script for a program called `name`.
pub fn generate_zsh_completion(name: &str) -> (r: String)
    ensures
        r@ == zsh_completion(name@),
{
    let mut s = String::from_str(ZSH_COMPLETION_0);
    s.append(name);
    s.append(ZSH_COMPLETION_1);
    s.append(name);
    s.append(ZSH_COMPLETION_2);
    s.append(name);
    s.append(ZSH_COMPLETION_3);
    s
}

/// The fish completion script for a program called `name`.
pub fn generate_fish_completion(name: &str) -> (r: String)
    ensures
        r@ == fish_completion(name@),
{
    let mut s = String::from_str(FISH_COMPLETION_0);
    s.append(name);
    s.append(FISH_COMPLETION_1);
    s.append(name);
    s.append(FISH_COMPLETION_2);
    s
}

/// The completion script for `shell`, for a program called `name`.
pub fn generate_completion(shell: Shell, name: &str) -> (r: String)
    ensures
        r@ == match shell {
            Shell::Bash => bash_completion(name@),
            Shell::Zsh => zsh_completion(name@),
            Shell::Fish => fish_completion(name@),
        },
{
    match shell {
        Shell::Bash => generate_bash_completion(name),
        Shell::Zsh => generate_zsh_completion(name),
        Shell::Fish => generate_fish_completion(name),
    }
}

} // verus!
