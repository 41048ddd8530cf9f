use jump::shell::{
    generate_bash_completion, generate_bash_init, generate_completion, generate_fish_completion,
    generate_fish_init, generate_shell_init, generate_zsh_completion, generate_zsh_init, Shell,
};

#[test]
fn test_bash_init_contains_function() {
    let script = generate_bash_init();
    assert!(script.contains("jump()"));
    assert!(script.contains("j()"));
    assert!(script.contains("command jump"));
    assert!(script.contains("bind"));
}

#[test]
fn test_zsh_init_contains_function() {
    let script = generate_zsh_init();
    assert!(script.contains("jump()"));
    assert!(script.contains("j()"));
    assert!(script.contains("command jump"));
    assert!(script.contains("bindkey"));
}

#[test]
fn test_fish_init_contains_function() {
    let script = generate_fish_init();
    assert!(script.contains("function jump"));
    assert!(script.contains("command jump"));
    assert!(script.contains("abbr"));
    assert!(script.contains("bind"));
}

#[test]
fn test_bash_init_has_cd() {
    let script = generate_bash_init();
    assert!(script.contains("cd \"$target\""));
}

#[test]
fn test_zsh_init_has_cd() {
    let script = generate_zsh_init();
    assert!(script.contains("cd \"$target\""));
}

#[test]
fn test_fish_init_has_cd() {
    let script = generate_fish_init();
    assert!(script.contains("cd $target"));
}

#[test]
fn test_bash_init_has_fuzzy_binding() {
    let script = generate_bash_init();
    assert!(script.contains("Ctrl+F") || script.contains("\\C-f"));
}

#[test]
fn test_zsh_init_has_fuzzy_binding() {
    let script = generate_zsh_init();
    assert!(script.contains("^F"));
}

#[test]
fn test_fish_init_has_fuzzy_binding() {
    let script = generate_fish_init();
    assert!(script.contains("\\cf"));
}

#[test]
fn test_bash_init_not_empty() {
    let script = generate_bash_init();
    assert!(!script.is_empty());
    assert!(script.len() > 100);
}

#[test]
fn test_zsh_init_not_empty() {
    let script = generate_zsh_init();
    assert!(!script.is_empty());
    assert!(script.len() > 100);
}

#[test]
fn test_fish_init_not_empty() {
    let script = generate_fish_init();
    assert!(!script.is_empty());
    assert!(script.len() > 100);
}

#[test]
fn test_bash_completion_contains_complete() {
    let script = generate_bash_completion("jump");
    assert!(script.contains("complete -F"));
    assert!(script.contains("_jump"));
}

#[test]
fn test_zsh_completion_contains_compdef() {
    let script = generate_zsh_completion("jump");
    assert!(script.contains("#compdef"));
    assert!(script.contains("_jump"));
}

#[test]
fn test_fish_completion_contains_complete() {
    let script = generate_fish_completion("jump");
    assert!(script.contains("complete -c"));
    assert!(script.contains("jump"));
}

#[test]
fn test_bash_completion_has_help_option() {
    let script = generate_bash_completion("jump");
    assert!(script.contains("--help"));
}

#[test]
fn test_zsh_completion_has_help_option() {
    let script = generate_zsh_completion("jump");
    assert!(script.contains("help"));
}

#[test]
fn test_fish_completion_has_all_option() {
    let script = generate_fish_completion("jump");
    assert!(script.contains("--all"));
}

#[test]
fn test_bash_completion_not_empty() {
    let script = generate_bash_completion("jump");
    assert!(!script.is_empty());
}

#[test]
fn test_zsh_completion_not_empty() {
    let script = generate_zsh_completion("jump");
    assert!(!script.is_empty());
}

#[test]
fn test_fish_completion_not_empty() {
    let script = generate_fish_completion("jump");
    assert!(!script.is_empty());
}


#[test]
fn shell_init_dispatches_by_shell() {
    assert_eq!(generate_shell_init(Shell::Bash), generate_bash_init());
    assert_eq!(generate_shell_init(Shell::Zsh), generate_zsh_init());
    assert_eq!(generate_shell_init(Shell::Fish), generate_fish_init());
}

#[test]
fn completion_uses_the_program_name() {
    let script = generate_completion(Shell::Bash, "hop");
    assert!(script.contains("complete -F _hop_jump hop"));
    assert!(!script.contains("{name}"));
    let zsh = generate_completion(Shell::Zsh, "hop");
    assert!(zsh.starts_with("#compdef hop\n"));
    assert!(zsh.contains("_hop() {"));
    let fish = generate_completion(Shell::Fish, "hop");
    assert!(fish.starts_with("# fish completion for hop\n"));
    assert!(fish.contains("complete -c hop -f -a"));
}
