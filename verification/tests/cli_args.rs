use shellenv::cli::Cli;
use shellenv::shell::Shell;

const TEST_TOML: &str = "~/test.toml";

fn args_of(parts: &[&str]) -> Vec<String> {
    parts.iter().map(|s| s.to_string()).collect()
}

#[test]
fn main_simple() {
    let cli = Cli { toml_file: TEST_TOML.to_string(), shell: Shell::Fish, verbosity: 0 };
    let parsed = Cli::parse_from(&args_of(&["", TEST_TOML, "-s", "fish"]), Shell::Bash);
    assert_eq!(cli, parsed.unwrap());
}

#[test]
fn main_shell_from_env() {
    let cli = Cli { toml_file: TEST_TOML.to_string(), shell: Shell::Fish, verbosity: 0 };
    let parsed = Cli::parse_from(&args_of(&["", TEST_TOML, "-s", "fish"]), Shell::Bash);
    assert_eq!(cli, parsed.unwrap());
}

#[test]
fn shellenv_simple() {
    let cli = Cli { toml_file: TEST_TOML.to_string(), shell: Shell::Fish, verbosity: 0 };
    let parsed = Cli::parse_from(&args_of(&["", TEST_TOML, "-s", "fish"]), Shell::Bash);
    assert_eq!(cli, parsed.unwrap());
}

#[test]
fn shellenv_shell_from_env() {
    let cli = Cli { toml_file: TEST_TOML.to_string(), shell: Shell::Fish, verbosity: 0 };
    let parsed = Cli::parse_from(&args_of(&["", TEST_TOML, "-s", "fish"]), Shell::Bash);
    assert_eq!(cli, parsed.unwrap());
}

#[test]
fn cli_simple() {
    let cli = Cli { toml_file: TEST_TOML.to_string(), shell: Shell::Fish, verbosity: 0 };
    let parsed = Cli::parse_from(&args_of(&["", TEST_TOML, "-s", "fish"]), Shell::Bash);
    assert_eq!(cli, parsed.unwrap());
}

#[test]
fn cli_shell_from_env() {
    let cli = Cli { toml_file: TEST_TOML.to_string(), shell: Shell::Fish, verbosity: 0 };
    let parsed = Cli::parse_from(&args_of(&["", TEST_TOML, "-s", "fish"]), Shell::Bash);
    assert_eq!(cli, parsed.unwrap());
}

#[test]
fn default_shell_stands_in() {
    let parsed = Cli::parse_from(&args_of(&["shellenv", "cfg.toml"]), Shell::Zsh).unwrap();
    assert_eq!(parsed.toml_file, "cfg.toml");
    assert_eq!(parsed.shell, Shell::Zsh);
    assert_eq!(parsed.verbosity, 0);
}

#[test]
fn verbose_flag_repeats() {
    let parsed =
        Cli::parse_from(&args_of(&["shellenv", "-v", "cfg.toml", "--verbose", "-v"]), Shell::Bash)
            .unwrap();
    assert_eq!(parsed.verbosity, 3);
}

#[test]
fn long_shell_option_and_alias() {
    let parsed =
        Cli::parse_from(&args_of(&["shellenv", "--shell", "pwsh", "cfg.toml"]), Shell::Bash)
            .unwrap();
    assert_eq!(parsed.shell, Shell::Powershell);
}

#[test]
fn parse_failures() {
    // no positional file
    assert!(Cli::parse_from(&args_of(&["shellenv"]), Shell::Bash).is_none());
    // unknown option
    assert!(Cli::parse_from(&args_of(&["shellenv", "-x", "cfg.toml"]), Shell::Bash).is_none());
    // shell option without a value
    assert!(Cli::parse_from(&args_of(&["shellenv", "cfg.toml", "-s"]), Shell::Bash).is_none());
    // unparsable shell name
    assert!(Cli::parse_from(&args_of(&["shellenv", "cfg.toml", "-s", "tcsh"]), Shell::Bash)
        .is_none());
    // a second positional argument
    assert!(Cli::parse_from(&args_of(&["shellenv", "a.toml", "b.toml"]), Shell::Bash).is_none());
    // an empty argument vector
    assert!(Cli::parse_from(&Vec::new(), Shell::Bash).is_none());
}

#[test]
fn shell_name_round_trip() {
    for shell in [Shell::Bash, Shell::Zsh, Shell::Fish, Shell::Powershell] {
        assert_eq!(Shell::from_str(shell.name().as_str()), Some(shell));
    }
}

#[test]
fn shell_from_str_aliases() {
    assert_eq!(Shell::from_str("sh"), Some(Shell::Bash));
    assert_eq!(Shell::from_str("bash"), Some(Shell::Bash));
    assert_eq!(Shell::from_str("zsh"), Some(Shell::Zsh));
    assert_eq!(Shell::from_str("fish"), Some(Shell::Fish));
    assert_eq!(Shell::from_str("ps"), Some(Shell::Powershell));
    assert_eq!(Shell::from_str("pwsh"), Some(Shell::Powershell));
    assert_eq!(Shell::from_str("powershell"), Some(Shell::Powershell));
    assert_eq!(Shell::from_str("Bash"), None);
    assert_eq!(Shell::from_str(""), None);
}

#[test]
fn shell_resolved_from_environment_value() {
    assert_eq!(Shell::from_env(Some("/usr/bin/zsh")), Some(Shell::Zsh));
    assert_eq!(Shell::from_env(Some("/bin/sh")), Some(Shell::Bash));
    assert_eq!(Shell::from_env(Some("fish")), Some(Shell::Fish));
    assert_eq!(Shell::from_env(Some("/usr/bin/tcsh")), None);
    assert_eq!(Shell::from_env(Some("")), None);
    assert_eq!(Shell::from_env(None), None);
}
