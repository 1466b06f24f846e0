use shellenv::config::{eval_commands, parse_config, Config};
use shellenv::shell::Shell;
use shellenv::var::{Var, VarType};

fn var(key: &str, val: &str) -> Var {
    Var {
        var_type: VarType::Env,
        key: key.to_string(),
        val: val.to_string(),
        desc: None,
        args: None,
        cat: None,
        quote: None,
        eval: false,
        shell: None,
    }
}

fn vars_from(value: &toml::Value, key: &str) -> Vec<Var> {
    let mut out = Vec::new();
    if let Some(arr) = value.get(key).and_then(|v| v.as_array()) {
        for item in arr {
            let mut v = var(
                item.get("key").and_then(|x| x.as_str()).unwrap_or(""),
                item.get("val").and_then(|x| x.as_str()).unwrap_or(""),
            );
            v.desc = item.get("desc").and_then(|x| x.as_str()).map(|s| s.to_string());
            v.args = item.get("args").and_then(|x| x.as_str()).map(|s| s.to_string());
            v.cat = item.get("cat").and_then(|x| x.as_str()).map(|s| s.to_string());
            v.quote = item.get("quote").and_then(|x| x.as_bool());
            v.eval = item.get("eval").and_then(|x| x.as_bool()).unwrap_or(false);
            v.shell = item.get("shell").and_then(|x| x.as_array()).map(|arr| {
                arr.iter()
                    .map(|s| Shell::from_str(s.as_str().unwrap()).unwrap())
                    .collect()
            });
            out.push(v);
        }
    }
    out
}

fn config_from_toml(s: &str) -> Config {
    let value: toml::Value = toml::from_str(s).unwrap();
    Config {
        path: vars_from(&value, "path"),
        env: vars_from(&value, "env"),
        abbr: vars_from(&value, "abbr"),
        alias: vars_from(&value, "alias"),
    }
}

fn render(cfg: Config, shell: &Shell) -> String {
    let evals: Vec<String> = Vec::new();
    parse_config(cfg, shell, &evals).unwrap()
}

const TOML: &str = r#"
        [[env]]
        key = 'LANG'
        val = 'en_US.utf8'
        cat = 'system'
        desc = 'Locale setting'
        shell = ['bash']
            "#;

#[test]
fn toml_to_env_var() {
    let cfg = config_from_toml(TOML);
    let output = render(cfg, &Shell::Bash);
    assert_eq!(output, "export LANG=en_US.utf8\n");
}

#[test]
fn main_simple_env_var() {
    let cfg = config_from_toml(TOML);
    let output = render(cfg, &Shell::Bash);
    assert_eq!(output, "export LANG=en_US.utf8\n");
}

#[test]
fn shellenv_simple_env_var() {
    let cfg = config_from_toml(TOML);
    let output = render(cfg, &Shell::Bash);
    assert_eq!(output, "export LANG=en_US.utf8\n");
}

#[test]
fn env_var_filtered_out_for_other_shells() {
    for shell in [Shell::Zsh, Shell::Fish, Shell::Powershell] {
        let cfg = config_from_toml(TOML);
        assert_eq!(render(cfg, &shell), "");
    }
}

#[test]
fn path_fish_empty_args() {
    let cfg = config_from_toml("[[path]]\nval = '/usr/local/bin'\n");
    let output = render(cfg, &Shell::Fish);
    assert_eq!(output, "set -g  fish_user_paths /usr/local/bin\n");
}

#[test]
fn path_fish_with_args() {
    let cfg = config_from_toml("[[path]]\nval = '/usr/local/bin'\nargs = '--universal'\n");
    let output = render(cfg, &Shell::Fish);
    assert_eq!(output, "set -g --universal fish_user_paths /usr/local/bin\n");
}

#[test]
fn alias_powershell() {
    let cfg = config_from_toml("[[alias]]\nkey = 'll'\nval = 'ls -la'\n");
    let output = render(cfg, &Shell::Powershell);
    assert_eq!(output, "function ll { ls -la }\n");
}

#[test]
fn alias_posix_quotes_value_with_spaces() {
    let cfg = config_from_toml("[[alias]]\nkey = 'll'\nval = 'ls -la'\n");
    let output = render(cfg, &Shell::Bash);
    assert_eq!(output, "alias ll=\"ls -la\"\n");
}

#[test]
fn alias_fish_uses_raw_value() {
    let cfg = config_from_toml("[[alias]]\nkey = 'll'\nval = 'ls -la'\n");
    let output = render(cfg, &Shell::Fish);
    assert_eq!(output, "function ll; ls -la; end; funcsave ll\n");
}

#[test]
fn fish_rewrites_command_substitution() {
    let cfg = config_from_toml("[[env]]\nkey = 'NOW'\nval = '$(date)'\nquote = false\n");
    let output = render(cfg, &Shell::Fish);
    assert_eq!(output, "set -gx NOW (date)\n");
}

#[test]
fn powershell_env_always_quotes() {
    let cfg = config_from_toml("[[env]]\nkey = 'LANG'\nval = 'C'\nquote = false\n");
    let output = render(cfg, &Shell::Powershell);
    assert_eq!(output, "$Env:LANG = \"C\"\n");
}

#[test]
fn powershell_quoting_escapes_control_characters() {
    let cfg = config_from_toml("[[env]]\nkey = 'BELL'\nval = \"a\\u0007b\"\n");
    assert_eq!(render(cfg, &Shell::Powershell), "$Env:BELL = \"a\\u{7}b\"\n");
    let cfg = config_from_toml("[[path]]\nval = \"/op\\u0007t\"\n");
    assert_eq!(
        render(cfg, &Shell::Powershell),
        "$Env:Path = \"/op\\u{7}t:$Env:Path\"\n"
    );
}

#[test]
fn powershell_path_quotes_joined_value() {
    let cfg = config_from_toml("[[path]]\nval = '/opt/tools'\n");
    let output = render(cfg, &Shell::Powershell);
    assert_eq!(output, "$Env:Path = \"/opt/tools:$Env:Path\"\n");
}

#[test]
fn path_posix() {
    let cfg = config_from_toml("[[path]]\nval = '/usr/local/bin'\n");
    let output = render(cfg, &Shell::Bash);
    assert_eq!(output, "export PATH=/usr/local/bin:$PATH\n");
}

#[test]
fn abbr_fish_and_posix() {
    let cfg = config_from_toml("[[abbr]]\nkey = 'gs'\nval = 'git status'\n");
    assert_eq!(render(cfg, &Shell::Fish), "abbr -g gs \"git status\"\n");
    let cfg = config_from_toml("[[abbr]]\nkey = 'gs'\nval = 'git status'\n");
    assert_eq!(render(cfg, &Shell::Zsh), "alias gs=\"git status\"\n");
}

#[test]
fn aggregation_order_and_length() {
    let toml = r#"
        [[alias]]
        key = 'll'
        val = 'ls'
        [[env]]
        key = 'A'
        val = '1'
        [[path]]
        val = '/p'
        [[env]]
        key = 'B'
        val = '2'
    "#;
    let cfg = config_from_toml(toml);
    assert_eq!(cfg.item_ct(), 4);
    let output = render(cfg, &Shell::Bash);
    let lines: Vec<&str> = output.lines().collect();
    assert_eq!(
        lines,
        vec!["export PATH=/p:$PATH", "export A=1", "export B=2", "alias ll=ls"]
    );
}

#[test]
fn empty_config_renders_nothing() {
    let cfg = config_from_toml("");
    assert_eq!(cfg.item_ct(), 0);
    assert_eq!(render(cfg, &Shell::Bash), "");
}

#[test]
fn env_value_with_space_is_quoted() {
    let cfg = config_from_toml("[[env]]\nkey = 'GREETING'\nval = 'hello world'\n");
    assert_eq!(render(cfg, &Shell::Bash), "export GREETING=\"hello world\"\n");
}

#[test]
fn rendering_is_deterministic() {
    let toml = "[[path]]\nval = '/p'\n\n[[alias]]\nkey = 'll'\nval = 'ls -la'\n";
    let first = render(config_from_toml(toml), &Shell::Fish);
    let second = render(config_from_toml(toml), &Shell::Fish);
    assert_eq!(first, second);
}

#[test]
fn eval_commands_lists_applicable_eval_entries() {
    let toml = r#"
        [[env]]
        key = 'A'
        val = 'date'
        eval = true
        [[env]]
        key = 'B'
        val = 'plain'
        [[env]]
        key = 'C'
        val = 'whoami'
        eval = true
        shell = ['zsh']
    "#;
    let cfg = config_from_toml(toml);
    let cmds = eval_commands(&cfg, &Shell::Bash);
    assert_eq!(cmds, vec!["date".to_string()]);
    let cmds = eval_commands(&cfg, &Shell::Zsh);
    assert_eq!(cmds, vec!["date".to_string(), "whoami".to_string()]);
}

#[test]
fn eval_output_replaces_value() {
    let cfg = config_from_toml("[[env]]\nkey = 'WHO'\nval = 'whoami'\neval = true\n");
    let evals = vec!["root".to_string()];
    let output = parse_config(cfg, &Shell::Bash, &evals).unwrap();
    assert_eq!(output, "export WHO=root\n");
}

#[test]
fn eval_output_feeds_powershell_quoting() {
    let cfg = config_from_toml("[[env]]\nkey = 'WHO'\nval = 'whoami'\neval = true\n");
    let evals = vec!["root".to_string()];
    let output = parse_config(cfg, &Shell::Powershell, &evals).unwrap();
    assert_eq!(output, "$Env:WHO = \"root\"\n");
}

#[test]
fn eval_listed_even_where_template_takes_raw_value() {
    // A PowerShell alias renders the raw value, but an `eval` entry's
    // command still runs, and its failure would still abort the pass.
    let cfg = config_from_toml("[[alias]]\nkey = 'll'\nval = 'ls -la'\neval = true\n");
    assert_eq!(eval_commands(&cfg, &Shell::Powershell), vec!["ls -la".to_string()]);
    let cfg = config_from_toml("[[alias]]\nkey = 'll'\nval = 'ls -la'\neval = true\n");
    let evals = vec!["ignored".to_string()];
    let output = parse_config(cfg, &Shell::Powershell, &evals).unwrap();
    assert_eq!(output, "function ll { ls -la }\n");
}

#[test]
fn eval_failure_renders_nothing() {
    // A failing eval command yields no captured output: the render pass
    // refuses to produce any text at all, rather than emitting a partial
    // result.
    let toml = r#"
        [[env]]
        key = 'A'
        val = 'plain'
        [[env]]
        key = 'B'
        val = 'false'
        eval = true
    "#;
    let cfg = config_from_toml(toml);
    let no_evals: Vec<String> = Vec::new();
    assert_eq!(parse_config(cfg, &Shell::Bash, &no_evals), None);
}
