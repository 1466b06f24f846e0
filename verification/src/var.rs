//! The typed record for a single declared item, and the per-shell syntax
//! generators.
use vstd::prelude::*;
use vstd::string::StringExecFns;

use crate::shell::Shell;
use crate::util::{dparen_replaced, quote_if, quote_string, quoted, replace_dollar_paren,
    spec_quote_if};

verus! {

/// The category of a declared item, which selects its rendering template.
#[derive(Debug, Clone, Copy, PartialEq, Eq, Structural)]
pub enum VarType {
    Path,
    Env,
    Abbr,
    Alias,
}

impl Default for VarType {
    fn default() -> (r: Self)
        ensures
            r == VarType::Env,
    {
        VarType::Env
    }
}

/// Container for variable contents.
///
/// `key` names the variable (it is unused for `Path` entries); `val` is the
/// literal value or, when `eval` is set, a command whose trimmed output
/// replaces it; `quote` is the tri-state quoting override; `shell`, when
/// present, restricts the entry to the listed target shells.
pub struct Var {
    pub var_type: VarType,
    pub key: String,
    pub val: String,
    pub desc: Option<String>,
    pub args: Option<String>,
    pub cat: Option<String>,
    pub quote: Option<bool>,
    pub eval: bool,
    pub shell: Option<Vec<Shell>>,
}

/// The mathematical model of a [`Var`]: its strings as character sequences.
pub ghost struct VarV {
    pub var_type: VarType,
    pub key: Seq<char>,
    pub val: Seq<char>,
    pub desc: Option<Seq<char>>,
    pub args: Option<Seq<char>>,
    pub cat: Option<Seq<char>>,
    pub quote: Option<bool>,
    pub eval: bool,
    pub shell: Option<Seq<Shell>>,
}

impl View for Var {
    type V = VarV;

    open spec fn view(&self) -> VarV {
        VarV {
            var_type: self.var_type,
            key: self.key@,
            val: self.val@,
            desc: match self.desc {
                Some(d) => Some(d@),
                None => None,
            },
            args: match self.args {
                Some(a) => Some(a@),
                None => None,
            },
            cat: match self.cat {
                Some(c) => Some(c@),
                None => None,
            },
            quote: self.quote,
            eval: self.eval,
            shell: match self.shell {
                Some(ss) => Some(ss@),
                None => None,
            },
        }
    }
}

/// The models of a sequence of variables.
pub open spec fn views_of(vs: Seq<Var>) -> Seq<VarV> {
    vs.map_values(|v: Var| v@)
}

/// The `args` field, or the empty sequence when it is unset.
pub open spec fn args_or_empty(v: VarV) -> Seq<char> {
    match v.args {
        Some(a) => a,
        None => Seq::empty(),
    }
}

/// The POSIX-compatible line for bash and zsh, `rv` being the already
/// resolved (quoted or evaluated) value.
pub open spec fn posix_line(v: VarV, rv: Seq<char>) -> Seq<char> {
    match v.var_type {
        VarType::Path => "export PATH="@ + rv + ":$PATH"@,
        VarType::Env => "export "@ + v.key + "="@ + rv,
        VarType::Abbr => "alias "@ + v.key + "="@ + rv,
        VarType::Alias => "alias "@ + v.key + "="@ + rv,
    }
}

/// The fish line before command-substitution rewriting. The alias template
/// defines a function body and therefore uses the raw, unresolved value; a
/// `Path` entry's `args` segment stands between `set -g` and the path-list
/// variable name, and is empty when `args` is unset.
pub open spec fn fish_line_raw(v: VarV, rv: Seq<char>) -> Seq<char> {
    match v.var_type {
        VarType::Path => "set -g "@ + args_or_empty(v) + " fish_user_paths "@ + rv,
        VarType::Env => "set -gx "@ + v.key + " "@ + rv,
        VarType::Abbr => "abbr -g "@ + v.key + " "@ + rv,
        VarType::Alias => "function "@ + v.key + "; "@ + v.val + "; end; funcsave "@ + v.key,
    }
}

/// The fish line: fish spells command substitution `(...)`, so every `$(`
/// in the rendered line is rewritten to `(`.
pub open spec fn fish_line(v: VarV, rv: Seq<char>) -> Seq<char> {
    dparen_replaced(fish_line_raw(v, rv))
}

/// The PowerShell line, `rv` being the evaluated value when `eval` is set
/// and the raw value otherwise: PowerShell output never consults the
/// quoting policy, the `Path` and `Env` templates always quote, and the
/// function templates use the raw value.
pub open spec fn powershell_line(v: VarV, rv: Seq<char>) -> Seq<char> {
    match v.var_type {
        VarType::Path => "$Env:Path = "@ + quoted(rv + ":$Env:Path"@),
        VarType::Env => "$Env:"@ + v.key + " = "@ + quoted(rv),
        VarType::Abbr => "function "@ + v.key + " { "@ + v.val + " }"@,
        VarType::Alias => "function "@ + v.key + " { "@ + v.val + " }"@,
    }
}

/// The resolved value for the POSIX and fish templates: the evaluator's
/// output `ev` when `eval` is set, else the value under the quoting policy.
pub open spec fn resolved_value(v: VarV, ev: Seq<char>) -> Seq<char> {
    if v.eval {
        ev
    } else {
        spec_quote_if(v.val, v.quote)
    }
}

/// The resolved value for the PowerShell templates: the evaluator's output
/// when `eval` is set, else the raw value.
pub open spec fn raw_resolved_value(v: VarV, ev: Seq<char>) -> Seq<char> {
    if v.eval {
        ev
    } else {
        v.val
    }
}

/// The one output line for a variable and a target shell. `ev` is the
/// evaluator's output for the variable's command, and is irrelevant unless
/// `eval` is set.
pub open spec fn shell_line(v: VarV, s: Shell, ev: Seq<char>) -> Seq<char> {
    match s {
        Shell::Bash => posix_line(v, resolved_value(v, ev)),
        Shell::Zsh => posix_line(v, resolved_value(v, ev)),
        Shell::Fish => fish_line(v, resolved_value(v, ev)),
        Shell::Powershell => powershell_line(v, raw_resolved_value(v, ev)),
    }
}

/// Render the one output line for `v` and the target shell. `ev` is the
/// evaluator's output for `v.val`, supplied by the caller when `v.eval` is
/// set and ignored otherwise.
pub fn render_line(v: &Var, shell: &Shell, ev: &str) -> (r: String)
    ensures
        r@ == shell_line(v@, *shell, ev@),
{
    match shell {
        Shell::Fish => {
            let rv = if v.eval {
                ev.to_owned()
            } else {
                quote_if(v.val.as_str(), v.quote)
            };
            let mut out = String::new();
            match v.var_type {
                VarType::Path => {
                    out.append("set -g ");
                    match &v.args {
                        Some(a) => out.append(a.as_str()),
                        None => (),
                    }
                    out.append(" fish_user_paths ");
                    out.append(rv.as_str());
                },
                VarType::Env => {
                    out.append("set -gx ");
                    out.append(v.key.as_str());
                    out.append(" ");
                    out.append(rv.as_str());
                },
                VarType::Abbr => {
                    out.append("abbr -g ");
                    out.append(v.key.as_str());
                    out.append(" ");
                    out.append(rv.as_str());
                },
                VarType::Alias => {
                    out.append("function ");
                    out.append(v.key.as_str());
                    out.append("; ");
                    out.append(v.val.as_str());
                    out.append("; end; funcsave ");
                    out.append(v.key.as_str());
                },
            }
            replace_dollar_paren(out.as_str())
        },
        Shell::Powershell => {
            let rv = if v.eval {
                ev.to_owned()
            } else {
                v.val.clone()
            };
            let mut out = String::new();
            match v.var_type {
                VarType::Path => {
                    let mut inner = rv;
                    inner.append(":$Env:Path");
                    out.append("$Env:Path = ");
                    let q = quote_string(inner.as_str());
                    out.append(q.as_str());
                },
                VarType::Env => {
                    out.append("$Env:");
                    out.append(v.key.as_str());
                    out.append(" = ");
                    let q = quote_string(rv.as_str());
                    out.append(q.as_str());
                },
                VarType::Abbr => {
                    out.append("function ");
                    out.append(v.key.as_str());
                    out.append(" { ");
                    out.append(v.val.as_str());
                    out.append(" }");
                },
                VarType::Alias => {
                    out.append("function ");
                    out.append(v.key.as_str());
                    out.append(" { ");
                    out.append(v.val.as_str());
                    out.append(" }");
                },
            }
            out
        },
        _ => {
            let rv = if v.eval {
                ev.to_owned()
            } else {
                quote_if(v.val.as_str(), v.quote)
            };
            let mut out = String::new();
            match v.var_type {
                VarType::Path => {
                    out.append("export PATH=");
                    out.append(rv.as_str());
                    out.append(":$PATH");
                },
                VarType::Env => {
                    out.append("export ");
                    out.append(v.key.as_str());
                    out.append("=");
                    out.append(rv.as_str());
                },
                VarType::Abbr => {
                    out.append("alias ");
                    out.append(v.key.as_str());
                    out.append("=");
                    out.append(rv.as_str());
                },
                VarType::Alias => {
                    out.append("alias ");
                    out.append(v.key.as_str());
                    out.append("=");
                    out.append(rv.as_str());
                },
            }
            out
        },
    }
}

impl Var {
    /// Output in bash/zsh format. The value is resolved by the quoting
    /// policy; a variable whose value is a command to evaluate is rendered
    /// through [`render_line`] with the evaluator's output instead.
    pub fn to_posix_fmt(&self) -> (r: String)
        requires
            !self.eval,
        ensures
            r@ == shell_line(self@, Shell::Bash, Seq::empty()),
    {
        render_line(self, &Shell::Bash, "")
    }

    /// Output in fish format, under the same condition as
    /// [`Var::to_posix_fmt`].
    pub fn to_fish_fmt(&self) -> (r: String)
        requires
            !self.eval,
        ensures
            r@ == shell_line(self@, Shell::Fish, Seq::empty()),
    {
        render_line(self, &Shell::Fish, "")
    }

    /// Output in powershell format, under the same condition as
    /// [`Var::to_posix_fmt`].
    pub fn to_powershell_fmt(&self) -> (r: String)
        requires
            !self.eval,
        ensures
            r@ == shell_line(self@, Shell::Powershell, Seq::empty()),
    {
        render_line(self, &Shell::Powershell, "")
    }
}

} // verus!
