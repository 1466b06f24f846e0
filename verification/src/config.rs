//! The decoded configuration, the category aggregator, and the renderer.
//!
//! A [`Config`] holds the four ordered collections of declared variables.
//! Aggregation merges them into one ordered sequence — `path`, `env`,
//! `abbr`, `alias` — tagging each entry with its category. Rendering walks
//! that sequence, filters each entry by shell applicability, and emits one
//! newline-terminated line per applicable entry.
//!
//! Running an `eval` command is a subprocess call and stays outside this
//! library: [`eval_commands`] lists, in order, the commands that a render
//! pass needs, the caller runs them (aborting on the first failure, before
//! anything is emitted), and [`parse_config`] takes their trimmed outputs.
use vstd::prelude::*;
use vstd::string::StringExecFns;

use crate::shell::Shell;
use crate::util::strs_of;
use crate::var::{shell_line, views_of, Var, VarType, VarV};

verus! {

/// The four ordered collections of declared variables, one per category,
/// as decoded from the configuration source.
pub struct Config {
    pub path: Vec<Var>,
    pub env: Vec<Var>,
    pub abbr: Vec<Var>,
    pub alias: Vec<Var>,
}

/// The mathematical model of a [`Config`].
pub ghost struct ConfigV {
    pub path: Seq<VarV>,
    pub env: Seq<VarV>,
    pub abbr: Seq<VarV>,
    pub alias: Seq<VarV>,
}

impl View for Config {
    type V = ConfigV;

    open spec fn view(&self) -> ConfigV {
        ConfigV {
            path: views_of(self.path@),
            env: views_of(self.env@),
            abbr: views_of(self.abbr@),
            alias: views_of(self.alias@),
        }
    }
}

/// The variable with its category replaced.
pub open spec fn retag(v: VarV, t: VarType) -> VarV {
    VarV { var_type: t, ..v }
}

/// Every variable of the sequence with its category replaced.
pub open spec fn retag_all(vs: Seq<VarV>, t: VarType) -> Seq<VarV> {
    vs.map_values(|v: VarV| retag(v, t))
}

/// The aggregated sequence: `path`, `env`, `abbr`, `alias`, relative order
/// inside each collection preserved, each entry tagged with its category.
pub open spec fn spec_aggregate(c: ConfigV) -> Seq<VarV> {
    retag_all(c.path, VarType::Path) + retag_all(c.env, VarType::Env) + retag_all(
        c.abbr,
        VarType::Abbr,
    ) + retag_all(c.alias, VarType::Alias)
}

/// Whether a variable applies to the target shell: an absent `shell` set
/// means every shell applies, a present one restricts to its members.
pub open spec fn spec_applicable(v: VarV, s: Shell) -> bool {
    match v.shell {
        None => true,
        Some(list) => list.contains(s),
    }
}

/// The commands a render pass must evaluate: the values of the applicable
/// variables marked `eval`, in aggregation order.
pub open spec fn eval_cmds(vs: Seq<VarV>, s: Shell) -> Seq<Seq<char>>
    decreases vs.len(),
{
    if vs.len() == 0 {
        Seq::empty()
    } else {
        let head: Seq<Seq<char>> = if spec_applicable(vs[0], s) && vs[0].eval {
            seq![vs[0].val]
        } else {
            Seq::empty()
        };
        head + eval_cmds(vs.skip(1), s)
    }
}

/// The rendered output: one newline-terminated line per applicable
/// variable, in order, the evaluator outputs `evs` consumed in order by the
/// variables marked `eval`.
pub open spec fn rendered(vs: Seq<VarV>, s: Shell, evs: Seq<Seq<char>>) -> Seq<char>
    decreases vs.len(),
{
    if vs.len() == 0 {
        Seq::empty()
    } else if spec_applicable(vs[0], s) {
        if vs[0].eval {
            shell_line(vs[0], s, evs.first()) + "\n"@ + rendered(vs.skip(1), s, evs.skip(1))
        } else {
            shell_line(vs[0], s, Seq::empty()) + "\n"@ + rendered(vs.skip(1), s, evs)
        }
    } else {
        rendered(vs.skip(1), s, evs)
    }
}

impl Config {
    /// The count of declared variables over all four collections.
    pub fn item_ct(&self) -> (r: usize)
        requires
            self.path@.len() + self.env@.len() + self.abbr@.len() + self.alias@.len()
                <= usize::MAX,
        ensures
            r == self.path@.len() + self.env@.len() + self.abbr@.len() + self.alias@.len(),
    {
        self.path.len() + self.env.len() + self.abbr.len() + self.alias.len()
    }

    /// Merge the four collections into one ordered sequence, in the order
    /// `path`, `env`, `abbr`, `alias`, tagging each entry with the category
    /// of the collection it came from. No entry is dropped or duplicated.
    pub fn aggregate(self) -> (r: Vec<Var>)
        ensures
            views_of(r@) == spec_aggregate(self@),
    {
        let Config { path, env, abbr, alias } = self;
        let mut out: Vec<Var> = Vec::new();
        drain_tagged(&mut out, path, VarType::Path);
        drain_tagged(&mut out, env, VarType::Env);
        drain_tagged(&mut out, abbr, VarType::Abbr);
        drain_tagged(&mut out, alias, VarType::Alias);
        out
    }
}

/// The variable with its category replaced.
fn retag_var(v: Var, t: VarType) -> (r: Var)
    ensures
        r@ == retag(v@, t),
{
    Var { var_type: t, ..v }
}

/// Move every variable of `vs` to the end of `out`, tagged with category
/// `t`.
fn drain_tagged(out: &mut Vec<Var>, vs: Vec<Var>, t: VarType)
    ensures
        views_of(final(out)@) == views_of(old(out)@) + retag_all(views_of(vs@), t),
{
    let mut rem = vs;
    while rem.len() > 0
        invariant
            views_of(out@) + retag_all(views_of(rem@), t) == views_of(old(out)@) + retag_all(
                views_of(vs@),
                t,
            ),
        decreases rem.len(),
    {
        let ghost rem0 = rem@;
        let v = rem.remove(0);
        proof {
            assert(rem@ =~= rem0.skip(1));
            assert(retag_all(views_of(rem0), t) =~= seq![retag(rem0[0]@, t)] + retag_all(
                views_of(rem0.skip(1)),
                t,
            ));
        }
        let ghost out0 = out@;
        let tagged = retag_var(v, t);
        out.push(tagged);
        proof {
            assert(views_of(out@) =~= views_of(out0) + seq![retag(rem0[0]@, t)]);
            assert(views_of(out@) + retag_all(views_of(rem@), t) =~= views_of(out0) + retag_all(
                views_of(rem0),
                t,
            ));
        }
    }
    proof {
        assert(retag_all(views_of(rem@), t) =~= Seq::<VarV>::empty());
        assert(views_of(final(out)@) =~= views_of(old(out)@) + retag_all(views_of(vs@), t));
    }
}

/// Whether the sequence of shells holds the target shell.
fn contains_shell(list: &Vec<Shell>, shell: &Shell) -> (r: bool)
    ensures
        r == list@.contains(*shell),
{
    let n = list.len();
    let mut i: usize = 0;
    while i < n
        invariant
            n == list@.len(),
            i <= n,
            forall|k: int| 0 <= k < i ==> list@[k] != *shell,
        decreases n - i,
    {
        if list[i] == *shell {
            proof {
                assert(list@[i as int] == *shell);
            }
            return true;
        }
        i += 1;
    }
    false
}

/// Whether the variable applies to the target shell.
pub fn shell_applies(v: &Var, shell: &Shell) -> (r: bool)
    ensures
        r == spec_applicable(v@, *shell),
{
    match &v.shell {
        None => true,
        Some(list) => contains_shell(list, shell),
    }
}

/// Append the values of the applicable `eval` variables of `vs`, in order.
fn push_eval_cmds(out: &mut Vec<String>, vs: &Vec<Var>, shell: &Shell)
    ensures
        strs_of(final(out)@) == strs_of(old(out)@) + eval_cmds(views_of(vs@), *shell),
{
    let n = vs.len();
    let mut i: usize = 0;
    proof {
        assert(views_of(vs@).skip(0) =~= views_of(vs@));
    }
    while i < n
        invariant
            n == vs@.len(),
            i <= n,
            strs_of(out@) + eval_cmds(views_of(vs@).skip(i as int), *shell) == strs_of(
                old(out)@,
            ) + eval_cmds(views_of(vs@), *shell),
        decreases n - i,
    {
        let ghost tailv = views_of(vs@).skip(i as int);
        proof {
            assert(tailv[0] == vs@[i as int]@);
            assert(tailv.skip(1) =~= views_of(vs@).skip(i as int + 1));
        }
        let v = &vs[i];
        if shell_applies(v, shell) && v.eval {
            let ghost out0 = out@;
            out.push(v.val.clone());
            proof {
                assert(strs_of(out@) =~= strs_of(out0) + seq![vs@[i as int]@.val]);
                assert(strs_of(out@) + eval_cmds(views_of(vs@).skip(i as int + 1), *shell)
                    =~= strs_of(out0) + eval_cmds(tailv, *shell));
            }
        }
        i += 1;
    }
    proof {
        assert(views_of(vs@).skip(n as int) =~= Seq::<VarV>::empty());
        assert(strs_of(final(out)@) =~= strs_of(old(out)@) + eval_cmds(views_of(vs@), *shell));
    }
}

/// `eval_cmds` distributes over concatenation.
proof fn lemma_eval_cmds_concat(a: Seq<VarV>, b: Seq<VarV>, s: Shell)
    ensures
        eval_cmds(a + b, s) == eval_cmds(a, s) + eval_cmds(b, s),
    decreases a.len(),
{
    if a.len() == 0 {
        assert(a + b =~= b);
        assert(eval_cmds(a, s) + eval_cmds(b, s) =~= eval_cmds(b, s));
    } else {
        lemma_eval_cmds_concat(a.skip(1), b, s);
        assert((a + b).skip(1) =~= a.skip(1) + b);
        assert((a + b)[0] == a[0]);
        assert(eval_cmds(a + b, s) =~= eval_cmds(a, s) + eval_cmds(b, s));
    }
}

/// Replacing categories leaves the evaluation commands unchanged: which
/// commands run depends on the applicability filter and the `eval` flag
/// alone.
proof fn lemma_eval_cmds_retag(vs: Seq<VarV>, t: VarType, s: Shell)
    ensures
        eval_cmds(retag_all(vs, t), s) == eval_cmds(vs, s),
    decreases vs.len(),
{
    if vs.len() == 0 {
        assert(retag_all(vs, t) =~= Seq::<VarV>::empty());
    } else {
        lemma_eval_cmds_retag(vs.skip(1), t, s);
        assert(retag_all(vs, t).skip(1) =~= retag_all(vs.skip(1), t));
        assert(retag_all(vs, t)[0] == retag(vs[0], t));
        assert(eval_cmds(retag_all(vs, t), s) =~= eval_cmds(vs, s));
    }
}

/// The commands a render pass over `cfg` for the target shell must
/// evaluate: the values of the applicable variables marked `eval`, in
/// aggregation order. The caller runs each in the host's command
/// interpreter and hands the trimmed outputs to [`parse_config`]; a
/// command that fails aborts the pass before anything is rendered.
pub fn eval_commands(cfg: &Config, shell: &Shell) -> (r: Vec<String>)
    ensures
        strs_of(r@) == eval_cmds(spec_aggregate(cfg@), *shell),
{
    let mut out: Vec<String> = Vec::new();
    push_eval_cmds(&mut out, &cfg.path, shell);
    push_eval_cmds(&mut out, &cfg.env, shell);
    push_eval_cmds(&mut out, &cfg.abbr, shell);
    push_eval_cmds(&mut out, &cfg.alias, shell);
    proof {
        let p = retag_all(cfg@.path, VarType::Path);
        let e = retag_all(cfg@.env, VarType::Env);
        let ab = retag_all(cfg@.abbr, VarType::Abbr);
        let al = retag_all(cfg@.alias, VarType::Alias);
        lemma_eval_cmds_retag(cfg@.path, VarType::Path, *shell);
        lemma_eval_cmds_retag(cfg@.env, VarType::Env, *shell);
        lemma_eval_cmds_retag(cfg@.abbr, VarType::Abbr, *shell);
        lemma_eval_cmds_retag(cfg@.alias, VarType::Alias, *shell);
        lemma_eval_cmds_concat(p + e + ab, al, *shell);
        lemma_eval_cmds_concat(p + e, ab, *shell);
        lemma_eval_cmds_concat(p, e, *shell);
        assert(strs_of(out@) =~= eval_cmds(spec_aggregate(cfg@), *shell));
    }
    out
}

/// Render the whole configuration for the target shell.
///
/// `evals` holds the trimmed evaluator output for each command listed by
/// [`eval_commands`], in the same order. The result is the concatenation,
/// in aggregation order, of one newline-terminated line per applicable
/// variable; variables whose `shell` set excludes the target contribute
/// nothing. `None` is returned exactly when `evals` does not match the
/// commands the configuration needs, which a caller honoring
/// [`eval_commands`] never sees.
pub fn parse_config(cfg: Config, shell: &Shell, evals: &Vec<String>) -> (r: Option<String>)
    ensures
        match r {
            Some(out) => strs_of(evals@).len() == eval_cmds(spec_aggregate(cfg@), *shell).len()
                && out@ == rendered(spec_aggregate(cfg@), *shell, strs_of(evals@)),
            None => strs_of(evals@).len() != eval_cmds(spec_aggregate(cfg@), *shell).len(),
        },
{
    let needed = eval_commands(&cfg, shell);
    if needed.len() != evals.len() {
        return None;
    }
    let vars = cfg.aggregate();
    let ghost aggv = views_of(vars@);
    let ghost evsv = strs_of(evals@);
    let n = vars.len();
    let m = evals.len();
    let mut out = String::new();
    let mut i: usize = 0;
    let mut j: usize = 0;
    proof {
        assert(aggv.skip(0) =~= aggv);
        assert(evsv.skip(0) =~= evsv);
        assert(evsv.len() == eval_cmds(aggv, *shell).len());
    }
    while i < n
        invariant
            n == vars@.len(),
            aggv == views_of(vars@),
            evsv == strs_of(evals@),
            i <= n,
            m == evsv.len(),
            j <= m,
            evsv.skip(j as int).len() == eval_cmds(aggv.skip(i as int), *shell).len(),
            out@ + rendered(aggv.skip(i as int), *shell, evsv.skip(j as int)) == rendered(
                aggv,
                *shell,
                evsv,
            ),
        decreases n - i,
    {
        let ghost tailv = aggv.skip(i as int);
        proof {
            assert(tailv[0] == vars@[i as int]@);
            assert(tailv.skip(1) =~= aggv.skip(i as int + 1));
        }
        let v = &vars[i];
        if shell_applies(v, shell) {
            let line;
            if v.eval {
                proof {
                    assert(eval_cmds(tailv, *shell) =~= seq![tailv[0].val] + eval_cmds(
                        tailv.skip(1),
                        *shell,
                    ));
                    assert(evsv.skip(j as int).len() > 0);
                    assert(evsv.skip(j as int).first() == evsv[j as int]);
                    assert(evsv.skip(j as int).skip(1) =~= evsv.skip(j as int + 1));
                }
                line = crate::var::render_line(v, shell, evals[j].as_str());
                j += 1;
            } else {
                line = crate::var::render_line(v, shell, "");
                proof {
                    assert(shell_line(tailv[0], *shell, ""@) == shell_line(
                        tailv[0],
                        *shell,
                        Seq::empty(),
                    ));
                }
            }
            out.append(line.as_str());
            out.append("\n");
        }
        i += 1;
        proof {
            assert(out@ + rendered(aggv.skip(i as int), *shell, evsv.skip(j as int)) =~= rendered(
                aggv,
                *shell,
                evsv,
            ));
        }
    }
    proof {
        assert(aggv.skip(n as int) =~= Seq::<VarV>::empty());
        assert(out@ =~= rendered(spec_aggregate(cfg@), *shell, strs_of(evals@)));
    }
    Some(out)
}

} // verus!
