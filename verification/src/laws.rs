//! The properties the library guarantees, stated and proved over the
//! models its contracts use.
use vstd::prelude::*;

use crate::config::{eval_cmds, rendered, retag, spec_aggregate, spec_applicable, ConfigV};
use crate::shell::Shell;
use crate::util::{has_whitespace, quoted, spec_quote_if};
use crate::var::{resolved_value, VarType, VarV};

verus! {

/// A literal variable with quoting disabled resolves to a value
/// byte-identical to the source value. (A variable marked `eval` resolves
/// to its command's output instead, so it is left out here.)
pub proof fn lemma_quote_disabled_identity(v: VarV, ev: Seq<char>)
    requires
        v.quote == Some(false),
        !v.eval,
    ensures
        resolved_value(v, ev) == v.val,
{
}

/// With no quoting override the policy defers to whitespace-detection: a
/// literal value without whitespace resolves unchanged, and one with
/// whitespace resolves to its quoted, escaped form.
pub proof fn lemma_quote_inferred(v: VarV, ev: Seq<char>)
    requires
        v.quote is None,
        !v.eval,
    ensures
        !has_whitespace(v.val) ==> resolved_value(v, ev) == v.val,
        has_whitespace(v.val) ==> resolved_value(v, ev) == quoted(v.val),
{
}

/// The quoting policy itself is deterministic and pure: on any value it
/// either hands the value back or wraps it in the quoted, escaped form.
pub proof fn lemma_quote_policy_cases(s: Seq<char>, quote: Option<bool>)
    ensures
        spec_quote_if(s, quote) == s || spec_quote_if(s, quote) == quoted(s),
{
}

/// A variable whose shell set excludes the target shell contributes
/// nothing, wherever in the sequence it stands: neither an output line nor
/// an evaluation command.
pub proof fn lemma_filtered_entity_no_output(
    pre: Seq<VarV>,
    v: VarV,
    post: Seq<VarV>,
    s: Shell,
    evs: Seq<Seq<char>>,
)
    requires
        v.shell matches Some(set) && !set.contains(s),
    ensures
        rendered(pre + seq![v] + post, s, evs) == rendered(pre + post, s, evs),
        eval_cmds(pre + seq![v] + post, s) == eval_cmds(pre + post, s),
    decreases pre.len(),
{
    if pre.len() == 0 {
        assert(pre + seq![v] + post =~= seq![v] + post);
        assert(pre + post =~= post);
        assert((seq![v] + post)[0] == v);
        assert(!spec_applicable(v, s));
        assert((seq![v] + post).skip(1) =~= post);
    } else {
        let a = pre[0];
        let tail_evs = if spec_applicable(a, s) && a.eval {
            evs.skip(1)
        } else {
            evs
        };
        lemma_filtered_entity_no_output(pre.skip(1), v, post, s, tail_evs);
        assert((pre + seq![v] + post)[0] == a);
        assert((pre + seq![v] + post).skip(1) =~= pre.skip(1) + seq![v] + post);
        assert((pre + post)[0] == a);
        assert((pre + post).skip(1) =~= pre.skip(1) + post);
    }
}

/// Aggregation is order-preserving and length-additive: the aggregated
/// sequence is the four collections laid out in the order `path`, `env`,
/// `abbr`, `alias`, each entry tagged with its category, and its length is
/// the sum of the four collection lengths.
pub proof fn lemma_aggregate_order(c: ConfigV)
    ensures
        spec_aggregate(c).len() == c.path.len() + c.env.len() + c.abbr.len() + c.alias.len(),
        forall|i: int|
            0 <= i < c.path.len() ==> spec_aggregate(c)[i] == retag(c.path[i], VarType::Path),
        forall|i: int|
            0 <= i < c.env.len() ==> spec_aggregate(c)[c.path.len() + i] == retag(
                c.env[i],
                VarType::Env,
            ),
        forall|i: int|
            0 <= i < c.abbr.len() ==> spec_aggregate(c)[c.path.len() + c.env.len() + i] == retag(
                c.abbr[i],
                VarType::Abbr,
            ),
        forall|i: int|
            0 <= i < c.alias.len() ==> spec_aggregate(c)[c.path.len() + c.env.len() + c.abbr.len()
                + i] == retag(c.alias[i], VarType::Alias),
{
}

/// Rendering is a pure function of the configuration model, the target
/// shell and the evaluator outputs: rendering the same configuration
/// against the same target shell twice, with the same evaluator outputs,
/// yields byte-identical text.
pub proof fn lemma_render_deterministic(c1: ConfigV, c2: ConfigV, s: Shell, evs: Seq<Seq<char>>)
    requires
        c1 == c2,
    ensures
        rendered(spec_aggregate(c1), s, evs) == rendered(spec_aggregate(c2), s, evs),
{
}

} // verus!
