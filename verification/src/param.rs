//! Formal parameters of module and function declarations.
//!
//! `parse_declaration` turns a parameter-list node into the ordered list of
//! parameters it declares; `make_snippet` renders a parameter list as the
//! argument part of an insertable call snippet.

use vstd::prelude::*;

use crate::config::RenderConfig;
use crate::decimal::{dec_rep, dec_string};
use crate::syntax::{first_with_field, FieldName, NodeKind, SyntaxNode, TextRange};

verus! {

/// One declared formal parameter: its name, the raw source text of its
/// default-value expression if it has one, and the range used for navigation
/// (for a defaulted parameter, the range of the default expression).
pub struct Param {
    pub name: String,
    pub default: Option<String>,
    pub range: TextRange,
}

/// The parameters that one child of a parameter-list node declares: an
/// `identifier` child declares a plain parameter, an `assignment` child with
/// both a left and a right field declares a defaulted parameter, and every
/// other child — `special_variable` included — declares nothing.
pub open spec fn param_of_child(c: SyntaxNode) -> Seq<Param> {
    if c.kind == NodeKind::Identifier {
        seq![(Param { name: c.text, default: None, range: c.range })]
    } else if c.kind == NodeKind::Assignment {
        match (
            first_with_field(c.children@, FieldName::Left),
            first_with_field(c.children@, FieldName::Right),
        ) {
            (Some(l), Some(r)) => seq![
                (Param { name: l.text, default: Some(r.text), range: r.range }),
            ],
            _ => Seq::empty(),
        }
    } else {
        Seq::empty()
    }
}

/// The parameters declared by a sequence of children, in source order.
pub open spec fn params_of_children(cs: Seq<SyntaxNode>) -> Seq<Param>
    decreases cs.len(),
{
    if cs.len() == 0 {
        Seq::empty()
    } else {
        params_of_children(cs.drop_last()) + param_of_child(cs.last())
    }
}

/// Whether one child declares a parameter.
pub open spec fn yields_param(c: SyntaxNode) -> bool {
    ||| c.kind == NodeKind::Identifier
    ||| (c.kind == NodeKind::Assignment && first_with_field(c.children@, FieldName::Left) is Some
        && first_with_field(c.children@, FieldName::Right) is Some)
}

/// How many children of a sequence declare a parameter.
pub open spec fn yielding_count(cs: Seq<SyntaxNode>) -> int
    decreases cs.len(),
{
    if cs.len() == 0 {
        0
    } else {
        yielding_count(cs.drop_last()) + (if yields_param(cs.last()) {
            1int
        } else {
            0int
        })
    }
}

/// Extraction yields exactly one parameter per plain-identifier child and per
/// well-formed assignment child, and nothing for any other child.
pub proof fn lemma_extraction_count(cs: Seq<SyntaxNode>)
    ensures
        params_of_children(cs).len() == yielding_count(cs),
    decreases cs.len(),
{
    if cs.len() > 0 {
        lemma_extraction_count(cs.drop_last());
    }
}

/// Extraction preserves source order: the parameters of two runs of children
/// put end to end are the parameters of the first run followed by those of
/// the second.
pub proof fn lemma_extraction_order(cs1: Seq<SyntaxNode>, cs2: Seq<SyntaxNode>)
    ensures
        params_of_children(cs1 + cs2) == params_of_children(cs1) + params_of_children(cs2),
    decreases cs2.len(),
{
    if cs2.len() == 0 {
        assert(cs1 + cs2 =~= cs1);
        assert(params_of_children(cs1) + params_of_children(cs2) =~= params_of_children(cs1));
    } else {
        lemma_extraction_order(cs1, cs2.drop_last());
        assert((cs1 + cs2).drop_last() =~= cs1 + cs2.drop_last());
        assert((cs1 + cs2).last() == cs2.last());
        assert(params_of_children(cs1 + cs2) =~= params_of_children(cs1) + params_of_children(
            cs2,
        ));
    }
}

/// A `special_variable` child never declares a parameter.
pub proof fn lemma_special_variable_no_param(c: SyntaxNode)
    requires
        c.kind == NodeKind::SpecialVariable,
    ensures
        param_of_child(c).len() == 0,
{
}

/// Whether a parameter survives into the generated call: it has no default,
/// or defaulted parameters are being spelled out.
pub open spec fn keep_param(p: Param, ignore_defaults: bool) -> bool {
    p.default is None || ignore_defaults
}

/// The parameters that survive into the generated call, in order.
pub open spec fn kept_params(ps: Seq<Param>, ignore_defaults: bool) -> Seq<Param>
    decreases ps.len(),
{
    if ps.len() == 0 {
        Seq::empty()
    } else {
        kept_params(ps.drop_last(), ignore_defaults) + (if keep_param(ps.last(), ignore_defaults) {
            seq![ps.last()]
        } else {
            Seq::empty()
        })
    }
}

/// The snippet text of one surviving parameter, carrying tab stop `idx`:
/// a defaulted parameter that is spelled out becomes plain `name = default`
/// text; otherwise the parameter becomes an editable placeholder, with its
/// name outside the placeholder unless names are being omitted.
pub open spec fn snippet_param(p: Param, idx: int, ignore_name: bool, ignore_defaults: bool) -> Seq<
    char,
> {
    if ignore_defaults && p.default is Some {
        p.name@ + " = "@ + p.default->0@
    } else if ignore_name {
        "${"@ + dec_rep(idx as nat) + ":"@ + p.name@ + "}"@
    } else {
        p.name@ + " = ${"@ + dec_rep(idx as nat) + ":"@ + p.name@ + "}"@
    }
}

/// The snippet text of the first `n` surviving parameters, numbered from 1
/// and joined with `", "`.
pub open spec fn snippet_params_upto(
    ps: Seq<Param>,
    n: int,
    ignore_name: bool,
    ignore_defaults: bool,
) -> Seq<char>
    decreases n,
{
    if n <= 0 {
        Seq::empty()
    } else {
        snippet_params_upto(ps, n - 1, ignore_name, ignore_defaults) + (if n - 1 > 0 {
            ", "@
        } else {
            Seq::<char>::empty()
        }) + snippet_param(ps[n - 1], n, ignore_name, ignore_defaults)
    }
}

/// The argument part of a call snippet for a parameter list: the surviving
/// parameters, numbered 1 upward in order, rendered and joined with `", "`.
pub open spec fn params_snippet(
    ps: Seq<Param>,
    ignore_name: bool,
    ignore_defaults: bool,
) -> Seq<char> {
    snippet_params_upto(
        kept_params(ps, ignore_defaults),
        kept_params(ps, ignore_defaults).len() as int,
        ignore_name,
        ignore_defaults,
    )
}

/// Appending one more parameter keeps or drops it at the end of the
/// surviving list.
proof fn lemma_kept_push(ps: Seq<Param>, p: Param, ignore_defaults: bool)
    ensures
        kept_params(ps.push(p), ignore_defaults) == kept_params(ps, ignore_defaults) + (
        if keep_param(p, ignore_defaults) {
            seq![p]
        } else {
            Seq::<Param>::empty()
        }),
{
    assert(ps.push(p).drop_last() =~= ps);
    assert(ps.push(p).last() == p);
}

/// The snippet of the first `n` parameters reads nothing past position `n`.
proof fn lemma_snippet_upto_prefix(
    ps1: Seq<Param>,
    ps2: Seq<Param>,
    n: int,
    ignore_name: bool,
    ignore_defaults: bool,
)
    requires
        n <= ps1.len(),
        n <= ps2.len(),
        forall|i: int| 0 <= i < n ==> ps1[i] == ps2[i],
    ensures
        snippet_params_upto(ps1, n, ignore_name, ignore_defaults) == snippet_params_upto(
            ps2,
            n,
            ignore_name,
            ignore_defaults,
        ),
    decreases n,
{
    if n > 0 {
        lemma_snippet_upto_prefix(ps1, ps2, n - 1, ignore_name, ignore_defaults);
    }
}

/// Renders the snippet text of one surviving parameter at tab stop `idx`.
fn render_snippet_param(p: &Param, idx: usize, ignore_name: bool, ignore_defaults: bool) -> (e:
    String)
    requires
        idx >= 1,
    ensures
        e@ == snippet_param(*p, idx as int, ignore_name, ignore_defaults),
{
    let mut e = String::new();
    if ignore_defaults && p.default.is_some() {
        e.append(p.name.as_str());
        e.append(" = ");
        e.append(p.default.as_ref().unwrap().as_str());
    } else if ignore_name {
        e.append("${");
        let d = dec_string(idx);
        e.append(d.as_str());
        e.append(":");
        e.append(p.name.as_str());
        e.append("}");
    } else {
        e.append(p.name.as_str());
        e.append(" = ${");
        let d = dec_string(idx);
        e.append(d.as_str());
        e.append(":");
        e.append(p.name.as_str());
        e.append("}");
    }
    proof {
        assert(e@ =~= snippet_param(*p, idx as int, ignore_name, ignore_defaults));
    }
    e
}

impl Param {
    /// Extracts the ordered parameter list that a parameter-list node
    /// declares. Children that declare nothing are skipped silently.
    pub fn parse_declaration(node: &SyntaxNode) -> (ps: Vec<Param>)
        ensures
            ps@ == params_of_children(node.children@),
    {
        let mut ps: Vec<Param> = Vec::new();
        let n = node.children.len();
        for i in 0..n
            invariant
                n == node.children.len(),
                ps@ == params_of_children(node.children@.subrange(0, i as int)),
        {
            let c = &node.children[i];
            match c.kind {
                NodeKind::Identifier => {
                    ps.push(Param { name: c.text.clone(), default: None, range: c.range });
                },
                NodeKind::Assignment => {
                    let left = c.child_by_field(FieldName::Left);
                    match left {
                        Some(l) => {
                            let right = c.child_by_field(FieldName::Right);
                            match right {
                                Some(r) => {
                                    ps.push(
                                        Param {
                                            name: l.text.clone(),
                                            default: Some(r.text.clone()),
                                            range: r.range,
                                        },
                                    );
                                },
                                None => {},
                            }
                        },
                        None => {},
                    }
                },
                _ => {},
            }
            proof {
                let pre = node.children@.subrange(0, i as int);
                let cur = node.children@[i as int];
                assert(node.children@.subrange(0, i + 1) =~= pre.push(cur));
                assert(pre.push(cur).drop_last() =~= pre);
                assert(pre.push(cur).last() == cur);
                assert(ps@ =~= params_of_children(node.children@.subrange(0, i + 1)));
            }
        }
        proof {
            assert(node.children@.subrange(0, n as int) =~= node.children@);
        }
        ps
    }

    /// Renders the argument part of a call snippet for `params`: a parameter
    /// survives if it has no default or defaults are spelled out; survivors
    /// are numbered 1 upward and joined with `", "`.
    pub fn make_snippet(params: &Vec<Param>, ignore_name: bool, cfg: &RenderConfig) -> (s: String)
        ensures
            s@ == params_snippet(params@, ignore_name, cfg.ignore_defaults),
    {
        let igd = cfg.ignore_defaults;
        let mut out = String::new();
        let mut k: usize = 0;
        let n = params.len();
        for j in 0..n
            invariant
                n == params.len(),
                igd == cfg.ignore_defaults,
                k == kept_params(params@.subrange(0, j as int), igd).len(),
                k <= j,
                out@ == snippet_params_upto(
                    kept_params(params@.subrange(0, j as int), igd),
                    k as int,
                    ignore_name,
                    igd,
                ),
        {
            let ghost pre = params@.subrange(0, j as int);
            let ghost kept_pre = kept_params(pre, igd);
            let p = &params[j];
            if p.default.is_none() || igd {
                k += 1;
                if k > 1 {
                    out.append(", ");
                }
                let e = render_snippet_param(p, k, ignore_name, igd);
                out.append(e.as_str());
            }
            proof {
                let cur = params@[j as int];
                assert(params@.subrange(0, j + 1) =~= pre.push(cur));
                lemma_kept_push(pre, cur, igd);
                let kept_post = kept_params(pre.push(cur), igd);
                lemma_snippet_upto_prefix(
                    kept_pre,
                    kept_post,
                    kept_pre.len() as int,
                    ignore_name,
                    igd,
                );
                if keep_param(cur, igd) {
                    assert(kept_post[kept_post.len() - 1] == cur);
                    assert(out@ =~= snippet_params_upto(kept_post, k as int, ignore_name, igd));
                } else {
                    assert(kept_post =~= kept_pre);
                }
            }
        }
        proof {
            assert(params@.subrange(0, n as int) =~= params@);
        }
        out
    }
}

} // verus!
