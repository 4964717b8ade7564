//! Properties of the presentation views that hold across all items.

use vstd::prelude::*;

use crate::config::RenderConfig;
use crate::item::{
    hover_of, hover_view, label_of, label_param, label_params, label_params_upto, label_view,
    snippet_of, snippet_view, Item, ItemKind,
};
use crate::param::{keep_param, kept_params, snippet_param, snippet_params_upto, Param};

verus! {

/// Character `c` occurs somewhere in `s`.
pub open spec fn has_char(s: Seq<char>, c: char) -> bool {
    exists|i: int| 0 <= i < s.len() && s[i] == c
}

/// `sub` occurs as a contiguous substring of `s`.
pub open spec fn has_substr(s: Seq<char>, sub: Seq<char>) -> bool {
    exists|i: int, j: int|
        0 <= i <= j <= s.len() && j - i == sub.len() && s.subrange(i, j) == sub
}

/// A character occurs in a concatenation exactly when it occurs in one of the
/// two parts.
proof fn lemma_has_char_concat(a: Seq<char>, b: Seq<char>, c: char)
    ensures
        has_char(a + b, c) <==> (has_char(a, c) || has_char(b, c)),
{
    if has_char(a, c) {
        let i = choose|i: int| 0 <= i < a.len() && a[i] == c;
        assert((a + b)[i] == c);
    }
    if has_char(b, c) {
        let i = choose|i: int| 0 <= i < b.len() && b[i] == c;
        assert((a + b)[a.len() + i] == c);
    }
    if has_char(a + b, c) {
        let i = choose|i: int| 0 <= i < (a + b).len() && (a + b)[i] == c;
        if i < a.len() {
            assert(a[i] == c);
        } else {
            assert(b[i - a.len()] == c);
        }
    }
}

/// Whether every parameter of a list is free of the character `$` in its name
/// and in its default text.
pub open spec fn params_dollar_free(ps: Seq<Param>) -> bool {
    forall|i: int|
        0 <= i < ps.len() ==> !has_char(ps[i].name@, '$') && (ps[i].default is Some ==> !has_char(
            ps[i].default->0@,
            '$',
        ))
}

/// The joined parameter part of a label contains `$` only if some parameter
/// text does.
proof fn lemma_label_params_upto_dollar_free(ps: Seq<Param>, n: int)
    requires
        n <= ps.len(),
        params_dollar_free(ps),
    ensures
        !has_char(label_params_upto(ps, n), '$'),
    decreases n,
{
    reveal_strlit(", ");
    reveal_strlit("=");
    if n <= 0 {
    } else {
        lemma_label_params_upto_dollar_free(ps, n - 1);
        let sep: Seq<char> = if n - 1 > 0 {
            ", "@
        } else {
            Seq::<char>::empty()
        };
        lemma_has_char_concat(label_params_upto(ps, n - 1), sep, '$');
        match ps[n - 1].default {
            Some(d) => {
                lemma_has_char_concat(ps[n - 1].name@, "="@, '$');
                lemma_has_char_concat(ps[n - 1].name@ + "="@, d@, '$');
            },
            None => {},
        }
        lemma_has_char_concat(
            label_params_upto(ps, n - 1) + sep,
            label_param(ps[n - 1]),
            '$',
        );
    }
}

/// The label never contains snippet markup of its own: when the declaration's
/// name and parameter texts are free of the character `$`, the label contains
/// neither an editable placeholder opening `${` nor the final cursor marker
/// `$0`, whatever the item variant and flag values.
pub proof fn lemma_label_no_snippet_markup(item: Item)
    requires
        !has_char(item.name@, '$'),
        (match item.kind {
            ItemKind::Function { params, .. } => params_dollar_free(params@),
            ItemKind::Module { params, .. } => params_dollar_free(params@),
            _ => true,
        }),
    ensures
        !has_substr(label_of(item), "${"@),
        !has_substr(label_of(item), "$0"@),
{
    reveal_strlit("(");
    reveal_strlit(")");
    reveal_strlit("${");
    reveal_strlit("$0");
    let l = label_of(item);
    match item.kind {
        ItemKind::Function { params, .. } => {
            lemma_label_params_upto_dollar_free(params@, params@.len() as int);
            lemma_has_char_concat(item.name@, "("@, '$');
            lemma_has_char_concat(item.name@ + "("@, label_params(params@), '$');
            lemma_has_char_concat(item.name@ + "("@ + label_params(params@), ")"@, '$');
        },
        ItemKind::Module { params, .. } => {
            lemma_label_params_upto_dollar_free(params@, params@.len() as int);
            lemma_has_char_concat(item.name@, "("@, '$');
            lemma_has_char_concat(item.name@ + "("@, label_params(params@), '$');
            lemma_has_char_concat(item.name@ + "("@ + label_params(params@), ")"@, '$');
        },
        _ => {},
    }
    assert(!has_char(l, '$'));
    if has_substr(l, "${"@) {
        let (i, j) = choose|i: int, j: int|
            0 <= i <= j <= l.len() && j - i == "${"@.len() && l.subrange(i, j) == "${"@;
        assert(l.subrange(i, j)[0] == l[i]);
        assert(l[i] == '$');
    }
    if has_substr(l, "$0"@) {
        let (i, j) = choose|i: int, j: int|
            0 <= i <= j <= l.len() && j - i == "$0"@.len() && l.subrange(i, j) == "$0"@;
        assert(l.subrange(i, j)[0] == l[i]);
        assert(l[i] == '$');
    }
}

/// A zero-parameter function snippet is the bare call followed by the
/// terminator and the final cursor.
pub proof fn lemma_function_snippet_no_params(item: Item, cfg: RenderConfig)
    requires
        (item.kind matches ItemKind::Function { params, .. } && params@.len() == 0),
    ensures
        snippet_of(item, cfg) == item.name@ + "();$0"@,
{
    reveal_strlit("(");
    reveal_strlit(");$0");
    reveal_strlit("();$0");
    let params = item.kind->Function_params;
    assert(kept_params(params@, cfg.ignore_defaults) =~= Seq::<Param>::empty());
    assert(snippet_of(item, cfg) =~= item.name@ + "();$0"@);
}

/// An operator module with one plain parameter and hidden parameter names
/// renders as a call around a single placeholder, followed by a space and the
/// final cursor, with no statement terminator.
pub proof fn lemma_operator_module_snippet(item: Item, cfg: RenderConfig)
    requires
        (item.kind matches ItemKind::Module { flags, params } && flags.spec_is_operator()
            && flags.spec_ignores_param_name() && params@.len() == 1 && params@[0].default is None),
    ensures
        snippet_of(item, cfg) == item.name@ + "(${1:"@ + item.kind->Module_params@[0].name@
            + "}) $0"@,
{
    reveal_strlit("(");
    reveal_strlit("${");
    reveal_strlit(":");
    reveal_strlit("}");
    reveal_strlit(") $0");
    reveal_strlit("(${1:");
    reveal_strlit("}) $0");
    let params = item.kind->Module_params;
    let flags = item.kind->Module_flags;
    let igd = cfg.ignore_defaults;
    let p = params@[0];
    assert(params@.drop_last() =~= Seq::<Param>::empty());
    assert(params@.last() == p);
    let kept = kept_params(params@, igd);
    assert(keep_param(p, igd));
    assert(kept_params(Seq::<Param>::empty(), igd) =~= Seq::<Param>::empty());
    assert(kept == kept_params(params@.drop_last(), igd) + seq![params@.last()]);
    assert(kept =~= seq![p]);
    assert(snippet_params_upto(kept, 0, true, igd) =~= Seq::<char>::empty());
    assert(snippet_params_upto(kept, 1, true, igd) =~= snippet_param(p, 1, true, igd));
    assert(crate::decimal::dec_rep(1) =~= seq!['1']);
    assert(snippet_of(item, cfg) =~= item.name@ + "(${1:"@ + p.name@ + "}) $0"@);
}

/// A memoized snippet is stable: once an accessor has stored the snippet it
/// returned, every later call under the same configuration returns the same
/// string.
pub proof fn lemma_snippet_memo_stable(item: Item, stored: String, cfg: RenderConfig)
    requires
        stored@ == snippet_view(item, cfg),
    ensures
        snippet_view((Item { snippet: Some(stored), ..item }), cfg) == snippet_view(item, cfg),
{
}

/// A memoized label is stable: once an accessor has stored the label it
/// returned, every later call returns the same string.
pub proof fn lemma_label_memo_stable(item: Item, stored: String)
    requires
        stored@ == label_view(item),
    ensures
        label_view((Item { label: Some(stored), ..item })) == label_view(item),
{
}

/// A memoized hover is stable: once an accessor has stored the hover string
/// it returned, every later call returns the same string.
pub proof fn lemma_hover_memo_stable(item: Item, stored: String)
    requires
        stored@ == hover_view(item),
    ensures
        hover_view((Item { hover: Some(stored), ..item })) == hover_view(item),
{
}

/// Memoizing the label does not change the hover string: the hover computed
/// against a stored label equals the hover computed from scratch.
pub proof fn lemma_hover_unaffected_by_label_memo(item: Item, stored: String)
    requires
        stored@ == label_view(item),
    ensures
        hover_of((Item { label: Some(stored), ..item })) == hover_of(item),
{
}

} // verus!
