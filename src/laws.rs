//! Facts that relate normalization, unnormalization and unaliasing.
use vstd::prelude::*;
use crate::common::{Column, DFField, DFSchema};
use crate::expr::{same_tree, spec_unalias, Expr};
use crate::normalize::{
    all_in_set, covered_by_using, field_matches, matches_in, resolve, Resolution,
};
use crate::rewrite::{first_unresolved, normalize_changes, normalized, resolved_column, unnormalized};

verus! {

proof fn lemma_no_matches(c: Column, fs: Seq<DFField>)
    requires
        forall|j: int| 0 <= j < fs.len() ==> !field_matches(c, #[trigger] fs[j]),
    ensures
        matches_in(c, fs).len() == 0,
    decreases fs.len(),
{
    if fs.len() > 0 {
        assert(!field_matches(c, fs[fs.len() - 1]));
        lemma_no_matches(c, fs.drop_last());
    }
}

proof fn lemma_single_match(c: Column, fs: Seq<DFField>, i: int)
    requires
        0 <= i < fs.len(),
        field_matches(c, fs[i]),
        forall|j: int| 0 <= j < fs.len() && j != i ==> !field_matches(c, #[trigger] fs[j]),
    ensures
        matches_in(c, fs) == seq![fs[i]],
    decreases fs.len(),
{
    let d = fs.drop_last();
    if i == fs.len() - 1 {
        assert forall|j: int| 0 <= j < d.len() implies !field_matches(c, #[trigger] d[j]) by {
            assert(d[j] == fs[j]);
        }
        lemma_no_matches(c, d);
        assert(matches_in(c, d) =~= Seq::<DFField>::empty());
        assert(matches_in(c, fs) =~= seq![fs[i]]);
    } else {
        assert forall|j: int| 0 <= j < d.len() && j != i implies !field_matches(c, #[trigger] d[j]) by {
            assert(d[j] == fs[j]);
        }
        assert(d[i] == fs[i]);
        lemma_single_match(c, d, i);
        assert(!field_matches(c, fs[fs.len() - 1]));
    }
}

/// A qualified column that names a field of the schema it was resolved
/// against normalizes to itself, and the rewrite reports no change.
pub proof fn law_normalize_qualified_is_identity(
    c: Column,
    s: DFSchema,
    groups: Seq<Seq<DFField>>,
    using: Seq<Seq<Column>>,
    i: int,
)
    requires
        s.wf(),
        c.relation is Some,
        0 <= i < s.fields@.len(),
        s.fields@[i].column() == c,
        groups.len() > 0,
        groups[0] == s.fields@,
    ensures
        first_unresolved(Expr::Column(c), groups, using) is None,
        normalized(Expr::Column(c), groups, using) == Expr::Column(c),
        !normalize_changes(Expr::Column(c), groups, using),
{
    let fs = s.fields@;
    assert forall|j: int| 0 <= j < fs.len() && j != i implies !field_matches(c, #[trigger] fs[j]) by {
        if j < i {
            assert(fs[j].column().view() != fs[i].column().view());
        } else {
            assert(fs[i].column().view() != fs[j].column().view());
        }
    }
    lemma_single_match(c, fs, i);
    assert(resolve(c, groups, using) == Resolution::Found(fs[i]));
}

/// Several matches in one scope that a single USING set holds resolve to the
/// first of them instead of being ambiguous.
pub proof fn law_using_columns_not_ambiguous(
    c: Column,
    groups: Seq<Seq<DFField>>,
    using: Seq<Seq<Column>>,
    u: int,
)
    requires
        groups.len() > 0,
        matches_in(c, groups[0]).len() > 0,
        0 <= u < using.len(),
        all_in_set(matches_in(c, groups[0]), using[u]),
    ensures
        resolve(c, groups, using) == Resolution::Found(matches_in(c, groups[0])[0]),
{
    assert(covered_by_using(matches_in(c, groups[0]), using));
}

proof fn lemma_matches_keep_name(c: Column, fs: Seq<DFField>)
    ensures
        forall|k: int| 0 <= k < matches_in(c, fs).len() ==> field_matches(c, #[trigger] matches_in(c, fs)[k]),
    decreases fs.len(),
{
    if fs.len() > 0 {
        let d = fs.drop_last();
        lemma_matches_keep_name(c, d);
        let m = matches_in(c, fs);
        assert forall|k: int| 0 <= k < m.len() implies field_matches(c, #[trigger] m[k]) by {
            if k < matches_in(c, d).len() {
                assert(m[k] == matches_in(c, d)[k]);
            }
        }
    }
}

proof fn lemma_resolved_name(c: Column, groups: Seq<Seq<DFField>>, using: Seq<Seq<Column>>)
    requires
        resolve(c, groups, using) is Found,
    ensures
        resolve(c, groups, using)->Found_0.name@ == c.name@,
    decreases groups.len(),
{
    let m = matches_in(c, groups[0]);
    lemma_matches_keep_name(c, groups[0]);
    if m.len() == 0 {
        lemma_resolved_name(c, groups.drop_first(), using);
    } else {
        assert(field_matches(c, m[0]));
    }
}

/// Whether `e` holds an outer reference.
pub open spec fn has_outer_reference(e: Expr) -> bool
    decreases e,
{
    match e {
        Expr::OuterReferenceColumn(..) => true,
        Expr::Alias { expr, .. } => has_outer_reference(*expr),
        Expr::Cast { expr, .. } => has_outer_reference(*expr),
        Expr::Unnest { expr } => has_outer_reference(*expr),
        Expr::BinaryExpr { left, right, .. } => has_outer_reference(*left) || has_outer_reference(*right),
        _ => false,
    }
}

proof fn lemma_bare_form_kept(e: Expr, groups: Seq<Seq<DFField>>, using: Seq<Seq<Column>>)
    requires
        first_unresolved(e, groups, using) is None,
        !has_outer_reference(e),
    ensures
        same_tree(unnormalized(normalized(e, groups, using)), unnormalized(e)),
    decreases e,
{
    match e {
        Expr::Column(c) => lemma_resolved_name(c, groups, using),
        Expr::Alias { expr, .. } => lemma_bare_form_kept(*expr, groups, using),
        Expr::Cast { expr, .. } => lemma_bare_form_kept(*expr, groups, using),
        Expr::Unnest { expr } => lemma_bare_form_kept(*expr, groups, using),
        Expr::BinaryExpr { left, right, .. } => {
            lemma_bare_form_kept(*left, groups, using);
            lemma_bare_form_kept(*right, groups, using);
        },
        _ => {},
    }
}

/// Where every column of `e` resolves, unnormalizing the normalized
/// expression gives back the unaliased expression in bare-name form.
/// Outer references are left out: normalizing qualifies them, and
/// unnormalizing leaves them as they are.
pub proof fn law_unnormalize_inverts_normalize(
    e: Expr,
    groups: Seq<Seq<DFField>>,
    using: Seq<Seq<Column>>,
)
    requires
        first_unresolved(e, groups, using) is None,
        !(e is Alias),
        !has_outer_reference(e),
    ensures
        same_tree(unnormalized(normalized(e, groups, using)), unnormalized(spec_unalias(e))),
{
    lemma_bare_form_kept(e, groups, using);
}

/// No scope holds two fields with the same qualifier and name.
pub open spec fn scopes_wf(scopes: Seq<Seq<DFField>>) -> bool {
    forall|k: int, i: int, j: int|
        0 <= k < scopes.len() && 0 <= i < j < scopes[k].len() ==> #[trigger] scopes[k][i].column().view()
            != #[trigger] scopes[k][j].column().view()
}

proof fn lemma_match_in_fields(c: Column, fs: Seq<DFField>, k: int)
    requires
        0 <= k < matches_in(c, fs).len(),
    ensures
        exists|i: int| 0 <= i < fs.len() && #[trigger] fs[i] == matches_in(c, fs)[k],
    decreases fs.len(),
{
    let d = fs.drop_last();
    if k < matches_in(c, d).len() {
        lemma_match_in_fields(c, d, k);
        let i = choose|i: int| 0 <= i < d.len() && #[trigger] d[i] == matches_in(c, d)[k];
        assert(fs[i] == d[i]);
    } else {
        assert(fs[fs.len() - 1] == matches_in(c, fs)[k]);
    }
}

proof fn lemma_narrower_empty(c: Column, q: Column, fs: Seq<DFField>)
    requires
        matches_in(c, fs).len() == 0,
        forall|x: DFField| field_matches(q, x) ==> field_matches(c, x),
    ensures
        matches_in(q, fs).len() == 0,
    decreases fs.len(),
{
    if fs.len() > 0 {
        lemma_narrower_empty(c, q, fs.drop_last());
    }
}

proof fn lemma_resolve_again(c: Column, scopes: Seq<Seq<DFField>>, using: Seq<Seq<Column>>)
    requires
        scopes_wf(scopes),
        resolve(c, scopes, using) is Found,
    ensures
        resolve(resolved_column(c, scopes, using), scopes, using) == resolve(c, scopes, using),
    decreases scopes.len(),
{
    let f = resolve(c, scopes, using)->Found_0;
    let q = f.column();
    lemma_resolved_name(c, scopes, using);
    let m = matches_in(c, scopes[0]);
    assert forall|x: DFField| field_matches(q, x) implies field_matches(c, x) by {
        if c.relation is Some {
            lemma_found_matches(c, scopes, using);
        }
    }
    lemma_found_matches(c, scopes, using);
    if q.relation is None {
        assert(c.relation is None);
        assert forall|x: DFField| field_matches(q, x) == field_matches(c, x) by {}
        lemma_same_resolve(c, q, scopes, using);
    } else if m.len() == 0 {
        lemma_narrower_empty(c, q, scopes[0]);
        let rest = scopes.drop_first();
        assert forall|k: int, i: int, j: int|
            0 <= k < rest.len() && 0 <= i < j < rest[k].len() implies #[trigger] rest[k][i].column().view()
                != #[trigger] rest[k][j].column().view() by {
            assert(rest[k] == scopes[k + 1]);
        }
        lemma_resolve_again(c, rest, using);
    } else {
        lemma_match_in_fields(c, scopes[0], 0);
        let fs = scopes[0];
        let i = choose|i: int| 0 <= i < fs.len() && #[trigger] fs[i] == m[0];
        assert(f == m[0]);
        lemma_matches_keep_name(c, fs);
        assert(field_matches(c, m[0]));
        assert forall|j: int| 0 <= j < fs.len() && j != i implies !field_matches(q, #[trigger] fs[j]) by {
            if field_matches(q, fs[j]) {
                if j < i {
                    assert(fs[j].column().view() != fs[i].column().view());
                } else {
                    assert(fs[i].column().view() != fs[j].column().view());
                }
            }
        }
        lemma_single_match(q, fs, i);
    }
}

proof fn lemma_found_matches(c: Column, scopes: Seq<Seq<DFField>>, using: Seq<Seq<Column>>)
    requires
        resolve(c, scopes, using) is Found,
    ensures
        field_matches(c, resolve(c, scopes, using)->Found_0),
    decreases scopes.len(),
{
    let m = matches_in(c, scopes[0]);
    lemma_matches_keep_name(c, scopes[0]);
    if m.len() == 0 {
        lemma_found_matches(c, scopes.drop_first(), using);
    } else {
        assert(field_matches(c, m[0]));
    }
}

proof fn lemma_same_matches(c: Column, q: Column, fs: Seq<DFField>)
    requires
        forall|x: DFField| field_matches(q, x) == field_matches(c, x),
    ensures
        matches_in(q, fs) == matches_in(c, fs),
    decreases fs.len(),
{
    if fs.len() > 0 {
        lemma_same_matches(c, q, fs.drop_last());
    }
}

proof fn lemma_same_resolve(c: Column, q: Column, scopes: Seq<Seq<DFField>>, using: Seq<Seq<Column>>)
    requires
        forall|x: DFField| field_matches(q, x) == field_matches(c, x),
    ensures
        resolve(q, scopes, using) == resolve(c, scopes, using),
    decreases scopes.len(),
{
    if scopes.len() > 0 {
        lemma_same_matches(c, q, scopes[0]);
        lemma_same_resolve(c, q, scopes.drop_first(), using);
    }
}

/// Where no scope holds two fields with the same qualifier and name,
/// normalizing an expression that normalizes gives an expression that
/// normalizes to itself.
pub proof fn law_normalize_is_idempotent(e: Expr, scopes: Seq<Seq<DFField>>, using: Seq<Seq<Column>>)
    requires
        scopes_wf(scopes),
        first_unresolved(e, scopes, using) is None,
    ensures
        first_unresolved(normalized(e, scopes, using), scopes, using) is None,
        normalized(normalized(e, scopes, using), scopes, using) == normalized(e, scopes, using),
    decreases e,
{
    match e {
        Expr::Column(c) => lemma_resolve_again(c, scopes, using),
        Expr::OuterReferenceColumn(_, c) => lemma_resolve_again(c, scopes, using),
        Expr::Alias { expr, .. } => law_normalize_is_idempotent(*expr, scopes, using),
        Expr::Cast { expr, .. } => law_normalize_is_idempotent(*expr, scopes, using),
        Expr::Unnest { expr } => law_normalize_is_idempotent(*expr, scopes, using),
        Expr::BinaryExpr { left, right, .. } => {
            law_normalize_is_idempotent(*left, scopes, using);
            law_normalize_is_idempotent(*right, scopes, using);
        },
        _ => {},
    }
}

} // verus!
