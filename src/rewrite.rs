//! Rewrites of the column references in an expression tree.
use vstd::prelude::*;
use crate::common::{Column, DFSchema, RewriteError};
use crate::expr::Expr;
use crate::common::DFField;
use crate::normalize::{resolve, resolution_error, scopes_of, sets_of, Resolution};
use crate::tree::Transformed;
use crate::expr::Sort;
use crate::names::schema_name;
use crate::normalize::scope_fields;
use crate::plan::{plan_schema, LogicalPlan};

verus! {

/// The column that `c` resolves to, or `c` itself where it does not resolve.
pub open spec fn resolved_column(c: Column, groups: Seq<Seq<DFField>>, using: Seq<Seq<Column>>) -> Column {
    match resolve(c, groups, using) {
        Resolution::Found(f) => f.column(),
        _ => c,
    }
}

/// The first column reference, left to right, that does not resolve.
pub open spec fn first_unresolved(e: Expr, groups: Seq<Seq<DFField>>, using: Seq<Seq<Column>>) -> Option<Column>
    decreases e,
{
    match e {
        Expr::Column(c) => if resolve(c, groups, using) is Found { None } else { Some(c) },
        Expr::OuterReferenceColumn(_, c) => if resolve(c, groups, using) is Found { None } else { Some(c) },
        Expr::Alias { expr, .. } => first_unresolved(*expr, groups, using),
        Expr::Cast { expr, .. } => first_unresolved(*expr, groups, using),
        Expr::Unnest { expr } => first_unresolved(*expr, groups, using),
        Expr::BinaryExpr { left, right, .. } => match first_unresolved(*left, groups, using) {
            Some(c) => Some(c),
            None => first_unresolved(*right, groups, using),
        },
        _ => None,
    }
}

/// The expression with every column reference, outer references included,
/// replaced by the column it resolves to.
pub open spec fn normalized(e: Expr, groups: Seq<Seq<DFField>>, using: Seq<Seq<Column>>) -> Expr
    decreases e,
{
    match e {
        Expr::Column(c) => Expr::Column(resolved_column(c, groups, using)),
        Expr::OuterReferenceColumn(t, c) => Expr::OuterReferenceColumn(t, resolved_column(c, groups, using)),
        Expr::Alias { expr, relation, name } => Expr::Alias {
            expr: Box::new(normalized(*expr, groups, using)),
            relation,
            name,
        },
        Expr::Cast { expr, data_type } => Expr::Cast {
            expr: Box::new(normalized(*expr, groups, using)),
            data_type,
        },
        Expr::Unnest { expr } => Expr::Unnest { expr: Box::new(normalized(*expr, groups, using)) },
        Expr::BinaryExpr { left, op, right } => Expr::BinaryExpr {
            left: Box::new(normalized(*left, groups, using)),
            op,
            right: Box::new(normalized(*right, groups, using)),
        },
        _ => e,
    }
}

/// Whether normalizing changes some column reference of `e`.
pub open spec fn normalize_changes(e: Expr, groups: Seq<Seq<DFField>>, using: Seq<Seq<Column>>) -> bool
    decreases e,
{
    match e {
        Expr::Column(c) => resolved_column(c, groups, using).view() != c.view(),
        Expr::OuterReferenceColumn(_, c) => resolved_column(c, groups, using).view() != c.view(),
        Expr::Alias { expr, .. } => normalize_changes(*expr, groups, using),
        Expr::Cast { expr, .. } => normalize_changes(*expr, groups, using),
        Expr::Unnest { expr } => normalize_changes(*expr, groups, using),
        Expr::BinaryExpr { left, right, .. } => normalize_changes(*left, groups, using)
            || normalize_changes(*right, groups, using),
        _ => false,
    }
}

/// What normalizing `e` returns: the normalized tree, flagged as changed iff
/// some reference changed, or the error of the first column that does not resolve.
pub open spec fn normalize_outcome(
    e: Expr,
    groups: Seq<Seq<DFField>>,
    using: Seq<Seq<Column>>,
    r: Result<Transformed<Expr>, RewriteError>,
) -> bool {
    match r {
        Ok(t) => first_unresolved(e, groups, using) is None && t.data == normalized(e, groups, using)
            && t.transformed == normalize_changes(e, groups, using),
        Err(err) => first_unresolved(e, groups, using) matches Some(c) && resolution_error(
            c,
            groups,
            using,
            err,
        ),
    }
}

fn normalize_column(c: Column, schemas: &Vec<Vec<DFSchema>>, using_columns: &Vec<Vec<Column>>) -> (r:
    Result<(Column, bool), RewriteError>)
    ensures
        match r {
            Ok((col, changed)) => resolve(c, scopes_of(schemas@), sets_of(using_columns@)) is Found && col
                == resolved_column(c, scopes_of(schemas@), sets_of(using_columns@)) && changed == (col.view() != c.view()),
            Err(err) => !(resolve(c, scopes_of(schemas@), sets_of(using_columns@)) is Found) && resolution_error(
                c,
                scopes_of(schemas@),
                sets_of(using_columns@),
                err,
            ),
        },
{
    let before = c.duplicate();
    match c.normalize_with_schemas_and_ambiguity_check(schemas, using_columns) {
        Ok(col) => {
            let changed = !col.same_as(&before);
            Ok((col, changed))
        },
        Err(err) => Err(err),
    }
}

/// Normalize every column reference of `expr`, reporting whether any changed.
pub fn normalize_col_with_schemas_transformed(
    expr: Expr,
    schemas: &Vec<Vec<DFSchema>>,
    using_columns: &Vec<Vec<Column>>,
) -> (r: Result<Transformed<Expr>, RewriteError>)
    ensures
        normalize_outcome(expr, scopes_of(schemas@), sets_of(using_columns@), r),
    decreases expr,
{
    match expr {
        Expr::Column(c) => match normalize_column(c, schemas, using_columns) {
            Ok((col, changed)) => Ok(Transformed::new(Expr::Column(col), changed, crate::tree::TreeNodeRecursion::Continue)),
            Err(err) => Err(err),
        },
        Expr::OuterReferenceColumn(t, c) => match normalize_column(c, schemas, using_columns) {
            Ok((col, changed)) => Ok(
                Transformed::new(Expr::OuterReferenceColumn(t, col), changed, crate::tree::TreeNodeRecursion::Continue),
            ),
            Err(err) => Err(err),
        },
        Expr::Alias { expr, relation, name } => match normalize_col_with_schemas_transformed(*expr, schemas, using_columns) {
            Ok(t) => Ok(
                Transformed::new(Expr::Alias { expr: Box::new(t.data), relation, name }, t.transformed, t.tnr),
            ),
            Err(err) => Err(err),
        },
        Expr::Cast { expr, data_type } => match normalize_col_with_schemas_transformed(*expr, schemas, using_columns) {
            Ok(t) => Ok(Transformed::new(Expr::Cast { expr: Box::new(t.data), data_type }, t.transformed, t.tnr)),
            Err(err) => Err(err),
        },
        Expr::Unnest { expr } => match normalize_col_with_schemas_transformed(*expr, schemas, using_columns) {
            Ok(t) => Ok(Transformed::new(Expr::Unnest { expr: Box::new(t.data) }, t.transformed, t.tnr)),
            Err(err) => Err(err),
        },
        Expr::BinaryExpr { left, op, right } => match normalize_col_with_schemas_transformed(*left, schemas, using_columns) {
            Ok(l) => match normalize_col_with_schemas_transformed(*right, schemas, using_columns) {
                Ok(r) => Ok(
                    Transformed::new(
                        Expr::BinaryExpr { left: Box::new(l.data), op, right: Box::new(r.data) },
                        l.transformed || r.transformed,
                        crate::tree::TreeNodeRecursion::Continue,
                    ),
                ),
                Err(err) => Err(err),
            },
            Err(err) => Err(err),
        },
        _ => Ok(Transformed::no(expr)),
    }
}

/// Normalize every column reference of `expr` against candidate scopes,
/// innermost first, with the ambiguity check.
pub fn normalize_col_with_schemas_and_ambiguity_check(
    expr: Expr,
    schemas: &Vec<Vec<DFSchema>>,
    using_columns: &Vec<Vec<Column>>,
) -> (r: Result<Expr, RewriteError>)
    ensures
        match r {
            Ok(e) => first_unresolved(expr, scopes_of(schemas@), sets_of(using_columns@)) is None && e == normalized(
                expr,
                scopes_of(schemas@),
                sets_of(using_columns@),
            ),
            Err(err) => first_unresolved(expr, scopes_of(schemas@), sets_of(using_columns@)) matches Some(c)
                && resolution_error(c, scopes_of(schemas@), sets_of(using_columns@), err),
        },
{
    match normalize_col_with_schemas_transformed(expr, schemas, using_columns) {
        Ok(t) => Ok(t.data),
        Err(err) => Err(err),
    }
}

/// The expression with the qualifier of every column reference removed;
/// outer references are left as they are.
pub open spec fn unnormalized(e: Expr) -> Expr
    decreases e,
{
    match e {
        Expr::Column(c) => Expr::Column(Column { relation: None, name: c.name }),
        Expr::Alias { expr, relation, name } => Expr::Alias { expr: Box::new(unnormalized(*expr)), relation, name },
        Expr::Cast { expr, data_type } => Expr::Cast { expr: Box::new(unnormalized(*expr)), data_type },
        Expr::Unnest { expr } => Expr::Unnest { expr: Box::new(unnormalized(*expr)) },
        Expr::BinaryExpr { left, op, right } => Expr::BinaryExpr {
            left: Box::new(unnormalized(*left)),
            op,
            right: Box::new(unnormalized(*right)),
        },
        _ => e,
    }
}

/// Remove the qualifier from every column reference of `expr`: `foo.bar` becomes `bar`.
pub fn unnormalize_col(expr: Expr) -> (r: Expr)
    ensures
        r == unnormalized(expr),
    decreases expr,
{
    match expr {
        Expr::Column(c) => Expr::Column(Column::new_unqualified(c.name)),
        Expr::Alias { expr, relation, name } => Expr::Alias { expr: Box::new(unnormalize_col(*expr)), relation, name },
        Expr::Cast { expr, data_type } => Expr::Cast { expr: Box::new(unnormalize_col(*expr)), data_type },
        Expr::Unnest { expr } => Expr::Unnest { expr: Box::new(unnormalize_col(*expr)) },
        Expr::BinaryExpr { left, op, right } => Expr::BinaryExpr {
            left: Box::new(unnormalize_col(*left)),
            op,
            right: Box::new(unnormalize_col(*right)),
        },
        _ => expr,
    }
}

/// Remove the qualifiers from every expression of a list.
pub fn unnormalize_cols(exprs: Vec<Expr>) -> (r: Vec<Expr>)
    ensures
        r@.len() == exprs@.len(),
        forall|i: int| 0 <= i < r@.len() ==> #[trigger] r@[i] == unnormalized(exprs@[i]),
{
    let mut exprs = exprs;
    let ghost orig = exprs@;
    let mut rev: Vec<Expr> = Vec::new();
    while exprs.len() > 0
        invariant
            exprs@.len() + rev@.len() == orig.len(),
            exprs@ == orig.subrange(0, exprs@.len() as int),
            forall|k: int| 0 <= k < rev@.len() ==> #[trigger] rev@[k] == unnormalized(orig[orig.len() - 1 - k]),
        decreases exprs@.len(),
    {
        let e = exprs.pop().unwrap();
        rev.push(unnormalize_col(e));
    }
    let mut out: Vec<Expr> = Vec::new();
    while rev.len() > 0
        invariant
            out@.len() + rev@.len() == orig.len(),
            forall|k: int| 0 <= k < rev@.len() ==> #[trigger] rev@[k] == unnormalized(orig[orig.len() - 1 - k]),
            forall|i: int| 0 <= i < out@.len() ==> #[trigger] out@[i] == unnormalized(orig[i]),
        decreases rev@.len(),
    {
        let e = rev.pop().unwrap();
        out.push(e);
    }
    out
}

/// The expression with every outer reference turned into a plain column.
pub open spec fn outer_stripped(e: Expr) -> Expr
    decreases e,
{
    match e {
        Expr::OuterReferenceColumn(_, c) => Expr::Column(c),
        Expr::Alias { expr, relation, name } => Expr::Alias { expr: Box::new(outer_stripped(*expr)), relation, name },
        Expr::Cast { expr, data_type } => Expr::Cast { expr: Box::new(outer_stripped(*expr)), data_type },
        Expr::Unnest { expr } => Expr::Unnest { expr: Box::new(outer_stripped(*expr)) },
        Expr::BinaryExpr { left, op, right } => Expr::BinaryExpr {
            left: Box::new(outer_stripped(*left)),
            op,
            right: Box::new(outer_stripped(*right)),
        },
        _ => e,
    }
}

/// Replace every outer reference of `expr` by the column it wraps.
pub fn strip_outer_reference(expr: Expr) -> (r: Expr)
    ensures
        r == outer_stripped(expr),
    decreases expr,
{
    match expr {
        Expr::OuterReferenceColumn(_, c) => Expr::Column(c),
        Expr::Alias { expr, relation, name } => Expr::Alias { expr: Box::new(strip_outer_reference(*expr)), relation, name },
        Expr::Cast { expr, data_type } => Expr::Cast { expr: Box::new(strip_outer_reference(*expr)), data_type },
        Expr::Unnest { expr } => Expr::Unnest { expr: Box::new(strip_outer_reference(*expr)) },
        Expr::BinaryExpr { left, op, right } => Expr::BinaryExpr {
            left: Box::new(strip_outer_reference(*left)),
            op,
            right: Box::new(strip_outer_reference(*right)),
        },
        _ => expr,
    }
}

/// The replacement of `c` under `map`: the target of the first pair whose key is `c`.
pub open spec fn replacement(c: Column, map: Seq<(Column, Column)>) -> Option<Column>
    decreases map.len(),
{
    if map.len() == 0 {
        None
    } else if map[0].0.view() == c.view() {
        Some(map[0].1)
    } else {
        replacement(c, map.drop_first())
    }
}

/// The expression with every column reference that `map` names replaced.
pub open spec fn replaced(e: Expr, map: Seq<(Column, Column)>) -> Expr
    decreases e,
{
    match e {
        Expr::Column(c) => match replacement(c, map) {
            Some(n) => Expr::Column(n),
            None => e,
        },
        Expr::Alias { expr, relation, name } => Expr::Alias { expr: Box::new(replaced(*expr, map)), relation, name },
        Expr::Cast { expr, data_type } => Expr::Cast { expr: Box::new(replaced(*expr, map)), data_type },
        Expr::Unnest { expr } => Expr::Unnest { expr: Box::new(replaced(*expr, map)) },
        Expr::BinaryExpr { left, op, right } => Expr::BinaryExpr {
            left: Box::new(replaced(*left, map)),
            op,
            right: Box::new(replaced(*right, map)),
        },
        _ => e,
    }
}

fn lookup_column(c: &Column, map: &Vec<(Column, Column)>) -> (r: Option<Column>)
    ensures
        r == replacement(*c, map@),
{
    let mut k: usize = 0;
    assert(map@.subrange(0, map@.len() as int) =~= map@);
    while k < map.len()
        invariant
            k <= map@.len(),
            replacement(*c, map@) == replacement(*c, map@.subrange(k as int, map@.len() as int)),
        decreases map@.len() - k,
    {
        assert(map@.subrange(k as int, map@.len() as int).drop_first() =~= map@.subrange(k + 1, map@.len() as int));
        if map[k].0.same_as(c) {
            return Some(map[k].1.duplicate());
        }
        k += 1;
    }
    None
}

/// Replace the column references of `expr` that `replace_map` names by their targets.
pub fn replace_col(expr: Expr, replace_map: &Vec<(Column, Column)>) -> (r: Result<Expr, RewriteError>)
    ensures
        r == Ok::<Expr, RewriteError>(replaced(expr, replace_map@)),
    decreases expr,
{
    match expr {
        Expr::Column(c) => match lookup_column(&c, replace_map) {
            Some(n) => Ok(Expr::Column(n)),
            None => Ok(Expr::Column(c)),
        },
        Expr::Alias { expr, relation, name } => match replace_col(*expr, replace_map) {
            Ok(e) => Ok(Expr::Alias { expr: Box::new(e), relation, name }),
            Err(err) => Err(err),
        },
        Expr::Cast { expr, data_type } => match replace_col(*expr, replace_map) {
            Ok(e) => Ok(Expr::Cast { expr: Box::new(e), data_type }),
            Err(err) => Err(err),
        },
        Expr::Unnest { expr } => match replace_col(*expr, replace_map) {
            Ok(e) => Ok(Expr::Unnest { expr: Box::new(e) }),
            Err(err) => Err(err),
        },
        Expr::BinaryExpr { left, op, right } => match replace_col(*left, replace_map) {
            Ok(l) => match replace_col(*right, replace_map) {
                Ok(r) => Ok(Expr::BinaryExpr { left: Box::new(l), op, right: Box::new(r) }),
                Err(err) => Err(err),
            },
            Err(err) => Err(err),
        },
        _ => Ok(expr),
    }
}

/// The scopes that a column of an expression over `p` is resolved in: the
/// output of `p`, then, for a projection or aggregate, the output of its input.
pub open spec fn plan_scopes(p: LogicalPlan) -> Seq<Seq<DFField>> {
    match p {
        LogicalPlan::Projection(proj) => seq![plan_schema(p).fields@, plan_schema(*proj.input).fields@],
        LogicalPlan::Aggregate { input, .. } => seq![plan_schema(p).fields@, plan_schema(*input).fields@],
        _ => seq![plan_schema(p).fields@],
    }
}

/// The USING sets of the join at the root of `p`.
pub open spec fn plan_using(p: LogicalPlan) -> Seq<Seq<Column>> {
    match p {
        LogicalPlan::Join { using_columns, .. } => sets_of(using_columns@),
        _ => Seq::empty(),
    }
}

fn copy_fields(v: &Vec<DFField>) -> (r: Vec<DFField>)
    ensures
        r@ == v@,
{
    let mut r: Vec<DFField> = Vec::new();
    let mut i: usize = 0;
    while i < v.len()
        invariant
            i <= v@.len(),
            r@ == v@.subrange(0, i as int),
        decreases v@.len() - i,
    {
        r.push(v[i].duplicate());
        assert(v@.subrange(0, i + 1) =~= v@.subrange(0, i as int).push(v@[i as int]));
        i += 1;
    }
    assert(v@.subrange(0, i as int) =~= v@);
    r
}

fn copy_sets(u: &Vec<Vec<Column>>) -> (r: Vec<Vec<Column>>)
    ensures
        sets_of(r@) == sets_of(u@),
{
    let mut r: Vec<Vec<Column>> = Vec::new();
    let mut i: usize = 0;
    while i < u.len()
        invariant
            i <= u@.len(),
            r@.len() == i,
            forall|k: int| 0 <= k < i ==> (#[trigger] r@[k])@ == u@[k]@,
        decreases u@.len() - i,
    {
        let set = &u[i];
        let mut c: Vec<Column> = Vec::new();
        let mut j: usize = 0;
        while j < set.len()
            invariant
                j <= set@.len(),
                c@ == set@.subrange(0, j as int),
            decreases set@.len() - j,
        {
            c.push(set[j].duplicate());
            assert(set@.subrange(0, j + 1) =~= set@.subrange(0, j as int).push(set@[j as int]));
            j += 1;
        }
        assert(set@.subrange(0, j as int) =~= set@);
        r.push(c);
        i += 1;
    }
    assert(sets_of(r@) =~= sets_of(u@));
    r
}

proof fn lemma_single_scope(s: DFSchema)
    ensures
        scope_fields(seq![s]) == s.fields@,
{
    assert(seq![s].drop_last() =~= Seq::<DFSchema>::empty());
    assert(seq![s].last() == s);
    assert(scope_fields(Seq::<DFSchema>::empty()) =~= Seq::<DFField>::empty());
    assert(scope_fields(seq![s]) =~= s.fields@);
}

fn single_scope(fields: Vec<DFField>) -> (r: Vec<DFSchema>)
    ensures
        scope_fields(r@) == fields@,
{
    let s = DFSchema { fields };
    let r = vec![s];
    proof {
        assert(r@ =~= seq![s]);
        lemma_single_scope(s);
    }
    r
}

fn plan_groups(plan: &LogicalPlan) -> (r: (Vec<Vec<DFSchema>>, Vec<Vec<Column>>))
    ensures
        scopes_of(r.0@) == plan_scopes(*plan),
        sets_of(r.1@) == plan_using(*plan),
{
    let mut groups: Vec<Vec<DFSchema>> = Vec::new();
    groups.push(single_scope(copy_fields(&plan.schema().fields)));
    match plan {
        LogicalPlan::Projection(proj) => groups.push(single_scope(copy_fields(&proj.input.schema().fields))),
        LogicalPlan::Aggregate { input, .. } => groups.push(single_scope(copy_fields(&input.schema().fields))),
        _ => {},
    }
    let using = match plan {
        LogicalPlan::Join { using_columns, .. } => copy_sets(using_columns),
        _ => Vec::new(),
    };
    assert(scopes_of(groups@) =~= plan_scopes(*plan));
    assert(sets_of(using@) =~= plan_using(*plan));
    (groups, using)
}

/// Resolve every column reference of `expr` against the output of `plan`
/// (and, for a projection or aggregate, the output of its input).
pub fn normalize_col(expr: Expr, plan: &LogicalPlan) -> (r: Result<Expr, RewriteError>)
    ensures
        match r {
            Ok(e) => first_unresolved(expr, plan_scopes(*plan), plan_using(*plan)) is None && e == normalized(
                expr,
                plan_scopes(*plan),
                plan_using(*plan),
            ),
            Err(err) => first_unresolved(expr, plan_scopes(*plan), plan_using(*plan)) matches Some(c)
                && resolution_error(c, plan_scopes(*plan), plan_using(*plan), err),
        },
{
    let (groups, using) = plan_groups(plan);
    normalize_col_with_schemas_and_ambiguity_check(expr, &groups, &using)
}

/// Whether `err` is the error of the first column of `e` that does not resolve.
pub open spec fn fails_with(e: Expr, scopes: Seq<Seq<DFField>>, using: Seq<Seq<Column>>, err: RewriteError) -> bool {
    first_unresolved(e, scopes, using) matches Some(c) && resolution_error(c, scopes, using, err)
}

/// Whether every column of every expression resolves against `plan`.
pub open spec fn all_resolve(exprs: Seq<Expr>, plan: LogicalPlan) -> bool {
    forall|i: int| 0 <= i < exprs.len() ==> #[trigger] first_unresolved(exprs[i], plan_scopes(plan), plan_using(plan)) is None
}

/// The error of the first expression with a column that does not resolve.
pub open spec fn first_failure(exprs: Seq<Expr>, plan: LogicalPlan, err: RewriteError) -> bool {
    exists|i: int|
        0 <= i < exprs.len() && all_resolve(exprs.subrange(0, i), plan) && fails_with(
            #[trigger] exprs[i],
            plan_scopes(plan),
            plan_using(plan),
            err,
        )
}

/// Normalize each expression of a list against `plan`.
pub fn normalize_cols(exprs: Vec<Expr>, plan: &LogicalPlan) -> (r: Result<Vec<Expr>, RewriteError>)
    ensures
        match r {
            Ok(v) => all_resolve(exprs@, *plan) && v@.len() == exprs@.len() && forall|i: int|
                0 <= i < v@.len() ==> #[trigger] v@[i] == normalized(exprs@[i], plan_scopes(*plan), plan_using(*plan)),
            Err(err) => first_failure(exprs@, *plan, err),
        },
{
    let ghost orig = exprs@;
    let n = exprs.len();
    let mut rest = exprs;
    let mut out: Vec<Expr> = Vec::new();
    let mut i: usize = 0;
    while i < n
        invariant
            orig == exprs@,
            n == orig.len(),
            i <= n,
            rest@ == orig.subrange(i as int, n as int),
            out@.len() == i,
            all_resolve(orig.subrange(0, i as int), *plan),
            forall|k: int| 0 <= k < i ==> #[trigger] out@[k] == normalized(orig[k], plan_scopes(*plan), plan_using(*plan)),
        decreases n - i,
    {
        let e = rest.remove(0);
        assert(e == orig[i as int]);
        assert(rest@ =~= orig.subrange(i + 1, n as int));
        match normalize_col(e, plan) {
            Ok(x) => {
                out.push(x);
                assert forall|k: int| 0 <= k < i + 1 implies #[trigger] first_unresolved(
                    orig.subrange(0, i + 1)[k],
                    plan_scopes(*plan),
                    plan_using(*plan),
                ) is None by {
                    if k < i {
                        assert(orig.subrange(0, i as int)[k] == orig[k]);
                    }
                }
            },
            Err(err) => {
                assert(first_unresolved(orig[i as int], plan_scopes(*plan), plan_using(*plan)) is Some);
                return Err(err);
            },
        }
        i += 1;
    }
    assert(orig.subrange(0, n as int) =~= orig);
    Ok(out)
}

/// Normalize the expression of each sort key against `plan`, keeping its order.
pub fn normalize_sorts(sorts: Vec<Sort>, plan: &LogicalPlan) -> (r: Result<Vec<Sort>, RewriteError>)
    ensures
        match r {
            Ok(v) => v@.len() == sorts@.len() && forall|i: int|
                0 <= i < v@.len() ==> first_unresolved(sorts@[i].expr, plan_scopes(*plan), plan_using(*plan)) is None
                    && #[trigger] v@[i] == (Sort {
                    expr: normalized(sorts@[i].expr, plan_scopes(*plan), plan_using(*plan)),
                    asc: sorts@[i].asc,
                    nulls_first: sorts@[i].nulls_first,
                }),
            Err(err) => exists|i: int|
                0 <= i < sorts@.len() && (forall|j: int|
                    0 <= j < i ==> #[trigger] first_unresolved(sorts@[j].expr, plan_scopes(*plan), plan_using(*plan)) is None)
                    && fails_with(#[trigger] sorts@[i].expr, plan_scopes(*plan), plan_using(*plan), err),
        },
{
    let ghost orig = sorts@;
    let n = sorts.len();
    let mut rest = sorts;
    let mut out: Vec<Sort> = Vec::new();
    let mut i: usize = 0;
    while i < n
        invariant
            orig == sorts@,
            n == orig.len(),
            i <= n,
            rest@ == orig.subrange(i as int, n as int),
            out@.len() == i,
            forall|k: int| 0 <= k < i ==> #[trigger] first_unresolved(orig[k].expr, plan_scopes(*plan), plan_using(*plan)) is None,
            forall|k: int|
                0 <= k < i ==> first_unresolved(orig[k].expr, plan_scopes(*plan), plan_using(*plan)) is None
                    && #[trigger] out@[k] == (Sort {
                    expr: normalized(orig[k].expr, plan_scopes(*plan), plan_using(*plan)),
                    asc: orig[k].asc,
                    nulls_first: orig[k].nulls_first,
                }),
        decreases n - i,
    {
        let s = rest.remove(0);
        assert(s == orig[i as int]);
        assert(rest@ =~= orig.subrange(i + 1, n as int));
        let Sort { expr, asc, nulls_first } = s;
        match normalize_col(expr, plan) {
            Ok(x) => out.push(Sort::new(x, asc, nulls_first)),
            Err(err) => {
                assert(first_unresolved(orig[i as int].expr, plan_scopes(*plan), plan_using(*plan)) is Some);
                assert forall|j: int| 0 <= j < i implies #[trigger] first_unresolved(
                    orig[j].expr,
                    plan_scopes(*plan),
                    plan_using(*plan),
                ) is None by {}
                assert(fails_with(orig[i as int].expr, plan_scopes(*plan), plan_using(*plan), err));
                return Err(err);
            },
        }
        i += 1;
    }
    Ok(out)
}

/// The name that a subquery alias gives to the column computing `e`.
pub open spec fn scalar_column_name(e: Expr) -> Seq<char> {
    match e {
        Expr::Alias { name, .. } => name@,
        Expr::Column(c) => c.name@,
        _ => schema_name(e),
    }
}

/// The column under which the subquery `subqry_alias` exposes `scalar_expr`.
pub fn create_col_from_scalar_expr(scalar_expr: &Expr, subqry_alias: String) -> (r: Result<Column, RewriteError>)
    ensures
        r matches Ok(c) && c.relation == Some(subqry_alias) && c.name@ == scalar_column_name(*scalar_expr),
{
    match scalar_expr {
        Expr::Alias { name, .. } => Ok(Column::new(Some(subqry_alias), name.clone())),
        Expr::Column(col) => Ok(col.with_relation(subqry_alias)),
        _ => Ok(Column::new(Some(subqry_alias), scalar_expr.schema_name())),
    }
}

} // verus!
