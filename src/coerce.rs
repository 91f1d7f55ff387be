//! Casting the expressions of a plan node to the types of a target schema.
use vstd::prelude::*;
use crate::common::{DFField, DFSchema, DataType, RewriteError};
use crate::expr::Expr;
use crate::plan::{all_typed, cast_result, field_type, plan_schema, projected_field, type_of, LogicalPlan, Projection};

verus! {

/// `e` converted to type `t` over `fields`: unchanged where it has that type
/// or is a wildcard; an alias keeps its name over a cast of what it names;
/// anything else is cast. `None` where no type or no cast exists.
pub open spec fn coerced(e: Expr, t: DataType, fields: Seq<DFField>) -> Option<Expr> {
    if e is Wildcard {
        Some(e)
    } else {
        match type_of(e, fields) {
            None => None,
            Some(from) => if from == t {
                Some(e)
            } else {
                match e {
                    Expr::Alias { expr, name, .. } => match cast_result(*expr, t, fields) {
                        Some(c) => Some(Expr::Alias { expr: Box::new(c), relation: None, name }),
                        None => None,
                    },
                    _ => cast_result(e, t, fields),
                }
            },
        }
    }
}

/// The error that coercing `e` to `t` gives, when it gives one.
pub open spec fn coerce_error(e: Expr, t: DataType, fields: Seq<DFField>, err: RewriteError) -> bool {
    match type_of(e, fields) {
        None => err is Plan,
        Some(from) => err == RewriteError::TypeCoercion { from, to: t },
    }
}

/// Whether every expression can be coerced to the type at its position.
pub open spec fn coercible(exprs: Seq<Expr>, src: Seq<DFField>, dst: Seq<DFField>) -> bool {
    &&& exprs.len() == dst.len()
    &&& forall|i: int| 0 <= i < exprs.len() ==> #[trigger] coerced(exprs[i], dst[i].data_type, src) is Some
}

/// The error of coercing a list: `SchemaMismatch` where the lengths differ,
/// else the error of the first position that cannot be coerced.
pub open spec fn coerce_list_error(exprs: Seq<Expr>, src: Seq<DFField>, dst: Seq<DFField>, err: RewriteError) -> bool {
    if exprs.len() != dst.len() {
        err == RewriteError::SchemaMismatch { expected: dst.len() as usize, found: exprs.len() as usize }
    } else {
        exists|i: int|
            0 <= i < exprs.len() && (forall|j: int| 0 <= j < i ==> #[trigger] coerced(exprs[j], dst[j].data_type, src) is Some)
                && #[trigger] coerced(exprs[i], dst[i].data_type, src) is None && coerce_error(
                exprs[i],
                dst[i].data_type,
                src,
                err,
            )
    }
}

/// The error of coercing a plan: that of its list, or, where the list is
/// coerced but some result has no type, a `Plan` error.
pub open spec fn coerce_plan_error(exprs: Seq<Expr>, src: Seq<DFField>, dst: Seq<DFField>, err: RewriteError) -> bool {
    if !coercible(exprs, src, dst) {
        coerce_list_error(exprs, src, dst, err)
    } else {
        !all_typed(coerced_seq(exprs, src, dst), src) && err is Plan
    }
}

/// The coerced expressions, position by position.
pub open spec fn coerced_seq(exprs: Seq<Expr>, src: Seq<DFField>, dst: Seq<DFField>) -> Seq<Expr> {
    Seq::new(exprs.len(), |i: int| coerced(exprs[i], dst[i].data_type, src).unwrap())
}

/// A column reference to each field, in order.
pub open spec fn field_exprs(fields: Seq<DFField>) -> Seq<Expr> {
    fields.map_values(|f: DFField| Expr::Column(f.column()))
}

pub open spec fn all_columns(exprs: Seq<Expr>) -> bool {
    forall|i: int| 0 <= i < exprs.len() ==> #[trigger] exprs[i] is Column
}

/// Whether the two field lists have the same types, position by position.
pub open spec fn same_types(a: Seq<DFField>, b: Seq<DFField>) -> bool {
    &&& a.len() == b.len()
    &&& forall|i: int| 0 <= i < a.len() ==> #[trigger] a[i].data_type == b[i].data_type
}

/// Whether `p` is a projection of `out` over `input`, with the schema that
/// the expressions give.
pub open spec fn projection_over(p: LogicalPlan, input: LogicalPlan, out: Seq<Expr>) -> bool {
    let src = plan_schema(input).fields@;
    &&& p matches LogicalPlan::Projection(np)
    &&& *np.input == input
    &&& np.expr@ == out
    &&& all_typed(out, src)
    &&& np.schema.fields@.len() == out.len()
    &&& forall|i: int| 0 <= i < out.len() ==> projected_field(#[trigger] np.schema.fields@[i], out[i], src)
}

fn coerce_expr(e: Expr, t: DataType, src: &DFSchema) -> (r: Result<Expr, RewriteError>)
    ensures
        match r {
            Ok(x) => coerced(e, t, src.fields@) == Some(x),
            Err(err) => coerced(e, t, src.fields@) is None && coerce_error(e, t, src.fields@, err),
        },
{
    if let Expr::Wildcard { .. } = e {
        return Ok(e);
    }
    match e.get_type(src) {
        Err(err) => Err(err),
        Ok(from) => if from == t {
            Ok(e)
        } else {
            match e {
                Expr::Alias { expr, name, .. } => match expr.cast_to(t, src) {
                    Ok(c) => Ok(c.alias(name)),
                    Err(err) => Err(err),
                },
                other => other.cast_to(t, src),
            }
        },
    }
}

/// Cast each expression to the type of the field at its position in `dst_schema`.
pub fn coerce_exprs_for_schema(exprs: Vec<Expr>, src_schema: &DFSchema, dst_schema: &DFSchema) -> (r: Result<
    Vec<Expr>,
    RewriteError,
>)
    ensures
        match r {
            Ok(v) => coercible(exprs@, src_schema.fields@, dst_schema.fields@) && v@ == coerced_seq(
                exprs@,
                src_schema.fields@,
                dst_schema.fields@,
            ),
            Err(err) => !coercible(exprs@, src_schema.fields@, dst_schema.fields@) && coerce_list_error(
                exprs@,
                src_schema.fields@,
                dst_schema.fields@,
                err,
            ),
        },
{
    if exprs.len() != dst_schema.fields.len() {
        return Err(RewriteError::SchemaMismatch { expected: dst_schema.fields.len(), found: exprs.len() });
    }
    let ghost orig = exprs@;
    let ghost src = src_schema.fields@;
    let ghost dst = dst_schema.fields@;
    let n = exprs.len();
    let mut rest = exprs;
    let mut out: Vec<Expr> = Vec::new();
    let mut i: usize = 0;
    while i < n
        invariant
            orig == exprs@,
            n == orig.len(),
            n == dst.len(),
            src == src_schema.fields@,
            dst == dst_schema.fields@,
            i <= n,
            rest@ == orig.subrange(i as int, n as int),
            out@.len() == i,
            forall|k: int| 0 <= k < i ==> coerced(#[trigger] orig[k], dst[k].data_type, src) == Some(out@[k]),
        decreases n - i,
    {
        let e = rest.remove(0);
        assert(e == orig[i as int]);
        assert(rest@ =~= orig.subrange(i + 1, n as int));
        match coerce_expr(e, dst_schema.fields[i].data_type, src_schema) {
            Ok(x) => out.push(x),
            Err(err) => {
                assert(coerced(orig[i as int], dst[i as int].data_type, src) is None);
                assert(coerce_error(orig[i as int], dst[i as int].data_type, src, err));
                assert(!coercible(orig, src, dst));
                let ghost j = i as int;
                assert(coerced(orig[j], dst[j].data_type, src) is None && coerce_error(orig[j], dst[j].data_type, src, err));
                assert(forall|k: int| 0 <= k < j ==> #[trigger] coerced(orig[k], dst[k].data_type, src) is Some);
                return Err(err);
            },
        }
        i += 1;
    }
    assert(out@ =~= coerced_seq(orig, src, dst));
    Ok(out)
}

fn field_columns(fields: &Vec<DFField>) -> (r: Vec<Expr>)
    ensures
        r@ == field_exprs(fields@),
{
    let mut r: Vec<Expr> = Vec::new();
    let mut i: usize = 0;
    while i < fields.len()
        invariant
            i <= fields@.len(),
            r@ == fields@.subrange(0, i as int).map_values(|f: DFField| Expr::Column(f.column())),
        decreases fields@.len() - i,
    {
        r.push(Expr::Column(fields[i].qualified_column()));
        assert(fields@.subrange(0, i + 1).map_values(|f: DFField| Expr::Column(f.column())) =~= fields@.subrange(
            0,
            i as int,
        ).map_values(|f: DFField| Expr::Column(f.column())).push(Expr::Column(fields@[i as int].column())));
        i += 1;
    }
    assert(fields@.subrange(0, i as int) =~= fields@);
    r
}

fn only_columns(exprs: &Vec<Expr>) -> (r: bool)
    ensures
        r == all_columns(exprs@),
{
    let mut i: usize = 0;
    while i < exprs.len()
        invariant
            i <= exprs@.len(),
            forall|k: int| 0 <= k < i ==> #[trigger] exprs@[k] is Column,
        decreases exprs@.len() - i,
    {
        if exprs[i].try_as_col().is_none() {
            return false;
        }
        i += 1;
    }
    true
}

proof fn lemma_field_type_at(fields: Seq<DFField>, i: int)
    requires
        0 <= i < fields.len(),
        forall|j: int| 0 <= j < i ==> #[trigger] fields[j].column().view() != fields[i].column().view(),
    ensures
        field_type(fields[i].column(), fields) == Some(fields[i].data_type),
    decreases i,
{
    if i > 0 {
        let d = fields.drop_first();
        assert(fields[0].column().view() != fields[i].column().view());
        assert forall|j: int| 0 <= j < i - 1 implies #[trigger] d[j].column().view() != d[i - 1].column().view() by {
            assert(d[j] == fields[j + 1]);
        }
        lemma_field_type_at(d, i - 1);
    }
}

proof fn lemma_matching_types_keep_columns(s: DFSchema, dst: Seq<DFField>)
    requires
        s.wf(),
        same_types(s.fields@, dst),
    ensures
        coercible(field_exprs(s.fields@), s.fields@, dst),
        all_columns(coerced_seq(field_exprs(s.fields@), s.fields@, dst)),
{
    let fs = s.fields@;
    let es = field_exprs(fs);
    assert forall|i: int| 0 <= i < es.len() implies #[trigger] coerced(es[i], dst[i].data_type, fs)
        == Some(es[i]) by {
        assert forall|j: int| 0 <= j < i implies #[trigger] fs[j].column().view() != fs[i].column().view() by {}
        lemma_field_type_at(fs, i);
    }
    assert forall|i: int| 0 <= i < es.len() implies #[trigger] coerced(es[i], dst[i].data_type, fs) is Some by {}
    let out = coerced_seq(es, fs, dst);
    assert forall|i: int| 0 <= i < out.len() implies #[trigger] out[i] is Column by {
        assert(coerced(es[i], dst[i].data_type, fs) == Some(es[i]));
    }
}

/// Whether each expression already has the type of the field at its position.
pub open spec fn has_types(exprs: Seq<Expr>, src: Seq<DFField>, dst: Seq<DFField>) -> bool {
    &&& exprs.len() == dst.len()
    &&& forall|i: int| 0 <= i < exprs.len() ==> #[trigger] type_of(exprs[i], src) == Some(dst[i].data_type)
}

/// A projection whose expressions have the target types keeps them and its input.
pub open spec fn keeps_typed_projection(plan: LogicalPlan, schema: DFSchema, r: Result<LogicalPlan, RewriteError>) -> bool {
    match plan {
        LogicalPlan::Projection(proj) => has_types(proj.expr@, plan_schema(*proj.input).fields@, schema.fields@) ==> match r {
            Ok(LogicalPlan::Projection(np)) => np.expr@ == proj.expr@ && np.input == proj.input,
            _ => false,
        },
        _ => true,
    }
}

proof fn lemma_typed_exprs_kept(exprs: Seq<Expr>, src: Seq<DFField>, dst: Seq<DFField>)
    requires
        has_types(exprs, src, dst),
    ensures
        coercible(exprs, src, dst),
        coerced_seq(exprs, src, dst) == exprs,
        all_typed(exprs, src),
{
    assert forall|i: int| 0 <= i < exprs.len() implies #[trigger] coerced(exprs[i], dst[i].data_type, src) == Some(exprs[i]) by {
        assert(type_of(exprs[i], src) == Some(dst[i].data_type));
    }
    assert forall|i: int| 0 <= i < exprs.len() implies #[trigger] coerced(exprs[i], dst[i].data_type, src) is Some by {
        assert(coerced(exprs[i], dst[i].data_type, src) == Some(exprs[i]));
    }
    assert forall|i: int| 0 <= i < exprs.len() implies #[trigger] type_of(exprs[i], src) is Some by {
        assert(type_of(exprs[i], src) == Some(dst[i].data_type));
    }
    assert(coerced_seq(exprs, src, dst) =~= exprs);
}

/// Cast the output of `plan` to the types of `schema`. A projection has its
/// expressions coerced in place; any other node gets a projection on top only
/// where some output needs more than a column reference.
pub fn coerce_plan_expr_for_schema(plan: LogicalPlan, schema: &DFSchema) -> (r: Result<LogicalPlan, RewriteError>)
    ensures
        match plan {
            LogicalPlan::Projection(proj) => {
                let src = plan_schema(*proj.input).fields@;
                let out = coerced_seq(proj.expr@, src, schema.fields@);
                match r {
                    Ok(p) => coercible(proj.expr@, src, schema.fields@) && projection_over(p, *proj.input, out),
                    Err(err) => coerce_plan_error(proj.expr@, src, schema.fields@, err),
                }
            },
            _ => {
                let src = plan_schema(plan).fields@;
                let cols = field_exprs(src);
                let out = coerced_seq(cols, src, schema.fields@);
                match r {
                    Ok(p) => coercible(cols, src, schema.fields@) && if all_columns(out) {
                        p == plan
                    } else {
                        projection_over(p, plan, out)
                    },
                    Err(err) => coerce_plan_error(cols, src, schema.fields@, err),
                }
            },
        },
        !(plan is Projection) && plan_schema(plan).wf() && same_types(plan_schema(plan).fields@, schema.fields@)
            ==> r == Ok::<LogicalPlan, RewriteError>(plan),
        keeps_typed_projection(plan, *schema, r),
{
    proof {
        if plan is Projection {
            let proj = plan->Projection_0;
            if has_types(proj.expr@, plan_schema(*proj.input).fields@, schema.fields@) {
                lemma_typed_exprs_kept(proj.expr@, plan_schema(*proj.input).fields@, schema.fields@);
            }
        }
        if !(plan is Projection) && plan_schema(plan).wf() && same_types(plan_schema(plan).fields@, schema.fields@) {
            lemma_matching_types_keep_columns(plan_schema(plan), schema.fields@);
        }
    }
    match plan {
        LogicalPlan::Projection(Projection { expr, input, .. }) => {
            let new_exprs = match coerce_exprs_for_schema(expr, input.schema(), schema) {
                Ok(v) => v,
                Err(e) => return Err(e),
            };
            match Projection::try_new(new_exprs, input) {
                Ok(p) => Ok(LogicalPlan::Projection(p)),
                Err(e) => Err(e),
            }
        },
        _ => {
            let exprs = field_columns(&plan.schema().fields);
            let new_exprs = match coerce_exprs_for_schema(exprs, plan.schema(), schema) {
                Ok(v) => v,
                Err(e) => return Err(e),
            };
            if only_columns(&new_exprs) {
                Ok(plan)
            } else {
                match Projection::try_new(new_exprs, Box::new(plan)) {
                    Ok(p) => Ok(LogicalPlan::Projection(p)),
                    Err(e) => Err(e),
                }
            }
        },
    }
}

} // verus!
