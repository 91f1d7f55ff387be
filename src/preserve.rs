//! Keeping the output names of expressions stable across a rewrite.
use vstd::prelude::*;
use crate::common::rel_view;
use crate::expr::Expr;
use crate::names::qualified_name;
use crate::plan::LogicalPlan;

verus! {

/// Saves the qualified names of expressions before a rewrite and restores
/// them afterwards, so that the output schema of a plan node stays the same.
pub struct NamePreserver {
    use_alias: bool,
}

/// The qualified name of an expression before a rewrite, if it is kept.
#[derive(Debug)]
pub enum SavedName {
    /// The name to keep.
    Saved { relation: Option<String>, name: String },
    /// The name does not need keeping.
    NotSaved,
}

/// Whether the expressions of `plan` leave its output schema unaffected.
pub open spec fn exprs_outside_schema(plan: LogicalPlan) -> bool {
    plan is Filter || plan is Join || plan is TableScan || plan is Limit || plan is Statement
}

/// Whether `s` is what saving `e` gives, aliases being in use.
pub open spec fn saves_name_of(s: SavedName, e: Expr) -> bool {
    s matches SavedName::Saved { relation, name } && (rel_view(relation), name@) == qualified_name(e)
}

/// What restoring `s` on `e` gives.
pub open spec fn restored(s: SavedName, e: Expr) -> Expr {
    match s {
        SavedName::Saved { relation, name } => if (rel_view(relation), name@) != qualified_name(e) {
            Expr::Alias { expr: Box::new(e), relation, name }
        } else {
            e
        },
        SavedName::NotSaved => e,
    }
}

impl NamePreserver {
    /// Whether saved names are restored through aliases.
    pub closed spec fn uses_alias(self) -> bool {
        self.use_alias
    }

    /// A preserver for the expressions of `plan`; inert for the nodes whose
    /// expressions do not reach their output schema.
    pub fn new(plan: &LogicalPlan) -> (r: NamePreserver)
        ensures
            r.uses_alias() == !exprs_outside_schema(*plan),
    {
        let outside = match plan {
            LogicalPlan::Filter { .. } | LogicalPlan::Join { .. } | LogicalPlan::TableScan { .. }
            | LogicalPlan::Limit { .. } | LogicalPlan::Statement { .. } => true,
            _ => false,
        };
        NamePreserver { use_alias: !outside }
    }

    /// A preserver for the expressions of a projection.
    pub fn new_for_projection() -> (r: NamePreserver)
        ensures
            r.uses_alias(),
    {
        NamePreserver { use_alias: true }
    }

    /// Save the qualified name of `expr`.
    pub fn save(&self, expr: &Expr) -> (r: SavedName)
        ensures
            self.uses_alias() ==> saves_name_of(r, *expr),
            !self.uses_alias() ==> r is NotSaved,
    {
        if self.use_alias {
            let (relation, name) = expr.qualified_name();
            SavedName::Saved { relation, name }
        } else {
            SavedName::NotSaved
        }
    }
}

impl SavedName {
    /// Give `expr` the saved name again, through an alias where its own differs.
    pub fn restore(self, expr: Expr) -> (r: Expr)
        ensures
            r == restored(self, expr),
    {
        match self {
            SavedName::Saved { relation, name } => {
                let (new_relation, new_name) = expr.qualified_name();
                if !crate::common::same_relation(&new_relation, &relation) || new_name != name {
                    expr.alias_qualified(relation, name)
                } else {
                    expr
                }
            },
            SavedName::NotSaved => expr,
        }
    }
}

/// Whatever a rewrite turns `e` into, restoring the name saved from `e`
/// exposes the rewritten expression under the qualified name of `e`.
pub proof fn law_restore_keeps_name(e: Expr, rewritten: Expr, s: SavedName)
    requires
        saves_name_of(s, e),
    ensures
        qualified_name(restored(s, rewritten)) == qualified_name(e),
{
}

} // verus!
