//! Depth-first traversals that rewrite an expression tree node by node.
use vstd::prelude::*;
use crate::common::{DFSchema, RewriteError};
use crate::expr::Expr;
use crate::tree::{Transformed, TreeNodeRecursion};

verus! {

/// The number of levels below the root of `e`.
pub open spec fn height(e: Expr) -> nat
    decreases e,
{
    match e {
        Expr::Alias { expr, .. } => 1 + height(*expr),
        Expr::Cast { expr, .. } => 1 + height(*expr),
        Expr::Unnest { expr } => 1 + height(*expr),
        Expr::BinaryExpr { left, right, .. } => {
            let l = height(*left);
            let r = height(*right);
            1 + if l >= r { l } else { r }
        },
        _ => 0,
    }
}

/// A pair of hooks run around the visit of each node's children: `f_down`
/// before them, `f_up` after them.
pub trait TreeNodeRewriter {
    /// Runs before the children are visited. The children visited are those of
    /// the node returned, which may not be taller than the node given.
    fn f_down(&mut self, node: Expr) -> (r: Result<Transformed<Expr>, RewriteError>)
        ensures
            r matches Ok(t) ==> height(t.data) <= height(node),
            old(self).down_gives(node, r),
    ;

    /// Runs after the children have been visited.
    fn f_up(&mut self, node: Expr) -> (r: Result<Transformed<Expr>, RewriteError>)
        ensures
            old(self).up_gives(node, r),
    ;

    /// What `f_down` returns on `node` from this state. An implementation
    /// verified here states it; by default any result is allowed.
    open spec fn down_gives(&self, node: Expr, r: Result<Transformed<Expr>, RewriteError>) -> bool {
        true
    }

    /// What `f_up` returns on `node` from this state; by default anything.
    open spec fn up_gives(&self, node: Expr, r: Result<Transformed<Expr>, RewriteError>) -> bool {
        true
    }
}

/// Whether the hook hands every node back unchanged.
pub open spec fn keeps_every_node<F: Fn(Expr) -> Result<Transformed<Expr>, RewriteError>>(f: F) -> bool {
    forall|x: Expr, r: Result<Transformed<Expr>, RewriteError>|
        #[trigger] f.ensures((x,), r) ==> r == Ok::<Transformed<Expr>, RewriteError>(
            Transformed { data: x, transformed: false, tnr: TreeNodeRecursion::Continue },
        )
}

/// Whether `e` has no child expressions.
pub open spec fn is_leaf(e: Expr) -> bool {
    !(e is Alias || e is Cast || e is Unnest || e is BinaryExpr)
}

/// What `transform_down` owes at the root: `f` runs on it first; its error
/// is returned as it came; after `Stop` or `Jump` its node is the result;
/// otherwise its change flag is kept, and a leaf it returns is the result.
pub open spec fn down_root<F: Fn(Expr) -> Result<Transformed<Expr>, RewriteError>>(
    f: F,
    e: Expr,
    r: Result<Transformed<Expr>, RewriteError>,
) -> bool {
    exists|rd: Result<Transformed<Expr>, RewriteError>|
        #[trigger] f.ensures((e,), rd) && match rd {
            Err(x) => r == Err::<Transformed<Expr>, RewriteError>(x),
            Ok(t0) => match t0.tnr {
                TreeNodeRecursion::Stop => r == Ok::<Transformed<Expr>, RewriteError>(t0),
                TreeNodeRecursion::Jump => r == Ok::<Transformed<Expr>, RewriteError>(
                    Transformed { data: t0.data, transformed: t0.transformed, tnr: TreeNodeRecursion::Continue },
                ),
                TreeNodeRecursion::Continue => (r matches Ok(t) ==> (t0.transformed ==> t.transformed)) && (is_leaf(
                    t0.data,
                ) ==> r == Ok::<Transformed<Expr>, RewriteError>(t0)),
            },
        }
}

/// What `rewrite` owes at the root: `f_down` runs first, from the state
/// given. Its error is returned as it came; after `Stop` or `Jump` its node
/// is the result; otherwise its change flag is kept in the result.
pub open spec fn rewrite_root<R: TreeNodeRewriter>(st: R, e: Expr, r: Result<Transformed<Expr>, RewriteError>) -> bool {
    exists|rd: Result<Transformed<Expr>, RewriteError>|
        #[trigger] st.down_gives(e, rd) && match rd {
            Err(x) => r == Err::<Transformed<Expr>, RewriteError>(x),
            Ok(t0) => match t0.tnr {
                TreeNodeRecursion::Stop => r == Ok::<Transformed<Expr>, RewriteError>(t0),
                TreeNodeRecursion::Jump => r == Ok::<Transformed<Expr>, RewriteError>(
                    Transformed { data: t0.data, transformed: t0.transformed, tnr: TreeNodeRecursion::Continue },
                ),
                TreeNodeRecursion::Continue => r matches Ok(t) ==> (t0.transformed ==> t.transformed),
            },
        }
}

/// Whether a hook result, where it is a node, is no taller than the node `x` given.
pub open spec fn no_taller(x: Expr, r: Result<Transformed<Expr>, RewriteError>) -> bool {
    match r {
        Ok(t) => height(t.data) <= height(x),
        Err(_) => true,
    }
}

impl Expr {
    /// Apply `f` to every node top-down: the node, then the children of the
    /// node it returned, left to right. `Jump` skips those children; `Stop`
    /// ends the traversal. A hook that changes nothing leaves the tree as it
    /// was, flagged unchanged. The hook may not return a node taller than the
    /// one it was given: that bound is what makes the descent terminate.
    pub fn transform_down<F: Fn(Expr) -> Result<Transformed<Expr>, RewriteError>>(self, f: &F) -> (r: Result<
        Transformed<Expr>,
        RewriteError,
    >)
        requires
            forall|x: Expr| #[trigger] f.requires((x,)),
            forall|x: Expr, r: Result<Transformed<Expr>, RewriteError>| #[trigger] f.ensures((x,), r) ==> no_taller(x, r),
        ensures
            keeps_every_node(*f) ==> r == Ok::<Transformed<Expr>, RewriteError>(
                Transformed { data: self, transformed: false, tnr: TreeNodeRecursion::Continue },
            ),
            down_root(*f, self, r),
        decreases height(self),
    {
        let ghost input = self;
        let first = f(self);
        let top = match first {
            Ok(t) => t,
            Err(e) => return Err(e),
        };
        assert(f.ensures((input,), Ok::<Transformed<Expr>, RewriteError>(top)));
        match top.tnr {
            TreeNodeRecursion::Stop => return Ok(top),
            TreeNodeRecursion::Jump => return Ok(
                Transformed::new(top.data, top.transformed, TreeNodeRecursion::Continue),
            ),
            TreeNodeRecursion::Continue => {},
        }
        let was = top.transformed;
        let below = match top.data {
            Expr::Alias { expr, relation, name } => match expr.transform_down(f) {
                Ok(t) => Transformed::new(Expr::Alias { expr: Box::new(t.data), relation, name }, t.transformed, t.tnr),
                Err(e) => return Err(e),
            },
            Expr::Cast { expr, data_type } => match expr.transform_down(f) {
                Ok(t) => Transformed::new(Expr::Cast { expr: Box::new(t.data), data_type }, t.transformed, t.tnr),
                Err(e) => return Err(e),
            },
            Expr::Unnest { expr } => match expr.transform_down(f) {
                Ok(t) => Transformed::new(Expr::Unnest { expr: Box::new(t.data) }, t.transformed, t.tnr),
                Err(e) => return Err(e),
            },
            Expr::BinaryExpr { left, op, right } => {
                let l = match left.transform_down(f) {
                    Ok(t) => t,
                    Err(e) => return Err(e),
                };
                if l.tnr == TreeNodeRecursion::Stop {
                    Transformed::new(Expr::BinaryExpr { left: Box::new(l.data), op, right }, l.transformed, l.tnr)
                } else {
                    match right.transform_down(f) {
                        Ok(t) => Transformed::new(
                            Expr::BinaryExpr { left: Box::new(l.data), op, right: Box::new(t.data) },
                            l.transformed || t.transformed,
                            t.tnr,
                        ),
                        Err(e) => return Err(e),
                    }
                }
            },
            other => Transformed::new(other, false, TreeNodeRecursion::Continue),
        };
        Ok(below.absorb(was, TreeNodeRecursion::Continue))
    }

    /// Rewrite the tree with `rewriter`: `f_down` on a node, then its
    /// children left to right, then `f_up` on it. `Jump` from `f_down` skips
    /// the children and `f_up`; `Stop` ends the traversal. The first error
    /// ends it too and is returned.
    pub fn rewrite<R: TreeNodeRewriter>(self, rewriter: &mut R) -> (r: Result<Transformed<Expr>, RewriteError>)
        ensures
            rewrite_root(*old(rewriter), self, r),
        decreases height(self),
    {
        let ghost e = self;
        let ghost st = *rewriter;
        let rd = rewriter.f_down(self);
        let ghost gd = rd;
        assert(st.down_gives(e, gd));
        let down = match rd {
            Ok(t) => t,
            Err(e) => return Err(e),
        };
        match down.tnr {
            TreeNodeRecursion::Stop => return Ok(down),
            TreeNodeRecursion::Jump => return Ok(
                Transformed::new(down.data, down.transformed, TreeNodeRecursion::Continue),
            ),
            TreeNodeRecursion::Continue => {},
        }
        let was = down.transformed;
        let mid = match down.data {
            Expr::Alias { expr, relation, name } => match expr.rewrite(rewriter) {
                Ok(t) => Transformed::new(Expr::Alias { expr: Box::new(t.data), relation, name }, t.transformed, t.tnr),
                Err(e) => return Err(e),
            },
            Expr::Cast { expr, data_type } => match expr.rewrite(rewriter) {
                Ok(t) => Transformed::new(Expr::Cast { expr: Box::new(t.data), data_type }, t.transformed, t.tnr),
                Err(e) => return Err(e),
            },
            Expr::Unnest { expr } => match expr.rewrite(rewriter) {
                Ok(t) => Transformed::new(Expr::Unnest { expr: Box::new(t.data) }, t.transformed, t.tnr),
                Err(e) => return Err(e),
            },
            Expr::BinaryExpr { left, op, right } => {
                let l = match left.rewrite(rewriter) {
                    Ok(t) => t,
                    Err(e) => return Err(e),
                };
                if l.tnr == TreeNodeRecursion::Stop {
                    Transformed::new(Expr::BinaryExpr { left: Box::new(l.data), op, right }, l.transformed, l.tnr)
                } else {
                    match right.rewrite(rewriter) {
                        Ok(t) => Transformed::new(
                            Expr::BinaryExpr { left: Box::new(l.data), op, right: Box::new(t.data) },
                            l.transformed || t.transformed,
                            t.tnr,
                        ),
                        Err(e) => return Err(e),
                    }
                }
            },
            other => Transformed::new(other, false, TreeNodeRecursion::Continue),
        };
        if mid.tnr == TreeNodeRecursion::Continue {
            match rewriter.f_up(mid.data) {
                Ok(t) => {
                    let changed = t.transformed || mid.transformed || was;
                    Ok(Transformed::new(t.data, changed, t.tnr))
                },
                Err(e) => Err(e),
            }
        } else {
            Ok(Transformed::new(mid.data, mid.transformed || was, mid.tnr))
        }
    }

    /// Apply `f` to every node bottom-up: the children left to right, then
    /// the node. `Jump` from a child skips its later siblings and its parent;
    /// `Stop` ends the traversal. The first error of `f` ends it too.
    /// Apply `f` to every node bottom-up: the children left to right, then
    /// the node. `Jump` from a child skips its later siblings and its parent;
    /// `Stop` ends the traversal. The first error of `f` ends it too.
    pub fn transform<F: Fn(Expr) -> Result<Transformed<Expr>, RewriteError>>(self, f: &F) -> (r: Result<
        Transformed<Expr>,
        RewriteError,
    >)
        requires
            forall|x: Expr| #[trigger] f.requires((x,)),
        ensures
            keeps_every_node(*f) ==> r == Ok::<Transformed<Expr>, RewriteError>(
                Transformed { data: self, transformed: false, tnr: TreeNodeRecursion::Continue },
            ),
            is_leaf(self) ==> up_step(*f, self, false, TreeNodeRecursion::Continue, r),
            !is_leaf(self) ==> up_children(*f, self, r),
            r matches Ok(t) ==> (t.tnr != TreeNodeRecursion::Continue ==> hook_said(*f, t.tnr)),
        decreases self,
    {
        let ghost e = self;
        match self {
            Expr::Alias { expr, relation, name } => {
                let rc = expr.transform(f);
                match rc {
                    Ok(t) => finish_up(f, Expr::Alias { expr: Box::new(t.data), relation, name }, t.transformed, t.tnr),
                    Err(x) => Err(x),
                }
            },
            Expr::Cast { expr, data_type } => {
                let rc = expr.transform(f);
                match rc {
                    Ok(t) => finish_up(f, Expr::Cast { expr: Box::new(t.data), data_type }, t.transformed, t.tnr),
                    Err(x) => Err(x),
                }
            },
            Expr::Unnest { expr } => {
                let rc = expr.transform(f);
                match rc {
                    Ok(t) => finish_up(f, Expr::Unnest { expr: Box::new(t.data) }, t.transformed, t.tnr),
                    Err(x) => Err(x),
                }
            },
            Expr::BinaryExpr { left, op, right } => {
                let rl = left.transform(f);
                match rl {
                    Err(x) => Err(x),
                    Ok(l) => if l.tnr != TreeNodeRecursion::Continue {
                        finish_up(f, Expr::BinaryExpr { left: Box::new(l.data), op, right }, l.transformed, l.tnr)
                    } else {
                        let rr = right.transform(f);
                        match rr {
                            Ok(t) => finish_up(
                                f,
                                Expr::BinaryExpr { left: Box::new(l.data), op, right: Box::new(t.data) },
                                l.transformed || t.transformed,
                                t.tnr,
                            ),
                            Err(x) => Err(x),
                        }
                    },
                }
            },
            other => finish_up(f, other, false, TreeNodeRecursion::Continue),
        }
    }
}

/// What `transform` does at a node once its children are handled: with
/// `Continue`, `f` is applied to the node and the flags are or-ed; `Jump`
/// keeps the node and continues; `Stop` keeps it and stops.
pub open spec fn up_step<F: Fn(Expr) -> Result<Transformed<Expr>, RewriteError>>(
    f: F,
    node: Expr,
    changed: bool,
    tnr: TreeNodeRecursion,
    r: Result<Transformed<Expr>, RewriteError>,
) -> bool {
    match tnr {
        TreeNodeRecursion::Continue => exists|ru: Result<Transformed<Expr>, RewriteError>|
            #[trigger] f.ensures((node,), ru) && match ru {
                Ok(tu) => r == Ok::<Transformed<Expr>, RewriteError>(
                    Transformed { data: tu.data, transformed: tu.transformed || changed, tnr: tu.tnr },
                ),
                Err(x) => r == Err::<Transformed<Expr>, RewriteError>(x),
            },
        TreeNodeRecursion::Jump => r == Ok::<Transformed<Expr>, RewriteError>(
            Transformed { data: node, transformed: changed, tnr: TreeNodeRecursion::Continue },
        ),
        TreeNodeRecursion::Stop => r == Ok::<Transformed<Expr>, RewriteError>(
            Transformed { data: node, transformed: changed, tnr: TreeNodeRecursion::Stop },
        ),
    }
}

/// At a node with children, what `transform` returns is either an error
/// (of a child or of `f`) or the step at the node applied to some rebuilt
/// node of the same kind: a successful result always comes from `up_step`.
pub open spec fn up_children<F: Fn(Expr) -> Result<Transformed<Expr>, RewriteError>>(
    f: F,
    e: Expr,
    r: Result<Transformed<Expr>, RewriteError>,
) -> bool {
    r is Ok ==> exists|node: Expr, changed: bool, tnr: TreeNodeRecursion|
        #[trigger] up_step(f, node, changed, tnr, r) && same_kind(node, e) && (tnr == TreeNodeRecursion::Continue
            || hook_said(f, tnr))
}

/// Whether some call of `f` returned the recursion signal `tnr`.
pub open spec fn hook_said<F: Fn(Expr) -> Result<Transformed<Expr>, RewriteError>>(f: F, tnr: TreeNodeRecursion) -> bool {
    exists|x: Expr, t: Transformed<Expr>|
        #[trigger] f.ensures((x,), Ok::<Transformed<Expr>, RewriteError>(t)) && t.tnr == tnr
}

/// Whether two expressions are the same kind of node, with the same
/// operator, type or name where the kind has one.
pub open spec fn same_kind(a: Expr, b: Expr) -> bool {
    match (a, b) {
        (Expr::Alias { relation: r1, name: n1, .. }, Expr::Alias { relation: r2, name: n2, .. }) => r1 == r2 && n1 == n2,
        (Expr::Cast { data_type: t1, .. }, Expr::Cast { data_type: t2, .. }) => t1 == t2,
        (Expr::Unnest { .. }, Expr::Unnest { .. }) => true,
        (Expr::BinaryExpr { op: o1, .. }, Expr::BinaryExpr { op: o2, .. }) => o1 == o2,
        _ => false,
    }
}

/// The step of `transform` at a node whose children are handled.
fn finish_up<F: Fn(Expr) -> Result<Transformed<Expr>, RewriteError>>(
    f: &F,
    node: Expr,
    changed: bool,
    tnr: TreeNodeRecursion,
) -> (r: Result<Transformed<Expr>, RewriteError>)
    requires
        forall|x: Expr| #[trigger] f.requires((x,)),
    ensures
        up_step(*f, node, changed, tnr, r),
        keeps_every_node(*f) && tnr == TreeNodeRecursion::Continue ==> r == Ok::<Transformed<Expr>, RewriteError>(
            Transformed { data: node, transformed: changed, tnr: TreeNodeRecursion::Continue },
        ),
        r matches Ok(t) ==> (t.tnr != TreeNodeRecursion::Continue ==> (hook_said(*f, t.tnr) || t.tnr == tnr)),
{
    match tnr {
        TreeNodeRecursion::Continue => {
            let ghost n = node;
            let ru = f(node);
            let ghost g = ru;
            assert(f.ensures((n,), g));
            match ru {
                Ok(t) => Ok(Transformed::new(t.data, t.transformed || changed, t.tnr)),
                Err(x) => Err(x),
            }
        },
        TreeNodeRecursion::Jump => Ok(Transformed::new(node, changed, TreeNodeRecursion::Continue)),
        TreeNodeRecursion::Stop => Ok(Transformed::new(node, changed, TreeNodeRecursion::Stop)),
    }
}

/// Options handed to the rewrites of a registry; the traversal reads none of them.
#[derive(Debug, Default)]
pub struct ConfigOptions {}

/// A rewrite of single nodes, supplied from outside this library, for
/// example turning an operator into a call of an equivalent function.
/// It handles one node only; the traversal does the recursion.
pub trait FunctionRewrite {
    /// A name for messages.
    fn name(&self) -> &str;

    /// What the rewrite returns on `expr`. An implementation verified here
    /// states it; by default any result is allowed.
    open spec fn rewrites_to(&self, expr: Expr, r: Result<Transformed<Expr>, RewriteError>) -> bool {
        true
    }

    /// Possibly rewrite `expr`, a node over `schema`.
    fn rewrite(&self, expr: Expr, schema: &DFSchema, config: &ConfigOptions) -> (r: Result<Transformed<Expr>, RewriteError>)
        ensures
            self.rewrites_to(expr, r),
    ;
}

/// What trying the rewrites from position `i` on `n` gives: the first one
/// that reports a change decides; an unchanged result is handed to the next;
/// with none left, `n` comes back unchanged. An error ends the search.
pub open spec fn registry_outcome<R: FunctionRewrite>(
    rws: Seq<R>,
    i: int,
    n: Expr,
    r: Result<Transformed<Expr>, RewriteError>,
) -> bool
    decreases rws.len() - i,
{
    if i < 0 || i >= rws.len() {
        r == Ok::<Transformed<Expr>, RewriteError>(
            Transformed { data: n, transformed: false, tnr: TreeNodeRecursion::Continue },
        )
    } else {
        exists|ri: Result<Transformed<Expr>, RewriteError>|
            #[trigger] rws[i].rewrites_to(n, ri) && match ri {
                Err(x) => r == Err::<Transformed<Expr>, RewriteError>(x),
                Ok(t) => if t.transformed {
                    r == Ok::<Transformed<Expr>, RewriteError>(
                        Transformed { data: t.data, transformed: true, tnr: TreeNodeRecursion::Continue },
                    )
                } else {
                    registry_outcome(rws, i + 1, t.data, r)
                },
            }
    }
}

/// At a node with children, a successful result is what the rewrites give
/// on a rebuilt node of the same kind, its flag or-ed with the children's.
pub open spec fn registry_children<R: FunctionRewrite>(
    rws: Seq<R>,
    e: Expr,
    r: Result<Transformed<Expr>, RewriteError>,
) -> bool {
    r is Ok ==> exists|node: Expr, t0: Transformed<Expr>|
        #[trigger] registry_outcome(rws, 0, node, Ok::<Transformed<Expr>, RewriteError>(t0)) && same_kind(node, e)
            && r->Ok_0.data == t0.data && (t0.transformed ==> r->Ok_0.transformed)
            && r->Ok_0.tnr == TreeNodeRecursion::Continue
}

fn rewrite_node<R: FunctionRewrite>(
    expr: Expr,
    rewrites: &Vec<R>,
    schema: &DFSchema,
    config: &ConfigOptions,
) -> (r: Result<Transformed<Expr>, RewriteError>)
    ensures
        rewrites@.len() == 0 ==> r == Ok::<Transformed<Expr>, RewriteError>(
            Transformed { data: expr, transformed: false, tnr: TreeNodeRecursion::Continue },
        ),
        registry_outcome(rewrites@, 0, expr, r),
        r matches Ok(t) ==> t.tnr == TreeNodeRecursion::Continue,
    decreases rewrites@.len(),
{
    let mut node = expr;
    let mut i: usize = 0;
    while i < rewrites.len()
        invariant
            i <= rewrites@.len(),
            rewrites@.len() == 0 ==> node == expr,
            forall|res: Result<Transformed<Expr>, RewriteError>|
                #[trigger] registry_outcome(rewrites@, i as int, node, res) ==> registry_outcome(rewrites@, 0, expr, res),
        decreases rewrites@.len() - i,
    {
        let ghost n0 = node;
        let ri = rewrites[i].rewrite(node, schema, config);
        let ghost g = ri;
        assert(rewrites@[i as int].rewrites_to(n0, g));
        match ri {
            Ok(t) => {
                if t.transformed {
                    let r = Ok(Transformed::yes(t.data));
                    assert(registry_outcome(rewrites@, i as int, n0, r));
                    return r;
                }
                node = t.data;
                assert forall|res: Result<Transformed<Expr>, RewriteError>|
                    #[trigger] registry_outcome(rewrites@, i + 1, node, res) implies registry_outcome(rewrites@, 0, expr, res) by {
                    assert(registry_outcome(rewrites@, i as int, n0, res));
                }
            },
            Err(e) => {
                let r = Err(e);
                assert(registry_outcome(rewrites@, i as int, n0, r));
                return r;
            },
        }
        i += 1;
    }
    let r = Ok(Transformed::no(node));
    assert(registry_outcome(rewrites@, i as int, node, r));
    r
}

/// Apply the registered rewrites bottom-up: at each node, after its children,
/// the rewrites are tried in order until one changes the node. With no
/// rewrites registered the tree comes back unchanged.
pub fn apply_function_rewrites<R: FunctionRewrite>(
    expr: Expr,
    rewrites: &Vec<R>,
    schema: &DFSchema,
    config: &ConfigOptions,
) -> (r: Result<Transformed<Expr>, RewriteError>)
    ensures
        rewrites@.len() == 0 ==> r == Ok::<Transformed<Expr>, RewriteError>(
            Transformed { data: expr, transformed: false, tnr: TreeNodeRecursion::Continue },
        ),
        is_leaf(expr) ==> registry_outcome(rewrites@, 0, expr, r),
        !is_leaf(expr) ==> registry_children(rewrites@, expr, r),
    decreases expr,
{
    let (node, below) = match expr {
        Expr::Alias { expr, relation, name } => match apply_function_rewrites(*expr, rewrites, schema, config) {
            Ok(t) => (Expr::Alias { expr: Box::new(t.data), relation, name }, t.transformed),
            Err(e) => return Err(e),
        },
        Expr::Cast { expr, data_type } => match apply_function_rewrites(*expr, rewrites, schema, config) {
            Ok(t) => (Expr::Cast { expr: Box::new(t.data), data_type }, t.transformed),
            Err(e) => return Err(e),
        },
        Expr::Unnest { expr } => match apply_function_rewrites(*expr, rewrites, schema, config) {
            Ok(t) => (Expr::Unnest { expr: Box::new(t.data) }, t.transformed),
            Err(e) => return Err(e),
        },
        Expr::BinaryExpr { left, op, right } => {
            let l = match apply_function_rewrites(*left, rewrites, schema, config) {
                Ok(t) => t,
                Err(e) => return Err(e),
            };
            let r = match apply_function_rewrites(*right, rewrites, schema, config) {
                Ok(t) => t,
                Err(e) => return Err(e),
            };
            (Expr::BinaryExpr { left: Box::new(l.data), op, right: Box::new(r.data) }, l.transformed || r.transformed)
        },
        other => (other, false),
    };
    let ghost n0 = node;
    let rn = rewrite_node(node, rewrites, schema, config);
    let ghost g = rn;
    match rn {
        Ok(t) => {
            let ghost t0 = t;
            assert(registry_outcome(rewrites@, 0, n0, Ok::<Transformed<Expr>, RewriteError>(t0)));
            Ok(Transformed::new(t.data, t.transformed || below, TreeNodeRecursion::Continue))
        },
        Err(e) => Err(e),
    }
}

} // verus!
