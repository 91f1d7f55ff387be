//! The expression tree that plan nodes carry.
use vstd::prelude::*;
use crate::common::{rel_view, Column, DataType};

verus! {

/// A literal value.
#[derive(Clone, Debug, PartialEq, Eq)]
pub enum ScalarValue {
    Boolean(bool),
    Int8(i8),
    Int32(i32),
    Int64(i64),
    Utf8(String),
}

impl ScalarValue {
    pub open spec fn spec_data_type(&self) -> DataType {
        match self {
            ScalarValue::Boolean(_) => DataType::Boolean,
            ScalarValue::Int8(_) => DataType::Int8,
            ScalarValue::Int32(_) => DataType::Int32,
            ScalarValue::Int64(_) => DataType::Int64,
            ScalarValue::Utf8(_) => DataType::Utf8,
        }
    }

    #[verifier::when_used_as_spec(spec_data_type)]
    pub fn data_type(&self) -> (r: DataType)
        ensures
            r == self.spec_data_type(),
    {
        match self {
            ScalarValue::Boolean(_) => DataType::Boolean,
            ScalarValue::Int8(_) => DataType::Int8,
            ScalarValue::Int32(_) => DataType::Int32,
            ScalarValue::Int64(_) => DataType::Int64,
            ScalarValue::Utf8(_) => DataType::Utf8,
        }
    }
}

/// A binary operator.
#[derive(Clone, Copy, Debug, PartialEq, Eq, Structural)]
pub enum Operator {
    Eq,
    Plus,
}

/// A scalar expression.
#[derive(Debug, PartialEq, Eq)]
pub enum Expr {
    /// A reference to a column.
    Column(Column),
    /// A constant.
    Literal(ScalarValue),
    /// An expression under a (possibly qualified) output name.
    Alias { expr: Box<Expr>, relation: Option<String>, name: String },
    /// `left op right`.
    BinaryExpr { left: Box<Expr>, op: Operator, right: Box<Expr> },
    /// An explicit conversion to a type.
    Cast { expr: Box<Expr>, data_type: DataType },
    /// A column of an enclosing query, with its type.
    OuterReferenceColumn(DataType, Column),
    /// Expansion of a list into rows.
    Unnest { expr: Box<Expr> },
    /// `*` or `t.*`, resolved later.
    Wildcard { qualifier: Option<String> },
}

/// A sort key.
#[derive(Debug, PartialEq, Eq)]
pub struct Sort {
    pub expr: Expr,
    pub asc: bool,
    pub nulls_first: bool,
}

impl Sort {
    pub fn new(expr: Expr, asc: bool, nulls_first: bool) -> (r: Sort)
        ensures
            r == (Sort { expr, asc, nulls_first }),
    {
        Sort { expr, asc, nulls_first }
    }
}

/// The expression with every alias at its root removed.
pub open spec fn spec_unalias(e: Expr) -> Expr
    decreases e,
{
    match e {
        Expr::Alias { expr, .. } => spec_unalias(*expr),
        _ => e,
    }
}

/// Strips nested aliases down to the first expression that is no alias.
pub fn unalias(expr: Expr) -> (r: Expr)
    ensures
        r == spec_unalias(expr),
        !(r is Alias),
    decreases expr,
{
    match expr {
        Expr::Alias { expr, .. } => unalias(*expr),
        _ => expr,
    }
}

impl Expr {
    /// Give the expression an unqualified output name.
    pub fn alias(self, name: String) -> (r: Expr)
        ensures
            r == (Expr::Alias { expr: Box::new(self), relation: None, name }),
    {
        Expr::Alias { expr: Box::new(self), relation: None, name }
    }

    /// Give the expression a possibly qualified output name.
    pub fn alias_qualified(self, relation: Option<String>, name: String) -> (r: Expr)
        ensures
            r == (Expr::Alias { expr: Box::new(self), relation, name }),
    {
        Expr::Alias { expr: Box::new(self), relation, name }
    }

    /// The column, if the expression is a column reference.
    pub fn try_as_col(&self) -> (r: Option<&Column>)
        ensures
            r is Some <==> self is Column,
            self matches Expr::Column(c) ==> *r.unwrap() == c,
    {
        match self {
            Expr::Column(c) => Some(c),
            _ => None,
        }
    }
}

/// Whether two literals hold the same value.
pub open spec fn same_value(a: ScalarValue, b: ScalarValue) -> bool {
    match (a, b) {
        (ScalarValue::Utf8(x), ScalarValue::Utf8(y)) => x@ == y@,
        (ScalarValue::Utf8(_), _) => false,
        (_, ScalarValue::Utf8(_)) => false,
        _ => a == b,
    }
}

/// Whether two expressions are the same tree over the same names and values.
pub open spec fn same_tree(a: Expr, b: Expr) -> bool
    decreases a,
{
    match a {
        Expr::Column(x) => b matches Expr::Column(y) && x.view() == y.view(),
        Expr::Literal(x) => b matches Expr::Literal(y) && same_value(x, y),
        Expr::Alias { expr, relation, name } => b matches Expr::Alias { expr: e2, relation: r2, name: n2 }
            && same_tree(*expr, *e2) && rel_view(relation) == rel_view(r2) && name@ == n2@,
        Expr::BinaryExpr { left, op, right } => b matches Expr::BinaryExpr { left: l2, op: o2, right: r2 }
            && same_tree(*left, *l2) && op == o2 && same_tree(*right, *r2),
        Expr::Cast { expr, data_type } => b matches Expr::Cast { expr: e2, data_type: t2 }
            && same_tree(*expr, *e2) && data_type == t2,
        Expr::OuterReferenceColumn(t, x) => b matches Expr::OuterReferenceColumn(t2, y) && t == t2
            && x.view() == y.view(),
        Expr::Unnest { expr } => b matches Expr::Unnest { expr: e2 } && same_tree(*expr, *e2),
        Expr::Wildcard { qualifier } => b matches Expr::Wildcard { qualifier: q2 } && rel_view(qualifier)
            == rel_view(q2),
    }
}

impl ScalarValue {
    /// A copy that is equal to `self`.
    pub fn duplicate(&self) -> (r: ScalarValue)
        ensures
            r == *self,
    {
        match self {
            ScalarValue::Boolean(b) => ScalarValue::Boolean(*b),
            ScalarValue::Int8(n) => ScalarValue::Int8(*n),
            ScalarValue::Int32(n) => ScalarValue::Int32(*n),
            ScalarValue::Int64(n) => ScalarValue::Int64(*n),
            ScalarValue::Utf8(s) => ScalarValue::Utf8(s.clone()),
        }
    }
}

impl Expr {
    /// A copy that is equal to `self`.
    pub fn duplicate(&self) -> (r: Expr)
        ensures
            r == *self,
        decreases self,
    {
        match self {
            Expr::Column(c) => Expr::Column(c.duplicate()),
            Expr::Literal(v) => Expr::Literal(v.duplicate()),
            Expr::Alias { expr, relation, name } => Expr::Alias {
                expr: Box::new(expr.duplicate()),
                relation: crate::common::clone_relation(relation),
                name: name.clone(),
            },
            Expr::BinaryExpr { left, op, right } => Expr::BinaryExpr {
                left: Box::new(left.duplicate()),
                op: *op,
                right: Box::new(right.duplicate()),
            },
            Expr::Cast { expr, data_type } => Expr::Cast { expr: Box::new(expr.duplicate()), data_type: *data_type },
            Expr::OuterReferenceColumn(t, c) => Expr::OuterReferenceColumn(*t, c.duplicate()),
            Expr::Unnest { expr } => Expr::Unnest { expr: Box::new(expr.duplicate()) },
            Expr::Wildcard { qualifier } => Expr::Wildcard { qualifier: crate::common::clone_relation(qualifier) },
        }
    }
}

} // verus!
