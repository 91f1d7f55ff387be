//! Plan nodes, the types of expressions over a schema, and casts.
use vstd::prelude::*;
use crate::common::{rel_view, Column, DFField, DFSchema, DataType, RewriteError};
use crate::expr::{Expr, Operator};
use crate::names::qualified_name;

verus! {

/// A node that computes one expression per output field over its input.
#[derive(Debug, PartialEq, Eq)]
pub struct Projection {
    pub expr: Vec<Expr>,
    pub input: Box<LogicalPlan>,
    pub schema: DFSchema,
}

/// A relational plan node.
#[derive(Debug, PartialEq, Eq)]
pub enum LogicalPlan {
    Projection(Projection),
    Filter { predicate: Expr, input: Box<LogicalPlan> },
    Join {
        left: Box<LogicalPlan>,
        right: Box<LogicalPlan>,
        on: Vec<(Expr, Expr)>,
        using_columns: Vec<Vec<Column>>,
        schema: DFSchema,
    },
    TableScan { table_name: String, filters: Vec<Expr>, schema: DFSchema },
    Limit { skip: usize, fetch: Option<usize>, input: Box<LogicalPlan> },
    Aggregate { group_expr: Vec<Expr>, aggr_expr: Vec<Expr>, input: Box<LogicalPlan>, schema: DFSchema },
    Statement { schema: DFSchema },
}

/// The output schema of a plan node.
pub open spec fn plan_schema(p: LogicalPlan) -> DFSchema
    decreases p,
{
    match p {
        LogicalPlan::Projection(proj) => proj.schema,
        LogicalPlan::Filter { input, .. } => plan_schema(*input),
        LogicalPlan::Join { schema, .. } => schema,
        LogicalPlan::TableScan { schema, .. } => schema,
        LogicalPlan::Limit { input, .. } => plan_schema(*input),
        LogicalPlan::Aggregate { schema, .. } => schema,
        LogicalPlan::Statement { schema } => schema,
    }
}

impl LogicalPlan {
    pub fn schema(&self) -> (r: &DFSchema)
        ensures
            *r == plan_schema(*self),
        decreases self,
    {
        match self {
            LogicalPlan::Projection(proj) => &proj.schema,
            LogicalPlan::Filter { input, .. } => input.schema(),
            LogicalPlan::Join { schema, .. } => schema,
            LogicalPlan::TableScan { schema, .. } => schema,
            LogicalPlan::Limit { input, .. } => input.schema(),
            LogicalPlan::Aggregate { schema, .. } => schema,
            LogicalPlan::Statement { schema } => schema,
        }
    }
}

pub open spec fn is_integer(t: DataType) -> bool {
    t is Int8 || t is Int32 || t is Int64
}

/// The wider of two integer types.
pub open spec fn wider(a: DataType, b: DataType) -> DataType {
    if a is Int64 || b is Int64 {
        DataType::Int64
    } else if a is Int32 || b is Int32 {
        DataType::Int32
    } else {
        DataType::Int8
    }
}

/// Whether a value of type `from` can be cast to type `to`.
pub open spec fn can_cast(from: DataType, to: DataType) -> bool {
    ||| from == to
    ||| to is Utf8
    ||| (is_integer(from) || from is Boolean) && (is_integer(to) || to is Boolean)
}

/// The first field that `c` names exactly.
pub open spec fn field_type(c: Column, fields: Seq<DFField>) -> Option<DataType>
    decreases fields.len(),
{
    if fields.len() == 0 {
        None
    } else if fields[0].column().view() == c.view() {
        Some(fields[0].data_type)
    } else {
        field_type(c, fields.drop_first())
    }
}

/// The type of an expression over the fields of its input, if it has one.
pub open spec fn type_of(e: Expr, fields: Seq<DFField>) -> Option<DataType>
    decreases e,
{
    match e {
        Expr::Column(c) => field_type(c, fields),
        Expr::Literal(v) => Some(v.spec_data_type()),
        Expr::Alias { expr, .. } => type_of(*expr, fields),
        Expr::Cast { data_type, .. } => Some(data_type),
        Expr::OuterReferenceColumn(t, _) => Some(t),
        Expr::Unnest { expr } => type_of(*expr, fields),
        Expr::Wildcard { .. } => None,
        Expr::BinaryExpr { left, op, right } => match (type_of(*left, fields), type_of(*right, fields)) {
            (Some(l), Some(r)) => match op {
                Operator::Eq => Some(DataType::Boolean),
                Operator::Plus => if is_integer(l) && is_integer(r) { Some(wider(l, r)) } else { None },
            },
            _ => None,
        },
    }
}

fn lookup_type(c: &Column, fields: &Vec<DFField>) -> (r: Option<DataType>)
    ensures
        r == field_type(*c, fields@),
{
    let mut k: usize = 0;
    assert(fields@.subrange(0, fields@.len() as int) =~= fields@);
    while k < fields.len()
        invariant
            k <= fields@.len(),
            field_type(*c, fields@) == field_type(*c, fields@.subrange(k as int, fields@.len() as int)),
        decreases fields@.len() - k,
    {
        assert(fields@.subrange(k as int, fields@.len() as int).drop_first() =~= fields@.subrange(
            k + 1,
            fields@.len() as int,
        ));
        if fields[k].qualified_column().same_as(c) {
            return Some(fields[k].data_type);
        }
        k += 1;
    }
    None
}

fn integer_type(t: DataType) -> (r: bool)
    ensures
        r == is_integer(t),
{
    match t {
        DataType::Int8 | DataType::Int32 | DataType::Int64 => true,
        _ => false,
    }
}

/// Whether a cast from `from` to `to` exists.
pub fn can_cast_types(from: DataType, to: DataType) -> (r: bool)
    ensures
        r == can_cast(from, to),
{
    from == to || to == DataType::Utf8 || ((integer_type(from) || from == DataType::Boolean) && (
    integer_type(to) || to == DataType::Boolean))
}

impl Expr {
    /// The type of the expression over `schema`; fails where it has none.
    pub fn get_type(&self, schema: &DFSchema) -> (r: Result<DataType, RewriteError>)
        ensures
            match r {
                Ok(t) => type_of(*self, schema.fields@) == Some(t),
                Err(e) => type_of(*self, schema.fields@) is None && e is Plan,
            },
        decreases self,
    {
        match self {
            Expr::Column(c) => match lookup_type(c, &schema.fields) {
                Some(t) => Ok(t),
                None => Err(RewriteError::Plan { message: String::from_str("column not in schema") }),
            },
            Expr::Literal(v) => Ok(v.data_type()),
            Expr::Alias { expr, .. } => expr.get_type(schema),
            Expr::Cast { data_type, .. } => Ok(*data_type),
            Expr::OuterReferenceColumn(t, _) => Ok(*t),
            Expr::Unnest { expr } => expr.get_type(schema),
            Expr::Wildcard { .. } => Err(RewriteError::Plan { message: String::from_str("wildcard has no type") }),
            Expr::BinaryExpr { left, op, right } => {
                let l = left.get_type(schema);
                let r = right.get_type(schema);
                match (l, r) {
                    (Ok(lt), Ok(rt)) => match op {
                        Operator::Eq => Ok(DataType::Boolean),
                        Operator::Plus => if integer_type(lt) && integer_type(rt) {
                            Ok(if lt == DataType::Int64 || rt == DataType::Int64 {
                                DataType::Int64
                            } else if lt == DataType::Int32 || rt == DataType::Int32 {
                                DataType::Int32
                            } else {
                                DataType::Int8
                            })
                        } else {
                            Err(RewriteError::Plan { message: String::from_str("arithmetic needs integers") })
                        },
                    },
                    (Err(e), _) => Err(e),
                    (_, Err(e)) => Err(e),
                }
            },
        }
    }
}

/// The result of casting `e` to `t` over `fields`: `e` itself where it has
/// that type already, a cast where one exists, `None` otherwise.
pub open spec fn cast_result(e: Expr, t: DataType, fields: Seq<DFField>) -> Option<Expr> {
    match type_of(e, fields) {
        Some(from) => if from == t {
            Some(e)
        } else if can_cast(from, t) {
            Some(Expr::Cast { expr: Box::new(e), data_type: t })
        } else {
            None
        },
        None => None,
    }
}

impl Expr {
    /// Convert the expression to type `t`, adding a cast where needed.
    pub fn cast_to(self, t: DataType, schema: &DFSchema) -> (r: Result<Expr, RewriteError>)
        ensures
            match r {
                Ok(e) => cast_result(self, t, schema.fields@) == Some(e),
                Err(err) => cast_result(self, t, schema.fields@) is None && (match type_of(self, schema.fields@) {
                    Some(from) => err == RewriteError::TypeCoercion { from, to: t },
                    None => err is Plan,
                }),
            },
    {
        match self.get_type(schema) {
            Ok(from) => if from == t {
                Ok(self)
            } else if can_cast_types(from, t) {
                Ok(Expr::Cast { expr: Box::new(self), data_type: t })
            } else {
                Err(RewriteError::TypeCoercion { from, to: t })
            },
            Err(e) => Err(e),
        }
    }
}

/// The field under which a projection exposes `e`.
pub open spec fn projected_field(f: DFField, e: Expr, input: Seq<DFField>) -> bool {
    &&& (rel_view(f.relation), f.name@) == qualified_name(e)
    &&& type_of(e, input) == Some(f.data_type)
}

/// Whether every expression has a type over `input`.
pub open spec fn all_typed(exprs: Seq<Expr>, input: Seq<DFField>) -> bool {
    forall|i: int| 0 <= i < exprs.len() ==> #[trigger] type_of(exprs[i], input) is Some
}

impl Projection {
    /// A projection of `expr` over `input`, its schema derived from the expressions.
    pub fn try_new(expr: Vec<Expr>, input: Box<LogicalPlan>) -> (r: Result<Projection, RewriteError>)
        ensures
            match r {
                Ok(p) => all_typed(expr@, plan_schema(*input).fields@) && p.expr == expr && p.input == input
                    && p.schema.fields@.len() == expr@.len() && forall|i: int|
                    0 <= i < expr@.len() ==> projected_field(
                        #[trigger] p.schema.fields@[i],
                        expr@[i],
                        plan_schema(*input).fields@,
                    ),
                Err(e) => !all_typed(expr@, plan_schema(*input).fields@) && e is Plan,
            },
    {
        let mut fields: Vec<DFField> = Vec::new();
        let mut i: usize = 0;
        while i < expr.len()
            invariant
                i <= expr@.len(),
                fields@.len() == i,
                forall|k: int| 0 <= k < i ==> projected_field(
                    #[trigger] fields@[k],
                    expr@[k],
                    plan_schema(*input).fields@,
                ),
            decreases expr@.len() - i,
        {
            match expr[i].get_type(input.schema()) {
                Ok(t) => {
                    let (relation, name) = expr[i].qualified_name();
                    fields.push(DFField { relation, name, data_type: t });
                },
                Err(e) => {
                    assert(!(type_of(expr@[i as int], plan_schema(*input).fields@) is Some));
                    return Err(e);
                },
            }
            i += 1;
        }
        assert forall|k: int| 0 <= k < expr@.len() implies #[trigger] type_of(
            expr@[k],
            plan_schema(*input).fields@,
        ) is Some by {
            assert(projected_field(fields@[k], expr@[k], plan_schema(*input).fields@));
        }
        Ok(Projection { expr, input, schema: DFSchema { fields } })
    }
}

} // verus!
