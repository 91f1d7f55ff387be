use expr_rewriter::common::{Column, DFField, DFSchema, DataType};
use expr_rewriter::expr::{unalias, Expr};
use expr_rewriter::names::col;
use expr_rewriter::plan::LogicalPlan;
use expr_rewriter::preserve::NamePreserver;
use expr_rewriter::rewrite::{
    create_col_from_scalar_expr, normalize_col, normalize_cols, replace_col, strip_outer_reference,
    unnormalize_cols,
};
use expr_rewriter::traverse::{apply_function_rewrites, ConfigOptions, FunctionRewrite};
use expr_rewriter::tree::Transformed;
use expr_rewriter::common::RewriteError;

fn scan() -> LogicalPlan {
    LogicalPlan::TableScan {
        table_name: "t".to_string(),
        filters: vec![],
        schema: DFSchema {
            fields: vec![DFField { relation: Some("t".to_string()), name: "a".to_string(), data_type: DataType::Int32 }],
        },
    }
}

#[test]
fn normalize_against_plan() {
    assert_eq!(normalize_col(col("a"), &scan()).unwrap(), col("t.a"));
    assert_eq!(normalize_cols(vec![col("a"), col("t.a")], &scan()).unwrap(), vec![col("t.a"), col("t.a")]);
    assert!(normalize_cols(vec![col("a"), col("b")], &scan()).is_err());
}

#[test]
fn replace_named_columns() {
    let map = vec![(Column::from_qualified_name("t.a"), Column::from_qualified_name("u.a"))];
    let out = replace_col(col("t.a").add(col("t.b")), &map).unwrap();
    assert_eq!(out, col("u.a").add(col("t.b")));
}

#[test]
fn strip_outer_references() {
    let e = Expr::OuterReferenceColumn(DataType::Int32, Column::from_qualified_name("t.a")).add(col("b"));
    assert_eq!(strip_outer_reference(e), col("t.a").add(col("b")));
}

#[test]
fn unnormalize_list() {
    assert_eq!(unnormalize_cols(vec![col("t.a"), col("u.b")]), vec![col("a"), col("b")]);
}

#[test]
fn unalias_nested() {
    let e = col("a").alias("x".to_string()).alias("y".to_string());
    assert_eq!(unalias(e), col("a"));
}

#[test]
fn column_for_subquery() {
    let c = create_col_from_scalar_expr(&col("t.a").add(col("b")), "sq".to_string()).unwrap();
    assert_eq!(c, Column::new(Some("sq".to_string()), "t.a + b".to_string()));
    let c = create_col_from_scalar_expr(&col("t.a"), "sq".to_string()).unwrap();
    assert_eq!(c, Column::new(Some("sq".to_string()), "a".to_string()));
    let c = create_col_from_scalar_expr(&col("a").alias("x".to_string()), "sq".to_string()).unwrap();
    assert_eq!(c, Column::new(Some("sq".to_string()), "x".to_string()));
}

#[test]
fn preserver_for_filter_is_inert() {
    let plan = LogicalPlan::Filter { predicate: col("a"), input: Box::new(scan()) };
    let out = NamePreserver::new(&plan).save(&col("a")).restore(col("b"));
    assert_eq!(out, col("b"));
    let out = NamePreserver::new(&scan()).save(&col("a")).restore(col("b"));
    assert_eq!(out, col("b"));
    let proj = LogicalPlan::Statement { schema: DFSchema::empty() };
    let out = NamePreserver::new(&proj).save(&col("a")).restore(col("b"));
    assert_eq!(out, col("b"));
}

#[derive(Debug)]
struct PlusToEq;

impl FunctionRewrite for PlusToEq {
    fn name(&self) -> &str {
        "plus_to_eq"
    }

    fn rewrite(&self, expr: Expr, _: &DFSchema, _: &ConfigOptions) -> Result<Transformed<Expr>, RewriteError> {
        match expr {
            Expr::BinaryExpr { left, op: expr_rewriter::expr::Operator::Plus, right } => {
                Ok(Transformed::yes(Expr::BinaryExpr { left, op: expr_rewriter::expr::Operator::Eq, right }))
            }
            other => Ok(Transformed::no(other)),
        }
    }
}

#[test]
fn registry_rewrites_bottom_up() {
    let e = col("a").add(col("b")).add(col("c"));
    let out = apply_function_rewrites(e, &vec![PlusToEq], &DFSchema::empty(), &ConfigOptions::default()).unwrap();
    assert!(out.transformed);
    assert_eq!(out.data, col("a").eq(col("b")).eq(col("c")));
    let none: Vec<PlusToEq> = vec![];
    let out = apply_function_rewrites(col("a"), &none, &DFSchema::empty(), &ConfigOptions::default()).unwrap();
    assert!(!out.transformed);
}

#[test]
fn unnormalize_keeps_outer_references() {
    let outer = Expr::OuterReferenceColumn(DataType::Int32, Column::from_qualified_name("t.a"));
    let e = outer.duplicate().add(col("u.b"));
    assert_eq!(expr_rewriter::rewrite::unnormalize_col(e), outer.add(col("b")));
}

#[test]
fn normalizing_twice_changes_nothing() {
    let once = normalize_col(col("a").add(col("t.a")), &scan()).unwrap();
    let twice = normalize_col(once.duplicate(), &scan()).unwrap();
    assert_eq!(once, twice);
}
