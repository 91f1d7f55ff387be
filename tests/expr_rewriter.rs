use expr_rewriter::coerce::coerce_plan_expr_for_schema;
use expr_rewriter::common::{Column, DFField, DFSchema, DataType, RewriteError};
use expr_rewriter::expr::{unalias, Expr, ScalarValue};
use expr_rewriter::names::{col, lit_str};
use expr_rewriter::plan::LogicalPlan;
use expr_rewriter::preserve::NamePreserver;
use expr_rewriter::rewrite::{
    normalize_col_with_schemas_and_ambiguity_check, normalize_col_with_schemas_transformed,
    unnormalize_col,
};
use expr_rewriter::traverse::TreeNodeRewriter;
use expr_rewriter::tree::Transformed;

fn relation_of(q: &str) -> String {
    Column::from_qualified_name(&format!("{}.x", q)).relation.unwrap()
}

fn make_schema_with_empty_metadata(qualifiers: Vec<Option<&str>>, fields: Vec<&str>) -> DFSchema {
    let fields = qualifiers
        .iter()
        .zip(fields.iter())
        .map(|(q, f)| DFField {
            relation: q.map(relation_of),
            name: f.to_string(),
            data_type: DataType::Int8,
        })
        .collect();
    DFSchema { fields }
}

fn lit_i32(v: i32) -> Expr {
    Expr::Literal(ScalarValue::Int32(v))
}

fn lit_i64(v: i64) -> Expr {
    Expr::Literal(ScalarValue::Int64(v))
}

#[test]
fn rewriter_rewrite() {
    // rewrites all "foo" string literals to "bar"
    let transformer = |expr: Expr| -> Result<Transformed<Expr>, RewriteError> {
        match expr {
            Expr::Literal(ScalarValue::Utf8(utf8_val)) => {
                let utf8_val = if utf8_val == "foo" { "bar".to_string() } else { utf8_val };
                Ok(Transformed::yes(Expr::Literal(ScalarValue::Utf8(utf8_val))))
            }
            _ => Ok(Transformed::no(expr)),
        }
    };

    let rewritten = col("state").eq(lit_str("foo")).transform(&transformer).unwrap().data;
    assert_eq!(rewritten, col("state").eq(lit_str("bar")));

    let rewritten = col("state").eq(lit_str("baz")).transform(&transformer).unwrap().data;
    assert_eq!(rewritten, col("state").eq(lit_str("baz")));
}

#[test]
fn normalize_cols() {
    let expr = col("a").add(col("b")).add(col("c"));

    let schema_a = make_schema_with_empty_metadata(vec![Some("tableA"), Some("tableA")], vec!["a", "aa"]);
    let schema_c = make_schema_with_empty_metadata(vec![Some("tableC"), Some("tableC")], vec!["cc", "c"]);
    let schema_b = make_schema_with_empty_metadata(vec![Some("tableB")], vec!["b"]);
    // non matching
    let schema_f = make_schema_with_empty_metadata(vec![Some("tableC"), Some("tableC")], vec!["f", "ff"]);
    let schemas = vec![schema_c, schema_f, schema_b, schema_a];

    let normalized_expr =
        normalize_col_with_schemas_and_ambiguity_check(expr, &vec![schemas], &vec![]).unwrap();
    assert_eq!(normalized_expr, col("tableA.a").add(col("tableB.b")).add(col("tableC.c")));
}

#[test]
fn normalize_cols_non_exist() {
    let expr = col("a").add(col("b"));
    let schema_a = make_schema_with_empty_metadata(vec![Some("\"tableA\"")], vec!["a"]);
    let schemas = vec![schema_a];

    let error = normalize_col_with_schemas_and_ambiguity_check(expr, &vec![schemas], &vec![])
        .unwrap_err()
        .to_string();
    let expected = "Schema error: No field named b. \
        Valid fields are \"tableA\".a.";
    assert_eq!(error, expected);
}

#[test]
fn unnormalize_cols() {
    let expr = col("tableA.a").add(col("tableB.b"));
    let unnormalized_expr = unnormalize_col(expr);
    assert_eq!(unnormalized_expr, col("a").add(col("b")));
}

#[derive(Default)]
struct RecordingRewriter {
    v: Vec<String>,
}

impl TreeNodeRewriter for RecordingRewriter {
    fn f_down(&mut self, expr: Expr) -> Result<Transformed<Expr>, RewriteError> {
        self.v.push(format!("Previsited {}", expr.to_string()));
        Ok(Transformed::no(expr))
    }

    fn f_up(&mut self, expr: Expr) -> Result<Transformed<Expr>, RewriteError> {
        self.v.push(format!("Mutated {}", expr.to_string()));
        Ok(Transformed::no(expr))
    }
}

#[test]
fn rewriter_visit() {
    let mut rewriter = RecordingRewriter::default();
    col("state").eq(lit_str("CO")).rewrite(&mut rewriter).unwrap();

    assert_eq!(
        rewriter.v,
        vec![
            "Previsited state = Utf8(\"CO\")",
            "Previsited state",
            "Mutated state",
            "Previsited Utf8(\"CO\")",
            "Mutated Utf8(\"CO\")",
            "Mutated state = Utf8(\"CO\")"
        ]
    )
}

struct TestRewriter {
    rewrite_to: Expr,
}

impl TreeNodeRewriter for TestRewriter {
    fn f_down(&mut self, expr: Expr) -> Result<Transformed<Expr>, RewriteError> {
        Ok(Transformed::no(expr))
    }

    fn f_up(&mut self, _: Expr) -> Result<Transformed<Expr>, RewriteError> {
        Ok(Transformed::yes(self.rewrite_to.duplicate()))
    }
}

/// rewrites `expr_from` to `rewrite_to` while keeping the qualified name it had before
fn test_rewrite(expr_from: Expr, rewrite_to: Expr) -> Expr {
    let mut rewriter = TestRewriter { rewrite_to: rewrite_to.duplicate() };
    let saved_name = NamePreserver::new_for_projection().save(&expr_from);
    let new_expr = expr_from.duplicate().rewrite(&mut rewriter).unwrap().data;
    let new_expr = saved_name.restore(new_expr);

    let name_before = expr_from.qualified_name();
    let new_name = new_expr.qualified_name();
    assert_eq!(
        name_before,
        new_name,
        "mismatch rewriting expr_from: {} to {}",
        expr_from.to_string(),
        rewrite_to.to_string()
    );
    new_expr
}

#[test]
fn test_rewrite_preserving_name() {
    test_rewrite(col("a"), col("a"));

    test_rewrite(col("a"), col("b"));

    // cast data types
    test_rewrite(col("a"), Expr::Cast { expr: Box::new(col("a")), data_type: DataType::Int32 });

    // change literal type from i32 to i64
    test_rewrite(col("a").add(lit_i32(1)), col("a").add(lit_i64(1)));

    // test preserve qualifier
    test_rewrite(
        Expr::Column(Column::new(Some("test".to_string()), "a".to_string())),
        Expr::Column(Column::new_unqualified("test.a".to_string())),
    );
    test_rewrite(
        Expr::Column(Column::new_unqualified("test.a".to_string())),
        Expr::Column(Column::new(Some("test".to_string()), "a".to_string())),
    );
}

#[test]
fn same_rendered_name_gets_no_alias() {
    let out = test_rewrite(col("a").add(lit_i32(1)), col("a").add(lit_i64(1)));
    assert_eq!(out, col("a").add(lit_i64(1)));
}

#[test]
fn changed_rendered_name_gets_alias() {
    let out = test_rewrite(col("a"), Expr::Cast { expr: Box::new(col("a")), data_type: DataType::Int32 });
    assert_eq!(out.to_string(), "CAST(a AS Int32) AS a");
}

#[test]
fn inert_preserver_keeps_rewritten_expr() {
    let plan = LogicalPlan::Statement { schema: DFSchema::empty() };
    let saved = NamePreserver::new(&plan).save(&col("a"));
    let out = saved.restore(col("b"));
    assert_eq!(out, col("b"));
}

#[test]
fn normalize_across_scopes() {
    let expr = col("a").add(col("b")).add(col("c"));
    let group_a = vec![make_schema_with_empty_metadata(vec![Some("tableA"), Some("tableA")], vec!["a", "aa"])];
    let group_c = vec![make_schema_with_empty_metadata(vec![Some("tableC"), Some("tableC")], vec!["cc", "c"])];
    let group_b = vec![make_schema_with_empty_metadata(vec![Some("tableB")], vec!["b"])];
    let normalized =
        normalize_col_with_schemas_and_ambiguity_check(expr, &vec![group_a, group_c, group_b], &vec![])
            .unwrap();
    assert_eq!(normalized, col("tableA.a").add(col("tableB.b")).add(col("tableC.c")));
}

#[test]
fn normalize_qualified_column_is_unchanged() {
    let schema = make_schema_with_empty_metadata(vec![Some("t"), Some("u")], vec!["a", "a"]);
    let t = normalize_col_with_schemas_transformed(col("t.a"), &vec![vec![schema]], &vec![]).unwrap();
    assert_eq!(t.data, col("t.a"));
    assert!(!t.transformed);
}

#[test]
fn normalize_bare_column_is_changed() {
    let schema = make_schema_with_empty_metadata(vec![Some("t")], vec!["a"]);
    let t = normalize_col_with_schemas_transformed(col("a"), &vec![vec![schema]], &vec![]).unwrap();
    assert_eq!(t.data, col("t.a"));
    assert!(t.transformed);
}

#[test]
fn ambiguous_column_is_an_error() {
    let schema = make_schema_with_empty_metadata(vec![Some("t"), Some("u")], vec!["a", "a"]);
    let err = normalize_col_with_schemas_and_ambiguity_check(col("a"), &vec![vec![schema]], &vec![])
        .unwrap_err();
    assert_eq!(
        err,
        RewriteError::AmbiguousReference {
            field: Column::new_unqualified("a".to_string()),
            qualifiers: vec![Some("t".to_string()), Some("u".to_string())],
        }
    );
    assert_eq!(err.to_string(), "Schema error: Ambiguous reference to unqualified field a");
}

#[test]
fn using_columns_are_not_ambiguous() {
    let left = make_schema_with_empty_metadata(vec![Some("t")], vec!["a"]);
    let right = make_schema_with_empty_metadata(vec![Some("u")], vec!["a"]);
    let using = vec![vec![col_of("t.a"), col_of("u.a")]];
    let out = normalize_col_with_schemas_and_ambiguity_check(col("a"), &vec![vec![left, right]], &using)
        .unwrap();
    assert_eq!(out, col("t.a"));
}

fn col_of(s: &str) -> Column {
    Column::from_qualified_name(s)
}

#[test]
fn unknown_column_in_empty_scopes() {
    let err = normalize_col_with_schemas_and_ambiguity_check(col("z"), &vec![], &vec![]).unwrap_err();
    assert_eq!(err.to_string(), "Schema error: No field named z.");
}

#[test]
fn unnormalize_inverts_normalize() {
    let schema = make_schema_with_empty_metadata(vec![Some("t"), Some("t")], vec!["a", "b"]);
    let e = col("a").add(col("b"));
    let n = normalize_col_with_schemas_and_ambiguity_check(e.duplicate(), &vec![vec![schema]], &vec![]).unwrap();
    assert_eq!(unnormalize_col(n), unalias(e));
}

#[test]
fn qualified_name_parsing() {
    let c = col_of("\"tableA\".a");
    assert_eq!(c.relation, Some("tableA".to_string()));
    assert_eq!(c.name, "a");
    assert_eq!(col_of("a").relation, None);
}

#[test]
fn literal_rendering() {
    assert_eq!(lit_i32(-12).to_string(), "Int32(-12)");
    assert_eq!(col("a").add(lit_i64(40)).schema_name(), "a + 40");
}

fn typed_schema(fields: Vec<(&str, DataType)>) -> DFSchema {
    DFSchema {
        fields: fields
            .into_iter()
            .map(|(n, t)| DFField { relation: Some("t".to_string()), name: n.to_string(), data_type: t })
            .collect(),
    }
}

fn scan(schema: DFSchema) -> LogicalPlan {
    LogicalPlan::TableScan { table_name: "t".to_string(), filters: vec![], schema }
}

#[test]
fn coercion_with_matching_types_is_no_op() {
    let schema = typed_schema(vec![("a", DataType::Int32), ("b", DataType::Utf8)]);
    let target = typed_schema(vec![("x", DataType::Int32), ("y", DataType::Utf8)]);
    let out = coerce_plan_expr_for_schema(scan(schema.clone()), &target).unwrap();
    assert_eq!(out, scan(schema));
}

#[test]
fn coercion_adds_projection_with_cast() {
    let schema = typed_schema(vec![("a", DataType::Int32)]);
    let target = typed_schema(vec![("a", DataType::Int64)]);
    let out = coerce_plan_expr_for_schema(scan(schema.clone()), &target).unwrap();
    match out {
        LogicalPlan::Projection(p) => {
            assert_eq!(*p.input, scan(schema));
            assert_eq!(p.expr, vec![Expr::Cast { expr: Box::new(col("t.a")), data_type: DataType::Int64 }]);
            assert_eq!(p.schema.fields[0].data_type, DataType::Int64);
            assert_eq!(p.schema.fields[0].name, "CAST(t.a AS Int64)");
        }
        _ => panic!("expected a projection"),
    }
}

#[test]
fn coercion_of_alias_keeps_name() {
    let schema = typed_schema(vec![("a", DataType::Int32)]);
    let target = typed_schema(vec![("x", DataType::Int64)]);
    let proj = expr_rewriter::plan::Projection::try_new(
        vec![col("t.a").alias("x".to_string())],
        Box::new(scan(schema)),
    )
    .unwrap();
    let out = coerce_plan_expr_for_schema(LogicalPlan::Projection(proj), &target).unwrap();
    match out {
        LogicalPlan::Projection(p) => {
            assert_eq!(
                p.expr,
                vec![Expr::Cast { expr: Box::new(col("t.a")), data_type: DataType::Int64 }.alias("x".to_string())]
            );
            assert_eq!(p.schema.fields[0].name, "x");
        }
        _ => panic!("expected a projection"),
    }
}

#[test]
fn coercion_without_cast_fails() {
    let schema = typed_schema(vec![("a", DataType::Utf8)]);
    let target = typed_schema(vec![("a", DataType::Int32)]);
    let err = coerce_plan_expr_for_schema(scan(schema), &target).unwrap_err();
    assert_eq!(err, RewriteError::TypeCoercion { from: DataType::Utf8, to: DataType::Int32 });
    assert_eq!(err.to_string(), "Error during planning: Cannot automatically convert Utf8 to Int32");
}

#[test]
fn coercion_arity_mismatch_fails() {
    let schema = typed_schema(vec![("a", DataType::Int32)]);
    let target = typed_schema(vec![("a", DataType::Int32), ("b", DataType::Int32)]);
    let err = coerce_plan_expr_for_schema(scan(schema), &target).unwrap_err();
    assert_eq!(err, RewriteError::SchemaMismatch { expected: 2, found: 1 });
}

#[test]
fn type_of_unknown_column_fails() {
    let schema = typed_schema(vec![("a", DataType::Int32)]);
    let err = col("t.z").get_type(&schema).unwrap_err();
    assert!(matches!(err, RewriteError::Plan { .. }));
}
