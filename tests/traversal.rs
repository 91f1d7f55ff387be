use expr_rewriter::common::{DataType, RewriteError};
use expr_rewriter::expr::{Expr, ScalarValue};
use expr_rewriter::names::{col, lit_str};
use expr_rewriter::traverse::TreeNodeRewriter;
use expr_rewriter::tree::{Transformed, TreeNodeRecursion};

#[test]
fn transform_down_visits_parent_first() {
    // turns every cast into its operand; the operand is then visited too
    let f = |e: Expr| -> Result<Transformed<Expr>, RewriteError> {
        match e {
            Expr::Cast { expr, .. } => Ok(Transformed::yes(*expr)),
            Expr::Column(c) if c.name == "a" => Ok(Transformed::yes(col("z"))),
            other => Ok(Transformed::no(other)),
        }
    };
    let e = Expr::Cast { expr: Box::new(col("a")), data_type: DataType::Int64 }.eq(col("b"));
    let out = e.transform_down(&f).unwrap();
    assert!(out.transformed);
    assert_eq!(out.data, col("a").eq(col("b")));
    let out = col("b").transform_down(&f).unwrap();
    assert!(!out.transformed);
}

#[test]
fn transform_up_stops_on_error() {
    let f = |e: Expr| -> Result<Transformed<Expr>, RewriteError> {
        match e {
            Expr::Literal(_) => Err(RewriteError::Plan { message: "no literals".to_string() }),
            other => Ok(Transformed::no(other)),
        }
    };
    let err = col("a").eq(lit_str("x")).transform(&f).unwrap_err();
    assert_eq!(err.to_string(), "Error during planning: no literals");
}

#[test]
fn absorb_merges_outcomes() {
    let t = Transformed::no(1u8).absorb(true, TreeNodeRecursion::Jump);
    assert!(t.transformed);
    assert_eq!(t.tnr, TreeNodeRecursion::Jump);
    let t = Transformed::new(1u8, false, TreeNodeRecursion::Stop).absorb(false, TreeNodeRecursion::Jump);
    assert!(!t.transformed);
    assert_eq!(t.tnr, TreeNodeRecursion::Stop);
}

struct JumpAtRoot {
    seen: Vec<String>,
}

impl TreeNodeRewriter for JumpAtRoot {
    fn f_down(&mut self, e: Expr) -> Result<Transformed<Expr>, RewriteError> {
        self.seen.push(e.to_string());
        Ok(Transformed::new(e, false, TreeNodeRecursion::Jump))
    }

    fn f_up(&mut self, e: Expr) -> Result<Transformed<Expr>, RewriteError> {
        self.seen.push(format!("up {}", e.to_string()));
        Ok(Transformed::no(e))
    }
}

#[test]
fn rewrite_jump_skips_children() {
    let mut r = JumpAtRoot { seen: vec![] };
    let out = col("a").eq(Expr::Literal(ScalarValue::Int64(3))).rewrite(&mut r).unwrap();
    assert_eq!(r.seen, vec!["a = Int64(3)"]);
    assert_eq!(out.tnr, TreeNodeRecursion::Continue);
}

struct StopAtLeft {
    seen: Vec<String>,
}

impl TreeNodeRewriter for StopAtLeft {
    fn f_down(&mut self, e: Expr) -> Result<Transformed<Expr>, RewriteError> {
        self.seen.push(e.to_string());
        let tnr = if matches!(e, Expr::Column(_)) { TreeNodeRecursion::Stop } else { TreeNodeRecursion::Continue };
        Ok(Transformed::new(e, false, tnr))
    }

    fn f_up(&mut self, e: Expr) -> Result<Transformed<Expr>, RewriteError> {
        self.seen.push(format!("up {}", e.to_string()));
        Ok(Transformed::no(e))
    }
}

#[test]
fn rewrite_stop_ends_traversal() {
    let mut r = StopAtLeft { seen: vec![] };
    let out = col("a").eq(lit_str("x")).rewrite(&mut r).unwrap();
    assert_eq!(r.seen, vec!["a = Utf8(\"x\")", "a"]);
    assert_eq!(out.tnr, TreeNodeRecursion::Stop);
}
