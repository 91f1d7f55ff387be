//! The names under which expressions appear in schemas and in messages.
use vstd::prelude::*;
use crate::common::{rel_view, Column, DataType, RewriteError};
use crate::expr::{Expr, Operator, ScalarValue};

verus! {

/// The decimal digit `d`.
pub open spec fn digit_char(d: int) -> char {
    if d == 0 { '0' } else if d == 1 { '1' } else if d == 2 { '2' } else if d == 3 { '3' }
    else if d == 4 { '4' } else if d == 5 { '5' } else if d == 6 { '6' } else if d == 7 { '7' }
    else if d == 8 { '8' } else { '9' }
}

/// The digits of a non-negative number, most significant first.
pub open spec fn digits(n: nat) -> Seq<char>
    decreases n,
{
    if n < 10 {
        seq![digit_char(n as int)]
    } else {
        digits(n / 10) + seq![digit_char((n % 10) as int)]
    }
}

/// An integer in decimal, with a leading `-` when negative.
pub open spec fn decimal_text(n: int) -> Seq<char> {
    if n < 0 {
        seq!['-'] + digits((-n) as nat)
    } else {
        digits(n as nat)
    }
}

/// Relies on std's `Display` for `i64` (through `ToString::to_string`):
/// the value in decimal, a minus sign first when negative.
#[verifier::external_body]
fn int_text(v: i64) -> (r: String)
    ensures
        r@ == decimal_text(v as int),
{
    v.to_string()
}

/// `relation.name`, or `name` when the column is unqualified.
pub open spec fn flat_name(c: Column) -> Seq<char> {
    match c.relation {
        Some(r) => r@ + "."@ + c.name@,
        None => c.name@,
    }
}

pub open spec fn type_text(t: DataType) -> Seq<char> {
    match t {
        DataType::Boolean => "Boolean"@,
        DataType::Int8 => "Int8"@,
        DataType::Int32 => "Int32"@,
        DataType::Int64 => "Int64"@,
        DataType::Utf8 => "Utf8"@,
    }
}

pub open spec fn op_text(op: Operator) -> Seq<char> {
    match op {
        Operator::Eq => "="@,
        Operator::Plus => "+"@,
    }
}

/// The value alone, as it appears in a schema name.
pub open spec fn value_text(v: ScalarValue) -> Seq<char> {
    match v {
        ScalarValue::Boolean(b) => if b { "true"@ } else { "false"@ },
        ScalarValue::Int8(n) => decimal_text(n as int),
        ScalarValue::Int32(n) => decimal_text(n as int),
        ScalarValue::Int64(n) => decimal_text(n as int),
        ScalarValue::Utf8(s) => s@,
    }
}

/// The value with its type, as it appears when an expression is shown.
pub open spec fn value_shown(v: ScalarValue) -> Seq<char> {
    match v {
        ScalarValue::Utf8(s) => "Utf8(\""@ + s@ + "\")"@,
        _ => type_text(v.spec_data_type()) + "("@ + value_text(v) + ")"@,
    }
}

/// The name of an expression in the schema of the plan node that computes it.
pub open spec fn schema_name(e: Expr) -> Seq<char>
    decreases e,
{
    match e {
        Expr::Column(c) => flat_name(c),
        Expr::Literal(v) => value_text(v),
        Expr::Alias { name, .. } => name@,
        Expr::BinaryExpr { left, op, right } => schema_name(*left) + " "@ + op_text(op) + " "@
            + schema_name(*right),
        Expr::Cast { expr, data_type } => "CAST("@ + schema_name(*expr) + " AS "@ + type_text(data_type)
            + ")"@,
        Expr::OuterReferenceColumn(_, c) => "outer_ref("@ + flat_name(c) + ")"@,
        Expr::Unnest { expr } => "UNNEST("@ + schema_name(*expr) + ")"@,
        Expr::Wildcard { qualifier } => match qualifier {
            Some(q) => q@ + ".*"@,
            None => "*"@,
        },
    }
}

/// How an expression is shown to a reader.
pub open spec fn shown(e: Expr) -> Seq<char>
    decreases e,
{
    match e {
        Expr::Column(c) => flat_name(c),
        Expr::Literal(v) => value_shown(v),
        Expr::Alias { expr, name, .. } => shown(*expr) + " AS "@ + name@,
        Expr::BinaryExpr { left, op, right } => shown(*left) + " "@ + op_text(op) + " "@ + shown(*right),
        Expr::Cast { expr, data_type } => "CAST("@ + shown(*expr) + " AS "@ + type_text(data_type) + ")"@,
        Expr::OuterReferenceColumn(_, c) => "outer_ref("@ + flat_name(c) + ")"@,
        Expr::Unnest { expr } => "UNNEST("@ + shown(*expr) + ")"@,
        Expr::Wildcard { qualifier } => match qualifier {
            Some(q) => q@ + ".*"@,
            None => "*"@,
        },
    }
}

/// The qualifier and name under which an expression is exposed by the plan
/// node that computes it.
pub open spec fn qualified_name(e: Expr) -> (Option<Seq<char>>, Seq<char>) {
    match e {
        Expr::Column(c) => c.view(),
        Expr::Alias { relation, name, .. } => (rel_view(relation), name@),
        _ => (None, schema_name(e)),
    }
}

impl Column {
    /// `relation.name`, or `name` when unqualified.
    pub fn flat_name(&self) -> (r: String)
        ensures
            r@ == flat_name(*self),
    {
        match &self.relation {
            Some(q) => {
                let mut s = q.clone();
                s.append(".");
                s.append(self.name.as_str());
                s
            },
            None => self.name.clone(),
        }
    }
}

impl DataType {
    pub fn name(&self) -> (r: &'static str)
        ensures
            r@ == type_text(*self),
    {
        match self {
            DataType::Boolean => "Boolean",
            DataType::Int8 => "Int8",
            DataType::Int32 => "Int32",
            DataType::Int64 => "Int64",
            DataType::Utf8 => "Utf8",
        }
    }
}

impl Operator {
    pub fn symbol(&self) -> (r: &'static str)
        ensures
            r@ == op_text(*self),
    {
        match self {
            Operator::Eq => "=",
            Operator::Plus => "+",
        }
    }
}

impl ScalarValue {
    /// The value alone.
    pub fn value_string(&self) -> (r: String)
        ensures
            r@ == value_text(*self),
    {
        match self {
            ScalarValue::Boolean(b) => if *b { String::from_str("true") } else { String::from_str("false") },
            ScalarValue::Int8(n) => int_text(*n as i64),
            ScalarValue::Int32(n) => int_text(*n as i64),
            ScalarValue::Int64(n) => int_text(*n),
            ScalarValue::Utf8(s) => s.clone(),
        }
    }

    /// The value with its type, e.g. `Int32(1)` or `Utf8("CO")`.
    pub fn to_string(&self) -> (r: String)
        ensures
            r@ == value_shown(*self),
    {
        match self {
            ScalarValue::Utf8(s) => {
                let mut r = String::from_str("Utf8(\"");
                r.append(s.as_str());
                r.append("\")");
                r
            },
            _ => {
                let mut r = String::from_str(self.data_type().name());
                r.append("(");
                let v = self.value_string();
                r.append(v.as_str());
                r.append(")");
                r
            },
        }
    }
}

fn wrapped(prefix: &str, inner: String, suffix: &str) -> (r: String)
    ensures
        r@ == prefix@ + inner@ + suffix@,
{
    let mut r = String::from_str(prefix);
    r.append(inner.as_str());
    r.append(suffix);
    r
}

fn joined(left: String, op: Operator, right: String) -> (r: String)
    ensures
        r@ == left@ + " "@ + op_text(op) + " "@ + right@,
{
    let mut r = left;
    r.append(" ");
    r.append(op.symbol());
    r.append(" ");
    r.append(right.as_str());
    r
}

fn wildcard_text(qualifier: &Option<String>) -> (r: String)
    ensures
        r@ == (match *qualifier {
            Some(q) => q@ + ".*"@,
            None => "*"@,
        }),
{
    match qualifier {
        Some(q) => {
            let mut r = q.clone();
            r.append(".*");
            r
        },
        None => String::from_str("*"),
    }
}

impl Expr {
    /// The name of the expression in the schema of the node that computes it.
    pub fn schema_name(&self) -> (r: String)
        ensures
            r@ == schema_name(*self),
        decreases self,
    {
        match self {
            Expr::Column(c) => c.flat_name(),
            Expr::Literal(v) => v.value_string(),
            Expr::Alias { name, .. } => name.clone(),
            Expr::BinaryExpr { left, op, right } => joined(left.schema_name(), *op, right.schema_name()),
            Expr::Cast { expr, data_type } => {
                let mut r = wrapped("CAST(", expr.schema_name(), " AS ");
                r.append(data_type.name());
                r.append(")");
                r
            },
            Expr::OuterReferenceColumn(_, c) => wrapped("outer_ref(", c.flat_name(), ")"),
            Expr::Unnest { expr } => wrapped("UNNEST(", expr.schema_name(), ")"),
            Expr::Wildcard { qualifier } => wildcard_text(qualifier),
        }
    }

    /// How the expression is shown to a reader, e.g. `state = Utf8("CO")`.
    pub fn to_string(&self) -> (r: String)
        ensures
            r@ == shown(*self),
        decreases self,
    {
        match self {
            Expr::Column(c) => c.flat_name(),
            Expr::Literal(v) => v.to_string(),
            Expr::Alias { expr, name, .. } => {
                let mut r = expr.to_string();
                r.append(" AS ");
                r.append(name.as_str());
                r
            },
            Expr::BinaryExpr { left, op, right } => joined(left.to_string(), *op, right.to_string()),
            Expr::Cast { expr, data_type } => {
                let mut r = wrapped("CAST(", expr.to_string(), " AS ");
                r.append(data_type.name());
                r.append(")");
                r
            },
            Expr::OuterReferenceColumn(_, c) => wrapped("outer_ref(", c.flat_name(), ")"),
            Expr::Unnest { expr } => wrapped("UNNEST(", expr.to_string(), ")"),
            Expr::Wildcard { qualifier } => wildcard_text(qualifier),
        }
    }

    /// The qualifier and name under which the expression is exposed.
    pub fn qualified_name(&self) -> (r: (Option<String>, String))
        ensures
            (rel_view(r.0), r.1@) == qualified_name(*self),
    {
        match self {
            Expr::Column(c) => (crate::common::clone_relation(&c.relation), c.name.clone()),
            Expr::Alias { relation, name, .. } => (crate::common::clone_relation(relation), name.clone()),
            _ => (None, self.schema_name()),
        }
    }
}

/// An identifier with one pair of surrounding double quotes removed.
pub open spec fn unquoted(p: Seq<char>) -> Seq<char> {
    if p.len() >= 2 && p[0] == '"' && p[p.len() - 1] == '"' {
        p.subrange(1, p.len() - 1)
    } else {
        p
    }
}

/// The column that `relation.name` (or a bare `name`) denotes: the text is
/// split at its first dot, and a quoted qualifier loses its quotes.
pub open spec fn parsed_column(s: Seq<char>, c: Column) -> bool {
    ||| (forall|j: int| 0 <= j < s.len() ==> s[j] != '.') && c.relation is None && c.name@ == s
    ||| exists|k: int|
        0 <= k < s.len() && s[k] == '.' && (forall|j: int| 0 <= j < k ==> s[j] != '.') && c.relation
            is Some && c.relation.unwrap()@ == unquoted(s.subrange(0, k)) && c.name@ == s.subrange(
            k + 1,
            s.len() as int,
        )
}

fn unquote(p: &str) -> (r: String)
    ensures
        r@ == unquoted(p@),
{
    let n = p.unicode_len();
    if n >= 2 && p.get_char(0) == '"' && p.get_char(n - 1) == '"' {
        String::from_str(p.substring_char(1, n - 1))
    } else {
        String::from_str(p)
    }
}

impl Column {
    /// The column that `relation.name` or `name` denotes.
    pub fn from_qualified_name(s: &str) -> (r: Column)
        ensures
            parsed_column(s@, r),
    {
        let n = s.unicode_len();
        let mut k: usize = 0;
        while k < n
            invariant
                k <= n,
                n == s@.len(),
                forall|j: int| 0 <= j < k ==> s@[j] != '.',
            decreases n - k,
        {
            if s.get_char(k) == '.' {
                let relation = unquote(s.substring_char(0, k));
                let name = String::from_str(s.substring_char(k + 1, n));
                return Column { relation: Some(relation), name };
            }
            k += 1;
        }
        Column { relation: None, name: String::from_str(s) }
    }
}

/// A column reference to `relation.name` or `name`.
pub fn col(s: &str) -> (r: Expr)
    ensures
        r matches Expr::Column(c) && parsed_column(s@, c),
{
    Expr::Column(Column::from_qualified_name(s))
}

/// A string literal.
pub fn lit_str(s: &str) -> (r: Expr)
    ensures
        r matches Expr::Literal(ScalarValue::Utf8(v)) && v@ == s@,
{
    Expr::Literal(ScalarValue::Utf8(String::from_str(s)))
}

impl Expr {
    /// `self = other`.
    pub fn eq(self, other: Expr) -> (r: Expr)
        ensures
            r == (Expr::BinaryExpr { left: Box::new(self), op: Operator::Eq, right: Box::new(other) }),
    {
        Expr::BinaryExpr { left: Box::new(self), op: Operator::Eq, right: Box::new(other) }
    }

    /// `self + other`.
    pub fn add(self, other: Expr) -> (r: Expr)
        ensures
            r == (Expr::BinaryExpr { left: Box::new(self), op: Operator::Plus, right: Box::new(other) }),
    {
        Expr::BinaryExpr { left: Box::new(self), op: Operator::Plus, right: Box::new(other) }
    }
}

pub open spec fn is_lower_start(ch: char) -> bool {
    ('a' <= ch && ch <= 'z') || ch == '_'
}

pub open spec fn is_plain_char(ch: char) -> bool {
    is_lower_start(ch) || ('0' <= ch && ch <= '9')
}

/// Whether an identifier can be written without quotes.
pub open spec fn is_plain_ident(s: Seq<char>) -> bool {
    &&& s.len() > 0
    &&& is_lower_start(s[0])
    &&& forall|i: int| 1 <= i < s.len() ==> is_plain_char(#[trigger] s[i])
}

/// An identifier as written in a message: in double quotes unless plain.
pub open spec fn quoted_ident(s: Seq<char>) -> Seq<char> {
    if is_plain_ident(s) {
        s
    } else {
        "\""@ + s + "\""@
    }
}

/// A column as written in a message.
pub open spec fn quoted_flat_name(c: Column) -> Seq<char> {
    match c.relation {
        Some(r) => quoted_ident(r@) + "."@ + quoted_ident(c.name@),
        None => quoted_ident(c.name@),
    }
}

/// Columns as written in a message, separated by commas.
pub open spec fn column_list(cs: Seq<Column>) -> Seq<char>
    decreases cs.len(),
{
    if cs.len() == 0 {
        Seq::empty()
    } else if cs.len() == 1 {
        quoted_flat_name(cs[0])
    } else {
        column_list(cs.drop_last()) + ", "@ + quoted_flat_name(cs.last())
    }
}

/// The message of an error.
pub open spec fn error_text(e: RewriteError) -> Seq<char> {
    match e {
        RewriteError::FieldNotFound { field, valid_fields } => "Schema error: No field named "@ + quoted_flat_name(field)
            + if valid_fields@.len() == 0 {
            "."@
        } else {
            ". Valid fields are "@ + column_list(valid_fields@) + "."@
        },
        RewriteError::AmbiguousReference { field, .. } => "Schema error: Ambiguous reference to unqualified field "@
            + quoted_flat_name(field),
        RewriteError::TypeCoercion { from, to } => "Error during planning: Cannot automatically convert "@
            + type_text(from) + " to "@ + type_text(to),
        RewriteError::SchemaMismatch { .. } => "Schema error: the expressions and the target schema differ in length"@,
        RewriteError::Plan { message } => "Error during planning: "@ + message@,
    }
}

fn plain_ident(s: &str) -> (r: bool)
    ensures
        r == is_plain_ident(s@),
{
    let n = s.unicode_len();
    if n == 0 {
        return false;
    }
    let c0 = s.get_char(0);
    if !(('a' <= c0 && c0 <= 'z') || c0 == '_') {
        return false;
    }
    let mut i: usize = 1;
    while i < n
        invariant
            1 <= i <= n,
            n == s@.len(),
            forall|j: int| 1 <= j < i ==> is_plain_char(#[trigger] s@[j]),
        decreases n - i,
    {
        let ch = s.get_char(i);
        if !(('a' <= ch && ch <= 'z') || ch == '_' || ('0' <= ch && ch <= '9')) {
            return false;
        }
        i += 1;
    }
    true
}

fn quote_ident(s: &str) -> (r: String)
    ensures
        r@ == quoted_ident(s@),
{
    if plain_ident(s) {
        String::from_str(s)
    } else {
        let mut r = String::from_str("\"");
        r.append(s);
        r.append("\"");
        r
    }
}

impl Column {
    /// The column as written in a message, identifiers quoted where needed.
    pub fn quoted_flat_name(&self) -> (r: String)
        ensures
            r@ == quoted_flat_name(*self),
    {
        match &self.relation {
            Some(q) => {
                let mut r = quote_ident(q.as_str());
                r.append(".");
                let n = quote_ident(self.name.as_str());
                r.append(n.as_str());
                r
            },
            None => quote_ident(self.name.as_str()),
        }
    }
}

fn list_columns(cs: &Vec<Column>) -> (r: String)
    ensures
        r@ == column_list(cs@),
{
    let mut r = String::new();
    let mut i: usize = 0;
    while i < cs.len()
        invariant
            i <= cs@.len(),
            r@ == column_list(cs@.subrange(0, i as int)),
        decreases cs@.len() - i,
    {
        assert(cs@.subrange(0, i + 1).drop_last() =~= cs@.subrange(0, i as int));
        if i > 0 {
            r.append(", ");
        }
        let q = cs[i].quoted_flat_name();
        r.append(q.as_str());
        i += 1;
    }
    assert(cs@.subrange(0, i as int) =~= cs@);
    r
}

impl RewriteError {
    /// The message of the error.
    pub fn to_string(&self) -> (r: String)
        ensures
            r@ == error_text(*self),
    {
        match self {
            RewriteError::FieldNotFound { field, valid_fields } => {
                let mut r = String::from_str("Schema error: No field named ");
                let f = field.quoted_flat_name();
                r.append(f.as_str());
                if valid_fields.len() == 0 {
                    r.append(".");
                } else {
                    r.append(". Valid fields are ");
                    let l = list_columns(valid_fields);
                    r.append(l.as_str());
                    r.append(".");
                }
                r
            },
            RewriteError::AmbiguousReference { field, .. } => {
                let mut r = String::from_str("Schema error: Ambiguous reference to unqualified field ");
                let f = field.quoted_flat_name();
                r.append(f.as_str());
                r
            },
            RewriteError::TypeCoercion { from, to } => {
                let mut r = String::from_str("Error during planning: Cannot automatically convert ");
                r.append(from.name());
                r.append(" to ");
                r.append(to.name());
                r
            },
            RewriteError::SchemaMismatch { .. } => String::from_str(
                "Schema error: the expressions and the target schema differ in length",
            ),
            RewriteError::Plan { message } => {
                let mut r = String::from_str("Error during planning: ");
                r.append(message.as_str());
                r
            },
        }
    }
}

} // verus!
