//! Columns, schemas and data types that expressions are resolved against.
use vstd::prelude::*;

verus! {

/// The data type of a schema field or of an expression.
#[derive(Clone, Copy, Debug, PartialEq, Eq, Structural)]
pub enum DataType {
    Boolean,
    Int8,
    Int32,
    Int64,
    Utf8,
}

/// A reference to a column: an optional relation qualifier and a name.
#[derive(Clone, Debug, PartialEq, Eq, Hash)]
pub struct Column {
    pub relation: Option<String>,
    pub name: String,
}

/// The mathematical identity of an optional qualifier.
pub open spec fn rel_view(r: Option<String>) -> Option<Seq<char>> {
    match r {
        Some(s) => Some(s@),
        None => None,
    }
}

impl Column {
    /// Two columns are the same reference iff qualifier and name agree.
    pub open spec fn view(self) -> (Option<Seq<char>>, Seq<char>) {
        (rel_view(self.relation), self.name@)
    }

    /// Create a column with an optional qualifier.
    pub fn new(relation: Option<String>, name: String) -> (r: Column)
        ensures
            r.relation == relation,
            r.name == name,
    {
        Column { relation, name }
    }

    /// Create a column without a qualifier.
    pub fn new_unqualified(name: String) -> (r: Column)
        ensures
            r.relation is None,
            r.name == name,
    {
        Column { relation: None, name }
    }

    /// Same column with the qualifier replaced.
    pub fn with_relation(&self, relation: String) -> (r: Column)
        ensures
            r.relation == Some(relation),
            r.name == self.name,
    {
        Column { relation: Some(relation), name: self.name.clone() }
    }

    /// A copy that is equal to `self`.
    pub fn duplicate(&self) -> (r: Column)
        ensures
            r == *self,
    {
        Column { relation: clone_relation(&self.relation), name: self.name.clone() }
    }

    /// Whether the two columns name the same reference.
    pub fn same_as(&self, other: &Column) -> (r: bool)
        ensures
            r == (self.view() == other.view()),
    {
        same_relation(&self.relation, &other.relation) && self.name == other.name
    }
}

/// A copy of an optional qualifier.
pub fn clone_relation(r: &Option<String>) -> (c: Option<String>)
    ensures
        c == *r,
{
    match r {
        Some(s) => Some(s.clone()),
        None => None,
    }
}

/// Whether two optional qualifiers are the same.
pub fn same_relation(a: &Option<String>, b: &Option<String>) -> (r: bool)
    ensures
        r == (rel_view(*a) == rel_view(*b)),
{
    match a {
        Some(x) => match b {
            Some(y) => *x == *y,
            None => false,
        },
        None => b.is_none(),
    }
}

/// A field of a schema: optional qualifier, name and type.
#[derive(Clone, Debug, PartialEq, Eq)]
pub struct DFField {
    pub relation: Option<String>,
    pub name: String,
    pub data_type: DataType,
}

impl DFField {
    /// The column that refers to this field.
    pub open spec fn column(self) -> Column {
        Column { relation: self.relation, name: self.name }
    }

    pub fn qualified_column(&self) -> (r: Column)
        ensures
            r == self.column(),
    {
        Column { relation: clone_relation(&self.relation), name: self.name.clone() }
    }
}

/// An ordered sequence of fields.
#[derive(Clone, Debug, PartialEq, Eq)]
pub struct DFSchema {
    pub fields: Vec<DFField>,
}

impl DFSchema {
    /// No two fields share both qualifier and name.
    pub open spec fn wf(self) -> bool {
        forall|i: int, j: int|
            0 <= i < j < self.fields@.len() ==> #[trigger] self.fields@[i].column().view()
                != #[trigger] self.fields@[j].column().view()
    }

    pub fn empty() -> (r: DFSchema)
        ensures
            r.fields@.len() == 0,
            r.wf(),
    {
        DFSchema { fields: Vec::new() }
    }
}

} // verus!

verus! {

/// Errors raised while resolving, rewriting or coercing expressions.
#[derive(Clone, Debug, PartialEq, Eq)]
pub enum RewriteError {
    /// No candidate schema holds the column; lists the fields of the innermost scope.
    FieldNotFound { field: Column, valid_fields: Vec<Column> },
    /// More than one field of one scope matches the column; lists the
    /// qualifiers of the matching fields.
    AmbiguousReference { field: Column, qualifiers: Vec<Option<String>> },
    /// No cast exists from the one type to the other.
    TypeCoercion { from: DataType, to: DataType },
    /// The number of expressions differs from the number of target fields.
    SchemaMismatch { expected: usize, found: usize },
    /// An expression that has no type over its input, or another malformed plan.
    Plan { message: String },
}

impl DFField {
    pub fn duplicate(&self) -> (r: DFField)
        ensures
            r == *self,
    {
        DFField {
            relation: clone_relation(&self.relation),
            name: self.name.clone(),
            data_type: self.data_type,
        }
    }
}

} // verus!
