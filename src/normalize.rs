//! Resolution of column references against nested candidate scopes.
use vstd::prelude::*;
use crate::common::{Column, DFField, DFSchema, RewriteError};

verus! {

/// Whether field `f` is a candidate for column `c`: the names agree and,
/// where `c` is qualified, so do the qualifiers.
pub open spec fn field_matches(c: Column, f: DFField) -> bool {
    &&& f.name@ == c.name@
    &&& (c.relation is Some ==> f.column().view().0 == c.view().0)
}

/// The fields of a scope, schema after schema, in order.
pub open spec fn scope_fields(g: Seq<DFSchema>) -> Seq<DFField>
    decreases g.len(),
{
    if g.len() == 0 {
        Seq::empty()
    } else {
        scope_fields(g.drop_last()) + g.last().fields@
    }
}

/// The fields of `fs` that match `c`, in order.
pub open spec fn matches_in(c: Column, fs: Seq<DFField>) -> Seq<DFField>
    decreases fs.len(),
{
    if fs.len() == 0 {
        Seq::empty()
    } else if field_matches(c, fs.last()) {
        matches_in(c, fs.drop_last()).push(fs.last())
    } else {
        matches_in(c, fs.drop_last())
    }
}

/// Whether field `f` is a member of a set of columns equated by a USING join.
pub open spec fn in_using_set(f: DFField, set: Seq<Column>) -> bool {
    exists|k: int| 0 <= k < set.len() && #[trigger] set[k].view() == f.column().view()
}

/// Whether a single USING set holds every field of `m`.
pub open spec fn covered_by_using(m: Seq<DFField>, using: Seq<Seq<Column>>) -> bool {
    exists|u: int| 0 <= u < using.len() && all_in_set(m, #[trigger] using[u])
}

/// The fields of each candidate scope.
pub open spec fn scopes_of(groups: Seq<Vec<DFSchema>>) -> Seq<Seq<DFField>> {
    groups.map_values(|g: Vec<DFSchema>| scope_fields(g@))
}

/// The members of each USING set.
pub open spec fn sets_of(using: Seq<Vec<Column>>) -> Seq<Seq<Column>> {
    using.map_values(|u: Vec<Column>| u@)
}

/// Whether `set` holds every field of `m`.
pub open spec fn all_in_set(m: Seq<DFField>, set: Seq<Column>) -> bool {
    forall|i: int| 0 <= i < m.len() ==> in_using_set(#[trigger] m[i], set)
}

/// The outcome of resolving a column against candidate scopes.
pub enum Resolution {
    Found(DFField),
    Ambiguous,
    Unknown,
}

/// Scopes are searched innermost first; the first scope with a match decides.
/// One match, or several that one USING set equates, resolve to the first;
/// several others are ambiguous.
pub open spec fn resolve(c: Column, scopes: Seq<Seq<DFField>>, using: Seq<Seq<Column>>) -> Resolution
    decreases scopes.len(),
{
    if scopes.len() == 0 {
        Resolution::Unknown
    } else {
        let m = matches_in(c, scopes[0]);
        if m.len() == 0 {
            resolve(c, scopes.drop_first(), using)
        } else if m.len() == 1 || covered_by_using(m, using) {
            Resolution::Found(m[0])
        } else {
            Resolution::Ambiguous
        }
    }
}

/// The matches in the first scope that has any.
pub open spec fn deciding_matches(c: Column, scopes: Seq<Seq<DFField>>) -> Seq<DFField>
    decreases scopes.len(),
{
    if scopes.len() == 0 {
        Seq::empty()
    } else if matches_in(c, scopes[0]).len() == 0 {
        deciding_matches(c, scopes.drop_first())
    } else {
        matches_in(c, scopes[0])
    }
}

/// The columns of the innermost scope, reported when a column is unknown.
pub open spec fn innermost_columns(scopes: Seq<Seq<DFField>>) -> Seq<Column> {
    if scopes.len() == 0 {
        Seq::empty()
    } else {
        scopes[0].map_values(|f: DFField| f.column())
    }
}

/// The error that resolving `c` gives, when it gives one.
pub open spec fn resolution_error(
    c: Column,
    scopes: Seq<Seq<DFField>>,
    using: Seq<Seq<Column>>,
    e: RewriteError,
) -> bool {
    match resolve(c, scopes, using) {
        Resolution::Found(_) => false,
        Resolution::Ambiguous => e matches RewriteError::AmbiguousReference { field, qualifiers } && field == c
            && qualifiers@ == deciding_matches(c, scopes).map_values(|f: DFField| f.relation),
        Resolution::Unknown => e matches RewriteError::FieldNotFound { field, valid_fields } && field
            == c && valid_fields@ == innermost_columns(scopes),
    }
}

/// All fields of a scope, copied into one list.
fn flatten_scope(g: &Vec<DFSchema>) -> (r: Vec<DFField>)
    ensures
        r@ == scope_fields(g@),
{
    let mut r: Vec<DFField> = Vec::new();
    let mut i: usize = 0;
    while i < g.len()
        invariant
            i <= g@.len(),
            r@ == scope_fields(g@.subrange(0, i as int)),
        decreases g@.len() - i,
    {
        let fields = &g[i].fields;
        let ghost before = r@;
        let mut j: usize = 0;
        while j < fields.len()
            invariant
                j <= fields@.len(),
                fields == g@[i as int].fields,
                r@ == before + fields@.subrange(0, j as int),
            decreases fields@.len() - j,
        {
            r.push(fields[j].duplicate());
            assert(fields@.subrange(0, j + 1) =~= fields@.subrange(0, j as int).push(fields@[j as int]));
            j += 1;
        }
        assert(g@.subrange(0, i + 1).drop_last() =~= g@.subrange(0, i as int));
        assert(fields@.subrange(0, j as int) =~= fields@);
        i += 1;
    }
    assert(g@.subrange(0, i as int) =~= g@);
    r
}

/// The fields of `fs` that match `c`.
fn matching_fields(c: &Column, fs: &Vec<DFField>) -> (r: Vec<DFField>)
    ensures
        r@ == matches_in(*c, fs@),
{
    let mut r: Vec<DFField> = Vec::new();
    let mut j: usize = 0;
    while j < fs.len()
        invariant
            j <= fs@.len(),
            r@ == matches_in(*c, fs@.subrange(0, j as int)),
        decreases fs@.len() - j,
    {
        let f = &fs[j];
        assert(fs@.subrange(0, j + 1).drop_last() =~= fs@.subrange(0, j as int));
        let name_ok = f.name == c.name;
        let rel_ok = match &c.relation {
            None => true,
            Some(q) => match &f.relation {
                Some(p) => *p == *q,
                None => false,
            },
        };
        if name_ok && rel_ok {
            r.push(f.duplicate());
        }
        j += 1;
    }
    assert(fs@.subrange(0, j as int) =~= fs@);
    r
}

/// Whether `f` belongs to `set`.
fn field_in_set(f: &DFField, set: &Vec<Column>) -> (r: bool)
    ensures
        r == in_using_set(*f, set@),
{
    let col = f.qualified_column();
    let mut k: usize = 0;
    while k < set.len()
        invariant
            k <= set@.len(),
            col == f.column(),
            forall|k2: int| 0 <= k2 < k ==> set@[k2].view() != f.column().view(),
        decreases set@.len() - k,
    {
        if set[k].same_as(&col) {
            return true;
        }
        k += 1;
    }
    false
}

/// Whether one of the USING sets holds every field of `m`.
fn covered(m: &Vec<DFField>, using: &Vec<Vec<Column>>) -> (r: bool)
    ensures
        r == covered_by_using(m@, sets_of(using@)),
{
    let mut u: usize = 0;
    while u < using.len()
        invariant
            u <= using@.len(),
            forall|u2: int| 0 <= u2 < u ==> !all_in_set(m@, #[trigger] sets_of(using@)[u2]),
        decreases using@.len() - u,
    {
        let mut i: usize = 0;
        let mut all: bool = true;
        while i < m.len()
            invariant
                i <= m@.len(),
                u < using@.len(),
                all == (forall|i2: int| 0 <= i2 < i ==> in_using_set(#[trigger] m@[i2], using@[u as int]@)),
            decreases m@.len() - i,
        {
            if !field_in_set(&m[i], &using[u]) {
                all = false;
            }
            i += 1;
        }
        if all {
            assert(all_in_set(m@, sets_of(using@)[u as int]));
            return true;
        }
        assert(!all_in_set(m@, sets_of(using@)[u as int]));
        u += 1;
    }
    false
}

impl Column {
    /// Resolve this column against ordered candidate scopes, innermost first,
    /// exempting fields that one USING set equates from the ambiguity check.
    pub fn normalize_with_schemas_and_ambiguity_check(
        self,
        schemas: &Vec<Vec<DFSchema>>,
        using_columns: &Vec<Vec<Column>>,
    ) -> (r: Result<Column, RewriteError>)
        ensures
            match r {
                Ok(col) => resolve(self, scopes_of(schemas@), sets_of(using_columns@))
                    matches Resolution::Found(f) && col == f.column(),
                Err(e) => resolution_error(self, scopes_of(schemas@), sets_of(using_columns@), e),
            },
    {
        let mut i: usize = 0;
        let ghost scopes = scopes_of(schemas@);
        let ghost sets = sets_of(using_columns@);
        assert(scopes.subrange(0, scopes.len() as int) =~= scopes);
        while i < schemas.len()
            invariant
                i <= schemas@.len(),
                scopes == scopes_of(schemas@),
                sets == sets_of(using_columns@),
                resolve(self, scopes, sets) == resolve(self, scopes.subrange(i as int, scopes.len() as int), sets),
                deciding_matches(self, scopes) == deciding_matches(self, scopes.subrange(i as int, scopes.len() as int)),
            decreases schemas@.len() - i,
        {
            let ghost rest = scopes.subrange(i as int, scopes.len() as int);
            assert(rest[0] == scope_fields(schemas@[i as int]@));
            assert(rest.drop_first() =~= scopes.subrange(i + 1, scopes.len() as int));
            let flat = flatten_scope(&schemas[i]);
            let m = matching_fields(&self, &flat);
            if m.len() == 1 {
                return Ok(m[0].qualified_column());
            }
            if m.len() > 1 {
                if covered(&m, using_columns) {
                    return Ok(m[0].qualified_column());
                }
                let mut qualifiers: Vec<Option<String>> = Vec::new();
                let mut k: usize = 0;
                while k < m.len()
                    invariant
                        k <= m@.len(),
                        qualifiers@ == m@.subrange(0, k as int).map_values(|f: DFField| f.relation),
                    decreases m@.len() - k,
                {
                    qualifiers.push(crate::common::clone_relation(&m[k].relation));
                    assert(m@.subrange(0, k + 1).map_values(|f: DFField| f.relation) =~= m@.subrange(0, k as int).map_values(
                        |f: DFField| f.relation,
                    ).push(m@[k as int].relation));
                    k += 1;
                }
                assert(m@.subrange(0, k as int) =~= m@);
                return Err(RewriteError::AmbiguousReference { field: self, qualifiers });
            }
            i += 1;
        }
        assert(scopes.subrange(i as int, scopes.len() as int).len() == 0);
        let mut valid: Vec<Column> = Vec::new();
        if schemas.len() > 0 {
            let flat = flatten_scope(&schemas[0]);
            let mut j: usize = 0;
            while j < flat.len()
                invariant
                    j <= flat@.len(),
                    flat@ == scope_fields(schemas@[0]@),
                    valid@ == flat@.subrange(0, j as int).map_values(|f: DFField| f.column()),
                decreases flat@.len() - j,
            {
                valid.push(flat[j].qualified_column());
                assert(flat@.subrange(0, j + 1).map_values(|f: DFField| f.column())
                    =~= flat@.subrange(0, j as int).map_values(|f: DFField| f.column()).push(flat@[j as int].column()));
                j += 1;
            }
            assert(flat@.subrange(0, j as int) =~= flat@);
        } else {
            assert(valid@ =~= innermost_columns(scopes));
        }
        Err(RewriteError::FieldNotFound { field: self, valid_fields: valid })
    }
}

} // verus!
