//! The relational side of the persistence gateway: decomposition of a remedy
//! list into four aligned column arrays for one bulk insert, and reassembly
//! of remedy models from such aligned columns, with the quantity's two
//! columns treated as valid only when both are present or both absent.

use vstd::prelude::*;
use crate::schema::{opt_str_eq, CreateRemedyModel, OathSchema, RemedySchema};
use crate::unit::{spec_decode, spec_unit_amount, spec_unit_name, Unit};

verus! {

/// One stored oath row, as the store hands it back: the parent of a remedy
/// group.
#[derive(Debug, Clone)]
pub struct OathRow {
    pub id: i32,
    pub target: String,
    pub penalty: String,
    pub created_at: i64,
    pub starts_at: i64,
    pub ends_at: i64,
    pub ends_at_alias: String,
}

/// One stored remedy row, still flat: it names its parent oath by key.
#[derive(Debug, Clone)]
pub struct RemedyRow {
    pub id: i32,
    pub oath_id: i32,
    pub condition: String,
    pub statement: String,
    pub n: Option<i32>,
    pub unit: Option<String>,
    pub created_at: i64,
}

/// A stored remedy taken field for field from a flat row, the parent key
/// dropped.
pub open spec fn remedy_schema_of_row(s: RemedySchema, r: RemedyRow) -> bool {
    &&& s.id == r.id
    &&& s.condition@ == r.condition@
    &&& s.statement@ == r.statement@
    &&& s.n == r.n
    &&& opt_str_eq(s.unit, r.unit)
    &&& s.created_at == r.created_at
}

/// A remedy collection taken 1:1, in order, from a row sequence.
pub open spec fn remedies_of_rows(ss: Seq<RemedySchema>, rr: Seq<RemedyRow>) -> bool {
    &&& ss.len() == rr.len()
    &&& forall|k: int| 0 <= k < ss.len() ==> remedy_schema_of_row(#[trigger] ss[k], rr[k])
}

/// The predicate that picks an oath's own remedy rows.
pub open spec fn belongs_to(oath_id: i32) -> spec_fn(RemedyRow) -> bool {
    |r: RemedyRow| r.oath_id == oath_id
}

/// An aggregate built from one oath row: its columns are the row's, and its
/// remedy collection holds exactly the remedy rows that name it, in their
/// stored order. A childless oath carries an empty collection, never `None`.
pub open spec fn aggregate_of_row(o: OathSchema, row: OathRow, rows: Seq<RemedyRow>) -> bool {
    &&& o.id == row.id
    &&& o.target@ == row.target@
    &&& o.penalty@ == row.penalty@
    &&& o.created_at == row.created_at
    &&& o.starts_at == row.starts_at
    &&& o.ends_at == row.ends_at
    &&& o.ends_at_alias@ == row.ends_at_alias@
    &&& o.remedies matches Some(rs) && remedies_of_rows(rs@, rows.filter(belongs_to(row.id)))
}

/// A stored remedy row whose quantity columns disagree is a data-consistency
/// fault: exactly one of the amount and the unit name is present.
#[derive(Debug, Clone, Copy, PartialEq, Eq, Structural)]
pub enum DataFault {
    InconsistentQuantity,
}

/// Taking one more element of `s` extends the filtered prefix by that element
/// exactly when the predicate accepts it.
proof fn lemma_filter_step<A>(s: Seq<A>, pred: spec_fn(A) -> bool, j: int)
    requires
        0 <= j < s.len(),
    ensures
        s.subrange(0, j + 1).filter(pred) == if pred(s[j]) {
            s.subrange(0, j).filter(pred).push(s[j])
        } else {
            s.subrange(0, j).filter(pred)
        },
{
    reveal(Seq::filter);
    let t = s.subrange(0, j + 1);
    assert(t.drop_last() =~= s.subrange(0, j));
    assert(t.last() == s[j]);
}

/// Rebuild the nested aggregates from flat relational rows: one aggregate per
/// oath row, in the given oath order, each owning exactly the remedy rows
/// that name it, in their given order. An oath no remedy row names comes back
/// with an empty remedy collection rather than being dropped.
pub fn group_rows(oaths: &Vec<OathRow>, rows: &Vec<RemedyRow>) -> (r: Vec<OathSchema>)
    ensures
        r@.len() == oaths@.len(),
        forall|i: int|
            0 <= i < oaths@.len() ==> aggregate_of_row(#[trigger] r@[i], oaths@[i], rows@),
{
    let mut out: Vec<OathSchema> = Vec::new();
    let n_oaths = oaths.len();
    let n_rows = rows.len();
    let mut i: usize = 0;
    while i < n_oaths
        invariant
            n_oaths == oaths@.len(),
            n_rows == rows@.len(),
            i <= n_oaths,
            out@.len() == i,
            forall|k: int|
                0 <= k < i ==> aggregate_of_row(#[trigger] out@[k], oaths@[k], rows@),
        decreases n_oaths - i,
    {
        let oath = &oaths[i];
        let oath_id = oath.id;
        let ghost pred = belongs_to(oath_id);
        let mut remedies: Vec<RemedySchema> = Vec::new();
        let mut j: usize = 0;
        while j < n_rows
            invariant
                n_rows == rows@.len(),
                j <= n_rows,
                pred == belongs_to(oath_id),
                remedies_of_rows(remedies@, rows@.subrange(0, j as int).filter(pred)),
            decreases n_rows - j,
        {
            let row = &rows[j];
            if row.oath_id == oath_id {
                remedies.push(
                    RemedySchema {
                        id: row.id,
                        condition: row.condition.clone(),
                        statement: row.statement.clone(),
                        n: row.n,
                        unit: row.unit.clone(),
                        created_at: row.created_at,
                    },
                );
            }
            proof {
                lemma_filter_step(rows@, pred, j as int);
            }
            j = j + 1;
        }
        proof {
            assert(rows@.subrange(0, n_rows as int) =~= rows@);
        }
        out.push(
            OathSchema {
                id: oath.id,
                target: oath.target.clone(),
                penalty: oath.penalty.clone(),
                created_at: oath.created_at,
                starts_at: oath.starts_at,
                ends_at: oath.ends_at,
                ends_at_alias: oath.ends_at_alias.clone(),
                remedies: Some(remedies),
            },
        );
        i = i + 1;
    }
    out
}

/// Every stored remedy row has its quantity pair both present or both
/// absent.
pub open spec fn all_rows_consistent(rows: Seq<RemedyRow>) -> bool {
    forall|i: int|
        0 <= i < rows.len() ==> row_quantity_consistent(#[trigger] rows[i].n, rows[i].unit)
}

/// Rebuild the nested aggregates from flat rows, surfacing a data-consistency
/// fault when some remedy row has exactly one of its quantity columns
/// present; both-present and both-absent are the only states a valid store
/// hands back.
pub fn assemble_aggregates(oaths: &Vec<OathRow>, rows: &Vec<RemedyRow>) -> (r: Result<
    Vec<OathSchema>,
    DataFault,
>)
    ensures
        r is Ok <==> all_rows_consistent(rows@),
        r matches Ok(aggs) ==> {
            &&& aggs@.len() == oaths@.len()
            &&& forall|i: int|
                0 <= i < oaths@.len() ==> aggregate_of_row(#[trigger] aggs@[i], oaths@[i], rows@)
        },
{
    let n_rows = rows.len();
    let mut j: usize = 0;
    while j < n_rows
        invariant
            n_rows == rows@.len(),
            j <= n_rows,
            forall|k: int|
                0 <= k < j ==> row_quantity_consistent(#[trigger] rows@[k].n, rows@[k].unit),
        decreases n_rows - j,
    {
        let row = &rows[j];
        let consistent = match (&row.n, &row.unit) {
            (Some(_), Some(_)) => true,
            (None, None) => true,
            _ => false,
        };
        if !consistent {
            return Err(DataFault::InconsistentQuantity);
        }
        j = j + 1;
    }
    Ok(group_rows(oaths, rows))
}

/// The four aligned column arrays a remedy list decomposes into; index `i`
/// of every array describes remedy `i`.
#[derive(Debug, Clone)]
pub struct RemedyColumns {
    pub conditions: Vec<String>,
    pub statements: Vec<String>,
    pub amounts: Vec<Option<i32>>,
    pub units: Vec<Option<String>>,
}

/// Why aligned columns could not be reassembled into remedy models.
#[derive(Debug, Clone, Copy, PartialEq, Eq, Structural)]
pub enum ReassemblyError {
    /// The four column arrays do not all have the same length.
    MisalignedColumns,
    /// At some index exactly one of the amount and the unit name is present.
    InconsistentQuantity,
    /// At some index the unit name is not one of the recognized tags.
    UnknownUnit,
}

/// One remedy against one row of the four columns: the texts agree, and the
/// two quantity columns are both absent, or both present and taken from the
/// remedy's unit.
pub open spec fn remedy_decomposed(
    r: CreateRemedyModel,
    cond: String,
    stmt: String,
    amount: Option<i32>,
    unit: Option<String>,
) -> bool {
    &&& cond@ == r.condition@
    &&& stmt@ == r.statement@
    &&& match r.unit {
        Some(u) => {
            &&& amount == Some(spec_unit_amount(u))
            &&& unit matches Some(s) && s@ == spec_unit_name(u)
        },
        None => amount is None && unit is None,
    }
}

/// A whole remedy list against whole columns, row by row.
pub open spec fn columns_decomposed(remedies: Seq<CreateRemedyModel>, cols: RemedyColumns) -> bool {
    &&& cols.conditions@.len() == remedies.len()
    &&& cols.statements@.len() == remedies.len()
    &&& cols.amounts@.len() == remedies.len()
    &&& cols.units@.len() == remedies.len()
    &&& forall|i: int|
        0 <= i < remedies.len() ==> remedy_decomposed(
            remedies[i],
            #[trigger] cols.conditions@[i],
            cols.statements@[i],
            cols.amounts@[i],
            cols.units@[i],
        )
}

/// All four column arrays have the same length.
pub open spec fn columns_aligned(cols: RemedyColumns) -> bool {
    &&& cols.statements@.len() == cols.conditions@.len()
    &&& cols.amounts@.len() == cols.conditions@.len()
    &&& cols.units@.len() == cols.conditions@.len()
}

/// The two quantity columns of one row are both present or both absent.
pub open spec fn row_quantity_consistent(amount: Option<i32>, unit: Option<String>) -> bool {
    amount is Some <==> unit is Some
}

/// One row's quantity columns reassemble into an optional unit: either both
/// absent, or both present with a recognized unit name.
pub open spec fn row_ok(amount: Option<i32>, unit: Option<String>) -> bool {
    match (amount, unit) {
        (Some(a), Some(s)) => spec_decode(s@, a) is Some,
        (None, None) => true,
        _ => false,
    }
}

/// Every row before index `k` reassembles.
pub open spec fn rows_ok_before(cols: RemedyColumns, k: int) -> bool {
    forall|j: int| 0 <= j < k ==> row_ok(#[trigger] cols.amounts@[j], cols.units@[j])
}

/// Two remedy models carry the same condition, statement and unit.
pub open spec fn remedies_equal(a: CreateRemedyModel, b: CreateRemedyModel) -> bool {
    &&& a.condition@ == b.condition@
    &&& a.statement@ == b.statement@
    &&& a.unit == b.unit
}

/// Decompose a remedy list into four aligned column arrays of its length,
/// ready for a row-wise bulk insert: index `i` carries remedy `i`'s texts,
/// and its quantity split into two columns that are both present or both
/// absent.
pub fn decompose_remedies(remedies: &Vec<CreateRemedyModel>) -> (r: RemedyColumns)
    ensures
        columns_decomposed(remedies@, r),
{
    let mut conditions: Vec<String> = Vec::new();
    let mut statements: Vec<String> = Vec::new();
    let mut amounts: Vec<Option<i32>> = Vec::new();
    let mut units: Vec<Option<String>> = Vec::new();
    let n = remedies.len();
    let mut i: usize = 0;
    while i < n
        invariant
            n == remedies@.len(),
            i <= n,
            conditions@.len() == i,
            statements@.len() == i,
            amounts@.len() == i,
            units@.len() == i,
            forall|k: int|
                0 <= k < i ==> remedy_decomposed(
                    remedies@[k],
                    #[trigger] conditions@[k],
                    statements@[k],
                    amounts@[k],
                    units@[k],
                ),
        decreases n - i,
    {
        let remedy = &remedies[i];
        conditions.push(remedy.condition.clone());
        statements.push(remedy.statement.clone());
        match &remedy.unit {
            Some(u) => {
                amounts.push(Some(u.amount()));
                units.push(Some(String::from_str(u.name())));
            },
            None => {
                amounts.push(None);
                units.push(None);
            },
        }
        i = i + 1;
    }
    RemedyColumns { conditions, statements, amounts, units }
}

/// Reassemble remedy models from aligned column rows. Succeeds exactly when
/// the columns are aligned and every row's quantity pair is both-absent, or
/// both-present with a recognized unit name; the first offending row decides
/// the error.
pub fn reassemble_remedies(cols: &RemedyColumns) -> (r: Result<
    Vec<CreateRemedyModel>,
    ReassemblyError,
>)
    ensures
        r is Ok <==> columns_aligned(*cols) && rows_ok_before(
            *cols,
            cols.conditions@.len() as int,
        ),
        r matches Ok(rs) ==> {
            &&& rs@.len() == cols.conditions@.len()
            &&& forall|i: int|
                0 <= i < rs@.len() ==> remedy_decomposed(
                    rs@[i],
                    #[trigger] cols.conditions@[i],
                    cols.statements@[i],
                    cols.amounts@[i],
                    cols.units@[i],
                )
        },
        r == Err::<Vec<CreateRemedyModel>, ReassemblyError>(ReassemblyError::MisalignedColumns)
            <==> !columns_aligned(*cols),
        r == Err::<Vec<CreateRemedyModel>, ReassemblyError>(ReassemblyError::InconsistentQuantity)
            <==> columns_aligned(*cols) && exists|i: int|
            {
                &&& 0 <= i < cols.conditions@.len()
                &&& !row_quantity_consistent(#[trigger] cols.amounts@[i], cols.units@[i])
                &&& rows_ok_before(*cols, i)
            },
        r == Err::<Vec<CreateRemedyModel>, ReassemblyError>(ReassemblyError::UnknownUnit) <==> (
        columns_aligned(*cols) && exists|i: int|
            {
                &&& 0 <= i < cols.conditions@.len()
                &&& row_quantity_consistent(#[trigger] cols.amounts@[i], cols.units@[i])
                &&& !row_ok(cols.amounts@[i], cols.units@[i])
                &&& rows_ok_before(*cols, i)
            }),
{
    let n = cols.conditions.len();
    if cols.statements.len() != n || cols.amounts.len() != n || cols.units.len() != n {
        return Err(ReassemblyError::MisalignedColumns);
    }
    let mut out: Vec<CreateRemedyModel> = Vec::new();
    let mut i: usize = 0;
    while i < n
        invariant
            n == cols.conditions@.len(),
            columns_aligned(*cols),
            i <= n,
            out@.len() == i,
            rows_ok_before(*cols, i as int),
            forall|k: int|
                0 <= k < i ==> remedy_decomposed(
                    out@[k],
                    #[trigger] cols.conditions@[k],
                    cols.statements@[k],
                    cols.amounts@[k],
                    cols.units@[k],
                ),
        decreases n - i,
    {
        let unit: Option<Unit> = match (&cols.amounts[i], &cols.units[i]) {
            (Some(a), Some(s)) => match Unit::decode(s, *a) {
                Ok(u) => Some(u),
                Err(_) => {
                    return Err(ReassemblyError::UnknownUnit);
                },
            },
            (None, None) => None,
            _ => {
                return Err(ReassemblyError::InconsistentQuantity);
            },
        };
        out.push(
            CreateRemedyModel {
                condition: cols.conditions[i].clone(),
                statement: cols.statements[i].clone(),
                unit,
            },
        );
        i = i + 1;
    }
    Ok(out)
}

/// A unit is pinned down by its tag name and its amount: two units that agree
/// on both are the same unit.
pub proof fn lemma_unit_name_amount_injective(a: Unit, b: Unit)
    requires
        spec_unit_name(a) == spec_unit_name(b),
        spec_unit_amount(a) == spec_unit_amount(b),
    ensures
        a == b,
{
    crate::unit::lemma_encode_decode_round_trip(a);
    crate::unit::lemma_encode_decode_round_trip(b);
}

/// Columns produced by decomposition always reassemble: they are aligned and
/// every row is valid.
pub proof fn lemma_decomposed_columns_reassemble(
    remedies: Seq<CreateRemedyModel>,
    cols: RemedyColumns,
)
    requires
        columns_decomposed(remedies, cols),
    ensures
        columns_aligned(cols),
        rows_ok_before(cols, cols.conditions@.len() as int),
{
    assert forall|j: int| 0 <= j < cols.conditions@.len() implies row_ok(
        #[trigger] cols.amounts@[j],
        cols.units@[j],
    ) by {
        assert(remedy_decomposed(
            remedies[j],
            cols.conditions@[j],
            cols.statements@[j],
            cols.amounts@[j],
            cols.units@[j],
        ));
        match remedies[j].unit {
            Some(u) => {
                crate::unit::lemma_encode_decode_round_trip(u);
            },
            None => {},
        }
    }
}

/// Round trip through the relational decomposition: remedy models rebuilt
/// from the columns of a decomposed remedy list reproduce the original
/// condition, statement and unit of every remedy, in the same order.
pub proof fn lemma_decompose_reassemble_round_trip(
    remedies: Seq<CreateRemedyModel>,
    cols: RemedyColumns,
    out: Seq<CreateRemedyModel>,
)
    requires
        columns_decomposed(remedies, cols),
        out.len() == cols.conditions@.len(),
        forall|i: int|
            0 <= i < out.len() ==> remedy_decomposed(
                out[i],
                #[trigger] cols.conditions@[i],
                cols.statements@[i],
                cols.amounts@[i],
                cols.units@[i],
            ),
    ensures
        out.len() == remedies.len(),
        forall|i: int| 0 <= i < remedies.len() ==> remedies_equal(#[trigger] out[i], remedies[i]),
{
    assert forall|i: int| 0 <= i < remedies.len() implies remedies_equal(
        #[trigger] out[i],
        remedies[i],
    ) by {
        assert(remedy_decomposed(
            remedies[i],
            cols.conditions@[i],
            cols.statements@[i],
            cols.amounts@[i],
            cols.units@[i],
        ));
        assert(remedy_decomposed(
            out[i],
            cols.conditions@[i],
            cols.statements@[i],
            cols.amounts@[i],
            cols.units@[i],
        ));
        match (remedies[i].unit, out[i].unit) {
            (Some(u), Some(v)) => {
                lemma_unit_name_amount_injective(u, v);
            },
            _ => {},
        }
    }
}

} // verus!
