//! The aggregator: reduces each column of a table to one cell, the
//! column's sum.
//!
//! The null-skip convention and the per-kind policy are pinned here:
//! integer columns are summed exactly in a 128-bit accumulator with null
//! cells skipped; float columns are summed by the dataframe library's
//! float-sum kernel, which also skips nulls, and the cell keeps the
//! resulting bit pattern; date columns are not numeric and are omitted
//! from the aggregate row.  Each batch is reduced independently; nothing
//! accumulates across batches.

use vstd::prelude::*;

use crate::table::Column;
use crate::table::Table;
use crate::value::ColumnCells;

verus! {

/// One reduced cell: an exact integer sum or the bit pattern of a float
/// sum.
#[derive(Clone, Copy, Debug, PartialEq, Eq, Structural)]
pub enum AggValue {
    IntSum(i128),
    FloatSumBits(u64),
}

/// One named cell of an aggregate row.
#[derive(Clone, Debug)]
pub struct AggCell {
    pub name: String,
    pub value: AggValue,
}

/// One row per table: one cell per numeric column, in column order.
#[derive(Clone, Debug)]
pub struct AggregateRow {
    pub cells: Vec<AggCell>,
}

/// The bit pattern of the float sum of a column's cells, nulls skipped:
/// what the dataframe library's float-sum kernel returns.  The result is a
/// function of the cells alone.
pub uninterp spec fn f64_sum_bits(cells: Seq<Option<u64>>) -> u64;

/// Relies on polars' `Series::sum_reduce` over a 64-bit float column: the
/// sum skips null cells, an empty column sums to zero, and the result
/// depends on the cells alone.
#[verifier::external_body]
fn sum_f64_cells(cells: &Vec<Option<u64>>) -> (r: Option<u64>)
    ensures
        r == Some(f64_sum_bits(cells@)),
        cells@.len() == 0 ==> r == Some(0u64),
{
    let vals: Vec<Option<_>> = cells
        .iter()
        .map(|c| c.map(|b| polars_arrow::types::NativeType::from_le_bytes(b.to_le_bytes())))
        .collect();
    let arr = polars_arrow::array::Float64Array::from(vals);
    let series = polars::prelude::Series::from_arrow("cells".into(), Box::new(arr)).ok()?;
    let total = series.sum_reduce().ok()?;
    match total.into_value() {
        polars::prelude::AnyValue::Float64(x) => Some(x.to_bits()),
        _ => None,
    }
}

/// The exact sum of a column of 32-bit integers, nulls counted as absent.
pub open spec fn spec_sum_i32(cells: Seq<Option<i32>>) -> int
    decreases cells,
{
    if cells.len() == 0 {
        0
    } else {
        spec_sum_i32(cells.subrange(0, cells.len() - 1)) + (match cells[cells.len() - 1] {
            Some(x) => x as int,
            None => 0,
        })
    }
}

/// The sum of a column of 32-bit integers is bounded by the cell count
/// times the cell magnitude.
pub proof fn lemma_sum_i32_bound(cells: Seq<Option<i32>>)
    ensures
        -(cells.len() as int) * 0x8000_0000 <= spec_sum_i32(cells) <= (cells.len() as int)
            * 0x8000_0000,
    decreases cells,
{
    if cells.len() > 0 {
        lemma_sum_i32_bound(cells.subrange(0, cells.len() - 1));
    }
}

/// Sums one integer column exactly, skipping nulls.
#[verifier::loop_isolation(false)]
pub fn sum_i32_cells(cells: &Vec<Option<i32>>) -> (total: i128)
    ensures
        total == spec_sum_i32(cells@),
{
    let mut total: i128 = 0;
    let mut i: usize = 0;
    while i < cells.len()
        invariant
            i <= cells@.len(),
            total == spec_sum_i32(cells@.subrange(0, i as int)),
            -(i as int) * 0x8000_0000 <= total <= (i as int) * 0x8000_0000,
        decreases cells@.len() - i,
    {
        proof {
            assert(cells@.subrange(0, i + 1).subrange(0, i as int) =~= cells@.subrange(0, i as int));
            assert(cells@.subrange(0, i + 1)[i as int] == cells@[i as int]);
        }
        match cells[i] {
            Some(x) => {
                total = total + (x as i128);
            },
            None => {},
        }
        i = i + 1;
    }
    proof {
        assert(cells@.subrange(0, cells@.len() as int) =~= cells@);
    }
    total
}

/// The aggregate cells of a column sequence, in column order: integer
/// columns reduce to their exact sum, float columns to the bit pattern of
/// the kernel's sum, date columns are omitted.
pub open spec fn spec_sum_columns(cols: Seq<Column>) -> Seq<AggCell>
    decreases cols,
{
    if cols.len() == 0 {
        seq![]
    } else {
        let prefix = spec_sum_columns(cols.subrange(0, cols.len() - 1));
        let last = cols[cols.len() - 1];
        match last.cells {
            ColumnCells::Int32(v) => prefix + seq![
                (AggCell { name: last.name, value: AggValue::IntSum(spec_sum_i32(v@) as i128) }),
            ],
            ColumnCells::Date32(_) => prefix,
            ColumnCells::Float64Bits(v) => prefix + seq![
                (AggCell { name: last.name, value: AggValue::FloatSumBits(f64_sum_bits(v@)) }),
            ],
        }
    }
}

/// Reduces every numeric column of the table to its sum, in column order,
/// under the conventions pinned above.
#[verifier::loop_isolation(false)]
pub fn sum_columns(t: &Table) -> (r: AggregateRow)
    ensures
        r.cells@ == spec_sum_columns(t.columns@),
{
    let mut cells: Vec<AggCell> = Vec::new();
    let mut i: usize = 0;
    while i < t.columns.len()
        invariant
            i <= t.columns@.len(),
            cells@ == spec_sum_columns(t.columns@.subrange(0, i as int)),
        decreases t.columns@.len() - i,
    {
        proof {
            assert(t.columns@.subrange(0, i + 1).subrange(0, i as int) =~= t.columns@.subrange(
                0,
                i as int,
            ));
            assert(t.columns@.subrange(0, i + 1)[i as int] == t.columns@[i as int]);
        }
        match &t.columns[i].cells {
            ColumnCells::Int32(v) => {
                let total = sum_i32_cells(v);
                proof {
                    lemma_sum_i32_bound(v@);
                }
                let name = t.columns[i].name.clone();
                cells.push(AggCell { name, value: AggValue::IntSum(total) });
            },
            ColumnCells::Date32(_) => {},
            ColumnCells::Float64Bits(v) => {
                let bits = match sum_f64_cells(v) {
                    Some(b) => b,
                    None => unreached(),
                };
                let name = t.columns[i].name.clone();
                cells.push(AggCell { name, value: AggValue::FloatSumBits(bits) });
            },
        }
        proof {
            assert(cells@ =~= spec_sum_columns(t.columns@.subrange(0, i + 1)));
        }
        i = i + 1;
    }
    proof {
        assert(t.columns@.subrange(0, t.columns@.len() as int) =~= t.columns@);
    }
    AggregateRow { cells }
}

} // verus!
