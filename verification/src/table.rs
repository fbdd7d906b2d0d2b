//! The batch-to-table assembler: turns one struct-kind typed value into a
//! table of named columns.
//!
//! The caller supplies the expected name and element kind for each
//! positional child, since the query shape is bound to fixed output names.
//! A child count that differs from the supplied names is
//! `ColumnCountMismatch`; a child whose actual kind differs from the
//! declared kind for its position is `TypeMismatch`.  On success the table
//! keeps the children in positional order and every column holds the
//! struct's row count.

use vstd::prelude::*;

use crate::kinds::ElementKind;
use crate::value::ColumnCells;
use crate::value::StructField;
use crate::value::TypedValue;
use crate::value::ValueModel;
use crate::value::fields_model;
use crate::value::lemma_fields_model_index;
use crate::value::lemma_fields_model_len;
use crate::value::lemma_wf_field;

verus! {

/// Why assembling a table was refused.
#[derive(Clone, Copy, Debug, PartialEq, Eq, Structural)]
pub enum AssembleError {
    /// The struct value's child count differs from the number of expected
    /// column names.
    ColumnCountMismatch,
    /// Some child's actual element kind differs from the kind declared for
    /// its position.
    TypeMismatch,
}

/// One named column of a table.
#[derive(Debug)]
pub struct Column {
    pub name: String,
    pub cells: ColumnCells,
}

/// An ordered sequence of named columns, all of one row count; the column
/// order is the table's schema.
#[derive(Debug)]
pub struct Table {
    pub columns: Vec<Column>,
}

impl Table {
    /// The table's row count: that of its first column (a table without
    /// columns has no rows).
    pub open spec fn spec_rows(self) -> nat {
        if self.columns@.len() == 0 {
            0
        } else {
            self.columns@[0].cells@.len()
        }
    }

    /// Well-formedness: every column holds the same number of cells.
    pub open spec fn wf(self) -> bool {
        forall|i: int|
            0 <= i < self.columns@.len() ==> self.columns@[i].cells@.len() == self.spec_rows()
    }

    /// Reports how many columns the table has.
    pub fn num_columns(&self) -> (n: usize)
        ensures
            n == self.columns@.len(),
    {
        self.columns.len()
    }
}

/// Assembles a struct-kind value into a table of named columns, one column
/// per child in positional order, checking each child against the declared
/// element kind for its position.
#[verifier::loop_isolation(false)]
pub fn assemble(value: TypedValue, column_names: &Vec<String>, column_kinds: &Vec<ElementKind>) -> (r:
    Result<Table, AssembleError>)
    requires
        value@ is Struct,
        value@.wf(),
        column_names@.len() == column_kinds@.len(),
    ensures
        (value@->Struct_fields.len() != column_names@.len()) <==> (r == Err::<
            Table,
            AssembleError,
        >(AssembleError::ColumnCountMismatch)),
        (value@->Struct_fields.len() == column_names@.len() && (exists|i: int|
            0 <= i < value@->Struct_fields.len() && value@->Struct_fields[i].value.prim_kind()
                != Some(column_kinds@[i]))) <==> (r == Err::<Table, AssembleError>(
            AssembleError::TypeMismatch,
        )),
        r matches Ok(t) ==> t.wf() && t.columns@.len() == value@->Struct_fields.len(),
        r matches Ok(t) ==> forall|i: int|
            0 <= i < t.columns@.len() ==> #[trigger] t.columns@[i].name == column_names@[i],
        r matches Ok(t) ==> forall|i: int|
            0 <= i < t.columns@.len() ==> #[trigger] t.columns@[i].cells@.len()
                == value@.row_count(),
        r matches Ok(t) ==> forall|i: int|
            0 <= i < t.columns@.len() ==> value@->Struct_fields[i].value == ValueModel::Primitive(
                #[trigger] t.columns@[i].cells@,
            ),
{
    let ghost v_model = value@;
    let ghost fields_m = v_model->Struct_fields;
    let ghost rows_m = v_model->Struct_rows;
    let (rows, fields) = match value {
        TypedValue::Struct { rows, fields } => (rows, fields),
        TypedValue::Primitive(_) => {
            return unreached();
        },
    };
    let ghost all_fields = fields@;
    proof {
        assert(fields_m == fields_model(all_fields));
        assert(rows_m == rows as nat);
        lemma_fields_model_len(all_fields);
    }
    if fields.len() != column_names.len() {
        return Err(AssembleError::ColumnCountMismatch);
    }
    let mut i: usize = 0;
    while i < fields.len()
        invariant
            i <= all_fields.len(),
            forall|j: int|
                0 <= j < i ==> #[trigger] fields_m[j].value.prim_kind() == Some(column_kinds@[j]),
        decreases all_fields.len() - i,
    {
        proof {
            lemma_fields_model_index(all_fields, i as int);
        }
        let kind_ok = match &fields[i].value {
            TypedValue::Primitive(c) => c.kind() == column_kinds[i],
            TypedValue::Struct { .. } => false,
        };
        if !kind_ok {
            proof {
                assert(fields_m[i as int].value.prim_kind() != Some(column_kinds@[i as int]));
                assert(exists|k: int|
                    0 <= k < fields_m.len() && fields_m[k].value.prim_kind() != Some(
                        column_kinds@[k],
                    ));
            }
            return Err(AssembleError::TypeMismatch);
        }
        i = i + 1;
    }
    let mut remaining = fields;
    let mut columns: Vec<Column> = Vec::new();
    let mut idx: usize = 0;
    while remaining.len() > 0
        invariant
            idx + remaining@.len() == all_fields.len(),
            remaining@ =~= all_fields.subrange(idx as int, all_fields.len() as int),
            columns@.len() == idx,
            forall|j: int|
                0 <= j < idx ==> {
                    &&& #[trigger] columns@[j].name == column_names@[j]
                    &&& fields_m[j].value == ValueModel::Primitive(columns@[j].cells@)
                    &&& columns@[j].cells@.len() == rows_m
                },
        decreases remaining@.len(),
    {
        proof {
            lemma_fields_model_index(all_fields, idx as int);
            lemma_wf_field(rows_m, fields_m, idx as int);
            assert(remaining@[0] == all_fields[idx as int]);
            assert(fields_m[idx as int].value.prim_kind() == Some(column_kinds@[idx as int]));
        }
        let f = remaining.remove(0);
        let name = column_names[idx].clone();
        let cells = match f.value {
            TypedValue::Primitive(c) => c,
            TypedValue::Struct { .. } => {
                return unreached();
            },
        };
        columns.push(Column { name, cells });
        proof {
            assert(remaining@ =~= all_fields.subrange(idx + 1, all_fields.len() as int));
        }
        idx = idx + 1;
    }
    let result = Table { columns };
    proof {
        assert(v_model.row_count() == rows_m);
        assert forall|j: int| 0 <= j < result.columns@.len() implies {
            &&& #[trigger] result.columns@[j].cells@.len() == rows_m
            &&& fields_m[j].value == ValueModel::Primitive(result.columns@[j].cells@)
        } by {
            assert(result.columns@[j].name == column_names@[j]);
        }
        assert forall|j: int| 0 <= j < result.columns@.len() implies fields_m[j].value
            == ValueModel::Primitive(#[trigger] result.columns@[j].cells@) by {
            assert(result.columns@[j].name == column_names@[j]);
        }
    }
    Ok(result)
}

} // verus!
