//! Typed array values: the safe, ownership-resolved form of one imported
//! descriptor.  A primitive value holds its decoded cells as plain values
//! (floats by their raw bit pattern, so nothing is lost); a struct value
//! holds one named child per field, all with the same row count.
//!
//! Each executable type has a mathematical model (`CellsModel`,
//! `FieldModel`, `ValueModel`) over sequences, which is what contracts
//! speak of.

use vstd::prelude::*;

use crate::kinds::ElementKind;

verus! {

/// The cells of one primitive column.  A `None` cell is null.  Float cells
/// keep the 64-bit pattern found in the data buffer.
#[derive(Debug, PartialEq, Eq)]
pub enum ColumnCells {
    Int32(Vec<Option<i32>>),
    Date32(Vec<Option<i32>>),
    Float64Bits(Vec<Option<u64>>),
}

/// One named child of a struct value.
#[derive(Debug, PartialEq, Eq)]
pub struct StructField {
    pub name: String,
    pub value: TypedValue,
}

/// A typed array value: either one primitive column or a struct of named
/// children sharing one row count.
#[derive(Debug, PartialEq, Eq)]
pub enum TypedValue {
    Primitive(ColumnCells),
    Struct { rows: usize, fields: Vec<StructField> },
}

/// Mathematical model of `ColumnCells`.
pub enum CellsModel {
    Int32(Seq<Option<i32>>),
    Date32(Seq<Option<i32>>),
    Float64Bits(Seq<Option<u64>>),
}

/// Mathematical model of `StructField`.
pub struct FieldModel {
    pub name: Seq<char>,
    pub value: ValueModel,
}

/// Mathematical model of `TypedValue`.
pub enum ValueModel {
    Primitive(CellsModel),
    Struct { rows: nat, fields: Seq<FieldModel> },
}

impl CellsModel {
    /// The element kind of these cells.
    pub open spec fn kind(self) -> ElementKind {
        match self {
            CellsModel::Int32(_) => ElementKind::Int32,
            CellsModel::Date32(_) => ElementKind::Date32,
            CellsModel::Float64Bits(_) => ElementKind::Float64,
        }
    }

    /// How many cells the column holds.
    pub open spec fn len(self) -> nat {
        match self {
            CellsModel::Int32(s) => s.len(),
            CellsModel::Date32(s) => s.len(),
            CellsModel::Float64Bits(s) => s.len(),
        }
    }
}

impl ValueModel {
    /// The element kind of a primitive value; a struct value has none.
    pub open spec fn prim_kind(self) -> Option<ElementKind> {
        match self {
            ValueModel::Primitive(c) => Some(c.kind()),
            ValueModel::Struct { .. } => None,
        }
    }

    /// The number of rows the value describes.
    pub open spec fn row_count(self) -> nat {
        match self {
            ValueModel::Primitive(c) => c.len(),
            ValueModel::Struct { rows, .. } => rows,
        }
    }

    /// Well-formedness: every child of a struct is itself well formed and
    /// holds exactly the struct's row count (the struct-of-arrays shape).
    pub open spec fn wf(self) -> bool
        decreases self,
    {
        match self {
            ValueModel::Primitive(_) => true,
            ValueModel::Struct { rows, fields } => Self::wf_fields(rows, fields),
        }
    }

    /// Well-formedness of a sequence of struct fields against a row count.
    pub open spec fn wf_fields(rows: nat, fields: Seq<FieldModel>) -> bool
        decreases fields,
    {
        if fields.len() == 0 {
            true
        } else {
            let last = fields[fields.len() - 1];
            &&& Self::wf_fields(rows, fields.subrange(0, fields.len() - 1))
            &&& last.value.wf()
            &&& last.value.row_count() == rows
        }
    }
}

/// The model of one column's cells.
pub open spec fn cells_model(c: ColumnCells) -> CellsModel {
    match c {
        ColumnCells::Int32(v) => CellsModel::Int32(v@),
        ColumnCells::Date32(v) => CellsModel::Date32(v@),
        ColumnCells::Float64Bits(v) => CellsModel::Float64Bits(v@),
    }
}

/// The model of a typed value.
pub open spec fn value_model(v: TypedValue) -> ValueModel
    decreases v,
{
    match v {
        TypedValue::Primitive(c) => ValueModel::Primitive(cells_model(c)),
        TypedValue::Struct { rows, fields } => ValueModel::Struct {
            rows: rows as nat,
            fields: fields_model(fields@),
        },
    }
}

/// The model of a sequence of struct fields.
pub open spec fn fields_model(fs: Seq<StructField>) -> Seq<FieldModel>
    decreases fs,
{
    if fs.len() == 0 {
        seq![]
    } else {
        let last = fs[fs.len() - 1];
        fields_model(fs.subrange(0, fs.len() - 1)) + seq![
            (FieldModel { name: last.name@, value: value_model(last.value) }),
        ]
    }
}

impl View for ColumnCells {
    type V = CellsModel;

    open spec fn view(&self) -> CellsModel {
        cells_model(*self)
    }
}

impl View for TypedValue {
    type V = ValueModel;

    open spec fn view(&self) -> ValueModel {
        value_model(*self)
    }
}

impl ColumnCells {
    /// Reports the element kind of these cells.
    pub fn kind(&self) -> (k: ElementKind)
        ensures
            k == self@.kind(),
    {
        match self {
            ColumnCells::Int32(_) => ElementKind::Int32,
            ColumnCells::Date32(_) => ElementKind::Date32,
            ColumnCells::Float64Bits(_) => ElementKind::Float64,
        }
    }

    /// Reports how many cells the column holds.
    pub fn len(&self) -> (n: usize)
        ensures
            n == self@.len(),
    {
        match self {
            ColumnCells::Int32(v) => v.len(),
            ColumnCells::Date32(v) => v.len(),
            ColumnCells::Float64Bits(v) => v.len(),
        }
    }
}

impl TypedValue {
    /// Reports the number of rows the value describes.
    pub fn row_len(&self) -> (n: usize)
        ensures
            n == self@.row_count(),
    {
        match self {
            TypedValue::Primitive(c) => c.len(),
            TypedValue::Struct { rows, .. } => *rows,
        }
    }

    /// Reports whether the value is struct-kind.
    pub fn is_struct(&self) -> (b: bool)
        ensures
            b == (self@ is Struct),
    {
        match self {
            TypedValue::Primitive(_) => false,
            TypedValue::Struct { .. } => true,
        }
    }

    /// Decides well-formedness: whether every child of every struct below
    /// this value holds its struct's row count.
    #[verifier::loop_isolation(false)]
    pub fn check_wf(&self) -> (ok: bool)
        ensures
            ok == self@.wf(),
        decreases *self,
    {
        match self {
            TypedValue::Primitive(_) => true,
            TypedValue::Struct { rows, fields } => {
                let mut i: usize = 0;
                while i < fields.len()
                    invariant
                        i <= fields@.len(),
                        ValueModel::wf_fields(
                            *rows as nat,
                            fields_model(fields@.subrange(0, i as int)),
                        ),
                    decreases fields@.len() - i,
                {
                    proof {
                        assert(fields@.subrange(0, i + 1) =~= fields@.subrange(0, i as int).push(
                            fields@[i as int],
                        ));
                        lemma_fields_model_push(fields@.subrange(0, i as int), fields@[i as int]);
                        lemma_fields_model_len(fields@.subrange(0, i as int));
                    }
                    let ok_child = fields[i].value.check_wf();
                    let rows_match = fields[i].value.row_len() == *rows;
                    if !(ok_child && rows_match) {
                        proof {
                            if ValueModel::wf_fields(*rows as nat, fields_model(fields@)) {
                                lemma_fields_model_index(fields@, i as int);
                                lemma_wf_field(*rows as nat, fields_model(fields@), i as int);
                            }
                        }
                        return false;
                    }
                    proof {
                        lemma_wf_fields_push(
                            *rows as nat,
                            fields_model(fields@.subrange(0, i as int)),
                            (FieldModel {
                                name: fields@[i as int].name@,
                                value: value_model(fields@[i as int].value),
                            }),
                        );
                        assert(fields_model(fields@.subrange(0, i as int)).push(
                            (FieldModel {
                                name: fields@[i as int].name@,
                                value: value_model(fields@[i as int].value),
                            }),
                        ) =~= fields_model(fields@.subrange(0, i as int)) + seq![
                            (FieldModel {
                                name: fields@[i as int].name@,
                                value: value_model(fields@[i as int].value),
                            }),
                        ]);
                    }
                    i = i + 1;
                }
                proof {
                    assert(fields@.subrange(0, fields@.len() as int) =~= fields@);
                }
                true
            },
        }
    }
}

/// A model sequence grows by one field at its end when the vector it models
/// is pushed.
pub proof fn lemma_fields_model_push(fs: Seq<StructField>, f: StructField)
    ensures
        fields_model(fs.push(f)) == fields_model(fs) + seq![
            (FieldModel { name: f.name@, value: value_model(f.value) }),
        ],
{
    assert(fs.push(f).subrange(0, fs.push(f).len() - 1) =~= fs);
    assert(fs.push(f)[fs.push(f).len() - 1] == f);
}

/// The model keeps the field count.
pub proof fn lemma_fields_model_len(fs: Seq<StructField>)
    ensures
        fields_model(fs).len() == fs.len(),
    decreases fs,
{
    if fs.len() > 0 {
        lemma_fields_model_len(fs.subrange(0, fs.len() - 1));
    }
}

/// Pointwise reading of the model of a field sequence.
pub proof fn lemma_fields_model_index(fs: Seq<StructField>, i: int)
    requires
        0 <= i < fs.len(),
    ensures
        fields_model(fs).len() == fs.len(),
        fields_model(fs)[i] == (FieldModel { name: fs[i].name@, value: value_model(fs[i].value) }),
    decreases fs,
{
    lemma_fields_model_len(fs);
    if fs.len() > 0 {
        if i < fs.len() - 1 {
            assert(fs.subrange(0, fs.len() - 1)[i] == fs[i]);
            lemma_fields_model_index(fs.subrange(0, fs.len() - 1), i);
        }
    }
}

/// Appending one field to a well-formed field sequence keeps it well formed
/// exactly when the new field fits the row count.
pub proof fn lemma_wf_fields_push(rows: nat, fs: Seq<FieldModel>, f: FieldModel)
    ensures
        ValueModel::wf_fields(rows, fs.push(f)) == (ValueModel::wf_fields(rows, fs) && f.value.wf()
            && f.value.row_count() == rows),
{
    assert(fs.push(f).subrange(0, fs.push(f).len() - 1) =~= fs);
    assert(fs.push(f)[fs.push(f).len() - 1] == f);
}

/// Every field of a well-formed struct model is well formed and carries the
/// struct's row count.
pub proof fn lemma_wf_field(rows: nat, fields: Seq<FieldModel>, i: int)
    requires
        ValueModel::wf_fields(rows, fields),
        0 <= i < fields.len(),
    ensures
        fields[i].value.wf(),
        fields[i].value.row_count() == rows,
    decreases fields.len(),
{
    if i < fields.len() - 1 {
        assert(fields.subrange(0, fields.len() - 1)[i] == fields[i]);
        lemma_wf_field(rows, fields.subrange(0, fields.len() - 1), i);
    }
}

} // verus!
