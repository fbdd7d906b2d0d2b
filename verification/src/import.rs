//! The typed array importer: interprets one array descriptor together with
//! its schema descriptor as a typed array value, without touching any byte
//! the descriptor does not own.
//!
//! The wire-level descriptor is untyped; the format tag of the schema picks
//! the decoder.  Cells are read little-endian from the data buffer: four
//! bytes per 32-bit integer cell, eight per 64-bit float cell (kept as a
//! bit pattern).  Struct descriptors are imported by importing each child
//! against the matching child schema, all children holding the struct's
//! row count.
//!
//! Importing transfers ownership of every release callback in the
//! descriptor tree to the imported value; a failed import hands the
//! descriptor back untouched, so the caller still holds the callbacks.
//! Either way each callback fires exactly once.

use vstd::prelude::*;

use crate::descriptor::ArrayDescriptor;
use crate::descriptor::SchemaDescriptor;
use crate::kinds::ElementKind;
use crate::kinds::FormatKind;
use crate::kinds::parse_format;
use crate::kinds::spec_parse_format;
use crate::value::CellsModel;
use crate::value::ColumnCells;
use crate::value::FieldModel;
use crate::value::StructField;
use crate::value::TypedValue;
use crate::value::ValueModel;
use crate::value::fields_model;
use crate::value::lemma_fields_model_push;
use crate::value::value_model;

verus! {

/// Why an import was refused.
#[derive(Clone, Copy, Debug, PartialEq, Eq, Structural)]
pub enum ImportError {
    /// The schema's format tag names no supported element kind.
    UnsupportedType,
    /// The descriptor does not fit the schema: a buffer too short, a wrong
    /// validity length, a null count that does not match the validity, or
    /// children that do not line up.
    MalformedDescriptor,
}

/// The 32-bit word at cell `i`, read little-endian from the data buffer.
pub open spec fn le32_at(data: Seq<u8>, i: int) -> u32 {
    (data[4 * i] as u32) | ((data[4 * i + 1] as u32) << 8) | ((data[4 * i + 2] as u32) << 16) | (
    (data[4 * i + 3] as u32) << 24)
}

/// The 64-bit word at cell `i`, read little-endian from the data buffer.
pub open spec fn le64_at(data: Seq<u8>, i: int) -> u64 {
    (data[8 * i] as u64) | ((data[8 * i + 1] as u64) << 8) | ((data[8 * i + 2] as u64) << 16) | (
    (data[8 * i + 3] as u64) << 24) | ((data[8 * i + 4] as u64) << 32) | ((data[8 * i + 5] as u64)
        << 40) | ((data[8 * i + 6] as u64) << 48) | ((data[8 * i + 7] as u64) << 56)
}

/// The validity of each cell: an absent buffer means every cell is valid.
pub open spec fn spec_valid(validity: Option<Vec<bool>>, length: nat) -> Seq<bool> {
    match validity {
        None => Seq::new(length, |i: int| true),
        Some(v) => v@,
    }
}

/// How many cells a validity sequence marks null.
pub open spec fn count_false(vs: Seq<bool>) -> nat
    decreases vs,
{
    if vs.len() == 0 {
        0
    } else {
        count_false(vs.subrange(0, vs.len() - 1)) + if vs[vs.len() - 1] {
            0nat
        } else {
            1nat
        }
    }
}

/// Bytes each cell of the kind occupies in the data buffer.
pub open spec fn cell_width(k: ElementKind) -> int {
    match k {
        ElementKind::Int32 => 4,
        ElementKind::Date32 => 4,
        ElementKind::Float64 => 8,
    }
}

/// The decoded 32-bit integer cells: null where the validity says so, else
/// the little-endian word at the cell's offset.
pub open spec fn spec_i32_cells(data: Seq<u8>, valid: Seq<bool>, length: nat) -> Seq<Option<i32>> {
    Seq::new(
        length,
        |i: int|
            if valid[i] {
                Some(le32_at(data, i) as i32)
            } else {
                None
            },
    )
}

/// The decoded 64-bit float cells, as bit patterns.
pub open spec fn spec_f64_cells(data: Seq<u8>, valid: Seq<bool>, length: nat) -> Seq<Option<u64>> {
    Seq::new(
        length,
        |i: int|
            if valid[i] {
                Some(le64_at(data, i))
            } else {
                None
            },
    )
}

/// A primitive descriptor fits its kind: no children, a validity buffer of
/// the right length if present, a data buffer wide enough for every cell,
/// and a null count that matches the validity.
pub open spec fn prim_ok(d: ArrayDescriptor, k: ElementKind) -> bool {
    &&& d.children@.len() == 0
    &&& (d.validity matches Some(v) ==> v@.len() == d.length)
    &&& cell_width(k) * d.length <= d.data@.len()
    &&& d.null_count == count_false(spec_valid(d.validity, d.length as nat))
}

/// A struct descriptor carries no cells of its own: no validity buffer, no
/// nulls, an empty data buffer.
pub open spec fn struct_meta_ok(d: ArrayDescriptor) -> bool {
    &&& d.validity is None
    &&& d.null_count == 0
    &&& d.data@.len() == 0
}

/// The cells a primitive descriptor decodes to under a kind.
pub open spec fn prim_cells(d: ArrayDescriptor, k: ElementKind) -> CellsModel {
    let valid = spec_valid(d.validity, d.length as nat);
    match k {
        ElementKind::Int32 => CellsModel::Int32(spec_i32_cells(d.data@, valid, d.length as nat)),
        ElementKind::Date32 => CellsModel::Date32(spec_i32_cells(d.data@, valid, d.length as nat)),
        ElementKind::Float64 => CellsModel::Float64Bits(
            spec_f64_cells(d.data@, valid, d.length as nat),
        ),
    }
}

/// What importing a descriptor under a schema yields: the typed value, or
/// the first error found.  The format tag is inspected first; a tag no
/// decoder recognises is `UnsupportedType`, every shape defect is
/// `MalformedDescriptor`.  Struct children are imported left to right and
/// must each hold the struct's row count.
pub open spec fn spec_import(d: ArrayDescriptor, s: SchemaDescriptor) -> Result<
    ValueModel,
    ImportError,
>
    decreases d,
{
    match spec_parse_format(s.format@) {
        None => Err(ImportError::UnsupportedType),
        Some(FormatKind::Primitive(k)) => {
            if prim_ok(d, k) {
                Ok(ValueModel::Primitive(prim_cells(d, k)))
            } else {
                Err(ImportError::MalformedDescriptor)
            }
        },
        Some(FormatKind::Struct) => {
            if d.children@.len() != s.children@.len() || !struct_meta_ok(d) {
                Err(ImportError::MalformedDescriptor)
            } else {
                match spec_import_fields(d.length as nat, d.children@, s.children@) {
                    Err(e) => Err(e),
                    Ok(fs) => Ok(ValueModel::Struct { rows: d.length as nat, fields: fs }),
                }
            }
        },
    }
}

/// Importing a sequence of child descriptors against their child schemas,
/// left to right; the first child to fail decides the error.
pub open spec fn spec_import_fields(
    rows: nat,
    dc: Seq<ArrayDescriptor>,
    sc: Seq<SchemaDescriptor>,
) -> Result<Seq<FieldModel>, ImportError>
    decreases dc,
{
    if dc.len() == 0 {
        Ok(seq![])
    } else {
        match spec_import_fields(rows, dc.subrange(0, dc.len() - 1), sc.subrange(0, sc.len() - 1)) {
            Err(e) => Err(e),
            Ok(fs) => match spec_import(dc[dc.len() - 1], sc[sc.len() - 1]) {
                Err(e) => Err(e),
                Ok(v) => {
                    if v.row_count() != rows {
                        Err(ImportError::MalformedDescriptor)
                    } else {
                        Ok(fs + seq![(FieldModel { name: sc[sc.len() - 1].name@, value: v })])
                    }
                },
            },
        }
    }
}

/// The model of an executable import result.
pub open spec fn model_import_result(r: Result<TypedValue, ImportError>) -> Result<
    ValueModel,
    ImportError,
> {
    match r {
        Ok(v) => Ok(value_model(v)),
        Err(e) => Err(e),
    }
}

/// An all-valid validity sequence has no nulls.
proof fn lemma_count_false_all_true(n: nat)
    ensures
        count_false(Seq::new(n, |i: int| true)) == 0,
    decreases n,
{
    if n > 0 {
        assert(Seq::new(n, |i: int| true).subrange(0, n - 1) =~= Seq::new(
            (n - 1) as nat,
            |i: int| true,
        ));
        lemma_count_false_all_true((n - 1) as nat);
    }
}

/// Once a prefix of the children fails to import, the whole sequence fails
/// with that same error.
proof fn lemma_fields_error_persists(
    rows: nat,
    dc: Seq<ArrayDescriptor>,
    sc: Seq<SchemaDescriptor>,
    k: int,
)
    requires
        0 <= k <= dc.len(),
        sc.len() == dc.len(),
        spec_import_fields(rows, dc.subrange(0, k), sc.subrange(0, k)) is Err,
    ensures
        spec_import_fields(rows, dc, sc) == spec_import_fields(
            rows,
            dc.subrange(0, k),
            sc.subrange(0, k),
        ),
    decreases dc.len() - k,
{
    if k < dc.len() {
        assert(dc.subrange(0, k + 1).subrange(0, k) =~= dc.subrange(0, k));
        assert(sc.subrange(0, k + 1).subrange(0, k) =~= sc.subrange(0, k));
        lemma_fields_error_persists(rows, dc, sc, k + 1);
    } else {
        assert(dc.subrange(0, k) =~= dc);
        assert(sc.subrange(0, k) =~= sc);
    }
}

/// A successful import yields a well-formed value whose row count is the
/// descriptor's length.
pub proof fn lemma_import_wf(d: ArrayDescriptor, s: SchemaDescriptor)
    ensures
        spec_import(d, s) matches Ok(m) ==> m.wf() && m.row_count() == d.length,
    decreases d,
{
    if spec_parse_format(s.format@) == Some(FormatKind::Struct) {
        lemma_import_fields_wf(d.length as nat, d.children@, s.children@);
    }
}

/// Children imported successfully form a well-formed field sequence, one
/// field per child.
pub proof fn lemma_import_fields_wf(rows: nat, dc: Seq<ArrayDescriptor>, sc: Seq<SchemaDescriptor>)
    ensures
        spec_import_fields(rows, dc, sc) matches Ok(fs) ==> ValueModel::wf_fields(rows, fs)
            && fs.len() == dc.len(),
    decreases dc,
{
    if dc.len() > 0 {
        lemma_import_fields_wf(rows, dc.subrange(0, dc.len() - 1), sc.subrange(0, sc.len() - 1));
        lemma_import_wf(dc[dc.len() - 1], sc[sc.len() - 1]);
        if spec_import_fields(rows, dc, sc) is Ok {
            let fs = spec_import_fields(rows, dc, sc)->Ok_0;
            let prefix = spec_import_fields(
                rows,
                dc.subrange(0, dc.len() - 1),
                sc.subrange(0, sc.len() - 1),
            )->Ok_0;
            assert(fs.subrange(0, fs.len() - 1) =~= prefix);
            assert(fs[fs.len() - 1] == (FieldModel {
                name: sc[sc.len() - 1].name@,
                value: spec_import(dc[dc.len() - 1], sc[sc.len() - 1])->Ok_0,
            }));
        }
    }
}

/// Counts the cells a validity buffer marks null.
fn count_invalid(validity: &Option<Vec<bool>>, length: usize) -> (n: usize)
    requires
        validity matches Some(v) ==> v@.len() == length,
    ensures
        n == count_false(spec_valid(*validity, length as nat)),
{
    match validity {
        None => {
            proof {
                lemma_count_false_all_true(length as nat);
            }
            0
        },
        Some(v) => {
            let mut n: usize = 0;
            let mut i: usize = 0;
            while i < v.len()
                invariant
                    i <= v@.len(),
                    n <= i,
                    n == count_false(v@.subrange(0, i as int)),
                decreases v@.len() - i,
            {
                proof {
                    assert(v@.subrange(0, i + 1).subrange(0, i as int) =~= v@.subrange(0, i as int));
                    assert(v@.subrange(0, i + 1)[i as int] == v@[i as int]);
                }
                if !v[i] {
                    n = n + 1;
                }
                i = i + 1;
            }
            proof {
                assert(v@.subrange(0, v@.len() as int) =~= v@);
            }
            n
        },
    }
}

/// Checks that a primitive descriptor fits its kind.
fn prim_checks(d: &ArrayDescriptor, k: ElementKind) -> (ok: bool)
    ensures
        ok == prim_ok(*d, k),
{
    let width: usize = match k {
        ElementKind::Int32 => 4,
        ElementKind::Date32 => 4,
        ElementKind::Float64 => 8,
    };
    if d.children.len() != 0 {
        return false;
    }
    let validity_fits = match &d.validity {
        None => true,
        Some(v) => v.len() == d.length,
    };
    if !validity_fits {
        return false;
    }
    let data_len = d.data.len();
    let data_fits = match d.length.checked_mul(width) {
        None => false,
        Some(total) => total <= data_len,
    };
    if !data_fits {
        return false;
    }
    let nulls = count_invalid(&d.validity, d.length);
    nulls == d.null_count
}

/// Decodes the 32-bit integer cells of a primitive descriptor.
fn decode_i32(data: &Vec<u8>, validity: &Option<Vec<bool>>, length: usize) -> (cells: Vec<
    Option<i32>,
>)
    requires
        validity matches Some(v) ==> v@.len() == length,
        4 * length <= data@.len(),
    ensures
        cells@ == spec_i32_cells(data@, spec_valid(*validity, length as nat), length as nat),
{
    let ghost valid = spec_valid(*validity, length as nat);
    let data_len = data.len();
    let mut cells: Vec<Option<i32>> = Vec::new();
    let mut i: usize = 0;
    while i < length
        invariant
            i <= length,
            cells@.len() == i,
            valid == spec_valid(*validity, length as nat),
            validity matches Some(v) ==> v@.len() == length,
            4 * length <= data@.len(),
            data@.len() == data_len,
            forall|j: int|
                0 <= j < i ==> cells@[j] == spec_i32_cells(data@, valid, length as nat)[j],
        decreases length - i,
    {
        let is_valid = match validity {
            None => true,
            Some(v) => v[i],
        };
        if is_valid {
            let b0 = data[4 * i];
            let b1 = data[4 * i + 1];
            let b2 = data[4 * i + 2];
            let b3 = data[4 * i + 3];
            let word: u32 = (b0 as u32) | ((b1 as u32) << 8) | ((b2 as u32) << 16) | ((b3 as u32)
                << 24);
            proof {
                assert(word == le32_at(data@, i as int));
            }
            cells.push(Some(#[verifier::truncate] (word as i32)));
        } else {
            cells.push(None);
        }
        i = i + 1;
    }
    proof {
        assert(cells@ =~= spec_i32_cells(data@, valid, length as nat));
    }
    cells
}

/// Decodes the 64-bit float cells of a primitive descriptor, as bit
/// patterns.
fn decode_f64(data: &Vec<u8>, validity: &Option<Vec<bool>>, length: usize) -> (cells: Vec<
    Option<u64>,
>)
    requires
        validity matches Some(v) ==> v@.len() == length,
        8 * length <= data@.len(),
    ensures
        cells@ == spec_f64_cells(data@, spec_valid(*validity, length as nat), length as nat),
{
    let ghost valid = spec_valid(*validity, length as nat);
    let data_len = data.len();
    let mut cells: Vec<Option<u64>> = Vec::new();
    let mut i: usize = 0;
    while i < length
        invariant
            i <= length,
            cells@.len() == i,
            valid == spec_valid(*validity, length as nat),
            validity matches Some(v) ==> v@.len() == length,
            8 * length <= data@.len(),
            data@.len() == data_len,
            forall|j: int|
                0 <= j < i ==> cells@[j] == spec_f64_cells(data@, valid, length as nat)[j],
        decreases length - i,
    {
        let is_valid = match validity {
            None => true,
            Some(v) => v[i],
        };
        if is_valid {
            let b0 = data[8 * i];
            let b1 = data[8 * i + 1];
            let b2 = data[8 * i + 2];
            let b3 = data[8 * i + 3];
            let b4 = data[8 * i + 4];
            let b5 = data[8 * i + 5];
            let b6 = data[8 * i + 6];
            let b7 = data[8 * i + 7];
            let word: u64 = (b0 as u64) | ((b1 as u64) << 8) | ((b2 as u64) << 16) | ((b3 as u64)
                << 24) | ((b4 as u64) << 32) | ((b5 as u64) << 40) | ((b6 as u64) << 48) | ((
            b7 as u64) << 56);
            proof {
                assert(word == le64_at(data@, i as int));
            }
            cells.push(Some(word));
        } else {
            cells.push(None);
        }
        i = i + 1;
    }
    proof {
        assert(cells@ =~= spec_f64_cells(data@, valid, length as nat));
    }
    cells
}

/// Interprets a descriptor under a schema as a typed value, exactly as
/// `spec_import` says: the typed cells on success, `UnsupportedType` for an
/// unknown format tag, `MalformedDescriptor` for any shape defect.
pub fn import_tree(d: &ArrayDescriptor, s: &SchemaDescriptor) -> (r: Result<
    TypedValue,
    ImportError,
>)
    ensures
        model_import_result(r) == spec_import(*d, *s),
    decreases *d,
{
    match parse_format(&s.format) {
        None => Err(ImportError::UnsupportedType),
        Some(FormatKind::Primitive(k)) => {
            if !prim_checks(d, k) {
                Err(ImportError::MalformedDescriptor)
            } else {
                match k {
                    ElementKind::Int32 => Ok(
                        TypedValue::Primitive(
                            ColumnCells::Int32(decode_i32(&d.data, &d.validity, d.length)),
                        ),
                    ),
                    ElementKind::Date32 => Ok(
                        TypedValue::Primitive(
                            ColumnCells::Date32(decode_i32(&d.data, &d.validity, d.length)),
                        ),
                    ),
                    ElementKind::Float64 => Ok(
                        TypedValue::Primitive(
                            ColumnCells::Float64Bits(decode_f64(&d.data, &d.validity, d.length)),
                        ),
                    ),
                }
            }
        },
        Some(FormatKind::Struct) => {
            if d.children.len() != s.children.len() {
                return Err(ImportError::MalformedDescriptor);
            }
            let meta_ok = match &d.validity {
                None => d.null_count == 0 && d.data.len() == 0,
                Some(_) => false,
            };
            if !meta_ok {
                return Err(ImportError::MalformedDescriptor);
            }
            let mut fields: Vec<StructField> = Vec::new();
            let mut i: usize = 0;
            while i < d.children.len()
                invariant
                    i <= d.children@.len(),
                    d.children@.len() == s.children@.len(),
                    fields@.len() == i,
                    spec_parse_format(s.format@) == Some(FormatKind::Struct),
                    struct_meta_ok(*d),
                    spec_import_fields(
                        d.length as nat,
                        d.children@.subrange(0, i as int),
                        s.children@.subrange(0, i as int),
                    ) == Ok::<Seq<FieldModel>, ImportError>(fields_model(fields@)),
                decreases d.children@.len() - i,
            {
                proof {
                    assert(d.children@.subrange(0, i + 1).subrange(0, i as int) =~= d.children@
                        .subrange(0, i as int));
                    assert(s.children@.subrange(0, i + 1).subrange(0, i as int) =~= s.children@
                        .subrange(0, i as int));
                    assert(d.children@.subrange(0, i + 1)[i as int] == d.children@[i as int]);
                    assert(s.children@.subrange(0, i + 1)[i as int] == s.children@[i as int]);
                }
                match import_tree(&d.children[i], &s.children[i]) {
                    Err(e) => {
                        proof {
                            assert(spec_import_fields(
                                d.length as nat,
                                d.children@.subrange(0, i + 1),
                                s.children@.subrange(0, i + 1),
                            ) == Err::<Seq<FieldModel>, ImportError>(e));
                            lemma_fields_error_persists(
                                d.length as nat,
                                d.children@,
                                s.children@,
                                i + 1,
                            );
                        }
                        return Err(e);
                    },
                    Ok(v) => {
                        if v.row_len() != d.length {
                            proof {
                                assert(spec_import_fields(
                                    d.length as nat,
                                    d.children@.subrange(0, i + 1),
                                    s.children@.subrange(0, i + 1),
                                ) == Err::<Seq<FieldModel>, ImportError>(
                                    ImportError::MalformedDescriptor,
                                ));
                                lemma_fields_error_persists(
                                    d.length as nat,
                                    d.children@,
                                    s.children@,
                                    i + 1,
                                );
                            }
                            return Err(ImportError::MalformedDescriptor);
                        }
                        let name = s.children[i].name.clone();
                        proof {
                            lemma_fields_model_push(fields@, (StructField { name, value: v }));
                            assert(spec_import_fields(
                                d.length as nat,
                                d.children@.subrange(0, i + 1),
                                s.children@.subrange(0, i + 1),
                            ) == Ok::<Seq<FieldModel>, ImportError>(
                                fields_model(fields@) + seq![
                                    (FieldModel { name: name@, value: value_model(v) }),
                                ],
                            ));
                        }
                        fields.push(StructField { name, value: v });
                        i = i + 1;
                    },
                }
            }
            proof {
                assert(d.children@.subrange(0, d.children@.len() as int) =~= d.children@);
                assert(s.children@.subrange(0, s.children@.len() as int) =~= s.children@);
            }
            Ok(TypedValue::Struct { rows: d.length, fields })
        },
    }
}

/// A typed value together with the release callbacks it took over from the
/// descriptor it was imported from.
pub struct ImportedValue {
    pub value: TypedValue,
    pub owned_releases: Vec<u64>,
}

/// A failed import: the error, and the descriptor handed back untouched so
/// that the caller still owns every release callback.
pub struct ImportFailure {
    pub error: ImportError,
    pub descriptor: ArrayDescriptor,
}

/// Collects the release identifiers of a descriptor tree, in order.
fn collect_ids(d: &ArrayDescriptor) -> (ids: Vec<u64>)
    ensures
        ids@ == d.all_ids(),
    decreases *d,
{
    let mut ids: Vec<u64> = Vec::new();
    ids.push(d.release_id);
    let mut i: usize = 0;
    while i < d.children.len()
        invariant
            i <= d.children@.len(),
            ids@ == seq![d.release_id] + ArrayDescriptor::ids_of(d.children@.subrange(0, i as int)),
        decreases d.children@.len() - i,
    {
        proof {
            assert(d.children@.subrange(0, i + 1).subrange(0, i as int) =~= d.children@.subrange(
                0,
                i as int,
            ));
            assert(d.children@.subrange(0, i + 1)[i as int] == d.children@[i as int]);
        }
        let mut child_ids = collect_ids(&d.children[i]);
        ids.append(&mut child_ids);
        i = i + 1;
    }
    proof {
        assert(d.children@.subrange(0, d.children@.len() as int) =~= d.children@);
    }
    ids
}

/// Imports a descriptor, consuming it.  On success the returned value has
/// taken over every release callback of the descriptor tree; on failure the
/// descriptor comes back untouched inside the failure, so the caller can
/// still release it.  The descriptor must not be read again either way.
pub fn import(d: ArrayDescriptor, schema: &SchemaDescriptor) -> (r: Result<
    ImportedValue,
    ImportFailure,
>)
    ensures
        spec_import(d, *schema) matches Ok(m) ==> r matches Ok(iv) && value_model(iv.value) == m
            && iv.owned_releases@ == d.all_ids(),
        spec_import(d, *schema) matches Err(e) ==> r matches Err(f) && f.error == e
            && f.descriptor == d,
{
    match import_tree(&d, schema) {
        Ok(v) => {
            let ids = collect_ids(&d);
            Ok(ImportedValue { value: v, owned_releases: ids })
        },
        Err(e) => Err(ImportFailure { error: e, descriptor: d }),
    }
}

/// Fires the release callbacks an imported value owns, consuming it, and
/// reports which identifiers fired, in order.
pub fn release_imported(v: ImportedValue) -> (fired: Vec<u64>)
    ensures
        fired@ == v.owned_releases@,
{
    v.owned_releases
}

/// Fires the release callbacks of a descriptor that was never imported (or
/// whose import failed), consuming it, and reports which identifiers fired.
pub fn release_descriptor(d: ArrayDescriptor) -> (fired: Vec<u64>)
    ensures
        fired@ == d.all_ids(),
{
    collect_ids(&d)
}

/// Type-tag fidelity: importing a descriptor tagged as 32-bit integer and
/// reading element `i` yields exactly the little-endian bit pattern found
/// at offset `4·i` of the raw data buffer, for every valid `i` under the
/// length.
pub proof fn lemma_type_tag_fidelity(d: ArrayDescriptor, s: SchemaDescriptor, i: int)
    requires
        spec_parse_format(s.format@) == Some(FormatKind::Primitive(ElementKind::Int32)),
        spec_import(d, s) matches Ok(m),
        0 <= i < d.length,
        spec_valid(d.validity, d.length as nat)[i],
    ensures
        spec_import(d, s)->Ok_0 matches ValueModel::Primitive(c) && c matches CellsModel::Int32(
            cells,
        ) && cells[i] == Some(le32_at(d.data@, i) as i32),
{
}

} // verus!
