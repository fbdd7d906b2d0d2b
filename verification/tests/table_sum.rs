use colbridge::AggValue;
use colbridge::AssembleError;
use colbridge::ColumnCells;
use colbridge::Column;
use colbridge::ElementKind;
use colbridge::StructField;
use colbridge::Table;
use colbridge::TypedValue;
use colbridge::assemble;
use colbridge::sum_columns;

fn field(name: &str, value: TypedValue) -> StructField {
    StructField { name: String::from(name), value }
}

fn int_col(values: Vec<Option<i32>>) -> TypedValue {
    TypedValue::Primitive(ColumnCells::Int32(values))
}

fn date_col(values: Vec<Option<i32>>) -> TypedValue {
    TypedValue::Primitive(ColumnCells::Date32(values))
}

fn float_col(values: Vec<Option<f64>>) -> TypedValue {
    TypedValue::Primitive(ColumnCells::Float64Bits(
        values.into_iter().map(|v| v.map(f64::to_bits)).collect(),
    ))
}

fn names(list: &[&str]) -> Vec<String> {
    list.iter().map(|s| String::from(*s)).collect()
}

#[test]
fn assemble_keeps_the_columns_in_positional_order() {
    let value = TypedValue::Struct {
        rows: 2,
        fields: vec![
            field("a", int_col(vec![Some(1), Some(2)])),
            field("b", float_col(vec![Some(0.5), None])),
        ],
    };
    assert!(value.check_wf());
    let t = assemble(
        value,
        &names(&["first", "second"]),
        &vec![ElementKind::Int32, ElementKind::Float64],
    )
    .unwrap();
    assert_eq!(t.num_columns(), 2);
    assert_eq!(t.columns[0].name, "first");
    assert_eq!(t.columns[1].name, "second");
    match &t.columns[0].cells {
        ColumnCells::Int32(cells) => assert_eq!(cells, &vec![Some(1), Some(2)]),
        _ => panic!("expected the int column first"),
    }
}

#[test]
fn assemble_rejects_a_wrong_child_count() {
    let value = TypedValue::Struct {
        rows: 1,
        fields: vec![field("a", int_col(vec![Some(1)]))],
    };
    let r = assemble(
        value,
        &names(&["x", "y"]),
        &vec![ElementKind::Int32, ElementKind::Float64],
    );
    assert_eq!(r.unwrap_err(), AssembleError::ColumnCountMismatch);
}

#[test]
fn assemble_rejects_a_wrong_child_kind() {
    let value = TypedValue::Struct {
        rows: 1,
        fields: vec![
            field("a", int_col(vec![Some(1)])),
            field("b", float_col(vec![Some(1.0)])),
        ],
    };
    let r = assemble(
        value,
        &names(&["x", "y"]),
        &vec![ElementKind::Int32, ElementKind::Int32],
    );
    assert_eq!(r.unwrap_err(), AssembleError::TypeMismatch);
}

#[test]
fn assemble_tells_date_and_int_apart() {
    let value = TypedValue::Struct {
        rows: 1,
        fields: vec![field("a", date_col(vec![Some(1)]))],
    };
    let r = assemble(value, &names(&["x"]), &vec![ElementKind::Int32]);
    assert_eq!(r.unwrap_err(), AssembleError::TypeMismatch);
}

#[test]
fn sums_skip_nulls_and_keep_column_order() {
    let t = Table {
        columns: vec![
            Column {
                name: String::from("a"),
                cells: ColumnCells::Float64Bits(vec![
                    Some(1.0f64.to_bits()),
                    Some(2.0f64.to_bits()),
                    None,
                ]),
            },
            Column {
                name: String::from("b"),
                cells: ColumnCells::Int32(vec![Some(5), Some(5), Some(5)]),
            },
        ],
    };
    let row = sum_columns(&t);
    assert_eq!(row.cells.len(), 2);
    assert_eq!(row.cells[0].name, "a");
    match row.cells[0].value {
        AggValue::FloatSumBits(bits) => assert_eq!(f64::from_bits(bits), 3.0),
        _ => panic!("expected a float sum"),
    }
    assert_eq!(row.cells[1].name, "b");
    assert_eq!(row.cells[1].value, AggValue::IntSum(15));
}

#[test]
fn float_sums_come_from_the_kernel_not_the_input() {
    let t = Table {
        columns: vec![Column {
            name: String::from("a"),
            cells: ColumnCells::Float64Bits(vec![Some(1.5f64.to_bits()), Some(2.25f64.to_bits())]),
        }],
    };
    let row = sum_columns(&t);
    match row.cells[0].value {
        AggValue::FloatSumBits(bits) => assert_eq!(f64::from_bits(bits), 3.75),
        _ => panic!("expected a float sum"),
    }
}

#[test]
fn empty_and_all_null_float_columns_sum_to_zero() {
    let t = Table {
        columns: vec![
            Column { name: String::from("empty"), cells: ColumnCells::Float64Bits(Vec::new()) },
            Column { name: String::from("nulls"), cells: ColumnCells::Float64Bits(vec![None, None]) },
        ],
    };
    let row = sum_columns(&t);
    match row.cells[0].value {
        AggValue::FloatSumBits(bits) => assert_eq!(f64::from_bits(bits), 0.0),
        _ => panic!("expected a float sum"),
    }
    match row.cells[1].value {
        AggValue::FloatSumBits(bits) => assert_eq!(f64::from_bits(bits), 0.0),
        _ => panic!("expected a float sum"),
    }
}

#[test]
fn date_columns_are_omitted_from_the_aggregate() {
    let t = Table {
        columns: vec![
            Column { name: String::from("day"), cells: ColumnCells::Date32(vec![Some(19000)]) },
            Column { name: String::from("n"), cells: ColumnCells::Int32(vec![Some(3)]) },
        ],
    };
    let row = sum_columns(&t);
    assert_eq!(row.cells.len(), 1);
    assert_eq!(row.cells[0].name, "n");
    assert_eq!(row.cells[0].value, AggValue::IntSum(3));
}

#[test]
fn int_sums_skip_nulls_and_cover_the_extremes() {
    let t = Table {
        columns: vec![Column {
            name: String::from("v"),
            cells: ColumnCells::Int32(vec![Some(i32::MAX), Some(i32::MAX), None, Some(-1)]),
        }],
    };
    let row = sum_columns(&t);
    assert_eq!(row.cells[0].value, AggValue::IntSum(2 * (i32::MAX as i128) - 1));
}
