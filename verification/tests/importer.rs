use colbridge::ArrayDescriptor;
use colbridge::ColumnCells;
use colbridge::ElementKind;
use colbridge::FormatKind;
use colbridge::ImportError;
use colbridge::SchemaDescriptor;
use colbridge::TypedValue;
use colbridge::import;
use colbridge::import_tree;
use colbridge::parse_format;
use colbridge::release_descriptor;
use colbridge::release_imported;

fn prim_schema(format: &str, name: &str) -> SchemaDescriptor {
    SchemaDescriptor {
        format: format.as_bytes().to_vec(),
        name: String::from(name),
        nullable: true,
        children: Vec::new(),
    }
}

fn struct_schema(name: &str, children: Vec<SchemaDescriptor>) -> SchemaDescriptor {
    SchemaDescriptor {
        format: String::from("+s").into_bytes(),
        name: String::from(name),
        nullable: false,
        children,
    }
}

fn prim_desc(length: usize, validity: Option<Vec<bool>>, data: Vec<u8>, id: u64) -> ArrayDescriptor {
    let null_count = match &validity {
        None => 0,
        Some(v) => v.iter().filter(|b| !**b).count(),
    };
    ArrayDescriptor {
        length,
        null_count,
        validity,
        data,
        children: Vec::new(),
        release_id: id,
    }
}

fn struct_desc(length: usize, children: Vec<ArrayDescriptor>, id: u64) -> ArrayDescriptor {
    ArrayDescriptor {
        length,
        null_count: 0,
        validity: None,
        data: Vec::new(),
        children,
        release_id: id,
    }
}

fn i32_data(values: &[i32]) -> Vec<u8> {
    let mut out = Vec::new();
    for v in values {
        out.extend(v.to_le_bytes());
    }
    out
}

fn f64_data(values: &[f64]) -> Vec<u8> {
    let mut out = Vec::new();
    for v in values {
        out.extend(v.to_le_bytes());
    }
    out
}

#[test]
fn format_tags_parse_to_their_kinds() {
    let tag = |s: &str| parse_format(&s.as_bytes().to_vec());
    assert_eq!(tag("i"), Some(FormatKind::Primitive(ElementKind::Int32)));
    assert_eq!(tag("tdD"), Some(FormatKind::Primitive(ElementKind::Date32)));
    assert_eq!(tag("g"), Some(FormatKind::Primitive(ElementKind::Float64)));
    assert_eq!(tag("+s"), Some(FormatKind::Struct));
    assert_eq!(tag("u"), None);
    assert_eq!(tag(""), None);
    assert_eq!(tag("ii"), None);
}

#[test]
fn int32_cells_keep_the_raw_bit_patterns() {
    let desc = prim_desc(3, None, i32_data(&[1, -2, i32::MIN]), 7);
    let schema = prim_schema("i", "c");
    let v = import_tree(&desc, &schema).unwrap();
    match v {
        TypedValue::Primitive(ColumnCells::Int32(cells)) => {
            assert_eq!(cells, vec![Some(1), Some(-2), Some(i32::MIN)]);
        },
        _ => panic!("expected an int32 column"),
    }
}

#[test]
fn null_cells_follow_the_validity_buffer() {
    let desc = prim_desc(3, Some(vec![true, false, true]), i32_data(&[5, 0, 9]), 7);
    let schema = prim_schema("i", "c");
    let v = import_tree(&desc, &schema).unwrap();
    match v {
        TypedValue::Primitive(ColumnCells::Int32(cells)) => {
            assert_eq!(cells, vec![Some(5), None, Some(9)]);
        },
        _ => panic!("expected an int32 column"),
    }
}

#[test]
fn float_cells_keep_the_raw_bit_patterns() {
    let desc = prim_desc(2, Some(vec![true, false]), f64_data(&[1.5, 0.0]), 7);
    let schema = prim_schema("g", "c");
    let v = import_tree(&desc, &schema).unwrap();
    match v {
        TypedValue::Primitive(ColumnCells::Float64Bits(cells)) => {
            assert_eq!(cells, vec![Some(1.5f64.to_bits()), None]);
        },
        _ => panic!("expected a float column"),
    }
}

#[test]
fn a_zero_length_column_imports_empty() {
    let desc = prim_desc(0, None, Vec::new(), 7);
    let schema = prim_schema("i", "c");
    let v = import_tree(&desc, &schema).unwrap();
    assert_eq!(v, TypedValue::Primitive(ColumnCells::Int32(Vec::new())));
}

#[test]
fn unknown_format_tag_is_unsupported() {
    let desc = prim_desc(1, None, i32_data(&[1]), 7);
    let schema = prim_schema("u", "c");
    assert_eq!(import_tree(&desc, &schema), Err(ImportError::UnsupportedType));
}

#[test]
fn short_data_buffer_is_malformed() {
    let desc = prim_desc(2, None, vec![1, 0, 0, 0, 2, 0, 0], 7);
    let schema = prim_schema("i", "c");
    assert_eq!(import_tree(&desc, &schema), Err(ImportError::MalformedDescriptor));
}

#[test]
fn wrong_null_count_is_malformed() {
    let mut desc = prim_desc(2, Some(vec![true, false]), i32_data(&[1, 2]), 7);
    desc.null_count = 0;
    let schema = prim_schema("i", "c");
    assert_eq!(import_tree(&desc, &schema), Err(ImportError::MalformedDescriptor));
}

#[test]
fn wrong_validity_length_is_malformed() {
    let desc = ArrayDescriptor {
        length: 2,
        null_count: 0,
        validity: Some(vec![true]),
        data: i32_data(&[1, 2]),
        children: Vec::new(),
        release_id: 7,
    };
    let schema = prim_schema("i", "c");
    assert_eq!(import_tree(&desc, &schema), Err(ImportError::MalformedDescriptor));
}

#[test]
fn struct_import_names_children_from_the_schema() {
    let desc = struct_desc(
        2,
        vec![
            prim_desc(2, None, i32_data(&[10, 20]), 2),
            prim_desc(2, None, f64_data(&[0.5, 0.25]), 3),
        ],
        1,
    );
    let schema = struct_schema(
        "batch",
        vec![prim_schema("tdD", "day"), prim_schema("g", "amount")],
    );
    let v = import_tree(&desc, &schema).unwrap();
    match v {
        TypedValue::Struct { rows, fields } => {
            assert_eq!(rows, 2);
            assert_eq!(fields.len(), 2);
            assert_eq!(fields[0].name, "day");
            assert_eq!(fields[1].name, "amount");
            match &fields[0].value {
                TypedValue::Primitive(ColumnCells::Date32(cells)) => {
                    assert_eq!(cells, &vec![Some(10), Some(20)]);
                },
                _ => panic!("expected a date column"),
            }
        },
        _ => panic!("expected a struct value"),
    }
}

#[test]
fn child_row_count_mismatch_is_malformed() {
    let desc = struct_desc(
        2,
        vec![
            prim_desc(2, None, i32_data(&[10, 20]), 2),
            prim_desc(1, None, f64_data(&[0.5]), 3),
        ],
        1,
    );
    let schema = struct_schema(
        "batch",
        vec![prim_schema("i", "a"), prim_schema("g", "b")],
    );
    assert_eq!(import_tree(&desc, &schema), Err(ImportError::MalformedDescriptor));
}

#[test]
fn child_count_mismatch_is_malformed() {
    let desc = struct_desc(1, vec![prim_desc(1, None, i32_data(&[1]), 2)], 1);
    let schema = struct_schema(
        "batch",
        vec![prim_schema("i", "a"), prim_schema("g", "b")],
    );
    assert_eq!(import_tree(&desc, &schema), Err(ImportError::MalformedDescriptor));
}

#[test]
fn successful_import_owns_each_release_callback_exactly_once() {
    let desc = struct_desc(
        1,
        vec![
            prim_desc(1, None, i32_data(&[1]), 11),
            struct_desc(1, vec![prim_desc(1, None, f64_data(&[2.0]), 13)], 12),
        ],
        10,
    );
    let schema = struct_schema(
        "outer",
        vec![
            prim_schema("i", "a"),
            struct_schema("inner", vec![prim_schema("g", "b")]),
        ],
    );
    let imported = import(desc, &schema).unwrap_or_else(|_| panic!("import should succeed"));
    let mut fired = release_imported(imported);
    fired.sort();
    assert_eq!(fired, vec![10, 11, 12, 13]);
}

#[test]
fn failed_import_hands_every_release_callback_back() {
    let desc = struct_desc(
        1,
        vec![
            prim_desc(1, None, i32_data(&[1]), 21),
            prim_desc(1, None, Vec::new(), 22),
        ],
        20,
    );
    let schema = struct_schema("outer", vec![prim_schema("i", "a"), prim_schema("g", "b")]);
    match import(desc, &schema) {
        Ok(_) => panic!("import should fail on the short buffer"),
        Err(failure) => {
            assert_eq!(failure.error, ImportError::MalformedDescriptor);
            let mut fired = release_descriptor(failure.descriptor);
            fired.sort();
            assert_eq!(fired, vec![20, 21, 22]);
        },
    }
}
