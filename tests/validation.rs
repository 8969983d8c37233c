use struct_array::description::{Body, Field, Generics, Meta, RecordInput, Visibility};
use struct_array::validate::{parse_input, ValidationError};

fn repr_c() -> Meta {
    Meta::List("repr".to_string(), vec!["C".to_string()])
}

fn field(name: Option<&str>, vis: Visibility, ty: &str) -> Field {
    Field { ident: name.map(|n| n.to_string()), vis, ty: ty.to_string() }
}

fn no_generics() -> Generics {
    Generics { params: String::new(), args: String::new(), where_clause: String::new() }
}

fn record(attrs: Vec<Meta>, body: Body) -> RecordInput {
    RecordInput { ident: "Example".to_string(), attrs, generics: no_generics(), body }
}

fn xy() -> Vec<Field> {
    vec![
        field(Some("x"), Visibility::Public, "u32"),
        field(Some("y"), Visibility::Public, "u32"),
    ]
}

#[test]
fn valid_named_record_gives_its_shape() {
    let input = record(vec![repr_c()], Body::Struct(xy()));
    let shape = parse_input(&input).ok().unwrap();
    assert_eq!(shape.name(), "Example");
    assert_eq!(shape.element_type(), "u32");
    assert_eq!(shape.field_count(), 2);
}

#[test]
fn valid_tuple_record_gives_its_shape() {
    let fields = vec![
        field(None, Visibility::Public, "f64"),
        field(None, Visibility::Public, "f64"),
        field(None, Visibility::Public, "f64"),
    ];
    let input = record(vec![Meta::Word("doc".to_string()), repr_c()], Body::Struct(fields));
    let shape = parse_input(&input).ok().unwrap();
    assert_eq!(shape.element_type(), "f64");
    assert_eq!(shape.field_count(), 3);
}

#[test]
fn single_field_record_is_valid() {
    let input = record(vec![repr_c()], Body::Struct(vec![field(Some("v"), Visibility::Public, "u8")]));
    let shape = parse_input(&input).ok().unwrap();
    assert_eq!(shape.field_count(), 1);
}

#[test]
fn generic_record_is_valid_and_keeps_its_generics() {
    let mut input = record(
        vec![repr_c()],
        Body::Struct(vec![
            field(Some("x"), Visibility::Public, "T"),
            field(Some("y"), Visibility::Public, "T"),
        ]),
    );
    input.generics = Generics {
        params: "T: Copy".to_string(),
        args: "T".to_string(),
        where_clause: String::new(),
    };
    let shape = parse_input(&input).ok().unwrap();
    assert_eq!(shape.element_type(), "T");
    assert_eq!(shape.generics().params, "T: Copy");
    assert_eq!(shape.generics().args, "T");
}

#[test]
fn enum_is_not_a_record() {
    let input = record(vec![repr_c()], Body::Enum);
    assert_eq!(parse_input(&input).err(), Some(ValidationError::NotARecord));
}

#[test]
fn enum_without_repr_is_not_a_record_first() {
    let input = record(vec![], Body::Enum);
    assert_eq!(parse_input(&input).err(), Some(ValidationError::NotARecord));
}

#[test]
fn missing_repr_c_is_refused() {
    let input = record(vec![], Body::Struct(xy()));
    assert_eq!(parse_input(&input).err(), Some(ValidationError::MissingLayoutGuarantee));
}

#[test]
fn other_repr_is_no_layout_guarantee() {
    let attrs = vec![
        Meta::List("repr".to_string(), vec!["C".to_string(), "packed".to_string()]),
        Meta::List("repr".to_string(), vec!["transparent".to_string()]),
        Meta::Word("repr".to_string()),
        Meta::NameValue("repr".to_string(), "C".to_string()),
        Meta::List("derive".to_string(), vec!["C".to_string()]),
    ];
    let input = record(attrs, Body::Struct(xy()));
    assert_eq!(parse_input(&input).err(), Some(ValidationError::MissingLayoutGuarantee));
}

#[test]
fn missing_repr_is_reported_before_no_fields() {
    let input = record(vec![], Body::Struct(vec![]));
    assert_eq!(parse_input(&input).err(), Some(ValidationError::MissingLayoutGuarantee));
}

#[test]
fn record_without_fields_is_refused() {
    let input = record(vec![repr_c()], Body::Struct(vec![]));
    assert_eq!(parse_input(&input).err(), Some(ValidationError::NoFields));
}

#[test]
fn differing_field_types_are_refused() {
    let fields = vec![
        field(Some("x"), Visibility::Public, "u32"),
        field(Some("y"), Visibility::Public, "u32"),
        field(Some("z"), Visibility::Public, "u64"),
    ];
    let input = record(vec![repr_c()], Body::Struct(fields));
    assert_eq!(parse_input(&input).err(), Some(ValidationError::HeterogeneousFieldTypes));
}

#[test]
fn differing_types_are_reported_before_private_fields() {
    let fields = vec![
        field(Some("x"), Visibility::Inherited, "u32"),
        field(Some("y"), Visibility::Public, "i32"),
    ];
    let input = record(vec![repr_c()], Body::Struct(fields));
    assert_eq!(parse_input(&input).err(), Some(ValidationError::HeterogeneousFieldTypes));
}

#[test]
fn private_field_is_refused() {
    let fields = vec![
        field(Some("x"), Visibility::Public, "u32"),
        field(Some("y"), Visibility::Inherited, "u32"),
    ];
    let input = record(vec![repr_c()], Body::Struct(fields));
    assert_eq!(parse_input(&input).err(), Some(ValidationError::NonPublicField));
}

#[test]
fn restricted_field_is_refused() {
    let fields = vec![
        field(None, Visibility::Restricted, "u32"),
        field(None, Visibility::Public, "u32"),
    ];
    let input = record(vec![repr_c()], Body::Struct(fields));
    assert_eq!(parse_input(&input).err(), Some(ValidationError::NonPublicField));
}

#[test]
fn error_messages_name_the_rule() {
    assert_eq!(
        ValidationError::NotARecord.message(),
        "the type must be a struct (or tuple struct), not an enum"
    );
    assert_eq!(
        ValidationError::MissingLayoutGuarantee.message(),
        "the struct must have the #[repr(C)] attribute"
    );
    assert_eq!(ValidationError::NoFields.message(), "the struct must have at least one field");
    assert_eq!(
        ValidationError::HeterogeneousFieldTypes.message(),
        "all fields in the struct must have the same type"
    );
    assert_eq!(ValidationError::NonPublicField.message(), "all fields in the struct must be public");
}

#[test]
fn error_descriptions_are_short() {
    assert_eq!(ValidationError::NotARecord.description(), "input was not a struct");
    assert_eq!(
        ValidationError::MissingLayoutGuarantee.description(),
        "struct was missing the #[repr(C)] attribute"
    );
    assert_eq!(ValidationError::NoFields.description(), "struct had no fields");
    assert_eq!(
        ValidationError::HeterogeneousFieldTypes.description(),
        "struct had fields of differing types"
    );
    assert_eq!(
        ValidationError::NonPublicField.description(),
        "struct had at least one nonpublic field"
    );
}
