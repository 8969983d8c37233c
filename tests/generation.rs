use struct_array::codegen::{
    declaration_text, derive_struct_array, derive_struct_array_convert, derive_struct_array_deref,
    impl_struct_array_convert, impl_struct_array_deref,
};
use struct_array::description::{Body, Field, Generics, Meta, RecordInput, Visibility};
use struct_array::operation::{
    convert_operations, deref_operations, Access, Direction, Form, Interface, Operation,
};
use struct_array::text::decimal_text;
use struct_array::validate::{parse_input, ValidationError};

fn example_input(generics: Generics, ty: &str) -> RecordInput {
    RecordInput {
        ident: "Example".to_string(),
        attrs: vec![Meta::List("repr".to_string(), vec!["C".to_string()])],
        generics,
        body: Body::Struct(vec![
            Field { ident: Some("x".to_string()), vis: Visibility::Public, ty: ty.to_string() },
            Field { ident: Some("y".to_string()), vis: Visibility::Public, ty: ty.to_string() },
        ]),
    }
}

fn no_generics() -> Generics {
    Generics { params: String::new(), args: String::new(), where_clause: String::new() }
}

const DEREF: &str = "impl ::std::ops::Deref for Example { type Target = [u32; 2]; fn deref(&self) -> &[u32; 2] { unsafe { &*(self as *const Example as *const [u32; 2]) } } }\n";
const DEREF_MUT: &str = "impl ::std::ops::DerefMut for Example { fn deref_mut(&mut self) -> &mut [u32; 2] { unsafe { &mut *(self as *mut Example as *mut [u32; 2]) } } }\n";

#[test]
fn deref_capability_is_exact() {
    let text = derive_struct_array_deref(&example_input(no_generics(), "u32")).unwrap();
    assert_eq!(text, format!("{}{}", DEREF, DEREF_MUT));
}

#[test]
fn convert_capability_has_eighteen_declarations_in_table_order() {
    let text = derive_struct_array_convert(&example_input(no_generics(), "u32")).unwrap();
    let lines: Vec<&str> = text.lines().collect();
    assert_eq!(lines.len(), 18);
    assert_eq!(
        lines[0],
        "impl From<Example> for [u32; 2] { fn from(value: Example) -> [u32; 2] { unsafe { ::std::mem::transmute(value) } } }"
    );
    assert_eq!(
        lines[1],
        "impl From<[u32; 2]> for Example { fn from(value: [u32; 2]) -> Example { unsafe { ::std::mem::transmute(value) } } }"
    );
    assert_eq!(
        lines[2],
        "impl<'a> From<&'a Example> for &'a [u32; 2] { fn from(value: &'a Example) -> &'a [u32; 2] { unsafe { &*(value as *const Example as *const [u32; 2]) } } }"
    );
    assert_eq!(
        lines[3],
        "impl ::std::convert::AsRef<[u32; 2]> for Example { fn as_ref(&self) -> &[u32; 2] { unsafe { &*(self as *const Example as *const [u32; 2]) } } }"
    );
    assert_eq!(
        lines[9],
        "impl ::std::convert::AsMut<Example> for [u32; 2] { fn as_mut(&mut self) -> &mut Example { unsafe { &mut *(self as *mut [u32; 2] as *mut Example) } } }"
    );
    assert_eq!(
        lines[10],
        "impl<'a> From<&'a Example> for &'a [u32] { fn from(value: &'a Example) -> &'a [u32] { unsafe { ::std::slice::from_raw_parts(value as *const Example as *const u32, 2) } } }"
    );
    assert_eq!(
        lines[12],
        "impl<'a> From<&'a [u32]> for &'a Example { #[doc = \"Performs the conversion.\\n\\n# Panics\\n\\nPanics if the `len()` of the slice is not 2.\"] fn from(value: &'a [u32]) -> &'a Example { assert_eq!(value.len(), 2); unsafe { &*(value.as_ptr() as *const Example) } } }"
    );
    assert_eq!(
        lines[17],
        "impl ::std::convert::AsMut<Example> for [u32] { #[doc = \"Performs the conversion.\\n\\n# Panics\\n\\nPanics if the `len()` of the slice is not 2.\"] fn as_mut(&mut self) -> &mut Example { assert_eq!(self.len(), 2); unsafe { &mut *(self.as_mut_ptr() as *mut Example) } } }"
    );
}

#[test]
fn only_slice_to_record_declarations_check_the_length() {
    let text = derive_struct_array_convert(&example_input(no_generics(), "u32")).unwrap();
    let checked: Vec<usize> = text
        .lines()
        .enumerate()
        .filter(|(_, l)| l.contains("assert_eq!"))
        .map(|(i, _)| i)
        .collect();
    assert_eq!(checked, vec![12, 13, 16, 17]);
}

#[test]
fn full_derive_is_deref_then_convert() {
    let input = example_input(no_generics(), "u32");
    let all = derive_struct_array(&input).unwrap();
    let deref = derive_struct_array_deref(&input).unwrap();
    let convert = derive_struct_array_convert(&input).unwrap();
    assert_eq!(all, format!("{}{}", deref, convert));
    assert_eq!(all.lines().count(), 20);
}

#[test]
fn generation_is_deterministic() {
    let shape = parse_input(&example_input(no_generics(), "u32")).ok().unwrap();
    assert_eq!(impl_struct_array_deref(&shape), impl_struct_array_deref(&shape));
    assert_eq!(impl_struct_array_convert(&shape), impl_struct_array_convert(&shape));
}

#[test]
fn generics_are_carried_into_every_declaration() {
    let generics = Generics {
        params: "T: Copy".to_string(),
        args: "T".to_string(),
        where_clause: "T: Default".to_string(),
    };
    let text = derive_struct_array(&example_input(generics, "T")).unwrap();
    let lines: Vec<&str> = text.lines().collect();
    assert_eq!(
        lines[0],
        "impl<T: Copy> ::std::ops::Deref for Example<T> where T: Default { type Target = [T; 2]; fn deref(&self) -> &[T; 2] { unsafe { &*(self as *const Example<T> as *const [T; 2]) } } }"
    );
    assert_eq!(
        lines[4],
        "impl<'a, T: Copy> From<&'a Example<T>> for &'a [T; 2] where T: Default { fn from(value: &'a Example<T>) -> &'a [T; 2] { unsafe { &*(value as *const Example<T> as *const [T; 2]) } } }"
    );
    for line in lines {
        assert!(line.contains("Example<T>"));
        assert!(line.contains(" where T: Default {"));
    }
}

#[test]
fn invalid_record_generates_nothing() {
    let mut input = example_input(no_generics(), "u32");
    input.attrs.clear();
    assert_eq!(derive_struct_array(&input).err(), Some(ValidationError::MissingLayoutGuarantee));
    assert_eq!(derive_struct_array_deref(&input).err(), Some(ValidationError::MissingLayoutGuarantee));
    assert_eq!(derive_struct_array_convert(&input).err(), Some(ValidationError::MissingLayoutGuarantee));
}

#[test]
fn field_count_is_written_in_decimal() {
    assert_eq!(decimal_text(0), "0");
    assert_eq!(decimal_text(7), "7");
    assert_eq!(decimal_text(10), "10");
    assert_eq!(decimal_text(42), "42");
    assert_eq!(decimal_text(1234), "1234");
}

#[test]
fn twelve_fields_give_arrays_of_twelve() {
    let mut input = example_input(no_generics(), "i16");
    if let Body::Struct(fields) = &mut input.body {
        while fields.len() < 12 {
            fields.push(Field { ident: None, vis: Visibility::Public, ty: "i16".to_string() });
        }
    }
    let text = derive_struct_array_deref(&input).unwrap();
    assert!(text.contains("type Target = [i16; 12];"));
}

#[test]
fn operation_tables_are_complete_and_distinct() {
    let deref = deref_operations();
    let convert = convert_operations();
    assert_eq!(deref.len(), 2);
    assert_eq!(convert.len(), 18);
    let mut all = deref.clone();
    all.extend(convert.iter().copied());
    for i in 0..all.len() {
        for j in (i + 1)..all.len() {
            assert_ne!(all[i], all[j]);
        }
    }
    assert_eq!(
        convert[0],
        Operation {
            interface: Interface::From,
            direction: Direction::IntoElements,
            access: Access::Owned,
            form: Form::Array,
        }
    );
}

#[test]
fn one_declaration_renders_alone() {
    let shape = parse_input(&example_input(no_generics(), "u32")).ok().unwrap();
    let op = Operation {
        interface: Interface::AsView,
        direction: Direction::FromElements,
        access: Access::Shared,
        form: Form::Array,
    };
    assert_eq!(
        declaration_text(&shape, op),
        "impl ::std::convert::AsRef<Example> for [u32; 2] { fn as_ref(&self) -> &Example { unsafe { &*(self as *const [u32; 2] as *const Example) } } }"
    );
}
