//! The validator: decides whether a record description may be treated as a
//! contiguous array of one element type, and extracts its shape.
use vstd::prelude::*;
use crate::description::{Body, Field, Generics, Meta, RecordInput, Visibility};

verus! {

/// Why a record description was rejected.
#[derive(Clone, Copy, Debug, PartialEq, Eq, Structural)]
pub enum ValidationError {
    /// The type is an enum, not a struct or tuple struct.
    NotARecord,
    /// The type lacks the `#[repr(C)]` attribute.
    MissingLayoutGuarantee,
    /// The struct has no fields.
    NoFields,
    /// Two fields have different declared types.
    HeterogeneousFieldTypes,
    /// A field is not `pub`.
    NonPublicField,
}

pub open spec fn error_message(e: ValidationError) -> Seq<char> {
    match e {
        ValidationError::NotARecord => "the type must be a struct (or tuple struct), not an enum"@,
        ValidationError::MissingLayoutGuarantee => "the struct must have the #[repr(C)] attribute"@,
        ValidationError::NoFields => "the struct must have at least one field"@,
        ValidationError::HeterogeneousFieldTypes => "all fields in the struct must have the same type"@,
        ValidationError::NonPublicField => "all fields in the struct must be public"@,
    }
}

pub open spec fn error_description(e: ValidationError) -> Seq<char> {
    match e {
        ValidationError::NotARecord => "input was not a struct"@,
        ValidationError::MissingLayoutGuarantee => "struct was missing the #[repr(C)] attribute"@,
        ValidationError::NoFields => "struct had no fields"@,
        ValidationError::HeterogeneousFieldTypes => "struct had fields of differing types"@,
        ValidationError::NonPublicField => "struct had at least one nonpublic field"@,
    }
}

impl ValidationError {
    /// The sentence that tells the user which rule the record breaks.
    pub fn message(&self) -> (r: &'static str)
        ensures
            r@ == error_message(*self),
    {
        match self {
            ValidationError::NotARecord => "the type must be a struct (or tuple struct), not an enum",
            ValidationError::MissingLayoutGuarantee => "the struct must have the #[repr(C)] attribute",
            ValidationError::NoFields => "the struct must have at least one field",
            ValidationError::HeterogeneousFieldTypes => "all fields in the struct must have the same type",
            ValidationError::NonPublicField => "all fields in the struct must be public",
        }
    }

    /// A short description of what was wrong with the input.
    pub fn description(&self) -> (r: &'static str)
        ensures
            r@ == error_description(*self),
    {
        match self {
            ValidationError::NotARecord => "input was not a struct",
            ValidationError::MissingLayoutGuarantee => "struct was missing the #[repr(C)] attribute",
            ValidationError::NoFields => "struct had no fields",
            ValidationError::HeterogeneousFieldTypes => "struct had fields of differing types",
            ValidationError::NonPublicField => "struct had at least one nonpublic field",
        }
    }
}

/// Whether an attribute is exactly `#[repr(C)]`.
pub open spec fn is_repr_c(m: Meta) -> bool {
    match m {
        Meta::List(name, items) => name@ == "repr"@ && items@.len() == 1 && items@[0]@ == "C"@,
        _ => false,
    }
}

/// Whether the attributes guarantee a C-compatible sequential layout.
pub open spec fn has_layout_guarantee(attrs: Seq<Meta>) -> bool {
    exists|i: int| 0 <= i < attrs.len() && is_repr_c(#[trigger] attrs[i])
}

/// Whether every field has the declared type of the first.
pub open spec fn all_same_type(fields: Seq<Field>) -> bool {
    forall|i: int| 0 <= i < fields.len() ==> (#[trigger] fields[i]).ty@ == fields[0].ty@
}

/// Whether every field is `pub`.
pub open spec fn all_public(fields: Seq<Field>) -> bool {
    forall|i: int| 0 <= i < fields.len() ==> (#[trigger] fields[i]).vis is Public
}

/// The fields of a struct body; an enum has none.
pub open spec fn body_fields(body: Body) -> Seq<Field> {
    match body {
        Body::Struct(fields) => fields@,
        Body::Enum => Seq::empty(),
    }
}

/// The first rule, in checking order, that a description breaks; `None` when
/// it breaks none.
pub open spec fn first_violation(input: RecordInput) -> Option<ValidationError> {
    let fields = body_fields(input.body);
    if input.body is Enum {
        Some(ValidationError::NotARecord)
    } else if !has_layout_guarantee(input.attrs@) {
        Some(ValidationError::MissingLayoutGuarantee)
    } else if fields.len() == 0 {
        Some(ValidationError::NoFields)
    } else if !all_same_type(fields) {
        Some(ValidationError::HeterogeneousFieldTypes)
    } else if !all_public(fields) {
        Some(ValidationError::NonPublicField)
    } else {
        None
    }
}

/// The abstract content of a validated record shape.
pub ghost struct ShapeView {
    pub name: Seq<char>,
    pub params: Seq<char>,
    pub args: Seq<char>,
    pub where_clause: Seq<char>,
    pub element_type: Seq<char>,
    pub field_count: nat,
}

/// The shape that a valid description yields.
pub open spec fn shape_of(input: RecordInput) -> ShapeView {
    ShapeView {
        name: input.ident@,
        params: input.generics.params@,
        args: input.generics.args@,
        where_clause: input.generics.where_clause@,
        element_type: body_fields(input.body)[0].ty@,
        field_count: body_fields(input.body).len(),
    }
}

/// A validated record: its name, generics, the common type of its fields and
/// their number. Only the validator makes one.
pub struct RecordShape {
    name: String,
    generics: Generics,
    element_type: String,
    field_count: usize,
}

impl View for RecordShape {
    type V = ShapeView;

    closed spec fn view(&self) -> ShapeView {
        ShapeView {
            name: self.name@,
            params: self.generics.params@,
            args: self.generics.args@,
            where_clause: self.generics.where_clause@,
            element_type: self.element_type@,
            field_count: self.field_count as nat,
        }
    }
}

impl RecordShape {
    pub fn name(&self) -> (r: &String)
        ensures
            r@ == self@.name,
    {
        &self.name
    }

    pub fn generics(&self) -> (r: &Generics)
        ensures
            r.params@ == self@.params,
            r.args@ == self@.args,
            r.where_clause@ == self@.where_clause,
    {
        &self.generics
    }

    pub fn element_type(&self) -> (r: &String)
        ensures
            r@ == self@.element_type,
    {
        &self.element_type
    }

    pub fn field_count(&self) -> (r: usize)
        ensures
            r as nat == self@.field_count,
    {
        self.field_count
    }
}

fn is_repr_c_exec(m: &Meta) -> (r: bool)
    ensures
        r == is_repr_c(*m),
{
    match m {
        Meta::List(name, items) => {
            let repr = String::from_str("repr");
            let c = String::from_str("C");
            *name == repr && items.len() == 1 && items[0] == c
        },
        _ => false,
    }
}

fn has_layout_guarantee_exec(attrs: &Vec<Meta>) -> (r: bool)
    ensures
        r == has_layout_guarantee(attrs@),
{
    let mut i: usize = 0;
    while i < attrs.len()
        invariant
            i <= attrs.len(),
            forall|j: int| 0 <= j < i ==> !is_repr_c(#[trigger] attrs@[j]),
        decreases attrs.len() - i,
    {
        if is_repr_c_exec(&attrs[i]) {
            return true;
        }
        i += 1;
    }
    false
}

fn all_same_type_exec(fields: &Vec<Field>) -> (r: bool)
    requires
        fields.len() >= 1,
    ensures
        r == all_same_type(fields@),
{
    let first = &fields[0].ty;
    let mut i: usize = 1;
    while i < fields.len()
        invariant
            1 <= i <= fields.len(),
            *first == fields@[0].ty,
            forall|j: int| 0 <= j < i ==> (#[trigger] fields@[j]).ty@ == fields@[0].ty@,
        decreases fields.len() - i,
    {
        if fields[i].ty != *first {
            return false;
        }
        i += 1;
    }
    true
}

fn all_public_exec(fields: &Vec<Field>) -> (r: bool)
    ensures
        r == all_public(fields@),
{
    let mut i: usize = 0;
    while i < fields.len()
        invariant
            i <= fields.len(),
            forall|j: int| 0 <= j < i ==> (#[trigger] fields@[j]).vis is Public,
        decreases fields.len() - i,
    {
        match fields[i].vis {
            Visibility::Public => {},
            _ => {
                return false;
            },
        }
        i += 1;
    }
    true
}

/// Checks a record description against the rules, in order, and returns the
/// first one it breaks, or the record's shape when it breaks none.
pub fn parse_input(input: &RecordInput) -> (r: Result<RecordShape, ValidationError>)
    ensures
        match first_violation(*input) {
            Some(e) => r == Err::<RecordShape, ValidationError>(e),
            None => r matches Ok(shape) && shape@ == shape_of(*input),
        },
{
    let fields = match &input.body {
        Body::Enum => {
            return Err(ValidationError::NotARecord);
        },
        Body::Struct(fields) => fields,
    };
    if !has_layout_guarantee_exec(&input.attrs) {
        return Err(ValidationError::MissingLayoutGuarantee);
    }
    if fields.len() == 0 {
        return Err(ValidationError::NoFields);
    }
    if !all_same_type_exec(fields) {
        return Err(ValidationError::HeterogeneousFieldTypes);
    }
    if !all_public_exec(fields) {
        return Err(ValidationError::NonPublicField);
    }
    Ok(RecordShape {
        name: input.ident.clone(),
        generics: Generics {
            params: input.generics.params.clone(),
            args: input.generics.args.clone(),
            where_clause: input.generics.where_clause.clone(),
        },
        element_type: fields[0].ty.clone(),
        field_count: fields.len(),
    })
}

} // verus!
