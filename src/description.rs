//! The structured description of a candidate record, as handed over by the
//! syntax front end: its name, attributes, generics and fields.
use vstd::prelude::*;

verus! {

/// Visibility of one field as written in the declaration.
pub enum Visibility {
    /// `pub`
    Public,
    /// `pub(crate)`, `pub(super)` or `pub(in path)`
    Restricted,
    /// No visibility keyword.
    Inherited,
}

/// The meta item of an attribute (`#[word]`, `#[name(items)]`,
/// `#[name = "value"]`). The items of a list are kept as their token text.
pub enum Meta {
    Word(String),
    List(String, Vec<String>),
    NameValue(String, String),
}

/// One field of a record: its name (`None` for a positional field), its
/// visibility and its declared type as token text.
pub struct Field {
    pub ident: Option<String>,
    pub vis: Visibility,
    pub ty: String,
}

/// What kind of type was declared.
pub enum Body {
    /// A sum type; its variants play no part in validation.
    Enum,
    /// A product type with its fields in declaration order (none for a unit
    /// struct).
    Struct(Vec<Field>),
}

/// The generic parameters of a record, carried through as token text.
pub struct Generics {
    /// The parameters with their bounds, comma separated, without angle
    /// brackets (`'b, T: Copy`); empty when the record is not generic.
    pub params: String,
    /// The parameters as arguments of the type (`'b, T`).
    pub args: String,
    /// The predicates of the where clause, comma separated, without the
    /// `where` keyword; empty when there is none.
    pub where_clause: String,
}

/// A candidate record type.
pub struct RecordInput {
    pub ident: String,
    pub attrs: Vec<Meta>,
    pub generics: Generics,
    pub body: Body,
}

} // verus!
