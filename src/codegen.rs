//! The binding generator: renders, for a validated record shape, the Rust
//! declarations of each operation of the table, with the element type and the
//! field count substituted throughout.
use vstd::prelude::*;
use crate::description::RecordInput;
use crate::operation::{
    convert_operations, convert_table, deref_operations, deref_table, is_fallible, Access,
    Direction, Form, Interface, Operation,
};
use crate::text::{decimal, decimal_text};
use crate::validate::{first_violation, parse_input, shape_of, RecordShape, ShapeView, ValidationError};

verus! {

/// The record's type as it is named in the generated code (`Name` or
/// `Name<args>`).
pub open spec fn record_ty(s: ShapeView) -> Seq<char> {
    if s.args.len() == 0 {
        s.name
    } else {
        s.name + "<"@ + s.args + ">"@
    }
}

/// The array with one element per field (`[T; N]`).
pub open spec fn array_ty(s: ShapeView) -> Seq<char> {
    "["@ + s.element_type + "; "@ + decimal(s.field_count) + "]"@
}

/// The slice of the element type (`[T]`).
pub open spec fn slice_ty(s: ShapeView) -> Seq<char> {
    "["@ + s.element_type + "]"@
}

pub open spec fn elements_ty(s: ShapeView, f: Form) -> Seq<char> {
    match f {
        Form::Array => array_ty(s),
        Form::Slice => slice_ty(s),
    }
}

/// `impl` with the record's generic parameters, preceded by the lifetime `'a`
/// when the impl converts references through `From`.
pub open spec fn impl_head(s: ShapeView, borrowed: bool) -> Seq<char> {
    if borrowed {
        if s.params.len() == 0 {
            "impl<'a>"@
        } else {
            "impl<'a, "@ + s.params + ">"@
        }
    } else {
        if s.params.len() == 0 {
            "impl"@
        } else {
            "impl<"@ + s.params + ">"@
        }
    }
}

pub open spec fn where_text(s: ShapeView) -> Seq<char> {
    if s.where_clause.len() == 0 {
        Seq::empty()
    } else {
        " where "@ + s.where_clause
    }
}

/// The type an operation converts from, without any reference.
pub open spec fn source_ty(s: ShapeView, op: Operation) -> Seq<char> {
    match op.direction {
        Direction::IntoElements => record_ty(s),
        Direction::FromElements => elements_ty(s, op.form),
    }
}

/// The type an operation converts to, without any reference.
pub open spec fn target_ty(s: ShapeView, op: Operation) -> Seq<char> {
    match op.direction {
        Direction::IntoElements => elements_ty(s, op.form),
        Direction::FromElements => record_ty(s),
    }
}

pub open spec fn borrow_prefix(a: Access) -> Seq<char> {
    match a {
        Access::Owned => ""@,
        Access::Shared => "&'a "@,
        Access::Unique => "&'a mut "@,
    }
}

pub open spec fn pointer(a: Access) -> Seq<char> {
    match a {
        Access::Unique => "*mut "@,
        _ => "*const "@,
    }
}

pub open spec fn reborrow(a: Access) -> Seq<char> {
    match a {
        Access::Unique => "&mut *("@,
        _ => "&*("@,
    }
}

pub open spec fn raw_parts(a: Access) -> Seq<char> {
    match a {
        Access::Unique => "from_raw_parts_mut"@,
        _ => "from_raw_parts"@,
    }
}

pub open spec fn data_pointer(a: Access) -> Seq<char> {
    match a {
        Access::Unique => ".as_mut_ptr()"@,
        _ => ".as_ptr()"@,
    }
}

/// The body of an operation whose input is named `var`: the reinterpretation
/// of the same memory under the target type, after a length check where the
/// input is a slice.
pub open spec fn body(s: ShapeView, op: Operation, var: Seq<char>) -> Seq<char> {
    let a = op.access;
    if a == Access::Owned {
        "unsafe { ::std::mem::transmute("@ + var + ") }"@
    } else if op.form == Form::Array {
        "unsafe { "@ + reborrow(a) + var + " as "@ + pointer(a) + source_ty(s, op) + " as "@
            + pointer(a) + target_ty(s, op) + ") }"@
    } else if op.direction == Direction::IntoElements {
        "unsafe { ::std::slice::"@ + raw_parts(a) + "("@ + var + " as "@ + pointer(a)
            + record_ty(s) + " as "@ + pointer(a) + s.element_type + ", "@ + decimal(
            s.field_count,
        ) + ") }"@
    } else {
        "assert_eq!("@ + var + ".len(), "@ + decimal(s.field_count) + "); unsafe { "@
            + reborrow(a) + var + data_pointer(a) + " as "@ + pointer(a) + record_ty(s)
            + ") }"@
    }
}

/// The documentation of a fallible operation, which states when it panics.
pub open spec fn doc(s: ShapeView, op: Operation) -> Seq<char> {
    if is_fallible(op) {
        " #[doc = \"Performs the conversion.\\n\\n# Panics\\n\\nPanics if the `len()` of the slice is not "@
            + decimal(s.field_count) + ".\"]"@
    } else {
        Seq::empty()
    }
}

pub open spec fn as_view_trait(a: Access) -> Seq<char> {
    match a {
        Access::Unique => " ::std::convert::AsMut<"@,
        _ => " ::std::convert::AsRef<"@,
    }
}

pub open spec fn as_view_signature(a: Access) -> Seq<char> {
    match a {
        Access::Unique => " fn as_mut(&mut self) -> &mut "@,
        _ => " fn as_ref(&self) -> &"@,
    }
}

/// The declaration that implements one operation for the record.
pub open spec fn declaration(s: ShapeView, op: Operation) -> Seq<char> {
    let a = op.access;
    match op.interface {
        Interface::Deref => if a == Access::Unique {
            impl_head(s, false) + " ::std::ops::DerefMut for "@ + record_ty(s) + where_text(s)
                + " { fn deref_mut(&mut self) -> &mut "@ + array_ty(s) + " { "@ + body(
                s,
                op,
                "self"@,
            ) + " } }"@
        } else {
            impl_head(s, false) + " ::std::ops::Deref for "@ + record_ty(s) + where_text(s)
                + " { type Target = "@ + array_ty(s) + "; fn deref(&self) -> &"@ + array_ty(s)
                + " { "@ + body(s, op, "self"@) + " } }"@
        },
        Interface::From => impl_head(s, a != Access::Owned) + " From<"@ + borrow_prefix(a)
            + source_ty(s, op) + "> for "@ + borrow_prefix(a) + target_ty(s, op) + where_text(s)
            + " {"@ + doc(s, op) + " fn from(value: "@ + borrow_prefix(a) + source_ty(s, op)
            + ") -> "@ + borrow_prefix(a) + target_ty(s, op) + " { "@ + body(s, op, "value"@)
            + " } }"@,
        Interface::AsView => impl_head(s, false) + as_view_trait(a) + target_ty(s, op)
            + "> for "@ + source_ty(s, op) + where_text(s) + " {"@ + doc(s, op)
            + as_view_signature(a) + target_ty(s, op) + " { "@ + body(s, op, "self"@)
            + " } }"@,
    }
}

/// The declarations of a sequence of operations, one per line, in order.
pub open spec fn declarations(s: ShapeView, ops: Seq<Operation>) -> Seq<char>
    decreases ops.len(),
{
    if ops.len() == 0 {
        Seq::empty()
    } else {
        declarations(s, ops.drop_last()) + declaration(s, ops.last()) + "\n"@
    }
}

fn record_ty_text(shape: &RecordShape) -> (r: String)
    ensures
        r@ == record_ty(shape@),
{
    let args = shape.generics().args.as_str();
    let mut r = shape.name().clone();
    if !args.is_empty() {
        r.append("<");
        r.append(args);
        r.append(">");
    }
    r
}

fn array_ty_text(shape: &RecordShape) -> (r: String)
    ensures
        r@ == array_ty(shape@),
{
    let mut r = String::from_str("[");
    r.append(shape.element_type().as_str());
    r.append("; ");
    let n = decimal_text(shape.field_count());
    r.append(n.as_str());
    r.append("]");
    r
}

fn slice_ty_text(shape: &RecordShape) -> (r: String)
    ensures
        r@ == slice_ty(shape@),
{
    let mut r = String::from_str("[");
    r.append(shape.element_type().as_str());
    r.append("]");
    r
}

fn elements_ty_text(shape: &RecordShape, f: Form) -> (r: String)
    ensures
        r@ == elements_ty(shape@, f),
{
    match f {
        Form::Array => array_ty_text(shape),
        Form::Slice => slice_ty_text(shape),
    }
}

fn impl_head_text(shape: &RecordShape, borrowed: bool) -> (r: String)
    ensures
        r@ == impl_head(shape@, borrowed),
{
    let params = shape.generics().params.as_str();
    if params.is_empty() {
        if borrowed {
            String::from_str("impl<'a>")
        } else {
            String::from_str("impl")
        }
    } else {
        let mut r = if borrowed {
            String::from_str("impl<'a, ")
        } else {
            String::from_str("impl<")
        };
        r.append(params);
        r.append(">");
        r
    }
}

fn where_text_exec(shape: &RecordShape) -> (r: String)
    ensures
        r@ == where_text(shape@),
{
    let clause = shape.generics().where_clause.as_str();
    if clause.is_empty() {
        String::new()
    } else {
        let mut r = String::from_str(" where ");
        r.append(clause);
        r
    }
}

fn source_ty_text(shape: &RecordShape, op: Operation) -> (r: String)
    ensures
        r@ == source_ty(shape@, op),
{
    match op.direction {
        Direction::IntoElements => record_ty_text(shape),
        Direction::FromElements => elements_ty_text(shape, op.form),
    }
}

fn target_ty_text(shape: &RecordShape, op: Operation) -> (r: String)
    ensures
        r@ == target_ty(shape@, op),
{
    match op.direction {
        Direction::IntoElements => elements_ty_text(shape, op.form),
        Direction::FromElements => record_ty_text(shape),
    }
}

fn borrow_prefix_text(a: Access) -> (r: &'static str)
    ensures
        r@ == borrow_prefix(a),
{
    match a {
        Access::Owned => "",
        Access::Shared => "&'a ",
        Access::Unique => "&'a mut ",
    }
}

fn pointer_text(a: Access) -> (r: &'static str)
    ensures
        r@ == pointer(a),
{
    match a {
        Access::Unique => "*mut ",
        _ => "*const ",
    }
}

fn reborrow_text(a: Access) -> (r: &'static str)
    ensures
        r@ == reborrow(a),
{
    match a {
        Access::Unique => "&mut *(",
        _ => "&*(",
    }
}

fn raw_parts_text(a: Access) -> (r: &'static str)
    ensures
        r@ == raw_parts(a),
{
    match a {
        Access::Unique => "from_raw_parts_mut",
        _ => "from_raw_parts",
    }
}

fn data_pointer_text(a: Access) -> (r: &'static str)
    ensures
        r@ == data_pointer(a),
{
    match a {
        Access::Unique => ".as_mut_ptr()",
        _ => ".as_ptr()",
    }
}

fn as_view_trait_text(a: Access) -> (r: &'static str)
    ensures
        r@ == as_view_trait(a),
{
    match a {
        Access::Unique => " ::std::convert::AsMut<",
        _ => " ::std::convert::AsRef<",
    }
}

fn as_view_signature_text(a: Access) -> (r: &'static str)
    ensures
        r@ == as_view_signature(a),
{
    match a {
        Access::Unique => " fn as_mut(&mut self) -> &mut ",
        _ => " fn as_ref(&self) -> &",
    }
}

fn body_text(shape: &RecordShape, op: Operation, var: &str) -> (r: String)
    ensures
        r@ == body(shape@, op, var@),
{
    let a = op.access;
    if a == Access::Owned {
        let mut r = String::from_str("unsafe { ::std::mem::transmute(");
        r.append(var);
        r.append(") }");
        r
    } else if op.form == Form::Array {
        let source = source_ty_text(shape, op);
        let target = target_ty_text(shape, op);
        let mut r = String::from_str("unsafe { ");
        r.append(reborrow_text(a));
        r.append(var);
        r.append(" as ");
        r.append(pointer_text(a));
        r.append(source.as_str());
        r.append(" as ");
        r.append(pointer_text(a));
        r.append(target.as_str());
        r.append(") }");
        r
    } else if op.direction == Direction::IntoElements {
        let record = record_ty_text(shape);
        let count = decimal_text(shape.field_count());
        let mut r = String::from_str("unsafe { ::std::slice::");
        r.append(raw_parts_text(a));
        r.append("(");
        r.append(var);
        r.append(" as ");
        r.append(pointer_text(a));
        r.append(record.as_str());
        r.append(" as ");
        r.append(pointer_text(a));
        r.append(shape.element_type().as_str());
        r.append(", ");
        r.append(count.as_str());
        r.append(") }");
        r
    } else {
        let record = record_ty_text(shape);
        let count = decimal_text(shape.field_count());
        let mut r = String::from_str("assert_eq!(");
        r.append(var);
        r.append(".len(), ");
        r.append(count.as_str());
        r.append("); unsafe { ");
        r.append(reborrow_text(a));
        r.append(var);
        r.append(data_pointer_text(a));
        r.append(" as ");
        r.append(pointer_text(a));
        r.append(record.as_str());
        r.append(") }");
        r
    }
}

fn doc_text(shape: &RecordShape, op: Operation) -> (r: String)
    ensures
        r@ == doc(shape@, op),
{
    if op.direction == Direction::FromElements && op.form == Form::Slice {
        let count = decimal_text(shape.field_count());
        let mut r = String::from_str(
            " #[doc = \"Performs the conversion.\\n\\n# Panics\\n\\nPanics if the `len()` of the slice is not ",
        );
        r.append(count.as_str());
        r.append(".\"]");
        r
    } else {
        String::new()
    }
}

/// Renders the declaration of one operation.
pub fn declaration_text(shape: &RecordShape, op: Operation) -> (r: String)
    ensures
        r@ == declaration(shape@, op),
{
    let a = op.access;
    let head = impl_head_text(shape, op.interface == Interface::From && a != Access::Owned);
    let wh = where_text_exec(shape);
    let mut r = head;
    match op.interface {
        Interface::Deref => {
            let record = record_ty_text(shape);
            let array = array_ty_text(shape);
            let b = body_text(shape, op, "self");
            if a == Access::Unique {
                r.append(" ::std::ops::DerefMut for ");
                r.append(record.as_str());
                r.append(wh.as_str());
                r.append(" { fn deref_mut(&mut self) -> &mut ");
                r.append(array.as_str());
                r.append(" { ");
                r.append(b.as_str());
                r.append(" } }");
            } else {
                r.append(" ::std::ops::Deref for ");
                r.append(record.as_str());
                r.append(wh.as_str());
                r.append(" { type Target = ");
                r.append(array.as_str());
                r.append("; fn deref(&self) -> &");
                r.append(array.as_str());
                r.append(" { ");
                r.append(b.as_str());
                r.append(" } }");
            }
        },
        Interface::From => {
            let source = source_ty_text(shape, op);
            let target = target_ty_text(shape, op);
            let d = doc_text(shape, op);
            let b = body_text(shape, op, "value");
            let p = borrow_prefix_text(a);
            r.append(" From<");
            r.append(p);
            r.append(source.as_str());
            r.append("> for ");
            r.append(p);
            r.append(target.as_str());
            r.append(wh.as_str());
            r.append(" {");
            r.append(d.as_str());
            r.append(" fn from(value: ");
            r.append(p);
            r.append(source.as_str());
            r.append(") -> ");
            r.append(p);
            r.append(target.as_str());
            r.append(" { ");
            r.append(b.as_str());
            r.append(" } }");
        },
        Interface::AsView => {
            let source = source_ty_text(shape, op);
            let target = target_ty_text(shape, op);
            let d = doc_text(shape, op);
            let b = body_text(shape, op, "self");
            r.append(as_view_trait_text(a));
            r.append(target.as_str());
            r.append("> for ");
            r.append(source.as_str());
            r.append(wh.as_str());
            r.append(" {");
            r.append(d.as_str());
            r.append(as_view_signature_text(a));
            r.append(target.as_str());
            r.append(" { ");
            r.append(b.as_str());
            r.append(" } }");
        },
    }
    r
}

/// Renders the declarations of `ops`, one per line, in order.
pub fn declarations_text(shape: &RecordShape, ops: &Vec<Operation>) -> (r: String)
    ensures
        r@ == declarations(shape@, ops@),
{
    let mut out = String::new();
    let mut i: usize = 0;
    while i < ops.len()
        invariant
            i <= ops.len(),
            out@ == declarations(shape@, ops@.take(i as int)),
        decreases ops.len() - i,
    {
        let d = declaration_text(shape, ops[i]);
        assert(ops@.take(i + 1).drop_last() =~= ops@.take(i as int));
        out.append(d.as_str());
        out.append("\n");
        i += 1;
    }
    assert(ops@.take(ops.len() as int) =~= ops@);
    out
}

/// Generates the deref capability: `Deref` and `DerefMut` of the record to
/// its array.
pub fn impl_struct_array_deref(shape: &RecordShape) -> (r: String)
    ensures
        r@ == declarations(shape@, deref_table()),
{
    declarations_text(shape, &deref_operations())
}

/// Generates the convert capability: the owned conversions both ways, and the
/// views by reference and by mutable reference between the record and its
/// array and slice, through `From`, `AsRef` and `AsMut`.
pub fn impl_struct_array_convert(shape: &RecordShape) -> (r: String)
    ensures
        r@ == declarations(shape@, convert_table()),
{
    declarations_text(shape, &convert_operations())
}

/// Validates a record and generates both capabilities for it, deref first.
pub fn derive_struct_array(input: &RecordInput) -> (r: Result<String, ValidationError>)
    ensures
        match first_violation(*input) {
            Some(e) => r == Err::<String, ValidationError>(e),
            None => r matches Ok(text) && text@ == declarations(
                shape_of(*input),
                deref_table() + convert_table(),
            ),
        },
{
    let shape = parse_input(input)?;
    let mut ops = deref_operations();
    let mut rest = convert_operations();
    ops.append(&mut rest);
    Ok(declarations_text(&shape, &ops))
}

/// Validates a record and generates its deref capability.
pub fn derive_struct_array_deref(input: &RecordInput) -> (r: Result<String, ValidationError>)
    ensures
        match first_violation(*input) {
            Some(e) => r == Err::<String, ValidationError>(e),
            None => r matches Ok(text) && text@ == declarations(shape_of(*input), deref_table()),
        },
{
    let shape = parse_input(input)?;
    Ok(impl_struct_array_deref(&shape))
}

/// Validates a record and generates its convert capability.
pub fn derive_struct_array_convert(input: &RecordInput) -> (r: Result<String, ValidationError>)
    ensures
        match first_violation(*input) {
            Some(e) => r == Err::<String, ValidationError>(e),
            None => r matches Ok(text) && text@ == declarations(shape_of(*input), convert_table()),
        },
{
    let shape = parse_input(input)?;
    Ok(impl_struct_array_convert(&shape))
}

} // verus!
