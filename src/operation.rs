//! The closed table of conversions generated for a record: each is one trait
//! impl, placed by the trait it implements, its direction, how it holds its
//! input and whether the elements form an array or a slice.
use vstd::prelude::*;

verus! {

/// The trait through which an operation is offered.
#[derive(Clone, Copy, Debug, PartialEq, Eq, Structural)]
pub enum Interface {
    /// `Deref` (shared) or `DerefMut` (unique) of the record to its array.
    Deref,
    /// `From`, for the target type, from the source type.
    From,
    /// `AsRef` (shared) or `AsMut` (unique), on the source type.
    AsView,
}

/// Which way an operation converts.
#[derive(Clone, Copy, Debug, PartialEq, Eq, Structural)]
pub enum Direction {
    /// From the record to its elements.
    IntoElements,
    /// From the elements to the record.
    FromElements,
}

/// How an operation takes its input and hands back its result.
#[derive(Clone, Copy, Debug, PartialEq, Eq, Structural)]
pub enum Access {
    /// By value.
    Owned,
    /// By shared reference.
    Shared,
    /// By mutable reference.
    Unique,
}

/// How the elements are represented.
#[derive(Clone, Copy, Debug, PartialEq, Eq, Structural)]
pub enum Form {
    /// A fixed-size array with one element per field.
    Array,
    /// A slice of the element type.
    Slice,
}

/// One generated conversion.
#[derive(Clone, Copy, Debug, PartialEq, Eq, Structural)]
pub struct Operation {
    pub interface: Interface,
    pub direction: Direction,
    pub access: Access,
    pub form: Form,
}

/// Whether an operation can fail: only a slice can have the wrong length.
pub open spec fn is_fallible(op: Operation) -> bool {
    op.direction == Direction::FromElements && op.form == Form::Slice
}

/// Whether a combination of the four dimensions is a conversion at all.
pub open spec fn is_operation(op: Operation) -> bool {
    match op.interface {
        Interface::Deref => op.direction == Direction::IntoElements && op.form == Form::Array
            && op.access != Access::Owned,
        Interface::From => op.access != Access::Owned || op.form == Form::Array,
        Interface::AsView => op.access != Access::Owned,
    }
}

pub open spec fn op(i: Interface, d: Direction, a: Access, f: Form) -> Operation {
    Operation { interface: i, direction: d, access: a, form: f }
}

/// The operations of the deref capability: the record seen as its array.
pub open spec fn deref_table() -> Seq<Operation> {
    seq![
        op(Interface::Deref, Direction::IntoElements, Access::Shared, Form::Array),
        op(Interface::Deref, Direction::IntoElements, Access::Unique, Form::Array),
    ]
}

/// The views of one access and form: `From` and then `AsRef`/`AsMut`, first
/// into the elements and then back.
pub open spec fn view_group(a: Access, f: Form) -> Seq<Operation> {
    seq![
        op(Interface::From, Direction::IntoElements, a, f),
        op(Interface::AsView, Direction::IntoElements, a, f),
        op(Interface::From, Direction::FromElements, a, f),
        op(Interface::AsView, Direction::FromElements, a, f),
    ]
}

/// The operations of the convert capability: the two owned conversions, then
/// the views by shared and by mutable reference, to arrays and then slices.
pub open spec fn convert_table() -> Seq<Operation> {
    seq![
        op(Interface::From, Direction::IntoElements, Access::Owned, Form::Array),
        op(Interface::From, Direction::FromElements, Access::Owned, Form::Array),
    ] + view_group(Access::Shared, Form::Array) + view_group(Access::Unique, Form::Array)
        + view_group(Access::Shared, Form::Slice) + view_group(Access::Unique, Form::Slice)
}

fn make(i: Interface, d: Direction, a: Access, f: Form) -> (r: Operation)
    ensures
        r == op(i, d, a, f),
{
    Operation { interface: i, direction: d, access: a, form: f }
}

fn push_view_group(ops: &mut Vec<Operation>, a: Access, f: Form)
    ensures
        final(ops)@ == old(ops)@ + view_group(a, f),
{
    ops.push(make(Interface::From, Direction::IntoElements, a, f));
    ops.push(make(Interface::AsView, Direction::IntoElements, a, f));
    ops.push(make(Interface::From, Direction::FromElements, a, f));
    ops.push(make(Interface::AsView, Direction::FromElements, a, f));
    assert(ops@ =~= old(ops)@ + view_group(a, f));
}

/// The operations that the deref capability generates.
pub fn deref_operations() -> (r: Vec<Operation>)
    ensures
        r@ == deref_table(),
{
    let mut ops: Vec<Operation> = Vec::new();
    ops.push(make(Interface::Deref, Direction::IntoElements, Access::Shared, Form::Array));
    ops.push(make(Interface::Deref, Direction::IntoElements, Access::Unique, Form::Array));
    assert(ops@ =~= deref_table());
    ops
}

/// The operations that the convert capability generates.
pub fn convert_operations() -> (r: Vec<Operation>)
    ensures
        r@ == convert_table(),
{
    let mut ops: Vec<Operation> = Vec::new();
    ops.push(make(Interface::From, Direction::IntoElements, Access::Owned, Form::Array));
    ops.push(make(Interface::From, Direction::FromElements, Access::Owned, Form::Array));
    push_view_group(&mut ops, Access::Shared, Form::Array);
    push_view_group(&mut ops, Access::Unique, Form::Array);
    push_view_group(&mut ops, Access::Shared, Form::Slice);
    push_view_group(&mut ops, Access::Unique, Form::Slice);
    assert(ops@ =~= convert_table());
    ops
}

/// Every entry of both tables is a valid conversion, no entry occurs twice,
/// and the two tables share none: together they hold exactly twenty distinct
/// operations.
pub proof fn lemma_tables_well_formed()
    ensures
        deref_table().len() == 2,
        convert_table().len() == 18,
        forall|i: int| 0 <= i < 2 ==> is_operation(#[trigger] deref_table()[i]),
        forall|i: int| 0 <= i < 18 ==> is_operation(#[trigger] convert_table()[i]),
        forall|i: int, j: int|
            0 <= i < j < 18 ==> #[trigger] convert_table()[i] != #[trigger] convert_table()[j],
        deref_table()[0] != deref_table()[1],
        forall|i: int, j: int|
            0 <= i < 2 && 0 <= j < 18 ==> #[trigger] deref_table()[i] != #[trigger] convert_table()[j],
{
    let c = convert_table();
    assert(c =~= seq![
        op(Interface::From, Direction::IntoElements, Access::Owned, Form::Array),
        op(Interface::From, Direction::FromElements, Access::Owned, Form::Array),
        op(Interface::From, Direction::IntoElements, Access::Shared, Form::Array),
        op(Interface::AsView, Direction::IntoElements, Access::Shared, Form::Array),
        op(Interface::From, Direction::FromElements, Access::Shared, Form::Array),
        op(Interface::AsView, Direction::FromElements, Access::Shared, Form::Array),
        op(Interface::From, Direction::IntoElements, Access::Unique, Form::Array),
        op(Interface::AsView, Direction::IntoElements, Access::Unique, Form::Array),
        op(Interface::From, Direction::FromElements, Access::Unique, Form::Array),
        op(Interface::AsView, Direction::FromElements, Access::Unique, Form::Array),
        op(Interface::From, Direction::IntoElements, Access::Shared, Form::Slice),
        op(Interface::AsView, Direction::IntoElements, Access::Shared, Form::Slice),
        op(Interface::From, Direction::FromElements, Access::Shared, Form::Slice),
        op(Interface::AsView, Direction::FromElements, Access::Shared, Form::Slice),
        op(Interface::From, Direction::IntoElements, Access::Unique, Form::Slice),
        op(Interface::AsView, Direction::IntoElements, Access::Unique, Form::Slice),
        op(Interface::From, Direction::FromElements, Access::Unique, Form::Slice),
        op(Interface::AsView, Direction::FromElements, Access::Unique, Form::Slice),
    ]);
}

} // verus!
