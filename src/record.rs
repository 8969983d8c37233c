//! A record of one element type held as its array of fields, with the
//! conversions of the operation table as verified functions: the record, its
//! array and its slice are one sequence of elements in field order.
use vstd::prelude::*;

verus! {

broadcast use vstd::array::group_array_axioms;

/// A record of `N` fields of type `T`, stored contiguously in declaration
/// order, so that field `i` is element `i` of its array.
#[derive(Clone, Copy, Debug, PartialEq, Eq)]
pub struct Record<T, const N: usize> {
    fields: [T; N],
}

impl<T, const N: usize> View for Record<T, N> {
    type V = Seq<T>;

    /// The fields in declaration order.
    closed spec fn view(&self) -> Seq<T> {
        self.fields@
    }
}

impl<T, const N: usize> Record<T, N> {
    /// Builds the record whose fields are the elements of `array`, in order.
    pub fn from_array(array: [T; N]) -> (r: Self)
        ensures
            r@ == array@,
    {
        Record { fields: array }
    }

    /// Gives up the record as the array of its fields.
    pub fn into_array(self) -> (r: [T; N])
        ensures
            r@ == self@,
    {
        self.fields
    }

    /// The record seen as its array, as by dereferencing it.
    pub fn view_as_array(&self) -> (r: &[T; N])
        ensures
            r@ == self@,
    {
        &self.fields
    }

    /// The record seen as its array for writing, as by dereferencing it
    /// mutably: what is written to element `i` is written to field `i`.
    pub fn view_as_array_mut(&mut self) -> (r: &mut [T; N])
        ensures
            r@ == old(self)@,
            final(self)@ == final(r)@,
    {
        &mut self.fields
    }

    /// A reference to the record converted to a reference to its array.
    pub fn into_array_ref(&self) -> (r: &[T; N])
        ensures
            r@ == self@,
    {
        &self.fields
    }

    /// A mutable reference to the record converted to one to its array.
    pub fn into_array_mut(&mut self) -> (r: &mut [T; N])
        ensures
            r@ == old(self)@,
            final(self)@ == final(r)@,
    {
        &mut self.fields
    }

    /// A reference to the record converted to a slice of its fields.
    pub fn into_slice(&self) -> (r: &[T])
        ensures
            r@ == self@,
    {
        self.fields.as_slice()
    }

    /// A mutable reference to the record converted to a mutable slice of its
    /// fields.
    pub fn into_slice_mut(&mut self) -> (r: &mut [T])
        ensures
            r@ == old(self)@,
            final(self)@ == final(r)@,
    {
        &mut self.fields
    }

    /// Field `i`, in declaration order.
    pub fn field(&self, i: usize) -> (r: &T)
        requires
            i < N,
        ensures
            *r == self@[i as int],
    {
        &self.fields[i]
    }

    /// Sets field `i` by writing element `i` of the record's mutable array
    /// view; the other fields keep their values.
    pub fn set_field(&mut self, i: usize, value: T)
        requires
            i < N,
        ensures
            final(self)@ == old(self)@.update(i as int, value),
    {
        let array = self.view_as_array_mut();
        array[i] = value;
    }
}

/// A record held in an array or slice that it borrows: what a shared
/// reference to the array or slice becomes when seen as a reference to the
/// record.
pub struct RecordRef<'a, T, const N: usize> {
    fields: &'a [T],
}

impl<'a, T, const N: usize> RecordRef<'a, T, N> {
    #[verifier::type_invariant]
    spec fn one_element_per_field(&self) -> bool {
        self.fields@.len() == N
    }
}

impl<'a, T, const N: usize> View for RecordRef<'a, T, N> {
    type V = Seq<T>;

    /// The fields in declaration order.
    closed spec fn view(&self) -> Seq<T> {
        self.fields@
    }
}

impl<'a, T, const N: usize> RecordRef<'a, T, N> {
    /// A reference to an array seen as a reference to the record whose
    /// fields are its elements.
    pub fn from_array_ref(array: &'a [T; N]) -> (r: Self)
        ensures
            r@ == array@,
    {
        RecordRef { fields: array }
    }

    /// A slice seen as a reference to the record whose fields are its
    /// elements; `None` when its length is not the field count.
    pub fn from_slice(slice: &'a [T]) -> (r: Option<Self>)
        ensures
            r is Some <==> slice@.len() == N,
            r matches Some(record) ==> record@ == slice@,
    {
        if slice.len() == N {
            Some(RecordRef { fields: slice })
        } else {
            None
        }
    }

    /// Field `i`, in declaration order.
    pub fn field(&self, i: usize) -> (r: &T)
        requires
            i < N,
        ensures
            *r == self@[i as int],
    {
        proof {
            use_type_invariant(self);
        }
        &self.fields[i]
    }

    /// The fields as a slice.
    pub fn as_slice(&self) -> (r: &[T])
        ensures
            r@ == self@,
    {
        self.fields
    }
}

/// A record held in an array or slice that it borrows mutably: what a
/// mutable reference to the array or slice becomes when seen as a mutable
/// reference to the record. Writes to its fields are writes to the borrowed
/// elements.
pub struct RecordMut<'a, T, const N: usize> {
    /// The borrowed elements, one per field; public so that contracts can
    /// speak of what the borrowed array or slice holds once it is released.
    pub fields: &'a mut [T],
}

impl<'a, T, const N: usize> View for RecordMut<'a, T, N> {
    type V = Seq<T>;

    /// The fields in declaration order.
    open spec fn view(&self) -> Seq<T> {
        self.fields@
    }
}

impl<'a, T, const N: usize> RecordMut<'a, T, N> {
    /// A mutable reference to an array seen as a mutable reference to the
    /// record whose fields are its elements.
    pub fn from_array_mut(array: &'a mut [T; N]) -> (r: Self)
        ensures
            r@ == old(array)@,
            final(array)@ == (*final(r.fields))@,
    {
        RecordMut { fields: array }
    }

    /// A mutable slice seen as a mutable reference to the record whose fields
    /// are its elements; `None`, with the slice untouched, when its length is
    /// not the field count.
    pub fn from_slice_mut(slice: &'a mut [T]) -> (r: Option<Self>)
        ensures
            r is Some <==> old(slice)@.len() == N,
            r matches Some(record) ==> record@ == old(slice)@ && final(slice)@ == (
            *final(record.fields))@,
            r is None ==> final(slice)@ == old(slice)@,
    {
        if slice.len() == N {
            Some(RecordMut { fields: slice })
        } else {
            None
        }
    }

    /// Field `i`, in declaration order.
    pub fn field(&self, i: usize) -> (r: &T)
        requires
            i < self@.len(),
        ensures
            *r == self@[i as int],
    {
        &self.fields[i]
    }

    /// Sets field `i`, that is element `i` of the borrowed array or slice.
    pub fn set_field(&mut self, i: usize, value: T)
        requires
            i < old(self)@.len(),
        ensures
            final(self)@ == old(self)@.update(i as int, value),
            (*final(final(self).fields))@ == (*final(old(self).fields))@,
    {
        self.fields[i] = value;
    }

    /// The fields as a slice.
    pub fn as_slice(&self) -> (r: &[T])
        ensures
            r@ == self@,
    {
        self.fields
    }
}

impl<T, const N: usize> core::ops::Deref for Record<T, N> {
    type Target = [T; N];

    fn deref(&self) -> &[T; N] {
        &self.fields
    }
}

impl<T, const N: usize> core::ops::DerefMut for Record<T, N> {
    fn deref_mut(&mut self) -> &mut [T; N] {
        &mut self.fields
    }
}

impl<T, const N: usize> core::convert::AsRef<[T; N]> for Record<T, N> {
    fn as_ref(&self) -> &[T; N] {
        &self.fields
    }
}

impl<T, const N: usize> core::convert::AsRef<[T]> for Record<T, N> {
    fn as_ref(&self) -> &[T] {
        self.fields.as_slice()
    }
}

impl<T, const N: usize> core::convert::AsMut<[T; N]> for Record<T, N> {
    fn as_mut(&mut self) -> &mut [T; N] {
        &mut self.fields
    }
}

impl<T, const N: usize> core::convert::AsMut<[T]> for Record<T, N> {
    fn as_mut(&mut self) -> &mut [T] {
        &mut self.fields
    }
}

impl<T, const N: usize> From<[T; N]> for Record<T, N> {
    fn from(array: [T; N]) -> Self {
        Record { fields: array }
    }
}

impl<T, const N: usize> vstd::std_specs::convert::FromSpecImpl<[T; N]> for Record<T, N> {
    open spec fn obeys_from_spec() -> bool {
        true
    }

    closed spec fn from_spec(array: [T; N]) -> Self {
        Record { fields: array }
    }
}

impl<T, const N: usize> From<Record<T, N>> for [T; N] {
    fn from(record: Record<T, N>) -> Self {
        record.fields
    }
}

impl<T, const N: usize> vstd::std_specs::convert::FromSpecImpl<Record<T, N>> for [T; N] {
    open spec fn obeys_from_spec() -> bool {
        true
    }

    closed spec fn from_spec(record: Record<T, N>) -> Self {
        record.fields
    }
}

impl<'a, T, const N: usize> From<&'a Record<T, N>> for &'a [T; N] {
    fn from(record: &'a Record<T, N>) -> Self {
        &record.fields
    }
}

impl<'a, T, const N: usize> vstd::std_specs::convert::FromSpecImpl<&'a Record<T, N>> for &'a [T; N] {
    open spec fn obeys_from_spec() -> bool {
        true
    }

    closed spec fn from_spec(record: &'a Record<T, N>) -> Self {
        &record.fields
    }
}

impl<'a, T, const N: usize> From<&'a Record<T, N>> for &'a [T] {
    fn from(record: &'a Record<T, N>) -> Self {
        &record.fields
    }
}

impl<'a, T, const N: usize> vstd::std_specs::convert::FromSpecImpl<&'a Record<T, N>> for &'a [T] {
    open spec fn obeys_from_spec() -> bool {
        true
    }

    closed spec fn from_spec(record: &'a Record<T, N>) -> Self {
        vstd::array::spec_array_as_slice(&record.fields)
    }
}

/// Two records with the same fields in the same order are the same record,
/// and so are two arrays with the same elements.
proof fn lemma_views_determine<T, const N: usize>()
    ensures
        forall|x: Record<T, N>, y: Record<T, N>| x@ == y@ ==> x == y,
        forall|x: [T; N], y: [T; N]| x@ == y@ ==> x == y,
{
    assert forall|x: [T; N], y: [T; N]| x@ == y@ implies x == y by {
        assert(x =~= y);
    }
    assert forall|x: Record<T, N>, y: Record<T, N>| x@ == y@ implies x == y by {
        assert(x.fields =~= y.fields);
    }
}

/// Converting an array to a record and back yields the same array, and a
/// record to an array and back yields the same record: `from_array` and
/// `into_array` are inverse to each other.
pub proof fn lemma_round_trip<T, const N: usize>(array: [T; N], record: Record<T, N>)
    ensures
        forall|mid: Record<T, N>, back: [T; N]| mid@ == array@ && back@ == mid@ ==> back == array,
        forall|mid: [T; N], back: Record<T, N>| mid@ == record@ && back@ == mid@ ==> back == record,
{
    lemma_views_determine::<T, N>();
}

/// Seeing a record as its array through `view_as_array` and converting its
/// reference through `into_array_ref` give the same array, whose element `i`
/// is field `i`.
pub proof fn lemma_view_equivalence<T, const N: usize>(record: Record<T, N>)
    ensures
        forall|by_view: [T; N], by_convert: [T; N]|
            by_view@ == record@ && by_convert@ == record@ ==> by_view == by_convert,
        forall|by_view: [T; N], i: int|
            by_view@ == record@ && 0 <= i < N ==> by_view[i] == record@[i],
{
    lemma_views_determine::<T, N>();
}

/// Writing `value` to element `i` of a mutable array or slice view of a
/// record changes field `i` of the record to `value` and leaves every other
/// field as it was. `view_after` is the view once written; `record_after` is
/// the record once the view is released, which shares the view's final
/// contents (as `view_as_array_mut`, `into_array_mut` and `into_slice_mut`
/// ensure).
pub proof fn lemma_mutation_propagation<T, const N: usize>(
    record: Record<T, N>,
    i: int,
    value: T,
    view_after: Seq<T>,
    record_after: Record<T, N>,
)
    requires
        0 <= i < N,
        view_after == record@.update(i, value),
        record_after@ == view_after,
    ensures
        record_after@[i] == value,
        forall|j: int| 0 <= j < N && j != i ==> record_after@[j] == record@[j],
{
}

/// A slice of the field count's length, seen as a record, has field by
/// field the contents of the record that the array of the same elements
/// becomes, by reference or by value. (That a slice of any other length is
/// refused is the contract of `RecordRef::from_slice` and
/// `RecordMut::from_slice_mut`.)
pub proof fn lemma_slice_guard<'a, T, const N: usize>(slice: Seq<T>)
    requires
        slice.len() == N,
    ensures
        forall|by_slice: RecordRef<'a, T, N>, array: [T; N], by_array: RecordRef<'a, T, N>|
            by_slice@ == slice && array@ == slice && by_array@ == array@ ==> by_slice@ == by_array@,
        forall|by_slice: RecordRef<'a, T, N>, array: [T; N], owned: Record<T, N>|
            by_slice@ == slice && array@ == slice && owned@ == array@ ==> by_slice@ == owned@,
{
}

} // verus!

