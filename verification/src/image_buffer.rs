//! The image buffer: the fixed-capacity, ordered sequence of column
//! images that holds one display session's scrollable content. The
//! storage is a `heapless::Vec` of capacity 32; every operation that
//! the scrolling core needs goes through a small trusted wrapper whose
//! contract states what the vector's source shows.

use vstd::prelude::*;

verus! {

/// How many column images the buffer can hold.
pub const IMAGE_BUFFER_CAPACITY: usize = 32;

#[verifier::external_type_specification]
#[verifier::external_body]
#[verifier::reject_recursive_types(T)]
pub struct ExHeaplessVec<T, const N: usize>(heapless::Vec<T, N>);

/// The column images a buffer vector holds, in order.
pub uninterp spec fn vec_columns(v: heapless::Vec<[u8; 5], 32>) -> Seq<[u8; 5]>;

/// Relies on heapless::Vec::new: a fresh vector holds no elements.
#[verifier::external_body]
fn vec_new() -> (v: heapless::Vec<[u8; 5], 32>)
    ensures
        vec_columns(v) == Seq::<[u8; 5]>::empty(),
{
    heapless::Vec::new()
}

/// Relies on heapless::Vec's deref to the slice of its elements:
/// the slice's length is the number of elements held.
#[verifier::external_body]
fn vec_len(v: &heapless::Vec<[u8; 5], 32>) -> (n: usize)
    ensures
        n == vec_columns(*v).len(),
{
    v.len()
}

/// Relies on heapless::Vec::push: appends the item while the vector is
/// below its capacity of 32, and hands the item back, changing nothing,
/// once it is full.
#[verifier::external_body]
fn vec_push(v: &mut heapless::Vec<[u8; 5], 32>, column: [u8; 5]) -> (r: Result<(), [u8; 5]>)
    ensures
        vec_columns(*old(v)).len() < 32 ==> r is Ok && vec_columns(*final(v)) == vec_columns(*old(v)).push(column),
        vec_columns(*old(v)).len() >= 32 ==> r is Err && vec_columns(*final(v)) == vec_columns(*old(v)),
        r matches Err(rejected) ==> rejected == column,
    no_unwind
{
    v.push(column)
}

/// Relies on heapless::Vec::clear: removes every element.
#[verifier::external_body]
fn vec_clear(v: &mut heapless::Vec<[u8; 5], 32>)
    ensures
        vec_columns(*final(v)) == Seq::<[u8; 5]>::empty(),
    no_unwind
{
    v.clear()
}

/// Relies on heapless::Vec::as_slice: all elements, in order.
#[verifier::external_body]
fn vec_get(v: &heapless::Vec<[u8; 5], 32>, i: usize) -> (column: [u8; 5])
    requires
        i < vec_columns(*v).len(),
    ensures
        column == vec_columns(*v)[i as int],
{
    v.as_slice()[i]
}

/// The error returned when encoded content would not fit in the image
/// buffer's fixed capacity.
#[derive(Clone, Copy, Debug, PartialEq, Eq, Structural)]
pub struct CapacityError;

/// A fixed-capacity, append-only-until-reset sequence of column images.
pub struct ImageBuffer {
    columns: heapless::Vec<[u8; 5], 32>,
}

impl View for ImageBuffer {
    type V = Seq<[u8; 5]>;

    closed spec fn view(&self) -> Seq<[u8; 5]> {
        vec_columns(self.columns)
    }
}

impl ImageBuffer {
    /// The buffer never holds more columns than its capacity.
    #[verifier::type_invariant]
    pub open spec fn capacity_invariant(self) -> bool {
        self@.len() <= 32
    }

    /// An empty buffer.
    pub fn new() -> (buffer: ImageBuffer)
        ensures
            buffer@ == Seq::<[u8; 5]>::empty(),
    {
        ImageBuffer { columns: vec_new() }
    }

    /// How many column images the buffer holds.
    pub fn len(&self) -> (n: usize)
        ensures
            n == self@.len(),
    {
        vec_len(&self.columns)
    }

    /// Whether the buffer holds no column images at all.
    pub fn is_empty(&self) -> (empty: bool)
        ensures
            empty == (self@.len() == 0),
    {
        self.len() == 0
    }

    /// The column image at the given index.
    pub fn column(&self, i: usize) -> (column: [u8; 5])
        requires
            i < self@.len(),
        ensures
            column == self@[i as int],
    {
        vec_get(&self.columns, i)
    }

    /// Appends one column image, or reports that the buffer is full.
    pub fn push_column(&mut self, column: [u8; 5]) -> (r: Result<(), CapacityError>)
        ensures
            r is Ok <==> old(self)@.len() < 32,
            r is Ok ==> final(self)@ == old(self)@.push(column),
            r is Err ==> final(self)@ == old(self)@,
    {
        proof {
            use_type_invariant(&*self);
        }
        match vec_push(&mut self.columns, column) {
            Ok(()) => Ok(()),
            Err(_) => Err(CapacityError),
        }
    }

    /// Removes every column image.
    pub fn clear(&mut self)
        ensures
            final(self)@ == Seq::<[u8; 5]>::empty(),
    {
        vec_clear(&mut self.columns)
    }
}

} // verus!
