use vstd::prelude::*;
use arrayvec::ArrayVec;
use crate::scheduler::Task;
use crate::cdrom::ResponseType;

verus! {

/// `arrayvec::ArrayVec`, a vector with a fixed capacity stored inline.
#[verifier::external_type_specification]
#[verifier::external_body]
#[verifier::reject_recursive_types(T)]
pub struct ExArrayVec<T, const CAP: usize>(ArrayVec<T, CAP>);

/// The bytes an `ArrayVec<u8, 8>` holds, in order.
pub uninterp spec fn bytes8(v: ArrayVec<u8, 8>) -> Seq<u8>;

/// `ArrayVec::new`: an empty vector.
#[verifier::external_body]
pub(crate) fn bytes8_new() -> (r: ArrayVec<u8, 8>)
    ensures
        bytes8(r) == Seq::<u8>::empty(),
{
    ArrayVec::new()
}

/// `ArrayVec::len`: the number of bytes held, at most the capacity.
#[verifier::external_body]
pub(crate) fn bytes8_len(v: &ArrayVec<u8, 8>) -> (r: usize)
    ensures
        r == bytes8(*v).len(),
        r <= 8,
{
    v.len()
}

/// `ArrayVec::push`: appends `b`; panics when full, so the vector must
/// have room.
#[verifier::external_body]
pub(crate) fn bytes8_push(v: &mut ArrayVec<u8, 8>, b: u8)
    requires
        bytes8(*old(v)).len() < 8,
    ensures
        bytes8(*final(v)) == bytes8(*old(v)).push(b),
{
    v.push(b)
}

/// Indexing through the slice that `ArrayVec` dereferences to.
#[verifier::external_body]
pub(crate) fn bytes8_get(v: &ArrayVec<u8, 8>, i: usize) -> (r: u8)
    requires
        i < bytes8(*v).len(),
    ensures
        r == bytes8(*v)[i as int],
{
    v[i]
}

/// `ArrayVec::clone`: a vector holding the same bytes.
#[verifier::external_body]
pub(crate) fn bytes8_clone(v: &ArrayVec<u8, 8>) -> (r: ArrayVec<u8, 8>)
    ensures
        bytes8(r) == bytes8(*v),
{
    v.clone()
}

/// `ArrayVec`'s `==`: whether both hold the same bytes in the same order.
#[verifier::external_body]
pub(crate) fn bytes8_eq(a: &ArrayVec<u8, 8>, b: &ArrayVec<u8, 8>) -> (r: bool)
    ensures
        r == (bytes8(*a) == bytes8(*b)),
{
    a == b
}

/// `ArrayVec::pop_at(0)`: takes out the first byte, shifting the rest
/// down; `None` when empty.
#[verifier::external_body]
pub(crate) fn bytes8_pop_front(v: &mut ArrayVec<u8, 8>) -> (r: Option<u8>)
    ensures
        bytes8(*old(v)).len() == 0 ==> r is None && bytes8(*final(v)) == bytes8(*old(v)),
        bytes8(*old(v)).len() > 0 ==> r == Some(bytes8(*old(v))[0]) && bytes8(*final(v)) == bytes8(*old(v)).drop_first(),
{
    v.pop_at(0)
}

/// Writes byte `i` through the slice that `ArrayVec` dereferences to.
#[verifier::external_body]
pub(crate) fn bytes8_set(v: &mut ArrayVec<u8, 8>, i: usize, b: u8)
    requires
        i < bytes8(*old(v)).len(),
    ensures
        bytes8(*final(v)) == bytes8(*old(v)).update(i as int, b),
{
    v[i] = b;
}

/// The tasks an `ArrayVec<Task, 32>` holds, in order.
pub uninterp spec fn tasks32(v: ArrayVec<Task, 32>) -> Seq<Task>;

/// `ArrayVec::new`: an empty vector.
#[verifier::external_body]
pub(crate) fn tasks32_new() -> (r: ArrayVec<Task, 32>)
    ensures
        tasks32(r) == Seq::<Task>::empty(),
{
    ArrayVec::new()
}

/// `ArrayVec::len`: the number of tasks held, at most the capacity.
#[verifier::external_body]
pub(crate) fn tasks32_len(v: &ArrayVec<Task, 32>) -> (r: usize)
    ensures
        r == tasks32(*v).len(),
        r <= 32,
{
    v.len()
}

/// Indexing through the slice that `ArrayVec` dereferences to.
#[verifier::external_body]
pub(crate) fn tasks32_get(v: &ArrayVec<Task, 32>, i: usize) -> (r: &Task)
    requires
        i < tasks32(*v).len(),
    ensures
        *r == tasks32(*v)[i as int],
{
    &v[i]
}

/// `ArrayVec::remove`: takes out the task at `i`, shifting the later ones
/// down; panics when `i` is out of bounds.
#[verifier::external_body]
pub(crate) fn tasks32_remove(v: &mut ArrayVec<Task, 32>, i: usize) -> (r: Task)
    requires
        i < tasks32(*old(v)).len(),
    ensures
        r == tasks32(*old(v))[i as int],
        tasks32(*final(v)) == tasks32(*old(v)).remove(i as int),
{
    v.remove(i)
}

/// `ArrayVec::insert`: puts `t` at `i`, shifting the later tasks up;
/// panics when full or when `i` is past the end.
#[verifier::external_body]
pub(crate) fn tasks32_insert(v: &mut ArrayVec<Task, 32>, i: usize, t: Task)
    requires
        i <= tasks32(*old(v)).len(),
        tasks32(*old(v)).len() < 32,
    ensures
        tasks32(*final(v)) == tasks32(*old(v)).insert(i as int, t),
{
    v.insert(i, t)
}


/// The bytes an `ArrayVec<u8, 1024>` holds, in order.
pub uninterp spec fn bytes1024(v: ArrayVec<u8, 1024>) -> Seq<u8>;

/// `ArrayVec::new`: an empty vector.
#[verifier::external_body]
pub(crate) fn bytes1024_new() -> (r: ArrayVec<u8, 1024>)
    ensures
        bytes1024(r) == Seq::<u8>::empty(),
{
    ArrayVec::new()
}

/// `ArrayVec::len`: the number of bytes held, at most the capacity.
#[verifier::external_body]
pub(crate) fn bytes1024_len(v: &ArrayVec<u8, 1024>) -> (r: usize)
    ensures
        r == bytes1024(*v).len(),
        r <= 1024,
{
    v.len()
}

/// `ArrayVec::push`: appends `b`; panics when full, so the vector must
/// have room.
#[verifier::external_body]
pub(crate) fn bytes1024_push(v: &mut ArrayVec<u8, 1024>, b: u8)
    requires
        bytes1024(*old(v)).len() < 1024,
    ensures
        bytes1024(*final(v)) == bytes1024(*old(v)).push(b),
{
    v.push(b)
}

/// Indexing through the slice that `ArrayVec` dereferences to.
#[verifier::external_body]
pub(crate) fn bytes1024_get(v: &ArrayVec<u8, 1024>, i: usize) -> (r: u8)
    requires
        i < bytes1024(*v).len(),
    ensures
        r == bytes1024(*v)[i as int],
{
    v[i]
}

/// `ArrayVec::clear`: removes every byte.
#[verifier::external_body]
pub(crate) fn bytes1024_clear(v: &mut ArrayVec<u8, 1024>)
    ensures
        bytes1024(*final(v)) == Seq::<u8>::empty(),
{
    v.clear()
}

/// The bytes an `ArrayVec<u8, 16>` holds, in order.
pub uninterp spec fn bytes16(v: ArrayVec<u8, 16>) -> Seq<u8>;

/// `ArrayVec::new`: an empty vector.
#[verifier::external_body]
pub(crate) fn bytes16_new() -> (r: ArrayVec<u8, 16>)
    ensures
        bytes16(r) == Seq::<u8>::empty(),
{
    ArrayVec::new()
}

/// `ArrayVec::len`: the number of bytes held, at most the capacity.
#[verifier::external_body]
pub(crate) fn bytes16_len(v: &ArrayVec<u8, 16>) -> (r: usize)
    ensures
        r == bytes16(*v).len(),
        r <= 16,
{
    v.len()
}

/// `ArrayVec::push`: appends `b`; panics when full, so the vector must
/// have room.
#[verifier::external_body]
pub(crate) fn bytes16_push(v: &mut ArrayVec<u8, 16>, b: u8)
    requires
        bytes16(*old(v)).len() < 16,
    ensures
        bytes16(*final(v)) == bytes16(*old(v)).push(b),
{
    v.push(b)
}

/// `ArrayVec::clear`: removes every byte.
#[verifier::external_body]
pub(crate) fn bytes16_clear(v: &mut ArrayVec<u8, 16>)
    ensures
        bytes16(*final(v)) == Seq::<u8>::empty(),
{
    v.clear()
}

/// `ArrayVec::remove(0)`: takes out the first byte, shifting the rest
/// down; panics when empty.
#[verifier::external_body]
pub(crate) fn bytes16_remove_first(v: &mut ArrayVec<u8, 16>) -> (r: u8)
    requires
        bytes16(*old(v)).len() > 0,
    ensures
        r == bytes16(*old(v))[0],
        bytes16(*final(v)) == bytes16(*old(v)).drop_first(),
{
    v.remove(0)
}

/// The responses an `ArrayVec<(ResponseType, u64), 2>` holds, in order.
pub uninterp spec fn responses2(v: ArrayVec<(ResponseType, u64), 2>) -> Seq<(ResponseType, u64)>;

/// `ArrayVec::new`: an empty vector.
#[verifier::external_body]
pub(crate) fn responses2_new() -> (r: ArrayVec<(ResponseType, u64), 2>)
    ensures
        responses2(r) == Seq::<(ResponseType, u64)>::empty(),
{
    ArrayVec::new()
}

/// `ArrayVec::len`: the number of responses held, at most the capacity.
#[verifier::external_body]
pub(crate) fn responses2_len(v: &ArrayVec<(ResponseType, u64), 2>) -> (r: usize)
    ensures
        r == responses2(*v).len(),
        r <= 2,
{
    v.len()
}

/// `ArrayVec::push`: appends `x`; panics when full, so the vector must
/// have room.
#[verifier::external_body]
pub(crate) fn responses2_push(v: &mut ArrayVec<(ResponseType, u64), 2>, x: (ResponseType, u64))
    requires
        responses2(*old(v)).len() < 2,
    ensures
        responses2(*final(v)) == responses2(*old(v)).push(x),
{
    v.push(x)
}

/// `ArrayVec::remove(0)`: takes out the first response, shifting the rest
/// down; panics when empty.
#[verifier::external_body]
pub(crate) fn responses2_remove_first(v: &mut ArrayVec<(ResponseType, u64), 2>) -> (r: (ResponseType, u64))
    requires
        responses2(*old(v)).len() > 0,
    ensures
        r == responses2(*old(v))[0],
        responses2(*final(v)) == responses2(*old(v)).drop_first(),
{
    v.remove(0)
}

} // verus!
