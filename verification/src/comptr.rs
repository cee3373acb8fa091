//! Identities of native objects.

use vstd::prelude::*;
use core::marker::PhantomData;

verus! {

/// Marks a handle to a heap.
#[derive(Debug, Clone, Copy, PartialEq, Eq)]
pub struct HeapObject;

/// Marks a handle to a resource.
#[derive(Debug, Clone, Copy, PartialEq, Eq)]
pub struct ResourceObject;

/// The identity of a native object of kind `T`.
///
/// The value only names the object. Keeping the object alive is the business
/// of whoever holds the native reference; here two handles are the same
/// object exactly when their addresses are equal.
#[derive(Debug)]
pub struct ComPtr<T> {
    addr: usize,
    _marker: PhantomData<T>,
}

impl<T> ComPtr<T> {
    /// The address that identifies the object.
    pub closed spec fn addr(&self) -> usize {
        self.addr
    }

    /// Names the object at `addr`, which must not be null.
    pub fn new(addr: usize) -> (r: ComPtr<T>)
        requires
            addr != 0,
        ensures
            r.addr() == addr,
    {
        ComPtr { addr, _marker: PhantomData }
    }

    /// Names the object at `addr`, or nothing for a null address.
    pub fn from_addr(addr: usize) -> (r: Option<ComPtr<T>>)
        ensures
            addr == 0 ==> r is None,
            addr != 0 ==> r is Some && r->Some_0.addr() == addr,
    {
        if addr == 0 {
            None
        } else {
            Some(ComPtr { addr, _marker: PhantomData })
        }
    }

    /// The address of the object, for handing to the native layer.
    pub fn as_ptr(&self) -> (r: usize)
        ensures
            r == self.addr(),
    {
        self.addr
    }

    /// The address of the object, for native calls that change it.
    pub fn as_mut_ptr(&self) -> (r: usize)
        ensures
            r == self.addr(),
    {
        self.addr
    }

    /// Whether both handles name one object.
    pub fn same_object(&self, other: &ComPtr<T>) -> (r: bool)
        ensures
            r == (self.addr() == other.addr()),
    {
        self.addr == other.addr
    }
}

/// Two handles with one address are equal.
pub proof fn lemma_comptr_is_its_address<T>(a: ComPtr<T>, b: ComPtr<T>)
    requires
        a.addr() == b.addr(),
    ensures
        a == b,
{
}

impl<T> Clone for ComPtr<T> {
    /// Another name for the same object.
    fn clone(&self) -> (r: ComPtr<T>)
        ensures
            r == *self,
    {
        ComPtr { addr: self.addr, _marker: PhantomData }
    }
}

} // verus!
