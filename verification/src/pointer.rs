use vstd::prelude::*;

verus! {

/// A pointer-like value, reduced to what by-address identity reads of it.
///
/// `addr` is the data address: the address of the first byte of the pointee.
/// `meta` is the secondary word of a fat pointer — the element count of a
/// slice-like target, or the dispatch-table address of a trait-object
/// target — and is `None` for a thin pointer to a sized target.  Together
/// they form the pointer fingerprint.  `value` is the pointee the pointer
/// gives access to; identity operations never read it.
#[derive(Debug, Copy)]
pub struct Pointer<V> {
    pub addr: usize,
    pub meta: Option<usize>,
    pub value: V,
}

impl<V> Pointer<V> {
    /// Wrap a thin pointer: a bare data address.
    pub fn thin(addr: usize, value: V) -> (p: Self)
        ensures
            p.addr == addr,
            p.meta is None,
            p.value == value,
    {
        Pointer { addr, meta: None, value }
    }

    /// Wrap a fat pointer: a data address together with its secondary word.
    pub fn fat(addr: usize, word: usize, value: V) -> (p: Self)
        ensures
            p.addr == addr,
            p.meta == Some(word),
            p.value == value,
    {
        Pointer { addr, meta: Some(word), value }
    }

    /// Borrow the pointee, as dereferencing the pointer does.
    pub fn borrow(&self) -> (r: &V)
        ensures
            *r == self.value,
    {
        &self.value
    }

    /// Borrow the pointee exclusively, as dereferencing the pointer does.
    pub fn borrow_mut(&mut self) -> (r: &mut V)
        ensures
            *r == old(self).value,
            final(self).addr == old(self).addr,
            final(self).meta == old(self).meta,
            final(self).value == *final(r),
    {
        &mut self.value
    }
}

impl<V: Clone> Clone for Pointer<V> {
    /// Cloning a pointer clones the handle: the fingerprint is kept, and the
    /// pointee is duplicated with its own clone semantics.
    fn clone(&self) -> (r: Self)
        ensures
            r.addr == self.addr,
            r.meta == self.meta,
    {
        Pointer { addr: self.addr, meta: self.meta, value: self.value.clone() }
    }
}

} // verus!
