use vstd::prelude::*;

use core::cmp::Ordering;

use crate::by_address::ByAddress;
use crate::by_address::same_full_fingerprint;
use crate::pointer::Pointer;
use crate::render::RenderPointee;
use crate::render::pointee_at_addr;
use crate::render::pointee_at_addr_chars;

verus! {

/// Similar to [`ByAddress`], but omits the secondary word of fat pointers.
///
/// Equality, ordering, and hashing use the data address alone.  Two slice
/// views that start at the same element are equal whatever their lengths,
/// and two trait-object references to the same object are equal even when
/// they carry distinct dispatch-table addresses — which may happen when the
/// same concrete type reaches the same trait through separately compiled
/// units.
#[derive(Debug, Copy)]
pub struct ByThinAddress<V>(pub Pointer<V>);

/// Whether two wrapped pointers carry the same data address.  This is what
/// `==` on `ByThinAddress` means; the secondary word is ignored.
pub open spec fn same_data_address<V>(a: ByThinAddress<V>, b: ByThinAddress<V>) -> bool {
    a.0.addr == b.0.addr
}

/// The total order on data addresses.
pub open spec fn thin_order<V>(a: ByThinAddress<V>, b: ByThinAddress<V>) -> Ordering {
    if a.0.addr < b.0.addr {
        Ordering::Less
    } else if a.0.addr > b.0.addr {
        Ordering::Greater
    } else {
        Ordering::Equal
    }
}

/// The hash of a data address: the address word itself, with the secondary
/// word discarded.
pub open spec fn thin_hash(addr: usize) -> u64 {
    addr as u64
}

impl<V> ByThinAddress<V> {
    /// The data address of the wrapped pointer.
    pub fn addr(&self) -> (a: usize)
        ensures
            a == self.0.addr,
    {
        self.0.addr
    }

    /// Compare two wrapped pointers by their data address alone.
    pub fn cmp(&self, other: &Self) -> (r: Ordering)
        ensures
            r == thin_order(*self, *other),
    {
        if self.0.addr < other.0.addr {
            Ordering::Less
        } else if self.0.addr > other.0.addr {
            Ordering::Greater
        } else {
            Ordering::Equal
        }
    }

    /// Hash the data address into one word.
    pub fn hash(&self) -> (r: u64)
        ensures
            r == thin_hash(self.0.addr),
    {
        self.0.addr as u64
    }

    /// Dereference to the wrapped pointer, exactly as stored.
    pub fn deref(&self) -> (r: &Pointer<V>)
        ensures
            *r == self.0,
    {
        &self.0
    }

    /// Dereference to the wrapped pointer exclusively.
    pub fn deref_mut(&mut self) -> (r: &mut Pointer<V>)
        ensures
            *r == old(self).0,
            *final(self) == (ByThinAddress(*final(r))),
    {
        &mut self.0
    }

    /// Project to the pointee, delegating to the wrapped pointer's own
    /// borrow: the same storage the pointer itself gives access to.
    pub fn as_ref(&self) -> (r: &V)
        ensures
            *r == self.0.value,
    {
        self.0.borrow()
    }
}

/// The debug rendering of a `ByThinAddress` wrapper: the tag, then the
/// pointee's rendering next to its data address.
pub open spec fn by_thin_address_debug_chars<V: RenderPointee>(a: ByThinAddress<V>) -> Seq<char> {
    "ByThinAddress("@ + pointee_at_addr_chars(a.0.value.repr(), a.0.addr as nat) + ")"@
}

impl<V: RenderPointee> ByThinAddress<V> {
    /// Debug rendering: `ByThinAddress(<pointee> @ <address>)`.
    pub fn debug_string(&self) -> (s: String)
        ensures
            s@ == by_thin_address_debug_chars(*self),
    {
        let mut s = String::from_str("ByThinAddress(");
        let v = self.0.value.render();
        let body = pointee_at_addr(v.as_str(), self.0.addr);
        s.append(body.as_str());
        s.append(")");
        proof {
            assert(s@ =~= by_thin_address_debug_chars(*self));
        }
        s
    }

    /// Display rendering: delegated verbatim to the pointee.
    pub fn display_string(&self) -> (s: String)
        ensures
            s@ == self.0.value.repr(),
    {
        self.0.value.render()
    }
}

impl<V> PartialEq for ByThinAddress<V> {
    fn eq(&self, other: &Self) -> bool {
        self.0.addr == other.0.addr
    }
}

impl<V> vstd::std_specs::cmp::PartialEqSpecImpl for ByThinAddress<V> {
    open spec fn obeys_eq_spec() -> bool {
        true
    }

    open spec fn eq_spec(&self, other: &Self) -> bool {
        same_data_address(*self, *other)
    }
}

impl<V> Eq for ByThinAddress<V> {}

impl<V> PartialOrd for ByThinAddress<V> {
    fn partial_cmp(&self, other: &Self) -> Option<Ordering> {
        Some(self.cmp(other))
    }
}

impl<V> vstd::std_specs::cmp::PartialOrdSpecImpl for ByThinAddress<V> {
    open spec fn obeys_partial_cmp_spec() -> bool {
        true
    }

    open spec fn partial_cmp_spec(&self, other: &Self) -> Option<Ordering> {
        Some(thin_order(*self, *other))
    }
}

impl<V> From<Pointer<V>> for ByThinAddress<V> {
    fn from(p: Pointer<V>) -> ByThinAddress<V> {
        ByThinAddress(p)
    }
}

impl<V> vstd::std_specs::convert::FromSpecImpl<Pointer<V>> for ByThinAddress<V> {
    open spec fn obeys_from_spec() -> bool {
        true
    }

    open spec fn from_spec(p: Pointer<V>) -> Self {
        ByThinAddress(p)
    }
}

impl<V: Clone> Clone for ByThinAddress<V> {
    /// Cloning keeps the fingerprint, so a clone is equal to its original.
    fn clone(&self) -> (r: Self)
        ensures
            r.0.addr == self.0.addr,
            r.0.meta == self.0.meta,
            same_data_address(r, *self),
    {
        ByThinAddress(self.0.clone())
    }
}

/// Law: by-thin-address equality is reflexive.
pub proof fn lemma_thin_eq_reflexive<V>(a: ByThinAddress<V>)
    ensures
        same_data_address(a, a),
{
}

/// Law: by-thin-address equality is symmetric.
pub proof fn lemma_thin_eq_symmetric<V>(a: ByThinAddress<V>, b: ByThinAddress<V>)
    ensures
        same_data_address(a, b) <==> same_data_address(b, a),
{
}

/// Law: by-thin-address equality is transitive.
pub proof fn lemma_thin_eq_transitive<V>(
    a: ByThinAddress<V>,
    b: ByThinAddress<V>,
    c: ByThinAddress<V>,
)
    ensures
        same_data_address(a, b) && same_data_address(b, c) ==> same_data_address(a, c),
{
}

/// Law: the by-thin-address order is a total order: it is reflexive, it
/// compares equal exactly on equal data addresses, it is antisymmetric, and
/// it is transitive.
pub proof fn lemma_thin_order_total<V>(
    a: ByThinAddress<V>,
    b: ByThinAddress<V>,
    c: ByThinAddress<V>,
)
    ensures
        thin_order(a, a) == Ordering::Equal,
        thin_order(a, b) == Ordering::Equal <==> same_data_address(a, b),
        thin_order(a, b) == Ordering::Less <==> thin_order(b, a) == Ordering::Greater,
        thin_order(a, b) == Ordering::Less && thin_order(b, c) == Ordering::Less ==> thin_order(
            a,
            c,
        ) == Ordering::Less,
{
}

/// Law: equal wrappers hash equal, so the wrapper is fit to key a hashed
/// container.
pub proof fn lemma_thin_hash_consistent<V>(a: ByThinAddress<V>, b: ByThinAddress<V>)
    ensures
        same_data_address(a, b) ==> thin_hash(a.0.addr) == thin_hash(b.0.addr),
{
}

/// Law: identity is the address, not the pointee's value.  Pointers to
/// distinct addresses compare unequal whatever their pointees hold.
pub proof fn lemma_thin_address_identity<V>(a: ByThinAddress<V>, b: ByThinAddress<V>)
    ensures
        a.0.addr != b.0.addr ==> !same_data_address(a, b),
{
}

/// Law: shared-ownership identity.  Two wrappers over pointers that carry
/// one handle's fingerprint — as the clones of one shared-ownership pointer
/// do — compare equal.
pub proof fn lemma_thin_shared_ownership<V>(p: Pointer<V>, a: ByThinAddress<V>, b: ByThinAddress<V>)
    requires
        a.0.addr == p.addr,
        b.0.addr == p.addr,
    ensures
        same_data_address(a, b),
{
}

/// Law: full-fingerprint equality refines data-address equality: whatever
/// `ByAddress` considers equal, `ByThinAddress` considers equal too.
pub proof fn lemma_full_refines_thin<V>(p: Pointer<V>, q: Pointer<V>)
    ensures
        same_full_fingerprint(ByAddress(p), ByAddress(q)) ==> same_data_address(
            ByThinAddress(p),
            ByThinAddress(q),
        ),
{
}

/// Law: on thin pointers the two wrapper flavours agree.  When neither
/// pointer carries a secondary word, full-fingerprint equality and
/// data-address equality coincide.
pub proof fn lemma_wrappers_agree_on_thin<V>(p: Pointer<V>, q: Pointer<V>)
    requires
        p.meta is None,
        q.meta is None,
    ensures
        same_full_fingerprint(ByAddress(p), ByAddress(q)) <==> same_data_address(
            ByThinAddress(p),
            ByThinAddress(q),
        ),
{
}

} // verus!
