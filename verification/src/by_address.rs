use vstd::prelude::*;

use core::cmp::Ordering;

use crate::pointer::Pointer;
use crate::render::RenderPointee;
use crate::render::pointee_at_addr;
use crate::render::pointee_at_addr_chars;

verus! {

/// Wrapper for pointer values that implements by-address comparison.
///
/// Equality, ordering, and hashing use the full pointer fingerprint: the data
/// address and, for a fat pointer, the secondary word too.  Two slice views
/// are equal only if they start at the same address and have the same length;
/// two trait-object references are equal only if they agree on the data
/// address and on the dispatch-table address.  The pointee's own equality,
/// ordering, and hash are never consulted.
#[derive(Debug, Copy)]
pub struct ByAddress<V>(pub Pointer<V>);

/// Whether two wrapped pointers carry the same full fingerprint: equal data
/// addresses and equal secondary words.  This is what `==` on `ByAddress`
/// means.
pub open spec fn same_full_fingerprint<V>(a: ByAddress<V>, b: ByAddress<V>) -> bool {
    a.0.addr == b.0.addr && a.0.meta == b.0.meta
}

/// The total order on secondary words that breaks ties between equal data
/// addresses: a thin pointer sorts before any fat pointer, and fat pointers
/// sort by their secondary word.
pub open spec fn meta_order(a: Option<usize>, b: Option<usize>) -> Ordering {
    match (a, b) {
        (Option::None, Option::None) => Ordering::Equal,
        (Option::None, Option::Some(_)) => Ordering::Less,
        (Option::Some(_), Option::None) => Ordering::Greater,
        (Option::Some(x), Option::Some(y)) => if x < y {
            Ordering::Less
        } else if x > y {
            Ordering::Greater
        } else {
            Ordering::Equal
        },
    }
}

/// The total order on full pointer fingerprints: the data address dominates,
/// and ties are broken by the secondary word.
pub open spec fn full_order<V>(a: ByAddress<V>, b: ByAddress<V>) -> Ordering {
    if a.0.addr < b.0.addr {
        Ordering::Less
    } else if a.0.addr > b.0.addr {
        Ordering::Greater
    } else {
        meta_order(a.0.meta, b.0.meta)
    }
}

/// The hash of a full pointer fingerprint: the data address, folded with the
/// secondary word (rotated so that a slice length does not cancel against a
/// nearby address) when one is present.
pub open spec fn full_hash(addr: usize, meta: Option<usize>) -> u64 {
    match meta {
        Option::None => addr as u64,
        Option::Some(w) => (addr as u64) ^ (((w as u64) << 17) | ((w as u64) >> 47)),
    }
}

impl<V> ByAddress<V> {
    /// The data address of the wrapped pointer.
    pub fn addr(&self) -> (a: usize)
        ensures
            a == self.0.addr,
    {
        self.0.addr
    }

    /// Compare two wrapped pointers by their full fingerprint.
    pub fn cmp(&self, other: &Self) -> (r: Ordering)
        ensures
            r == full_order(*self, *other),
    {
        if self.0.addr < other.0.addr {
            Ordering::Less
        } else if self.0.addr > other.0.addr {
            Ordering::Greater
        } else {
            match (self.0.meta, other.0.meta) {
                (Option::None, Option::None) => Ordering::Equal,
                (Option::None, Option::Some(_)) => Ordering::Less,
                (Option::Some(_), Option::None) => Ordering::Greater,
                (Option::Some(x), Option::Some(y)) => if x < y {
                    Ordering::Less
                } else if x > y {
                    Ordering::Greater
                } else {
                    Ordering::Equal
                },
            }
        }
    }

    /// Hash the full pointer fingerprint into one word.
    pub fn hash(&self) -> (r: u64)
        ensures
            r == full_hash(self.0.addr, self.0.meta),
    {
        match self.0.meta {
            Option::None => self.0.addr as u64,
            Option::Some(w) => (self.0.addr as u64) ^ (((w as u64) << 17) | ((w as u64) >> 47)),
        }
    }

    /// Dereference to the wrapped pointer, exactly as stored.
    pub fn deref(&self) -> (r: &Pointer<V>)
        ensures
            *r == self.0,
    {
        &self.0
    }

    /// Dereference to the wrapped pointer exclusively.
    pub fn deref_mut(&mut self) -> (r: &mut Pointer<V>)
        ensures
            *r == old(self).0,
            *final(self) == (ByAddress(*final(r))),
    {
        &mut self.0
    }

    /// Project to the pointee, delegating to the wrapped pointer's own
    /// borrow: the same storage the pointer itself gives access to.
    pub fn as_ref(&self) -> (r: &V)
        ensures
            *r == self.0.value,
    {
        self.0.borrow()
    }

    /// Project to the pointee exclusively, delegating to the wrapped pointer.
    pub fn as_mut(&mut self) -> (r: &mut V)
        ensures
            *r == old(self).0.value,
            final(self).0.addr == old(self).0.addr,
            final(self).0.meta == old(self).0.meta,
            final(self).0.value == *final(r),
    {
        self.0.borrow_mut()
    }
}

/// The debug rendering of a `ByAddress` wrapper: the tag, then the pointee's
/// rendering next to its data address.
pub open spec fn by_address_debug_chars<V: RenderPointee>(a: ByAddress<V>) -> Seq<char> {
    "ByAddress("@ + pointee_at_addr_chars(a.0.value.repr(), a.0.addr as nat) + ")"@
}

impl<V: RenderPointee> ByAddress<V> {
    /// Debug rendering: `ByAddress(<pointee> @ <address>)`.
    pub fn debug_string(&self) -> (s: String)
        ensures
            s@ == by_address_debug_chars(*self),
    {
        let mut s = String::from_str("ByAddress(");
        let v = self.0.value.render();
        let body = pointee_at_addr(v.as_str(), self.0.addr);
        s.append(body.as_str());
        s.append(")");
        proof {
            assert(s@ =~= by_address_debug_chars(*self));
        }
        s
    }

    /// Display rendering: delegated verbatim to the pointee.
    pub fn display_string(&self) -> (s: String)
        ensures
            s@ == self.0.value.repr(),
    {
        self.0.value.render()
    }
}

impl<V> PartialEq for ByAddress<V> {
    fn eq(&self, other: &Self) -> bool {
        let addr_eq = self.0.addr == other.0.addr;
        let meta_eq = match (self.0.meta, other.0.meta) {
            (Option::None, Option::None) => true,
            (Option::Some(x), Option::Some(y)) => x == y,
            _ => false,
        };
        addr_eq && meta_eq
    }
}

impl<V> vstd::std_specs::cmp::PartialEqSpecImpl for ByAddress<V> {
    open spec fn obeys_eq_spec() -> bool {
        true
    }

    open spec fn eq_spec(&self, other: &Self) -> bool {
        same_full_fingerprint(*self, *other)
    }
}

impl<V> Eq for ByAddress<V> {}

impl<V> PartialOrd for ByAddress<V> {
    fn partial_cmp(&self, other: &Self) -> Option<Ordering> {
        Some(self.cmp(other))
    }
}

impl<V> vstd::std_specs::cmp::PartialOrdSpecImpl for ByAddress<V> {
    open spec fn obeys_partial_cmp_spec() -> bool {
        true
    }

    open spec fn partial_cmp_spec(&self, other: &Self) -> Option<Ordering> {
        Some(full_order(*self, *other))
    }
}

impl<V> From<Pointer<V>> for ByAddress<V> {
    fn from(p: Pointer<V>) -> ByAddress<V> {
        ByAddress(p)
    }
}

impl<V> vstd::std_specs::convert::FromSpecImpl<Pointer<V>> for ByAddress<V> {
    open spec fn obeys_from_spec() -> bool {
        true
    }

    open spec fn from_spec(p: Pointer<V>) -> Self {
        ByAddress(p)
    }
}

impl<V: Clone> Clone for ByAddress<V> {
    /// Cloning keeps the fingerprint, so a clone is equal to its original.
    fn clone(&self) -> (r: Self)
        ensures
            r.0.addr == self.0.addr,
            r.0.meta == self.0.meta,
            same_full_fingerprint(r, *self),
    {
        ByAddress(self.0.clone())
    }
}

/// Law: by-address equality is reflexive.
pub proof fn lemma_eq_reflexive<V>(a: ByAddress<V>)
    ensures
        same_full_fingerprint(a, a),
{
}

/// Law: by-address equality is symmetric.
pub proof fn lemma_eq_symmetric<V>(a: ByAddress<V>, b: ByAddress<V>)
    ensures
        same_full_fingerprint(a, b) <==> same_full_fingerprint(b, a),
{
}

/// Law: by-address equality is transitive.
pub proof fn lemma_eq_transitive<V>(a: ByAddress<V>, b: ByAddress<V>, c: ByAddress<V>)
    ensures
        same_full_fingerprint(a, b) && same_full_fingerprint(b, c) ==> same_full_fingerprint(a, c),
{
}

/// Law: the by-address order is a total order: it is reflexive (every value
/// compares equal to itself), it compares equal exactly on equal
/// fingerprints, it is antisymmetric, and it is transitive.
pub proof fn lemma_order_total<V>(a: ByAddress<V>, b: ByAddress<V>, c: ByAddress<V>)
    ensures
        full_order(a, a) == Ordering::Equal,
        full_order(a, b) == Ordering::Equal <==> same_full_fingerprint(a, b),
        full_order(a, b) == Ordering::Less <==> full_order(b, a) == Ordering::Greater,
        full_order(a, b) == Ordering::Less && full_order(b, c) == Ordering::Less ==> full_order(
            a,
            c,
        ) == Ordering::Less,
{
}

/// Law: equal wrappers hash equal, so the wrapper is fit to key a hashed
/// container.
pub proof fn lemma_hash_consistent<V>(a: ByAddress<V>, b: ByAddress<V>)
    ensures
        same_full_fingerprint(a, b) ==> full_hash(a.0.addr, a.0.meta) == full_hash(
            b.0.addr,
            b.0.meta,
        ),
{
}

/// Law: identity is the address, not the pointee's value.  Pointers to
/// distinct addresses compare unequal whatever their pointees hold.
pub proof fn lemma_address_identity<V>(a: ByAddress<V>, b: ByAddress<V>)
    ensures
        a.0.addr != b.0.addr ==> !same_full_fingerprint(a, b),
{
}

/// Law: shared-ownership identity.  Two wrappers over pointers that carry
/// one handle's fingerprint — as the clones of one shared-ownership pointer
/// do — compare equal.
pub proof fn lemma_shared_ownership<V>(p: Pointer<V>, a: ByAddress<V>, b: ByAddress<V>)
    requires
        a.0.addr == p.addr,
        a.0.meta == p.meta,
        b.0.addr == p.addr,
        b.0.meta == p.meta,
    ensures
        same_full_fingerprint(a, b),
{
}

} // verus!
