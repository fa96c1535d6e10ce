//! A minimal two-variant sum type.
//!
//! [`Or<A, B>`] holds exactly one value, either of type `A` or of type `B`,
//! with no success/failure reading attached to either side. Its whole surface
//! is: construction of one variant, variant inspection, conversion to an
//! `Option` per variant, borrowed views, and swapping the variant order.
//! Every operation is a total match over the two cases; none can panic.

use vstd::prelude::*;

verus! {

/// A closed choice between a value of type `A` and a value of type `B`.
///
/// Much of the functionality of `Result` and `Option` is deliberately not
/// duplicated here: an `Option` is always a call away through the [`a`](Or::a)
/// and [`b`](Or::b) methods, combined with [`as_ref`](Or::as_ref) and
/// [`as_mut`](Or::as_mut) for the borrowed forms.
#[derive(Debug, PartialEq, Eq, Hash, Clone, PartialOrd, Ord)]
pub enum Or<A, B> {
    /// One variant
    A(A),
    /// Another variant
    B(B),
}

impl<A, B> Or<A, B> {
    /// The payload of variant `A`, when `A` is the active variant.
    pub open spec fn spec_a(self) -> Option<A> {
        match self {
            Or::A(x) => Some(x),
            Or::B(_) => None,
        }
    }

    /// The payload of variant `B`, when `B` is the active variant.
    pub open spec fn spec_b(self) -> Option<B> {
        match self {
            Or::A(_) => None,
            Or::B(x) => Some(x),
        }
    }

    /// The same choice with the variant roles exchanged.
    pub open spec fn spec_swap(self) -> Or<B, A> {
        match self {
            Or::A(x) => Or::B(x),
            Or::B(x) => Or::A(x),
        }
    }

    /// Returns true if the `Or` is `A`.
    ///
    /// Deliberately answered through the same borrowing path as
    /// [`a`](Or::a), not by an independent tag read, so that this check and
    /// the projection can never disagree.
    pub fn is_a(&self) -> (r: bool)
        ensures
            r <==> self is A,
    {
        self.as_ref().a().is_some()
    }

    /// Returns true if the `Or` is `B`.
    ///
    /// Always the complement of [`is_a`](Or::is_a): exactly one of the two
    /// holds for any value.
    pub fn is_b(&self) -> (r: bool)
        ensures
            r <==> self is B,
    {
        self.as_ref().b().is_some()
    }

    /// Converts from `Or<A, B>` to `Option<A>`.
    ///
    /// Consumes `self` and discards the `B` payload, if any.
    pub fn a(self) -> (r: Option<A>)
        ensures
            r == self.spec_a(),
    {
        match self {
            Or::A(x) => Some(x),
            Or::B(_) => None,
        }
    }

    /// Converts from `Or<A, B>` to `Option<B>`.
    ///
    /// Consumes `self` and discards the `A` payload, if any.
    pub fn b(self) -> (r: Option<B>)
        ensures
            r == self.spec_b(),
    {
        match self {
            Or::A(_) => None,
            Or::B(x) => Some(x),
        }
    }

    /// Converts from `&Or<A, B>` to `Or<&A, &B>`.
    ///
    /// The returned `Or` holds references into the existing one, which is
    /// left in place, unmodified and still owned by the caller.
    pub fn as_ref(&self) -> (r: Or<&A, &B>)
        ensures
            r is A <==> self is A,
            r is B <==> self is B,
            self is A ==> *r->A_0 == self->A_0,
            self is B ==> *r->B_0 == self->B_0,
    {
        match self {
            Or::A(x) => Or::A(x),
            Or::B(x) => Or::B(x),
        }
    }

    /// Converts from `&mut Or<A, B>` to `Or<&mut A, &mut B>`.
    ///
    /// The returned `Or` holds an exclusive reference to the payload of the
    /// existing one, which is left in place: the active variant never
    /// changes, and whatever the caller writes through the reference is the
    /// payload the original holds afterward.
    pub fn as_mut(&mut self) -> (r: Or<&mut A, &mut B>)
        ensures
            (match *old(self) {
                Or::A(x) => r is A && *r->A_0 == x && *final(self) == Or::<A, B>::A(
                    *final(r->A_0),
                ),
                Or::B(x) => r is B && *r->B_0 == x && *final(self) == Or::<A, B>::B(
                    *final(r->B_0),
                ),
            }),
    {
        match self {
            Or::A(x) => Or::A(x),
            Or::B(x) => Or::B(x),
        }
    }

    /// Converts from `Or<A, B>` to `Or<B, A>`.
    ///
    /// Consumes `self` and returns a new `Or` with the variant roles
    /// exchanged: a former `A` payload sits in the `B` slot and vice versa.
    pub fn swap(self) -> (r: Or<B, A>)
        ensures
            r == self.spec_swap(),
    {
        match self {
            Or::A(x) => Or::B(x),
            Or::B(x) => Or::A(x),
        }
    }
}

/// Exactly one variant is active at any time: a value is `A` precisely when
/// it is not `B`.
pub proof fn lemma_exactly_one_variant<A, B>(v: Or<A, B>)
    ensures
        v is A <==> !(v is B),
{
}

/// Constructing variant `A` yields a value that is `A` and not `B`, whose
/// `A` projection is the given payload and whose `B` projection is empty.
pub proof fn lemma_construct_a<A, B>(a: A)
    ensures
        Or::<A, B>::A(a) is A,
        !(Or::<A, B>::A(a) is B),
        Or::<A, B>::A(a).spec_a() == Some(a),
        Or::<A, B>::A(a).spec_b() == None::<B>,
{
}

/// Constructing variant `B` yields a value that is `B` and not `A`, whose
/// `B` projection is the given payload and whose `A` projection is empty.
pub proof fn lemma_construct_b<A, B>(b: B)
    ensures
        Or::<A, B>::B(b) is B,
        !(Or::<A, B>::B(b) is A),
        Or::<A, B>::B(b).spec_b() == Some(b),
        Or::<A, B>::B(b).spec_a() == None::<A>,
{
}

/// Values of distinct variants are never structurally equal, even when the
/// payload values are.
pub proof fn lemma_distinct_variants_unequal<A, B>(a: A, b: B)
    ensures
        Or::<A, B>::A(a) != Or::<A, B>::B(b),
{
}

/// Swapping exchanges the tags and keeps the payload: an `A` payload moves
/// to the `B` slot unchanged, and a `B` payload to the `A` slot.
pub proof fn lemma_swap_exchanges_variants<A, B>(a: A, b: B)
    ensures
        Or::<A, B>::A(a).spec_swap() == Or::<B, A>::B(a),
        Or::<A, B>::B(b).spec_swap() == Or::<B, A>::A(b),
{
}

/// Swapping is an involution: swapping any value twice gives back a value
/// structurally equal to the original.
pub proof fn lemma_swap_involution<A, B>(v: Or<A, B>)
    ensures
        v.spec_swap().spec_swap() == v,
{
}

} // verus!
