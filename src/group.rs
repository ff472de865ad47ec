use std::ops::{Add, Mul, Neg};
use vstd::prelude::*;
use vstd::std_specs::ops::{AddSpec, MulSpec, NegSpec};

verus! {

/// An element of a group-like structure: a single scalar of type `T`,
/// combined by delegating each operation to `T` itself.
#[derive(Debug, PartialEq, Clone, Copy)]
pub struct GroupElement<T> {
    element: T,
}

impl<T> View for GroupElement<T> {
    type V = T;

    /// The scalar held by this element.
    closed spec fn view(&self) -> T {
        self.element
    }
}

impl<T> GroupElement<T> {
    /// The element that holds `element`.
    pub closed spec fn wrap(element: T) -> Self {
        GroupElement { element }
    }

    /// An element is determined by the scalar it holds.
    pub proof fn lemma_wrap_view(self, element: T)
        ensures
            Self::wrap(element)@ == element,
            Self::wrap(self@) == self,
    {
    }

    /// The element holding `element`.
    pub fn new(element: T) -> (r: Self)
        ensures
            r == Self::wrap(element),
            r@ == element,
    {
        GroupElement { element }
    }
}

impl<T: Add<Output = T>> vstd::std_specs::ops::AddSpecImpl for GroupElement<T> {
    open spec fn obeys_add_spec() -> bool {
        T::obeys_add_spec()
    }

    open spec fn add_req(self, rhs: Self) -> bool {
        self@.add_req(rhs@)
    }

    open spec fn add_spec(self, rhs: Self) -> Self {
        Self::wrap(self@.add_spec(rhs@))
    }
}

impl<T: Add<Output = T>> Add for GroupElement<T> {
    type Output = Self;

    fn add(self, other: Self) -> (r: Self)
        ensures
            T::obeys_add_spec() ==> r@ == self@.add_spec(other@),
    {
        GroupElement::new(self.element + other.element)
    }
}

impl<T: Mul<Output = T>> vstd::std_specs::ops::MulSpecImpl for GroupElement<T> {
    open spec fn obeys_mul_spec() -> bool {
        T::obeys_mul_spec()
    }

    open spec fn mul_req(self, rhs: Self) -> bool {
        self@.mul_req(rhs@)
    }

    open spec fn mul_spec(self, rhs: Self) -> Self {
        Self::wrap(self@.mul_spec(rhs@))
    }
}

impl<T: Mul<Output = T>> Mul for GroupElement<T> {
    type Output = Self;

    fn mul(self, other: Self) -> (r: Self)
        ensures
            T::obeys_mul_spec() ==> r@ == self@.mul_spec(other@),
    {
        GroupElement::new(self.element * other.element)
    }
}

impl<T: Neg<Output = T>> vstd::std_specs::ops::NegSpecImpl for GroupElement<T> {
    open spec fn obeys_neg_spec() -> bool {
        T::obeys_neg_spec()
    }

    open spec fn neg_req(self) -> bool {
        self@.neg_req()
    }

    open spec fn neg_spec(self) -> Self {
        Self::wrap(self@.neg_spec())
    }
}

impl<T: Neg<Output = T>> Neg for GroupElement<T> {
    type Output = Self;

    fn neg(self) -> (r: Self)
        ensures
            T::obeys_neg_spec() ==> r@ == self@.neg_spec(),
    {
        GroupElement::new(self.element.neg())
    }
}

impl<T: Default> Default for GroupElement<T> {
    /// The element holding `T`'s default value.
    fn default() -> (r: Self)
        ensures
            call_ensures(T::default, (), r@),
    {
        GroupElement::new(T::default())
    }
}

/// The sum of two integer elements is again an element: the one holding
/// the sum of their scalars, whenever that sum fits in an `i32`.
pub proof fn lemma_group_add_closed(a: i32, b: i32)
    requires
        i32::MIN <= a + b <= i32::MAX,
    ensures
        GroupElement::wrap(a).add_req(GroupElement::wrap(b)),
        GroupElement::wrap(a).add_spec(GroupElement::wrap(b)) == GroupElement::wrap((a + b) as i32),
{
}

/// Addition of integer elements is associative, wherever both groupings
/// stay within `i32`.
pub proof fn lemma_group_add_associative(a: i32, b: i32, c: i32)
    requires
        i32::MIN <= a + b <= i32::MAX,
        i32::MIN <= b + c <= i32::MAX,
        i32::MIN <= a + b + c <= i32::MAX,
    ensures
        ({
            let (x, y, z) = (GroupElement::wrap(a), GroupElement::wrap(b), GroupElement::wrap(c));
            &&& x.add_req(y)
            &&& x.add_spec(y).add_req(z)
            &&& y.add_req(z)
            &&& x.add_req(y.add_spec(z))
            &&& x.add_spec(y).add_spec(z) == x.add_spec(y.add_spec(z))
        }),
{
}

/// The default integer element is the additive identity, on either side.
pub proof fn lemma_group_default_is_identity(a: i32, d: GroupElement<i32>)
    requires
        call_ensures(i32::default, (), d@),
    ensures
        GroupElement::wrap(a).add_req(d),
        GroupElement::wrap(a).add_spec(d) == GroupElement::wrap(a),
        d.add_req(GroupElement::wrap(a)),
        d.add_spec(GroupElement::wrap(a)) == GroupElement::wrap(a),
{
}

/// Multiplying an integer element by the one holding `1`, on either side,
/// leaves it unchanged.
pub proof fn lemma_group_multiplicative_identity(a: i32)
    ensures
        GroupElement::wrap(a).mul_req(GroupElement::wrap(1i32)),
        GroupElement::wrap(a).mul_spec(GroupElement::wrap(1i32)) == GroupElement::wrap(a),
        GroupElement::wrap(1i32).mul_req(GroupElement::wrap(a)),
        GroupElement::wrap(1i32).mul_spec(GroupElement::wrap(a)) == GroupElement::wrap(a),
{
}

/// An integer element plus its negation is the element holding `0`. Every
/// `i32` but the smallest, whose negation does not fit, has a negation.
pub proof fn lemma_group_additive_inverse(a: i32)
    requires
        a != i32::MIN,
    ensures
        GroupElement::wrap(a).neg_req(),
        GroupElement::wrap(a).add_req(GroupElement::wrap(a).neg_spec()),
        GroupElement::wrap(a).add_spec(GroupElement::wrap(a).neg_spec()) == GroupElement::wrap(0i32),
{
}

} // verus!
