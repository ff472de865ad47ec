use std::ops::{Add, Div, Mul, Neg, Sub};
use vstd::prelude::*;
use vstd::std_specs::ops::{AddSpec, DivSpec, MulSpec, NegSpec, SubSpec};

verus! {

/// The two distinguished constants of a scalar type: its additive identity
/// and its multiplicative identity.
pub trait ZeroOne: Sized {
    /// The additive identity of the type.
    spec fn spec_zero() -> Self;

    /// The multiplicative identity of the type.
    spec fn spec_one() -> Self;

    fn zero() -> (r: Self)
        ensures
            r == Self::spec_zero(),
    ;

    fn one() -> (r: Self)
        ensures
            r == Self::spec_one(),
    ;
}

impl ZeroOne for i32 {
    open spec fn spec_zero() -> i32 {
        0
    }

    open spec fn spec_one() -> i32 {
        1
    }

    fn zero() -> (r: i32) {
        0
    }

    fn one() -> (r: i32) {
        1
    }
}

/// An element of a field-like structure: a single scalar of type `T`,
/// with the four arithmetic operations, both identities and both inverses
/// taken from `T`.
#[derive(Debug, PartialEq, Clone, Copy)]
pub struct FieldElement<T> {
    element: T,
}

impl<T> View for FieldElement<T> {
    type V = T;

    /// The scalar held by this element.
    closed spec fn view(&self) -> T {
        self.element
    }
}

impl<T> FieldElement<T> {
    /// The element that holds `element`.
    pub closed spec fn wrap(element: T) -> Self {
        FieldElement { element }
    }

    /// Whether this is the zero element, the one holding `T`'s zero.
    pub open spec fn is_zero(self) -> bool
        where
            T: ZeroOne,
    {
        self@ == T::spec_zero()
    }

    /// An element is determined by the scalar it holds.
    pub proof fn lemma_wrap_view(self, element: T)
        ensures
            Self::wrap(element)@ == element,
            Self::wrap(self@) == self,
    {
    }
}

impl<T> FieldElement<T> where
    T: Add<Output = T> + Sub<Output = T> + Mul<Output = T> + Div<Output = T> + Neg<Output = T>
        + PartialEq + Copy + ZeroOne,
 {
    /// The element holding `element`.
    pub fn new(element: T) -> (r: FieldElement<T>)
        ensures
            r == Self::wrap(element),
            r@ == element,
    {
        FieldElement { element }
    }

    /// The additive identity: the element holding `T`'s zero.
    pub fn identity_add() -> (r: FieldElement<T>)
        ensures
            r == Self::wrap(T::spec_zero()),
            r@ == T::spec_zero(),
    {
        FieldElement { element: T::zero() }
    }

    /// The multiplicative identity: the element holding `T`'s one.
    pub fn identity_mul() -> (r: FieldElement<T>)
        ensures
            r == Self::wrap(T::spec_one()),
            r@ == T::spec_one(),
    {
        FieldElement { element: T::one() }
    }

    /// The additive inverse: the element holding the negation of this one's scalar.
    pub fn inverse_add(&self) -> (r: FieldElement<T>)
        requires
            self@.neg_req(),
        ensures
            T::obeys_neg_spec() ==> r@ == self@.neg_spec(),
    {
        FieldElement { element: self.element.neg() }
    }

    /// The multiplicative inverse: the element holding one divided by this
    /// one's scalar. The zero element has none.
    pub fn inverse_mul(&self) -> (r: FieldElement<T>)
        requires
            !self.is_zero(),
            T::spec_one().div_req(self@),
        ensures
            T::obeys_div_spec() ==> r@ == T::spec_one().div_spec(self@),
    {
        FieldElement { element: T::one() / self.element }
    }
}

impl<T: Add<Output = T>> vstd::std_specs::ops::AddSpecImpl for FieldElement<T> {
    open spec fn obeys_add_spec() -> bool {
        T::obeys_add_spec()
    }

    open spec fn add_req(self, rhs: Self) -> bool {
        self@.add_req(rhs@)
    }

    open spec fn add_spec(self, rhs: Self) -> Self {
        Self::wrap(self@.add_spec(rhs@))
    }
}

impl<T: Add<Output = T>> Add for FieldElement<T> {
    type Output = FieldElement<T>;

    fn add(self, other: FieldElement<T>) -> (r: FieldElement<T>)
        ensures
            T::obeys_add_spec() ==> r@ == self@.add_spec(other@),
    {
        FieldElement { element: self.element + other.element }
    }
}

impl<T: Sub<Output = T>> vstd::std_specs::ops::SubSpecImpl for FieldElement<T> {
    open spec fn obeys_sub_spec() -> bool {
        T::obeys_sub_spec()
    }

    open spec fn sub_req(self, rhs: Self) -> bool {
        self@.sub_req(rhs@)
    }

    open spec fn sub_spec(self, rhs: Self) -> Self {
        Self::wrap(self@.sub_spec(rhs@))
    }
}

impl<T: Sub<Output = T>> Sub for FieldElement<T> {
    type Output = FieldElement<T>;

    fn sub(self, other: FieldElement<T>) -> (r: FieldElement<T>)
        ensures
            T::obeys_sub_spec() ==> r@ == self@.sub_spec(other@),
    {
        FieldElement { element: self.element - other.element }
    }
}

impl<T: Mul<Output = T>> vstd::std_specs::ops::MulSpecImpl for FieldElement<T> {
    open spec fn obeys_mul_spec() -> bool {
        T::obeys_mul_spec()
    }

    open spec fn mul_req(self, rhs: Self) -> bool {
        self@.mul_req(rhs@)
    }

    open spec fn mul_spec(self, rhs: Self) -> Self {
        Self::wrap(self@.mul_spec(rhs@))
    }
}

impl<T: Mul<Output = T>> Mul for FieldElement<T> {
    type Output = FieldElement<T>;

    fn mul(self, other: FieldElement<T>) -> (r: FieldElement<T>)
        ensures
            T::obeys_mul_spec() ==> r@ == self@.mul_spec(other@),
    {
        FieldElement { element: self.element * other.element }
    }
}

impl<T: Div<Output = T> + PartialEq + ZeroOne> vstd::std_specs::ops::DivSpecImpl for FieldElement<T> {
    open spec fn obeys_div_spec() -> bool {
        T::obeys_div_spec()
    }

    /// Division by the zero element is refused.
    open spec fn div_req(self, rhs: Self) -> bool {
        &&& !rhs.is_zero()
        &&& self@.div_req(rhs@)
    }

    open spec fn div_spec(self, rhs: Self) -> Self {
        Self::wrap(self@.div_spec(rhs@))
    }
}

impl<T: Div<Output = T> + PartialEq + ZeroOne> Div for FieldElement<T> {
    type Output = FieldElement<T>;

    fn div(self, other: FieldElement<T>) -> (r: FieldElement<T>)
        ensures
            T::obeys_div_spec() ==> r@ == self@.div_spec(other@),
    {
        FieldElement { element: self.element / other.element }
    }
}

/// The sum of two integer elements is again an element: the one holding
/// the sum of their scalars, whenever that sum fits in an `i32`.
pub proof fn lemma_field_add_closed(a: i32, b: i32)
    requires
        i32::MIN <= a + b <= i32::MAX,
    ensures
        FieldElement::wrap(a).add_req(FieldElement::wrap(b)),
        FieldElement::wrap(a).add_spec(FieldElement::wrap(b)) == FieldElement::wrap((a + b) as i32),
{
}

/// Adding the additive identity on either side leaves an integer element unchanged.
pub proof fn lemma_field_additive_identity(a: i32)
    ensures
        FieldElement::wrap(a).add_req(FieldElement::wrap(i32::spec_zero())),
        FieldElement::wrap(a).add_spec(FieldElement::wrap(i32::spec_zero())) == FieldElement::wrap(a),
        FieldElement::wrap(i32::spec_zero()).add_req(FieldElement::wrap(a)),
        FieldElement::wrap(i32::spec_zero()).add_spec(FieldElement::wrap(a)) == FieldElement::wrap(a),
{
}

/// Multiplying by the multiplicative identity on either side leaves an
/// integer element unchanged.
pub proof fn lemma_field_multiplicative_identity(a: i32)
    ensures
        FieldElement::wrap(a).mul_req(FieldElement::wrap(i32::spec_one())),
        FieldElement::wrap(a).mul_spec(FieldElement::wrap(i32::spec_one())) == FieldElement::wrap(a),
        FieldElement::wrap(i32::spec_one()).mul_req(FieldElement::wrap(a)),
        FieldElement::wrap(i32::spec_one()).mul_spec(FieldElement::wrap(a)) == FieldElement::wrap(a),
{
}

/// An integer element plus its additive inverse is the additive identity.
/// The inverse exists for every `i32` but the smallest, whose negation
/// does not fit.
pub proof fn lemma_field_additive_inverse(a: i32)
    requires
        a != i32::MIN,
    ensures
        a.neg_req(),
        FieldElement::wrap(a).add_req(FieldElement::wrap(a.neg_spec())),
        FieldElement::wrap(a).add_spec(FieldElement::wrap(a.neg_spec())) == FieldElement::wrap(
            i32::spec_zero(),
        ),
{
}

/// An integer element times its multiplicative inverse is the
/// multiplicative identity, for the two units `1` and `-1`. Integer
/// division truncates, so for every other nonzero scalar the inverse is
/// the zero element.
pub proof fn lemma_field_multiplicative_inverse(a: i32)
    requires
        a == 1 || a == -1,
    ensures
        !FieldElement::wrap(a).is_zero(),
        i32::spec_one().div_req(a),
        i32::spec_one().div_spec(a) == a,
        FieldElement::wrap(a).mul_req(FieldElement::wrap(i32::spec_one().div_spec(a))),
        FieldElement::wrap(a).mul_spec(FieldElement::wrap(i32::spec_one().div_spec(a)))
            == FieldElement::wrap(i32::spec_one()),
{
    assert(1int / -1int == -1) by (nonlinear_arith);
}

/// No element may be divided by the zero element: the division's
/// precondition fails for every dividend.
pub proof fn lemma_div_by_zero_refused<T>(a: FieldElement<T>)
    where
        T: Div<Output = T> + PartialEq + ZeroOne,
    ensures
        !a.div_req(FieldElement::wrap(T::spec_zero())),
{
}

/// The zero element has no multiplicative inverse: it is exactly what the
/// precondition of `inverse_mul` excludes.
pub proof fn lemma_zero_has_no_inverse<T: ZeroOne>()
    ensures
        FieldElement::<T>::wrap(T::spec_zero()).is_zero(),
{
}

} // verus!
