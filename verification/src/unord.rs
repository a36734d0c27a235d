//! A vector whose equality ignores the order of its elements.

use vstd::prelude::*;
use vstd::std_specs::cmp::PartialEqSpec;
use vstd::std_specs::cmp::PartialEqSpecImpl;
use vstd::std_specs::convert::FromSpecImpl;

verus! {

/// `x` equals some element of `s`, by the element type's own equality.
pub open spec fn holds<T: PartialEq>(s: Seq<T>, x: T) -> bool {
    exists|j: int| 0 <= j < s.len() && (#[trigger] s[j]).eq_spec(&x)
}

/// Every element of `a` equals some element of `b`.
pub open spec fn covered_by<T: PartialEq>(a: Seq<T>, b: Seq<T>) -> bool {
    forall|i: int| 0 <= i < a.len() ==> holds(b, #[trigger] a[i])
}

/// Equality up to order and repetition: each side is covered by the other.
pub open spec fn unordered_eq<T: PartialEq>(a: Seq<T>, b: Seq<T>) -> bool {
    covered_by(a, b) && covered_by(b, a)
}

/// Vector wrapper that compares equal to another when both hold the same
/// elements, whatever their order.
#[derive(Debug, Eq)]
pub struct UnordEqVec<T: PartialEq>(pub Vec<T>);

impl<T: PartialEq> View for UnordEqVec<T> {
    type V = Seq<T>;

    open spec fn view(&self) -> Seq<T> {
        self.0@
    }
}

/// Whether `v` holds an element equal to `x`.
pub fn vec_holds<T: PartialEq>(v: &Vec<T>, x: &T) -> (r: bool)
    ensures
        T::obeys_eq_spec() ==> r == holds(v@, *x),
{
    let mut j: usize = 0;
    while j < v.len()
        invariant
            j <= v.len(),
            T::obeys_eq_spec() ==> forall|k: int| 0 <= k < j ==> !(#[trigger] v@[k]).eq_spec(x),
        decreases v.len() - j,
    {
        if v[j] == *x {
            return true;
        }
        j += 1;
    }
    false
}

/// Whether every element of `a` equals some element of `b`.
pub fn vec_covered_by<T: PartialEq>(a: &Vec<T>, b: &Vec<T>) -> (r: bool)
    ensures
        T::obeys_eq_spec() ==> r == covered_by(a@, b@),
{
    let mut i: usize = 0;
    while i < a.len()
        invariant
            i <= a.len(),
            T::obeys_eq_spec() ==> forall|k: int| 0 <= k < i ==> holds(b@, #[trigger] a@[k]),
        decreases a.len() - i,
    {
        if !vec_holds(b, &a[i]) {
            return false;
        }
        i += 1;
    }
    true
}

impl<T: PartialEq> PartialEqSpecImpl for UnordEqVec<T> {
    open spec fn obeys_eq_spec() -> bool {
        T::obeys_eq_spec()
    }

    open spec fn eq_spec(&self, other: &Self) -> bool {
        unordered_eq(self@, other@)
    }
}

impl<T: PartialEq> PartialEq for UnordEqVec<T> {
    fn eq(&self, other: &Self) -> (r: bool) {
        vec_covered_by(&self.0, &other.0) && vec_covered_by(&other.0, &self.0)
    }
}

impl<T: PartialEq> Default for UnordEqVec<T> {
    fn default() -> (r: Self)
        ensures
            r@ == Seq::<T>::empty(),
    {
        UnordEqVec(Vec::new())
    }
}

impl<T: PartialEq> FromSpecImpl<Vec<T>> for UnordEqVec<T> {
    open spec fn obeys_from_spec() -> bool {
        true
    }

    open spec fn from_spec(value: Vec<T>) -> Self {
        UnordEqVec(value)
    }
}

impl<T: PartialEq> From<Vec<T>> for UnordEqVec<T> {
    fn from(value: Vec<T>) -> (r: Self) {
        UnordEqVec(value)
    }
}

impl<T: PartialEq> FromSpecImpl<UnordEqVec<T>> for Vec<T> {
    open spec fn obeys_from_spec() -> bool {
        true
    }

    open spec fn from_spec(value: UnordEqVec<T>) -> Self {
        value.0
    }
}

impl<T: PartialEq> From<UnordEqVec<T>> for Vec<T> {
    fn from(value: UnordEqVec<T>) -> (r: Self) {
        value.0
    }
}

impl<T: PartialEq> UnordEqVec<T> {
    /// Number of elements held.
    pub fn len(&self) -> (r: usize)
        ensures
            r == self@.len(),
    {
        self.0.len()
    }

    /// Whether nothing is held.
    pub fn is_empty(&self) -> (r: bool)
        ensures
            r == (self@.len() == 0),
    {
        self.0.len() == 0
    }

    /// Appends an element.
    pub fn push(&mut self, value: T)
        ensures
            final(self)@ == old(self)@.push(value),
    {
        self.0.push(value);
    }

    /// Whether an element equal to `x` is held.
    pub fn contains(&self, x: &T) -> (r: bool)
        ensures
            T::obeys_eq_spec() ==> r == holds(self@, *x),
    {
        vec_holds(&self.0, x)
    }

    /// The elements in the order in which they were added.
    pub fn as_vec(&self) -> (r: &Vec<T>)
        ensures
            r@ == self@,
    {
        &self.0
    }
}

/// Equality up to order is reflexive and symmetric wherever the element
/// equality is reflexive.
pub proof fn unordered_eq_is_reflexive_and_symmetric<T: PartialEq>(a: Seq<T>, b: Seq<T>)
    requires
        forall|x: T| #[trigger] x.eq_spec(&x),
    ensures
        unordered_eq(a, a),
        unordered_eq(a, b) == unordered_eq(b, a),
{
    assert forall|i: int| 0 <= i < a.len() implies holds(a, #[trigger] a[i]) by {
        assert(a[i].eq_spec(&a[i]));
    }
}

} // verus!
