//! Small generic helpers.

use vstd::prelude::*;
use vstd::std_specs::cmp::PartialOrdSpec;

verus! {

/// The pair `(a, b)` in ascending order: `a` first exactly when it is
/// strictly less than `b`.
pub open spec fn ascending_pair<T: PartialOrd>(a: T, b: T) -> (T, T) {
    if a.partial_cmp_spec(&b) == Some(core::cmp::Ordering::Less) {
        (a, b)
    } else {
        (b, a)
    }
}

/// Whether `a` and `b` compare as in a total order: exactly one is less than
/// the other, seen from either side, or they are equal.
pub open spec fn totally_ordered<T: PartialOrd>(a: T, b: T) -> bool {
    &&& T::obeys_partial_cmp_spec()
    &&& {
        ||| (a.partial_cmp_spec(&b) == Some(core::cmp::Ordering::Less) && b.partial_cmp_spec(&a)
            == Some(core::cmp::Ordering::Greater))
        ||| (a.partial_cmp_spec(&b) == Some(core::cmp::Ordering::Greater) && b.partial_cmp_spec(&a)
            == Some(core::cmp::Ordering::Less))
        ||| (a.partial_cmp_spec(&b) == Some(core::cmp::Ordering::Equal) && b.partial_cmp_spec(&a)
            == Some(core::cmp::Ordering::Equal) && a == b)
    }
}

/// The two elements in ascending order: `elem1` first exactly when it is
/// strictly less than `elem2`.
pub fn sorted_tuple<T: PartialOrd>(elem1: T, elem2: T) -> (r: (T, T))
    ensures
        r == (elem1, elem2) || r == (elem2, elem1),
        T::obeys_partial_cmp_spec() ==> r == ascending_pair(elem1, elem2),
{
    if elem1 < elem2 {
        (elem1, elem2)
    } else {
        (elem2, elem1)
    }
}

/// Law: for two elements that are totally ordered, the sorted pair does not
/// depend on the order in which they are given.
pub proof fn law_sorted_tuple_symmetric<T: PartialOrd>(a: T, b: T)
    requires
        totally_ordered(a, b),
    ensures
        ascending_pair(a, b) == ascending_pair(b, a),
{
}

/// Law: sorting a pair that came out sorted leaves it as it is.
pub proof fn law_sorted_tuple_idempotent<T: PartialOrd>(a: T, b: T)
    requires
        totally_ordered(a, b),
    ensures
        ascending_pair(ascending_pair(a, b).0, ascending_pair(a, b).1) == ascending_pair(a, b),
{
}

} // verus!
