//! Picking the largest element of a slice, generically.

use vstd::prelude::*;
use vstd::std_specs::cmp::PartialOrdSpec;
use vstd::laws_cmp::obeys_partial_cmp_spec_properties;
use core::cmp::Ordering;

verus! {

/// The largest element of a non-empty slice, by a left-to-right scan that
/// replaces the champion whenever a strictly greater element appears.
/// The result is always an element of the slice; whenever the element
/// type's comparison follows its specification and orders the elements
/// sensibly (transitively, with `Less` and `Greater` mirror images), no
/// element of the slice is greater than the result.
pub fn largest<T: PartialOrd>(list: &[T]) -> (r: &T)
    requires
        list@.len() > 0,
    ensures
        exists|k: int| 0 <= k < list@.len() && *r == list@[k],
        (T::obeys_partial_cmp_spec() && obeys_partial_cmp_spec_properties::<T>()) ==> forall|
            j: int,
        |
            0 <= j < list@.len() ==> (#[trigger] list@[j].partial_cmp_spec(r)) != Some(
                Ordering::Greater,
            ),
{
    let ghost obeys = T::obeys_partial_cmp_spec() && obeys_partial_cmp_spec_properties::<T>();
    let mut champion: &T = &list[0];
    let mut i: usize = 1;
    proof {
        if obeys {
            reveal(obeys_partial_cmp_spec_properties);
            if list@[0].partial_cmp_spec(&list@[0]) == Some(Ordering::Greater) {
                assert(list@[0].partial_cmp_spec(&list@[0]) == Some(Ordering::Less));
                assert(false);
            }
        }
    }
    while i < list.len()
        invariant
            1 <= i <= list@.len(),
            obeys == (T::obeys_partial_cmp_spec() && obeys_partial_cmp_spec_properties::<T>()),
            exists|k: int| 0 <= k < list@.len() && *champion == list@[k],
            obeys ==> forall|j: int|
                0 <= j < i ==> (#[trigger] list@[j].partial_cmp_spec(champion)) != Some(
                    Ordering::Greater,
                ),
        decreases list@.len() - i,
    {
        let item = &list[i];
        if item.gt(champion) {
            proof {
                if obeys {
                    reveal(obeys_partial_cmp_spec_properties);
                    assert((*item).partial_cmp_spec(champion) == Some(Ordering::Greater));
                    assert forall|j: int| 0 <= j <= i implies (#[trigger] list@[j].partial_cmp_spec(
                        item,
                    )) != Some(Ordering::Greater) by {
                        if j == i {
                            if (*item).partial_cmp_spec(item) == Some(Ordering::Greater) {
                                assert((*item).partial_cmp_spec(item) == Some(Ordering::Less));
                            }
                        } else {
                            assert(list@[j].partial_cmp_spec(champion) != Some(Ordering::Greater));
                            if list@[j].partial_cmp_spec(item) == Some(Ordering::Greater) {
                                assert(list@[j].partial_cmp_spec(champion) == Some(
                                    Ordering::Greater,
                                ));
                            }
                        }
                    }
                }
            }
            champion = item;
        } else {
            proof {
                if obeys {
                    assert(list@[i as int].partial_cmp_spec(champion) != Some(Ordering::Greater));
                }
            }
        }
        i = i + 1;
    }
    champion
}

} // verus!
