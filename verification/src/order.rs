//! Sorting by an order that the sorted type states and proves of itself.

use vstd::prelude::*;

verus! {

/// A type with a total preorder: of any two values one comes before the
/// other (or both do), and coming before carries over.
pub trait Ordered: Sized {
    /// `self` may stand before `other` in a sorted sequence.
    spec fn precedes(&self, other: &Self) -> bool;

    proof fn precedes_total(a: &Self, b: &Self)
        ensures
            a.precedes(b) || b.precedes(a),
    ;

    proof fn precedes_transitive(a: &Self, b: &Self, c: &Self)
        requires
            a.precedes(b),
            b.precedes(c),
        ensures
            a.precedes(c),
    ;

    fn before(&self, other: &Self) -> (r: bool)
        ensures
            r == self.precedes(other),
    ;
}

/// Every element may stand before each that follows it.
pub open spec fn sorted<T: Ordered>(s: Seq<T>) -> bool {
    forall|a: int, b: int| 0 <= a < b < s.len() ==> (#[trigger] s[a]).precedes(#[trigger] &s[b])
}

/// Every element may stand behind each that follows it.
pub open spec fn sorted_backwards<T: Ordered>(s: Seq<T>) -> bool {
    forall|a: int, b: int| 0 <= a < b < s.len() ==> (#[trigger] s[b]).precedes(#[trigger] &s[a])
}

/// Every element of `low` may stand before every element of `high`.
pub open spec fn all_precede<T: Ordered>(low: Seq<T>, high: Seq<T>) -> bool {
    forall|a: int, b: int|
        0 <= a < low.len() && 0 <= b < high.len() ==> (#[trigger] low[a]).precedes(#[trigger] &high[b])
}

/// The elements of a sequence read from its end.
fn reversed<T: Ordered>(v: Vec<T>) -> (r: Vec<T>)
    requires
        sorted_backwards(v@),
    ensures
        sorted(r@),
        r@.to_multiset() == v@.to_multiset(),
        r@.len() == v@.len(),
{
    broadcast use vstd::multiset::group_multiset_axioms;

    let mut rest = v;
    let mut r: Vec<T> = Vec::new();
    proof {
        r@.to_multiset_ensures();
        assert(r@.to_multiset().len() == 0);
        assert(r@.to_multiset().add(rest@.to_multiset()) =~= v@.to_multiset());
    }
    while rest.len() > 0
        invariant
            sorted(r@),
            sorted_backwards(rest@),
            all_precede(r@, rest@),
            r@.to_multiset().add(rest@.to_multiset()) == v@.to_multiset(),
            r@.len() + rest@.len() == v@.len(),
        decreases rest.len(),
    {
        let ghost rest_before = rest@;
        let ghost r_before = r@;
        let x = rest.pop().unwrap();
        r.push(x);
        proof {
            assert(rest_before =~= rest@.push(x));
            vstd::seq_lib::to_multiset_build(r_before, x);
            vstd::seq_lib::to_multiset_build(rest@, x);
            assert(r@.to_multiset().add(rest@.to_multiset()) =~= r_before.to_multiset().add(
                rest_before.to_multiset(),
            ));
            assert forall|a: int, b: int| 0 <= a < b < r@.len() implies (#[trigger] r@[a]).precedes(
                #[trigger] &r@[b],
            ) by {
                if b < r_before.len() {
                    assert(r_before[a].precedes(&r_before[b]));
                } else {
                    assert(r_before[a].precedes(&rest_before[rest_before.len() - 1]));
                }
            }
            assert forall|a: int, b: int| 0 <= a < b < rest@.len() implies (#[trigger] rest@[b]).precedes(
                #[trigger] &rest@[a],
            ) by {
                assert(rest_before[b].precedes(&rest_before[a]));
            }
            assert forall|a: int, b: int| 0 <= a < r@.len() && 0 <= b < rest@.len() implies (
            #[trigger] r@[a]).precedes(#[trigger] &rest@[b]) by {
                if a < r_before.len() {
                    assert(r_before[a].precedes(&rest_before[b]));
                } else {
                    assert(rest_before[rest_before.len() - 1].precedes(&rest_before[b]));
                }
            }
        }
    }
    proof {
        rest@.to_multiset_ensures();
        assert(rest@.to_multiset().len() == 0);
        assert(r@.to_multiset().add(rest@.to_multiset()) =~= r@.to_multiset());
    }
    r
}

/// The elements of two sorted sequences in one sorted sequence.
fn merge<T: Ordered>(a: Vec<T>, b: Vec<T>) -> (r: Vec<T>)
    requires
        sorted(a@),
        sorted(b@),
        a@.len() + b@.len() <= usize::MAX,
    ensures
        sorted(r@),
        r@.to_multiset() == a@.to_multiset().add(b@.to_multiset()),
        r@.len() == a@.len() + b@.len(),
{
    broadcast use vstd::multiset::group_multiset_axioms;

    let ghost all = a@.to_multiset().add(b@.to_multiset());
    let ghost total = a@.len() + b@.len();
    let mut a = a;
    let mut b = b;
    // The greatest element that is left goes to the end of `taken`.
    let mut taken: Vec<T> = Vec::new();
    proof {
        taken@.to_multiset_ensures();
        assert(taken@.to_multiset().len() == 0);
        assert(taken@.to_multiset().add(a@.to_multiset()).add(b@.to_multiset()) =~= all);
    }
    while a.len() > 0 || b.len() > 0
        invariant
            sorted(a@),
            sorted(b@),
            sorted_backwards(taken@),
            all_precede(a@, taken@),
            all_precede(b@, taken@),
            taken@.to_multiset().add(a@.to_multiset()).add(b@.to_multiset()) == all,
            taken@.len() + a@.len() + b@.len() == total,
        decreases a.len() + b.len(),
    {
        let ghost a_before = a@;
        let ghost b_before = b@;
        let ghost taken_before = taken@;
        let from_a = if a.len() == 0 {
            false
        } else if b.len() == 0 {
            true
        } else {
            !a[a.len() - 1].before(&b[b.len() - 1])
        };
        if from_a {
            let x = a.pop().unwrap();
            taken.push(x);
            proof {
                assert(a_before =~= a@.push(x));
                vstd::seq_lib::to_multiset_build(a@, x);
                vstd::seq_lib::to_multiset_build(taken_before, x);
                assert(taken@.to_multiset().add(a@.to_multiset()).add(b@.to_multiset()) =~= all);
                assert forall|i: int, j: int| 0 <= i < j < a@.len() implies (#[trigger] a@[i]).precedes(
                    #[trigger] &a@[j],
                ) by {
                    assert(a_before[i].precedes(&a_before[j]));
                }
                assert forall|i: int, j: int| 0 <= i < j < taken@.len() implies (
                #[trigger] taken@[j]).precedes(#[trigger] &taken@[i]) by {
                    if j < taken_before.len() {
                        assert(taken_before[j].precedes(&taken_before[i]));
                    } else {
                        assert(a_before[a_before.len() - 1].precedes(&taken_before[i]));
                    }
                }
                assert forall|i: int, j: int| 0 <= i < a@.len() && 0 <= j < taken@.len() implies (
                #[trigger] a@[i]).precedes(#[trigger] &taken@[j]) by {
                    if j < taken_before.len() {
                        assert(a_before[i].precedes(&taken_before[j]));
                    } else {
                        assert(a_before[i].precedes(&a_before[a_before.len() - 1]));
                    }
                }
                assert forall|i: int, j: int| 0 <= i < b@.len() && 0 <= j < taken@.len() implies (
                #[trigger] b@[i]).precedes(#[trigger] &taken@[j]) by {
                    if j < taken_before.len() {
                        assert(b_before[i].precedes(&taken_before[j]));
                    } else {
                        let last = b_before[b_before.len() - 1];
                        T::precedes_total(&x, &last);
                        if i < b_before.len() - 1 {
                            assert(b_before[i].precedes(&b_before[b_before.len() - 1]));
                            T::precedes_transitive(&b_before[i], &last, &x);
                        }
                    }
                }
            }
        } else {
            let x = b.pop().unwrap();
            taken.push(x);
            proof {
                assert(b_before =~= b@.push(x));
                vstd::seq_lib::to_multiset_build(b@, x);
                vstd::seq_lib::to_multiset_build(taken_before, x);
                assert(taken@.to_multiset().add(a@.to_multiset()).add(b@.to_multiset()) =~= all);
                assert forall|i: int, j: int| 0 <= i < j < b@.len() implies (#[trigger] b@[i]).precedes(
                    #[trigger] &b@[j],
                ) by {
                    assert(b_before[i].precedes(&b_before[j]));
                }
                assert forall|i: int, j: int| 0 <= i < j < taken@.len() implies (
                #[trigger] taken@[j]).precedes(#[trigger] &taken@[i]) by {
                    if j < taken_before.len() {
                        assert(taken_before[j].precedes(&taken_before[i]));
                    } else {
                        assert(b_before[b_before.len() - 1].precedes(&taken_before[i]));
                    }
                }
                assert forall|i: int, j: int| 0 <= i < b@.len() && 0 <= j < taken@.len() implies (
                #[trigger] b@[i]).precedes(#[trigger] &taken@[j]) by {
                    if j < taken_before.len() {
                        assert(b_before[i].precedes(&taken_before[j]));
                    } else {
                        assert(b_before[i].precedes(&b_before[b_before.len() - 1]));
                    }
                }
                assert forall|i: int, j: int| 0 <= i < a@.len() && 0 <= j < taken@.len() implies (
                #[trigger] a@[i]).precedes(#[trigger] &taken@[j]) by {
                    if j < taken_before.len() {
                        assert(a_before[i].precedes(&taken_before[j]));
                    } else {
                        let last = a_before[a_before.len() - 1];
                        assert(a_before[i].precedes(&last) || i == a_before.len() - 1);
                        if i < a_before.len() - 1 {
                            T::precedes_transitive(&a_before[i], &last, &x);
                        }
                    }
                }
            }
        }
    }
    proof {
        a@.to_multiset_ensures();
        b@.to_multiset_ensures();
        assert(a@.to_multiset().len() == 0 && b@.to_multiset().len() == 0);
        assert(taken@.to_multiset().add(a@.to_multiset()).add(b@.to_multiset()) =~= taken@.to_multiset());
    }
    reversed(taken)
}

/// The same elements, each as often as before, in sorted order. Which of
/// two elements that come before each other stands first is not promised.
pub fn sort<T: Ordered>(v: Vec<T>) -> (r: Vec<T>)
    ensures
        sorted(r@),
        r@.to_multiset() == v@.to_multiset(),
        r@.len() == v@.len(),
    decreases v@.len(),
{
    broadcast use vstd::multiset::group_multiset_axioms;

    if v.len() <= 1 {
        return v;
    }
    let mut left = v;
    let right = left.split_off(left.len() / 2);
    proof {
        assert(v@ =~= left@ + right@);
        vstd::seq_lib::lemma_multiset_commutative(left@, right@);
    }
    let left = sort(left);
    let right = sort(right);
    merge(left, right)
}

} // verus!
