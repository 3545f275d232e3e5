//! The set of process identifiers gathered for one termination attempt.

use vstd::prelude::*;

verus! {

/// Whether each number of a list is smaller than the next.
pub open spec fn increasing(list: Seq<i32>) -> bool {
    forall|i: int, j: int| 0 <= i < j < list.len() ==> list[i] < list[j]
}

/// The members of a finite set of identifiers in increasing order.
pub open spec fn listing(set: Set<i32>) -> Seq<i32> {
    choose|list: Seq<i32>| increasing(list) && list.to_set() == set
}

/// Two increasing lists with the same members are the same list.
pub proof fn lemma_increasing_unique(a: Seq<i32>, b: Seq<i32>)
    requires
        increasing(a),
        increasing(b),
        a.to_set() == b.to_set(),
    ensures
        a == b,
    decreases a.len(),
{
    if a.len() == 0 {
        if b.len() > 0 {
            assert(b.contains(b[0]));
            assert(a.to_set().contains(b[0]));
        }
        assert(a =~= b);
    } else if b.len() == 0 {
        assert(a.contains(a[0]));
        assert(b.to_set().contains(a[0]));
    } else {
        assert(a.contains(a[0]));
        assert(b.to_set().contains(a[0]));
        let k = choose|k: int| 0 <= k < b.len() && b[k] == a[0];
        assert(b.contains(b[0]));
        assert(a.to_set().contains(b[0]));
        let j = choose|j: int| 0 <= j < a.len() && a[j] == b[0];
        assert(a[0] == b[0]) by {
            if j > 0 {
                assert(a[0] < a[j]);
            }
            if k > 0 {
                assert(b[0] < b[k]);
            }
        }
        let a1 = a.drop_first();
        let b1 = b.drop_first();
        assert(increasing(a1)) by {
            assert forall|i: int, j: int| 0 <= i < j < a1.len() implies a1[i] < a1[j] by {
                assert(a[i + 1] < a[j + 1]);
            }
        }
        assert(increasing(b1)) by {
            assert forall|i: int, j: int| 0 <= i < j < b1.len() implies b1[i] < b1[j] by {
                assert(b[i + 1] < b[j + 1]);
            }
        }
        assert(a1.to_set() =~= b1.to_set()) by {
            assert forall|x: i32| a1.contains(x) <==> b1.contains(x) by {
                if a1.contains(x) {
                    let i = choose|i: int| 0 <= i < a1.len() && a1[i] == x;
                    assert(a[i + 1] == x);
                    assert(a[0] < a[i + 1]);
                    assert(a.contains(x));
                    assert(b.to_set().contains(x));
                    let m = choose|m: int| 0 <= m < b.len() && b[m] == x;
                    assert(b1[m - 1] == x);
                }
                if b1.contains(x) {
                    let i = choose|i: int| 0 <= i < b1.len() && b1[i] == x;
                    assert(b[i + 1] == x);
                    assert(b[0] < b[i + 1]);
                    assert(b.contains(x));
                    assert(a.to_set().contains(x));
                    let m = choose|m: int| 0 <= m < a.len() && a[m] == x;
                    assert(a1[m - 1] == x);
                }
            }
        }
        lemma_increasing_unique(a1, b1);
        assert(a.len() == b.len());
        assert forall|i: int| 0 <= i < a.len() implies a[i] == b[i] by {
            if i > 0 {
                assert(a1[i - 1] == b1[i - 1]);
            }
        }
        assert(a =~= b);
    }
}

/// An increasing list is the listing of its members.
pub proof fn lemma_increasing_is_listing(list: Seq<i32>)
    requires
        increasing(list),
    ensures
        listing(list.to_set()) == list,
{
    lemma_increasing_unique(listing(list.to_set()), list);
}

/// An increasing list with one number more, put where it keeps the order. A
/// number that the list holds already changes nothing.
spec fn with_number(list: Seq<i32>, number: i32) -> Seq<i32>
    decreases list.len(),
{
    if list.len() == 0 || list.last() < number {
        list.push(number)
    } else if list.last() == number {
        list
    } else {
        with_number(list.drop_last(), number).push(list.last())
    }
}

proof fn lemma_with_number(list: Seq<i32>, number: i32)
    requires
        increasing(list),
    ensures
        increasing(with_number(list, number)),
        with_number(list, number).to_set() == list.to_set().insert(number),
        with_number(list, number).len() > 0,
        with_number(list, number).last() == if list.len() > 0 && list.last() > number {
            list.last()
        } else {
            number
        },
    decreases list.len(),
{
    let out = with_number(list, number);
    if list.len() == 0 || list.last() < number {
        assert forall|i: int, j: int| 0 <= i < j < out.len() implies out[i] < out[j] by {
            if j == list.len() {
                assert(list[i] <= list.last()) by {
                    if i < list.len() - 1 {
                        assert(list[i] < list[list.len() - 1]);
                    }
                }
            } else {
                assert(list[i] < list[j]);
            }
        }
        assert(out.to_set() =~= list.to_set().insert(number)) by {
            assert forall|x: i32| out.contains(x) <==> (list.contains(x) || x == number) by {
                if out.contains(x) {
                    let k = choose|k: int| 0 <= k < out.len() && out[k] == x;
                    if k < list.len() {
                        assert(list[k] == x);
                    }
                }
                if list.contains(x) {
                    let k = choose|k: int| 0 <= k < list.len() && list[k] == x;
                    assert(out[k] == x);
                }
                if x == number {
                    assert(out[list.len() as int] == x);
                }
            }
        }
    } else if list.last() == number {
        assert(list.contains(number)) by {
            assert(list[list.len() - 1] == number);
        }
        assert(list.to_set() =~= list.to_set().insert(number));
    } else {
        let shorter = list.drop_last();
        let top = list.last();
        assert(increasing(shorter)) by {
            assert forall|i: int, j: int| 0 <= i < j < shorter.len() implies shorter[i]
                < shorter[j] by {
                assert(list[i] < list[j]);
            }
        }
        lemma_with_number(shorter, number);
        let inner = with_number(shorter, number);
        assert(inner.last() < top) by {
            if shorter.len() > 0 && shorter.last() > number {
                assert(list[list.len() - 2] < list[list.len() - 1]);
            }
        }
        assert forall|i: int, j: int| 0 <= i < j < out.len() implies out[i] < out[j] by {
            if j == inner.len() {
                if i < inner.len() - 1 {
                    assert(inner[i] < inner[inner.len() - 1]);
                }
            } else {
                assert(inner[i] < inner[j]);
            }
        }
        assert(out.to_set() =~= list.to_set().insert(number)) by {
            assert forall|x: i32| out.contains(x) <==> (list.contains(x) || x == number) by {
                if out.contains(x) {
                    let k = choose|k: int| 0 <= k < out.len() && out[k] == x;
                    if k < inner.len() {
                        assert(inner.contains(x));
                        assert(inner.to_set().contains(x));
                        if x != number {
                            assert(shorter.contains(x));
                            let m = choose|m: int| 0 <= m < shorter.len() && shorter[m] == x;
                            assert(list[m] == x);
                        }
                    } else {
                        assert(list[list.len() - 1] == x);
                    }
                }
                if list.contains(x) {
                    let k = choose|k: int| 0 <= k < list.len() && list[k] == x;
                    if k < shorter.len() {
                        assert(shorter[k] == x);
                        assert(shorter.contains(x));
                        assert(inner.to_set().contains(x));
                        let m = choose|m: int| 0 <= m < inner.len() && inner[m] == x;
                        assert(out[m] == x);
                    } else {
                        assert(out[inner.len() as int] == x);
                    }
                }
                if x == number {
                    assert(inner.to_set().contains(number));
                    let m = choose|m: int| 0 <= m < inner.len() && inner[m] == x;
                    assert(out[m] == x);
                }
            }
        }
    }
}

proof fn lemma_listing_exists(set: Set<i32>)
    requires
        set.finite(),
    ensures
        exists|list: Seq<i32>| increasing(list) && list.to_set() == set,
    decreases set.len(),
{
    if set.len() == 0 {
        let list = Seq::<i32>::empty();
        assert(set =~= Set::<i32>::empty()) by {
            if exists|x: i32| set.contains(x) {
                let x = choose|x: i32| set.contains(x);
                vstd::set::axiom_set_remove_len(set, x);
            }
        }
        assert(list.to_set() =~= set);
        assert(increasing(list) && list.to_set() == set);
    } else {
        let x = set.choose();
        assert(set.contains(x)) by {
            if forall|y: i32| !set.contains(y) {
                assert(set =~= Set::<i32>::empty());
            }
        }
        let rest = set.remove(x);
        vstd::set::axiom_set_remove_len(set, x);
        vstd::set::axiom_set_remove_finite(set, x);
        lemma_listing_exists(rest);
        let shorter = choose|list: Seq<i32>| increasing(list) && list.to_set() == rest;
        lemma_with_number(shorter, x);
        let list = with_number(shorter, x);
        assert(rest.insert(x) =~= set);
        assert(increasing(list) && list.to_set() == set);
    }
}

/// The listing of a finite set is increasing and holds exactly the members
/// of the set, each of them once.
pub proof fn lemma_listing(set: Set<i32>)
    requires
        set.finite(),
    ensures
        increasing(listing(set)),
        listing(set).to_set() == set,
{
    lemma_listing_exists(set);
}

/// Process identifiers without duplicates, kept in increasing order.
#[derive(Debug)]
pub struct PidSet {
    pids: Vec<i32>,
}

impl View for PidSet {
    type V = Set<i32>;

    closed spec fn view(&self) -> Set<i32> {
        self.pids@.to_set()
    }
}

impl PidSet {
    #[verifier::type_invariant]
    closed spec fn ordered(&self) -> bool {
        increasing(self.pids@)
    }

    /// The set that holds nothing.
    pub fn new() -> (r: PidSet)
        ensures
            r@ == Set::<i32>::empty(),
            r@.finite(),
    {
        let pids: Vec<i32> = Vec::new();
        assert(pids@.to_set() =~= Set::<i32>::empty());
        PidSet { pids }
    }

    /// The set with one identifier more. One that the set holds already
    /// changes nothing.
    pub fn insert(self, pid: i32) -> (r: PidSet)
        ensures
            r@ == self@.insert(pid),
            r@.finite(),
    {
        proof {
            use_type_invariant(&self);
            vstd::seq_lib::seq_to_set_is_finite(self.pids@);
        }
        let ghost before = self.pids@;
        let mut pids = self.pids;
        let mut at: usize = 0;
        while at < pids.len() && pids[at] < pid
            invariant
                pids@ == before,
                at <= before.len(),
                forall|k: int| 0 <= k < at ==> before[k] < pid,
            decreases before.len() - at,
        {
            at += 1;
        }
        if at < pids.len() && pids[at] == pid {
            assert(before.contains(pid));
            assert(before.to_set() =~= before.to_set().insert(pid));
            PidSet { pids }
        } else {
            pids.insert(at, pid);
            let ghost after = pids@;
            assert(increasing(after)) by {
                assert forall|i: int, j: int| 0 <= i < j < after.len() implies after[i]
                    < after[j] by {
                    let a = if i < at { i } else { i - 1 };
                    let b = if j < at { j } else { j - 1 };
                    if i != at && j != at {
                        assert(before[a] < before[b]);
                    }
                }
            }
            assert(after.to_set() =~= before.to_set().insert(pid)) by {
                assert forall|x: i32| after.to_set().contains(x) <==> before.to_set().insert(
                    pid,
                ).contains(x) by {
                    if after.contains(x) {
                        let k = choose|k: int| 0 <= k < after.len() && after[k] == x;
                        if k < at {
                            assert(before[k] == x);
                        } else if k > at {
                            assert(before[k - 1] == x);
                        }
                    }
                    if before.contains(x) {
                        let k = choose|k: int| 0 <= k < before.len() && before[k] == x;
                        if k < at {
                            assert(after[k] == x);
                        } else {
                            assert(after[k + 1] == x);
                        }
                    }
                    if x == pid {
                        assert(after[at as int] == x);
                    }
                }
            }
            PidSet { pids }
        }
    }

    /// Whether the set holds nothing.
    pub fn is_empty(&self) -> (r: bool)
        ensures
            r == (self@ == Set::<i32>::empty()),
    {
        proof {
            if self.pids@.len() > 0 {
                assert(self.pids@.contains(self.pids@[0]));
                assert(self@.contains(self.pids@[0]));
            } else {
                assert(self@ =~= Set::<i32>::empty());
            }
        }
        self.pids.len() == 0
    }

    /// The identifiers in increasing order: each of them once, and none
    /// besides them.
    pub fn as_slice(&self) -> (r: &[i32])
        ensures
            r@ == listing(self@),
            increasing(r@),
            r@.to_set() == self@,
            self@.finite(),
    {
        proof {
            vstd::seq_lib::seq_to_set_is_finite(self.pids@);
            use_type_invariant(self);
            lemma_increasing_is_listing(self.pids@);
        }
        self.pids.as_slice()
    }
}

} // verus!
