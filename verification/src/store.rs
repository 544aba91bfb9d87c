//! The in-memory record store: named bills and the four operations on
//! them (add, list, remove, update).

use vstd::prelude::*;

verus! {

/// One named bill. The name identifies the bill within a store; the
/// amount field carries the 64 raw bits of the monetary value. The store
/// never interprets those bits: the terminal front end encodes the number
/// it read into them and decodes them again for display.
#[derive(Debug, Clone, PartialEq)]
pub struct Bill {
    pub name: String,
    pub amount: u64,
}

impl Bill {
    /// An explicit copy: proofs see that it carries the same name and
    /// the same amount as the bill it was taken from.
    pub fn duplicate(&self) -> (copy: Bill)
        ensures
            copy.name@ == self.name@,
            copy.amount == self.amount,
    {
        Bill { name: self.name.clone(), amount: self.amount }
    }
}

/// The mapping a sequence of bills stands for: each name is sent to the
/// amount of the last bill in the sequence that carries it.
pub open spec fn map_of(s: Seq<Bill>) -> Map<Seq<char>, u64>
    decreases s.len(),
{
    if s.len() == 0 {
        Map::empty()
    } else {
        map_of(s.drop_last()).insert(s.last().name@, s.last().amount)
    }
}

/// No two bills of the sequence carry the same name.
pub open spec fn distinct_names(s: Seq<Bill>) -> bool {
    forall|i: int, j: int| 0 <= i < j < s.len() ==> s[i].name@ != s[j].name@
}

/// The record store. It owns every bill it holds and keeps at most one
/// bill per name; its abstract value is the map from names to amounts.
pub struct Bills {
    inner: Vec<Bill>,
}

impl View for Bills {
    type V = Map<Seq<char>, u64>;

    closed spec fn view(&self) -> Map<Seq<char>, u64> {
        map_of(self.inner@)
    }
}

proof fn lemma_map_of_contains(s: Seq<Bill>, n: Seq<char>)
    ensures
        map_of(s).contains_key(n) <==> exists|i: int|
            0 <= i < s.len() && s[i].name@ == n,
    decreases s.len(),
{
    if s.len() > 0 {
        lemma_map_of_contains(s.drop_last(), n);
        if s.last().name@ == n {
            assert(s[s.len() - 1].name@ == n);
        } else {
            if exists|i: int| 0 <= i < s.len() && s[i].name@ == n {
                let i = choose|i: int| 0 <= i < s.len() && s[i].name@ == n;
                assert(s.drop_last()[i] == s[i]);
            }
            if exists|i: int| 0 <= i < s.drop_last().len() && s.drop_last()[i].name@ == n {
                let i = choose|i: int|
                    0 <= i < s.drop_last().len() && s.drop_last()[i].name@ == n;
                assert(s[i] == s.drop_last()[i]);
            }
        }
    }
}

proof fn lemma_map_of_at(s: Seq<Bill>, i: int)
    requires
        distinct_names(s),
        0 <= i < s.len(),
    ensures
        map_of(s).contains_key(s[i].name@),
        map_of(s)[s[i].name@] == s[i].amount,
    decreases s.len(),
{
    if i < s.len() - 1 {
        assert(distinct_names(s.drop_last()));
        lemma_map_of_at(s.drop_last(), i);
        assert(s.drop_last()[i] == s[i]);
        assert(s[i].name@ != s.last().name@);
    }
}

proof fn lemma_map_of_remove(s: Seq<Bill>, i: int)
    requires
        distinct_names(s),
        0 <= i < s.len(),
    ensures
        map_of(s.remove(i)) == map_of(s).remove(s[i].name@),
    decreases s.len(),
{
    s.remove_ensures(i);
    if i == s.len() - 1 {
        assert(s.remove(i) =~= s.drop_last());
        lemma_map_of_contains(s.drop_last(), s[i].name@);
        assert(forall|j: int|
            0 <= j < s.drop_last().len() ==> s.drop_last()[j].name@ != s[i].name@);
        assert(!map_of(s.drop_last()).contains_key(s[i].name@));
        assert(map_of(s.drop_last()) =~= map_of(s).remove(s[i].name@));
    } else {
        assert(distinct_names(s.drop_last()));
        lemma_map_of_remove(s.drop_last(), i);
        assert(s.remove(i).drop_last() =~= s.drop_last().remove(i));
        assert(s.remove(i).last() == s.last());
        assert(map_of(s.remove(i)) == map_of(s.drop_last().remove(i)).insert(
            s.last().name@,
            s.last().amount,
        ));
        assert(map_of(s).remove(s[i].name@) =~= map_of(s.drop_last()).remove(
            s[i].name@,
        ).insert(s.last().name@, s.last().amount)) by {
            assert(s[i].name@ != s.last().name@);
        }
    }
}

proof fn lemma_map_of_update(s: Seq<Bill>, i: int, b: Bill)
    requires
        distinct_names(s),
        0 <= i < s.len(),
        b.name@ == s[i].name@,
    ensures
        map_of(s.update(i, b)) == map_of(s).insert(b.name@, b.amount),
    decreases s.len(),
{
    if i == s.len() - 1 {
        assert(s.update(i, b).drop_last() =~= s.drop_last());
        assert(s.update(i, b).last() == b);
        assert(map_of(s.update(i, b)) =~= map_of(s).insert(b.name@, b.amount));
    } else {
        assert(distinct_names(s.drop_last()));
        lemma_map_of_update(s.drop_last(), i, b);
        assert(s.update(i, b).drop_last() =~= s.drop_last().update(i, b));
        assert(s.update(i, b).last() == s.last());
        assert(map_of(s.update(i, b)) == map_of(s.drop_last()).insert(
            b.name@,
            b.amount,
        ).insert(s.last().name@, s.last().amount));
        assert(map_of(s).insert(b.name@, b.amount) =~= map_of(s.drop_last()).insert(
            b.name@,
            b.amount,
        ).insert(s.last().name@, s.last().amount)) by {
            assert(b.name@ != s.last().name@);
        }
    }
}

/// The index of the first bill of `v` that carries `name`, if any.
fn position_of(v: &Vec<Bill>, name: &str) -> (position: Option<usize>)
    ensures
        match position {
            Some(i) => 0 <= i < v@.len() && v@[i as int].name@ == name@,
            None => forall|j: int| 0 <= j < v@.len() ==> v@[j].name@ != name@,
        },
{
    let key: String = name.to_owned();
    let mut i: usize = 0;
    while i < v.len()
        invariant
            i <= v@.len(),
            key@ == name@,
            forall|j: int| 0 <= j < i ==> v@[j].name@ != name@,
        decreases v@.len() - i,
    {
        if v[i].name == key {
            return Some(i);
        }
        i += 1;
    }
    None
}

impl Bills {
    #[verifier::type_invariant]
    spec fn wf(self) -> bool {
        distinct_names(self.inner@)
    }

    /// A store holding no bills.
    pub fn new() -> (bills: Bills)
        ensures
            bills@ == Map::<Seq<char>, u64>::empty(),
    {
        Bills { inner: Vec::new() }
    }

    /// Inserts the bill under its name. A bill already stored under that
    /// name is silently overwritten; no duplicate entry is created.
    pub fn add(&mut self, bill: Bill)
        ensures
            final(self)@ == old(self)@.insert(bill.name@, bill.amount),
    {
        proof {
            use_type_invariant(&*self);
        }
        let ghost before = self.inner@;
        let mut v: Vec<Bill> = Vec::new();
        std::mem::swap(&mut v, &mut self.inner);
        let found = position_of(&v, bill.name.as_str());
        match found {
            Some(i) => {
                proof {
                    lemma_map_of_update(before, i as int, bill);
                }
                v[i] = bill;
                proof {
                    assert(distinct_names(v@)) by {
                        assert(forall|k: int|
                            0 <= k < v@.len() ==> v@[k].name@ == before[k].name@);
                    }
                }
            },
            None => {
                v.push(bill);
                proof {
                    assert(v@.drop_last() =~= before);
                    assert(distinct_names(v@)) by {
                        assert(forall|k: int|
                            0 <= k < before.len() ==> v@[k] == before[k]);
                    }
                }
            },
        }
        self.inner = v;
    }

    /// Every bill of the store, one entry per stored name, in
    /// unspecified order.
    pub fn get_all(&self) -> (all: Vec<Bill>)
        ensures
            forall|i: int|
                0 <= i < all@.len() ==> self@.contains_key(#[trigger] all@[i].name@)
                    && self@[all@[i].name@] == all@[i].amount,
            forall|i: int, j: int|
                0 <= i < j < all@.len() ==> all@[i].name@ != all@[j].name@,
            forall|n: Seq<char>|
                #[trigger] self@.contains_key(n) ==> exists|i: int|
                    0 <= i < all@.len() && all@[i].name@ == n,
    {
        proof {
            use_type_invariant(&*self);
        }
        let mut all: Vec<Bill> = Vec::new();
        let mut i: usize = 0;
        while i < self.inner.len()
            invariant
                i <= self.inner@.len(),
                all@.len() == i,
                forall|j: int|
                    0 <= j < i ==> all@[j].name@ == self.inner@[j].name@
                        && all@[j].amount == self.inner@[j].amount,
            decreases self.inner@.len() - i,
        {
            let copy = self.inner[i].duplicate();
            all.push(copy);
            i += 1;
        }
        proof {
            assert forall|k: int| 0 <= k < all@.len() implies self@.contains_key(
                #[trigger] all@[k].name@,
            ) && self@[all@[k].name@] == all@[k].amount by {
                lemma_map_of_at(self.inner@, k);
            }
            assert forall|n: Seq<char>| #[trigger]
                self@.contains_key(n) implies exists|k: int|
                0 <= k < all@.len() && all@[k].name@ == n by {
                lemma_map_of_contains(self.inner@, n);
                let w = choose|k: int|
                    0 <= k < self.inner@.len() && self.inner@[k].name@ == n;
                assert(all@[w].name@ == n);
            }
        }
        all
    }

    /// Deletes the bill stored under `name`, if any, and reports whether
    /// a deletion occurred. A missing name is a normal outcome, not an
    /// error, and leaves the store unchanged.
    pub fn remove(&mut self, name: &str) -> (removed: bool)
        ensures
            removed == old(self)@.contains_key(name@),
            final(self)@ == old(self)@.remove(name@),
    {
        proof {
            use_type_invariant(&*self);
        }
        let ghost before = self.inner@;
        let mut v: Vec<Bill> = Vec::new();
        std::mem::swap(&mut v, &mut self.inner);
        let found = position_of(&v, name);
        let removed = match found {
            Some(i) => {
                proof {
                    lemma_map_of_contains(before, name@);
                    lemma_map_of_remove(before, i as int);
                    before.remove_ensures(i as int);
                }
                let _ = v.remove(i);
                proof {
                    assert(distinct_names(v@));
                }
                true
            },
            None => {
                proof {
                    lemma_map_of_contains(before, name@);
                    assert(map_of(before).remove(name@) =~= map_of(before));
                }
                false
            },
        };
        self.inner = v;
        removed
    }

    /// Replaces the amount of the bill stored under `name`, if any, and
    /// reports whether an update occurred. A missing name leaves the
    /// store unchanged.
    pub fn update(&mut self, name: &str, amount: u64) -> (updated: bool)
        ensures
            updated == old(self)@.contains_key(name@),
            final(self)@ == if old(self)@.contains_key(name@) {
                old(self)@.insert(name@, amount)
            } else {
                old(self)@
            },
    {
        proof {
            use_type_invariant(&*self);
        }
        let ghost before = self.inner@;
        let mut v: Vec<Bill> = Vec::new();
        std::mem::swap(&mut v, &mut self.inner);
        let found = position_of(&v, name);
        let updated = match found {
            Some(i) => {
                proof {
                    lemma_map_of_contains(before, name@);
                }
                let fresh = Bill { name: v[i].name.clone(), amount };
                proof {
                    lemma_map_of_update(before, i as int, fresh);
                }
                v[i] = fresh;
                proof {
                    assert(distinct_names(v@)) by {
                        assert(forall|k: int|
                            0 <= k < v@.len() ==> v@[k].name@ == before[k].name@);
                    }
                }
                true
            },
            None => {
                proof {
                    lemma_map_of_contains(before, name@);
                }
                false
            },
        };
        self.inner = v;
        updated
    }
}

/// Adding a bill under a name that is already stored replaces the amount
/// kept under that name and adds no entry: the set of stored names stays
/// as it was, so the store never holds two records with one name.
pub proof fn lemma_add_replaces(m: Map<Seq<char>, u64>, name: Seq<char>, amount: u64)
    requires
        m.contains_key(name),
    ensures
        m.insert(name, amount).dom() =~= m.dom(),
        m.insert(name, amount)[name] == amount,
{
}

/// Adding a bill under a fresh name grows the store by exactly that one
/// record and touches no other.
pub proof fn lemma_add_fresh(m: Map<Seq<char>, u64>, name: Seq<char>, amount: u64)
    requires
        !m.contains_key(name),
    ensures
        m.insert(name, amount).dom() =~= m.dom().insert(name),
        m.insert(name, amount)[name] == amount,
        forall|n: Seq<char>|
            #[trigger] m.contains_key(n) ==> m.insert(name, amount)[n] == m[n],
{
}

/// After a name has been removed it is no longer stored, so removing it
/// again reports `false` and changes nothing.
pub proof fn lemma_remove_idempotent(m: Map<Seq<char>, u64>, name: Seq<char>)
    ensures
        !m.remove(name).contains_key(name),
        m.remove(name).remove(name) =~= m.remove(name),
{
}

} // verus!
