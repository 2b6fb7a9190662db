use vstd::prelude::*;

verus! {

/// One account of a book: a key (an account or a currency) and its amount.
#[derive(Clone, Debug)]
pub struct Entry {
    pub key: String,
    pub amount: u128,
}

/// Sum of the amounts recorded under key `k`.
pub open spec fn amount_of(s: Seq<Entry>, k: Seq<char>) -> nat
    decreases s.len(),
{
    if s.len() == 0 {
        0
    } else {
        amount_of(s.drop_last(), k) + (if s.last().key@ == k {
            s.last().amount as nat
        } else {
            0
        })
    }
}

/// Sum of all amounts.
pub open spec fn total(s: Seq<Entry>) -> nat
    decreases s.len(),
{
    if s.len() == 0 {
        0
    } else {
        total(s.drop_last()) + s.last().amount as nat
    }
}

pub open spec fn unique_keys(s: Seq<Entry>) -> bool {
    forall|i: int, j: int| 0 <= i < j < s.len() ==> s[i].key@ != s[j].key@
}

pub open spec fn has_key(s: Seq<Entry>, k: Seq<char>) -> bool {
    exists|i: int| 0 <= i < s.len() && s[i].key@ == k
}

/// The keys of a book, in listing order.
pub open spec fn keys(s: Seq<Entry>) -> Seq<Seq<char>> {
    s.map_values(|e: Entry| e.key@)
}

pub proof fn lemma_amount_at(s: Seq<Entry>, i: int)
    requires
        unique_keys(s),
        0 <= i < s.len(),
    ensures
        amount_of(s, s[i].key@) == s[i].amount,
    decreases s.len(),
{
    if i == s.len() - 1 {
        lemma_amount_absent(s.drop_last(), s[i].key@);
    } else {
        lemma_amount_at(s.drop_last(), i);
    }
}

pub proof fn lemma_amount_absent(s: Seq<Entry>, k: Seq<char>)
    requires
        !has_key(s, k),
    ensures
        amount_of(s, k) == 0,
    decreases s.len(),
{
    if s.len() > 0 {
        assert(s.last().key@ != k) by {
            if s.last().key@ == k {
                assert(s[s.len() - 1].key@ == k);
            }
        }
        assert forall|i: int| 0 <= i < s.drop_last().len() implies s.drop_last()[i].key@ != k by {
            assert(s[i].key@ != k);
        }
        lemma_amount_absent(s.drop_last(), k);
    }
}

pub proof fn lemma_amount_le_total(s: Seq<Entry>, k: Seq<char>)
    ensures
        amount_of(s, k) <= total(s),
    decreases s.len(),
{
    if s.len() > 0 {
        lemma_amount_le_total(s.drop_last(), k);
    }
}

pub proof fn lemma_prefix_total(s: Seq<Entry>, i: int)
    requires
        0 <= i <= s.len(),
    ensures
        total(s.take(i)) <= total(s),
    decreases s.len() - i,
{
    if i < s.len() {
        lemma_prefix_total(s, i + 1);
        assert(s.take(i + 1).drop_last() =~= s.take(i));
    } else {
        assert(s.take(i) =~= s);
    }
}

proof fn lemma_update(s: Seq<Entry>, i: int, e: Entry, k: Seq<char>)
    requires
        0 <= i < s.len(),
        e.key@ == s[i].key@,
    ensures
        amount_of(s.update(i, e), k) + (if s[i].key@ == k { s[i].amount as nat } else { 0 })
            == amount_of(s, k) + (if s[i].key@ == k { e.amount as nat } else { 0 }),
        total(s.update(i, e)) + s[i].amount == total(s) + e.amount,
    decreases s.len(),
{
    let u = s.update(i, e);
    if i == s.len() - 1 {
        assert(u.drop_last() =~= s.drop_last());
    } else {
        assert(u.drop_last() =~= s.drop_last().update(i, e));
        lemma_update(s.drop_last(), i, e, k);
    }
}

/// Amounts kept per key, with unique keys, in the order in which keys were
/// first credited, and with a running total that always fits in `u128`.
#[derive(Clone, Debug)]
pub struct Book {
    entries: Vec<Entry>,
    total: u128,
}

impl Book {
    pub closed spec fn entries(&self) -> Seq<Entry> {
        self.entries@
    }

    pub closed spec fn stored_total(&self) -> u128 {
        self.total
    }

    pub open spec fn wf(&self) -> bool {
        &&& unique_keys(self.entries())
        &&& self.stored_total() == total(self.entries())
    }

    pub open spec fn amount(&self, k: Seq<char>) -> nat {
        amount_of(self.entries(), k)
    }

    pub open spec fn sum(&self) -> nat {
        total(self.entries())
    }

    pub fn new() -> (r: Book)
        ensures
            r.wf(),
            r.entries() == Seq::<Entry>::empty(),
    {
        Book { entries: Vec::new(), total: 0 }
    }

    pub fn len(&self) -> (r: usize)
        ensures
            r == self.entries().len(),
    {
        self.entries.len()
    }

    pub fn entry_at(&self, i: usize) -> (r: &Entry)
        requires
            i < self.entries().len(),
        ensures
            *r == self.entries()[i as int],
    {
        &self.entries[i]
    }

    /// Sum of all amounts.
    pub fn total(&self) -> (r: u128)
        requires
            self.wf(),
        ensures
            r == self.sum(),
    {
        self.total
    }

    /// Position of key `k`, if it has an entry.
    pub fn position(&self, k: &String) -> (r: Option<usize>)
        ensures
            r matches Some(i) ==> i < self.entries().len() && self.entries()[i as int].key@ == k@,
            r is None ==> !has_key(self.entries(), k@),
    {
        let mut i: usize = 0;
        while i < self.entries.len()
            invariant
                i <= self.entries@.len(),
                forall|j: int| 0 <= j < i ==> self.entries@[j].key@ != k@,
            decreases self.entries@.len() - i,
        {
            if self.entries[i].key == *k {
                return Some(i);
            }
            i = i + 1;
        }
        None
    }

    /// Amount recorded under `k` (zero when it has no entry).
    pub fn get(&self, k: &String) -> (r: u128)
        requires
            self.wf(),
        ensures
            r == self.amount(k@),
    {
        match self.position(k) {
            Some(i) => {
                proof {
                    lemma_amount_at(self.entries(), i as int);
                }
                self.entries[i].amount
            },
            None => {
                proof {
                    lemma_amount_absent(self.entries(), k@);
                }
                0
            },
        }
    }

    /// Adds `amt` under `k`, creating the entry at the end when `k` is new.
    /// Refused, leaving the book unchanged, when the total would overflow.
    pub fn credit(&mut self, k: &String, amt: u128) -> (ok: bool)
        requires
            old(self).wf(),
        ensures
            final(self).wf(),
            ok == (old(self).sum() + amt <= u128::MAX),
            !ok ==> *final(self) == *old(self),
            ok ==> final(self).amount(k@) == old(self).amount(k@) + amt,
            ok ==> forall|k2: Seq<char>|
                k2 != k@ ==> #[trigger] final(self).amount(k2) == old(self).amount(k2),
            ok ==> final(self).sum() == old(self).sum() + amt,
            ok ==> keys(final(self).entries()) == if has_key(old(self).entries(), k@) {
                keys(old(self).entries())
            } else {
                keys(old(self).entries()).push(k@)
            },
    {
        if amt > u128::MAX - self.total {
            return false;
        }
        let ghost s = self.entries@;
        match self.position(k) {
            Some(i) => {
                proof {
                    lemma_amount_at(s, i as int);
                    lemma_amount_le_total(s, k@);
                }
                let e = Entry { key: self.entries[i].key.clone(), amount: self.entries[i].amount + amt };
                self.entries.set(i, e);
                proof {
                    assert forall|k2: Seq<char>| #[trigger] amount_of(self.entries@, k2)
                        == amount_of(s, k2) + (if k2 == k@ { amt as nat } else { 0 }) by {
                        lemma_update(s, i as int, e, k2);
                    }
                    lemma_update(s, i as int, e, k@);
                    assert(keys(self.entries@) =~= keys(s));
                }
                self.total = self.total + amt;
            },
            None => {
                let e = Entry { key: k.clone(), amount: amt };
                self.entries.push(e);
                proof {
                    assert(self.entries@.drop_last() =~= s);
                    assert(keys(self.entries@) =~= keys(s).push(k@));
                }
                self.total = self.total + amt;
            },
        }
        true
    }

    /// Takes `amt` from the amount under `k`; refused, leaving the book
    /// unchanged, when `k` holds less.
    pub fn debit(&mut self, k: &String, amt: u128) -> (ok: bool)
        requires
            old(self).wf(),
        ensures
            final(self).wf(),
            ok == (amt <= old(self).amount(k@)),
            !ok ==> *final(self) == *old(self),
            ok ==> final(self).amount(k@) + amt == old(self).amount(k@),
            ok ==> forall|k2: Seq<char>|
                k2 != k@ ==> #[trigger] final(self).amount(k2) == old(self).amount(k2),
            ok ==> final(self).sum() + amt == old(self).sum(),
            ok ==> keys(final(self).entries()) == keys(old(self).entries()),
    {
        let ghost s = self.entries@;
        match self.position(k) {
            Some(i) => {
                proof {
                    lemma_amount_at(s, i as int);
                    lemma_amount_le_total(s, k@);
                }
                if self.entries[i].amount < amt {
                    return false;
                }
                let e = Entry { key: self.entries[i].key.clone(), amount: self.entries[i].amount - amt };
                self.entries.set(i, e);
                proof {
                    assert forall|k2: Seq<char>| k2 != k@ implies #[trigger] amount_of(self.entries@, k2)
                        == amount_of(s, k2) by {
                        lemma_update(s, i as int, e, k2);
                    }
                    lemma_update(s, i as int, e, k@);
                    assert(keys(self.entries@) =~= keys(s));
                }
                self.total = self.total - amt;
                true
            },
            None => {
                proof {
                    lemma_amount_absent(s, k@);
                }
                amt == 0
            },
        }
    }

    /// Sets the amount under `k` to zero and returns what it held.
    pub fn clear(&mut self, k: &String) -> (r: u128)
        requires
            old(self).wf(),
        ensures
            final(self).wf(),
            r == old(self).amount(k@),
            final(self).amount(k@) == 0,
            forall|k2: Seq<char>| k2 != k@ ==> #[trigger] final(self).amount(k2) == old(self).amount(k2),
            final(self).sum() + r == old(self).sum(),
            keys(final(self).entries()) == keys(old(self).entries()),
    {
        let ghost s = self.entries@;
        match self.position(k) {
            Some(i) => {
                proof {
                    lemma_amount_at(s, i as int);
                    lemma_amount_le_total(s, k@);
                }
                let held = self.entries[i].amount;
                let e = Entry { key: self.entries[i].key.clone(), amount: 0 };
                self.entries.set(i, e);
                proof {
                    assert forall|k2: Seq<char>| k2 != k@ implies #[trigger] amount_of(self.entries@, k2)
                        == amount_of(s, k2) by {
                        lemma_update(s, i as int, e, k2);
                    }
                    lemma_update(s, i as int, e, k@);
                    assert(keys(self.entries@) =~= keys(s));
                }
                self.total = self.total - held;
                held
            },
            None => {
                proof {
                    lemma_amount_absent(s, k@);
                }
                0
            },
        }
    }
}

} // verus!
