use vstd::prelude::*;

verus! {

/// One grant or revocation of the operator role.
#[derive(Clone, Debug, PartialEq, Eq)]
pub struct OperatorGrant {
    pub account: String,
    pub enabled: bool,
}

/// Whether `account` holds the operator role: the latest grant for it
/// decides, and an account never named holds none.
pub open spec fn is_operator(log: Seq<OperatorGrant>, account: Seq<char>) -> bool
    decreases log.len(),
{
    if log.len() == 0 {
        false
    } else if log.last().account@ == account {
        log.last().enabled
    } else {
        is_operator(log.drop_last(), account)
    }
}

/// The grants made by pairing each account with its flag.
pub open spec fn grants(accounts: Seq<String>, flags: Seq<bool>) -> Seq<OperatorGrant>
    recommends
        accounts.len() == flags.len(),
{
    Seq::new(accounts.len(), |i: int| OperatorGrant { account: accounts[i], enabled: flags[i] })
}

/// The operator role, as the history of its grants.
#[derive(Clone, Debug)]
pub struct Operators {
    log: Vec<OperatorGrant>,
}

impl Operators {
    pub closed spec fn log(&self) -> Seq<OperatorGrant> {
        self.log@
    }

    pub open spec fn holds(&self, account: Seq<char>) -> bool {
        is_operator(self.log(), account)
    }

    /// The role as given by a history of grants.
    pub fn from_history(log: Vec<OperatorGrant>) -> (r: Operators)
        ensures
            r.log() == log@,
    {
        Operators { log }
    }

    /// The grants made so far, oldest first.
    pub fn history(&self) -> (r: &Vec<OperatorGrant>)
        ensures
            r@ == self.log(),
    {
        &self.log
    }

    /// The role held by `account` alone.
    pub fn with(account: &String) -> (r: Operators)
        ensures
            r.log() == seq![OperatorGrant { account: *account, enabled: true }],
    {
        let mut log: Vec<OperatorGrant> = Vec::new();
        log.push(OperatorGrant { account: account.clone(), enabled: true });
        proof {
            assert(log@ =~= seq![OperatorGrant { account: *account, enabled: true }]);
        }
        Operators { log }
    }

    pub fn check(&self, account: &String) -> (r: bool)
        ensures
            r == self.holds(account@),
    {
        let mut i: usize = self.log.len();
        proof {
            assert(self.log@.take(i as int) =~= self.log@);
        }
        while i > 0
            invariant
                i <= self.log@.len(),
                is_operator(self.log@, account@) == is_operator(self.log@.take(i as int), account@),
            decreases i,
        {
            let g = &self.log[i - 1];
            proof {
                assert(self.log@.take(i as int).drop_last() =~= self.log@.take(i - 1));
            }
            if g.account == *account {
                return g.enabled;
            }
            i = i - 1;
        }
        false
    }

    /// Grants or revokes the role for each account, in order.
    pub fn apply(&mut self, accounts: &Vec<String>, flags: &Vec<bool>)
        requires
            accounts@.len() == flags@.len(),
        ensures
            final(self).log() == old(self).log() + grants(accounts@, flags@),
    {
        let ghost start = self.log@;
        let mut i: usize = 0;
        while i < accounts.len()
            invariant
                i <= accounts@.len(),
                accounts@.len() == flags@.len(),
                self.log@ == start + grants(accounts@, flags@).take(i as int),
            decreases accounts@.len() - i,
        {
            self.log.push(OperatorGrant { account: accounts[i].clone(), enabled: flags[i] });
            proof {
                assert(grants(accounts@, flags@).take(i as int + 1) =~= grants(accounts@, flags@).take(
                    i as int,
                ).push(OperatorGrant { account: accounts@[i as int], enabled: flags@[i as int] }));
            }
            i = i + 1;
        }
        proof {
            assert(grants(accounts@, flags@).take(i as int) =~= grants(accounts@, flags@));
        }
    }
}

/// Whether `name` is one of `list`.
pub open spec fn listed(list: Seq<String>, name: Seq<char>) -> bool {
    exists|i: int| 0 <= i < list.len() && list[i]@ == name
}

pub fn is_listed(list: &Vec<String>, name: &String) -> (r: bool)
    ensures
        r == listed(list@, name@),
{
    let mut i: usize = 0;
    while i < list.len()
        invariant
            i <= list@.len(),
            forall|j: int| 0 <= j < i ==> list@[j]@ != name@,
        decreases list@.len() - i,
    {
        if list[i] == *name {
            return true;
        }
        i = i + 1;
    }
    false
}

} // verus!
