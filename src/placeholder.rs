use vstd::prelude::*;

use crate::book::{amount_of, has_key, keys, lemma_prefix_total, total, Book, Entry};
use crate::outbox::OutMsg;
use crate::roles::{grants, is_listed, listed, Operators};

verus! {

/// Largest amount of currency that an investor may have accepted into a bond.
#[derive(Clone, Debug, PartialEq, Eq)]
pub struct InvesmentRule {
    pub investor: String,
    pub currency_amount: u128,
}

/// Currency an investor has subscribed to a bond, net of fees.
#[derive(Clone, Debug, PartialEq, Eq)]
pub struct Subscription {
    pub investor: String,
    pub currency_amount: u128,
}

#[derive(Clone, Debug, PartialEq, Eq)]
pub struct SubscriptionResponse {
    pub investor: String,
    pub currency_amount: u128,
}

#[derive(Clone, Debug, PartialEq, Eq)]
pub struct SubscriptionsResponse {
    pub subscriptions: Vec<SubscriptionResponse>,
}

#[derive(Clone, Copy, Debug, PartialEq, Eq, Structural)]
pub struct BondValidationResponse {
    pub validity: bool,
}

#[derive(Clone, Debug, PartialEq, Eq)]
pub enum PlaceholderErr {
    /// An amount left the range of `u128`.
    Overflow,
    /// No subscription was ever recorded for the bond.
    SubscriptionsNotFound { bond_token: String },
    NotAdmin { account: String },
    NotOperator { account: String },
    LengthMismatch {},
    NotBondToken { account: String },
    NotRouter { account: String },
    ContractNotSetup {},
}

/// The subscriptions recorded for one bond, keyed by investor.
#[derive(Clone, Debug)]
pub struct BondSubscriptions {
    pub bond_token: String,
    pub subscriptions: Book,
}

/// The subscriptions of `bond`: those of its latest record, if any.
pub open spec fn find_book(s: Seq<BondSubscriptions>, bond: Seq<char>) -> Option<Book>
    decreases s.len(),
{
    if s.len() == 0 {
        None
    } else if s.last().bond_token@ == bond {
        Some(s.last().subscriptions)
    } else {
        find_book(s.drop_last(), bond)
    }
}

/// State of the escrow.
#[derive(Clone, Debug)]
pub struct PlaceholderPlatform {
    pub admin: String,
    pub factory: Option<String>,
    pub router: Option<String>,
    pub bond_tokens: Vec<String>,
    pub operators: Operators,
    pub system_fee: Book,
    pub subscriptions: Vec<BondSubscriptions>,
}

impl PlaceholderPlatform {
    pub open spec fn books(&self) -> Seq<BondSubscriptions> {
        self.subscriptions@
    }

    /// The subscriptions recorded for `bond`, if any.
    pub open spec fn book(&self, bond: Seq<char>) -> Option<Book> {
        find_book(self.books(), bond)
    }

    pub open spec fn wf(&self) -> bool {
        &&& self.system_fee.wf()
        &&& forall|i: int| 0 <= i < self.books().len() ==> (#[trigger] self.books()[i]).subscriptions.wf()
    }
}

proof fn lemma_find_book_wf(s: Seq<BondSubscriptions>, bond: Seq<char>)
    requires
        forall|i: int| 0 <= i < s.len() ==> (#[trigger] s[i]).subscriptions.wf(),
    ensures
        find_book(s, bond) matches Some(b) ==> b.wf(),
    decreases s.len(),
{
    if s.len() > 0 {
        lemma_find_book_wf(s.drop_last(), bond);
    }
}

proof fn lemma_find_book_at(s: Seq<BondSubscriptions>, i: int)
    requires
        0 <= i < s.len(),
        forall|j: int| i < j < s.len() ==> s[j].bond_token@ != s[i].bond_token@,
    ensures
        find_book(s, s[i].bond_token@) == Some(s[i].subscriptions),
    decreases s.len(),
{
    if i < s.len() - 1 {
        lemma_find_book_at(s.drop_last(), i);
    }
}

proof fn lemma_find_book_update(s: Seq<BondSubscriptions>, i: int, x: BondSubscriptions, bond: Seq<char>)
    requires
        0 <= i < s.len(),
        x.bond_token@ == s[i].bond_token@,
        forall|j: int| i < j < s.len() ==> s[j].bond_token@ != s[i].bond_token@,
    ensures
        find_book(s.update(i, x), bond) == if bond == s[i].bond_token@ {
            Some(x.subscriptions)
        } else {
            find_book(s, bond)
        },
    decreases s.len(),
{
    let u = s.update(i, x);
    if i == s.len() - 1 {
        assert(u.drop_last() =~= s.drop_last());
    } else {
        assert(u.drop_last() =~= s.drop_last().update(i, x));
        lemma_find_book_update(s.drop_last(), i, x, bond);
    }
}

/// The entries of a book that may not exist yet.
pub open spec fn entries_of(b: Option<Book>) -> Seq<Entry> {
    match b {
        Some(b) => b.entries(),
        None => Seq::<Entry>::empty(),
    }
}

/// `new` holds the entries `old` with `amt` more recorded under `k`.
pub open spec fn credited(old: Seq<Entry>, new: Book, k: Seq<char>, amt: nat) -> bool {
    &&& new.wf()
    &&& new.amount(k) == amount_of(old, k) + amt
    &&& forall|k2: Seq<char>| k2 != k ==> #[trigger] new.amount(k2) == amount_of(old, k2)
    &&& new.sum() == total(old) + amt
    &&& keys(new.entries()) == if has_key(old, k) {
        keys(old)
    } else {
        keys(old).push(k)
    }
}

/// Cap of `investor` under the first rule that names them; zero when none does.
pub open spec fn cap_for(rules: Seq<InvesmentRule>, investor: Seq<char>) -> nat
    decreases rules.len(),
{
    if rules.len() == 0 {
        0
    } else if rules[0].investor@ == investor {
        rules[0].currency_amount as nat
    } else {
        cap_for(rules.drop_first(), investor)
    }
}

/// Currency accepted from one subscription: `min(subscribed, cap)`.
pub open spec fn invested(e: Entry, rules: Seq<InvesmentRule>) -> nat {
    let cap = cap_for(rules, e.key@);
    if e.amount > cap {
        cap
    } else {
        e.amount as nat
    }
}

/// Currency accepted from all subscriptions.
pub open spec fn total_invested(s: Seq<Entry>, rules: Seq<InvesmentRule>) -> nat
    decreases s.len(),
{
    if s.len() == 0 {
        0
    } else {
        total_invested(s.drop_last(), rules) + invested(s.last(), rules)
    }
}

/// Currency given back: `subscribed - invested`, summed over all subscriptions.
pub open spec fn total_refunded(s: Seq<Entry>, rules: Seq<InvesmentRule>) -> nat
    decreases s.len(),
{
    if s.len() == 0 {
        0
    } else {
        total_refunded(s.drop_last(), rules) + (s.last().amount - invested(s.last(), rules)) as nat
    }
}

/// One refund for each subscription above its cap, in listing order.
pub open spec fn refund_msgs(s: Seq<Entry>, rules: Seq<InvesmentRule>, currency: String) -> Seq<OutMsg>
    decreases s.len(),
{
    if s.len() == 0 {
        seq![]
    } else {
        let e = s.last();
        refund_msgs(s.drop_last(), rules, currency) + if e.amount > cap_for(rules, e.key@) {
            seq![
                OutMsg::Transfer {
                    token: currency,
                    recipient: e.key,
                    amount: (e.amount - cap_for(rules, e.key@)) as u128,
                },
            ]
        } else {
            seq![]
        }
    }
}

/// The settlement of a bond: the refunds, then one payment to the issuer
/// of everything accepted.
pub open spec fn release_msgs(s: Seq<Entry>, rules: Seq<InvesmentRule>, issuer: String, currency: String) -> Seq<
    OutMsg,
> {
    refund_msgs(s, rules, currency).push(
        OutMsg::Transfer { token: currency, recipient: issuer, amount: total_invested(s, rules) as u128 },
    )
}

/// Currency moved by the plain transfers among `msgs`.
pub open spec fn transferred(msgs: Seq<OutMsg>) -> nat
    decreases msgs.len(),
{
    if msgs.len() == 0 {
        0
    } else {
        transferred(msgs.drop_last()) + match msgs.last() {
            OutMsg::Transfer { amount, .. } => amount as nat,
            _ => 0,
        }
    }
}

/// Transfers of each non-empty fee pool to `recipient`, in listing order.
pub open spec fn fee_msgs(s: Seq<Entry>, recipient: String) -> Seq<OutMsg>
    decreases s.len(),
{
    if s.len() == 0 {
        seq![]
    } else {
        let e = s.last();
        fee_msgs(s.drop_last(), recipient) + if e.amount > 0 {
            seq![OutMsg::Transfer { token: e.key, recipient: recipient, amount: e.amount }]
        } else {
            seq![]
        }
    }
}

proof fn lemma_invested_bounds(s: Seq<Entry>, rules: Seq<InvesmentRule>)
    ensures
        total_invested(s, rules) + total_refunded(s, rules) == total(s),
    decreases s.len(),
{
    if s.len() > 0 {
        lemma_invested_bounds(s.drop_last(), rules);
    }
}

proof fn lemma_transferred_append(a: Seq<OutMsg>, b: Seq<OutMsg>)
    ensures
        transferred(a + b) == transferred(a) + transferred(b),
    decreases b.len(),
{
    if b.len() == 0 {
        assert(a + b =~= a);
    } else {
        assert((a + b).drop_last() =~= a + b.drop_last());
        lemma_transferred_append(a, b.drop_last());
    }
}

proof fn lemma_refunds_transferred(s: Seq<Entry>, rules: Seq<InvesmentRule>, currency: String)
    ensures
        transferred(refund_msgs(s, rules, currency)) == total_refunded(s, rules),
    decreases s.len(),
{
    if s.len() > 0 {
        let e = s.last();
        lemma_refunds_transferred(s.drop_last(), rules, currency);
        let tail = if e.amount > cap_for(rules, e.key@) {
            seq![
                OutMsg::Transfer {
                    token: currency,
                    recipient: e.key,
                    amount: (e.amount - cap_for(rules, e.key@)) as u128,
                },
            ]
        } else {
            seq![]
        };
        lemma_transferred_append(refund_msgs(s.drop_last(), rules, currency), tail);
        if e.amount > cap_for(rules, e.key@) {
            assert(tail.drop_last() =~= Seq::<OutMsg>::empty());
            assert(transferred(tail.drop_last()) == 0);
            assert(tail.last() == tail[0]);
            assert(transferred(tail) == (e.amount - cap_for(rules, e.key@)) as nat);
        } else {
            assert(transferred(tail) == 0);
        }
        assert(refund_msgs(s, rules, currency) == refund_msgs(s.drop_last(), rules, currency) + tail);
    }
}

/// Settling a bond conserves its subscriptions: every subscribed unit is
/// either paid to the issuer (`min(subscribed, cap)` per investor) or
/// refunded to the investor (`subscribed - min(subscribed, cap)`), so the
/// settlement moves exactly the subscribed total.
pub proof fn lemma_release_conserves(
    s: Seq<Entry>,
    rules: Seq<InvesmentRule>,
    issuer: String,
    currency: String,
)
    ensures
        total_invested(s, rules) + total_refunded(s, rules) == total(s),
        transferred(refund_msgs(s, rules, currency)) == total_refunded(s, rules),
        total(s) <= u128::MAX ==> transferred(release_msgs(s, rules, issuer, currency)) == total(s),
        total_invested(s, rules) <= total(s),
        release_msgs(s, rules, issuer, currency).last() == (OutMsg::Transfer {
            token: currency,
            recipient: issuer,
            amount: total_invested(s, rules) as u128,
        }),
{
    lemma_invested_bounds(s, rules);
    lemma_refunds_transferred(s, rules, currency);
    let r = refund_msgs(s, rules, currency);
    assert(release_msgs(s, rules, issuer, currency).drop_last() =~= r);
}

/// A fresh escrow administered by `sender`, who is also its first operator.
pub fn instantiate(sender: &String) -> (r: PlaceholderPlatform)
    ensures
        r.wf(),
        r.admin == *sender,
        r.factory is None,
        r.router is None,
        r.bond_tokens@.len() == 0,
        r.operators.log() == seq![crate::roles::OperatorGrant { account: *sender, enabled: true }],
        r.system_fee.entries().len() == 0,
        r.books().len() == 0,
{
    PlaceholderPlatform {
        admin: sender.clone(),
        factory: None,
        router: None,
        bond_tokens: Vec::new(),
        operators: Operators::with(sender),
        system_fee: Book::new(),
        subscriptions: Vec::new(),
    }
}

proof fn lemma_find_book_none(s: Seq<BondSubscriptions>, bond: Seq<char>)
    requires
        forall|j: int| 0 <= j < s.len() ==> s[j].bond_token@ != bond,
    ensures
        find_book(s, bond) is None,
    decreases s.len(),
{
    if s.len() > 0 {
        lemma_find_book_none(s.drop_last(), bond);
    }
}

/// Position of the latest record of `bond`.
fn find_bond(s: &Vec<BondSubscriptions>, bond: &String) -> (r: Option<usize>)
    ensures
        r matches Some(i) ==> i < s@.len() && s@[i as int].bond_token@ == bond@ && forall|j: int|
            i < j < s@.len() ==> s@[j].bond_token@ != bond@,
        r is None ==> find_book(s@, bond@) is None,
        r matches Some(i) ==> find_book(s@, bond@) == Some(s@[i as int].subscriptions),
{
    let mut i: usize = s.len();
    while i > 0
        invariant
            i <= s@.len(),
            forall|j: int| i <= j < s@.len() ==> s@[j].bond_token@ != bond@,
        decreases i,
    {
        if s[i - 1].bond_token == *bond {
            proof {
                lemma_find_book_at(s@, i - 1);
            }
            return Some(i - 1);
        }
        i = i - 1;
    }
    proof {
        lemma_find_book_none(s@, bond@);
    }
    None
}

/// Cap of `investor` under the first rule that names them.
fn cap_of(rules: &Vec<InvesmentRule>, investor: &String) -> (r: u128)
    ensures
        r == cap_for(rules@, investor@),
{
    let mut j: usize = 0;
    proof {
        assert(rules@.subrange(0, rules@.len() as int) =~= rules@);
    }
    while j < rules.len()
        invariant
            j <= rules@.len(),
            cap_for(rules@, investor@) == cap_for(rules@.subrange(j as int, rules@.len() as int), investor@),
        decreases rules@.len() - j,
    {
        let ghost rest = rules@.subrange(j as int, rules@.len() as int);
        proof {
            assert(rest[0] == rules@[j as int]);
            assert(rest.drop_first() =~= rules@.subrange(j + 1, rules@.len() as int));
        }
        if rules[j].investor == *investor {
            return rules[j].currency_amount;
        }
        j = j + 1;
    }
    0
}

/// Records the escrow's factory and orchestrator. Admin only.
pub fn setup(state: &mut PlaceholderPlatform, sender: &String, factory: String, router: String) -> (r: Result<
    (),
    PlaceholderErr,
>)
    ensures
        sender@ != old(state).admin@ ==> r == Err::<(), PlaceholderErr>(
            PlaceholderErr::NotAdmin { account: *sender },
        ) && *final(state) == *old(state),
        sender@ == old(state).admin@ ==> r is Ok && *final(state) == (PlaceholderPlatform {
            factory: Some(factory),
            router: Some(router),
            ..*old(state)
        }),
{
    if *sender != state.admin {
        return Err(PlaceholderErr::NotAdmin { account: sender.clone() });
    }
    state.factory = Some(factory);
    state.router = Some(router);
    Ok(())
}

/// Grants or revokes the operator role, account by account. Admin only;
/// the two lists must have the same length.
pub fn set_operators(
    state: &mut PlaceholderPlatform,
    sender: &String,
    operators: Vec<String>,
    is_operators: Vec<bool>,
) -> (r: Result<(), PlaceholderErr>)
    ensures
        sender@ != old(state).admin@ ==> r == Err::<(), PlaceholderErr>(
            PlaceholderErr::NotAdmin { account: *sender },
        ),
        sender@ == old(state).admin@ && operators@.len() != is_operators@.len() ==> r == Err::<
            (),
            PlaceholderErr,
        >(PlaceholderErr::LengthMismatch {}),
        r is Err ==> *final(state) == *old(state),
        sender@ == old(state).admin@ && operators@.len() == is_operators@.len() ==> {
            &&& r is Ok
            &&& final(state).operators.log() == old(state).operators.log() + grants(operators@, is_operators@)
            &&& *final(state) == (PlaceholderPlatform { operators: final(state).operators, ..*old(state) })
        },
{
    if *sender != state.admin {
        return Err(PlaceholderErr::NotAdmin { account: sender.clone() });
    }
    if operators.len() != is_operators.len() {
        return Err(PlaceholderErr::LengthMismatch {});
    }
    state.operators.apply(&operators, &is_operators);
    Ok(())
}

/// Lets `bond_token` register subscriptions. Operators only; a bond is
/// listed once however often it is registered.
pub fn register_bond_token(state: &mut PlaceholderPlatform, sender: &String, bond_token: String) -> (r: Result<
    (),
    PlaceholderErr,
>)
    ensures
        !old(state).operators.holds(sender@) ==> r == Err::<(), PlaceholderErr>(
            PlaceholderErr::NotOperator { account: *sender },
        ) && *final(state) == *old(state),
        old(state).operators.holds(sender@) ==> {
            &&& r is Ok
            &&& final(state).bond_tokens@ == if listed(old(state).bond_tokens@, bond_token@) {
                old(state).bond_tokens@
            } else {
                old(state).bond_tokens@.push(bond_token)
            }
            &&& *final(state) == (PlaceholderPlatform { bond_tokens: final(state).bond_tokens, ..*old(state) })
        },
{
    if !state.operators.check(sender) {
        return Err(PlaceholderErr::NotOperator { account: sender.clone() });
    }
    if !is_listed(&state.bond_tokens, &bond_token) {
        state.bond_tokens.push(bond_token);
    }
    Ok(())
}

/// Records, for the calling bond, `subscription_amount` more subscribed by
/// `investor`, and adds `fee_amount` to the fee pool of `currency`.
/// Registered bonds only.
pub fn register_subcription(
    state: &mut PlaceholderPlatform,
    sender: &String,
    investor: String,
    currency: String,
    subscription_amount: u128,
    fee_amount: u128,
) -> (r: Result<(), PlaceholderErr>)
    requires
        old(state).wf(),
    ensures
        final(state).wf(),
        !listed(old(state).bond_tokens@, sender@) ==> r == Err::<(), PlaceholderErr>(
            PlaceholderErr::NotBondToken { account: *sender },
        ),
        listed(old(state).bond_tokens@, sender@) && (old(state).system_fee.sum() + fee_amount > u128::MAX
            || total(entries_of(old(state).book(sender@))) + subscription_amount > u128::MAX) ==> r
            == Err::<(), PlaceholderErr>(PlaceholderErr::Overflow),
        r is Err ==> *final(state) == *old(state),
        listed(old(state).bond_tokens@, sender@) && old(state).system_fee.sum() + fee_amount <= u128::MAX
            && total(entries_of(old(state).book(sender@))) + subscription_amount <= u128::MAX ==> {
            &&& r is Ok
            &&& credited(old(state).system_fee.entries(), final(state).system_fee, currency@, fee_amount as nat)
            &&& (final(state).book(sender@) matches Some(b) && credited(
                entries_of(old(state).book(sender@)),
                b,
                investor@,
                subscription_amount as nat,
            ))
            &&& forall|b2: Seq<char>| b2 != sender@ ==> #[trigger] final(state).book(b2) == old(state).book(b2)
            &&& final(state).admin == old(state).admin
            &&& final(state).factory == old(state).factory
            &&& final(state).router == old(state).router
            &&& final(state).bond_tokens == old(state).bond_tokens
            &&& final(state).operators == old(state).operators
        },
{
    if !is_listed(&state.bond_tokens, sender) {
        return Err(PlaceholderErr::NotBondToken { account: sender.clone() });
    }
    if fee_amount > u128::MAX - state.system_fee.total() {
        return Err(PlaceholderErr::Overflow);
    }
    let ghost old_books = state.subscriptions@;
    match find_bond(&state.subscriptions, sender) {
        Some(i) => {
            proof {
                lemma_find_book_wf(old_books, sender@);
            }
            if subscription_amount > u128::MAX - state.subscriptions[i].subscriptions.total() {
                return Err(PlaceholderErr::Overflow);
            }
            let fee_ok = state.system_fee.credit(&currency, fee_amount);
            let mut record = state.subscriptions.remove(i);
            let sub_ok = record.subscriptions.credit(&investor, subscription_amount);
            state.subscriptions.insert(i, record);
            proof {
                assert(state.subscriptions@ =~= old_books.update(i as int, record));
                assert forall|b2: Seq<char>| #[trigger] find_book(state.subscriptions@, b2) == if b2
                    == sender@ {
                    Some(record.subscriptions)
                } else {
                    find_book(old_books, b2)
                } by {
                    lemma_find_book_update(old_books, i as int, record, b2);
                }
            }
        },
        None => {
            let fee_ok = state.system_fee.credit(&currency, fee_amount);
            let mut book = Book::new();
            let sub_ok = book.credit(&investor, subscription_amount);
            let record = BondSubscriptions { bond_token: sender.clone(), subscriptions: book };
            state.subscriptions.push(record);
            proof {
                assert(state.subscriptions@.drop_last() =~= old_books);
                assert(forall|b2: Seq<char>| b2 != sender@ ==> #[trigger] find_book(state.subscriptions@, b2)
                    == find_book(old_books, b2));
            }
        },
    }
    Ok(())
}

/// Settles a bond's subscriptions under the investment rules: each
/// subscription above its cap gets the excess back, and the issuer is paid
/// everything accepted in one transfer. Orchestrator only. Nothing marks
/// the bond as settled: asking twice pays twice.
pub fn release_currency(
    state: &PlaceholderPlatform,
    sender: &String,
    issuer: String,
    bond_token: String,
    currency: String,
    investment_rules: Vec<InvesmentRule>,
) -> (r: Result<Vec<OutMsg>, PlaceholderErr>)
    requires
        state.wf(),
    ensures
        state.router is None ==> r == Err::<Vec<OutMsg>, PlaceholderErr>(PlaceholderErr::ContractNotSetup {}),
        state.router matches Some(rt) ==> (rt@ != sender@ ==> r == Err::<Vec<OutMsg>, PlaceholderErr>(
            PlaceholderErr::NotRouter { account: *sender },
        )),
        state.router matches Some(rt) ==> (rt@ == sender@ ==> match state.book(bond_token@) {
            None => r == Err::<Vec<OutMsg>, PlaceholderErr>(
                PlaceholderErr::SubscriptionsNotFound { bond_token: bond_token },
            ),
            Some(b) => (r matches Ok(v) && v@ == release_msgs(b.entries(), investment_rules@, issuer, currency)),
        }),
{
    match &state.router {
        Some(rt) => {
            if *rt != *sender {
                return Err(PlaceholderErr::NotRouter { account: sender.clone() });
            }
        },
        None => {
            return Err(PlaceholderErr::ContractNotSetup {});
        },
    }
    let i = match find_bond(&state.subscriptions, &bond_token) {
        Some(i) => i,
        None => {
            return Err(PlaceholderErr::SubscriptionsNotFound { bond_token });
        },
    };
    let book = &state.subscriptions[i].subscriptions;
    let ghost s = book.entries();
    let ghost rules = investment_rules@;
    proof {
        lemma_find_book_wf(state.subscriptions@, bond_token@);
    }
    let mut msgs: Vec<OutMsg> = Vec::new();
    let mut invested_currency: u128 = 0;
    let mut j: usize = 0;
    while j < book.len()
        invariant
            book.wf(),
            s == book.entries(),
            rules == investment_rules@,
            j <= s.len(),
            msgs@ == refund_msgs(s.take(j as int), rules, currency),
            invested_currency == total_invested(s.take(j as int), rules),
        decreases s.len() - j,
    {
        let e = book.entry_at(j);
        let cap = cap_of(&investment_rules, &e.key);
        proof {
            assert(s.take(j + 1).drop_last() =~= s.take(j as int));
            assert(s.take(j + 1).last() == s[j as int]);
            lemma_invested_bounds(s.take(j + 1), rules);
            lemma_prefix_total(s, j + 1);
        }
        if e.amount > cap {
            invested_currency = invested_currency + cap;
            msgs.push(OutMsg::Transfer { token: currency.clone(), recipient: e.key.clone(), amount: e.amount - cap });
            proof {
                assert(msgs@ =~= refund_msgs(s.take(j + 1), rules, currency));
            }
        } else {
            invested_currency = invested_currency + e.amount;
            proof {
                assert(msgs@ =~= refund_msgs(s.take(j + 1), rules, currency));
            }
        }
        j = j + 1;
    }
    proof {
        assert(s.take(j as int) =~= s);
    }
    msgs.push(OutMsg::Transfer { token: currency, recipient: issuer, amount: invested_currency });
    Ok(msgs)
}

/// Transfers each non-empty fee pool to `recipient`. Admin only. The pools
/// keep their recorded amounts.
pub fn withdraw_system_fee(state: &PlaceholderPlatform, sender: &String, recipient: String) -> (r: Result<
    Vec<OutMsg>,
    PlaceholderErr,
>)
    requires
        state.wf(),
    ensures
        sender@ != state.admin@ ==> r == Err::<Vec<OutMsg>, PlaceholderErr>(
            PlaceholderErr::NotAdmin { account: *sender },
        ),
        sender@ == state.admin@ ==> (r matches Ok(v) && v@ == fee_msgs(state.system_fee.entries(), recipient)),
{
    if state.admin != *sender {
        return Err(PlaceholderErr::NotAdmin { account: sender.clone() });
    }
    let ghost s = state.system_fee.entries();
    let mut msgs: Vec<OutMsg> = Vec::new();
    let mut j: usize = 0;
    while j < state.system_fee.len()
        invariant
            s == state.system_fee.entries(),
            j <= s.len(),
            msgs@ == fee_msgs(s.take(j as int), recipient),
        decreases s.len() - j,
    {
        let e = state.system_fee.entry_at(j);
        proof {
            assert(s.take(j + 1).drop_last() =~= s.take(j as int));
            assert(s.take(j + 1).last() == s[j as int]);
        }
        if e.amount > 0 {
            msgs.push(OutMsg::Transfer { token: e.key.clone(), recipient: recipient.clone(), amount: e.amount });
        }
        proof {
            assert(msgs@ =~= fee_msgs(s.take(j + 1), recipient));
        }
        j = j + 1;
    }
    proof {
        assert(s.take(j as int) =~= s);
    }
    Ok(msgs)
}

/// The subscriptions recorded for `bond_token`, in listing order.
pub fn get_subscriptions(state: &PlaceholderPlatform, bond_token: &String) -> (r: Result<
    SubscriptionsResponse,
    PlaceholderErr,
>)
    ensures
        state.book(bond_token@) is None ==> r == Err::<SubscriptionsResponse, PlaceholderErr>(
            PlaceholderErr::SubscriptionsNotFound { bond_token: *bond_token },
        ),
        state.book(bond_token@) matches Some(b) ==> (r matches Ok(resp) && {
            &&& resp.subscriptions@.len() == b.entries().len()
            &&& forall|i: int|
                0 <= i < b.entries().len() ==> #[trigger] resp.subscriptions@[i] == (SubscriptionResponse {
                    investor: b.entries()[i].key,
                    currency_amount: b.entries()[i].amount,
                })
        }),
{
    let i = match find_bond(&state.subscriptions, bond_token) {
        Some(i) => i,
        None => {
            return Err(PlaceholderErr::SubscriptionsNotFound { bond_token: bond_token.clone() });
        },
    };
    let book = &state.subscriptions[i].subscriptions;
    let mut subscriptions: Vec<SubscriptionResponse> = Vec::new();
    let mut j: usize = 0;
    while j < book.len()
        invariant
            j <= book.entries().len(),
            subscriptions@.len() == j,
            forall|k: int|
                0 <= k < j ==> #[trigger] subscriptions@[k] == (SubscriptionResponse {
                    investor: book.entries()[k].key,
                    currency_amount: book.entries()[k].amount,
                }),
        decreases book.entries().len() - j,
    {
        let e = book.entry_at(j);
        subscriptions.push(SubscriptionResponse { investor: e.key.clone(), currency_amount: e.amount });
        j = j + 1;
    }
    Ok(SubscriptionsResponse { subscriptions })
}

/// Whether `bond_token` is registered with the escrow.
pub fn validate_bond_token(state: &PlaceholderPlatform, bond_token: &String) -> (r: BondValidationResponse)
    ensures
        r.validity == listed(state.bond_tokens@, bond_token@),
{
    BondValidationResponse { validity: is_listed(&state.bond_tokens, bond_token) }
}

} // verus!
