use vstd::prelude::*;

use crate::bond_token::{CurrencyResponse, HoldersResponse, Holder, IssuerResponse};
use crate::outbox::OutMsg;
use crate::bond_token::{with_phase, BondToken};
use crate::phase::{rank, transition_allowed, Phase};
use crate::placeholder::{BondValidationResponse, InvesmentRule, SubscriptionResponse, SubscriptionsResponse};
use crate::roles::{grants, Operators, OperatorGrant};

verus! {

/// Currency paid to an investor in a coupon round.
#[derive(Clone, Debug, PartialEq, Eq)]
pub struct Coupon {
    pub investor: String,
    pub currency_amount: u128,
}

#[derive(Clone, Debug, PartialEq, Eq)]
pub struct Cw20MintItem {
    pub cw20_token: String,
    pub recipient: String,
    pub amount: u128,
}

#[derive(Clone, Debug, PartialEq, Eq)]
pub struct Cw20TransferItem {
    pub cw20_token: String,
    pub sender: String,
    pub recipient: String,
    pub amount: u128,
}

#[derive(Clone, Debug, PartialEq, Eq)]
pub struct Cw20BatchBalanceQuery {
    pub cw20_token: String,
    pub cw20_holder: String,
}

#[derive(Clone, Debug, PartialEq, Eq)]
pub struct Cw20BatchBalanceResponse {
    pub balances: Vec<u128>,
}

#[derive(Clone, Debug, PartialEq, Eq)]
pub enum RouterErr {
    NotAdmin { account: String },
    NotOperator { account: String },
    LengthMismatch {},
    ContractNotSetup {},
    InvalidBondToken { bond_token: String },
    NotIssuer { caller: String, bond_token: String },
}

/// State of the orchestrator.
#[derive(Clone, Debug)]
pub struct RouterPlatform {
    pub admin: String,
    pub placeholder: Option<String>,
    pub factory: Option<String>,
    pub operators: Operators,
}

/// A fresh orchestrator administered by `sender`, who is also its first
/// operator.
pub fn instantiate(sender: &String) -> (r: RouterPlatform)
    ensures
        r.admin == *sender,
        r.placeholder is None,
        r.factory is None,
        r.operators.log() == seq![OperatorGrant { account: *sender, enabled: true }],
{
    RouterPlatform { admin: sender.clone(), placeholder: None, factory: None, operators: Operators::with(sender) }
}

/// Records the escrow and the factory. Admin only.
pub fn setup(state: &mut RouterPlatform, sender: &String, placeholder: String, factory: String) -> (r: Result<
    (),
    RouterErr,
>)
    ensures
        sender@ != old(state).admin@ ==> r == Err::<(), RouterErr>(RouterErr::NotAdmin { account: *sender })
            && *final(state) == *old(state),
        sender@ == old(state).admin@ ==> r is Ok && *final(state) == (RouterPlatform {
            placeholder: Some(placeholder),
            factory: Some(factory),
            ..*old(state)
        }),
{
    if *sender != state.admin {
        return Err(RouterErr::NotAdmin { account: sender.clone() });
    }
    state.placeholder = Some(placeholder);
    state.factory = Some(factory);
    Ok(())
}

/// Grants or revokes the operator role, account by account. Admin only;
/// the two lists must have the same length.
pub fn set_operators(state: &mut RouterPlatform, sender: &String, operators: Vec<String>, is_operators: Vec<bool>) -> (r:
    Result<(), RouterErr>)
    ensures
        sender@ != old(state).admin@ ==> r == Err::<(), RouterErr>(RouterErr::NotAdmin { account: *sender }),
        sender@ == old(state).admin@ && operators@.len() != is_operators@.len() ==> r == Err::<(), RouterErr>(
            RouterErr::LengthMismatch {},
        ),
        r is Err ==> *final(state) == *old(state),
        sender@ == old(state).admin@ && operators@.len() == is_operators@.len() ==> {
            &&& r is Ok
            &&& final(state).operators.log() == old(state).operators.log() + grants(operators@, is_operators@)
            &&& *final(state) == (RouterPlatform { operators: final(state).operators, ..*old(state) })
        },
{
    if *sender != state.admin {
        return Err(RouterErr::NotAdmin { account: sender.clone() });
    }
    if operators.len() != is_operators.len() {
        return Err(RouterErr::LengthMismatch {});
    }
    state.operators.apply(&operators, &is_operators);
    Ok(())
}

pub open spec fn mint_item_msg(item: Cw20MintItem) -> OutMsg {
    OutMsg::Mint { token: item.cw20_token, recipient: item.recipient, amount: item.amount }
}

pub open spec fn transfer_item_msg(item: Cw20TransferItem) -> OutMsg {
    OutMsg::TransferFrom {
        token: item.cw20_token,
        owner: item.sender,
        recipient: item.recipient,
        amount: item.amount,
    }
}

/// One mint per item, in order. Operators only.
pub fn cw20_mint_batch(state: &RouterPlatform, sender: &String, cw20_mint_items: Vec<Cw20MintItem>) -> (r: Result<
    Vec<OutMsg>,
    RouterErr,
>)
    ensures
        !state.operators.holds(sender@) ==> r == Err::<Vec<OutMsg>, RouterErr>(
            RouterErr::NotOperator { account: *sender },
        ),
        state.operators.holds(sender@) ==> (r matches Ok(v) && v@ == cw20_mint_items@.map_values(
            |i: Cw20MintItem| mint_item_msg(i),
        )),
{
    if !state.operators.check(sender) {
        return Err(RouterErr::NotOperator { account: sender.clone() });
    }
    let mut msgs: Vec<OutMsg> = Vec::new();
    let mut k: usize = 0;
    while k < cw20_mint_items.len()
        invariant
            k <= cw20_mint_items@.len(),
            msgs@ == cw20_mint_items@.take(k as int).map_values(|i: Cw20MintItem| mint_item_msg(i)),
        decreases cw20_mint_items@.len() - k,
    {
        let item = &cw20_mint_items[k];
        msgs.push(
            OutMsg::Mint { token: item.cw20_token.clone(), recipient: item.recipient.clone(), amount: item.amount },
        );
        proof {
            assert(msgs@ =~= cw20_mint_items@.take(k + 1).map_values(|i: Cw20MintItem| mint_item_msg(i)));
        }
        k = k + 1;
    }
    proof {
        assert(cw20_mint_items@.take(k as int) =~= cw20_mint_items@);
    }
    Ok(msgs)
}

/// One transfer under allowance per item, in order. Operators only.
pub fn cw20_transfer_batch(
    state: &RouterPlatform,
    sender: &String,
    cw20_transfer_items: Vec<Cw20TransferItem>,
) -> (r: Result<Vec<OutMsg>, RouterErr>)
    ensures
        !state.operators.holds(sender@) ==> r == Err::<Vec<OutMsg>, RouterErr>(
            RouterErr::NotOperator { account: *sender },
        ),
        state.operators.holds(sender@) ==> (r matches Ok(v) && v@ == cw20_transfer_items@.map_values(
            |i: Cw20TransferItem| transfer_item_msg(i),
        )),
{
    if !state.operators.check(sender) {
        return Err(RouterErr::NotOperator { account: sender.clone() });
    }
    let mut msgs: Vec<OutMsg> = Vec::new();
    let mut k: usize = 0;
    while k < cw20_transfer_items.len()
        invariant
            k <= cw20_transfer_items@.len(),
            msgs@ == cw20_transfer_items@.take(k as int).map_values(|i: Cw20TransferItem| transfer_item_msg(i)),
        decreases cw20_transfer_items@.len() - k,
    {
        let item = &cw20_transfer_items[k];
        msgs.push(
            OutMsg::TransferFrom {
                token: item.cw20_token.clone(),
                owner: item.sender.clone(),
                recipient: item.recipient.clone(),
                amount: item.amount,
            },
        );
        proof {
            assert(msgs@ =~= cw20_transfer_items@.take(k + 1).map_values(
                |i: Cw20TransferItem| transfer_item_msg(i),
            ));
        }
        k = k + 1;
    }
    proof {
        assert(cw20_transfer_items@.take(k as int) =~= cw20_transfer_items@);
    }
    Ok(msgs)
}

/// The checks every issuer workflow starts with: the escrow is known, it
/// lists the bond, and the bond names the caller as its issuer.
pub open spec fn gate(
    state: RouterPlatform,
    sender: String,
    bond_token: String,
    validation: BondValidationResponse,
    issuer: IssuerResponse,
) -> Option<RouterErr> {
    if state.placeholder is None {
        Some(RouterErr::ContractNotSetup {})
    } else if !validation.validity {
        Some(RouterErr::InvalidBondToken { bond_token: bond_token })
    } else if issuer.issuer@ != sender@ {
        Some(RouterErr::NotIssuer { caller: sender, bond_token: bond_token })
    } else {
        None
    }
}

fn check_gate(
    state: &RouterPlatform,
    sender: &String,
    bond_token: &String,
    validation: &BondValidationResponse,
    issuer: &IssuerResponse,
) -> (r: Option<RouterErr>)
    ensures
        r == gate(*state, *sender, *bond_token, *validation, *issuer),
{
    if state.placeholder.is_none() {
        return Some(RouterErr::ContractNotSetup {});
    }
    if !validation.validity {
        return Some(RouterErr::InvalidBondToken { bond_token: bond_token.clone() });
    }
    if issuer.issuer != *sender {
        return Some(RouterErr::NotIssuer { caller: sender.clone(), bond_token: bond_token.clone() });
    }
    None
}

/// Currency accepted from `sub` under `rule`: the smaller of the two.
pub open spec fn accepted(rule: InvesmentRule, sub: SubscriptionResponse) -> u128 {
    if sub.currency_amount > rule.currency_amount {
        rule.currency_amount
    } else {
        sub.currency_amount
    }
}

/// Mints for one rule: one per subscription of the rule's investor whose
/// accepted amount is positive.
pub open spec fn rule_mints(rule: InvesmentRule, subs: Seq<SubscriptionResponse>, bond_token: String, issuer: String) -> Seq<
    OutMsg,
>
    decreases subs.len(),
{
    if subs.len() == 0 {
        seq![]
    } else {
        let sub = subs.last();
        rule_mints(rule, subs.drop_last(), bond_token, issuer) + if rule.investor@ == sub.investor@ && accepted(
            rule,
            sub,
        ) > 0 {
            seq![
                OutMsg::MintToInvestor {
                    bond_token: bond_token,
                    issuer: issuer,
                    recipient: rule.investor,
                    currency_amount: accepted(rule, sub),
                },
            ]
        } else {
            seq![]
        }
    }
}

/// Mints for all rules, rule by rule.
pub open spec fn distribution_mints(
    rules: Seq<InvesmentRule>,
    subs: Seq<SubscriptionResponse>,
    bond_token: String,
    issuer: String,
) -> Seq<OutMsg>
    decreases rules.len(),
{
    if rules.len() == 0 {
        seq![]
    } else {
        distribution_mints(rules.drop_last(), subs, bond_token, issuer) + rule_mints(
            rules.last(),
            subs,
            bond_token,
            issuer,
        )
    }
}

/// Distribution: move the bond to `Distribution`, mint to each investor the
/// units their accepted currency buys, then let the escrow refund the
/// excess and pay the issuer.
pub open spec fn distribute_msgs(
    placeholder: String,
    sender: String,
    bond_token: String,
    rules: Vec<InvesmentRule>,
    subs: Seq<SubscriptionResponse>,
    currency: String,
) -> Seq<OutMsg> {
    seq![OutMsg::UpdatePhase { bond_token: bond_token, phase: Phase::Distribution }] + distribution_mints(
        rules@,
        subs,
        bond_token,
        sender,
    ) + seq![
        OutMsg::ReleaseCurrency {
            placeholder: placeholder,
            issuer: sender,
            bond_token: bond_token,
            currency: currency,
            investment_rules: rules,
        },
    ]
}

/// Sequences a distribution for the bond's issuer, given what the escrow
/// and the bond answered: whether the bond is registered, its issuer, its
/// subscriptions, and its currency.
pub fn distribute(
    state: &RouterPlatform,
    sender: &String,
    bond_token: String,
    investment_rules: Vec<InvesmentRule>,
    validation: &BondValidationResponse,
    issuer: &IssuerResponse,
    subscriptions: &SubscriptionsResponse,
    currency: &CurrencyResponse,
) -> (r: Result<Vec<OutMsg>, RouterErr>)
    ensures
        gate(*state, *sender, bond_token, *validation, *issuer) matches Some(e) ==> r == Err::<
            Vec<OutMsg>,
            RouterErr,
        >(e),
        gate(*state, *sender, bond_token, *validation, *issuer) is None ==> (r matches Ok(v) && v@
            == distribute_msgs(
            state.placeholder->Some_0,
            *sender,
            bond_token,
            investment_rules,
            subscriptions.subscriptions@,
            currency.currency,
        )),
{
    if let Some(e) = check_gate(state, sender, &bond_token, validation, issuer) {
        return Err(e);
    }
    let placeholder = match &state.placeholder {
        Some(p) => p.clone(),
        None => {
            return Err(RouterErr::ContractNotSetup {});
        },
    };
    let ghost rules = investment_rules@;
    let ghost subs = subscriptions.subscriptions@;
    let ghost head = seq![OutMsg::UpdatePhase { bond_token: bond_token, phase: Phase::Distribution }];
    let mut msgs: Vec<OutMsg> = Vec::new();
    msgs.push(OutMsg::UpdatePhase { bond_token: bond_token.clone(), phase: Phase::Distribution });
    let mut i: usize = 0;
    while i < investment_rules.len()
        invariant
            i <= rules.len(),
            rules == investment_rules@,
            subs == subscriptions.subscriptions@,
            msgs@ == head + distribution_mints(rules.take(i as int), subs, bond_token, *sender),
        decreases rules.len() - i,
    {
        let rule = &investment_rules[i];
        let ghost before = msgs@;
        let mut j: usize = 0;
        while j < subscriptions.subscriptions.len()
            invariant
                i < rules.len(),
                rules == investment_rules@,
                *rule == rules[i as int],
                subs == subscriptions.subscriptions@,
                j <= subs.len(),
                msgs@ == before + rule_mints(*rule, subs.take(j as int), bond_token, *sender),
            decreases subs.len() - j,
        {
            let sub = &subscriptions.subscriptions[j];
            proof {
                assert(subs.take(j + 1).drop_last() =~= subs.take(j as int));
                assert(subs.take(j + 1).last() == subs[j as int]);
            }
            if rule.investor == sub.investor {
                let invested_currency = if sub.currency_amount > rule.currency_amount {
                    rule.currency_amount
                } else {
                    sub.currency_amount
                };
                if invested_currency > 0 {
                    msgs.push(
                        OutMsg::MintToInvestor {
                            bond_token: bond_token.clone(),
                            issuer: sender.clone(),
                            recipient: rule.investor.clone(),
                            currency_amount: invested_currency,
                        },
                    );
                }
            }
            proof {
                assert(msgs@ =~= before + rule_mints(*rule, subs.take(j + 1), bond_token, *sender));
            }
            j = j + 1;
        }
        proof {
            assert(subs.take(j as int) =~= subs);
            assert(rules.take(i + 1).drop_last() =~= rules.take(i as int));
            assert(rules.take(i + 1).last() == rules[i as int]);
            assert(msgs@ =~= head + distribution_mints(rules.take(i + 1), subs, bond_token, *sender));
        }
        i = i + 1;
    }
    proof {
        assert(rules.take(i as int) =~= rules);
    }
    msgs.push(
        OutMsg::ReleaseCurrency {
            placeholder,
            issuer: sender.clone(),
            bond_token,
            currency: currency.currency.clone(),
            investment_rules,
        },
    );
    Ok(msgs)
}

pub open spec fn coupon_msg(currency: String, issuer: String, c: Coupon) -> OutMsg {
    OutMsg::TransferFrom { token: currency, owner: issuer, recipient: c.investor, amount: c.currency_amount }
}

/// A coupon round: move the bond to `Coupon`, then pay each coupon from the
/// issuer under allowance, in the given order.
pub open spec fn coupon_msgs(bond_token: String, issuer: String, currency: String, coupons: Seq<Coupon>) -> Seq<
    OutMsg,
> {
    seq![OutMsg::UpdatePhase { bond_token: bond_token, phase: Phase::Coupon }] + coupons.map_values(
        |c: Coupon| coupon_msg(currency, issuer, c),
    )
}

/// Sequences a coupon round for the bond's issuer, given whether the bond is
/// registered, its issuer and its currency.
pub fn send_coupon(
    state: &RouterPlatform,
    sender: &String,
    bond_token: String,
    coupons: Vec<Coupon>,
    validation: &BondValidationResponse,
    issuer: &IssuerResponse,
    currency: &CurrencyResponse,
) -> (r: Result<Vec<OutMsg>, RouterErr>)
    ensures
        gate(*state, *sender, bond_token, *validation, *issuer) matches Some(e) ==> r == Err::<
            Vec<OutMsg>,
            RouterErr,
        >(e),
        gate(*state, *sender, bond_token, *validation, *issuer) is None ==> (r matches Ok(v) && v@
            == coupon_msgs(bond_token, *sender, currency.currency, coupons@)),
{
    if let Some(e) = check_gate(state, sender, &bond_token, validation, issuer) {
        return Err(e);
    }
    let ghost head = seq![OutMsg::UpdatePhase { bond_token: bond_token, phase: Phase::Coupon }];
    let mut msgs: Vec<OutMsg> = Vec::new();
    msgs.push(OutMsg::UpdatePhase { bond_token, phase: Phase::Coupon });
    let mut k: usize = 0;
    while k < coupons.len()
        invariant
            k <= coupons@.len(),
            msgs@ == head + coupons@.take(k as int).map_values(
                |c: Coupon| coupon_msg(currency.currency, *sender, c),
            ),
        decreases coupons@.len() - k,
    {
        let c = &coupons[k];
        msgs.push(
            OutMsg::TransferFrom {
                token: currency.currency.clone(),
                owner: sender.clone(),
                recipient: c.investor.clone(),
                amount: c.currency_amount,
            },
        );
        proof {
            assert(msgs@ =~= head + coupons@.take(k + 1).map_values(
                |c: Coupon| coupon_msg(currency.currency, *sender, c),
            ));
        }
        k = k + 1;
    }
    proof {
        assert(coupons@.take(k as int) =~= coupons@);
    }
    Ok(msgs)
}

/// Principal returned to one holder, then their units burnt.
pub open spec fn holder_msgs(bond_token: String, issuer: String, currency: String, h: Holder) -> Seq<OutMsg> {
    seq![
        OutMsg::TransferFrom {
            token: currency,
            owner: issuer,
            recipient: h.account,
            amount: h.balance_in_currency,
        },
        OutMsg::BurnFromHolder { bond_token: bond_token, issuer: issuer, holder: h.account },
    ]
}

pub open spec fn redemption_payouts(bond_token: String, issuer: String, currency: String, holders: Seq<Holder>) -> Seq<
    OutMsg,
>
    decreases holders.len(),
{
    if holders.len() == 0 {
        seq![]
    } else {
        redemption_payouts(bond_token, issuer, currency, holders.drop_last()) + holder_msgs(
            bond_token,
            issuer,
            currency,
            holders.last(),
        )
    }
}

/// Redemption: move the bond to `Redemption`, then for each holder in
/// listing order pay their principal from the issuer and burn their units.
pub open spec fn redeem_msgs(bond_token: String, issuer: String, currency: String, holders: Seq<Holder>) -> Seq<
    OutMsg,
> {
    seq![OutMsg::UpdatePhase { bond_token: bond_token, phase: Phase::Redemption }] + redemption_payouts(
        bond_token,
        issuer,
        currency,
        holders,
    )
}

/// Sequences the redemption of a bond for its issuer, given whether the bond
/// is registered, its issuer, its currency and its holders.
pub fn redeem(
    state: &RouterPlatform,
    sender: &String,
    bond_token: String,
    validation: &BondValidationResponse,
    issuer: &IssuerResponse,
    currency: &CurrencyResponse,
    holders: &HoldersResponse,
) -> (r: Result<Vec<OutMsg>, RouterErr>)
    ensures
        gate(*state, *sender, bond_token, *validation, *issuer) matches Some(e) ==> r == Err::<
            Vec<OutMsg>,
            RouterErr,
        >(e),
        gate(*state, *sender, bond_token, *validation, *issuer) is None ==> (r matches Ok(v) && v@
            == redeem_msgs(bond_token, *sender, currency.currency, holders.holders@)),
{
    if let Some(e) = check_gate(state, sender, &bond_token, validation, issuer) {
        return Err(e);
    }
    let ghost hs = holders.holders@;
    let ghost head = seq![OutMsg::UpdatePhase { bond_token: bond_token, phase: Phase::Redemption }];
    let mut msgs: Vec<OutMsg> = Vec::new();
    msgs.push(OutMsg::UpdatePhase { bond_token: bond_token.clone(), phase: Phase::Redemption });
    let mut k: usize = 0;
    while k < holders.holders.len()
        invariant
            k <= hs.len(),
            hs == holders.holders@,
            msgs@ == head + redemption_payouts(bond_token, *sender, currency.currency, hs.take(k as int)),
        decreases hs.len() - k,
    {
        let h = &holders.holders[k];
        msgs.push(
            OutMsg::TransferFrom {
                token: currency.currency.clone(),
                owner: sender.clone(),
                recipient: h.account.clone(),
                amount: h.balance_in_currency,
            },
        );
        msgs.push(
            OutMsg::BurnFromHolder { bond_token: bond_token.clone(), issuer: sender.clone(), holder: h.account.clone() },
        );
        proof {
            assert(hs.take(k + 1).drop_last() =~= hs.take(k as int));
            assert(hs.take(k + 1).last() == hs[k as int]);
            assert(msgs@ =~= head + redemption_payouts(bond_token, *sender, currency.currency, hs.take(k + 1)));
        }
        k = k + 1;
    }
    proof {
        assert(hs.take(k as int) =~= hs);
    }
    Ok(msgs)
}

/// A bond is distributed at most once. A distribution's first call moves the
/// bond to `Distribution`, which only a bond in `Subscription` accepts; once
/// that call has been applied, the bond's phase never returns below
/// `Distribution`, so the first call of any later distribution is refused
/// and the whole later distribution with it.
pub proof fn lemma_distribute_once(
    placeholder: String,
    sender: String,
    bond_token: String,
    rules: Vec<InvesmentRule>,
    subs: Seq<SubscriptionResponse>,
    currency: String,
    t0: BondToken,
    later: Phase,
)
    requires
        transition_allowed(t0.current_phase, Phase::Distribution),
        rank(later) >= rank(with_phase(t0, Phase::Distribution).current_phase),
    ensures
        distribute_msgs(placeholder, sender, bond_token, rules, subs, currency)[0] == (OutMsg::UpdatePhase {
            bond_token: bond_token,
            phase: Phase::Distribution,
        }),
        t0.current_phase == Phase::Subscription,
        !transition_allowed(later, Phase::Distribution),
{
}

} // verus!
