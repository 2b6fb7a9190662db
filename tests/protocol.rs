use std::collections::HashMap;

use bond_issuance::bond_token::{
    self, estimate_redemption_amount, get_currency, get_holders, get_issuer, BondToken, Denomination,
    FunctionSetup,
};
use bond_issuance::factory::{self, FactoryPlatform};
use bond_issuance::outbox::{InstantiatePayload, OutMsg};
use bond_issuance::placeholder::{self, get_subscriptions, validate_bond_token, InvesmentRule, PlaceholderPlatform};
use bond_issuance::router::{self, Coupon, RouterPlatform};
use bond_issuance::bond_token::Cw20Coin;

const ADMIN: &str = "cosmos10w2pwzxaacsj508ma5ruz5wnhn83tld73shr4a";
const ISSUER: &str = "cosmos10w2pwzxaacsj508ma5ruz5wnhn83tld73shr4b";
const INVESTOR_1: &str = "cosmos10w2pwzxaacsj508ma5ruz5wnhn83tld73shr4c";
const INVESTOR_2: &str = "cosmos10w2pwzxaacsj508ma5ruz5wnhn83tld73shr4d";
const OPERATOR: &str = "cosmos10w2pwzxaacsj508ma5ruz5wnhn83tld73shr4e";

const FACTORY: &str = "contract0";
const PLACEHOLDER: &str = "contract1";
const ROUTER: &str = "contract2";

const SUBSCRIPTION_FEE_PERCENTAGE: u128 = 5000;

/// A currency ledger with allowances, enough to carry out the calls the
/// components ask for.
#[derive(Clone, Default)]
struct Currency {
    balances: HashMap<String, u128>,
    allowances: HashMap<(String, String), u128>,
}

impl Currency {
    fn balance(&self, a: &str) -> u128 {
        *self.balances.get(a).unwrap_or(&0)
    }

    fn transfer(&mut self, from: &str, to: &str, amount: u128) -> Result<(), String> {
        if amount == 0 {
            return Err("invalid zero amount".to_string());
        }
        let have = self.balance(from);
        if have < amount {
            return Err("insufficient funds".to_string());
        }
        self.balances.insert(from.to_string(), have - amount);
        let to_have = self.balance(to);
        self.balances.insert(to.to_string(), to_have + amount);
        Ok(())
    }

    fn increase_allowance(&mut self, owner: &str, spender: &str, amount: u128) {
        let k = (owner.to_string(), spender.to_string());
        let have = *self.allowances.get(&k).unwrap_or(&0);
        self.allowances.insert(k, have + amount);
    }

    fn transfer_from(&mut self, spender: &str, owner: &str, to: &str, amount: u128) -> Result<(), String> {
        let k = (owner.to_string(), spender.to_string());
        let have = *self.allowances.get(&k).unwrap_or(&0);
        if have < amount {
            return Err("no allowance".to_string());
        }
        self.allowances.insert(k, have - amount);
        self.transfer(owner, to, amount)
    }
}

#[derive(Clone)]
struct World {
    factory: FactoryPlatform,
    placeholder: PlaceholderPlatform,
    router: RouterPlatform,
    currency_address: String,
    currency: Currency,
    bond_address: String,
    bond: Option<BondToken>,
    next_contract: u32,
}

fn s(x: &str) -> String {
    x.to_string()
}

impl World {
    fn new() -> World {
        World {
            factory: factory::instantiate(&s(ADMIN), 1, 2),
            placeholder: placeholder::instantiate(&s(ADMIN)),
            router: router::instantiate(&s(ADMIN)),
            currency_address: String::new(),
            currency: Currency::default(),
            bond_address: String::new(),
            bond: None,
            next_contract: 3,
        }
    }

    fn bond(&mut self) -> &mut BondToken {
        self.bond.as_mut().unwrap()
    }

    /// Runs the calls issued by contract `from`, each one's own calls right
    /// after it.
    fn run(&mut self, from: &str, msgs: Vec<OutMsg>) -> Result<(), String> {
        for m in msgs {
            self.dispatch(from, m)?;
        }
        Ok(())
    }

    fn dispatch(&mut self, from: &str, m: OutMsg) -> Result<(), String> {
        match m {
            OutMsg::Transfer { token, recipient, amount } => {
                assert_eq!(token, self.currency_address);
                self.currency.transfer(from, &recipient, amount)
            }
            OutMsg::TransferFrom { token, owner, recipient, amount } => {
                assert_eq!(token, self.currency_address);
                self.currency.transfer_from(from, &owner, &recipient, amount)
            }
            OutMsg::Mint { .. } => Err("not used here".to_string()),
            OutMsg::UpdatePhase { bond_token, phase } => {
                assert_eq!(bond_token, self.bond_address);
                bond_token::update_phase(self.bond(), &s(from), phase).map_err(|e| format!("{:?}", e))
            }
            OutMsg::MintToInvestor { bond_token, issuer, recipient, currency_amount } => {
                assert_eq!(bond_token, self.bond_address);
                bond_token::mint_to_investor(self.bond(), &s(from), &issuer, &recipient, currency_amount)
                    .map(|_| ())
                    .map_err(|e| format!("{:?}", e))
            }
            OutMsg::BurnFromHolder { bond_token, issuer, holder } => {
                assert_eq!(bond_token, self.bond_address);
                bond_token::burn_from_holder(self.bond(), &s(from), &issuer, &holder)
                    .map(|_| ())
                    .map_err(|e| format!("{:?}", e))
            }
            OutMsg::RegisterSubscription { placeholder, investor, currency, subscription_amount, fee_amount } => {
                assert_eq!(placeholder, PLACEHOLDER);
                placeholder::register_subcription(
                    &mut self.placeholder,
                    &s(from),
                    investor,
                    currency,
                    subscription_amount,
                    fee_amount,
                )
                .map_err(|e| format!("{:?}", e))
            }
            OutMsg::ReleaseCurrency { placeholder, issuer, bond_token, currency, investment_rules } => {
                assert_eq!(placeholder, PLACEHOLDER);
                let msgs = placeholder::release_currency(
                    &self.placeholder,
                    &s(from),
                    issuer,
                    bond_token,
                    currency,
                    investment_rules,
                )
                .map_err(|e| format!("{:?}", e))?;
                self.run(PLACEHOLDER, msgs)
            }
            OutMsg::Instantiate { msg, .. } => {
                let address = format!("contract{}", self.next_contract);
                self.next_contract += 1;
                match msg {
                    InstantiatePayload::Currency(info) => {
                        for c in info.initial_balances {
                            self.currency.balances.insert(c.address, c.amount);
                        }
                        self.currency_address = address;
                    }
                    InstantiatePayload::BondToken(m) => {
                        self.bond = Some(bond_token::instantiate(m).map_err(|e| format!("{:?}", e))?);
                        self.bond_address = address;
                    }
                    InstantiatePayload::Raw(_) => {}
                }
                Ok(())
            }
        }
    }

    /// One top-level invocation: all of it applies, or none of it.
    fn invoke(&mut self, f: impl FnOnce(&mut World) -> Result<(), String>) -> Result<(), String> {
        let before = self.clone();
        let r = f(self);
        if r.is_err() {
            *self = before;
        }
        r
    }

    fn subscribe(&mut self, investor: &str, amount: u128) -> Result<(), String> {
        self.invoke(|w| {
            let msgs = bond_token::subscribe(w.bond.as_ref().unwrap(), &s(investor), amount, 0)
                .map_err(|e| format!("{:?}", e))?;
            let bond = w.bond_address.clone();
            w.run(&bond, msgs)
        })
    }

    fn distribute(&mut self, caller: &str, rules: Vec<InvesmentRule>) -> Result<(), String> {
        self.invoke(|w| {
            let bond = w.bond_address.clone();
            let validation = validate_bond_token(&w.placeholder, &bond);
            let issuer = get_issuer(w.bond.as_ref().unwrap());
            let subs = get_subscriptions(&w.placeholder, &bond).map_err(|e| format!("{:?}", e))?;
            let currency = get_currency(w.bond.as_ref().unwrap());
            let msgs = router::distribute(&w.router, &s(caller), bond, rules, &validation, &issuer, &subs, &currency)
                .map_err(|e| format!("{:?}", e))?;
            w.run(ROUTER, msgs)
        })
    }

    fn send_coupon(&mut self, caller: &str, coupons: Vec<Coupon>) -> Result<(), String> {
        self.invoke(|w| {
            let bond = w.bond_address.clone();
            let validation = validate_bond_token(&w.placeholder, &bond);
            let issuer = get_issuer(w.bond.as_ref().unwrap());
            let currency = get_currency(w.bond.as_ref().unwrap());
            let msgs = router::send_coupon(&w.router, &s(caller), bond, coupons, &validation, &issuer, &currency)
                .map_err(|e| format!("{:?}", e))?;
            w.run(ROUTER, msgs)
        })
    }

    fn redeem(&mut self, caller: &str) -> Result<(), String> {
        self.invoke(|w| {
            let bond = w.bond_address.clone();
            let validation = validate_bond_token(&w.placeholder, &bond);
            let issuer = get_issuer(w.bond.as_ref().unwrap());
            let currency = get_currency(w.bond.as_ref().unwrap());
            let holders = get_holders(w.bond.as_ref().unwrap()).map_err(|e| format!("{:?}", e))?;
            let msgs = router::redeem(&w.router, &s(caller), bond, &validation, &issuer, &currency, &holders)
                .map_err(|e| format!("{:?}", e))?;
            w.run(ROUTER, msgs)
        })
    }

    fn bond_balance(&self, a: &str) -> u128 {
        self.bond.as_ref().unwrap().balances.get(&s(a))
    }
}

/// Creates the currency and the bond, wires the components and registers
/// the bond, as an operator would.
fn issued_world() -> World {
    let mut w = World::new();
    let m = factory::instantiate_currency(
        &w.factory,
        &s(ADMIN),
        s("Tether USDT"),
        s("USDT"),
        6,
        vec![
            Cw20Coin { address: s(INVESTOR_1), amount: 1000 },
            Cw20Coin { address: s(INVESTOR_2), amount: 2000 },
            Cw20Coin { address: s(ISSUER), amount: 500 },
        ],
        None,
        None,
    )
    .unwrap();
    w.run(FACTORY, vec![m]).unwrap();

    factory::setup(&mut w.factory, &s(ADMIN), s(PLACEHOLDER), s(ROUTER)).unwrap();
    placeholder::setup(&mut w.placeholder, &s(ADMIN), s(FACTORY), s(ROUTER)).unwrap();
    router::setup(&mut w.router, &s(ADMIN), s(PLACEHOLDER), s(FACTORY)).unwrap();
    factory::set_operators(&mut w.factory, &s(ADMIN), vec![s(OPERATOR)], vec![true]).unwrap();
    placeholder::set_operators(&mut w.placeholder, &s(ADMIN), vec![s(OPERATOR)], vec![true]).unwrap();

    let m = factory::instantiate_bond_token(
        &w.factory,
        &s(OPERATOR),
        s(ISSUER),
        s("Bond Token"),
        s("BOND-TOKEN"),
        18,
        vec![],
        FunctionSetup { transfer: true, burn: true, mint_to_investor: true, subscribe: true },
        s("no additional data"),
        w.currency_address.clone(),
        Denomination { currency_amount: 3, bond_amount: 2 },
        Some(SUBSCRIPTION_FEE_PERCENTAGE),
        None,
    )
    .unwrap();
    w.run(FACTORY, vec![m]).unwrap();

    let bond = w.bond_address.clone();
    placeholder::register_bond_token(&mut w.placeholder, &s(OPERATOR), bond).unwrap();
    w
}

fn subscribed_world() -> World {
    let mut w = issued_world();
    let bond = w.bond_address.clone();
    w.currency.increase_allowance(INVESTOR_1, &bond, 600);
    w.subscribe(INVESTOR_1, 600).unwrap();
    w.currency.increase_allowance(INVESTOR_2, &bond, 1134);
    w.subscribe(INVESTOR_2, 1134).unwrap();
    w
}

fn rules() -> Vec<InvesmentRule> {
    vec![
        InvesmentRule { investor: s(INVESTOR_1), currency_amount: 270 },
        InvesmentRule { investor: s(INVESTOR_2), currency_amount: 1000 },
    ]
}

#[test]
fn factory_test() {
    let mut w = subscribed_world();
    assert_eq!(w.currency.balance(PLACEHOLDER), 1734);

    w.distribute(ISSUER, rules()).unwrap();
    assert_eq!(w.currency.balance(PLACEHOLDER), 867);
    assert_eq!(w.currency.balance(INVESTOR_1), 430);
    assert_eq!(w.currency.balance(INVESTOR_2), 866);
    assert_eq!(w.currency.balance(ISSUER), 1337);
    assert_eq!(w.bond_balance(INVESTOR_1), 180);
    assert_eq!(w.bond_balance(INVESTOR_2), 378);

    w.currency.increase_allowance(ISSUER, ROUTER, 444);
    w.send_coupon(
        ISSUER,
        vec![
            Coupon { investor: s(INVESTOR_1), currency_amount: 123 },
            Coupon { investor: s(INVESTOR_2), currency_amount: 321 },
        ],
    )
    .unwrap();
    assert_eq!(w.currency.balance(INVESTOR_1), 553);
    assert_eq!(w.currency.balance(INVESTOR_2), 1187);
    assert_eq!(w.currency.balance(ISSUER), 893);

    let redemption = estimate_redemption_amount(w.bond.as_ref().unwrap()).unwrap();
    w.currency.increase_allowance(ISSUER, ROUTER, redemption.redemption_amount);
    w.redeem(ISSUER).unwrap();
    assert_eq!(redemption.redemption_amount, 837);
    assert_eq!(w.currency.balance(INVESTOR_1), 823);
    assert_eq!(w.currency.balance(INVESTOR_2), 1754);
    assert_eq!(w.currency.balance(ISSUER), 56);
    assert_eq!(w.bond_balance(INVESTOR_1), 0);
    assert_eq!(w.bond_balance(INVESTOR_2), 0);
    assert_eq!(w.currency.balance(PLACEHOLDER), 867);

    let msgs = placeholder::withdraw_system_fee(&w.placeholder, &s(ADMIN), s(ADMIN)).unwrap();
    w.run(PLACEHOLDER, msgs).unwrap();
    assert_eq!(w.currency.balance(PLACEHOLDER), 0);
    assert_eq!(w.currency.balance(ADMIN), 867);
}

#[test]
fn round_trip_tracks_escrow_fees_and_supply() {
    let mut w = subscribed_world();
    let subs = get_subscriptions(&w.placeholder, &w.bond_address.clone()).unwrap().subscriptions;
    assert_eq!(subs.len(), 2);
    assert_eq!((subs[0].investor.as_str(), subs[0].currency_amount), (INVESTOR_1, 300));
    assert_eq!((subs[1].investor.as_str(), subs[1].currency_amount), (INVESTOR_2, 567));
    assert_eq!(w.placeholder.system_fee.get(&w.currency_address.clone()), 867);

    w.distribute(ISSUER, rules()).unwrap();
    assert_eq!(w.bond.as_ref().unwrap().balances.total(), 558);
    assert_eq!(w.bond.as_ref().unwrap().current_phase, bond_issuance::phase::Phase::Distribution);

    w.currency.increase_allowance(ISSUER, ROUTER, 1000);
    w.send_coupon(ISSUER, vec![Coupon { investor: s(INVESTOR_1), currency_amount: 1 }]).unwrap();
    w.redeem(ISSUER).unwrap();
    assert_eq!(w.bond.as_ref().unwrap().balances.total(), 0);
    assert_eq!(w.placeholder.system_fee.get(&w.currency_address.clone()), 867);
    assert_eq!(w.currency.balance(PLACEHOLDER), 867);
}

#[test]
fn second_distribution_is_rejected_and_changes_nothing() {
    let mut w = subscribed_world();
    w.distribute(ISSUER, rules()).unwrap();
    let escrow_before = w.currency.balance(PLACEHOLDER);
    let issuer_before = w.currency.balance(ISSUER);
    let supply_before = w.bond.as_ref().unwrap().balances.total();
    let second = w.distribute(ISSUER, rules());
    assert!(second.is_err());
    assert!(second.unwrap_err().contains("InvalidPhase"));
    assert_eq!(w.currency.balance(PLACEHOLDER), escrow_before);
    assert_eq!(w.currency.balance(ISSUER), issuer_before);
    assert_eq!(w.bond.as_ref().unwrap().balances.total(), supply_before);
}

#[test]
fn coupon_before_distribution_is_rejected() {
    let mut w = subscribed_world();
    w.currency.increase_allowance(ISSUER, ROUTER, 100);
    let r = w.send_coupon(ISSUER, vec![Coupon { investor: s(INVESTOR_1), currency_amount: 10 }]);
    assert!(r.unwrap_err().contains("InvalidPhase"));
    assert_eq!(w.currency.balance(INVESTOR_1), 400);
}

#[test]
fn distribution_by_stranger_is_rejected() {
    let mut w = subscribed_world();
    let r = w.distribute(INVESTOR_1, rules());
    assert!(r.unwrap_err().contains("NotIssuer"));
}
