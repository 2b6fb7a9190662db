use vstd::prelude::*;

use crate::book::{amount_of, has_key, keys, lemma_prefix_total, total, Book, Entry};
use crate::fee::{fee_by_percentage, percentage_fee, MAX_FEE_PERCENTAGE};
use crate::outbox::OutMsg;
use crate::phase::{can_transition, transition_allowed, Phase};

verus! {

/// Which of the bond's operations were enabled when it was created.
#[derive(Clone, Copy, Debug, PartialEq, Eq, Structural)]
pub struct FunctionSetup {
    pub transfer: bool,
    pub burn: bool,
    pub mint_to_investor: bool,
    pub subscribe: bool,
}

/// Exchange rate: `currency_amount` units of currency buy `bond_amount`
/// bond units.
#[derive(Clone, Copy, Debug, PartialEq, Eq, Structural)]
pub struct Denomination {
    pub currency_amount: u128,
    pub bond_amount: u128,
}

/// A holder and what their bond balance is worth in currency.
#[derive(Clone, Debug, PartialEq, Eq)]
pub struct Holder {
    pub account: String,
    pub balance_in_currency: u128,
}

#[derive(Clone, Copy, Debug, PartialEq, Eq)]
pub struct BondTokenResponse {}

#[derive(Clone, Debug, PartialEq, Eq)]
pub struct HoldersResponse {
    pub holders: Vec<Holder>,
}

#[derive(Clone, Debug, PartialEq, Eq)]
pub struct IssuerResponse {
    pub issuer: String,
}

#[derive(Clone, Debug, PartialEq, Eq)]
pub struct CurrencyResponse {
    pub currency: String,
}

#[derive(Clone, Copy, Debug, PartialEq, Eq)]
pub struct RedemptionAmountResponse {
    pub redemption_amount: u128,
}

/// Read-only requests that a bond ledger answers besides its balances.
#[derive(Clone, Copy, Debug, PartialEq, Eq, Structural)]
pub enum AdditionalQueryMsg {
    GetHolders {},
    GetIssuer {},
    GetCurrency {},
    EstimateRedempmtionAmount {},
}

/// An initial balance of the bond's unit ledger.
#[derive(Clone, Debug, PartialEq, Eq)]
pub struct Cw20Coin {
    pub address: String,
    pub amount: u128,
}

/// Who may mint the bond's units, and up to which total supply.
#[derive(Clone, Debug, PartialEq, Eq)]
pub struct MinterResponse {
    pub minter: String,
    pub cap: Option<u128>,
}

/// A token's logo embedded as image bytes.
#[derive(Clone, Debug, PartialEq, Eq)]
pub enum EmbeddedLogo {
    Svg(Vec<u8>),
    Png(Vec<u8>),
}

#[derive(Clone, Debug, PartialEq, Eq)]
pub enum Logo {
    Url(String),
    Embedded(EmbeddedLogo),
}

/// Descriptive data of a token.
#[derive(Clone, Debug, PartialEq, Eq)]
pub struct InstantiateMarketingInfo {
    pub project: Option<String>,
    pub description: Option<String>,
    pub marketing: Option<String>,
    pub logo: Option<Logo>,
}

/// Settings of a fungible token ledger.
#[derive(Clone, Debug, PartialEq, Eq)]
pub struct Cw20InstantiateMsg {
    pub name: String,
    pub symbol: String,
    pub decimals: u8,
    pub initial_balances: Vec<Cw20Coin>,
    pub mint: Option<MinterResponse>,
    pub marketing: Option<InstantiateMarketingInfo>,
}

/// Everything a bond ledger is created with.
#[derive(Clone, Debug, PartialEq, Eq)]
pub struct InstantiateMsg {
    pub issuer: String,
    pub basic_info: Cw20InstantiateMsg,
    pub function_setup: FunctionSetup,
    pub additional_data: String,
    pub currency: String,
    pub placeholder: String,
    pub router: String,
    pub denomination: Denomination,
    /// Fee charged by percentage: 0 to `MAX_FEE_PERCENTAGE` map to 0% to 100%.
    pub subscription_fee_percentage: Option<u128>,
    /// Fixed fee charged per subscription.
    pub subscription_fee: Option<u128>,
}

/// Name, symbol, decimals and minter of the unit ledger.
#[derive(Clone, Debug, PartialEq, Eq)]
pub struct TokenInfo {
    pub name: String,
    pub symbol: String,
    pub decimals: u8,
    pub mint: Option<MinterResponse>,
}

/// State of one bond: its configuration, its phase, and the unit ledger
/// whose total supply is the sum of the balances.
#[derive(Clone, Debug)]
pub struct BondToken {
    pub issuer: String,
    pub additional_data: String,
    pub function_setup: FunctionSetup,
    pub currency: String,
    pub placeholder: String,
    pub router: String,
    pub denomination: Denomination,
    pub subscription_fee_percentage: Option<u128>,
    pub subscription_fee: Option<u128>,
    pub current_phase: Phase,
    pub token_info: TokenInfo,
    pub balances: Book,
}

#[derive(Clone, Copy, Debug, PartialEq, Eq, Structural)]
pub enum BasicError {
    InvalidZeroAmount,
    InsufficientFunds,
    Unauthorized,
    CannotExceedCap,
    DuplicateInitialBalanceAddresses,
    InvalidTokenInfo,
}

#[derive(Clone, Debug, PartialEq, Eq)]
pub enum AdditionalError {
    FunctionNotSupported { function: String },
    NotIssuer { caller: String },
    NotRouter { caller: String },
    FeePercentageTooHigh { percentage: u128 },
    InsufficientSubscriptionAmount { amount: u128 },
    NotRouterPlaceholder { caller: String },
    ActionNotAllowed { action: String },
    InvalidPhase,
}

#[derive(Clone, Debug, PartialEq, Eq)]
pub enum BondTokenErr {
    /// An amount left the range of `u128`.
    Overflow,
    /// Refused by the unit ledger.
    BasicError(BasicError),
    /// Refused by the bond's own rules.
    AdditionalError(AdditionalError),
}

impl BondToken {
    pub open spec fn wf(&self) -> bool {
        &&& self.balances.wf()
        &&& self.denomination.currency_amount > 0
        &&& self.denomination.bond_amount > 0
        &&& (self.subscription_fee_percentage matches Some(p) ==> p <= MAX_FEE_PERCENTAGE)
    }

    pub open spec fn total_supply(&self) -> nat {
        self.balances.sum()
    }

    pub open spec fn balance(&self, k: Seq<char>) -> nat {
        self.balances.amount(k)
    }
}

/// Everything but the balances is the same.
pub open spec fn same_config(a: BondToken, b: BondToken) -> bool {
    &&& a.issuer == b.issuer
    &&& a.additional_data == b.additional_data
    &&& a.function_setup == b.function_setup
    &&& a.currency == b.currency
    &&& a.placeholder == b.placeholder
    &&& a.router == b.router
    &&& a.denomination == b.denomination
    &&& a.subscription_fee_percentage == b.subscription_fee_percentage
    &&& a.subscription_fee == b.subscription_fee
    &&& a.token_info == b.token_info
}

/// Bond units bought by `currency_amount` at the denomination, truncated.
pub open spec fn bond_units(currency_amount: nat, d: Denomination) -> nat {
    (currency_amount * (d.bond_amount as nat)) / (d.currency_amount as nat)
}

/// Currency worth of `units` bond units at the denomination, truncated.
pub open spec fn currency_value(units: nat, d: Denomination) -> nat {
    (units * (d.currency_amount as nat)) / (d.bond_amount as nat)
}

/// Fee taken from a subscription of `currency_amount` in total, of which the
/// investor declared `fee_amount` as fee: a configured percentage first,
/// else a configured fixed fee, else the declared amount.
pub open spec fn fee_due(token: BondToken, currency_amount: nat, fee_amount: nat) -> nat {
    match token.subscription_fee_percentage {
        Some(p) => percentage_fee(currency_amount, p as nat),
        None => match token.subscription_fee {
            Some(f) => f as nat,
            None => fee_amount,
        },
    }
}

/// A fixed fee applies and the tendered amount does not exceed it.
pub open spec fn fixed_fee_not_covered(token: BondToken, currency_amount: nat) -> bool {
    token.subscription_fee_percentage is None && (token.subscription_fee matches Some(f)
        && currency_amount <= f)
}

/// The calls of a subscription: the whole tendered amount moves from the
/// investor to the escrow, which records the net amount and the fee.
pub open spec fn subscribe_msgs(token: BondToken, investor: String, currency_amount: u128, fee: u128) -> Seq<OutMsg> {
    seq![
        OutMsg::TransferFrom {
            token: token.currency,
            owner: investor,
            recipient: token.placeholder,
            amount: currency_amount,
        },
        OutMsg::RegisterSubscription {
            placeholder: token.placeholder,
            investor: investor,
            currency: token.currency,
            subscription_amount: (currency_amount - fee) as u128,
            fee_amount: fee,
        },
    ]
}

/// What a well-formed list of initial balances gives the unit ledger.
pub open spec fn coin_entries(coins: Seq<Cw20Coin>) -> Seq<Entry> {
    coins.map_values(|c: Cw20Coin| Entry { key: c.address, amount: c.amount })
}

pub open spec fn distinct_addresses(coins: Seq<Cw20Coin>) -> bool {
    forall|i: int, j: int| 0 <= i < j < coins.len() ==> coins[i].address@ != coins[j].address@
}

pub open spec fn symbol_char(c: char) -> bool {
    c == '-' || (65 <= c as u32 <= 90) || (97 <= c as u32 <= 122)
}

/// Token settings that the unit ledger accepts: a name of 3 to 50 UTF-8
/// bytes, a symbol of 3 to 12 characters from `[a-zA-Z-]`, at most 18
/// decimals.
pub open spec fn token_info_valid(name: Seq<char>, symbol: Seq<char>, decimals: u8) -> bool {
    &&& 3 <= vstd::utf8::encode_utf8(name).len() <= 50
    &&& 3 <= symbol.len() <= 12
    &&& forall|i: int| 0 <= i < symbol.len() ==> symbol_char(#[trigger] symbol[i])
    &&& decimals <= 18
}

/// Relies on `cw20_base::msg::InstantiateMsg::validate`, which checks the
/// name's byte length, the symbol's length and characters, and the decimals.
#[verifier::external_body]
fn token_info_is_valid(name: &String, symbol: &String, decimals: u8) -> (r: bool)
    ensures
        r == token_info_valid(name@, symbol@, decimals),
{
    let msg = cw20_base::msg::InstantiateMsg {
        name: name.clone(),
        symbol: symbol.clone(),
        decimals,
        initial_balances: Vec::new(),
        mint: None,
        marketing: None,
    };
    msg.validate().is_ok()
}

/// Relies on `cw20_base::contract::validate_accounts`, which sorts and
/// dedups the addresses and accepts the list when none was dropped.
#[verifier::external_body]
fn accounts_are_distinct(coins: &Vec<Cw20Coin>) -> (r: bool)
    ensures
        r == distinct_addresses(coins@),
{
    let rows: Vec<cw20::Cw20Coin> = coins
        .iter()
        .map(|c| cw20::Cw20Coin { address: c.address.clone(), amount: cosmwasm_std::Uint128::new(c.amount) })
        .collect();
    cw20_base::contract::validate_accounts(&rows).is_ok()
}

pub open spec fn fee_percentage_too_high(p: Option<u128>) -> bool {
    p matches Some(v) && v > MAX_FEE_PERCENTAGE
}

/// Creates a bond in the `Subscription` phase. Refused when the fee
/// percentage exceeds the maximum, when the unit ledger's settings are
/// invalid, when an address has two initial balances, or when the initial
/// balances sum beyond `u128`.
pub fn instantiate(msg: InstantiateMsg) -> (r: Result<BondToken, BondTokenErr>)
    requires
        msg.denomination.currency_amount > 0,
        msg.denomination.bond_amount > 0,
    ensures
        msg.subscription_fee_percentage matches Some(p) ==> (p > MAX_FEE_PERCENTAGE ==> r == Err::<
            BondToken,
            BondTokenErr,
        >(BondTokenErr::AdditionalError(AdditionalError::FeePercentageTooHigh { percentage: p }))),
        !fee_percentage_too_high(msg.subscription_fee_percentage) ==> {
            let info = msg.basic_info;
            let entries = coin_entries(info.initial_balances@);
            if !token_info_valid(info.name@, info.symbol@, info.decimals) {
                r == Err::<BondToken, BondTokenErr>(BondTokenErr::BasicError(BasicError::InvalidTokenInfo))
            } else if !distinct_addresses(info.initial_balances@) {
                r == Err::<BondToken, BondTokenErr>(
                    BondTokenErr::BasicError(BasicError::DuplicateInitialBalanceAddresses),
                )
            } else if total(entries) > u128::MAX {
                r == Err::<BondToken, BondTokenErr>(BondTokenErr::Overflow)
            } else {
                r matches Ok(t) && {
                    &&& t.wf()
                    &&& t.issuer == msg.issuer
                    &&& t.additional_data == msg.additional_data
                    &&& t.function_setup == msg.function_setup
                    &&& t.currency == msg.currency
                    &&& t.placeholder == msg.placeholder
                    &&& t.router == msg.router
                    &&& t.denomination == msg.denomination
                    &&& t.subscription_fee_percentage == msg.subscription_fee_percentage
                    &&& t.subscription_fee == msg.subscription_fee
                    &&& t.current_phase == Phase::Subscription
                    &&& t.token_info == (TokenInfo {
                        name: info.name,
                        symbol: info.symbol,
                        decimals: info.decimals,
                        mint: info.mint,
                    })
                    &&& t.total_supply() == total(entries)
                    &&& forall|k: Seq<char>| #[trigger] t.balance(k) == amount_of(entries, k)
                }
            }
        },
{
    if let Some(p) = msg.subscription_fee_percentage {
        if p > MAX_FEE_PERCENTAGE {
            return Err(BondTokenErr::AdditionalError(AdditionalError::FeePercentageTooHigh { percentage: p }));
        }
    }
    let info = msg.basic_info;
    if !token_info_is_valid(&info.name, &info.symbol, info.decimals) {
        return Err(BondTokenErr::BasicError(BasicError::InvalidTokenInfo));
    }
    if !accounts_are_distinct(&info.initial_balances) {
        return Err(BondTokenErr::BasicError(BasicError::DuplicateInitialBalanceAddresses));
    }
    let ghost entries = coin_entries(info.initial_balances@);
    let mut balances = Book::new();
    let mut i: usize = 0;
    while i < info.initial_balances.len()
        invariant
            i <= info.initial_balances@.len(),
            entries == coin_entries(info.initial_balances@),
            info == msg.basic_info,
            !fee_percentage_too_high(msg.subscription_fee_percentage),
            token_info_valid(info.name@, info.symbol@, info.decimals),
            distinct_addresses(info.initial_balances@),
            balances.wf(),
            balances.sum() == total(entries.take(i as int)),
            forall|k: Seq<char>| #[trigger] balances.amount(k) == amount_of(entries.take(i as int), k),
        decreases info.initial_balances@.len() - i,
    {
        let coin = &info.initial_balances[i];
        proof {
            assert(entries.take(i as int + 1).drop_last() =~= entries.take(i as int));
            assert(entries.take(i as int + 1).last() == entries[i as int]);
            assert(entries[i as int].amount == coin.amount);
        }
        if !balances.credit(&coin.address, coin.amount) {
            proof {
                lemma_prefix_total(entries, i as int + 1);
                assert(total(entries.take(i as int + 1)) == total(entries.take(i as int)) + coin.amount);
                assert(total(entries) > u128::MAX);
            }
            return Err(BondTokenErr::Overflow);
        }
        i = i + 1;
    }
    proof {
        assert(entries.take(i as int) =~= entries);
    }
    Ok(BondToken {
        issuer: msg.issuer,
        additional_data: msg.additional_data,
        function_setup: msg.function_setup,
        currency: msg.currency,
        placeholder: msg.placeholder,
        router: msg.router,
        denomination: msg.denomination,
        subscription_fee_percentage: msg.subscription_fee_percentage,
        subscription_fee: msg.subscription_fee,
        current_phase: Phase::Subscription,
        token_info: TokenInfo { name: info.name, symbol: info.symbol, decimals: info.decimals, mint: info.mint },
        balances,
    })
}

/// Computes the fee of a subscription and the calls that move the tendered
/// amount (`subscription_amount + fee_amount`) to the escrow and record the
/// net amount there. Allowed only when subscribing is enabled and the bond
/// is in its `Subscription` phase.
pub fn subscribe(token: &BondToken, sender: &String, subscription_amount: u128, fee_amount: u128) -> (r:
    Result<Vec<OutMsg>, BondTokenErr>)
    requires
        token.wf(),
    ensures
        !token.function_setup.subscribe ==> (r matches Err(
            BondTokenErr::AdditionalError(AdditionalError::FunctionNotSupported { function }),
        ) && function@ == "subscribe"@),
        token.function_setup.subscribe && token.current_phase != Phase::Subscription ==> (r matches Err(
            BondTokenErr::AdditionalError(AdditionalError::ActionNotAllowed { action }),
        ) && action@ == "subscription"@),
        token.function_setup.subscribe && token.current_phase == Phase::Subscription ==> {
            let c = subscription_amount + fee_amount;
            if c > u128::MAX {
                r == Err::<Vec<OutMsg>, BondTokenErr>(BondTokenErr::Overflow)
            } else if fixed_fee_not_covered(*token, c as nat) {
                r == Err::<Vec<OutMsg>, BondTokenErr>(
                    BondTokenErr::AdditionalError(
                        AdditionalError::InsufficientSubscriptionAmount { amount: c as u128 },
                    ),
                )
            } else {
                &&& fee_due(*token, c as nat, fee_amount as nat) <= c
                &&& r matches Ok(v) && v@ == subscribe_msgs(
                    *token,
                    *sender,
                    c as u128,
                    fee_due(*token, c as nat, fee_amount as nat) as u128,
                )
            }
        },
{
    proof {
        reveal_strlit("subscribe");
        reveal_strlit("subscription");
    }
    if !token.function_setup.subscribe {
        return Err(
            BondTokenErr::AdditionalError(
                AdditionalError::FunctionNotSupported { function: "subscribe".to_owned() },
            ),
        );
    }
    if token.current_phase != Phase::Subscription {
        return Err(
            BondTokenErr::AdditionalError(
                AdditionalError::ActionNotAllowed { action: "subscription".to_owned() },
            ),
        );
    }
    if subscription_amount > u128::MAX - fee_amount {
        return Err(BondTokenErr::Overflow);
    }
    let currency_amount = subscription_amount + fee_amount;
    let fee: u128 = match token.subscription_fee_percentage {
        Some(p) => fee_by_percentage(currency_amount, p),
        None => match token.subscription_fee {
            Some(f) => {
                if currency_amount <= f {
                    return Err(
                        BondTokenErr::AdditionalError(
                            AdditionalError::InsufficientSubscriptionAmount { amount: currency_amount },
                        ),
                    );
                }
                f
            },
            None => fee_amount,
        },
    };
    let mut msgs: Vec<OutMsg> = Vec::new();
    msgs.push(
        OutMsg::TransferFrom {
            token: token.currency.clone(),
            owner: sender.clone(),
            recipient: token.placeholder.clone(),
            amount: currency_amount,
        },
    );
    msgs.push(
        OutMsg::RegisterSubscription {
            placeholder: token.placeholder.clone(),
            investor: sender.clone(),
            currency: token.currency.clone(),
            subscription_amount: currency_amount - fee,
            fee_amount: fee,
        },
    );
    proof {
        assert(msgs@ =~= subscribe_msgs(*token, *sender, currency_amount, fee));
    }
    Ok(msgs)
}

/// The bond with its phase replaced.
pub open spec fn with_phase(t: BondToken, p: Phase) -> BondToken {
    BondToken { current_phase: p, ..t }
}

/// Moves the bond to `phase`. Only the orchestrator may ask, and only along
/// the transition table.
pub fn update_phase(token: &mut BondToken, sender: &String, phase: Phase) -> (r: Result<(), BondTokenErr>)
    ensures
        sender@ != old(token).router@ ==> r == Err::<(), BondTokenErr>(
            BondTokenErr::AdditionalError(AdditionalError::NotRouterPlaceholder { caller: *sender }),
        ),
        sender@ == old(token).router@ && !transition_allowed(old(token).current_phase, phase) ==> r
            == Err::<(), BondTokenErr>(BondTokenErr::AdditionalError(AdditionalError::InvalidPhase)),
        sender@ == old(token).router@ && transition_allowed(old(token).current_phase, phase) ==> r
            == Ok::<(), BondTokenErr>(()),
        r is Ok ==> *final(token) == with_phase(*old(token), phase),
        r is Err ==> *final(token) == *old(token),
{
    if *sender != token.router {
        return Err(
            BondTokenErr::AdditionalError(AdditionalError::NotRouterPlaceholder { caller: sender.clone() }),
        );
    }
    if !can_transition(token.current_phase, phase) {
        return Err(BondTokenErr::AdditionalError(AdditionalError::InvalidPhase));
    }
    token.current_phase = phase;
    Ok(())
}

pub open spec fn minter_is(t: BondToken, sender: Seq<char>) -> bool {
    t.token_info.mint matches Some(m) && m.minter@ == sender
}

pub open spec fn cap_exceeded(t: BondToken, new_total: nat) -> bool {
    t.token_info.mint matches Some(m) && (m.cap matches Some(c) && new_total > c)
}

/// `new` is `old` with `units` more bond units held by `recipient`.
pub open spec fn minted(old: BondToken, new: BondToken, recipient: Seq<char>, units: nat) -> bool {
    &&& same_config(old, new)
    &&& new.current_phase == old.current_phase
    &&& new.balance(recipient) == old.balance(recipient) + units
    &&& forall|k: Seq<char>| k != recipient ==> #[trigger] new.balance(k) == old.balance(k)
    &&& new.total_supply() == old.total_supply() + units
    &&& keys(new.balances.entries()) == if has_key(old.balances.entries(), recipient) {
        keys(old.balances.entries())
    } else {
        keys(old.balances.entries()).push(recipient)
    }
}

/// Result of minting units worth `currency_amount` to `recipient`, once the
/// bond's own checks have passed: the unit ledger refuses a caller that is
/// not its minter and a total supply beyond its cap.
pub open spec fn mint_outcome(
    old: BondToken,
    new: BondToken,
    sender: Seq<char>,
    recipient: Seq<char>,
    currency_amount: nat,
    r: Result<u128, BondTokenErr>,
) -> bool {
    let units = bond_units(currency_amount, old.denomination);
    if currency_amount * old.denomination.bond_amount > u128::MAX {
        r == Err::<u128, BondTokenErr>(BondTokenErr::Overflow)
    } else if !minter_is(old, sender) {
        r == Err::<u128, BondTokenErr>(BondTokenErr::BasicError(BasicError::Unauthorized))
    } else if old.total_supply() + units > u128::MAX {
        r == Err::<u128, BondTokenErr>(BondTokenErr::Overflow)
    } else if cap_exceeded(old, old.total_supply() + units) {
        r == Err::<u128, BondTokenErr>(BondTokenErr::BasicError(BasicError::CannotExceedCap))
    } else {
        r == Ok::<u128, BondTokenErr>(units as u128) && minted(old, new, recipient, units)
    }
}

/// Issues to `recipient` the bond units that `currency_amount` buys at the
/// denomination (`currency_amount * bond_amount / currency_amount`,
/// truncated) and returns that number of units.
pub fn mint_to_investor(
    token: &mut BondToken,
    sender: &String,
    issuer: &String,
    recipient: &String,
    currency_amount: u128,
) -> (r: Result<u128, BondTokenErr>)
    requires
        old(token).wf(),
    ensures
        final(token).wf(),
        r is Err ==> *final(token) == *old(token),
        !old(token).function_setup.mint_to_investor ==> (r matches Err(
            BondTokenErr::AdditionalError(AdditionalError::FunctionNotSupported { function }),
        ) && function@ == "mint_to_investor"@),
        old(token).function_setup.mint_to_investor && issuer@ != old(token).issuer@ ==> r == Err::<
            u128,
            BondTokenErr,
        >(BondTokenErr::AdditionalError(AdditionalError::NotIssuer { caller: *issuer })),
        old(token).function_setup.mint_to_investor && issuer@ == old(token).issuer@ ==> mint_outcome(
            *old(token),
            *final(token),
            sender@,
            recipient@,
            currency_amount as nat,
            r,
        ),
{
    proof {
        reveal_strlit("mint_to_investor");
    }
    if !token.function_setup.mint_to_investor {
        return Err(
            BondTokenErr::AdditionalError(
                AdditionalError::FunctionNotSupported { function: "mint_to_investor".to_owned() },
            ),
        );
    }
    if token.issuer != *issuer {
        return Err(BondTokenErr::AdditionalError(AdditionalError::NotIssuer { caller: issuer.clone() }));
    }
    let d = token.denomination;
    let product = match currency_amount.checked_mul(d.bond_amount) {
        Some(v) => v,
        None => {
            return Err(BondTokenErr::Overflow);
        },
    };
    let units: u128 = product / d.currency_amount;
    let authorized = match &token.token_info.mint {
        Some(m) => m.minter == *sender,
        None => false,
    };
    if !authorized {
        return Err(BondTokenErr::BasicError(BasicError::Unauthorized));
    }
    let supply = token.balances.total();
    if units > u128::MAX - supply {
        return Err(BondTokenErr::Overflow);
    }
    if let Some(m) = &token.token_info.mint {
        if let Some(cap) = m.cap {
            if supply + units > cap {
                return Err(BondTokenErr::BasicError(BasicError::CannotExceedCap));
            }
        }
    }
    if !token.balances.credit(recipient, units) {
        return Err(BondTokenErr::Overflow);
    }
    Ok(units)
}

/// `new` is `old` with nothing left held by `holder`.
pub open spec fn burned(old: BondToken, new: BondToken, holder: Seq<char>) -> bool {
    &&& same_config(old, new)
    &&& new.current_phase == old.current_phase
    &&& new.balance(holder) == 0
    &&& forall|k: Seq<char>| k != holder ==> #[trigger] new.balance(k) == old.balance(k)
    &&& new.total_supply() + old.balance(holder) == old.total_supply()
    &&& keys(new.balances.entries()) == keys(old.balances.entries())
}

/// Burns everything `holder` holds and lowers the total supply by that
/// amount, which it returns. Only the orchestrator may ask, naming the
/// bond's issuer.
pub fn burn_from_holder(token: &mut BondToken, sender: &String, issuer: &String, holder: &String) -> (r:
    Result<u128, BondTokenErr>)
    requires
        old(token).wf(),
    ensures
        final(token).wf(),
        r is Err ==> *final(token) == *old(token),
        !old(token).function_setup.burn ==> (r matches Err(
            BondTokenErr::AdditionalError(AdditionalError::FunctionNotSupported { function }),
        ) && function@ == "burn_from_holder"@),
        old(token).function_setup.burn && sender@ != old(token).router@ ==> r == Err::<u128, BondTokenErr>(
            BondTokenErr::AdditionalError(AdditionalError::NotRouter { caller: *sender }),
        ),
        old(token).function_setup.burn && sender@ == old(token).router@ && issuer@ != old(token).issuer@
            ==> r == Err::<u128, BondTokenErr>(
            BondTokenErr::AdditionalError(AdditionalError::NotIssuer { caller: *sender }),
        ),
        old(token).function_setup.burn && sender@ == old(token).router@ && issuer@ == old(token).issuer@
            ==> r == Ok::<u128, BondTokenErr>(old(token).balance(holder@) as u128) && burned(
            *old(token),
            *final(token),
            holder@,
        ),
{
    proof {
        reveal_strlit("burn_from_holder");
    }
    if !token.function_setup.burn {
        return Err(
            BondTokenErr::AdditionalError(
                AdditionalError::FunctionNotSupported { function: "burn_from_holder".to_owned() },
            ),
        );
    }
    if token.router != *sender {
        return Err(BondTokenErr::AdditionalError(AdditionalError::NotRouter { caller: sender.clone() }));
    }
    if token.issuer != *issuer {
        return Err(BondTokenErr::AdditionalError(AdditionalError::NotIssuer { caller: sender.clone() }));
    }
    let held = token.balances.clear(holder);
    Ok(held)
}

/// `new` is `old` with `amount` units moved from `from` to `to`.
pub open spec fn moved(old: BondToken, new: BondToken, from: Seq<char>, to: Seq<char>, amount: nat) -> bool {
    &&& same_config(old, new)
    &&& new.current_phase == old.current_phase
    &&& new.total_supply() == old.total_supply()
    &&& from != to ==> new.balance(from) + amount == old.balance(from) && new.balance(to) == old.balance(to)
        + amount
    &&& from == to ==> new.balance(from) == old.balance(from)
    &&& forall|k: Seq<char>| k != from && k != to ==> #[trigger] new.balance(k) == old.balance(k)
}

/// Moves `amount` bond units from `sender` to `recipient`. Refused when
/// transfers are disabled, when the amount is zero, and when the sender
/// holds less.
pub fn transfer(token: &mut BondToken, sender: &String, recipient: &String, amount: u128) -> (r: Result<
    (),
    BondTokenErr,
>)
    requires
        old(token).wf(),
    ensures
        final(token).wf(),
        r is Err ==> *final(token) == *old(token),
        !old(token).function_setup.transfer ==> (r matches Err(
            BondTokenErr::AdditionalError(AdditionalError::FunctionNotSupported { function }),
        ) && function@ == "transfer"@),
        old(token).function_setup.transfer && amount == 0 ==> r == Err::<(), BondTokenErr>(
            BondTokenErr::BasicError(BasicError::InvalidZeroAmount),
        ),
        old(token).function_setup.transfer && amount > 0 && old(token).balance(sender@) < amount ==> r
            == Err::<(), BondTokenErr>(BondTokenErr::BasicError(BasicError::InsufficientFunds)),
        old(token).function_setup.transfer && amount > 0 && old(token).balance(sender@) >= amount ==> r is Ok
            && moved(*old(token), *final(token), sender@, recipient@, amount as nat),
{
    proof {
        reveal_strlit("transfer");
    }
    if !token.function_setup.transfer {
        return Err(
            BondTokenErr::AdditionalError(AdditionalError::FunctionNotSupported { function: "transfer".to_owned() }),
        );
    }
    if amount == 0 {
        return Err(BondTokenErr::BasicError(BasicError::InvalidZeroAmount));
    }
    if !token.balances.debit(sender, amount) {
        return Err(BondTokenErr::BasicError(BasicError::InsufficientFunds));
    }
    // The debit lowered the total by `amount`, so crediting it back fits.
    let credited = token.balances.credit(recipient, amount);
    proof {
        assert(credited);
    }
    Ok(())
}

/// Bond units held by `account`.
pub fn balance(token: &BondToken, account: &String) -> (r: u128)
    requires
        token.wf(),
    ensures
        r == token.balance(account@),
{
    token.balances.get(account)
}

/// Every holder in listing order, with the currency worth of their balance
/// (`balance * currency_amount / bond_amount`, truncated). Refused when a
/// product leaves `u128`.
pub fn get_holders(token: &BondToken) -> (r: Result<HoldersResponse, BondTokenErr>)
    requires
        token.wf(),
    ensures
        r is Ok <==> forall|i: int|
            0 <= i < token.balances.entries().len() ==> #[trigger] token.balances.entries()[i].amount
                * token.denomination.currency_amount <= u128::MAX,
        r is Err ==> r == Err::<HoldersResponse, BondTokenErr>(BondTokenErr::Overflow),
        r matches Ok(h) ==> {
            &&& h.holders@.len() == token.balances.entries().len()
            &&& forall|i: int|
                0 <= i < h.holders@.len() ==> #[trigger] h.holders@[i] == (Holder {
                    account: token.balances.entries()[i].key,
                    balance_in_currency: currency_value(
                        token.balances.entries()[i].amount as nat,
                        token.denomination,
                    ) as u128,
                })
        },
{
    let d = token.denomination;
    let mut holders: Vec<Holder> = Vec::new();
    let mut i: usize = 0;
    while i < token.balances.len()
        invariant
            token.wf(),
            d == token.denomination,
            i <= token.balances.entries().len(),
            holders@.len() == i,
            forall|j: int|
                0 <= j < i ==> #[trigger] token.balances.entries()[j].amount * d.currency_amount <= u128::MAX,
            forall|j: int|
                0 <= j < i ==> #[trigger] holders@[j] == (Holder {
                    account: token.balances.entries()[j].key,
                    balance_in_currency: currency_value(token.balances.entries()[j].amount as nat, d) as u128,
                }),
        decreases token.balances.entries().len() - i,
    {
        let e = token.balances.entry_at(i);
        let worth = match e.amount.checked_mul(d.currency_amount) {
            Some(v) => v / d.bond_amount,
            None => {
                return Err(BondTokenErr::Overflow);
            },
        };
        holders.push(Holder { account: e.key.clone(), balance_in_currency: worth });
        i = i + 1;
    }
    Ok(HoldersResponse { holders })
}

/// The bond's issuer.
pub fn get_issuer(token: &BondToken) -> (r: IssuerResponse)
    ensures
        r.issuer == token.issuer,
{
    IssuerResponse { issuer: token.issuer.clone() }
}

/// The currency the bond is paid in.
pub fn get_currency(token: &BondToken) -> (r: CurrencyResponse)
    ensures
        r.currency == token.currency,
{
    CurrencyResponse { currency: token.currency.clone() }
}

/// Currency needed to redeem every unit now:
/// `total_supply * currency_amount / bond_amount`, truncated.
pub fn estimate_redemption_amount(token: &BondToken) -> (r: Result<RedemptionAmountResponse, BondTokenErr>)
    requires
        token.wf(),
    ensures
        token.total_supply() * token.denomination.currency_amount <= u128::MAX ==> r == Ok::<
            RedemptionAmountResponse,
            BondTokenErr,
        >(
            RedemptionAmountResponse {
                redemption_amount: currency_value(token.total_supply(), token.denomination) as u128,
            },
        ),
        token.total_supply() * token.denomination.currency_amount > u128::MAX ==> r == Err::<
            RedemptionAmountResponse,
            BondTokenErr,
        >(BondTokenErr::Overflow),
{
    let d = token.denomination;
    match token.balances.total().checked_mul(d.currency_amount) {
        Some(v) => Ok(RedemptionAmountResponse { redemption_amount: v / d.bond_amount }),
        None => Err(BondTokenErr::Overflow),
    }
}

/// Mints add up: after two successful mints the total supply has grown by
/// exactly the units of both, and so on for any number of them.
pub proof fn lemma_mints_add_up(
    t0: BondToken,
    t1: BondToken,
    t2: BondToken,
    r1: Seq<char>,
    r2: Seq<char>,
    units1: nat,
    units2: nat,
)
    requires
        minted(t0, t1, r1, units1),
        minted(t1, t2, r2, units2),
    ensures
        t2.total_supply() == t0.total_supply() + units1 + units2,
        r1 == r2 ==> t2.balance(r1) == t0.balance(r1) + units1 + units2,
        same_config(t0, t2),
        t2.current_phase == t0.current_phase,
{
}

} // verus!
