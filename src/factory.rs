use vstd::prelude::*;

use crate::bond_token::{
    Cw20Coin, Cw20InstantiateMsg, Denomination, FunctionSetup, InstantiateMarketingInfo, InstantiateMsg,
    MinterResponse,
};
use crate::outbox::{Coin, InstantiatePayload, OutMsg};
use crate::roles::{grants, OperatorGrant, Operators};

verus! {

/// Stored code to instantiate, with its encoded creation message.
#[derive(Clone, Debug, PartialEq, Eq)]
pub struct ContractInfo {
    pub code_id: u64,
    pub instantiate_msg: Vec<u8>,
    pub funds: Vec<Coin>,
    pub label: String,
}

#[derive(Clone, Debug, PartialEq, Eq)]
pub enum FactoryErr {
    NotAdmin { account: String },
    NotOperator { account: String },
    LengthMismatch {},
    ContractNotSetup {},
}

/// State of the issuance factory.
#[derive(Clone, Debug)]
pub struct FactoryPlatform {
    pub admin: String,
    pub currency_code_id: u64,
    pub bond_token_code_id: u64,
    pub placeholder: Option<String>,
    pub router: Option<String>,
    pub operators: Operators,
}

/// A fresh factory administered by `sender`, who is also its first operator.
pub fn instantiate(sender: &String, currency_code_id: u64, bond_token_code_id: u64) -> (r: FactoryPlatform)
    ensures
        r.admin == *sender,
        r.currency_code_id == currency_code_id,
        r.bond_token_code_id == bond_token_code_id,
        r.placeholder is None,
        r.router is None,
        r.operators.log() == seq![OperatorGrant { account: *sender, enabled: true }],
{
    FactoryPlatform {
        admin: sender.clone(),
        currency_code_id,
        bond_token_code_id,
        placeholder: None,
        router: None,
        operators: Operators::with(sender),
    }
}

/// Records the escrow and the orchestrator. Admin only.
pub fn setup(state: &mut FactoryPlatform, sender: &String, placeholder: String, router: String) -> (r: Result<
    (),
    FactoryErr,
>)
    ensures
        sender@ != old(state).admin@ ==> r == Err::<(), FactoryErr>(FactoryErr::NotAdmin { account: *sender })
            && *final(state) == *old(state),
        sender@ == old(state).admin@ ==> r is Ok && *final(state) == (FactoryPlatform {
            placeholder: Some(placeholder),
            router: Some(router),
            ..*old(state)
        }),
{
    if *sender != state.admin {
        return Err(FactoryErr::NotAdmin { account: sender.clone() });
    }
    state.placeholder = Some(placeholder);
    state.router = Some(router);
    Ok(())
}

/// Grants or revokes the operator role, account by account. Admin only;
/// the two lists must have the same length.
pub fn set_operators(state: &mut FactoryPlatform, sender: &String, operators: Vec<String>, is_operators: Vec<bool>) -> (r:
    Result<(), FactoryErr>)
    ensures
        sender@ != old(state).admin@ ==> r == Err::<(), FactoryErr>(FactoryErr::NotAdmin { account: *sender }),
        sender@ == old(state).admin@ && operators@.len() != is_operators@.len() ==> r == Err::<(), FactoryErr>(
            FactoryErr::LengthMismatch {},
        ),
        r is Err ==> *final(state) == *old(state),
        sender@ == old(state).admin@ && operators@.len() == is_operators@.len() ==> {
            &&& r is Ok
            &&& final(state).operators.log() == old(state).operators.log() + grants(operators@, is_operators@)
            &&& *final(state) == (FactoryPlatform { operators: final(state).operators, ..*old(state) })
        },
{
    if *sender != state.admin {
        return Err(FactoryErr::NotAdmin { account: sender.clone() });
    }
    if operators.len() != is_operators.len() {
        return Err(FactoryErr::LengthMismatch {});
    }
    state.operators.apply(&operators, &is_operators);
    Ok(())
}

/// Asks for a new currency ledger, administered by the caller. Operators
/// only.
pub fn instantiate_currency(
    state: &FactoryPlatform,
    sender: &String,
    name: String,
    symbol: String,
    decimals: u8,
    initial_balances: Vec<Cw20Coin>,
    mint: Option<MinterResponse>,
    marketing: Option<InstantiateMarketingInfo>,
) -> (r: Result<OutMsg, FactoryErr>)
    ensures
        !state.operators.holds(sender@) ==> r == Err::<OutMsg, FactoryErr>(
            FactoryErr::NotOperator { account: *sender },
        ),
        state.operators.holds(sender@) ==> (r matches Ok(
            OutMsg::Instantiate { admin, code_id, msg, funds, label },
        ) && admin == Some(*sender) && code_id == state.currency_code_id && msg == InstantiatePayload::Currency(
            Cw20InstantiateMsg { name, symbol, decimals, initial_balances, mint, marketing },
        ) && funds@.len() == 0 && label@ == "currency"@),
{
    if !state.operators.check(sender) {
        return Err(FactoryErr::NotOperator { account: sender.clone() });
    }
    let label = "currency".to_owned();
    proof {
        reveal_strlit("currency");
    }
    Ok(
        OutMsg::Instantiate {
            admin: Some(sender.clone()),
            code_id: state.currency_code_id,
            msg: InstantiatePayload::Currency(
                Cw20InstantiateMsg { name, symbol, decimals, initial_balances, mint, marketing },
            ),
            funds: Vec::new(),
            label,
        },
    )
}

/// The creation message of a bond ledger whose units the orchestrator mints.
pub open spec fn bond_instantiate_msg(
    placeholder: String,
    router: String,
    issuer: String,
    name: String,
    symbol: String,
    decimals: u8,
    initial_balances: Vec<Cw20Coin>,
    function_setup: FunctionSetup,
    additional_data: String,
    currency: String,
    denomination: Denomination,
    subscription_fee_percentage: Option<u128>,
    subscription_fee: Option<u128>,
) -> InstantiateMsg {
    InstantiateMsg {
        issuer,
        basic_info: Cw20InstantiateMsg {
            name,
            symbol,
            decimals,
            initial_balances,
            mint: Some(MinterResponse { minter: router, cap: None }),
            marketing: None,
        },
        function_setup,
        additional_data,
        currency,
        placeholder,
        router,
        denomination,
        subscription_fee_percentage,
        subscription_fee,
    }
}

/// Asks for a new bond ledger, wired to the escrow and the orchestrator,
/// with the orchestrator as its only minter. Operators only; the factory
/// must know both components.
pub fn instantiate_bond_token(
    state: &FactoryPlatform,
    sender: &String,
    issuer: String,
    name: String,
    symbol: String,
    decimals: u8,
    initial_balances: Vec<Cw20Coin>,
    function_setup: FunctionSetup,
    additional_data: String,
    currency: String,
    denomination: Denomination,
    subscription_fee_percentage: Option<u128>,
    subscription_fee: Option<u128>,
) -> (r: Result<OutMsg, FactoryErr>)
    ensures
        !state.operators.holds(sender@) ==> r == Err::<OutMsg, FactoryErr>(
            FactoryErr::NotOperator { account: *sender },
        ),
        state.operators.holds(sender@) && (state.router is None || state.placeholder is None) ==> r == Err::<
            OutMsg,
            FactoryErr,
        >(FactoryErr::ContractNotSetup {}),
        state.operators.holds(sender@) && state.router is Some && state.placeholder is Some ==> (r matches Ok(
            OutMsg::Instantiate { admin, code_id, msg, funds, label },
        ) && admin == Some(*sender) && code_id == state.bond_token_code_id && msg == InstantiatePayload::BondToken(
            bond_instantiate_msg(
                state.placeholder->Some_0,
                state.router->Some_0,
                issuer,
                name,
                symbol,
                decimals,
                initial_balances,
                function_setup,
                additional_data,
                currency,
                denomination,
                subscription_fee_percentage,
                subscription_fee,
            ),
        ) && funds@.len() == 0 && label@ == "bond_token"@),
{
    if !state.operators.check(sender) {
        return Err(FactoryErr::NotOperator { account: sender.clone() });
    }
    let router = match &state.router {
        Some(r) => r.clone(),
        None => {
            return Err(FactoryErr::ContractNotSetup {});
        },
    };
    let placeholder = match &state.placeholder {
        Some(p) => p.clone(),
        None => {
            return Err(FactoryErr::ContractNotSetup {});
        },
    };
    let msg = InstantiateMsg {
        issuer,
        basic_info: Cw20InstantiateMsg {
            name,
            symbol,
            decimals,
            initial_balances,
            mint: Some(MinterResponse { minter: router.clone(), cap: None }),
            marketing: None,
        },
        function_setup,
        additional_data,
        currency,
        placeholder,
        router,
        denomination,
        subscription_fee_percentage,
        subscription_fee,
    };
    let label = "bond_token".to_owned();
    proof {
        reveal_strlit("bond_token");
    }
    Ok(
        OutMsg::Instantiate {
            admin: Some(sender.clone()),
            code_id: state.bond_token_code_id,
            msg: InstantiatePayload::BondToken(msg),
            funds: Vec::new(),
            label,
        },
    )
}

pub open spec fn batch_msg(admin: String, c: ContractInfo) -> OutMsg {
    OutMsg::Instantiate {
        admin: Some(admin),
        code_id: c.code_id,
        msg: InstantiatePayload::Raw(c.instantiate_msg),
        funds: c.funds,
        label: c.label,
    }
}

/// Asks for one new instance per entry, in order, each administered by the
/// caller. Operators only.
pub fn instantiate_batch(state: &FactoryPlatform, sender: &String, contract_infos: Vec<ContractInfo>) -> (r: Result<
    Vec<OutMsg>,
    FactoryErr,
>)
    ensures
        !state.operators.holds(sender@) ==> r == Err::<Vec<OutMsg>, FactoryErr>(
            FactoryErr::NotOperator { account: *sender },
        ),
        state.operators.holds(sender@) ==> (r matches Ok(v) && v@ == contract_infos@.map_values(
            |c: ContractInfo| batch_msg(*sender, c),
        )),
{
    if !state.operators.check(sender) {
        return Err(FactoryErr::NotOperator { account: sender.clone() });
    }
    let ghost infos = contract_infos@;
    let n = contract_infos.len();
    let mut msgs: Vec<OutMsg> = Vec::new();
    let mut rest = contract_infos;
    let mut k: usize = 0;
    while k < n
        invariant
            n == infos.len(),
            k <= infos.len(),
            rest@ == infos.subrange(k as int, infos.len() as int),
            msgs@ == infos.take(k as int).map_values(|c: ContractInfo| batch_msg(*sender, c)),
        decreases infos.len() - k,
    {
        let c = rest.remove(0);
        proof {
            assert(c == infos[k as int]);
            assert(rest@ =~= infos.subrange(k + 1, infos.len() as int));
        }
        msgs.push(
            OutMsg::Instantiate {
                admin: Some(sender.clone()),
                code_id: c.code_id,
                msg: InstantiatePayload::Raw(c.instantiate_msg),
                funds: c.funds,
                label: c.label,
            },
        );
        proof {
            assert(msgs@ =~= infos.take(k + 1).map_values(|c: ContractInfo| batch_msg(*sender, c)));
        }
        k = k + 1;
    }
    proof {
        assert(infos.take(k as int) =~= infos);
    }
    Ok(msgs)
}

} // verus!
