use cosmwasm_std::testing::{mock_dependencies, mock_env, mock_info};
use cosmwasm_std::Uint128;
use cw20::{Cw20Coin, MinterResponse};
use cw20_base::contract::{execute_mint, execute_transfer, instantiate, query_balance, query_token_info};
use cw20_base::msg::InstantiateMsg;
use cw20_base::ContractError;

fn token_msg(holder: &str, supply: u128, mint: Option<MinterResponse>) -> InstantiateMsg {
    InstantiateMsg {
        name: "Router Protocol".to_string(),
        symbol: "ROUTE".to_string(),
        decimals: 18,
        initial_balances: vec![Cw20Coin { address: holder.to_string(), amount: Uint128::new(supply) }],
        mint,
        marketing: None,
    }
}

#[test]
fn mint_respects_cap() {
    let mut deps = mock_dependencies();
    let mint = Some(MinterResponse { minter: "minter".to_string(), cap: Some(Uint128::new(1000)) });
    instantiate(deps.as_mut(), mock_env(), mock_info("creator", &[]), token_msg("genesis", 800, mint)).unwrap();

    execute_mint(deps.as_mut(), mock_env(), mock_info("minter", &[]), "lucky".to_string(), Uint128::new(150))
        .unwrap();
    assert_eq!(query_token_info(deps.as_ref()).unwrap().total_supply, Uint128::new(950));

    let err = execute_mint(deps.as_mut(), mock_env(), mock_info("minter", &[]), "lucky".to_string(), Uint128::new(100))
        .unwrap_err();
    assert_eq!(err, ContractError::CannotExceedCap {});
    assert_eq!(query_token_info(deps.as_ref()).unwrap().total_supply, Uint128::new(950));

    let err = execute_mint(deps.as_mut(), mock_env(), mock_info("anyone else", &[]), "lucky".to_string(), Uint128::new(1))
        .unwrap_err();
    assert_eq!(err, ContractError::Unauthorized {});
}

#[test]
fn transfer_conserves_pair_total() {
    let mut deps = mock_dependencies();
    instantiate(deps.as_mut(), mock_env(), mock_info("creator", &[]), token_msg("recipient", 100, None)).unwrap();
    let bal = |d: cosmwasm_std::Deps, a: &str| query_balance(d, a.to_string()).unwrap().balance;

    execute_transfer(deps.as_mut(), mock_env(), mock_info("recipient", &[]), "lucky".to_string(), Uint128::new(60))
        .unwrap();
    assert_eq!(bal(deps.as_ref(), "recipient"), Uint128::new(40));
    assert_eq!(bal(deps.as_ref(), "lucky"), Uint128::new(60));

    let err = execute_transfer(deps.as_mut(), mock_env(), mock_info("recipient", &[]), "lucky".to_string(), Uint128::new(60))
        .unwrap_err();
    assert_eq!(err.to_string(), "Overflow: Cannot Sub with 40 and 60");
    assert_eq!(bal(deps.as_ref(), "recipient") + bal(deps.as_ref(), "lucky"), Uint128::new(100));
}
