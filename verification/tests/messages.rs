use cosmwasm_std::{Binary, Timestamp, Uint128};
use cw20::{Cw20Coin, EmbeddedLogo, Expiration, Logo, MinterResponse};
use token_msg::msg::{
    ExecuteMsg, InstantiateMarketingInfo, InstantiateMsg, MigrateMsg, MintersResponse, QueryMsg,
};

#[test]
fn commands_keep_their_fields() {
    let send = ExecuteMsg::Send {
        contract: "receiver".to_string(),
        amount: Uint128::new(7),
        msg: Binary::from(vec![1u8, 2, 3]),
    };
    match &send {
        ExecuteMsg::Send { contract, amount, msg } => {
            assert_eq!(contract, "receiver");
            assert_eq!(amount.u128(), 7);
            assert_eq!(msg.as_slice(), &[1u8, 2, 3]);
        }
        other => panic!("unexpected command: {other:?}"),
    }
    assert_ne!(send, ExecuteMsg::Burn { amount: Uint128::new(7) });
    assert_ne!(
        ExecuteMsg::AddMinter { minter: "m".to_string() },
        ExecuteMsg::RemoveMinter { minter: "m".to_string() }
    );
}

#[test]
fn clone_of_a_command_equals_it() {
    let commands = vec![
        ExecuteMsg::Transfer { recipient: "r".to_string(), amount: Uint128::new(1) },
        ExecuteMsg::Burn { amount: Uint128::MAX },
        ExecuteMsg::Send {
            contract: "c".to_string(),
            amount: Uint128::new(2),
            msg: Binary::from(vec![9u8; 4]),
        },
        ExecuteMsg::Mint { recipient: "r".to_string(), amount: Uint128::zero() },
        ExecuteMsg::IncreaseAllowance {
            spender: "s".to_string(),
            amount: Uint128::new(3),
            expires: Some(Expiration::AtHeight(12)),
        },
        ExecuteMsg::DecreaseAllowance {
            spender: "s".to_string(),
            amount: Uint128::new(3),
            expires: Some(Expiration::AtTime(Timestamp::from_seconds(5))),
        },
        ExecuteMsg::TransferFrom {
            owner: "o".to_string(),
            recipient: "r".to_string(),
            amount: Uint128::new(4),
        },
        ExecuteMsg::BurnFrom { owner: "o".to_string(), amount: Uint128::new(5) },
        ExecuteMsg::SendFrom {
            owner: "o".to_string(),
            contract: "c".to_string(),
            amount: Uint128::new(6),
            msg: Binary::default(),
        },
        ExecuteMsg::UpdateMarketing {
            project: Some("https://example.org".to_string()),
            description: None,
            marketing: Some(String::new()),
        },
        ExecuteMsg::UploadLogo(Logo::Url("https://example.org/logo.png".to_string())),
        ExecuteMsg::UploadLogo(Logo::Embedded(EmbeddedLogo::Png(Binary::from(vec![1u8, 2])))),
        ExecuteMsg::UpdateMinter { new_minter: None },
        ExecuteMsg::AddMinter { minter: "m".to_string() },
        ExecuteMsg::RemoveMinter { minter: "m".to_string() },
    ];
    for command in &commands {
        assert_eq!(&command.clone(), command);
    }
    for (i, a) in commands.iter().enumerate() {
        for (j, b) in commands.iter().enumerate() {
            assert_eq!(a == b, i == j);
        }
    }
}

#[test]
fn absent_and_empty_are_told_apart() {
    let unchanged = ExecuteMsg::UpdateMarketing { project: None, description: None, marketing: None };
    let cleared = ExecuteMsg::UpdateMarketing {
        project: Some(String::new()),
        description: None,
        marketing: None,
    };
    assert_ne!(unchanged, cleared);
    assert_eq!(cleared.clone(), cleared);
    assert_ne!(
        ExecuteMsg::IncreaseAllowance {
            spender: "s".to_string(),
            amount: Uint128::new(1),
            expires: None,
        },
        ExecuteMsg::IncreaseAllowance {
            spender: "s".to_string(),
            amount: Uint128::new(1),
            expires: Some(Expiration::Never {}),
        }
    );
}

#[test]
fn clone_of_a_query_equals_it() {
    let queries = vec![
        QueryMsg::Balance { address: "a".to_string() },
        QueryMsg::TokenInfo {},
        QueryMsg::Minter {},
        QueryMsg::Allowance { owner: "o".to_string(), spender: "s".to_string() },
        QueryMsg::AllAllowances {
            owner: "o".to_string(),
            start_after: Some("s".to_string()),
            limit: Some(10),
        },
        QueryMsg::AllSpenderAllowances { spender: "s".to_string(), start_after: None, limit: None },
        QueryMsg::AllAccounts { start_after: None, limit: Some(0) },
        QueryMsg::MarketingInfo {},
        QueryMsg::DownloadLogo {},
        QueryMsg::Minters { start_after: Some(String::new()), limit: Some(u32::MAX) },
    ];
    for query in &queries {
        assert_eq!(&query.clone(), query);
    }
    for (i, a) in queries.iter().enumerate() {
        for (j, b) in queries.iter().enumerate() {
            assert_eq!(a == b, i == j);
        }
    }
}

#[test]
fn clone_of_a_request_equals_it() {
    let msg = InstantiateMsg {
        name: "Token".to_string(),
        symbol: "TKN".to_string(),
        decimals: 6,
        initial_balances: vec![
            Cw20Coin { address: "a".to_string(), amount: Uint128::new(10) },
            Cw20Coin { address: "b".to_string(), amount: Uint128::new(20) },
        ],
        mint: Some(MinterResponse { minter: "m".to_string(), cap: Some(Uint128::new(1000)) }),
        marketing: Some(InstantiateMarketingInfo {
            project: Some("p".to_string()),
            description: None,
            marketing: Some("admin".to_string()),
            logo: Some(Logo::Embedded(EmbeddedLogo::Svg(Binary::from(vec![60u8, 62])))),
        }),
    };
    let copy = msg.clone();
    assert_eq!(copy, msg);
    assert_eq!(copy.initial_balances.len(), 2);
    assert_eq!(copy.initial_balances[1].amount, Uint128::new(20));
    assert_eq!(copy.get_cap(), Some(Uint128::new(1000)));
    assert_eq!(copy.validate(), Ok(()));

    let mut other = msg.clone();
    other.marketing = None;
    assert_ne!(other, msg);
}

#[test]
fn migrate_and_minters_shapes() {
    assert_eq!(MigrateMsg {}, MigrateMsg {}.clone());
    let answer = MintersResponse { minters: vec!["a".to_string(), "b".to_string()] };
    assert_eq!(answer.clone(), answer);
    assert_eq!(answer.minters, ["a", "b"]);
    assert_ne!(answer, MintersResponse { minters: vec!["b".to_string(), "a".to_string()] });
}
