use decasino::error::PoolError;
use decasino::ledger::Balance;
use decasino::msg::{Asset, AssetInfo, Cw20HookMsg, Cw20ReceiveMsg, MessageInfo, Outbound};
use decasino::pool::{
    handle, handle_add_game_contract, handle_deposit, handle_play, handle_remove_game_contract,
    handle_send, handle_transfer, handle_update_owner, handle_withdraw, handle_withdraw_cw20, init,
    query_balance, query_config, query_token_info, query_token_ratio, HandleMsg, Pool, PoolEvent,
};

fn addr(s: &str) -> Vec<u8> {
    s.as_bytes().to_vec()
}

fn coin(amount: u128) -> Asset {
    Asset { info: AssetInfo::NativeToken { denom: "uscrt".to_string() }, amount }
}

fn info(sender: &str, funds: Vec<Asset>) -> MessageInfo {
    MessageInfo { sender: addr(sender), sent_funds: funds }
}

fn fresh(owner: &str) -> Pool {
    let pool = init(&info(owner, vec![]), &vec![]).unwrap();
    let meta = query_token_info(&pool);
    assert_eq!(meta.name, "cpool");
    assert_eq!(meta.symbol, "cool");
    assert_eq!(meta.decimals, 18);
    assert_eq!(meta.total_supply, 0);
    pool
}

fn deposit(pool: &mut Pool, who: &str, amount: u128) -> u128 {
    match handle_deposit(pool, &info(who, vec![coin(amount)])).unwrap().event {
        PoolEvent::Minted { amount } => amount,
        other => panic!("unexpected event {:?}", other),
    }
}

#[test]
fn it_works() {
    assert_eq!(2 + 2, 4);
}

#[test]
fn contract_proper_initialization() {
    let amount: u128 = 11223344;
    let initial = vec![Balance { address: addr("addr0000"), amount }];
    let pool = init(&info("creator", vec![]), &initial).unwrap();
    let meta = query_token_info(&pool);
    assert_eq!(meta.name, "cpool");
    assert_eq!(meta.symbol, "cool");
    assert_eq!(meta.decimals, 18);
    assert_eq!(meta.total_supply, amount);
    assert_eq!(query_balance(&pool, &addr("addr0000")), 11223344);
}

#[test]
fn contract_can_mint_by_deposit() {
    let mut pool = fresh("genesis");
    let amount: u128 = 11223344;
    let res = handle(&mut pool, &info("asmodat", vec![coin(amount)]), HandleMsg::Deposit {}).unwrap();
    assert_eq!(0, res.messages.len());
    // an empty pool mints one share per unit deposited
    assert_eq!(query_balance(&pool, &addr("asmodat")), amount);
}

#[test]
fn contract_test_add_game_contract() {
    let mut pool = fresh("genesis");
    let msg = HandleMsg::AddGameContract { game_contract: addr("lucky") };
    handle(&mut pool, &info("genesis", vec![coin(1000000)]), msg).unwrap();
    let casino = query_config(&pool);
    assert_eq!(casino.owner, addr("genesis"));
    assert_eq!(casino.pool, 0);
    assert_eq!(casino.game_contracts, vec![addr("lucky")]);
}

#[test]
fn contract_test_remove_game_contract() {
    let mut pool = fresh("genesis");
    let msg = HandleMsg::AddGameContract { game_contract: addr("lucky") };
    handle(&mut pool, &info("genesis", vec![coin(1000000)]), msg).unwrap();
    let msg1 = HandleMsg::RemoveGameContract { game_contract: addr("lucky") };
    handle(&mut pool, &info("genesis", vec![coin(1000000)]), msg1).unwrap();
    let casino = query_config(&pool);
    assert_eq!(casino.owner, addr("genesis"));
    assert_eq!(casino.pool, 0);
    assert_eq!(casino.game_contracts, Vec::<Vec<u8>>::new());
}

#[test]
fn contract_test_play() {
    let mut pool = fresh("genesis");
    let res = handle(&mut pool, &info("asmodat", vec![coin(1000000)]), HandleMsg::Deposit {}).unwrap();
    assert_eq!(0, res.messages.len());
    assert_eq!(query_balance(&pool, &addr("asmodat")), 1000000);

    let msg = HandleMsg::AddGameContract { game_contract: addr("genesis") };
    handle(&mut pool, &info("genesis", vec![]), msg).unwrap();

    // the house wins: the stake joins the reserve
    let play = HandleMsg::Play {
        result: false,
        bet_amount: 10000,
        prize_amount: 10000,
        winner: addr("asmodat"),
    };
    let res = handle(&mut pool, &info("genesis", vec![coin(1000000)]), play).unwrap();
    assert!(res.messages.is_empty());
    assert_eq!(query_token_ratio(&pool).unwrap(), 1_000_000 * 1_000_000 / 1_010_000);

    // the bettor wins: the prize leaves the reserve
    let play2 = HandleMsg::Play {
        result: true,
        bet_amount: 10000,
        prize_amount: 5000,
        winner: addr("asmodat"),
    };
    let res = handle(&mut pool, &info("genesis", vec![coin(1000000)]), play2).unwrap();
    assert_eq!(res.messages, vec![Outbound::BankSend { to_address: addr("asmodat"), amount: 5000 }]);
    assert_eq!(query_token_ratio(&pool).unwrap(), 1_000_000 * 1_000_000 / 1_005_000);

    let casino = query_config(&pool);
    assert_eq!(casino.owner, addr("genesis"));
    assert_eq!(casino.pool, 1_005_000);
    assert_eq!(casino.game_contracts, vec![addr("genesis")]);
}

#[test]
fn bootstrap_deposit_mints_one_to_one() {
    let mut pool = fresh("owner");
    assert_eq!(deposit(&mut pool, "x", 1_000_000), 1_000_000);
    assert_eq!(query_token_info(&pool).total_supply, 1_000_000);
    assert_eq!(query_balance(&pool, &addr("x")), 1_000_000);
    assert_eq!(query_config(&pool).pool, 1_000_000);
}

#[test]
fn second_deposit_at_unchanged_ratio_mints_one_to_one() {
    let mut pool = fresh("owner");
    deposit(&mut pool, "x", 1_000_000);
    assert_eq!(deposit(&mut pool, "y", 500_000), 500_000);
    assert_eq!(query_token_info(&pool).total_supply, 1_500_000);
    assert_eq!(query_balance(&pool, &addr("y")), 500_000);
    assert_eq!(query_balance(&pool, &addr("x")), 1_000_000);
}

#[test]
fn deposit_mints_in_proportion_rounded_down() {
    let mut pool = fresh("owner");
    deposit(&mut pool, "x", 1_000_000);
    handle_add_game_contract(&mut pool, &info("owner", vec![]), &addr("table")).unwrap();
    handle_play(&mut pool, &info("table", vec![]), false, 10_000, 0, &addr("x")).unwrap();
    // 1_000_000 * 1_000 / 1_010_000 = 990.09...
    assert_eq!(deposit(&mut pool, "y", 1_000), 990);
    assert_eq!(query_config(&pool).pool, 1_011_000);
    assert_eq!(query_token_info(&pool).total_supply, 1_000_990);
}

#[test]
fn deposit_without_stake_coin_is_refused() {
    let mut pool = fresh("owner");
    let other = Asset { info: AssetInfo::NativeToken { denom: "uatom".to_string() }, amount: 5 };
    assert_eq!(handle_deposit(&mut pool, &info("x", vec![other])), Err(PoolError::InvalidZeroAmount));
    assert_eq!(handle_deposit(&mut pool, &info("x", vec![])), Err(PoolError::InvalidZeroAmount));
    assert_eq!(handle_deposit(&mut pool, &info("x", vec![coin(0)])), Err(PoolError::InvalidZeroAmount));
    assert_eq!(query_token_info(&pool).total_supply, 0);
}

#[test]
fn deposit_that_overflows_is_refused() {
    let mut pool = fresh("owner");
    deposit(&mut pool, "x", u128::MAX - 10);
    let before = pool.clone();
    assert_eq!(handle_deposit(&mut pool, &info("y", vec![coin(11)])), Err(PoolError::Overflow));
    assert_eq!(pool, before);
}

#[test]
fn withdraw_pays_proportional_share_rounded_down() {
    let mut pool = fresh("owner");
    deposit(&mut pool, "x", 1_000);
    deposit(&mut pool, "y", 2_000);
    handle_add_game_contract(&mut pool, &info("owner", vec![]), &addr("table")).unwrap();
    handle_play(&mut pool, &info("table", vec![]), false, 1_000, 0, &addr("x")).unwrap();
    // reserve 4_000, supply 3_000: 1_000 shares redeem 1_333
    let res = handle_withdraw(&mut pool, &addr("x"), 1_000).unwrap();
    assert_eq!(res.messages, vec![Outbound::BankSend { to_address: addr("x"), amount: 1_333 }]);
    assert_eq!(res.event, PoolEvent::Withdrawn { amount: 1_000, send_amount: 1_333 });
    assert_eq!(query_config(&pool).pool, 2_667);
    assert_eq!(query_token_info(&pool).total_supply, 2_000);
    assert_eq!(query_balance(&pool, &addr("x")), 0);
}

#[test]
fn withdraw_errors() {
    let mut pool = fresh("owner");
    deposit(&mut pool, "x", 1_000);
    assert_eq!(handle_withdraw(&mut pool, &addr("x"), 0), Err(PoolError::InvalidZeroAmount));
    assert_eq!(handle_withdraw(&mut pool, &addr("x"), 1_001), Err(PoolError::InsufficientBalance));
    assert_eq!(handle_withdraw(&mut pool, &addr("y"), 1), Err(PoolError::InsufficientBalance));
    assert_eq!(query_balance(&pool, &addr("x")), 1_000);
}

#[test]
fn withdraw_that_overflows_is_refused() {
    let mut pool = fresh("owner");
    deposit(&mut pool, "x", u128::MAX / 2);
    assert_eq!(handle_withdraw(&mut pool, &addr("x"), 3), Err(PoolError::Overflow));
}

#[test]
fn deposit_then_full_withdraw_returns_no_more_than_deposit() {
    let mut pool = fresh("owner");
    let shares = deposit(&mut pool, "solo", 100);
    let res = handle_withdraw(&mut pool, &addr("solo"), shares).unwrap();
    assert_eq!(res.messages, vec![Outbound::BankSend { to_address: addr("solo"), amount: 100 }]);

    let mut pool = fresh("owner");
    deposit(&mut pool, "x", 3);
    handle_add_game_contract(&mut pool, &info("owner", vec![]), &addr("table")).unwrap();
    handle_play(&mut pool, &info("table", vec![]), false, 1, 0, &addr("x")).unwrap();
    let shares = deposit(&mut pool, "y", 101);
    assert_eq!(shares, 75);
    match handle_withdraw(&mut pool, &addr("y"), shares).unwrap().event {
        PoolEvent::Withdrawn { send_amount, .. } => assert_eq!(send_amount, 100),
        other => panic!("unexpected event {:?}", other),
    }
}

#[test]
fn share_value_never_drops_over_deposits_and_withdrawals() {
    let mut pool = fresh("owner");
    deposit(&mut pool, "a", 1_000);
    handle_add_game_contract(&mut pool, &info("owner", vec![]), &addr("table")).unwrap();
    handle_play(&mut pool, &info("table", vec![]), false, 7, 0, &addr("a")).unwrap();
    let mut last = (query_config(&pool).pool, query_token_info(&pool).total_supply);
    let steps: Vec<(bool, &str, u128)> =
        vec![(true, "b", 333), (false, "a", 101), (true, "c", 1), (false, "b", 17), (true, "a", 999)];
    for (is_deposit, who, amount) in steps {
        if is_deposit {
            deposit(&mut pool, who, amount);
        } else {
            handle_withdraw(&mut pool, &addr(who), amount).unwrap();
        }
        let now = (query_config(&pool).pool, query_token_info(&pool).total_supply);
        assert!(last.0 * now.1 <= now.0 * last.1);
        last = now;
    }
}

#[test]
fn report_from_unregistered_account_is_unauthorized() {
    let mut pool = fresh("owner");
    deposit(&mut pool, "x", 1_000);
    let before = pool.clone();
    let res = handle_play(&mut pool, &info("stranger", vec![]), true, 10, 500, &addr("stranger"));
    assert_eq!(res, Err(PoolError::Unauthorized));
    assert_eq!(pool, before);
    assert_eq!(query_config(&pool).pool, 1_000);
    assert_eq!(query_balance(&pool, &addr("x")), 1_000);
}

#[test]
fn payout_beyond_reserve_is_refused() {
    let mut pool = fresh("owner");
    deposit(&mut pool, "x", 1_000);
    handle_add_game_contract(&mut pool, &info("owner", vec![]), &addr("table")).unwrap();
    let res = handle_play(&mut pool, &info("table", vec![]), true, 10, 1_001, &addr("x"));
    assert_eq!(res, Err(PoolError::Overflow));
    assert_eq!(query_config(&pool).pool, 1_000);
}

#[test]
fn withdraw_callback_checks_caller_and_instruction() {
    let mut pool = fresh("owner");
    deposit(&mut pool, "x", 1_000);
    handle(&mut pool, &info("owner", vec![]), HandleMsg::UpdatePoolTokenContract { pool_token: addr("share") })
        .unwrap();
    let notice = Cw20ReceiveMsg { sender: addr("x"), amount: 400, msg: Some(Cw20HookMsg::Withdraw {}) };
    assert_eq!(handle_withdraw_cw20(&mut pool, &info("x", vec![]), &notice), Err(PoolError::Unauthorized));
    let bare = Cw20ReceiveMsg { sender: addr("x"), amount: 400, msg: None };
    assert_eq!(handle_withdraw_cw20(&mut pool, &info("share", vec![]), &bare), Err(PoolError::MissingHookMsg));
    let too_many = Cw20ReceiveMsg { sender: addr("x"), amount: 1_001, msg: Some(Cw20HookMsg::Withdraw {}) };
    assert_eq!(
        handle_withdraw_cw20(&mut pool, &info("share", vec![]), &too_many),
        Err(PoolError::InsufficientBalance)
    );
    let res = handle(&mut pool, &info("share", vec![]), HandleMsg::Receive(notice)).unwrap();
    // the share owner is paid, not the share token that notified
    assert_eq!(res.messages, vec![Outbound::BankSend { to_address: addr("x"), amount: 400 }]);
    assert_eq!(query_balance(&pool, &addr("x")), 600);
    assert_eq!(query_balance(&pool, &addr("share")), 0);
    assert_eq!(query_token_info(&pool).total_supply, 600);
    assert_eq!(query_config(&pool).pool, 600);
}

#[test]
fn game_contract_list_keeps_order_without_duplicates() {
    let mut pool = fresh("owner");
    for g in ["a", "b", "a", "c", "b"] {
        handle_add_game_contract(&mut pool, &info("owner", vec![]), &addr(g)).unwrap();
    }
    assert_eq!(query_config(&pool).game_contracts, vec![addr("a"), addr("b"), addr("c")]);
    handle_remove_game_contract(&mut pool, &info("owner", vec![]), &addr("z")).unwrap();
    assert_eq!(query_config(&pool).game_contracts, vec![addr("a"), addr("b"), addr("c")]);
    handle_remove_game_contract(&mut pool, &info("owner", vec![]), &addr("b")).unwrap();
    assert_eq!(query_config(&pool).game_contracts, vec![addr("a"), addr("c")]);
}

#[test]
fn only_owner_changes_configuration() {
    let mut pool = fresh("owner");
    assert_eq!(handle_update_owner(&mut pool, &info("x", vec![]), &addr("x")), Err(PoolError::Unauthorized));
    assert_eq!(
        handle_add_game_contract(&mut pool, &info("x", vec![]), &addr("g")),
        Err(PoolError::Unauthorized)
    );
    handle_update_owner(&mut pool, &info("owner", vec![]), &addr("next")).unwrap();
    assert_eq!(query_config(&pool).owner, addr("next"));
    handle_add_game_contract(&mut pool, &info("next", vec![]), &addr("g")).unwrap();
    handle_add_game_contract(&mut pool, &info("next", vec![]), &addr("g")).unwrap();
    handle_add_game_contract(&mut pool, &info("next", vec![]), &addr("h")).unwrap();
    assert_eq!(query_config(&pool).game_contracts, vec![addr("g"), addr("h")]);
    handle_remove_game_contract(&mut pool, &info("next", vec![]), &addr("g")).unwrap();
    assert_eq!(query_config(&pool).game_contracts, vec![addr("h")]);
}

#[test]
fn transfer_and_send_move_shares() {
    let mut pool = fresh("owner");
    deposit(&mut pool, "x", 1_000);
    handle_transfer(&mut pool, &info("x", vec![]), &addr("y"), 300).unwrap();
    assert_eq!(query_balance(&pool, &addr("x")), 700);
    assert_eq!(query_balance(&pool, &addr("y")), 300);
    assert_eq!(handle_transfer(&mut pool, &info("y", vec![]), &addr("x"), 301), Err(PoolError::InsufficientBalance));
    assert_eq!(handle_transfer(&mut pool, &info("y", vec![]), &addr("x"), 0), Err(PoolError::InvalidZeroAmount));
    let res = handle_send(&mut pool, &info("x", vec![]), &addr("c"), 200, Some(vec![1, 2])).unwrap();
    assert_eq!(
        res.messages,
        vec![Outbound::Cw20Receive { contract_addr: addr("c"), sender: addr("x"), amount: 200, msg: Some(vec![1, 2]) }]
    );
    assert_eq!(query_balance(&pool, &addr("c")), 200);
    assert_eq!(query_token_info(&pool).total_supply, 1_000);
}

#[test]
fn token_ratio_values() {
    let mut pool = fresh("owner");
    assert_eq!(query_token_ratio(&pool), Ok(1));
    deposit(&mut pool, "x", 3);
    assert_eq!(query_token_ratio(&pool), Ok(1_000_000));
    let mut big = fresh("owner");
    deposit(&mut big, "x", u128::MAX / 1_000);
    assert_eq!(query_token_ratio(&big), Err(PoolError::Overflow));
}

#[test]
fn opening_balances_of_one_account_add_up() {
    let initial = vec![
        Balance { address: addr("a"), amount: 5 },
        Balance { address: addr("b"), amount: 7 },
        Balance { address: addr("a"), amount: 1 },
    ];
    let pool = init(&info("creator", vec![]), &initial).unwrap();
    assert_eq!(query_balance(&pool, &addr("a")), 6);
    assert_eq!(query_token_info(&pool).total_supply, 13);
    let too_much = vec![Balance { address: addr("a"), amount: u128::MAX }, Balance { address: addr("b"), amount: 1 }];
    assert_eq!(init(&info("creator", vec![]), &too_much).err(), Some(PoolError::Overflow));
}

#[test]
fn consistency_of_loaded_pool() {
    let mut pool = fresh("owner");
    deposit(&mut pool, "x", 10);
    deposit(&mut pool, "y", 20);
    assert!(pool.is_consistent());
    let mut doubled = pool.clone();
    doubled.balances.push(Balance { address: addr("x"), amount: 0 });
    assert!(!doubled.is_consistent());
    let mut short = pool.clone();
    short.token.total_supply = 29;
    assert!(!short.is_consistent());
}
