use decasino::entropy::{derive_outcome, outcome_from_digest};
use decasino::error::ContractError;
use decasino::msg::{Asset, AssetInfo, BlockInfo, MessageInfo, Outbound};
use decasino::payout::calc_payout;
use decasino::table::{
    check_result, handle, handle_bet, handle_result, handle_update_house_contract, handle_update_house_fee,
    handle_update_name, init, query_config, Bet, HandleMsg, Table, TableEvent,
};
use sha2::{Digest, Sha256};

fn addr(s: &str) -> Vec<u8> {
    s.as_bytes().to_vec()
}

fn info(sender: &str, stake: u128) -> MessageInfo {
    let funds = if stake == 0 {
        vec![]
    } else {
        vec![Asset { info: AssetInfo::NativeToken { denom: "uscrt".to_string() }, amount: stake }]
    };
    MessageInfo { sender: addr(sender), sent_funds: funds }
}

fn block(height: u64) -> BlockInfo {
    BlockInfo { height, time: 1_600_000_000 + height * 6, time_nanos: 123_456, chain_id: "secret-2".to_string() }
}

fn table() -> Table {
    let mut t = init(&info("owner", 0));
    handle_update_house_contract(&mut t, &info("owner", 0), &addr("house")).unwrap();
    t
}

fn expected_outcome(bettor: &[u8], b: &BlockInfo) -> u8 {
    let mut input = bettor.to_vec();
    input.extend_from_slice(b.chain_id.as_bytes());
    input.extend_from_slice(&b.height.to_be_bytes());
    input.extend_from_slice(&b.time.to_be_bytes());
    input.extend_from_slice(&b.time_nanos.to_be_bytes());
    let mut salted = Sha256::digest(&input).to_vec();
    salted.extend_from_slice(&b.time.to_be_bytes());
    let mut seeded = bettor.to_vec();
    seeded.extend_from_slice(&salted);
    let state = Sha256::digest(&seeded);
    let mut first = [0u8; 8];
    first.copy_from_slice(&state[..8]);
    (u64::from_be_bytes(first) % 59) as u8
}

#[test]
fn prediction_bounds_per_direction() {
    let mut t = table();
    assert!(handle_bet(&mut t, &info("a", 100), &block(10), 100, 1, false).is_ok());
    let mut t = table();
    assert_eq!(handle_bet(&mut t, &info("a", 100), &block(10), 100, 0, false), Err(ContractError::InvalidPrediction));
    assert_eq!(handle_bet(&mut t, &info("a", 100), &block(10), 100, 58, false), Err(ContractError::InvalidPrediction));
    assert!(handle_bet(&mut t, &info("a", 100), &block(10), 100, 58, true).is_ok());
    let mut t = table();
    assert_eq!(handle_bet(&mut t, &info("a", 100), &block(10), 100, 59, true), Err(ContractError::InvalidPrediction));
    assert_eq!(handle_bet(&mut t, &info("a", 100), &block(10), 100, 1, true), Err(ContractError::InvalidPrediction));
    assert!(handle_bet(&mut t, &info("a", 100), &block(10), 100, 2, true).is_ok());
    let mut t = table();
    assert!(handle_bet(&mut t, &info("a", 100), &block(10), 100, 57, false).is_ok());
}

#[test]
fn stake_must_be_attached_and_match() {
    let mut t = table();
    assert_eq!(handle_bet(&mut t, &info("a", 0), &block(10), 100, 30, true), Err(ContractError::EmptyStake));
    assert_eq!(handle_bet(&mut t, &info("a", 99), &block(10), 100, 30, true), Err(ContractError::StakeMismatch));
    assert!(t.bets.is_empty());
    assert_eq!(query_config(&t).bet_amount_sum, 0);
}

#[test]
fn second_open_bet_is_refused() {
    let mut t = table();
    handle_bet(&mut t, &info("a", 100), &block(10), 100, 30, true).unwrap();
    assert_eq!(handle_bet(&mut t, &info("a", 100), &block(11), 100, 20, false), Err(ContractError::BetAlreadyOpen));
    handle_bet(&mut t, &info("b", 50), &block(11), 50, 20, false).unwrap();
    assert_eq!(t.bets.len(), 2);
    assert_eq!(query_config(&t).bet_amount_sum, 150);
}

#[test]
fn payout_is_fixed_at_placement() {
    let mut t = table();
    handle_update_house_fee(&mut t, &info("owner", 0), 10_000).unwrap();
    let res = handle_bet(&mut t, &info("a", 10_000), &block(10), 10_000, 30, true).unwrap();
    // (1_000_000 - 10_000) / (99 - 50) = 20_204
    assert_eq!(res.event, TableEvent::BetPlaced { bet_amount: 10_000, payout: 20_204 });
    handle_update_house_fee(&mut t, &info("owner", 0), 0).unwrap();
    assert_eq!(t.bets[0].payout, 20_204);
}

#[test]
fn payout_formula_values() {
    assert_eq!(calc_payout(30, true, 10_000, 0), Ok(20_408));
    assert_eq!(calc_payout(30, false, 10_000, 0), Ok(20_408));
    assert_eq!(calc_payout(1, false, 10_000, 20_000), Ok(10_000));
    assert_eq!(calc_payout(58, true, 3, 0), Ok(99));
    assert_eq!(calc_payout(30, true, 10_000, 1_000_001), Err(ContractError::Overflow));
    assert_eq!(calc_payout(60, true, 10_000, 0), Err(ContractError::Overflow));
    assert_eq!(calc_payout(30, true, u128::MAX, 0), Err(ContractError::Overflow));
}

#[test]
fn house_fee_beyond_scale_refuses_bets() {
    let mut t = table();
    handle_update_house_fee(&mut t, &info("owner", 0), 1_000_001).unwrap();
    assert_eq!(handle_bet(&mut t, &info("a", 100), &block(10), 100, 30, true), Err(ContractError::Overflow));
}

#[test]
fn win_rule_per_direction() {
    let bet = Bet {
        user: addr("a"),
        bet_amount: 1,
        prediction_number: 30,
        lucky_number: 0,
        position: true,
        result: false,
        payout: 2,
        time: 0,
        block_height: 0,
    };
    assert!(check_result(&bet, 31));
    assert!(!check_result(&bet, 30));
    let under = Bet { position: false, ..bet };
    assert!(check_result(&under, 29));
    assert!(!check_result(&under, 30));
}

#[test]
fn resolution_waits_one_block_then_settles() {
    let mut t = table();
    let placed = block(100);
    handle_bet(&mut t, &info("bettor", 10_000), &placed, 10_000, 30, true).unwrap();
    assert_eq!(handle_result(&mut t, &info("bettor", 0), &placed), Err(ContractError::NoResult));
    assert_eq!(t.bets.len(), 1);

    let next = block(101);
    let res = handle(&mut t, &info("bettor", 0), &next, HandleMsg::Result {}).unwrap();
    let lucky = derive_outcome(&addr("bettor"), &next);
    let won = lucky > 30;
    assert_eq!(
        res.messages,
        vec![Outbound::ReportResult {
            contract_addr: addr("house"),
            won,
            bet_amount: 10_000,
            prize_amount: 20_408,
            winner: addr("bettor"),
            send: 10_000,
        }]
    );
    if won {
        assert_eq!(res.event, TableEvent::Won { payout: 20_408 });
    } else {
        assert_eq!(res.event, TableEvent::Lost { bet_amount: 10_000 });
    }
    assert!(t.bets.is_empty());
}

#[test]
fn missed_window_refunds_stake() {
    let mut t = table();
    handle_bet(&mut t, &info("bettor", 10_000), &block(100), 10_000, 30, true).unwrap();
    let res = handle_result(&mut t, &info("bettor", 0), &block(105)).unwrap();
    assert_eq!(res.messages, vec![Outbound::BankSend { to_address: addr("bettor"), amount: 10_000 }]);
    assert_eq!(res.event, TableEvent::Refunded { bet_amount: 10_000 });
    assert!(t.bets.is_empty());
}

#[test]
fn resolved_bet_cannot_be_resolved_again() {
    let mut t = table();
    handle_bet(&mut t, &info("bettor", 500), &block(7), 500, 10, false).unwrap();
    handle_result(&mut t, &info("bettor", 0), &block(8)).unwrap();
    assert_eq!(handle_result(&mut t, &info("bettor", 0), &block(8)), Err(ContractError::NoGame));
    assert_eq!(handle_result(&mut t, &info("bettor", 0), &block(50)), Err(ContractError::NoGame));
    let mut t = table();
    handle_bet(&mut t, &info("bettor", 500), &block(7), 500, 10, false).unwrap();
    handle_result(&mut t, &info("bettor", 0), &block(9)).unwrap();
    assert_eq!(handle_result(&mut t, &info("bettor", 0), &block(10)), Err(ContractError::NoGame));
}

#[test]
fn outcome_follows_block_entropy() {
    let b = block(4242);
    let lucky = derive_outcome(&addr("bettor"), &b);
    assert!(lucky < 59);
    assert_eq!(lucky, expected_outcome(b"bettor", &b));
    assert_eq!(derive_outcome(&addr("bettor"), &b), lucky);
    let other = BlockInfo { time_nanos: 7, ..b.clone() };
    assert_eq!(derive_outcome(&addr("bettor"), &other), expected_outcome(b"bettor", &other));
}

#[test]
fn outcome_from_generator_state_values() {
    assert_eq!(outcome_from_digest(&vec![0, 0, 0, 0, 0, 0, 0, 60, 255]), 1);
    assert_eq!(outcome_from_digest(&vec![0, 0, 0, 0, 0, 0, 1, 0]), (256 % 59) as u8);
    assert_eq!(outcome_from_digest(&vec![1, 0]), (256 % 59) as u8);
    assert_eq!(outcome_from_digest(&vec![]), 0);
    assert_eq!(outcome_from_digest(&vec![255; 32]), (u64::MAX % 59) as u8);
}

#[test]
fn only_owner_configures_table() {
    let mut t = table();
    assert_eq!(handle_update_name(&mut t, &info("x", 0), "dice".to_string()), Err(ContractError::Unauthorized));
    handle_update_name(&mut t, &info("owner", 0), "dice".to_string()).unwrap();
    handle(&mut t, &info("owner", 0), &block(1), HandleMsg::UpdateMinBetAmount { amount: 10 }).unwrap();
    handle(&mut t, &info("owner", 0), &block(1), HandleMsg::UpdateBetAmountSum { amount: 77 }).unwrap();
    let cfg = query_config(&t);
    assert_eq!(cfg.name, "dice");
    assert_eq!(cfg.min_bet_amount, 10);
    assert_eq!(cfg.bet_amount_sum, 77);
    assert_eq!(cfg.house_contract, addr("house"));
    assert_eq!(cfg.owner, addr("owner"));
}

#[test]
fn consistency_of_loaded_table() {
    let mut t = table();
    handle(&mut t, &info("a", 100), &block(3), HandleMsg::Bet { bet_amount: 100, prediction_number: 30, position: true })
        .unwrap();
    handle(&mut t, &info("b", 100), &block(3), HandleMsg::Bet { bet_amount: 100, prediction_number: 30, position: false })
        .unwrap();
    assert!(t.is_consistent());
    let mut doubled = t.clone();
    let again = doubled.bets[0].clone();
    doubled.bets.push(again);
    assert!(!doubled.is_consistent());
}
