use adm_sdk::error::Error;
use adm_sdk::ipc::manager::{
    base_fee_in_range, check_rewards, latest_base_fee, EvmManager, GatewayCall, GatewayMethod,
    PollAction, PollConfig, ReceiptPoll,
};
use adm_sdk::address::Address;

#[test]
fn default_poll_config() {
    let config = PollConfig::default();
    assert_eq!(config.interval_secs, 1);
    assert_eq!(config.max_attempts, 200);
}

#[test]
fn receipt_ends_polling() {
    let mut poll = ReceiptPoll::new(PollConfig::default());
    assert_eq!(poll.step(false), PollAction::RetryAfter(1));
    assert_eq!(poll.step(true), PollAction::Confirmed);
    assert_eq!(poll.attempts_made(), 1);
}

#[test]
fn polling_gives_up_after_max_attempts() {
    let mut poll = ReceiptPoll::new(PollConfig { interval_secs: 3, max_attempts: 200 });
    for _ in 0..199 {
        assert_eq!(poll.step(false), PollAction::RetryAfter(3));
    }
    assert_eq!(poll.step(false), PollAction::Unconfirmed);
    assert_eq!(poll.attempts_made(), 200);
    assert_eq!(poll.step(false), PollAction::Unconfirmed);
    assert_eq!(poll.attempts_made(), 200);
}

#[test]
fn interval_and_attempts_are_independent() {
    let mut poll = ReceiptPoll::new(PollConfig { interval_secs: 7, max_attempts: 2 });
    assert_eq!(poll.step(false), PollAction::RetryAfter(7));
    assert_eq!(poll.step(false), PollAction::Unconfirmed);
    let mut poll = ReceiptPoll::new(PollConfig { interval_secs: 7, max_attempts: 0 });
    assert_eq!(poll.step(false), PollAction::Unconfirmed);
}

#[test]
fn base_fee_must_exist() {
    assert_eq!(latest_base_fee(None), Err(Error::LatestBlockMissing));
    assert_eq!(latest_base_fee(Some(None)), Err(Error::BaseFeeMissing));
    assert_eq!(latest_base_fee(Some(Some(30))), Ok(30));
}

#[test]
fn range_checks_for_fees() {
    assert!(base_fee_in_range(u128::MAX / 12));
    assert!(!base_fee_in_range(u128::MAX / 12 + 1));
    assert!(check_rewards(&vec![vec![1], vec![u128::MAX / 100]]));
    assert!(!check_rewards(&vec![vec![1], vec![u128::MAX / 100 + 1]]));
    assert!(!check_rewards(&vec![vec![]]));
}

#[test]
fn balances_are_read_for_eth_addresses() {
    let address = Address::new_eth(&vec![9; 20]);
    assert_eq!(EvmManager::parent_balance(&address), Ok(vec![9; 20]));
    assert_eq!(EvmManager::parent_balance(&Address::new_id(1)), Err(Error::InvalidAddress));
}

#[test]
fn deposit_and_withdraw_calls() {
    let to = Address::new_id(7);
    assert_eq!(
        EvmManager::deposit(to.clone(), Some(5)),
        Ok(GatewayCall { method: GatewayMethod::Fund, to: to.clone(), value: 5 })
    );
    assert_eq!(
        EvmManager::withdraw(to.clone(), Some(6)),
        Ok(GatewayCall { method: GatewayMethod::Release, to: to.clone(), value: 6 })
    );
    assert_eq!(EvmManager::deposit(to.clone(), None), Err(Error::InvalidFundValue));
    assert_eq!(EvmManager::withdraw(to, None), Err(Error::InvalidFundValue));
}
