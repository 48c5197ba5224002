//! Gas premium estimation and receipt polling for cross-subnet fund transfers.
//!
//! All amounts are in wei (attoFIL) per unit of gas.

use vstd::prelude::*;
use vstd::relations::{sorted_by, total_ordering};

use crate::address::{delegated_eth_address, get_delegated_address, Address};
use crate::error::Error;
use crate::signer::signer::Signer;
use crate::signer::subnet::chain_id_of;
use vstd::seq_lib::{lemma_sorted_unique, to_multiset_insert};

verus! {

/// Number of past blocks whose rewards feed the estimation.
pub const FEE_ESTIMATION_PAST_BLOCKS: u64 = 10;

/// Reward percentile requested from the fee history, in percent.
pub const FEE_ESTIMATION_REWARD_PERCENTILE: u64 = 5;

/// A jump between two consecutive sorted rewards of at least this many
/// percent cuts the lower rewards off.
pub const FEE_ESTIMATION_THRESHOLD_MAX_CHANGE: u128 = 200;

/// Seconds between two polls for a transaction receipt.
pub const RECEIPT_POLL_INTERVAL_SECS: u64 = 1;

/// Number of polls after which a transaction counts as unconfirmed.
pub const TRANSACTION_RECEIPT_RETRIES: u64 = 200;

/// One gwei in wei.
pub const GWEI: u128 = 1_000_000_000;

/// The base fee surged by a multiplier that shrinks as the base fee grows.
pub open spec fn surged(base_fee: int) -> int {
    if base_fee <= 40 * GWEI {
        base_fee * 2
    } else if base_fee <= 100 * GWEI {
        base_fee * 16 / 10
    } else if base_fee <= 200 * GWEI {
        base_fee * 14 / 10
    } else {
        base_fee * 12 / 10
    }
}

/// Surges the base fee: doubled up to 40 gwei, times 1.6 up to 100 gwei,
/// times 1.4 up to 200 gwei, times 1.2 above.
pub fn base_fee_surged(base_fee_per_gas: u128) -> (fee: u128)
    requires
        base_fee_per_gas * 12 <= u128::MAX,
    ensures
        fee == surged(base_fee_per_gas as int),
{
    if base_fee_per_gas <= 40 * GWEI {
        base_fee_per_gas * 2
    } else if base_fee_per_gas <= 100 * GWEI {
        base_fee_per_gas * 16 / 10
    } else if base_fee_per_gas <= 200 * GWEI {
        base_fee_per_gas * 14 / 10
    } else {
        base_fee_per_gas * 12 / 10
    }
}

/// Whether `base_fee_surged` accepts this base fee.
pub fn base_fee_in_range(base_fee_per_gas: u128) -> (ok: bool)
    ensures
        ok == (base_fee_per_gas * 12 <= u128::MAX),
{
    base_fee_per_gas <= u128::MAX / 12
}

/// The fee cap that goes with a priority fee and a base fee.
pub open spec fn max_fee(priority_fee: int, base_fee: int) -> int {
    let potential = surged(base_fee);
    if priority_fee > potential {
        priority_fee + potential
    } else {
        potential
    }
}

/// The first reward of every block, zero rewards left out, in block order.
pub open spec fn reward_samples(rewards: Seq<Seq<u128>>) -> Seq<u128>
    decreases rewards.len(),
{
    if rewards.len() == 0 {
        Seq::empty()
    } else {
        let rest = reward_samples(rewards.drop_last());
        let sample = rewards.last()[0];
        if sample > 0 {
            rest.push(sample)
        } else {
            rest
        }
    }
}

/// The order in which rewards are sorted: smallest first.
pub open spec fn ascending() -> spec_fn(u128, u128) -> bool {
    |a: u128, b: u128| a <= b
}

/// By how many percent `b` lies above `a`, rounded down.
pub open spec fn percent_change(a: u128, b: u128) -> int {
    ((b - a) * 100) / (a as int)
}

/// The percent changes between neighbours of a sorted list.
pub open spec fn percent_changes(sorted: Seq<u128>) -> Seq<int> {
    Seq::new(
        (sorted.len() - 1) as nat,
        |i: int| percent_change(sorted[i], sorted[i + 1]),
    )
}

/// Index of the first occurrence of the greatest element.
pub open spec fn first_max_index(changes: Seq<int>) -> int
    decreases changes.len(),
{
    if changes.len() <= 1 {
        0
    } else {
        let before = first_max_index(changes.drop_last());
        if changes.last() > changes[before] {
            changes.len() - 1
        } else {
            before
        }
    }
}

/// The rewards that count: from the greatest jump upwards when that jump is
/// large and lies in the upper half, else all of them.
pub open spec fn selected_rewards(sorted: Seq<u128>) -> Seq<u128> {
    let changes = percent_changes(sorted);
    let at = first_max_index(changes);
    if changes[at] >= FEE_ESTIMATION_THRESHOLD_MAX_CHANGE && at >= sorted.len() / 2 {
        sorted.subrange(at, sorted.len() as int)
    } else {
        sorted
    }
}

/// The priority fee estimated from a fee history.
pub open spec fn priority_fee(rewards: Seq<Seq<u128>>) -> u128 {
    let samples = reward_samples(rewards);
    if samples.len() == 0 {
        0
    } else if samples.len() == 1 {
        samples[0]
    } else {
        let chosen = selected_rewards(samples.sort_by(ascending()));
        chosen[(chosen.len() / 2) as int]
    }
}

/// What `estimate_priority_fee` asks of a fee history: every block carries a
/// reward, and a hundred times that reward is still a `u128`.
pub open spec fn rewards_in_range(rewards: Seq<Seq<u128>>) -> bool {
    forall|i: int|
        0 <= i < rewards.len() ==> (#[trigger] rewards[i]).len() > 0 && rewards[i][0] * 100
            <= u128::MAX
}

/// `ascending` is a total order.
pub proof fn lemma_ascending_total()
    ensures
        total_ordering(ascending()),
{
}

proof fn lemma_first_max_index(changes: Seq<int>)
    requires
        changes.len() > 0,
    ensures
        0 <= first_max_index(changes) < changes.len(),
        forall|j: int|
            0 <= j < changes.len() ==> (#[trigger] changes[j]) <= changes[first_max_index(
                changes,
            )],
        forall|j: int|
            0 <= j < first_max_index(changes) ==> (#[trigger] changes[j]) < changes[first_max_index(
                changes,
            )],
    decreases changes.len(),
{
    if changes.len() > 1 {
        let front = changes.drop_last();
        lemma_first_max_index(front);
        assert forall|j: int| 0 <= j < front.len() implies front[j] == changes[j] by {}
    }
}

proof fn lemma_samples_bounded(rewards: Seq<Seq<u128>>)
    requires
        rewards_in_range(rewards),
    ensures
        forall|k: int|
            0 <= k < reward_samples(rewards).len() ==> 0 < (#[trigger] reward_samples(
                rewards,
            )[k]) && reward_samples(rewards)[k] * 100 <= u128::MAX,
    decreases rewards.len(),
{
    if rewards.len() > 0 {
        let front = rewards.drop_last();
        assert forall|i: int| 0 <= i < front.len() implies (#[trigger] front[i]).len() > 0
            && front[i][0] * 100 <= u128::MAX by {
            assert(front[i] == rewards[i]);
        }
        lemma_samples_bounded(front);
        assert(rewards.last() == rewards[rewards.len() - 1]);
        let all = reward_samples(rewards);
        let rest = reward_samples(front);
        assert forall|k: int| 0 <= k < all.len() implies 0 < (#[trigger] all[k]) && all[k] * 100
            <= u128::MAX by {
            if k < rest.len() {
                assert(all[k] == rest[k]);
            } else {
                assert(all[k] == rewards.last()[0]);
            }
        }
    }
}

/// Tells whether a fee history meets `rewards_in_range`.
pub fn check_rewards(rewards: &Vec<Vec<u128>>) -> (ok: bool)
    ensures
        ok == rewards_in_range(rewards.deep_view()),
{
    let mut i: usize = 0;
    while i < rewards.len()
        invariant
            i <= rewards.len(),
            forall|k: int|
                0 <= k < i ==> (#[trigger] rewards.deep_view()[k]).len() > 0
                    && rewards.deep_view()[k][0] * 100 <= u128::MAX,
        decreases rewards.len() - i,
    {
        assert(rewards.deep_view()[i as int] == rewards@[i as int]@);
        if rewards[i].len() == 0 || rewards[i][0] > u128::MAX / 100 {
            return false;
        }
        i += 1;
    }
    true
}

/// Collects the non-zero first rewards, in block order.
fn collect_samples(rewards: &Vec<Vec<u128>>) -> (samples: Vec<u128>)
    requires
        rewards_in_range(rewards.deep_view()),
    ensures
        samples@ == reward_samples(rewards.deep_view()),
{
    let mut samples: Vec<u128> = Vec::new();
    let mut i: usize = 0;
    while i < rewards.len()
        invariant
            i <= rewards.len(),
            rewards_in_range(rewards.deep_view()),
            samples@ == reward_samples(rewards.deep_view().take(i as int)),
        decreases rewards.len() - i,
    {
        let ghost all = rewards.deep_view();
        assert(all[i as int] == rewards@[i as int]@);
        assert(all.take(i + 1).drop_last() == all.take(i as int));
        assert(all.take(i + 1).last() == all[i as int]);
        let sample: u128 = rewards[i][0];
        if sample > 0 {
            samples.push(sample);
        }
        i += 1;
    }
    assert(rewards.deep_view().take(i as int) == rewards.deep_view());
    samples
}

/// Sorts into ascending order.
fn sort_ascending(values: &Vec<u128>) -> (sorted: Vec<u128>)
    ensures
        sorted@ == values@.sort_by(ascending()),
{
    let mut sorted: Vec<u128> = Vec::new();
    let mut i: usize = 0;
    assert(sorted@ == values@.take(0));
    while i < values.len()
        invariant
            i <= values.len(),
            sorted_by(sorted@, ascending()),
            sorted@.to_multiset() == values@.take(i as int).to_multiset(),
            sorted@.len() == i,
        decreases values.len() - i,
    {
        let value: u128 = values[i];
        let mut at: usize = 0;
        while at < sorted.len() && sorted[at] <= value
            invariant
                at <= sorted.len(),
                forall|k: int| 0 <= k < at ==> sorted@[k] <= value,
            decreases sorted.len() - at,
        {
            at += 1;
        }
        proof {
            let before = sorted@;
            let after = before.insert(at as int, value);
            before.insert_ensures(at as int, value);
            to_multiset_insert(before, at as int, value);
            assert forall|a: int, b: int| 0 <= a < b < after.len() implies ascending()(
                after[a],
                after[b],
            ) by {
                if b < at {
                } else if b == at {
                } else if a < at {
                    assert(after[b] == before[b - 1]);
                    assert(before[at as int] > value);
                    assert(ascending()(before[at as int], before[b - 1]) || b - 1 == at);
                } else if a == at {
                    assert(after[b] == before[b - 1]);
                    assert(ascending()(before[at as int], before[b - 1]) || b - 1 == at);
                } else {
                    assert(after[a] == before[a - 1]);
                    assert(after[b] == before[b - 1]);
                }
            }
            assert(values@.take(i + 1) == values@.take(i as int).push(value));
            vstd::seq_lib::to_multiset_build(values@.take(i as int), value);
        }
        sorted.insert(at, value);
        i += 1;
    }
    proof {
        assert(values@.take(i as int) == values@);
        lemma_ascending_total();
        values@.lemma_sort_by_ensures(ascending());
        lemma_sorted_unique(sorted@, values@.sort_by(ascending()), ascending());
    }
    sorted
}

/// Estimates the priority fee from the rewards of past blocks: the median of
/// the sorted non-zero samples, taken above the greatest jump when that jump
/// is at least `FEE_ESTIMATION_THRESHOLD_MAX_CHANGE` percent and lies in the
/// upper half.
pub fn estimate_priority_fee(rewards: Vec<Vec<u128>>) -> (fee: u128)
    requires
        rewards_in_range(rewards.deep_view()),
    ensures
        fee == priority_fee(rewards.deep_view()),
{
    let samples = collect_samples(&rewards);
    if samples.len() == 0 {
        return 0;
    }
    if samples.len() == 1 {
        return samples[0];
    }
    let sorted = sort_ascending(&samples);
    proof {
        lemma_samples_bounded(rewards.deep_view());
        lemma_ascending_total();
        samples@.lemma_sort_by_ensures(ascending());
        samples@.to_multiset_ensures();
        sorted@.to_multiset_ensures();
        assert forall|k: int| 0 <= k < sorted@.len() implies 0 < (#[trigger] sorted@[k])
            && sorted@[k] * 100 <= u128::MAX by {
            let x = sorted@[k];
            assert(sorted@.contains(x));
            assert(samples@.contains(x));
            let j = choose|j: int| 0 <= j < samples@.len() && samples@[j] == x;
            assert(samples@[j] == x);
        }
    }
    let ghost changes = percent_changes(sorted@);
    let mut max_change: u128 = 0;
    let mut max_index: usize = 0;
    let mut i: usize = 0;
    while i + 1 < sorted.len()
        invariant
            sorted@.len() >= 2,
            i + 1 <= sorted@.len(),
            changes == percent_changes(sorted@),
            sorted_by(sorted@, ascending()),
            forall|k: int|
                0 <= k < sorted@.len() ==> 0 < (#[trigger] sorted@[k]) && sorted@[k] * 100
                    <= u128::MAX,
            i == 0 ==> max_index == 0 && max_change == 0,
            i > 0 ==> max_index == first_max_index(changes.take(i as int)) && max_change
                == changes[max_index as int],
            max_index < sorted@.len() - 1,
        decreases sorted.len() - i,
    {
        let a: u128 = sorted[i];
        let b: u128 = sorted[i + 1];
        assert(ascending()(sorted@[i as int], sorted@[i + 1]));
        let change: u128 = ((b - a) * 100) / a;
        proof {
            assert(change == changes[i as int]);
            let upto = changes.take(i + 1);
            assert(upto.drop_last() == changes.take(i as int));
            assert(upto.last() == changes[i as int]);
            if i > 0 {
                lemma_first_max_index(changes.take(i as int));
            }
        }
        if i == 0 || change > max_change {
            max_change = change;
            max_index = i;
        }
        i += 1;
    }
    proof {
        assert(changes.take(i as int) == changes);
    }
    let start: usize = if max_change >= FEE_ESTIMATION_THRESHOLD_MAX_CHANGE && max_index
        >= sorted.len() / 2 {
        max_index
    } else {
        0
    };
    let count: usize = sorted.len() - start;
    proof {
        let chosen = selected_rewards(sorted@);
        if start == 0 {
            assert(sorted@.subrange(0, sorted@.len() as int) == sorted@);
        }
        assert(chosen == sorted@.subrange(start as int, sorted@.len() as int));
    }
    sorted[start + count / 2]
}

/// The priority fee and the fee cap for a transaction, from the latest
/// block's base fee and the rewards of past blocks. The priority fee is the
/// gas price to put on the call.
pub fn premium_estimation(base_fee_per_gas: u128, rewards: Vec<Vec<u128>>) -> (fees: (u128, u128))
    requires
        rewards_in_range(rewards.deep_view()),
        base_fee_per_gas * 12 <= u128::MAX,
        max_fee(priority_fee(rewards.deep_view()) as int, base_fee_per_gas as int) <= u128::MAX,
    ensures
        fees.0 == priority_fee(rewards.deep_view()),
        fees.1 == max_fee(fees.0 as int, base_fee_per_gas as int),
{
    let max_priority_fee_per_gas = estimate_priority_fee(rewards);
    let potential_max_fee = base_fee_surged(base_fee_per_gas);
    let max_fee_per_gas = if max_priority_fee_per_gas > potential_max_fee {
        max_priority_fee_per_gas + potential_max_fee
    } else {
        potential_max_fee
    };
    (max_priority_fee_per_gas, max_fee_per_gas)
}


/// How long to wait between polls and how often to poll: two independent
/// settings.
#[derive(Debug, Clone, Copy, PartialEq, Eq)]
pub struct PollConfig {
    pub interval_secs: u64,
    pub max_attempts: u64,
}

impl Default for PollConfig {
    fn default() -> (config: Self)
        ensures
            config.interval_secs == RECEIPT_POLL_INTERVAL_SECS,
            config.max_attempts == TRANSACTION_RECEIPT_RETRIES,
    {
        PollConfig {
            interval_secs: RECEIPT_POLL_INTERVAL_SECS,
            max_attempts: TRANSACTION_RECEIPT_RETRIES,
        }
    }
}

/// What to do after a poll for a receipt.
#[derive(Debug, Clone, Copy, PartialEq, Eq)]
pub enum PollAction {
    /// The receipt is there: hand it to the caller.
    Confirmed,
    /// Sleep for this many seconds, then poll again.
    RetryAfter(u64),
    /// The attempts are used up: the transaction was sent but is unconfirmed.
    Unconfirmed,
}

/// The polls made so far for the receipt of one transaction.
#[derive(Debug, Clone, Copy, PartialEq, Eq)]
pub struct ReceiptPoll {
    config: PollConfig,
    attempts: u64,
}

impl ReceiptPoll {
    /// The configuration this poll runs under.
    pub closed spec fn config(&self) -> PollConfig {
        self.config
    }

    /// The number of polls that found no receipt.
    pub closed spec fn attempts(&self) -> nat {
        self.attempts as nat
    }

    /// No more polls are made than the configuration allows.
    pub closed spec fn wf(&self) -> bool {
        self.attempts <= self.config.max_attempts
    }

    /// A poll that has not started.
    pub fn new(config: PollConfig) -> (poll: Self)
        ensures
            poll.wf(),
            poll.config() == config,
            poll.attempts() == 0,
    {
        ReceiptPoll { config, attempts: 0 }
    }

    /// The number of polls that found no receipt.
    pub fn attempts_made(&self) -> (n: u64)
        ensures
            n == self.attempts(),
    {
        self.attempts
    }

    /// Takes the outcome of one poll and says what to do next. A receipt
    /// ends the polling at once. A miss counts; the miss that uses up
    /// `max_attempts`, or any miss once they are used up, ends in
    /// `Unconfirmed`; every other miss asks for a retry after the fixed
    /// interval.
    pub fn step(&mut self, receipt_found: bool) -> (action: PollAction)
        requires
            old(self).wf(),
        ensures
            final(self).wf(),
            final(self).config() == old(self).config(),
            action == poll_action(old(self).config(), old(self).attempts(), receipt_found),
            final(self).attempts() == attempts_after(
                old(self).config(),
                old(self).attempts(),
                receipt_found,
            ),
    {
        if receipt_found {
            return PollAction::Confirmed;
        }
        if self.attempts < self.config.max_attempts {
            self.attempts = self.attempts + 1;
        }
        if self.attempts < self.config.max_attempts {
            PollAction::RetryAfter(self.config.interval_secs)
        } else {
            PollAction::Unconfirmed
        }
    }
}

/// The action that follows a poll made after `attempts` misses.
pub open spec fn poll_action(config: PollConfig, attempts: nat, receipt_found: bool) -> PollAction {
    if receipt_found {
        PollAction::Confirmed
    } else if attempts + 1 < config.max_attempts {
        PollAction::RetryAfter(config.interval_secs)
    } else {
        PollAction::Unconfirmed
    }
}

/// The number of misses counted after a poll made after `attempts` misses.
pub open spec fn attempts_after(config: PollConfig, attempts: nat, receipt_found: bool) -> nat {
    if receipt_found || attempts >= config.max_attempts {
        attempts
    } else {
        attempts + 1
    }
}

/// Runs `misses` polls that find nothing, starting from `attempts` misses.
pub open spec fn attempts_after_misses(config: PollConfig, attempts: nat, misses: nat) -> nat
    decreases misses,
{
    if misses == 0 {
        attempts
    } else {
        attempts_after(config, attempts_after_misses(config, attempts, (misses - 1) as nat), false)
    }
}

/// Polling is bounded: a poll that only ever misses is asked to retry
/// exactly `max_attempts - 1` times and is told `Unconfirmed` on miss number
/// `max_attempts` (on the first miss when `max_attempts` is zero).
pub proof fn lemma_polling_is_bounded(config: PollConfig, misses: nat)
    ensures
        attempts_after_misses(config, 0, misses) == if misses <= config.max_attempts {
            misses
        } else {
            config.max_attempts as nat
        },
        poll_action(config, attempts_after_misses(config, 0, misses), false)
            == PollAction::Unconfirmed <==> misses + 1 >= config.max_attempts,
    decreases misses,
{
    if misses > 0 {
        lemma_polling_is_bounded(config, (misses - 1) as nat);
    }
}

/// The base fee of the latest block. `None` says that there is no latest
/// block, `Some(None)` that the block carries no base fee.
pub fn latest_base_fee(latest_block: Option<Option<u128>>) -> (base_fee: Result<u128, Error>)
    ensures
        match latest_block {
            None => base_fee == Err::<u128, Error>(Error::LatestBlockMissing),
            Some(None) => base_fee == Err::<u128, Error>(Error::BaseFeeMissing),
            Some(Some(fee)) => base_fee == Ok::<u128, Error>(fee),
        },
{
    match latest_block {
        None => Err(Error::LatestBlockMissing),
        Some(None) => Err(Error::BaseFeeMissing),
        Some(Some(fee)) => Ok(fee),
    }
}

/// The methods of the gateway contract that move funds.
#[derive(Debug, Clone, Copy, PartialEq, Eq)]
pub enum GatewayMethod {
    /// Move funds from the parent into the subnet.
    Fund,
    /// Move funds from the subnet to its parent.
    Release,
}

/// A call of the gateway contract. The amount travels as the value of the
/// transaction.
#[derive(Debug, Clone, PartialEq, Eq)]
pub struct GatewayCall {
    pub method: GatewayMethod,
    pub to: Address,
    pub value: u128,
}

/// The key and the chain that the EVM side signs with.
#[derive(Debug, Clone, PartialEq, Eq)]
pub struct EthSigner {
    pub secret_key: Vec<u8>,
    pub chain_id: u64,
}

/// Moves funds between a subnet and its parent.
pub struct EvmManager {}

impl EvmManager {
    /// The key and chain ID with which a signer signs on the EVM side. A
    /// signer without a key or without a subnet cannot.
    pub fn eth_signer<S: Signer>(signer: &S) -> (eth: Result<EthSigner, Error>)
        ensures
            match (signer.secret_key_view(), signer.subnet_id_view()) {
                (None, _) => eth == Err::<EthSigner, Error>(Error::MissingSecretKey),
                (Some(_), None) => eth == Err::<EthSigner, Error>(Error::MissingSubnetId),
                (Some(key), Some(subnet)) => eth matches Ok(e) && e.secret_key@ == key
                    && e.chain_id == chain_id_of(subnet),
            },
    {
        let secret_key = match signer.secret_key() {
            Some(sk) => sk,
            None => {
                return Err(Error::MissingSecretKey);
            },
        };
        let subnet_id = match signer.subnet_id() {
            Some(subnet_id) => subnet_id,
            None => {
                return Err(Error::MissingSubnetId);
            },
        };
        Ok(EthSigner { secret_key, chain_id: subnet_id.chain_id() })
    }

    /// Whose balance to read on the EVM side for an address: the Ethereum
    /// address behind it.
    pub fn parent_balance(address: &Address) -> (eth: Result<Vec<u8>, Error>)
        ensures
            match delegated_eth_address(address@) {
                Some(bytes) => eth matches Ok(e) && e@ == bytes,
                None => eth == Err::<Vec<u8>, Error>(Error::InvalidAddress),
            },
    {
        get_delegated_address(address)
    }

    /// The call that deposits an amount from the parent into the subnet.
    /// `amount` is the amount in attoFIL where it fits the value of a
    /// transaction.
    pub fn deposit(to: Address, amount: Option<u128>) -> (call: Result<GatewayCall, Error>)
        ensures
            match amount {
                Some(value) => call == Ok::<GatewayCall, Error>(
                    GatewayCall { method: GatewayMethod::Fund, to, value },
                ),
                None => call == Err::<GatewayCall, Error>(Error::InvalidFundValue),
            },
    {
        match amount {
            Some(value) => Ok(GatewayCall { method: GatewayMethod::Fund, to, value }),
            None => Err(Error::InvalidFundValue),
        }
    }

    /// The call that withdraws an amount from the subnet to its parent.
    pub fn withdraw(to: Address, amount: Option<u128>) -> (call: Result<GatewayCall, Error>)
        ensures
            match amount {
                Some(value) => call == Ok::<GatewayCall, Error>(
                    GatewayCall { method: GatewayMethod::Release, to, value },
                ),
                None => call == Err::<GatewayCall, Error>(Error::InvalidFundValue),
            },
    {
        match amount {
            Some(value) => Ok(GatewayCall { method: GatewayMethod::Release, to, value }),
            None => Err(Error::InvalidFundValue),
        }
    }
}

} // verus!
