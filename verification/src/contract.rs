//! The contract: its stored record, its construction, and the two phases of a
//! price query.

use crate::account::AccountId;
use crate::price::PriceData;
use near_sdk::PromiseError;
use vstd::prelude::*;

verus! {

/// One tera of gas, the unit in which compute budgets are given.
pub const TGAS: u64 = 1_000_000_000_000;

/// The log entry written when the oracle could not be reached.
pub const ORACLE_ERROR_LOG: &'static str = "There was an error contacting priceoracle";

/// The account of the oracle that a fresh contract asks.
pub const DEFAULT_ORACLE: &'static str = "priceoracle.testnet";

/// The one asset whose price is asked for.
pub const QUOTED_ASSET: &'static str = "usdn.testnet";

/// The record that the contract keeps in storage: a counter value and the
/// account of the oracle that it asks for prices.
#[derive(Debug, PartialEq, Eq)]
pub struct Counter {
    /// The counter value. No entry point changes it.
    pub val: i8,
    /// The oracle's account.
    pub usn_contract: AccountId,
}

/// What a stored record says.
pub struct CounterView {
    pub val: i8,
    pub usn_contract: Seq<char>,
}

impl View for Counter {
    type V = CounterView;

    open spec fn view(&self) -> CounterView {
        CounterView { val: self.val, usn_contract: self.usn_contract@ }
    }
}

impl Counter {
    /// The record of a fresh contract: the counter at 8, prices asked of
    /// `priceoracle.testnet`.
    pub open spec fn initial() -> CounterView {
        CounterView { val: 8, usn_contract: DEFAULT_ORACLE@ }
    }
}

impl Default for Counter {
    fn default() -> (r: Counter)
        ensures
            r@ == Counter::initial(),
    {
        proof {
            reveal_strlit("priceoracle.testnet");
        }
        let oracle = AccountId::parse(DEFAULT_ORACLE).unwrap();
        Counter { val: 8, usn_contract: oracle }
    }
}

/// Why a call of the contract failed.
#[derive(Debug, PartialEq, Eq)]
pub enum CallError {
    /// Construction was attempted while the contract's record is in storage.
    AlreadyInitialized,
    /// A restricted entry point was called by another account than the
    /// contract's own.
    PrivateMethod,
    /// The call to the oracle did not succeed; the host's marker is kept.
    PromiseFailed(PromiseError),
}

/// An entry point that a scheduled call runs, with its arguments.
#[derive(Debug, PartialEq, Eq)]
pub enum Method {
    /// The oracle's `get_price_data`, asked for the prices of `asset_ids`.
    GetPriceData { asset_ids: Option<Vec<AccountId>> },
    /// The contract's own `query_price_callback`, which the host hands the
    /// result of the call that it follows.
    QueryPriceCallback,
}

/// A call that the host is asked to make on the contract's behalf.
#[derive(Debug, PartialEq, Eq)]
pub struct ScheduledCall {
    /// The account that is called.
    pub receiver_id: AccountId,
    /// The entry point that is run there.
    pub method: Method,
    /// The compute budget of the call.
    pub static_gas: u64,
}

/// What a price query asks the host to schedule: one call of the oracle, and
/// one continuation that runs when that call has resolved. Until then the
/// query awaits the oracle's response; nothing bounds the wait, and a call
/// that failed is not made again.
#[derive(Debug, PartialEq, Eq)]
pub struct PriceQuery {
    /// The call that asks the oracle.
    pub oracle_call: ScheduledCall,
    /// The continuation that takes the oracle's answer.
    pub callback: ScheduledCall,
}

/// How a price query is resolved by a run of the continuation: the log
/// entries that the run wrote, in order, and the snapshot that it returns or
/// the reason why the call failed.
#[derive(Debug, PartialEq, Eq)]
pub struct CallbackOutcome {
    /// The log entries to write.
    pub logs: Vec<String>,
    /// The snapshot to return, or why the call is to fail.
    pub result: Result<PriceData, CallError>,
}

/// The contract, holding its stored record for the length of a call.
#[derive(Debug, PartialEq, Eq)]
pub struct PriceFetcher {
    /// The record as it was read from storage, or that of a fresh contract.
    pub state: Counter,
}

impl Default for PriceFetcher {
    fn default() -> (r: PriceFetcher)
        ensures
            r.state@ == Counter::initial(),
    {
        PriceFetcher { state: Counter::default() }
    }
}

impl PriceFetcher {
    /// Constructs the contract. `state_exists` says whether the contract's
    /// record is in storage already: then the construction is refused.
    /// Otherwise the host stores the state of the contract that is returned.
    pub fn new(state_exists: bool) -> (r: Result<PriceFetcher, CallError>)
        ensures
            state_exists ==> r == Err::<PriceFetcher, CallError>(CallError::AlreadyInitialized),
            !state_exists ==> r is Ok && r->Ok_0.state@ == Counter::initial(),
    {
        if state_exists {
            Err(CallError::AlreadyInitialized)
        } else {
            Ok(PriceFetcher::default())
        }
    }

    /// The first phase of a price query, run on the account
    /// `current_account_id`: asks the oracle for the price of the one quoted
    /// asset and has the contract's own account called back with the answer.
    pub fn query_price(&self, current_account_id: AccountId) -> (q: PriceQuery)
        ensures
            q.oracle_call.receiver_id@ == self.state@.usn_contract,
            q.oracle_call.method matches Method::GetPriceData { asset_ids: Some(ids) }
                && ids@.len() == 1 && ids@[0]@ == QUOTED_ASSET@,
            q.oracle_call.static_gas == 5 * TGAS,
            q.callback.receiver_id@ == current_account_id@,
            q.callback.method is QueryPriceCallback,
            q.callback.static_gas == 5 * TGAS,
    {
        proof {
            reveal_strlit("usdn.testnet");
        }
        let mut assets: Vec<AccountId> = Vec::new();
        assets.push(AccountId::parse(QUOTED_ASSET).unwrap());
        let oracle_call = ScheduledCall {
            receiver_id: self.state.usn_contract.clone(),
            method: Method::GetPriceData { asset_ids: Some(assets) },
            static_gas: 5 * TGAS,
        };
        let callback = ScheduledCall {
            receiver_id: current_account_id,
            method: Method::QueryPriceCallback,
            static_gas: 5 * TGAS,
        };
        PriceQuery { oracle_call, callback }
    }

    /// The second phase of a price query, run on the account
    /// `current_account_id` at the call of `predecessor_account_id` once the
    /// oracle's call has resolved with `call_result`. Only the contract's own
    /// account may call it. A snapshot is handed back as it came; a failure
    /// is logged and fails the call.
    pub fn query_price_callback(
        &self,
        current_account_id: &AccountId,
        predecessor_account_id: &AccountId,
        call_result: Result<PriceData, PromiseError>,
    ) -> (out: CallbackOutcome)
        ensures
            predecessor_account_id@ != current_account_id@ ==> out.logs@.len() == 0 && out.result
                == Err::<PriceData, CallError>(CallError::PrivateMethod),
            predecessor_account_id@ == current_account_id@ ==> match call_result {
                Ok(snapshot) => out.logs@.len() == 0 && out.result == Ok::<PriceData, CallError>(
                    snapshot,
                ),
                Err(failure) => out.logs@.len() == 1 && out.logs@[0]@ == ORACLE_ERROR_LOG@
                    && out.result == Err::<PriceData, CallError>(CallError::PromiseFailed(failure)),
            },
            call_result is Err ==> out.result is Err,
    {
        let mut logs: Vec<String> = Vec::new();
        if current_account_id != predecessor_account_id {
            return CallbackOutcome { logs, result: Err(CallError::PrivateMethod) };
        }
        if call_result.is_err() {
            logs.push(String::from_str(ORACLE_ERROR_LOG));
        }
        match call_result {
            Ok(snapshot) => CallbackOutcome { logs, result: Ok(snapshot) },
            Err(failure) => CallbackOutcome { logs, result: Err(CallError::PromiseFailed(failure)) },
        }
    }
}

/// Whether the contract's record is in storage once a construction that met
/// `state_exists` has ended with `outcome`: what was there stays, and the host
/// stores the record of a construction that succeeded.
pub open spec fn state_exists_after(
    state_exists: bool,
    outcome: Result<PriceFetcher, CallError>,
) -> bool {
    state_exists || outcome is Ok
}

/// The contract is constructed once: after a construction that succeeded,
/// every further construction is refused as a conflict.
pub proof fn lemma_second_construction_is_refused(
    state_exists: bool,
    first: Result<PriceFetcher, CallError>,
    second: Result<PriceFetcher, CallError>,
)
    requires
        call_ensures(PriceFetcher::new, (state_exists,), first),
        first is Ok,
        call_ensures(PriceFetcher::new, (state_exists_after(state_exists, first),), second),
    ensures
        second == Err::<PriceFetcher, CallError>(CallError::AlreadyInitialized),
{
}

/// The two phases of a price query fit together: when the host runs the
/// continuation that `query_price` scheduled, on the account it names and at
/// the call of the account that scheduled it, the call is not refused as
/// private, a snapshot from the oracle is the call's result, and a failure of
/// the oracle fails the call after one log entry.
pub proof fn lemma_query_resolves_with_oracle_answer(
    fetcher: PriceFetcher,
    current_account_id: AccountId,
    query: PriceQuery,
    call_result: Result<PriceData, PromiseError>,
    out: CallbackOutcome,
)
    requires
        call_ensures(PriceFetcher::query_price, (&fetcher, current_account_id), query),
        call_ensures(
            PriceFetcher::query_price_callback,
            (&fetcher, &query.callback.receiver_id, &current_account_id, call_result),
            out,
        ),
    ensures
        call_result matches Ok(snapshot) ==> out.result == Ok::<PriceData, CallError>(snapshot)
            && out.logs@.len() == 0,
        call_result matches Err(failure) ==> out.result == Err::<PriceData, CallError>(
            CallError::PromiseFailed(failure),
        ) && out.logs@.len() == 1,
{
}

} // verus!
