use vstd::prelude::*;

use crate::contract::{handle_step, lock_step, close_step, StoreView};
use crate::error::ContractError;
use crate::msg::HandleMsg;
use crate::state::{PoolStatus, PoolView, DAYS, LOCKED_DWELL_DAYS, OPEN_DWELL_DAYS};

verus! {

/// The status of the pool cell, `None` when it is empty.
pub open spec fn status_of(pool: Option<PoolView>) -> Option<PoolStatus> {
    match pool {
        Some(p) => Some(p.status),
        None => None,
    }
}

/// The legal moves of the pool cell: an empty or CLOSED cell gets a new OPEN
/// pool, OPEN goes to LOCKED, LOCKED goes to CLOSED.
pub open spec fn legal_transition(from: Option<PoolStatus>, to: Option<PoolStatus>) -> bool {
    ||| (from is None || from == Some(PoolStatus::CLOSED)) && to == Some(PoolStatus::OPEN)
    ||| from == Some(PoolStatus::OPEN) && to == Some(PoolStatus::LOCKED)
    ||| from == Some(PoolStatus::LOCKED) && to == Some(PoolStatus::CLOSED)
}

/// The reserved bookkeeping of the pool is untouched: nothing delegated, no
/// delegators.
pub open spec fn reserved_empty(s: StoreView) -> bool {
    s.pool is Some ==> s.pool->Some_0.delegated_amt == 0 && s.pool->Some_0.delegators.len() == 0
}

/// Across a successful request that keeps the same pool (one that was not
/// CLOSED, so not replaced by a new one), the time of the last status change
/// never decreases.
pub proof fn lemma_updated_at_non_decreasing(
    s: StoreView,
    sender: Seq<u8>,
    time: u64,
    msg: HandleMsg,
)
    requires
        handle_step(s, sender, time, msg) is Ok,
        s.pool is Some,
        s.pool->Some_0.status != PoolStatus::CLOSED,
    ensures
        handle_step(s, sender, time, msg)->Ok_0.pool is Some,
        s.pool->Some_0.status_updated_at <= handle_step(
            s,
            sender,
            time,
            msg,
        )->Ok_0.pool->Some_0.status_updated_at,
{
}

/// Only the owner succeeds in an administrative request, so only the owner
/// creates a pool or changes its status.
pub proof fn lemma_only_owner_succeeds(s: StoreView, sender: Seq<u8>, time: u64, msg: HandleMsg)
    requires
        handle_step(s, sender, time, msg) is Ok,
    ensures
        s.config is Some,
        s.config->Some_0.owner == sender,
{
}

/// Every successful request makes exactly one legal move of the pool's status
/// and keeps the administrative record.
pub proof fn lemma_no_skipped_state(s: StoreView, sender: Seq<u8>, time: u64, msg: HandleMsg)
    requires
        handle_step(s, sender, time, msg) is Ok,
    ensures
        legal_transition(status_of(s.pool), status_of(handle_step(s, sender, time, msg)->Ok_0.pool)),
        handle_step(s, sender, time, msg)->Ok_0.config == s.config,
{
}

/// Successful requests keep the pool's reserved bookkeeping empty.
pub proof fn lemma_reserved_stay_empty(s: StoreView, sender: Seq<u8>, time: u64, msg: HandleMsg)
    requires
        reserved_empty(s),
        handle_step(s, sender, time, msg) is Ok,
    ensures
        reserved_empty(handle_step(s, sender, time, msg)->Ok_0),
{
}

/// A sender other than the owner is refused as unauthorized for every kind of
/// request, whatever state the pool is in.
pub proof fn lemma_non_owner_unauthorized(
    s: StoreView,
    sender: Seq<u8>,
    time: u64,
    msg: HandleMsg,
)
    requires
        s.config is Some,
        s.config->Some_0.owner != sender,
    ensures
        handle_step(s, sender, time, msg) == Err::<StoreView, ContractError>(
            ContractError::Unauthorized,
        ),
{
}

/// Lock succeeds exactly one day after the pool opened and fails one second
/// before.
pub proof fn lemma_lock_boundary(s: StoreView, sender: Seq<u8>)
    requires
        s.config is Some,
        s.config->Some_0.owner == sender,
        s.pool is Some,
        s.pool->Some_0.status == PoolStatus::OPEN,
        s.pool->Some_0.status_updated_at + OPEN_DWELL_DAYS * DAYS <= u64::MAX,
    ensures
        lock_step(s, sender, (s.pool->Some_0.status_updated_at + OPEN_DWELL_DAYS * DAYS) as u64)
            is Ok,
        lock_step(s, sender, (s.pool->Some_0.status_updated_at + OPEN_DWELL_DAYS * DAYS - 1) as u64)
            == Err::<StoreView, ContractError>(ContractError::OpenDwell),
{
}

/// Close succeeds exactly twenty-one days after the pool was locked and fails
/// one second before.
pub proof fn lemma_close_boundary(s: StoreView, sender: Seq<u8>)
    requires
        s.config is Some,
        s.config->Some_0.owner == sender,
        s.pool is Some,
        s.pool->Some_0.status == PoolStatus::LOCKED,
        s.pool->Some_0.status_updated_at + LOCKED_DWELL_DAYS * DAYS <= u64::MAX,
    ensures
        close_step(s, sender, (s.pool->Some_0.status_updated_at + LOCKED_DWELL_DAYS * DAYS) as u64)
            is Ok,
        close_step(
            s,
            sender,
            (s.pool->Some_0.status_updated_at + LOCKED_DWELL_DAYS * DAYS - 1) as u64,
        ) == Err::<StoreView, ContractError>(ContractError::LockedDwell),
{
}

} // verus!
