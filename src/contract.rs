use vstd::prelude::*;

use crate::error::ContractError;
use crate::msg::{HandleMsg, QueryAnswer, QueryMsg};
use crate::state::{CanonicalAddr, Pool, PoolStatus, PoolView, State, StateView};

verus! {

/// The contract's persistent cells: the administrative record and the pool.
/// Each is absent until first written.
#[derive(Debug)]
pub struct Store {
    pub config: Option<State>,
    pub pool: Option<Pool>,
}

/// The value of a [`Store`].
pub struct StoreView {
    pub config: Option<StateView>,
    pub pool: Option<PoolView>,
}

/// The value of an optional pool.
pub open spec fn pool_opt_view(p: Option<Pool>) -> Option<PoolView> {
    match p {
        Some(q) => Some(q@),
        None => None,
    }
}

impl View for Store {
    type V = StoreView;

    open spec fn view(&self) -> StoreView {
        StoreView {
            config: match self.config {
                Some(c) => Some(c@),
                None => None,
            },
            pool: pool_opt_view(self.pool),
        }
    }
}

impl Store {
    /// Storage before initialization: both cells empty.
    pub fn new() -> (r: Store)
        ensures
            r@.config is None,
            r@.pool is None,
    {
        Store { config: None, pool: None }
    }
}

/// Whether `sender` may drive the pool: the record exists and names it owner.
pub open spec fn admin_check(s: StoreView, sender: Seq<u8>) -> Result<(), ContractError> {
    match s.config {
        None => Err(ContractError::ConfigNotFound),
        Some(c) => if c.owner == sender {
            Ok(())
        } else {
            Err(ContractError::Unauthorized)
        },
    }
}

/// Create: allowed when no pool exists or the pool is CLOSED; the new pool
/// replaces the old one.
pub open spec fn create_step(s: StoreView, sender: Seq<u8>, time: u64) -> Result<
    StoreView,
    ContractError,
> {
    match admin_check(s, sender) {
        Err(e) => Err(e),
        Ok(_) => if s.pool is Some && s.pool->Some_0.status != PoolStatus::CLOSED {
            Err(ContractError::CannotCreate)
        } else {
            Ok(StoreView { pool: Some(PoolView::fresh(time)), ..s })
        },
    }
}

/// Lock: allowed on an OPEN pool that has been OPEN for its dwell time.
pub open spec fn lock_step(s: StoreView, sender: Seq<u8>, time: u64) -> Result<
    StoreView,
    ContractError,
> {
    match admin_check(s, sender) {
        Err(e) => Err(e),
        Ok(_) => if s.pool is None || s.pool->Some_0.status != PoolStatus::OPEN {
            Err(ContractError::NotOpen)
        } else {
            match s.pool->Some_0.readiness(time) {
                Err(e) => Err(e),
                Ok(_) => Ok(
                    StoreView {
                        pool: Some(s.pool->Some_0.moved_to(PoolStatus::LOCKED, time)),
                        ..s
                    },
                ),
            }
        },
    }
}

/// Close: allowed on a LOCKED pool that has been LOCKED for its dwell time.
pub open spec fn close_step(s: StoreView, sender: Seq<u8>, time: u64) -> Result<
    StoreView,
    ContractError,
> {
    match admin_check(s, sender) {
        Err(e) => Err(e),
        Ok(_) => if s.pool is None || s.pool->Some_0.status != PoolStatus::LOCKED {
            Err(ContractError::NotLocked)
        } else {
            match s.pool->Some_0.readiness(time) {
                Err(e) => Err(e),
                Ok(_) => Ok(
                    StoreView {
                        pool: Some(s.pool->Some_0.moved_to(PoolStatus::CLOSED, time)),
                        ..s
                    },
                ),
            }
        },
    }
}

/// The outcome of an administrative request: the next storage, or the error.
pub open spec fn handle_step(s: StoreView, sender: Seq<u8>, time: u64, msg: HandleMsg) -> Result<
    StoreView,
    ContractError,
> {
    match msg {
        HandleMsg::CrtePool {  } => create_step(s, sender, time),
        HandleMsg::LockPool {  } => lock_step(s, sender, time),
        HandleMsg::ClsePool {  } => close_step(s, sender, time),
    }
}

/// A call's result and the storage it leaves agree with `step`: on success the
/// storage is the step's next value, on failure it is untouched.
pub open spec fn follows(
    step: Result<StoreView, ContractError>,
    r: Result<(), ContractError>,
    before: Store,
    after: Store,
) -> bool {
    match step {
        Ok(next) => r is Ok && after@ == next,
        Err(e) => r == Err::<(), ContractError>(e) && after == before,
    }
}

/// Records `sender` as the owner. Calling it again replaces the owner; the
/// pool cell is left as it is.
pub fn init(store: &mut Store, sender: CanonicalAddr)
    ensures
        final(store)@ == (StoreView {
            config: Some(StateView { count: 0, owner: sender@ }),
            pool: old(store)@.pool,
        }),
{
    let state = State { count: 0, owner: sender };
    store.config = Some(state);
}

/// Runs one administrative request for `sender` at block time `time`.
/// The sender is checked against the owner before anything else.
pub fn handle(store: &mut Store, sender: &CanonicalAddr, time: u64, msg: HandleMsg) -> (r: Result<
    (),
    ContractError,
>)
    ensures
        follows(handle_step(old(store)@, sender@, time, msg), r, *old(store), *final(store)),
{
    match msg {
        HandleMsg::CrtePool {  } => admin_create_pool(store, sender, time),
        HandleMsg::LockPool {  } => admin_lock_pool(store, sender, time),
        HandleMsg::ClsePool {  } => admin_close_pool(store, sender, time),
    }
}

fn assert_sender_is_admin(sender: &CanonicalAddr, owner: &CanonicalAddr) -> (r: Result<
    (),
    ContractError,
>)
    ensures
        r == (if sender@ == owner@ {
            Ok(())
        } else {
            Err(ContractError::Unauthorized)
        }),
{
    if !owner.same_as(sender) {
        return Err(ContractError::Unauthorized);
    }
    Ok(())
}

fn check_admin(store: &Store, sender: &CanonicalAddr) -> (r: Result<(), ContractError>)
    ensures
        r == admin_check(store@, sender@),
{
    match &store.config {
        None => Err(ContractError::ConfigNotFound),
        Some(state) => assert_sender_is_admin(sender, &state.owner),
    }
}

/// Opens a new pool at `time`, replacing a CLOSED one.
pub fn admin_create_pool(store: &mut Store, sender: &CanonicalAddr, time: u64) -> (r: Result<
    (),
    ContractError,
>)
    ensures
        follows(create_step(old(store)@, sender@, time), r, *old(store), *final(store)),
{
    match check_admin(store, sender) {
        Err(e) => return Err(e),
        Ok(()) => {},
    }
    let can_create = match &store.pool {
        None => true,
        Some(pool) => pool.is_closed(),
    };
    if !can_create {
        return Err(ContractError::CannotCreate);
    }
    store.pool = Some(Pool::new(time));
    Ok(())
}

/// Locks the OPEN pool once it has been OPEN for one day.
pub fn admin_lock_pool(store: &mut Store, sender: &CanonicalAddr, time: u64) -> (r: Result<
    (),
    ContractError,
>)
    ensures
        follows(lock_step(old(store)@, sender@, time), r, *old(store), *final(store)),
{
    match check_admin(store, sender) {
        Err(e) => return Err(e),
        Ok(()) => {},
    }
    let ready = match &store.pool {
        None => Err(ContractError::NotOpen),
        Some(pool) => if !pool.is_open() {
            Err(ContractError::NotOpen)
        } else {
            pool.assert_ready_for_status_change(time)
        },
    };
    match ready {
        Err(e) => return Err(e),
        Ok(()) => {},
    }
    let taken = store.pool.take();
    match taken {
        Some(p) => {
            let mut pool = p;
            pool.lock(time);
            store.pool = Some(pool);
        },
        None => {},
    }
    Ok(())
}

/// Closes the LOCKED pool once it has been LOCKED for twenty-one days.
pub fn admin_close_pool(store: &mut Store, sender: &CanonicalAddr, time: u64) -> (r: Result<
    (),
    ContractError,
>)
    ensures
        follows(close_step(old(store)@, sender@, time), r, *old(store), *final(store)),
{
    match check_admin(store, sender) {
        Err(e) => return Err(e),
        Ok(()) => {},
    }
    let ready = match &store.pool {
        None => Err(ContractError::NotLocked),
        Some(pool) => if !pool.is_locked() {
            Err(ContractError::NotLocked)
        } else {
            pool.assert_ready_for_status_change(time)
        },
    };
    match ready {
        Err(e) => return Err(e),
        Ok(()) => {},
    }
    let taken = store.pool.take();
    match taken {
        Some(p) => {
            let mut pool = p;
            pool.close(time);
            store.pool = Some(pool);
        },
        None => {},
    }
    Ok(())
}

/// The owner, in canonical form.
pub fn query_owner(store: &Store) -> (r: Result<CanonicalAddr, ContractError>)
    ensures
        match store@.config {
            None => r == Err::<CanonicalAddr, ContractError>(ContractError::ConfigNotFound),
            Some(c) => r is Ok && r->Ok_0@ == c.owner,
        },
{
    match &store.config {
        None => Err(ContractError::ConfigNotFound),
        Some(state) => Ok(state.owner.duplicate()),
    }
}

/// A snapshot of the pool; `None` when no pool was ever created.
pub fn query_pool(store: &Store) -> (r: Option<Pool>)
    ensures
        pool_opt_view(r) == store@.pool,
{
    match &store.pool {
        None => None,
        Some(pool) => Some(pool.duplicate()),
    }
}

/// Answers a read-only request. Storage is not changed and no sender is checked.
pub fn query(store: &Store, msg: QueryMsg) -> (r: Result<QueryAnswer, ContractError>)
    ensures
        match msg {
            QueryMsg::GetOwner {  } => match store@.config {
                None => r == Err::<QueryAnswer, ContractError>(ContractError::ConfigNotFound),
                Some(c) => r matches Ok(QueryAnswer::Owner(o)) && o@ == c.owner,
            },
            QueryMsg::GetCurrentPool {  } => r matches Ok(QueryAnswer::CurrentPool(p))
                && pool_opt_view(p) == store@.pool,
        },
{
    match msg {
        QueryMsg::GetOwner {  } => match query_owner(store) {
            Ok(owner) => Ok(QueryAnswer::Owner(owner)),
            Err(e) => Err(e),
        },
        QueryMsg::GetCurrentPool {  } => Ok(QueryAnswer::CurrentPool(query_pool(store))),
    }
}

} // verus!
