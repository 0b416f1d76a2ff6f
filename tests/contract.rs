use staking_pool::contract::{
    admin_close_pool, admin_create_pool, admin_lock_pool, handle, init, query, query_owner,
    query_pool, Store,
};
use staking_pool::error::ContractError;
use staking_pool::msg::{HandleMsg, QueryAnswer, QueryMsg};
use staking_pool::state::{CanonicalAddr, Pool, PoolStatus, DAYS};

fn addr(name: &str) -> CanonicalAddr {
    CanonicalAddr(name.as_bytes().to_vec())
}

fn initialized() -> Store {
    let mut deps = Store::new();
    init(&mut deps, addr("creator"));
    deps
}

fn current_pool(deps: &Store) -> Option<Pool> {
    match query(deps, QueryMsg::GetCurrentPool {}).unwrap() {
        QueryAnswer::CurrentPool(pool) => pool,
        QueryAnswer::Owner(_) => panic!("wrong answer"),
    }
}

fn pool_at(status: PoolStatus, time: u64) -> Pool {
    Pool { delegated_amt: 0, delegators: vec![], status, status_updated_at: time }
}

#[test]
fn proper_initialization() {
    let mut deps = Store::new();
    init(&mut deps, addr("creator"));

    let res = query(&deps, QueryMsg::GetOwner {}).unwrap();
    match res {
        QueryAnswer::Owner(owner) => assert_eq!(addr("creator"), owner),
        QueryAnswer::CurrentPool(_) => panic!("wrong answer"),
    }
}

#[test]
fn test_create_pool_admin() {
    let mut deps = initialized();
    handle(&mut deps, &addr("creator"), 1000, HandleMsg::CrtePool {}).unwrap();

    let pool = current_pool(&deps);
    assert_eq!(pool, Some(Pool::new(1000)));
}

#[test]
fn test_create_pool_errors() {
    let mut deps = initialized();
    let res = handle(&mut deps, &addr("voter"), 0, HandleMsg::CrtePool {});

    assert_eq!(res.is_err(), true);
    assert_eq!(res.unwrap_err(), ContractError::Unauthorized);
}

#[test]
fn test_lock_pool() {
    let mut deps = initialized();
    handle(&mut deps, &addr("creator"), 1000, HandleMsg::CrtePool {}).unwrap();
    handle(&mut deps, &addr("creator"), DAYS * 21 + 1001, HandleMsg::LockPool {}).unwrap();

    let pool = current_pool(&deps);
    assert_eq!(pool.unwrap().is_locked(), true);
}

#[test]
fn full_lifecycle() {
    let mut deps = Store::new();
    init(&mut deps, addr("creator"));
    let owner = addr("creator");

    handle(&mut deps, &owner, 1000, HandleMsg::CrtePool {}).unwrap();
    assert_eq!(current_pool(&deps), Some(pool_at(PoolStatus::OPEN, 1000)));

    handle(&mut deps, &owner, 1000 + 86400, HandleMsg::LockPool {}).unwrap();
    assert_eq!(current_pool(&deps), Some(pool_at(PoolStatus::LOCKED, 87400)));

    handle(&mut deps, &owner, 87400 + 21 * 86400, HandleMsg::ClsePool {}).unwrap();
    assert_eq!(current_pool(&deps), Some(pool_at(PoolStatus::CLOSED, 1901800)));

    handle(&mut deps, &owner, 1901801, HandleMsg::CrtePool {}).unwrap();
    assert_eq!(current_pool(&deps), Some(pool_at(PoolStatus::OPEN, 1901801)));
}

#[test]
fn non_owner_rejected_leaves_storage() {
    let mut deps = initialized();
    let res = handle(&mut deps, &addr("voter"), 1000, HandleMsg::CrtePool {});
    assert_eq!(res, Err(ContractError::Unauthorized));
    assert_eq!(current_pool(&deps), None);
    assert_eq!(query_owner(&deps).unwrap(), addr("creator"));
}

#[test]
fn double_create_blocked() {
    let mut deps = initialized();
    handle(&mut deps, &addr("creator"), 1000, HandleMsg::CrtePool {}).unwrap();
    let res = handle(&mut deps, &addr("creator"), 2000, HandleMsg::CrtePool {});
    assert_eq!(res, Err(ContractError::CannotCreate));
    assert_eq!(res.unwrap_err().message(), "Cannot create");
    assert_eq!(current_pool(&deps), Some(pool_at(PoolStatus::OPEN, 1000)));
}

#[test]
fn premature_lock() {
    let mut deps = initialized();
    handle(&mut deps, &addr("creator"), 1000, HandleMsg::CrtePool {}).unwrap();
    let res = handle(&mut deps, &addr("creator"), 1000 + 86399, HandleMsg::LockPool {});
    assert_eq!(res, Err(ContractError::OpenDwell));
    assert_eq!(res.unwrap_err().message(), "Pool has to be OPEN for 1 day");
    assert_eq!(current_pool(&deps), Some(pool_at(PoolStatus::OPEN, 1000)));
}

#[test]
fn premature_close() {
    let mut deps = initialized();
    handle(&mut deps, &addr("creator"), 0, HandleMsg::CrtePool {}).unwrap();
    handle(&mut deps, &addr("creator"), 86400, HandleMsg::LockPool {}).unwrap();
    let res = handle(&mut deps, &addr("creator"), 86400 + 21 * 86400 - 1, HandleMsg::ClsePool {});
    assert_eq!(res, Err(ContractError::LockedDwell));
    assert_eq!(res.unwrap_err().message(), "Pool has to be LOCKED for 21 day");
    assert_eq!(current_pool(&deps), Some(pool_at(PoolStatus::LOCKED, 86400)));
}

#[test]
fn close_on_wrong_state() {
    let mut deps = initialized();
    handle(&mut deps, &addr("creator"), 0, HandleMsg::CrtePool {}).unwrap();
    let res = handle(&mut deps, &addr("creator"), 0, HandleMsg::ClsePool {});
    assert_eq!(res, Err(ContractError::NotLocked));
    assert_eq!(res.unwrap_err().message(), "Pool is not LOCKED.");
    assert_eq!(current_pool(&deps), Some(pool_at(PoolStatus::OPEN, 0)));
}

#[test]
fn lock_at_exact_boundary() {
    let mut deps = initialized();
    handle(&mut deps, &addr("creator"), 500, HandleMsg::CrtePool {}).unwrap();
    assert_eq!(admin_lock_pool(&mut deps, &addr("creator"), 500 + 86399), Err(ContractError::OpenDwell));
    assert_eq!(admin_lock_pool(&mut deps, &addr("creator"), 500 + 86400), Ok(()));
    assert_eq!(current_pool(&deps), Some(pool_at(PoolStatus::LOCKED, 86900)));
}

#[test]
fn close_at_exact_boundary() {
    let mut deps = initialized();
    admin_create_pool(&mut deps, &addr("creator"), 7).unwrap();
    admin_lock_pool(&mut deps, &addr("creator"), 86407).unwrap();
    assert_eq!(
        admin_close_pool(&mut deps, &addr("creator"), 86407 + 1814400 - 1),
        Err(ContractError::LockedDwell)
    );
    assert_eq!(admin_close_pool(&mut deps, &addr("creator"), 86407 + 1814400), Ok(()));
    assert_eq!(current_pool(&deps), Some(pool_at(PoolStatus::CLOSED, 1900807)));
}

#[test]
fn query_before_create_is_none() {
    let deps = initialized();
    assert_eq!(query_pool(&deps), None);
    assert!(matches!(
        query(&deps, QueryMsg::GetCurrentPool {}),
        Ok(QueryAnswer::CurrentPool(None))
    ));
}

#[test]
fn non_owner_unauthorized_for_every_kind() {
    let mut deps = initialized();
    let voter = addr("voter");
    for msg in [HandleMsg::CrtePool {}, HandleMsg::LockPool {}, HandleMsg::ClsePool {}] {
        assert_eq!(handle(&mut deps, &voter, 5_000_000, msg), Err(ContractError::Unauthorized));
    }
    handle(&mut deps, &addr("creator"), 0, HandleMsg::CrtePool {}).unwrap();
    // Lock would fail on dwell and Create on state: authorization comes first.
    for msg in [HandleMsg::CrtePool {}, HandleMsg::LockPool {}, HandleMsg::ClsePool {}] {
        let res = handle(&mut deps, &voter, 1, msg);
        assert_eq!(res, Err(ContractError::Unauthorized));
        assert!(res.unwrap_err().is_unauthorized());
    }
    assert_eq!(current_pool(&deps), Some(pool_at(PoolStatus::OPEN, 0)));
}

#[test]
fn lock_absent_or_wrong_state() {
    let mut deps = initialized();
    let owner = addr("creator");
    let res = handle(&mut deps, &owner, 100, HandleMsg::LockPool {});
    assert_eq!(res, Err(ContractError::NotOpen));
    assert_eq!(res.unwrap_err().message(), "Pool must be in OPEN status to be locked.");
    assert_eq!(handle(&mut deps, &owner, 100, HandleMsg::ClsePool {}), Err(ContractError::NotLocked));
    handle(&mut deps, &owner, 0, HandleMsg::CrtePool {}).unwrap();
    handle(&mut deps, &owner, DAYS, HandleMsg::LockPool {}).unwrap();
    assert_eq!(handle(&mut deps, &owner, 3 * DAYS, HandleMsg::LockPool {}), Err(ContractError::NotOpen));
    assert_eq!(handle(&mut deps, &owner, 3 * DAYS, HandleMsg::CrtePool {}), Err(ContractError::CannotCreate));
    assert_eq!(current_pool(&deps), Some(pool_at(PoolStatus::LOCKED, DAYS)));
}

#[test]
fn uninitialized_contract_reports_missing_config() {
    let mut deps = Store::new();
    let res = handle(&mut deps, &addr("creator"), 0, HandleMsg::CrtePool {});
    assert_eq!(res, Err(ContractError::ConfigNotFound));
    assert_eq!(res.unwrap_err().message(), "State not found");
    assert!(query_owner(&deps).is_err());
    assert_eq!(ContractError::Unauthorized.message(), "Unauthorized");
}

#[test]
fn reinit_replaces_owner_and_keeps_pool() {
    let mut deps = initialized();
    handle(&mut deps, &addr("creator"), 10, HandleMsg::CrtePool {}).unwrap();
    init(&mut deps, addr("other"));
    assert_eq!(query_owner(&deps).unwrap(), addr("other"));
    assert_eq!(current_pool(&deps), Some(pool_at(PoolStatus::OPEN, 10)));
    assert_eq!(
        handle(&mut deps, &addr("creator"), 10 + DAYS, HandleMsg::LockPool {}),
        Err(ContractError::Unauthorized)
    );
}

#[test]
fn updated_at_never_decreases_and_reserved_stay_empty() {
    let mut deps = initialized();
    let owner = addr("creator");
    let mut last = 0u64;
    let times = [40u64, 40 + DAYS, 40 + DAYS + 21 * DAYS];
    let msgs = [HandleMsg::CrtePool {}, HandleMsg::LockPool {}, HandleMsg::ClsePool {}];
    for (time, msg) in times.iter().zip(msgs.iter()) {
        handle(&mut deps, &owner, *time, *msg).unwrap();
        let pool = current_pool(&deps).unwrap();
        assert!(pool.status_updated_at >= last);
        assert_eq!(pool.delegated_amt, 0);
        assert!(pool.delegators.is_empty());
        last = pool.status_updated_at;
    }
}

#[test]
fn dwell_check_on_pool() {
    let open = pool_at(PoolStatus::OPEN, 100);
    assert_eq!(open.assert_ready_for_status_change(100 + DAYS - 1), Err(ContractError::OpenDwell));
    assert_eq!(open.assert_ready_for_status_change(100 + DAYS), Ok(()));
    let locked = pool_at(PoolStatus::LOCKED, u64::MAX - 5);
    assert_eq!(locked.assert_ready_for_status_change(u64::MAX), Err(ContractError::LockedDwell));
    let closed = pool_at(PoolStatus::CLOSED, 100);
    assert_eq!(closed.assert_ready_for_status_change(0), Ok(()));
    let mut p = Pool::new(3);
    assert!(p.is_open() && !p.is_locked() && !p.is_closed());
    p.lock(9);
    assert_eq!(p, pool_at(PoolStatus::LOCKED, 9));
    p.close(11);
    assert!(p.is_closed());
    assert_eq!(p.status_updated_at, 11);
}

#[test]
fn pool_equality_and_copy_include_delegators() {
    let mut a = pool_at(PoolStatus::OPEN, 1);
    a.delegators.push(addr("alice"));
    let b = a.duplicate();
    assert_eq!(a, b);
    assert_eq!(b.delegators[0], addr("alice"));
    let mut c = pool_at(PoolStatus::OPEN, 1);
    c.delegators.push(addr("alicf"));
    assert_ne!(a, c);
    assert_ne!(addr("ab"), addr("abc"));
}
