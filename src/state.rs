use vstd::prelude::*;

use crate::error::ContractError;

verus! {

/// Seconds in one day.
pub const DAYS: u64 = 60 * 60 * 24;

/// Days a pool stays OPEN before it may be locked.
pub const OPEN_DWELL_DAYS: u64 = 1;

/// Days a pool stays LOCKED before it may be closed.
pub const LOCKED_DWELL_DAYS: u64 = 21;

/// An opaque canonical address, as produced by the host's address API.
/// Two principals are the same exactly when their bytes are the same.
#[derive(Debug)]
pub struct CanonicalAddr(pub Vec<u8>);

impl View for CanonicalAddr {
    type V = Seq<u8>;

    open spec fn view(&self) -> Seq<u8> {
        self.0@
    }
}

impl CanonicalAddr {
    /// Compares the bytes of two addresses.
    pub fn same_as(&self, other: &CanonicalAddr) -> (r: bool)
        ensures
            r == (self@ == other@),
    {
        if self.0.len() != other.0.len() {
            return false;
        }
        let mut i: usize = 0;
        while i < self.0.len()
            invariant
                self.0.len() == other.0.len(),
                i <= self.0.len(),
                forall|j: int| 0 <= j < i ==> self@[j] == other@[j],
            decreases self.0.len() - i,
        {
            if self.0[i] != other.0[i] {
                assert(self@[i as int] != other@[i as int]);
                return false;
            }
            i = i + 1;
        }
        assert(self@ =~= other@);
        true
    }

    /// A copy of this address.
    pub fn duplicate(&self) -> (r: CanonicalAddr)
        ensures
            r@ == self@,
    {
        let mut bytes: Vec<u8> = Vec::new();
        let mut i: usize = 0;
        while i < self.0.len()
            invariant
                i <= self.0.len(),
                bytes@ =~= self.0@.subrange(0, i as int),
            decreases self.0.len() - i,
        {
            bytes.push(self.0[i]);
            i = i + 1;
        }
        assert(bytes@ =~= self.0@);
        CanonicalAddr(bytes)
    }
}

impl PartialEq for CanonicalAddr {
    fn eq(&self, other: &CanonicalAddr) -> (r: bool) {
        self.same_as(other)
    }
}

impl vstd::std_specs::cmp::PartialEqSpecImpl for CanonicalAddr {
    open spec fn obeys_eq_spec() -> bool {
        true
    }

    open spec fn eq_spec(&self, other: &CanonicalAddr) -> bool {
        self@ == other@
    }
}

/// The views of a list of addresses.
pub open spec fn addrs_view(v: Seq<CanonicalAddr>) -> Seq<Seq<u8>> {
    v.map_values(|a: CanonicalAddr| a@)
}

/// Compares two lists of addresses element by element.
pub fn addrs_same(a: &Vec<CanonicalAddr>, b: &Vec<CanonicalAddr>) -> (r: bool)
    ensures
        r == (addrs_view(a@) == addrs_view(b@)),
{
    if a.len() != b.len() {
        assert(addrs_view(a@).len() != addrs_view(b@).len());
        return false;
    }
    let mut i: usize = 0;
    while i < a.len()
        invariant
            a.len() == b.len(),
            i <= a.len(),
            forall|j: int| 0 <= j < i ==> a@[j]@ == b@[j]@,
        decreases a.len() - i,
    {
        if !a[i].same_as(&b[i]) {
            assert(addrs_view(a@)[i as int] != addrs_view(b@)[i as int]);
            return false;
        }
        i = i + 1;
    }
    assert(addrs_view(a@) =~= addrs_view(b@));
    true
}

/// Copies a list of addresses.
pub fn addrs_duplicate(a: &Vec<CanonicalAddr>) -> (r: Vec<CanonicalAddr>)
    ensures
        addrs_view(r@) == addrs_view(a@),
{
    let mut out: Vec<CanonicalAddr> = Vec::new();
    let mut i: usize = 0;
    while i < a.len()
        invariant
            i <= a.len(),
            out.len() == i,
            forall|j: int| 0 <= j < i ==> out@[j]@ == a@[j]@,
        decreases a.len() - i,
    {
        out.push(a[i].duplicate());
        i = i + 1;
    }
    assert(addrs_view(out@) =~= addrs_view(a@));
    out
}

/// The administrative record: who may drive the pool.
#[derive(Debug)]
pub struct State {
    /// Kept for compatibility of the stored record; nothing reads it.
    pub count: i32,
    /// The only principal allowed to create, lock and close pools.
    pub owner: CanonicalAddr,
}

/// The value of a [`State`].
pub struct StateView {
    pub count: i32,
    pub owner: Seq<u8>,
}

impl View for State {
    type V = StateView;

    open spec fn view(&self) -> StateView {
        StateView { count: self.count, owner: self.owner@ }
    }
}

/// Lifecycle status of a pool.
#[derive(Clone, Copy, Debug, PartialEq, Eq, Structural)]
pub enum PoolStatus {
    /// The pool accepts delegators.
    OPEN,
    /// The pool's funds are staked and accrue rewards.
    LOCKED,
    /// The pool is finished and its rewards are available.
    CLOSED,
}

/// The seconds a pool must spend in a status before it may leave it by a
/// time-gated transition; CLOSED is not gated.
pub open spec fn dwell(status: PoolStatus) -> int {
    match status {
        PoolStatus::OPEN => OPEN_DWELL_DAYS * DAYS,
        PoolStatus::LOCKED => LOCKED_DWELL_DAYS * DAYS,
        PoolStatus::CLOSED => 0,
    }
}

/// The staking pool.
#[derive(Debug)]
pub struct Pool {
    /// Total amount delegated to the pool.
    pub delegated_amt: u128,
    /// Addresses of the delegators.
    pub delegators: Vec<CanonicalAddr>,
    pub status: PoolStatus,
    /// Time, in seconds, of the last change of `status`.
    pub status_updated_at: u64,
}

/// The value of a [`Pool`].
pub struct PoolView {
    pub delegated_amt: u128,
    pub delegators: Seq<Seq<u8>>,
    pub status: PoolStatus,
    pub status_updated_at: u64,
}

impl View for Pool {
    type V = PoolView;

    open spec fn view(&self) -> PoolView {
        PoolView {
            delegated_amt: self.delegated_amt,
            delegators: addrs_view(self.delegators@),
            status: self.status,
            status_updated_at: self.status_updated_at,
        }
    }
}

impl PoolView {
    /// A pool just opened at `time`: no funds and no delegators yet.
    pub open spec fn fresh(time: u64) -> PoolView {
        PoolView {
            delegated_amt: 0,
            delegators: Seq::empty(),
            status: PoolStatus::OPEN,
            status_updated_at: time,
        }
    }

    /// The same pool moved to `status` at `time`.
    pub open spec fn moved_to(self, status: PoolStatus, time: u64) -> PoolView {
        PoolView { status, status_updated_at: time, ..self }
    }

    /// The pool has spent its dwell time in its current status at `time`.
    pub open spec fn dwell_elapsed(self, time: u64) -> bool {
        self.status_updated_at + dwell(self.status) <= time
    }

    /// What the dwell check answers for this pool at `time`.
    pub open spec fn readiness(self, time: u64) -> Result<(), ContractError> {
        match self.status {
            PoolStatus::OPEN => if self.dwell_elapsed(time) {
                Ok(())
            } else {
                Err(ContractError::OpenDwell)
            },
            PoolStatus::LOCKED => if self.dwell_elapsed(time) {
                Ok(())
            } else {
                Err(ContractError::LockedDwell)
            },
            PoolStatus::CLOSED => Ok(()),
        }
    }
}

impl Pool {
    /// A pool opened at `time`.
    pub fn new(time: u64) -> (r: Pool)
        ensures
            r@ == PoolView::fresh(time),
    {
        let r = Pool {
            delegated_amt: 0,
            delegators: Vec::new(),
            status: PoolStatus::OPEN,
            status_updated_at: time,
        };
        assert(r@.delegators =~= Seq::<Seq<u8>>::empty());
        r
    }

    pub fn is_open(&self) -> (r: bool)
        ensures
            r == (self.status == PoolStatus::OPEN),
    {
        self.status == PoolStatus::OPEN
    }

    pub fn is_locked(&self) -> (r: bool)
        ensures
            r == (self.status == PoolStatus::LOCKED),
    {
        self.status == PoolStatus::LOCKED
    }

    pub fn is_closed(&self) -> (r: bool)
        ensures
            r == (self.status == PoolStatus::CLOSED),
    {
        self.status == PoolStatus::CLOSED
    }

    /// Marks the pool LOCKED as of `time`.
    pub fn lock(&mut self, time: u64)
        ensures
            final(self)@ == old(self)@.moved_to(PoolStatus::LOCKED, time),
    {
        self.status = PoolStatus::LOCKED;
        self.status_updated_at = time;
    }

    /// Marks the pool CLOSED as of `time`.
    pub fn close(&mut self, time: u64)
        ensures
            final(self)@ == old(self)@.moved_to(PoolStatus::CLOSED, time),
    {
        self.status = PoolStatus::CLOSED;
        self.status_updated_at = time;
    }

    /// Fails when the pool has not yet spent its dwell time in its current
    /// status at `curr_time`: one day when OPEN, twenty-one days when LOCKED.
    /// The transition becomes legal exactly when the dwell time is reached.
    pub fn assert_ready_for_status_change(&self, curr_time: u64) -> (r: Result<(), ContractError>)
        ensures
            r == self@.readiness(curr_time),
    {
        match self.status {
            PoolStatus::OPEN => {
                if self.status_updated_at as u128 + (OPEN_DWELL_DAYS * DAYS) as u128
                    > curr_time as u128 {
                    return Err(ContractError::OpenDwell);
                }
            },
            PoolStatus::LOCKED => {
                if self.status_updated_at as u128 + (LOCKED_DWELL_DAYS * DAYS) as u128
                    > curr_time as u128 {
                    return Err(ContractError::LockedDwell);
                }
            },
            PoolStatus::CLOSED => {},
        }
        Ok(())
    }

    /// A copy of this pool.
    pub fn duplicate(&self) -> (r: Pool)
        ensures
            r@ == self@,
    {
        Pool {
            delegated_amt: self.delegated_amt,
            delegators: addrs_duplicate(&self.delegators),
            status: self.status,
            status_updated_at: self.status_updated_at,
        }
    }
}

impl PartialEq for Pool {
    fn eq(&self, other: &Pool) -> (r: bool) {
        self.delegated_amt == other.delegated_amt && self.status == other.status
            && self.status_updated_at == other.status_updated_at && addrs_same(
            &self.delegators,
            &other.delegators,
        )
    }
}

impl vstd::std_specs::cmp::PartialEqSpecImpl for Pool {
    open spec fn obeys_eq_spec() -> bool {
        true
    }

    open spec fn eq_spec(&self, other: &Pool) -> bool {
        self@ == other@
    }
}

} // verus!
