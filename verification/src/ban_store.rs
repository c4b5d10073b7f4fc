//! The ban store: for each address that is locked out, the time at which the
//! lockout ends.
//!
//! Times are readings of one clock, in whole seconds. The store never reads a
//! clock itself: every operation is told the time.

use vstd::hash_map::StringHashMap;
use vstd::prelude::*;
use vstd::string::StringExecFns;

verus! {

/// Whether a lockout that ends at `expires_at` is in force at `now`.
pub open spec fn in_force(expires_at: u64, now: u64) -> bool {
    now < expires_at
}

/// Whether `bans` holds a lockout of `address` that is in force at `now`.
pub open spec fn is_active(bans: Map<Seq<char>, u64>, address: Seq<char>, now: u64) -> bool {
    bans.contains_key(address) && in_force(bans[address], now)
}

/// `bans` after a query for `address` at `now`: a lockout of `address` that is
/// over has left, and nothing else has changed.
pub open spec fn after_query(bans: Map<Seq<char>, u64>, address: Seq<char>, now: u64) -> Map<
    Seq<char>,
    u64,
> {
    if is_active(bans, address, now) {
        bans
    } else {
        bans.remove(address)
    }
}

/// The lockout of one address.
#[derive(Debug, PartialEq, Eq)]
pub struct BanRecord {
    /// The address that is locked out.
    pub address: String,
    /// The time at which the lockout ends.
    pub expires_at: u64,
}

/// A ban record as plain values.
pub struct BanRecordView {
    pub address: Seq<char>,
    pub expires_at: u64,
}

impl View for BanRecord {
    type V = BanRecordView;

    open spec fn view(&self) -> BanRecordView {
        BanRecordView { address: self.address@, expires_at: self.expires_at }
    }
}

impl BanRecord {
    /// Whether the lockout is in force at `now`.
    pub fn is_active(&self, now: u64) -> (active: bool)
        ensures
            active == in_force(self.expires_at, now),
    {
        now < self.expires_at
    }
}

/// The record that `bans` holds for `address`, if it holds one.
pub open spec fn record_of(bans: Map<Seq<char>, u64>, address: Seq<char>) -> Option<BanRecordView> {
    if bans.contains_key(address) {
        Some(BanRecordView { address, expires_at: bans[address] })
    } else {
        None
    }
}

/// The lockouts, at most one for an address.
pub struct BanStore {
    expiries: StringHashMap<u64>,
}

impl View for BanStore {
    type V = Map<Seq<char>, u64>;

    closed spec fn view(&self) -> Map<Seq<char>, u64> {
        self.expiries@
    }
}

impl BanStore {
    /// A store without lockouts.
    pub fn new() -> (store: BanStore)
        ensures
            store@ == Map::<Seq<char>, u64>::empty(),
    {
        BanStore { expiries: StringHashMap::new() }
    }

    /// The number of addresses that the store holds a lockout for.
    pub fn len(&self) -> (n: usize)
        ensures
            n == self@.len(),
    {
        self.expiries.len()
    }

    /// When the lockout of `address` ends, if the store holds one.
    pub fn expires_at(&self, address: &str) -> (expiry: Option<u64>)
        ensures
            expiry == (if self@.contains_key(address@) {
                Some(self@[address@])
            } else {
                None
            }),
    {
        match self.expiries.get(address) {
            Some(expiry) => Some(*expiry),
            None => None,
        }
    }

    /// The record of `address`, if the store holds one.
    pub fn record(&self, address: &str) -> (found: Option<BanRecord>)
        ensures
            (match found {
                Some(record) => record_of(self@, address@) == Some(record@),
                None => record_of(self@, address@) is None,
            }),
    {
        match self.expires_at(address) {
            Some(expires_at) => Some(BanRecord { address: String::from_str(address), expires_at }),
            None => None,
        }
    }

    /// Whether `address` is locked out at `now`. A lockout of `address` that is
    /// over is removed on the way.
    pub fn query(&mut self, address: &str, now: u64) -> (active: bool)
        ensures
            active == is_active(old(self)@, address@, now),
            final(self)@ == after_query(old(self)@, address@, now),
    {
        match self.expires_at(address) {
            Some(expires_at) => {
                if now < expires_at {
                    true
                } else {
                    self.expiries.remove(address);
                    false
                }
            },
            None => {
                assert(self@.remove(address@) == self@);
                false
            },
        }
    }

    /// Enters `record`, in place of whatever the store held for its address.
    pub fn upsert(&mut self, record: BanRecord)
        ensures
            final(self)@ == old(self)@.insert(record@.address, record@.expires_at),
    {
        self.expiries.insert(record.address, record.expires_at);
    }
}

} // verus!
