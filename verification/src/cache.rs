//! A cache slot whose value is good for a limited time.
//!
//! Time is a count of seconds that the caller reads from a clock that never
//! runs backwards. A slot is written as a whole or not at all.

use vstd::prelude::*;

verus! {

/// A cached value and the second at which it was stored.
#[derive(Debug)]
pub struct CacheEntry<T> {
    pub value: T,
    pub stored_at: u64,
}

/// The seconds that have passed since `stored_at`; none where the clock
/// reads less than it did then.
pub open spec fn age(stored_at: u64, now: u64) -> int {
    if now >= stored_at {
        now - stored_at
    } else {
        0
    }
}

impl<T> CacheEntry<T> {
    /// Whether the entry may still be served: its age is within `ttl_secs`.
    pub open spec fn is_valid(self, ttl_secs: u64, now: u64) -> bool {
        age(self.stored_at, now) <= ttl_secs
    }

    /// Whether the entry may still be served at `now`.
    pub fn valid(&self, ttl_secs: u64, now: u64) -> (r: bool)
        ensures
            r == self.is_valid(ttl_secs, now),
    {
        if now >= self.stored_at {
            now - self.stored_at <= ttl_secs
        } else {
            true
        }
    }
}

/// A place for one cached value.
#[derive(Debug)]
pub struct CacheSlot<T> {
    pub entry: Option<CacheEntry<T>>,
}

impl<T> CacheSlot<T> {
    /// What the slot serves at `now`: its value where it holds one that is
    /// still valid.
    pub open spec fn lookup(self, ttl_secs: u64, now: u64) -> Option<T> {
        match self.entry {
            Some(e) => if e.is_valid(ttl_secs, now) {
                Some(e.value)
            } else {
                None
            },
            None => None,
        }
    }

    /// The slot that holds `value`, stored at `now`.
    pub open spec fn holding(value: T, now: u64) -> CacheSlot<T> {
        CacheSlot { entry: Some(CacheEntry { value, stored_at: now }) }
    }

    /// An empty slot.
    pub fn new() -> (r: CacheSlot<T>)
        ensures
            r.entry.is_none(),
    {
        CacheSlot { entry: None }
    }

    /// The cached value, where the slot holds one that is still valid.
    pub fn get(&self, ttl_secs: u64, now: u64) -> (r: Option<&T>)
        ensures
            match r {
                Some(v) => self.lookup(ttl_secs, now) == Some(*v),
                None => self.lookup(ttl_secs, now).is_none(),
            },
    {
        match &self.entry {
            Some(e) => if e.valid(ttl_secs, now) {
                Some(&e.value)
            } else {
                None
            },
            None => None,
        }
    }

    /// Replaces what the slot holds by `value`, stored at `now`.
    pub fn put(&mut self, value: T, now: u64)
        ensures
            *final(self) == Self::holding(value, now),
    {
        self.entry = Some(CacheEntry { value, stored_at: now });
    }
}

/// A value stored at `stored_at` is served at every later moment up to
/// `ttl_secs` seconds after.
pub proof fn lemma_served_within_ttl<T>(value: T, stored_at: u64, ttl_secs: u64, now: u64)
    requires
        stored_at <= now,
        now - stored_at <= ttl_secs,
    ensures
        CacheSlot::holding(value, stored_at).lookup(ttl_secs, now) == Some(value),
{
}

/// A value stored at `stored_at` is served no more once more than
/// `ttl_secs` seconds have passed.
pub proof fn lemma_expired_after_ttl<T>(value: T, stored_at: u64, ttl_secs: u64, now: u64)
    requires
        stored_at <= now,
        now - stored_at > ttl_secs,
    ensures
        CacheSlot::holding(value, stored_at).lookup(ttl_secs, now).is_none(),
{
}

} // verus!
