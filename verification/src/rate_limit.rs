//! Per-key cooldowns: a key may be used again only after its window has passed.

use vstd::prelude::*;
use crate::errors::IcpiError;
use crate::strings::text;

verus! {

/// Time elapsed from `last` to `now`; zero where the clock has not advanced.
pub open spec fn elapsed(last: u64, now: u64) -> int {
    if now >= last {
        now - last
    } else {
        0
    }
}

/// The table of last uses, one entry per key.
#[derive(Debug)]
pub struct RateLimiter {
    entries: Vec<(String, u64)>,
}

impl RateLimiter {
    /// When `key` was last used, if ever.
    pub closed spec fn last_seen(&self, key: Seq<char>) -> Option<u64> {
        if exists|i: int| 0 <= i < self.entries@.len() && self.entries@[i].0@ == key {
            let i = choose|i: int| 0 <= i < self.entries@.len() && self.entries@[i].0@ == key;
            Some(self.entries@[i].1)
        } else {
            None
        }
    }

    /// Each key has one entry.
    pub closed spec fn wf(&self) -> bool {
        forall|i: int, j: int|
            0 <= i < self.entries@.len() && 0 <= j < self.entries@.len() && i != j
                ==> self.entries@[i].0@ != self.entries@[j].0@
    }

    /// Whether a use of `key` at `now` falls within `window_ns` of its last use.
    pub open spec fn limited(&self, key: Seq<char>, window_ns: u64, now: u64) -> bool {
        self.last_seen(key) matches Some(last) && elapsed(last, now) < window_ns
    }

    /// An empty table.
    pub fn new() -> (r: RateLimiter)
        ensures
            r.wf(),
            forall|k: Seq<char>| r.last_seen(k).is_none(),
    {
        RateLimiter { entries: Vec::new() }
    }

    fn find(&self, key: &String) -> (r: Option<usize>)
        requires
            self.wf(),
        ensures
            r matches Some(i) ==> i < self.entries@.len() && self.entries@[i as int].0@ == key@
                && self.last_seen(key@) == Some(self.entries@[i as int].1),
            r.is_none() ==> self.last_seen(key@).is_none(),
    {
        let mut i: usize = 0;
        while i < self.entries.len()
            invariant
                self.wf(),
                i <= self.entries@.len(),
                forall|j: int| 0 <= j < i ==> self.entries@[j].0@ != key@,
            decreases self.entries@.len() - i,
        {
            if self.entries[i].0 == *key {
                proof {
                    let entries = self.entries@;
                    assert(entries[i as int].0@ == key@);
                    let c = choose|j: int| 0 <= j < entries.len() && entries[j].0@ == key@;
                    assert(entries[c].0@ == key@);
                    assert(c == i);
                }
                return Some(i);
            }
            i = i + 1;
        }
        None
    }
}

/// Use `key` at time `now`. Fails, changing nothing, while the last use lies
/// within `window_ns`; otherwise records `now` as the last use.
pub fn check_rate_limit(limiter: &mut RateLimiter, key: &str, window_ns: u64, now: u64) -> (r: Result<
    (),
    IcpiError,
>)
    requires
        old(limiter).wf(),
    ensures
        final(limiter).wf(),
        old(limiter).limited(key@, window_ns, now) ==> {
            &&& r matches Err(IcpiError::Other(msg))
            &&& msg@ == "Rate limit exceeded"@
            &&& forall|k: Seq<char>| final(limiter).last_seen(k) == old(limiter).last_seen(k)
        },
        !old(limiter).limited(key@, window_ns, now) ==> {
            &&& r is Ok
            &&& final(limiter).last_seen(key@) == Some(now)
            &&& forall|k: Seq<char>|
                k != key@ ==> final(limiter).last_seen(k) == old(limiter).last_seen(k)
        },
{
    let owned = text(key);
    match limiter.find(&owned) {
        Some(i) => {
            let last: u64 = limiter.entries[i].1;
            let since: u64 = if now >= last {
                now - last
            } else {
                0
            };
            if since < window_ns {
                return Err(IcpiError::Other(text("Rate limit exceeded")));
            }
            let ghost before = limiter.entries@;
            limiter.entries.set(i, (owned, now));
            proof {
                let after = limiter.entries@;
                assert forall|k: Seq<char>| k != key@ implies limiter.last_seen(k) == old(limiter).last_seen(k) by {
                    if exists|j: int| 0 <= j < before.len() && before[j].0@ == k {
                        let j0 = choose|j: int| 0 <= j < before.len() && before[j].0@ == k;
                        assert(after[j0].0@ == k);
                        let j1 = choose|j: int| 0 <= j < after.len() && after[j].0@ == k;
                        assert(before[j1].0@ == k);
                        assert(j0 == j1);
                    } else {
                        if exists|j: int| 0 <= j < after.len() && after[j].0@ == k {
                            let j1 = choose|j: int| 0 <= j < after.len() && after[j].0@ == k;
                            assert(before[j1].0@ == k);
                        }
                    }
                }
                assert(after[i as int].0@ == key@);
                let c = choose|j: int| 0 <= j < after.len() && after[j].0@ == key@;
                assert(c == i);
            }
            Ok(())
        },
        None => {
            let ghost before = limiter.entries@;
            limiter.entries.push((owned, now));
            proof {
                let after = limiter.entries@;
                let n = before.len() as int;
                assert(after[n].0@ == key@);
                assert forall|a: int, b: int|
                    0 <= a < after.len() && 0 <= b < after.len() && a != b implies after[a].0@
                    != after[b].0@ by {
                    if a < n && b < n {
                        assert(before[a].0@ != before[b].0@);
                    } else if a < n {
                        assert(before[a].0@ != key@);
                    } else {
                        assert(before[b].0@ != key@);
                    }
                }
                let c = choose|j: int| 0 <= j < after.len() && after[j].0@ == key@;
                assert(c == n) by {
                    if c < n {
                        assert(before[c].0@ == key@);
                    }
                }
                assert forall|k: Seq<char>| k != key@ implies limiter.last_seen(k) == old(limiter).last_seen(k) by {
                    if exists|j: int| 0 <= j < before.len() && before[j].0@ == k {
                        let j0 = choose|j: int| 0 <= j < before.len() && before[j].0@ == k;
                        assert(after[j0].0@ == k);
                        let j1 = choose|j: int| 0 <= j < after.len() && after[j].0@ == k;
                        assert(j1 < n);
                        assert(before[j1].0@ == k);
                        assert(j0 == j1);
                    } else {
                        if exists|j: int| 0 <= j < after.len() && after[j].0@ == k {
                            let j1 = choose|j: int| 0 <= j < after.len() && after[j].0@ == k;
                            assert(j1 < n);
                            assert(before[j1].0@ == k);
                        }
                    }
                }
            }
            Ok(())
        },
    }
}

} // verus!
