//! Quotas: the attachment store's total size, and each visitor's daily
//! attachment bandwidth.

use vstd::prelude::*;

verus! {

/// The bytes held by the attachment store against its total limit.
pub struct StorageQuota {
    pub used: u64,
    pub limit: u64,
}

/// Taking `n` bytes: whether they fit, and the bytes held afterwards.
pub open spec fn reserve_of(used: u64, limit: u64, n: u64) -> (bool, int) {
    if used + n <= limit {
        (true, used + n)
    } else {
        (false, used as int)
    }
}

/// Giving back `n` bytes: the bytes held afterwards.
pub open spec fn release_of(used: u64, n: u64) -> int {
    if used >= n {
        used - n
    } else {
        0
    }
}

impl StorageQuota {
    pub fn new(used: u64, limit: u64) -> (r: Self)
        ensures
            r.used == used && r.limit == limit,
    {
        StorageQuota { used, limit }
    }

    /// Whether a new file may be started: the store is below its limit.
    pub fn has_room(&self) -> (r: bool)
        ensures
            r == (self.used < self.limit),
    {
        self.used < self.limit
    }

    /// Takes `n` more bytes if that keeps the store within its limit.
    pub fn try_reserve(&mut self, n: u64) -> (r: bool)
        ensures
            (r, final(self).used as int) == reserve_of(old(self).used, old(self).limit, n),
            final(self).limit == old(self).limit,
    {
        if (self.used as u128) + (n as u128) > (self.limit as u128) {
            false
        } else {
            self.used = self.used + n;
            true
        }
    }

    /// Gives back `n` bytes (never going below zero).
    pub fn release(&mut self, n: u64)
        ensures
            final(self).used == release_of(old(self).used, n),
            final(self).limit == old(self).limit,
    {
        if self.used >= n {
            self.used = self.used - n;
        } else {
            self.used = 0;
        }
    }
}

/// Bytes taken keep the store within its limit, bytes refused leave it as
/// it was, and giving taken bytes back restores what it held.
pub proof fn lemma_reserve_release(used: u64, limit: u64, n: u64)
    ensures
        reserve_of(used, limit, n).0 ==> reserve_of(used, limit, n).1 <= limit,
        !reserve_of(used, limit, n).0 ==> reserve_of(used, limit, n).1 == used,
        reserve_of(used, limit, n).0 ==> release_of(reserve_of(used, limit, n).1 as u64, n)
            == used,
{
}

/// The outcome of asking for `size` more bytes of bandwidth.
pub struct BandwidthStep {
    /// The bytes used after the request.
    pub bytes: usize,
    /// The day was over: the count restarted (and its start is now).
    pub reset: bool,
    /// The request fits in the day's limit.
    pub allowed: bool,
}

/// Whether more than a day has passed, for an elapsed time of `secs`
/// seconds and `nanos` nanoseconds.
pub open spec fn day_over(secs: u64, nanos: u32) -> bool {
    secs > 24 * 3600 || (secs == 24 * 3600 && nanos > 0)
}

/// Asking for `size` bytes when `bytes` were used since the day started
/// `secs`/`nanos` ago: whether the day was over (the count restarts),
/// whether the request fits in `limit`, and the count afterwards.
pub open spec fn bandwidth_of(bytes: int, secs: u64, nanos: u32, size: int, limit: int) -> (bool, bool, int) {
    let reset = day_over(secs, nanos);
    let base = if reset {
        0
    } else {
        bytes
    };
    let allowed = base + size <= limit;
    (reset, allowed, if allowed {
        base + size
    } else {
        base
    })
}

/// Asks for `size` bytes for a visitor who has used `bytes` since the day
/// started `elapsed_secs`/`elapsed_nanos` ago (see `bandwidth_of`).
pub fn bandwidth_step(bytes: usize, elapsed_secs: u64, elapsed_nanos: u32, size: usize, limit: usize) -> (r: BandwidthStep)
    ensures
        (r.reset, r.allowed, r.bytes as int) == bandwidth_of(
            bytes as int,
            elapsed_secs,
            elapsed_nanos,
            size as int,
            limit as int,
        ),
{
    let reset = elapsed_secs > 24 * 3600 || (elapsed_secs == 24 * 3600 && elapsed_nanos > 0);
    let base = if reset {
        0
    } else {
        bytes
    };
    if (base as u128) + (size as u128) > (limit as u128) {
        BandwidthStep { bytes: base, reset, allowed: false }
    } else {
        BandwidthStep { bytes: base + size, reset, allowed: true }
    }
}

/// A visitor's counted bandwidth stays within the daily limit; a refused
/// request adds nothing; after a day the count starts again from the request.
pub proof fn lemma_bandwidth_within_limit(bytes: int, secs: u64, nanos: u32, size: int, limit: int)
    requires
        0 <= bytes <= limit,
        0 <= size,
    ensures
        0 <= bandwidth_of(bytes, secs, nanos, size, limit).2 <= limit,
        !bandwidth_of(bytes, secs, nanos, size, limit).1 ==> bandwidth_of(bytes, secs, nanos, size, limit).2
            == (if day_over(secs, nanos) {
            0
        } else {
            bytes
        }),
        day_over(secs, nanos) && size <= limit ==> bandwidth_of(bytes, secs, nanos, size, limit).2 == size,
{
}

/// The cut-off below which cached messages are pruned.
pub fn prune_cutoff(now: i64, cache_duration: u64) -> (r: i64)
    ensures
        r == now.wrapping_sub(cache_duration as i64),
{
    now.wrapping_sub(cache_duration as i64)
}

} // verus!
