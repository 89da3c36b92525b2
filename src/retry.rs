//! Retry schedule of background jobs: exponential backoff with optional
//! jitter.

use rand::Rng;
use vstd::prelude::*;

verus! {

/// Relies on `rand::rng().random_range(lo..=hi)`: a value drawn from the
/// inclusive range, which must not be empty.
#[verifier::external_body]
fn random_in_range(lo: i64, hi: i64) -> (r: i64)
    requires
        lo <= hi,
    ensures
        lo <= r <= hi,
{
    rand::rng().random_range(lo..=hi)
}

/// Retry settings; the backoff bounds are in milliseconds.
#[derive(Debug)]
pub struct RetrySettings {
    pub n_attempts: Option<u32>,
    pub n_warn_attempts: Option<u32>,
    pub min_backoff: u64,
    pub max_backoff: u64,
    pub backoff_jitter_pct: u8,
}

pub const SECS_IN_ONE_MONTH: u64 = 60 * 60 * 24 * 30;

pub open spec fn pow2(n: nat) -> nat
    decreases n,
{
    if n == 0 {
        1
    } else {
        2 * pow2((n - 1) as nat)
    }
}

/// `a * b`, or the largest `u64` where the product does not fit.
pub open spec fn sat_mul(a: u64, b: u64) -> u64 {
    if a * b > u64::MAX {
        u64::MAX
    } else {
        (a * b) as u64
    }
}

/// The backoff before jitter: the minimum doubled once per attempt after the
/// first (at most thirty times), saturating, and capped at the maximum.
pub open spec fn base_backoff(min_ms: u64, max_ms: u64, attempt: u32) -> u64 {
    let n: nat = if attempt == 0 {
        0
    } else if attempt - 1 > 30 {
        30
    } else {
        (attempt - 1) as nat
    };
    let b = sat_mul(min_ms, pow2(n) as u64);
    if b < max_ms {
        b
    } else {
        max_ms
    }
}

/// The jitter amount for a backoff: `pct` percent of it, rounded down.
pub open spec fn jitter_amount(backoff: u64, pct: u8) -> int {
    (backoff * pct) / 100
}

impl Default for RetrySettings {
    fn default() -> (r: RetrySettings)
        ensures
            r.n_attempts == Some(30u32),
            r.n_warn_attempts == Some(3u32),
            r.min_backoff == 1000,
            r.max_backoff == SECS_IN_ONE_MONTH * 1000,
            r.backoff_jitter_pct == 20,
    {
        RetrySettings {
            n_attempts: Some(30),
            n_warn_attempts: Some(3),
            min_backoff: 1000,
            max_backoff: SECS_IN_ONE_MONTH * 1000,
            backoff_jitter_pct: 20,
        }
    }
}

impl RetrySettings {
    /// The default settings with no limit on attempts and no warnings.
    pub fn repeat_indefinitely() -> (r: RetrySettings)
        ensures
            r.n_attempts is None,
            r.n_warn_attempts is None,
            r.min_backoff == 1000,
            r.max_backoff == SECS_IN_ONE_MONTH * 1000,
            r.backoff_jitter_pct == 20,
    {
        let d = RetrySettings::default();
        RetrySettings { n_attempts: None, n_warn_attempts: None, ..d }
    }

    /// Milliseconds to wait before `attempt`: the base backoff where jitter is
    /// off, else a value within the jitter amount of it, never negative and
    /// never above the maximum.
    pub fn calculate_backoff(&self, attempt: u32) -> (r: u64)
        ensures
            self.backoff_jitter_pct == 0 ==> r == base_backoff(
                self.min_backoff,
                self.max_backoff,
                attempt,
            ),
            self.backoff_jitter_pct != 0 ==> {
                let b = base_backoff(self.min_backoff, self.max_backoff, attempt);
                let j = jitter_amount(b, self.backoff_jitter_pct);
                &&& r <= self.max_backoff
                &&& b - j <= r || r == 0
                &&& r <= b + j
            },
    {
        let safe_attempt: u32 = if attempt == 0 {
            0
        } else if attempt - 1 > 30 {
            30
        } else {
            attempt - 1
        };
        let mut p: u64 = 1;
        let mut k: u32 = 0;
        while k < safe_attempt
            invariant
                k <= safe_attempt <= 30,
                p == pow2(k as nat),
                p <= 0x4000_0000,
            decreases safe_attempt - k,
        {
            proof {
                lemma_pow2_bound(k as nat + 1);
            }
            p = p * 2;
            k = k + 1;
        }
        let max_ms = self.max_backoff;
        let product = match self.min_backoff.checked_mul(p) {
            Some(v) => v,
            None => u64::MAX,
        };
        let backoff = if product < max_ms {
            product
        } else {
            max_ms
        };
        if self.backoff_jitter_pct == 0 {
            backoff
        } else {
            self.apply_jitter(backoff, max_ms)
        }
    }

    fn apply_jitter(&self, backoff_ms: u64, max_ms: u64) -> (r: u64)
        requires
            backoff_ms <= max_ms,
        ensures
            r <= max_ms,
            backoff_ms - jitter_amount(backoff_ms, self.backoff_jitter_pct) <= r || r == 0,
            r <= backoff_ms + jitter_amount(backoff_ms, self.backoff_jitter_pct),
    {
        let pct = self.backoff_jitter_pct;
        assert((backoff_ms as u128) * (pct as u128) <= 0xffff_ffff_ffff_ffffu128 * 255) by (nonlinear_arith)
            requires
                backoff_ms <= 0xffff_ffff_ffff_ffffu64,
                pct <= 255,
        ;
        let amount: u128 = (backoff_ms as u128) * (pct as u128) / 100;
        let bound: i64 = if amount > 0x7fff_ffff_ffff_ffff {
            0x7fff_ffff_ffff_ffff
        } else {
            amount as i64
        };
        let jitter = random_in_range(-bound, bound);
        let jittered: i128 = backoff_ms as i128 + jitter as i128;
        let clamped: u64 = if jittered < 0 {
            0
        } else if jittered > max_ms as i128 {
            max_ms
        } else {
            jittered as u64
        };
        clamped
    }
}

proof fn lemma_pow2_monotone(a: nat, b: nat)
    requires
        a <= b,
    ensures
        pow2(a) <= pow2(b),
    decreases b - a,
{
    if a < b {
        lemma_pow2_monotone(a, (b - 1) as nat);
    }
}

proof fn lemma_pow2_bound(n: nat)
    requires
        n <= 30,
    ensures
        pow2(n) <= 0x4000_0000,
{
    lemma_pow2_monotone(n, 30);
    assert(pow2(30) == 0x4000_0000) by {
        reveal_with_fuel(pow2, 31);
    }
}

} // verus!
