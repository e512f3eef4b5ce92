use vstd::prelude::*;

verus! {

/// Readiness polling makes at most this many refresh attempts.
pub const MAX_READY_ATTEMPTS: u64 = 10;

/// Certificate download polling waits this long between attempts, with no
/// growth and no attempt cap.
pub const CERT_POLL_DELAY: u64 = 5;

/// Two to the power `n`.
pub open spec fn pow2(n: nat) -> nat
    decreases n,
{
    if n == 0 {
        1
    } else {
        2 * pow2((n - 1) as nat)
    }
}

proof fn lemma_pow2_monotone(a: nat, b: nat)
    requires
        a <= b,
    ensures
        pow2(a) <= pow2(b),
    decreases b,
{
    if a < b {
        lemma_pow2_monotone(a, (b - 1) as nat);
    }
}

/// The delay, in time units, slept before refresh attempt `attempt`
/// (counting from zero): 1, 2, 4, 8, ...
pub fn retry_delay_for(attempt: u64) -> (delay: u64)
    requires
        attempt < MAX_READY_ATTEMPTS,
    ensures
        delay == pow2(attempt as nat),
{
    let mut delay: u64 = 1;
    let mut i: u64 = 0;
    while i < attempt
        invariant
            i <= attempt,
            attempt < MAX_READY_ATTEMPTS,
            delay == pow2(i as nat),
        decreases attempt - i,
    {
        proof {
            lemma_pow2_monotone((i + 1) as nat, 9);
            lemma_pow2_concrete();
        }
        delay = delay * 2;
        i = i + 1;
    }
    delay
}

/// The exact backoff schedule: the ten delays slept by readiness polling are
/// 1, 2, 4, 8, 16, 32, 64, 128, 256 and 512 time units.
pub proof fn lemma_pow2_concrete()
    ensures
        pow2(0) == 1,
        pow2(1) == 2,
        pow2(2) == 4,
        pow2(3) == 8,
        pow2(4) == 16,
        pow2(5) == 32,
        pow2(6) == 64,
        pow2(7) == 128,
        pow2(8) == 256,
        pow2(9) == 512,
{
    assert(pow2(0) == 1);
    assert(pow2(1) == 2);
    assert(pow2(2) == 4);
    assert(pow2(3) == 8);
    assert(pow2(4) == 16);
    assert(pow2(5) == 32);
    assert(pow2(6) == 64);
    assert(pow2(7) == 128);
    assert(pow2(8) == 256);
    assert(pow2(9) == 512);
}

} // verus!
