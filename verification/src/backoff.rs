//! How long to wait between attempts to connect.
//!
//! The first failed attempt is followed by a wait of a quarter of a second.
//! Each further failure makes the wait half as long again, until it reaches
//! one minute, where it stays. Nothing is random, and there is no last
//! attempt.

use vstd::prelude::*;

verus! {

/// The wait after the first failed attempt, in nanoseconds.
pub const FIRST_DELAY: u64 = 250_000_000;

/// The longest wait, in nanoseconds.
pub const MAX_DELAY: u64 = 60_000_000_000;

/// The number of failures from which on the wait is the longest one.
pub const LAST_STEP: u64 = 14;

/// `3` to the power `n`.
pub open spec fn pow3(n: nat) -> nat
    decreases n,
{
    if n == 0 {
        1
    } else {
        3 * pow3((n - 1) as nat)
    }
}

/// `2` to the power `n`.
pub open spec fn pow2(n: nat) -> nat
    decreases n,
{
    if n == 0 {
        1
    } else {
        2 * pow2((n - 1) as nat)
    }
}

/// The wait, in nanoseconds, after a failed attempt that `failures` failed
/// attempts came before: the first delay times one and a half to the power
/// `failures`, rounded down, and at most the longest delay.
pub open spec fn retry_delay(failures: nat) -> nat {
    let grown = FIRST_DELAY as nat * pow3(failures) / pow2(failures);
    if grown > MAX_DELAY as nat {
        MAX_DELAY as nat
    } else {
        grown
    }
}

/// The step that a schedule is at after `failures` failed attempts.
pub open spec fn step_after(failures: nat) -> nat {
    if failures > LAST_STEP as nat {
        LAST_STEP as nat
    } else {
        failures
    }
}

proof fn lemma_small_powers(n: nat)
    requires
        n <= 14,
    ensures
        pow3(n) <= 4782969,
        pow2(n) <= 16384,
        pow2(n) > 0,
        n == 14 ==> pow3(n) == 4782969 && pow2(n) == 16384,
{
    reveal_with_fuel(pow3, 15);
    reveal_with_fuel(pow2, 15);
}

proof fn lemma_outgrown(n: nat)
    requires
        n >= 14,
    ensures
        FIRST_DELAY as nat * pow3(n) >= MAX_DELAY as nat * pow2(n) + pow2(n),
        pow2(n) > 0,
    decreases n,
{
    if n == 14 {
        lemma_small_powers(14);
    } else {
        lemma_outgrown((n - 1) as nat);
        let a = pow3((n - 1) as nat);
        let b = pow2((n - 1) as nat);
        assert(pow3(n) == 3 * a);
        assert(pow2(n) == 2 * b);
        assert(FIRST_DELAY as nat * (3 * a) == 3 * (FIRST_DELAY as nat * a)) by (nonlinear_arith);
        assert(MAX_DELAY as nat * (2 * b) == 2 * (MAX_DELAY as nat * b)) by (nonlinear_arith);
    }
}

proof fn lemma_longest(n: nat)
    requires
        n >= 14,
    ensures
        retry_delay(n) == MAX_DELAY,
{
    lemma_outgrown(n);
    let top = FIRST_DELAY as nat * pow3(n);
    let bottom = pow2(n);
    assert(top / bottom > MAX_DELAY as nat) by (nonlinear_arith)
        requires
            bottom > 0,
            top >= MAX_DELAY as nat * bottom + bottom,
    ;
}

/// The schedule of waits of one run of attempts.
#[derive(Debug)]
pub struct Retry {
    step: u64,
}

impl View for Retry {
    type V = nat;

    /// The step of the schedule: the number of failed attempts so far, as
    /// far as it matters for the next wait.
    closed spec fn view(&self) -> nat {
        self.step as nat
    }
}

impl Retry {
    #[verifier::type_invariant]
    spec fn in_schedule(self) -> bool {
        self.step <= LAST_STEP
    }

    /// The schedule before the first attempt.
    pub fn new() -> (retry: Retry)
        ensures
            retry@ == 0,
    {
        Retry { step: 0 }
    }

    /// The wait of the step the schedule is at, in nanoseconds.
    fn delay(&self) -> (wait: u64)
        ensures
            wait == retry_delay(self.step as nat),
    {
        proof {
            use_type_invariant(self);
        }
        if self.step >= LAST_STEP {
            proof {
                lemma_longest(self.step as nat);
            }
            return MAX_DELAY;
        }
        let mut top: u64 = FIRST_DELAY;
        let mut bottom: u64 = 1;
        let mut k: u64 = 0;
        while k < self.step
            invariant
                k <= self.step,
                self.step < LAST_STEP,
                top == FIRST_DELAY as nat * pow3(k as nat),
                bottom == pow2(k as nat),
            decreases self.step - k,
        {
            proof {
                lemma_small_powers((k + 1) as nat);
                assert(FIRST_DELAY as nat * (3 * pow3(k as nat)) == 3 * (FIRST_DELAY as nat * pow3(
                    k as nat,
                ))) by (nonlinear_arith);
                assert(FIRST_DELAY as nat * pow3((k + 1) as nat) <= FIRST_DELAY as nat * 4782969)
                    by (nonlinear_arith)
                    requires
                        pow3((k + 1) as nat) <= 4782969,
                ;
            }
            top = top * 3;
            bottom = bottom * 2;
            k = k + 1;
        }
        proof {
            lemma_small_powers(k as nat);
        }
        let grown = top / bottom;
        if grown > MAX_DELAY {
            MAX_DELAY
        } else {
            grown
        }
    }

    /// Takes the outcome of an attempt to connect and says how long to wait
    /// before the next one, in nanoseconds.
    ///
    /// After a successful attempt there is nothing to wait for. After a
    /// failed one the wait is that of the schedule's step, and the schedule
    /// moves on by one step.
    pub fn after_attempt(&mut self, connected: bool) -> (wait: Option<u64>)
        ensures
            connected ==> wait is None && final(self)@ == old(self)@,
            !connected ==> wait == Some(retry_delay(old(self)@) as u64) && final(self)@
                == step_after(old(self)@ + 1),
    {
        proof {
            use_type_invariant(&*self);
        }
        if connected {
            None
        } else {
            let wait = self.delay();
            if self.step < LAST_STEP {
                self.step = self.step + 1;
            }
            Some(wait)
        }
    }
}

/// The step of a schedule that has seen `failures` failed attempts in a row
/// since it was made.
pub open spec fn step_of_run(failures: nat) -> nat
    decreases failures,
{
    if failures == 0 {
        0
    } else {
        step_after(step_of_run((failures - 1) as nat) + 1)
    }
}

/// However many attempts have failed, the next wait is the first delay
/// times one and a half to the power of their number, capped at the longest
/// delay: the step that the schedule keeps stands for the whole count.
pub proof fn law_wait_follows_failures(failures: nat)
    ensures
        step_of_run(failures) == step_after(failures),
        retry_delay(step_of_run(failures)) == retry_delay(failures),
    decreases failures,
{
    if failures > 0 {
        law_wait_follows_failures((failures - 1) as nat);
    }
    if failures >= 14 {
        lemma_longest(failures);
        lemma_longest(14);
    }
}

/// The waits begin with 250 ms, 375 ms and 562.5 ms, never shrink, never
/// pass one minute, and are one minute from the fifteenth failure on.
pub proof fn law_waits_grow_to_a_minute(failures: nat)
    ensures
        retry_delay(0) == 250_000_000,
        retry_delay(1) == 375_000_000,
        retry_delay(2) == 562_500_000,
        retry_delay(failures) <= retry_delay(failures + 1),
        retry_delay(failures) <= MAX_DELAY,
        failures >= LAST_STEP ==> retry_delay(failures) == MAX_DELAY,
{
    if failures >= 14 {
        lemma_longest(failures);
    }
    assert(retry_delay(0) == 250_000_000 && retry_delay(1) == 375_000_000 && retry_delay(2)
        == 562_500_000) by {
        reveal_with_fuel(pow3, 3);
        reveal_with_fuel(pow2, 3);
        assert(pow3(0) == 1 && pow3(1) == 3 && pow3(2) == 9);
        assert(pow2(0) == 1 && pow2(1) == 2 && pow2(2) == 4);
        assert(FIRST_DELAY as nat * 1 / 1 == 250_000_000);
        assert(FIRST_DELAY as nat * 3 / 2 == 375_000_000);
        assert(FIRST_DELAY as nat * 9 / 4 == 562_500_000);
    }
    let a = FIRST_DELAY as nat * pow3(failures);
    let b = pow2(failures);
    assert(b > 0) by {
        lemma_positive(failures);
    }
    assert(FIRST_DELAY as nat * pow3(failures + 1) == 3 * a) by (nonlinear_arith)
        requires
            pow3(failures + 1) == 3 * pow3(failures),
            a == FIRST_DELAY as nat * pow3(failures),
    ;
    assert(pow2(failures + 1) == 2 * b);
    assert(a / b <= (3 * a) / (2 * b)) by (nonlinear_arith)
        requires
            b > 0,
    ;
}

proof fn lemma_positive(n: nat)
    ensures
        pow2(n) > 0,
    decreases n,
{
    if n > 0 {
        lemma_positive((n - 1) as nat);
    }
}

} // verus!
