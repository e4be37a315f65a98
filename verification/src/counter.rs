//! A bounded generator: a counter that yields the values 1 through 5, one
//! per call, and is then exhausted for good.

use vstd::prelude::*;

verus! {

/// A monotonic bounded generator. A fresh counter yields 1, 2, 3, 4, 5 on
/// its first five calls to `next` and nothing on every call thereafter;
/// exhaustion is terminal, the state never resets.
pub struct Counter {
    count: u32,
}

impl View for Counter {
    type V = nat;

    closed spec fn view(&self) -> nat {
        self.count as nat
    }
}

/// The state one call to `next` moves a counter in state `c` to.
pub open spec fn counter_step(c: nat) -> nat {
    if c < 5 {
        c + 1
    } else {
        c
    }
}

/// What one call to `next` yields from a counter in state `c`.
pub open spec fn counter_output(c: nat) -> Option<u32> {
    if c < 5 {
        Some((c + 1) as u32)
    } else {
        None
    }
}

/// The state a fresh counter is in after `n` calls to `next`.
pub open spec fn counter_state_after(n: nat) -> nat
    decreases n,
{
    if n == 0 {
        0
    } else {
        counter_step(counter_state_after((n - 1) as nat))
    }
}

impl Counter {
    /// The counter's invariant: the count never leaves 0 ..= 5.
    pub closed spec fn wf(&self) -> bool {
        self@ <= 5
    }

    /// A fresh counter, with its count at 0.
    pub fn new() -> (c: Counter)
        ensures
            c@ == 0,
            c.wf(),
    {
        Counter { count: 0 }
    }

    /// While the count is below 5, increments it and yields the new value;
    /// once the count has reached 5, yields nothing and leaves the count
    /// unchanged, on this and on every later call.
    pub fn next(&mut self) -> (r: Option<u32>)
        ensures
            final(self)@ == counter_step(old(self)@),
            r == counter_output(old(self)@),
            old(self).wf() ==> final(self).wf(),
    {
        if self.count < 5 {
            self.count = self.count + 1;
            Some(self.count)
        } else {
            None
        }
    }

    /// The current count: the value frozen into the counter at the moment
    /// it is read, and the value an owner logs when it disposes of the
    /// counter.
    pub fn count(&self) -> (r: u32)
        ensures
            r == self@,
    {
        self.count
    }
}

/// A fresh counter's first five calls yield 1 through 5 in order, and every
/// call after the fifth yields nothing: the state after `n` calls is `n`
/// capped at 5, so call `n + 1` yields `n + 1` while `n < 5` and nothing
/// once `n >= 5`.
pub proof fn lemma_counter_run(n: nat)
    ensures
        counter_state_after(n) == if n < 5 {
            n
        } else {
            5 as nat
        },
        n < 5 ==> counter_output(counter_state_after(n)) == Some((n + 1) as u32),
        n >= 5 ==> counter_output(counter_state_after(n)) is None,
    decreases n,
{
    if n > 0 {
        lemma_counter_run((n - 1) as nat);
    }
}

/// The sum, over the first `n` paired steps of two counters offset by one
/// call, of the products `k * (k + 1)` that are multiples of 3.
pub open spec fn derived_sum(n: nat) -> nat
    decreases n,
{
    if n == 0 {
        0
    } else {
        derived_sum((n - 1) as nat) + if (n * (n + 1)) % 3 == 0 {
            n * (n + 1)
        } else {
            0
        }
    }
}

/// The partial sums of the derived sequence never pass 18.
proof fn lemma_derived_sum_le(n: nat)
    requires
        n <= 4,
    ensures
        derived_sum(n) <= 18,
{
    reveal_with_fuel(derived_sum, 6);
    if n == 0 {
    } else if n == 1 {
    } else if n == 2 {
    } else if n == 3 {
    } else {
        assert(n == 4);
    }
}

/// Pairs a fresh counter with a second fresh counter offset by one step,
/// multiplies the paired values, keeps the multiples of 3 and sums them.
/// The products are 1*2, 2*3, 3*4 and 4*5; the multiples of 3 among them
/// are 6 and 12, so the sum is 18.
pub fn offset_product_sum(a: Counter, b: Counter) -> (r: u32)
    requires
        a@ == 0,
        b@ == 0,
    ensures
        r == derived_sum(4),
        r == 18,
{
    let mut a = a;
    let mut b = b;
    let _ = b.next();
    let mut sum: u32 = 0;
    loop
        invariant_except_break
            b@ == a@ + 1,
            a@ <= 4,
            sum == derived_sum(a@),
        ensures
            sum == derived_sum(4),
        decreases 5 - a@,
    {
        let ghost a0 = a@;
        let x = a.next();
        let y = b.next();
        match (x, y) {
            (Some(x), Some(y)) => {
                proof {
                    assert(a0 <= 3);
                    assert(x == a0 + 1 && y == a0 + 2);
                    assert(x as int * y as int == (a0 + 1) * (a0 + 2));
                    assert((a0 + 1) * (a0 + 2) <= 20) by (nonlinear_arith)
                        requires
                            a0 <= 3,
                    ;
                    lemma_derived_sum_le(a0);
                }
                let p = x * y;
                if p % 3 == 0 {
                    sum = sum + p;
                }
            },
            _ => {
                break;
            },
        }
    }
    proof {
        reveal_with_fuel(derived_sum, 6);
    }
    sum
}

} // verus!
