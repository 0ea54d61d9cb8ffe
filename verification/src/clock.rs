//! The sample clock: how many stereo pairs a run of clocks yields.
//!
//! One pair of samples is due for every `CLOCKS_PER_SAMPLE` clocks. Clocks
//! that do not yet make up a pair are carried over to the next run.
use vstd::prelude::*;
use crate::constants::CLOCKS_PER_SAMPLE;

verus! {

/// The pairs that are due when `clocks` more clocks pass after `carry`
/// carried clocks.
pub open spec fn pairs_after(carry: nat, clocks: nat) -> nat {
    (carry + clocks) / (CLOCKS_PER_SAMPLE as nat)
}

/// The clocks that are carried over when `clocks` more clocks pass after
/// `carry` carried clocks.
pub open spec fn carry_after(carry: nat, clocks: nat) -> nat {
    (carry + clocks) % (CLOCKS_PER_SAMPLE as nat)
}

/// Counts clocks into stereo pairs. Its view is the number of clocks that
/// are carried over, which is always less than `CLOCKS_PER_SAMPLE`.
#[derive(Debug)]
pub struct SampleClock {
    carry: usize,
}

impl View for SampleClock {
    type V = nat;

    closed spec fn view(&self) -> nat {
        self.carry as nat
    }
}

impl SampleClock {
    #[verifier::type_invariant]
    spec fn inv(self) -> bool {
        self.carry < CLOCKS_PER_SAMPLE
    }

    /// A clock that carries nothing.
    pub fn new() -> (clock: SampleClock)
        ensures
            clock@ == 0,
    {
        SampleClock { carry: 0 }
    }

    /// The number of clocks that are carried over.
    pub fn carry(&self) -> (carry: usize)
        ensures
            carry == self@,
            carry < CLOCKS_PER_SAMPLE,
    {
        proof {
            use_type_invariant(self);
        }
        self.carry
    }

    /// Lets `clocks` clocks pass and returns the number of pairs that are
    /// due for them.
    pub fn run(&mut self, clocks: usize) -> (pairs: usize)
        ensures
            pairs == pairs_after(old(self)@, clocks as nat),
            final(self)@ == carry_after(old(self)@, clocks as nat),
    {
        proof {
            use_type_invariant(&*self);
        }
        let whole: usize = clocks / CLOCKS_PER_SAMPLE;
        let sum: usize = self.carry + clocks % CLOCKS_PER_SAMPLE;
        let extra: usize = sum / CLOCKS_PER_SAMPLE;
        let carry: usize = sum % CLOCKS_PER_SAMPLE;
        proof {
            clocks_split(old(self)@, clocks as nat);
        }
        self.carry = carry;
        whole + extra
    }
}

/// Whole pairs can be counted apart from the clocks beside them.
proof fn clocks_split(carry: nat, clocks: nat)
    requires
        carry < CLOCKS_PER_SAMPLE,
    ensures
        pairs_after(carry, clocks) == clocks / (CLOCKS_PER_SAMPLE as nat) + (carry + clocks % (
            CLOCKS_PER_SAMPLE as nat)) / (CLOCKS_PER_SAMPLE as nat),
        carry_after(carry, clocks) == (carry + clocks % (CLOCKS_PER_SAMPLE as nat)) % (
            CLOCKS_PER_SAMPLE as nat),
        pairs_after(carry, clocks) <= clocks / (CLOCKS_PER_SAMPLE as nat) + 1,
{
}

/// Running for `first` clocks and then for `second` clocks yields as many
/// pairs, and carries as many clocks over, as running once for both.
pub proof fn run_in_two(carry: nat, first: nat, second: nat)
    ensures
        pairs_after(carry, first) + pairs_after(carry_after(carry, first), second) == pairs_after(
            carry,
            first + second,
        ),
        carry_after(carry_after(carry, first), second) == carry_after(carry, first + second),
{
}

/// A run for a whole number of pairs' worth of clocks, with nothing
/// carried in, yields exactly that number of pairs and carries nothing out.
pub proof fn run_of_whole_pairs(pairs: nat)
    ensures
        pairs_after(0, pairs * (CLOCKS_PER_SAMPLE as nat)) == pairs,
        carry_after(0, pairs * (CLOCKS_PER_SAMPLE as nat)) == 0,
{
}

} // verus!
