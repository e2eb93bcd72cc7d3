use vstd::prelude::*;
use vstd::string::*;
use crate::outside::{is_hyphenated_uuid_v4, new_uuid_v4_string};
use crate::text::{hex_number, parse_hex};

verus! {

/// The 60 random bits of a version-4 UUID's text: the hex digits after
/// the variant digit.
pub fn uuid_random_bits(id: &str) -> (r: u64)
    requires
        is_hyphenated_uuid_v4(id@),
    ensures
        r == hex_number(id@.subrange(20, 23) + id@.subrange(24, 36)),
{
    let a = id.substring_char(20, 23);
    let b = id.substring_char(24, 36);
    let digits = String::from_str(a).concat(b);
    proof {
        assert forall|i: int| 0 <= i < digits@.len() implies ('0' <= #[trigger] digits@[i] && digits@[i] <= '9')
            || ('a' <= digits@[i] && digits@[i] <= 'f') by {
            if i < 3 {
                assert(digits@[i] == id@[20 + i]);
            } else {
                assert(digits@[i] == id@[21 + i]);
            }
        }
    }
    parse_hex(digits.as_str())
}

/// The smaller of two numbers.
pub open spec fn min_nat(a: nat, b: nat) -> nat {
    if a <= b { a } else { b }
}

/// The exponential back-off before jitter: `min(base * 2^attempt, max)`.
pub open spec fn backoff_cap(base: nat, max: nat, attempt: nat) -> nat
    decreases attempt,
{
    if attempt == 0 {
        min_nat(base, max)
    } else {
        min_nat(2 * backoff_cap(base, max, (attempt - 1) as nat), max)
    }
}

/// The back-off never exceeds its maximum.
pub proof fn lemma_backoff_cap_le_max(base: nat, max: nat, attempt: nat)
    ensures
        backoff_cap(base, max, attempt) <= max,
    decreases attempt,
{
    if attempt > 0 {
        lemma_backoff_cap_le_max(base, max, (attempt - 1) as nat);
    }
}

proof fn lemma_backoff_cap_saturated(base: nat, max: nat, i: nat, j: nat)
    requires
        i <= j,
        backoff_cap(base, max, i) == max,
    ensures
        backoff_cap(base, max, j) == max,
    decreases j - i,
{
    if i < j {
        lemma_backoff_cap_saturated(base, max, i, (j - 1) as nat);
    }
}

proof fn lemma_backoff_cap_zero(max: nat, j: nat)
    ensures
        backoff_cap(0, max, j) == 0,
    decreases j,
{
    if j > 0 {
        lemma_backoff_cap_zero(max, (j - 1) as nat);
    }
}

/// Exponential back-off with "equal jitter": the delay for an attempt is half
/// of the capped exponential back-off plus a random share of the other half.
#[derive(Clone, Copy, Debug, PartialEq, Eq, Structural)]
pub struct EqualJitterDelay {
    pub base_delay_ms: u64,
    pub max_delay_ms: u64,
}

impl EqualJitterDelay {
    pub open spec fn cap_spec(self, attempt: nat) -> nat {
        backoff_cap(self.base_delay_ms as nat, self.max_delay_ms as nat, attempt)
    }

    /// The capped exponential back-off for `attempt`, before jitter.
    pub fn delay_cap_ms(&self, attempt: u32) -> (d: u64)
        ensures
            d == self.cap_spec(attempt as nat),
    {
        let max: u64 = self.max_delay_ms;
        let mut d: u64 = if self.base_delay_ms < max { self.base_delay_ms } else { max };
        if d == 0 {
            proof {
                if self.base_delay_ms == 0 {
                    lemma_backoff_cap_zero(max as nat, attempt as nat);
                } else {
                    lemma_backoff_cap_saturated(self.base_delay_ms as nat, max as nat, 0, attempt as nat);
                }
            }
            return 0;
        }
        let mut i: u32 = 0;
        while i < attempt && d < max
            invariant
                i <= attempt,
                d <= max,
                max == self.max_delay_ms,
                d == self.cap_spec(i as nat),
            decreases attempt - i,
        {
            if d <= max / 2 {
                d = 2 * d;
            } else {
                d = max;
            }
            i = i + 1;
        }
        proof {
            if i < attempt {
                lemma_backoff_cap_saturated(self.base_delay_ms as nat, max as nat, i as nat, attempt as nat);
            }
        }
        d
    }

    /// The jittered delay for `attempt`, with `random` as the source of
    /// chance: half of the cap plus `random` reduced into `0..=half`.
    pub fn calc_delay_from(&self, attempt: u32, random: u64) -> (d: u64)
        ensures
            d == self.cap_spec(attempt as nat) / 2 + (random as nat) % (self.cap_spec(attempt as nat) / 2 + 1),
            self.cap_spec(attempt as nat) / 2 <= d <= self.cap_spec(attempt as nat),
    {
        let cap: u64 = self.delay_cap_ms(attempt);
        let half: u64 = cap / 2;
        half + random % (half + 1)
    }

    /// The jittered delay for `attempt`: somewhere between half the cap and
    /// the cap, drawn at random from the bits of a fresh v4 UUID.
    pub fn calc_delay(&self, attempt: u32) -> (d: u64)
        ensures
            self.cap_spec(attempt as nat) / 2 <= d <= self.cap_spec(attempt as nat),
    {
        let id = new_uuid_v4_string();
        let random: u64 = uuid_random_bits(id.as_str());
        self.calc_delay_from(attempt, random)
    }
}

} // verus!
