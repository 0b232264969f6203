use vstd::arithmetic::div_mod::lemma_div_denominator;
use vstd::prelude::*;

verus! {

/// An amount of money, in nanos.
#[derive(Clone, Copy, Debug, PartialEq, Eq, Structural, PartialOrd, Ord, Hash)]
pub struct Money {
    pub nanos: u64,
}

impl Money {
    pub fn from_nano(value: u64) -> (r: Money)
        ensures
            r.nanos == value,
    {
        Money { nanos: value }
    }

    pub fn as_nano(self) -> (r: u64)
        ensures
            r == self.nanos,
    {
        self.nanos
    }
}

pub open spec fn pow2(n: nat) -> nat
    decreases n,
{
    if n == 0 {
        1
    } else {
        2 * pow2((n - 1) as nat)
    }
}

pub const NANOS_PER_UNIT: u64 = 1_000_000_000;

/// The reward of a node of age `age` in a network whose section prefixes are
/// `prefix_len` bits long: 2^age units, divided by the network size
/// 2^prefix_len, times prefix_len + 1.
pub open spec fn reward_nanos(age: nat, prefix_len: nat) -> int {
    (pow2(age) * NANOS_PER_UNIT) as int / pow2(prefix_len) as int * (prefix_len + 1)
}

/// Each step of the reward computation fits in 64 bits.
pub open spec fn reward_fits(age: nat, prefix_len: nat) -> bool {
    &&& pow2(age) * NANOS_PER_UNIT <= u64::MAX
    &&& pow2(prefix_len) <= u64::MAX
    &&& reward_nanos(age, prefix_len) <= u64::MAX
}

proof fn lemma_pow2_above(n: nat)
    ensures
        pow2(n) >= n + 1,
    decreases n,
{
    if n > 0 {
        lemma_pow2_above((n - 1) as nat);
    }
}

proof fn lemma_pow2_grows(a: nat, b: nat)
    requires
        a <= b,
    ensures
        1 <= pow2(a) <= pow2(b),
    decreases b,
{
    lemma_pow2_above(a);
    if a < b {
        lemma_pow2_grows(a, (b - 1) as nat);
    }
}

proof fn lemma_reward_nonnegative(age: nat, prefix_len: nat)
    ensures
        reward_nanos(age, prefix_len) >= 0,
{
    lemma_pow2_above(prefix_len);
    let q = (pow2(age) * NANOS_PER_UNIT) as int / pow2(prefix_len) as int;
    assert(q >= 0);
    assert(q * (prefix_len + 1) >= 0) by (nonlinear_arith)
        requires
            q >= 0,
    ;
}

/// 2^n, where it fits in 64 bits.
fn checked_pow2(n: usize) -> (r: Option<u64>)
    ensures
        r == (if pow2(n as nat) <= u64::MAX {
            Some(pow2(n as nat) as u64)
        } else {
            None::<u64>
        }),
{
    let mut p: u64 = 1;
    let mut i: usize = 0;
    while i < n
        invariant
            i <= n,
            p == pow2(i as nat),
        decreases n - i,
    {
        match p.checked_mul(2) {
            Some(q) => {
                p = q;
                i = i + 1;
            },
            None => {
                proof {
                    lemma_pow2_grows((i + 1) as nat, n as nat);
                }
                return None;
            },
        }
    }
    Some(p)
}

/// Computes the reward of nodes.
pub struct RewardCalc {}

impl RewardCalc {
    pub fn new() -> (r: RewardCalc) {
        RewardCalc {  }
    }

    /// The reward of a node that has reached `age`, in a network whose section
    /// prefixes are `prefix_len` bits long; none where it does not fit in 64 bits.
    pub fn reward(&self, age: u8, prefix_len: usize) -> (r: Option<Money>)
        ensures
            r == (if reward_fits(age as nat, prefix_len as nat) {
                Some(Money { nanos: reward_nanos(age as nat, prefix_len as nat) as u64 })
            } else {
                None::<Money>
            }),
    {
        let time = match checked_pow2(age as usize) {
            Some(t) => t,
            None => {
                assert(pow2(age as nat) * NANOS_PER_UNIT > u64::MAX) by (nonlinear_arith)
                    requires
                        pow2(age as nat) > u64::MAX,
                ;
                return None;
            },
        };
        if time.checked_mul(NANOS_PER_UNIT).is_none() {
            return None;
        }
        proof {
            lemma_pow2_grows(0, prefix_len as nat);
        }
        let network_size = match checked_pow2(prefix_len) {
            Some(s) => s,
            None => {
                return None;
            },
        };
        proof {
            lemma_pow2_above(prefix_len as nat);
            lemma_reward_nonnegative(age as nat, prefix_len as nat);
        }
        let per_node = time * NANOS_PER_UNIT / network_size;
        match per_node.checked_mul(prefix_len as u64 + 1) {
            Some(n) => Some(Money::from_nano(n)),
            None => None,
        }
    }

    /// The reward of a node that has reached `age`, in a network whose section
    /// prefixes are `prefix_len` bits long.
    pub fn reward_from(age: u8, prefix_len: usize) -> (r: Money)
        requires
            reward_fits(age as nat, prefix_len as nat),
        ensures
            r.nanos == reward_nanos(age as nat, prefix_len as nat),
    {
        proof {
            lemma_reward_nonnegative(age as nat, prefix_len as nat);
        }
        let calc = RewardCalc::new();
        match calc.reward(age, prefix_len) {
            Some(m) => m,
            None => Money::from_nano(0),
        }
    }
}

/// A node of a given age is rewarded no more when the section prefixes grow
/// one bit longer, that is when the network doubles in size.
pub proof fn lemma_reward_not_growing(age: nat, prefix_len: nat)
    ensures
        reward_nanos(age, prefix_len + 1) <= reward_nanos(age, prefix_len),
{
    let t = (pow2(age) * NANOS_PER_UNIT) as int;
    let a = pow2(prefix_len) as int;
    lemma_pow2_above(prefix_len);
    assert(pow2(prefix_len + 1) == 2 * pow2(prefix_len));
    lemma_div_denominator(t, a, 2);
    assert(a * 2 == pow2(prefix_len + 1));
    let q = t / a;
    assert(q >= 0);
    let p = prefix_len as int;
    assert((q / 2) * (p + 2) <= q * (p + 1)) by (nonlinear_arith)
        requires
            q >= 0,
            p >= 0,
    ;
}

} // verus!
