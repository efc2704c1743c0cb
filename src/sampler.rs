use vstd::arithmetic::div_mod::{lemma_fundamental_div_mod, lemma_mod_multiples_basic};
use vstd::prelude::*;

verus! {

/// The most points that one drawn trajectory aims for.
pub const SENSITIVITY: usize = 190;

/// The stride for a trajectory of `len` observations: `ceil(len / SENSITIVITY)`,
/// and never below 1.
pub open spec fn step_for(len: nat) -> nat {
    let c = (len + SENSITIVITY - 1) as int / SENSITIVITY as int;
    if c < 1 {
        1
    } else {
        c as nat
    }
}

/// How many indices `0, step, 2 * step, ...` lie below `len`.
pub open spec fn sample_count(len: nat) -> nat {
    let s = step_for(len) as int;
    ((len + s - 1) / s) as nat
}

/// The indices that the sampler keeps out of `len` observations, in order.
pub open spec fn sampled_indices(len: nat) -> Seq<int> {
    Seq::new(sample_count(len), |j: int| j * step_for(len))
}

/// The observations that the sampler keeps, in their original order.
pub open spec fn sampled<T>(s: Seq<T>) -> Seq<T> {
    sampled_indices(s.len()).map_values(|i: int| s[i])
}

/// The stride that the sampler uses on `len` observations.
pub fn sample_step(len: usize) -> (r: usize)
    ensures
        r as nat == step_for(len as nat),
{
    let whole: usize = len / SENSITIVITY;
    let c: usize = if len % SENSITIVITY == 0 {
        whole
    } else {
        whole + 1
    };
    if c < 1 {
        1
    } else {
        c
    }
}

/// The stride is at least 1.
pub proof fn lemma_step_positive(len: nat)
    ensures
        step_for(len) >= 1,
{
}

/// Index `j` of the sampled sequence stands for an observation exactly when
/// `j * step` still lies below `len`.
pub proof fn lemma_below_count(len: nat, j: int)
    requires
        0 <= j,
    ensures
        j < sample_count(len) <==> j * step_for(len) < len,
{
    let s = step_for(len) as int;
    let x = len + s - 1;
    let c = x / s;
    lemma_fundamental_div_mod(x, s);
    let r = x % s;
    assert(0 <= r < s);
    assert(x == s * c + r);
    assert(j < c <==> j * s < len) by (nonlinear_arith)
        requires
            s >= 1,
            0 <= r < s,
            x == s * c + r,
            x == len + s - 1,
            0 <= j,
            len >= 0,
    ;
}

/// The sampled index set is `{0, step, 2 * step, ...}` cut to `[0, len)`.
pub proof fn lemma_sampled_index_set(len: nat, k: int)
    ensures
        sampled_indices(len).contains(k) <==> (0 <= k < len && k % (step_for(len) as int) == 0),
{
    let s = step_for(len) as int;
    let idx = sampled_indices(len);
    if idx.contains(k) {
        let j = choose|j: int| 0 <= j < idx.len() && idx[j] == k;
        lemma_below_count(len, j);
        lemma_mod_multiples_basic(j, s);
        assert(0 <= j * s) by (nonlinear_arith)
            requires
                0 <= j,
                s >= 1,
        ;
    }
    if 0 <= k < len && k % s == 0 {
        lemma_fundamental_div_mod(k, s);
        let j = k / s;
        assert(k == j * s) by (nonlinear_arith)
            requires
                k == s * (k / s) + k % s,
                k % s == 0,
                j == k / s,
        ;
        assert(0 <= j) by (nonlinear_arith)
            requires
                0 <= k,
                s >= 1,
                j == k / s,
        ;
        lemma_below_count(len, j);
        assert(idx[j] == k);
    }
}

/// Keeps every `step`-th observation, starting with the first, in order;
/// `step` is `sample_step(items.len())`.
pub fn sample<T: Copy>(items: &Vec<T>) -> (r: Vec<T>)
    ensures
        r@ == sampled(items@),
{
    let n = items.len();
    let step = sample_step(n);
    let ghost count = sample_count(n as nat);
    let mut out: Vec<T> = Vec::new();
    let mut i: usize = 0;
    proof {
        lemma_below_count(n as nat, 0);
        assert(out@.len() * step == 0);
    }
    while i < n
        invariant
            n == items@.len(),
            step as nat == step_for(n as nat),
            count == sample_count(n as nat),
            i <= n,
            i < n ==> i as int == out@.len() * step,
            i < n ==> out@.len() < count,
            i >= n ==> out@.len() == count,
            forall|j: int|
                0 <= j < out@.len() ==> #[trigger] out@[j] == items@[j * (step as int)],
        decreases n - i,
    {
        proof {
            lemma_step_positive(n as nat);
        }
        let ghost k = out@.len() as int;
        out.push(items[i]);
        if n - i <= step {
            proof {
                lemma_below_count(n as nat, k + 1);
                assert((k + 1) * step == k * step + step) by (nonlinear_arith);
            }
            i = n;
        } else {
            i = i + step;
            proof {
                assert((k + 1) * step == k * step + step) by (nonlinear_arith);
                lemma_below_count(n as nat, k + 1);
            }
        }
    }
    assert(out@ =~= sampled(items@));
    out
}

/// The stride covers the whole trajectory within `SENSITIVITY` strides, so at
/// most `SENSITIVITY` observations are kept.
pub proof fn lemma_count_bounded(len: nat)
    ensures
        sample_count(len) <= SENSITIVITY,
{
    let x = len + SENSITIVITY - 1;
    lemma_fundamental_div_mod(x as int, SENSITIVITY as int);
    assert(step_for(len) * SENSITIVITY >= len);
    lemma_below_count(len, SENSITIVITY as int);
}

/// With no more than `SENSITIVITY` observations the stride is 1 and every
/// observation is kept.
pub proof fn lemma_sample_short_is_identity<T>(s: Seq<T>)
    requires
        s.len() <= SENSITIVITY,
    ensures
        sampled(s) == s,
{
    assert(step_for(s.len()) == 1);
    assert(sample_count(s.len()) == s.len());
    assert(sampled(s) =~= s);
}

/// With more than `SENSITIVITY` observations some are left out, so the sampler
/// changes the sequence.
pub proof fn lemma_sample_long_drops<T>(s: Seq<T>)
    requires
        s.len() > SENSITIVITY,
    ensures
        sampled(s).len() < s.len(),
        sampled(s) != s,
{
    lemma_count_bounded(s.len());
}

/// Sampling an already sampled sequence again keeps it as it is.
pub proof fn lemma_sample_idempotent<T>(s: Seq<T>)
    ensures
        sampled(sampled(s)) == sampled(s),
{
    lemma_count_bounded(s.len());
    lemma_sample_short_is_identity(sampled(s));
}

} // verus!
