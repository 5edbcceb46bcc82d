//! The Saha–Sinha series for π over double-precision bit patterns.

use vstd::prelude::*;

use crate::float_bits::{
    below_threshold, is_infinite_bits, is_nan_bits, spec_below_threshold, spec_is_infinite,
    spec_is_nan, spec_valid_eps,
};

verus! {

/// Bit pattern of the double 0.0.
pub const ZERO_BITS: u64 = 0x0000_0000_0000_0000;

/// Bit pattern of the double 1.0.
pub const ONE_BITS: u64 = 0x3FF0_0000_0000_0000;

/// Bit pattern of the double 2.0.
pub const TWO_BITS: u64 = 0x4000_0000_0000_0000;

/// Bit pattern of the double 4.0.
pub const FOUR_BITS: u64 = 0x4010_0000_0000_0000;

/// The primitive double-precision operations, on bit patterns.
///
/// Each executable method is pinned to a specification member of the same
/// trait, so within one implementation every operation is a function of
/// its arguments, and everything the library computes is provably a fold
/// of these members over its inputs. Which values the members denote is
/// the implementation's affair: the library's contracts and laws hold for
/// any implementation. One that interprets each `u64` as the double it
/// encodes and applies the corresponding IEEE 754 operation makes the
/// evaluator compute the series itself.
///
/// The specification members carry default bodies only so that ordinary
/// Rust implementations outside `verus!` need not mention them; the
/// default value is never relied on, since every proof here is generic
/// over the implementation.
pub trait FloatOps {
    /// The bit pattern this implementation's addition yields for `x` and `y`.
    open spec fn spec_fadd(&self, x: u64, y: u64) -> u64 {
        0
    }

    /// The bit pattern this implementation's subtraction yields for `x` and `y`.
    open spec fn spec_fsub(&self, x: u64, y: u64) -> u64 {
        0
    }

    /// The bit pattern this implementation's multiplication yields for `x` and `y`.
    open spec fn spec_fmul(&self, x: u64, y: u64) -> u64 {
        0
    }

    /// The bit pattern this implementation's division yields for `x` and `y`.
    open spec fn spec_fdiv(&self, x: u64, y: u64) -> u64 {
        0
    }

    /// The bit pattern this implementation's integer power yields for `x` and `k`.
    open spec fn spec_powi(&self, x: u64, k: i32) -> u64 {
        0
    }

    /// The bit pattern this implementation's conversion yields for `n`.
    open spec fn spec_from_u32(&self, n: u32) -> u64 {
        0
    }

    /// The sum of the doubles encoded by `x` and `y`, as a bit pattern.
    fn fadd(&self, x: u64, y: u64) -> (r: u64)
        ensures
            r == self.spec_fadd(x, y),
    ;

    /// The difference of the doubles encoded by `x` and `y`, as a bit pattern.
    fn fsub(&self, x: u64, y: u64) -> (r: u64)
        ensures
            r == self.spec_fsub(x, y),
    ;

    /// The product of the doubles encoded by `x` and `y`, as a bit pattern.
    fn fmul(&self, x: u64, y: u64) -> (r: u64)
        ensures
            r == self.spec_fmul(x, y),
    ;

    /// The quotient of the doubles encoded by `x` and `y`, as a bit pattern.
    fn fdiv(&self, x: u64, y: u64) -> (r: u64)
        ensures
            r == self.spec_fdiv(x, y),
    ;

    /// The double encoded by `x` raised to the integer power `k`, as a bit
    /// pattern.
    fn powi(&self, x: u64, k: i32) -> (r: u64)
        ensures
            r == self.spec_powi(x, k),
    ;

    /// The double nearest to the integer `n`, as a bit pattern.
    fn from_u32(&self, n: u32) -> (r: u64)
        ensures
            r == self.spec_from_u32(n),
    ;
}

/// Summation stops after a term that is not finite (NaN or infinite) or
/// whose magnitude lies strictly below the threshold.
pub open spec fn spec_should_stop(term: u64, eps: u64) -> bool {
    spec_is_nan(term) || spec_is_infinite(term) || spec_below_threshold(term, eps)
}

/// Decides whether summation stops after this term: the term is not finite,
/// or its magnitude lies strictly below the threshold.
pub fn should_stop(term: u64, eps: u64) -> (r: bool)
    ensures
        r == spec_should_stop(term, eps),
{
    is_nan_bits(term) || is_infinite_bits(term) || below_threshold(term, eps)
}

/// The factorial n! as `ops` computes it: the left-to-right product that
/// starts from the bit pattern of 1.0 and multiplies in the doubles for
/// 1, 2, ..., n. The empty product, for n = 0, is exactly the bit pattern
/// of 1.0, and each further factorial extends the previous one by one
/// multiplication.
pub open spec fn spec_factorial<F: FloatOps>(ops: &F, n: nat) -> u64
    decreases n,
{
    if n == 0 {
        ONE_BITS
    } else {
        ops.spec_fmul(spec_factorial(ops, (n - 1) as nat), ops.spec_from_u32(n as u32))
    }
}

/// Computes [`spec_factorial`]: the factorial n! as a double, built by
/// multiplying the bit pattern of 1.0 by the doubles for 1, 2, ..., n in
/// turn.
pub fn factorial_with<F: FloatOps>(ops: &F, n: u32) -> (r: u64)
    ensures
        r == spec_factorial(ops, n as nat),
        n == 0 ==> r == ONE_BITS,
{
    let mut acc: u64 = ONE_BITS;
    let mut i: u32 = 0;
    while i < n
        invariant
            i <= n,
            acc == spec_factorial(ops, i as nat),
        decreases n - i,
    {
        acc = ops.fmul(acc, ops.from_u32(i + 1));
        i = i + 1;
    }
    acc
}

/// The rising factorial (a)_m = a · (a+1) · ... · (a+m−1) as `ops`
/// computes it: the left-to-right product that starts from the bit
/// pattern of 1.0 and multiplies in a + k for k = 0, ..., m−1. The empty
/// product, for m = 0, is exactly the bit pattern of 1.0, and each
/// further count extends the previous product by one factor.
pub open spec fn spec_pochhammer<F: FloatOps>(ops: &F, a_bits: u64, m: nat) -> u64
    decreases m,
{
    if m == 0 {
        ONE_BITS
    } else {
        ops.spec_fmul(
            spec_pochhammer(ops, a_bits, (m - 1) as nat),
            ops.spec_fadd(a_bits, ops.spec_from_u32((m - 1) as u32)),
        )
    }
}

/// Computes [`spec_pochhammer`]: the rising factorial (a)_m as a double,
/// built by multiplying the bit pattern of 1.0 by the doubles for a + k,
/// k = 0, ..., m−1, in turn.
pub fn pochhammer_with<F: FloatOps>(ops: &F, a_bits: u64, m: u32) -> (r: u64)
    ensures
        r == spec_pochhammer(ops, a_bits, m as nat),
        m == 0 ==> r == ONE_BITS,
{
    let mut acc: u64 = ONE_BITS;
    let mut i: u32 = 0;
    while i < m
        invariant
            i <= m,
            acc == spec_pochhammer(ops, a_bits, i as nat),
        decreases m - i,
    {
        acc = ops.fmul(acc, ops.fadd(a_bits, ops.from_u32(i)));
        i = i + 1;
    }
    acc
}

/// The n-th term of the series, for n ≥ 1, as `ops` computes it:
///
///   term(n) = (1 / n!) · a(n) · (b(n))_{n−1}
///
/// with a(n) = 1/(n+λ) − 4/(2n+1) and b(n) = (2n+1)² / (4(n+λ)) − n,
/// each operation applied in the order the operational steps below use.
pub open spec fn spec_series_term<F: FloatOps>(ops: &F, lambda_bits: u64, n: u32) -> u64 {
    let nf = ops.spec_from_u32(n);
    let n_plus_lambda = ops.spec_fadd(nf, lambda_bits);
    let two_n_plus_one = ops.spec_fadd(ops.spec_fmul(TWO_BITS, nf), ONE_BITS);
    let a = ops.spec_fsub(
        ops.spec_fdiv(ONE_BITS, n_plus_lambda),
        ops.spec_fdiv(FOUR_BITS, two_n_plus_one),
    );
    let b = ops.spec_fsub(
        ops.spec_fdiv(ops.spec_powi(two_n_plus_one, 2), ops.spec_fmul(FOUR_BITS, n_plus_lambda)),
        nf,
    );
    ops.spec_fmul(
        ops.spec_fmul(ops.spec_fdiv(ONE_BITS, spec_factorial(ops, n as nat)), a),
        spec_pochhammer(ops, b, (n - 1) as nat),
    )
}

/// Computes [`spec_series_term`], the n-th term of the series, for n ≥ 1.
/// The lower bound on `n` keeps the rising-factorial count n − 1 a
/// well-defined non-negative integer.
pub fn series_term<F: FloatOps>(ops: &F, lambda_bits: u64, n: u32) -> (r: u64)
    requires
        n >= 1,
    ensures
        r == spec_series_term(ops, lambda_bits, n),
{
    let nf: u64 = ops.from_u32(n);
    let n_plus_lambda: u64 = ops.fadd(nf, lambda_bits);
    let two_n_plus_one: u64 = ops.fadd(ops.fmul(TWO_BITS, nf), ONE_BITS);
    let a: u64 = ops.fsub(
        ops.fdiv(ONE_BITS, n_plus_lambda),
        ops.fdiv(FOUR_BITS, two_n_plus_one),
    );
    let b: u64 = ops.fsub(
        ops.fdiv(ops.powi(two_n_plus_one, 2), ops.fmul(FOUR_BITS, n_plus_lambda)),
        nf,
    );
    let poch: u64 = pochhammer_with(ops, b, n - 1);
    ops.fmul(ops.fmul(ops.fdiv(ONE_BITS, factorial_with(ops, n)), a), poch)
}

/// The accumulator after the first `k` terms: the left-to-right sum that
/// starts from the bit pattern of 0.0 and adds term(1), ..., term(k) in
/// increasing order, each addition performed by `ops`.
pub open spec fn spec_sum_prefix<F: FloatOps>(ops: &F, lambda_bits: u64, k: nat) -> u64
    decreases k,
{
    if k == 0 {
        ZERO_BITS
    } else {
        ops.spec_fadd(
            spec_sum_prefix(ops, lambda_bits, (k - 1) as nat),
            spec_series_term(ops, lambda_bits, k as u32),
        )
    }
}

/// The terms an evaluation with bound `max_terms` and threshold `eps`
/// consumes, in order. Exactly one prefix of any given term sequence
/// satisfies this predicate:
/// - no term before the last one triggers the stopping rule (otherwise
///   summation would have ended earlier);
/// - a run cut short of the bound ends on a term that triggers it;
/// - the run is empty exactly when the bound is zero, since with a positive
///   bound at least one term is always summed.
pub open spec fn spec_valid_trace(terms: Seq<u64>, max_terms: nat, eps: u64) -> bool {
    &&& terms.len() <= max_terms
    &&& (forall|j: int| 0 <= j && j + 1 < terms.len() ==> !spec_should_stop(terms[j], eps))
    &&& (terms.len() < max_terms && terms.len() > 0 ==> spec_should_stop(terms.last(), eps))
    &&& ((terms.len() == 0) <==> (max_terms == 0))
}

/// Evaluates the series: sums term(1), term(2), ... until `max_terms`
/// terms have been summed or a term triggers the stopping rule, whichever
/// comes first, and returns `(4 + sum, terms_used, trace)` where the first
/// component is the accumulated approximation of π as a bit pattern, the
/// second the count of terms actually summed, and the third the (ghost)
/// sequence of the summed terms' bit patterns.
///
/// The whole result is pinned. Each trace entry is the series term of its
/// index, so the trace — and with it `terms_used`, through
/// [`spec_valid_trace`] — is determined by `ops`, λ, the bound and the
/// threshold: `terms_used` never exceeds `max_terms`, equals it only if no
/// earlier term triggered the stopping rule, and is zero exactly when
/// `max_terms` is zero. The approximation is exactly the bit pattern of
/// 4.0 when nothing was summed, and otherwise 4 plus the left-folded sum
/// of the consumed terms — including a final non-finite term, which is
/// added before the stopping check and silently truncates the run.
pub fn evaluate<F: FloatOps>(
    ops: &F,
    lambda_bits: u64,
    max_terms: u32,
    eps_bits: u64,
) -> (r: (u64, u32, Ghost<Seq<u64>>))
    ensures
        r.2@.len() == r.1 as nat,
        spec_valid_trace(r.2@, max_terms as nat, eps_bits),
        forall|j: int|
            0 <= j && j < r.1 as int ==> r.2@[j] == spec_series_term(
                ops,
                lambda_bits,
                (j + 1) as u32,
            ),
        r.1 > 0 ==> r.0 == ops.spec_fadd(
            FOUR_BITS,
            spec_sum_prefix(ops, lambda_bits, r.1 as nat),
        ),
        r.1 == 0 ==> r.0 == FOUR_BITS,
        r.1 <= max_terms,
        (r.1 == 0) <==> (max_terms == 0),
{
    let mut sum: u64 = ZERO_BITS;
    let mut used: u32 = 0;
    let mut stopped = false;
    let mut i: u32 = 0;
    let ghost mut trace: Seq<u64> = Seq::empty();

    while i < max_terms && !stopped
        invariant
            i <= max_terms,
            used == i,
            sum == spec_sum_prefix(ops, lambda_bits, i as nat),
            trace.len() == i as nat,
            forall|j: int|
                0 <= j && j < i as int ==> trace[j] == spec_series_term(
                    ops,
                    lambda_bits,
                    (j + 1) as u32,
                ),
            forall|j: int| 0 <= j && j + 1 < i as int ==> !spec_should_stop(trace[j], eps_bits),
            i > 0 ==> stopped == spec_should_stop(trace[i as int - 1], eps_bits),
            i == 0 ==> !stopped,
        decreases max_terms - i,
    {
        let n: u32 = i + 1;
        let term: u64 = series_term(ops, lambda_bits, n);
        sum = ops.fadd(sum, term);
        used = n;
        proof {
            trace = trace.push(term);
        }
        stopped = should_stop(term, eps_bits);
        i = n;
    }

    if used == 0 {
        // 4 plus an accumulator that stayed at 0.0 is exactly 4.0.
        (FOUR_BITS, used, Ghost(trace))
    } else {
        (ops.fadd(FOUR_BITS, sum), used, Ghost(trace))
    }
}

/// Loosening the threshold can only make stopping easier: a term that
/// stops summation under the threshold `tight` also stops it under any
/// usable threshold `loose` whose bit pattern is at least as large —
/// which, for non-negative doubles, means a value at least as large.
pub proof fn lemma_stop_monotone(term: u64, tight: u64, loose: u64)
    requires
        spec_valid_eps(tight),
        spec_valid_eps(loose),
        tight <= loose,
        spec_should_stop(term, tight),
    ensures
        spec_should_stop(term, loose),
{
}

/// When every term that stops a run under `ea` also stops one under `eb`,
/// a run under `eb` drawing its terms from the same sequence consumes at
/// most as many terms as a run under `ea`.
proof fn lemma_trace_prefix_bound(a: Seq<u64>, b: Seq<u64>, max_terms: nat, ea: u64, eb: u64)
    requires
        forall|t: u64| spec_should_stop(t, ea) ==> spec_should_stop(t, eb),
        spec_valid_trace(a, max_terms, ea),
        spec_valid_trace(b, max_terms, eb),
        forall|j: int| 0 <= j && j < a.len() && j < b.len() ==> a[j] == b[j],
    ensures
        b.len() <= a.len(),
{
    if b.len() > a.len() {
        if a.len() == 0 {
            assert(max_terms == 0);
        } else {
            let last: int = a.len() - 1;
            assert(spec_should_stop(a[last], ea));
            assert(spec_should_stop(b[last], eb));
            assert(!spec_should_stop(b[last], eb));
        }
    }
}

/// Tightening the threshold cannot reduce the number of terms summed:
/// if two evaluations with the same bound draw their terms from the same
/// sequence — so that the shorter trace is a prefix of the longer — and
/// one uses a threshold at least as large as the other's, then the run
/// with the larger (looser) threshold consumes at most as many terms as
/// the run with the smaller (tighter) one.
pub proof fn lemma_terms_used_monotone(
    tight_trace: Seq<u64>,
    loose_trace: Seq<u64>,
    max_terms: nat,
    tight: u64,
    loose: u64,
)
    requires
        spec_valid_eps(tight),
        spec_valid_eps(loose),
        tight <= loose,
        spec_valid_trace(tight_trace, max_terms, tight),
        spec_valid_trace(loose_trace, max_terms, loose),
        forall|j: int|
            0 <= j && j < tight_trace.len() && j < loose_trace.len()
                ==> tight_trace[j] == loose_trace[j],
    ensures
        loose_trace.len() <= tight_trace.len(),
{
    assert forall|t: u64| spec_should_stop(t, tight) implies spec_should_stop(t, loose) by {
        lemma_stop_monotone(t, tight, loose);
    }
    lemma_trace_prefix_bound(tight_trace, loose_trace, max_terms, tight, loose);
}

/// The term accounting is a function of the terms alone: two evaluations
/// with the same bound and the same threshold that draw their terms from
/// the same sequence consume exactly the same terms, whatever the
/// threshold's bit pattern.
pub proof fn lemma_trace_deterministic(
    first: Seq<u64>,
    second: Seq<u64>,
    max_terms: nat,
    eps: u64,
)
    requires
        spec_valid_trace(first, max_terms, eps),
        spec_valid_trace(second, max_terms, eps),
        forall|j: int|
            0 <= j && j < first.len() && j < second.len() ==> first[j] == second[j],
    ensures
        first == second,
{
    lemma_trace_prefix_bound(first, second, max_terms, eps, eps);
    lemma_trace_prefix_bound(second, first, max_terms, eps, eps);
    assert(first =~= second);
}

/// Tightening the threshold cannot reduce the number of terms summed, for
/// the evaluator's own runs: the premises on each trace are exactly what
/// [`evaluate`] ensures of a run over `ops` with λ `lambda_bits`, bound
/// `max_terms` and the respective threshold, so for any two such runs the
/// one with the looser (larger) threshold consumes at most as many terms.
pub proof fn lemma_threshold_monotone_runs<F: FloatOps>(
    ops: &F,
    lambda_bits: u64,
    max_terms: nat,
    tight: u64,
    loose: u64,
    tight_trace: Seq<u64>,
    loose_trace: Seq<u64>,
)
    requires
        spec_valid_eps(tight),
        spec_valid_eps(loose),
        tight <= loose,
        spec_valid_trace(tight_trace, max_terms, tight),
        spec_valid_trace(loose_trace, max_terms, loose),
        forall|j: int|
            0 <= j && j < tight_trace.len() ==> tight_trace[j] == spec_series_term(
                ops,
                lambda_bits,
                (j + 1) as u32,
            ),
        forall|j: int|
            0 <= j && j < loose_trace.len() ==> loose_trace[j] == spec_series_term(
                ops,
                lambda_bits,
                (j + 1) as u32,
            ),
    ensures
        loose_trace.len() <= tight_trace.len(),
{
    lemma_terms_used_monotone(tight_trace, loose_trace, max_terms, tight, loose);
}

/// The evaluator is deterministic: two runs over the same operations with
/// identical λ, bound and threshold return bit-identical approximations
/// and identical traces. The premises on each (approximation, trace) pair
/// are exactly what [`evaluate`] ensures of a run, so the result of a run
/// is a function of its inputs, for any threshold bit pattern.
pub proof fn lemma_evaluation_deterministic<F: FloatOps>(
    ops: &F,
    lambda_bits: u64,
    max_terms: nat,
    eps: u64,
    first_approx: u64,
    first_trace: Seq<u64>,
    second_approx: u64,
    second_trace: Seq<u64>,
)
    requires
        spec_valid_trace(first_trace, max_terms, eps),
        spec_valid_trace(second_trace, max_terms, eps),
        forall|j: int|
            0 <= j && j < first_trace.len() ==> first_trace[j] == spec_series_term(
                ops,
                lambda_bits,
                (j + 1) as u32,
            ),
        forall|j: int|
            0 <= j && j < second_trace.len() ==> second_trace[j] == spec_series_term(
                ops,
                lambda_bits,
                (j + 1) as u32,
            ),
        first_trace.len() > 0 ==> first_approx == ops.spec_fadd(
            FOUR_BITS,
            spec_sum_prefix(ops, lambda_bits, first_trace.len()),
        ),
        first_trace.len() == 0 ==> first_approx == FOUR_BITS,
        second_trace.len() > 0 ==> second_approx == ops.spec_fadd(
            FOUR_BITS,
            spec_sum_prefix(ops, lambda_bits, second_trace.len()),
        ),
        second_trace.len() == 0 ==> second_approx == FOUR_BITS,
    ensures
        first_trace == second_trace,
        first_approx == second_approx,
{
    lemma_trace_deterministic(first_trace, second_trace, max_terms, eps);
}

} // verus!
