//! Approximation of π by a convergent series (Saha–Sinha form).
//!
//! Every floating-point value is represented here by its IEEE 754
//! double-precision bit pattern, carried as a `u64`. The library owns the
//! whole structure of the computation — the term formula, the factorial
//! and rising-factorial products, the summation, and the early-stopping
//! rules — and proves that every returned value is exactly the fold of
//! the primitive arithmetic over the inputs, that the term accounting
//! follows the stopping rules, and that the whole evaluation is a
//! function of its inputs. The primitive arithmetic on bit patterns is
//! supplied by the caller through the [`series::FloatOps`] trait, whose
//! behaviour enters the proofs only through the trait's own specification
//! members: the contracts and laws hold for any implementation.

pub mod float_bits;
pub mod series;
