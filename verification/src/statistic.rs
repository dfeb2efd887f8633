//! Which sample sizes give a statistic a value.
//!
//! A mean divides by the number of observations `N`, a biased variance by
//! `N` again, an unbiased variance by `N − 1` as well. Where a divisor is
//! zero the statistic is undefined, and an estimator reports that by
//! returning a NaN instead of dividing.
use vstd::prelude::*;

verus! {

/// A statistic of a finite sample.
#[derive(Clone, Copy, Debug, PartialEq, Eq, Structural)]
pub enum Statistic {
    /// The arithmetic mean, `Σx / N`.
    Mean,
    /// The population variance, `(Σx² − (Σx)²/N) / N`.
    BiasedVariance,
    /// The sample variance with Bessel's correction,
    /// `(Σx² − (Σx)²/N) / (N − 1)`.
    UnbiasedVariance,
}

impl Statistic {
    /// The product of everything the statistic divides by on `n`
    /// observations, once its formula is brought over one denominator.
    pub open spec fn divisor(self, n: nat) -> int {
        match self {
            Statistic::Mean => n as int,
            Statistic::BiasedVariance => (n * n) as int,
            Statistic::UnbiasedVariance => n * (n - 1),
        }
    }

    /// The least number of observations on which the statistic has a value.
    pub open spec fn least(self) -> nat {
        match self {
            Statistic::Mean => 1,
            Statistic::BiasedVariance => 1,
            Statistic::UnbiasedVariance => 2,
        }
    }

    /// Whether the statistic has a value on `n` observations.
    pub open spec fn defined_on(self, n: nat) -> bool {
        n >= self.least()
    }

    /// Decides whether the statistic has a value on a sample of `n`
    /// observations. Where it has none, the estimator's result is NaN.
    pub fn is_defined(self, n: usize) -> (b: bool)
        ensures
            b == self.defined_on(n as nat),
    {
        match self {
            Statistic::Mean => n >= 1,
            Statistic::BiasedVariance => n >= 1,
            Statistic::UnbiasedVariance => n >= 2,
        }
    }

    /// A statistic has a value exactly where its divisor is not zero.
    pub proof fn lemma_defined_iff_divisor_nonzero(self, n: nat)
        ensures
            self.defined_on(n) <==> self.divisor(n) != 0,
    {
        assert(n >= 1 <==> n * n != 0) by (nonlinear_arith);
        assert(n >= 2 <==> n * (n - 1) != 0) by (nonlinear_arith);
    }

    /// On the empty sample no statistic has a value. On a single
    /// observation the mean and the biased variance have one and the
    /// unbiased variance has none. From two observations on all have one.
    pub proof fn lemma_degenerate_sizes(self, n: nat)
        ensures
            n == 0 ==> !self.defined_on(n),
            n == 1 ==> (self.defined_on(n) <==> self != Statistic::UnbiasedVariance),
            n >= 2 ==> self.defined_on(n),
    {
    }

    /// A statistic that has a value on `n` observations has one on any
    /// larger sample.
    pub proof fn lemma_defined_upward(self, n: nat, m: nat)
        requires
            self.defined_on(n),
            n <= m,
        ensures
            self.defined_on(m),
    {
    }
}

} // verus!
