use vstd::prelude::*;

verus! {

/// Number of fractional bits in a scaled linear cost coefficient.
pub const COST_MODEL_LIN_TERM_SCALE_BITS: u32 = 7;

/// `a + b`, capped at `u64::MAX`.
pub open spec fn sat_add(a: u64, b: u64) -> u64 {
    if a + b > u64::MAX {
        u64::MAX
    } else {
        (a + b) as u64
    }
}

/// `a * b`, capped at `u64::MAX`.
pub open spec fn sat_mul(a: u64, b: u64) -> u64 {
    if a * b > u64::MAX {
        u64::MAX
    } else {
        (a * b) as u64
    }
}

pub fn saturating_mul(a: u64, b: u64) -> (r: u64)
    ensures
        r == sat_mul(a, b),
{
    if a == 0 {
        assert(a * b == 0);
        0
    } else if b > u64::MAX / a {
        assert(a * b > u64::MAX) by (nonlinear_arith)
            requires
                a > 0,
                b > u64::MAX / a,
        ;
        u64::MAX
    } else {
        assert(a * b <= u64::MAX) by (nonlinear_arith)
            requires
                a > 0,
                b <= u64::MAX / a,
        ;
        a * b
    }
}

/// A non-negative fixed-point number with `COST_MODEL_LIN_TERM_SCALE_BITS`
/// fractional bits, so that cost evaluation never involves floating point.
#[derive(Clone, Copy, Debug, PartialEq, Eq, Structural)]
pub struct ScaledU64(pub u64);

impl ScaledU64 {
    /// The integer part of the fixed-point value.
    pub open spec fn unscaled(self) -> u64 {
        self.0 / 128
    }

    pub fn unscale(self) -> (r: u64)
        ensures
            r == self.unscaled(),
    {
        let x = self.0;
        assert(x >> 7u64 == x / 128) by (bit_vector);
        x >> COST_MODEL_LIN_TERM_SCALE_BITS
    }

    pub fn from_unscaled_u64(u: u64) -> (r: ScaledU64)
        ensures
            r.0 == sat_mul(u, 128),
    {
        ScaledU64(saturating_mul(u, 128))
    }

    pub fn is_zero(self) -> (r: bool)
        ensures
            r == (self.0 == 0),
    {
        self.0 == 0
    }

    pub fn saturating_mul(self, rhs: u64) -> (r: ScaledU64)
        ensures
            r.0 == sat_mul(self.0, rhs),
    {
        ScaledU64(saturating_mul(self.0, rhs))
    }
}

/// A linear cost function of an input size: a constant term plus a scaled
/// linear term.
#[derive(Clone, Copy, Debug, PartialEq, Eq, Structural)]
pub struct CostModel {
    pub const_term: u64,
    pub lin_term: ScaledU64,
}

impl CostModel {
    /// The model that charges nothing.
    pub open spec fn zero_spec() -> CostModel {
        CostModel { const_term: 0, lin_term: ScaledU64(0) }
    }

    pub fn zero() -> (r: CostModel)
        ensures
            r == CostModel::zero_spec(),
    {
        CostModel { const_term: 0, lin_term: ScaledU64(0) }
    }

    /// `const_term + lin_term * input`, every step saturating, the product
    /// truncated to its integer part.
    pub open spec fn cost(self, input: u64) -> u64 {
        sat_add(self.const_term, ScaledU64(sat_mul(self.lin_term.0, input)).unscaled())
    }

    pub fn evaluate(&self, input: u64) -> (r: u64)
        ensures
            r == self.cost(input),
    {
        let mut res = self.const_term;
        if !self.lin_term.is_zero() {
            let lin_cost = self.lin_term.saturating_mul(input).unscale();
            res = res.saturating_add(lin_cost);
        }
        res
    }
}

} // verus!
