//! Prior means whose output is exact on bit patterns.
//!
//! A prior maps the training inputs to the value returned in the absence of
//! further information.  The two priors here do not read the inputs' values,
//! only how many rows there are, so their output is stated exactly over
//! double-precision bit patterns: the zero prior answers one zero per row,
//! the constant prior answers its constant per row.  Priors that compute on
//! the inputs (a linear fit, say) are floating-point work and live with the
//! unverified caller.

use vstd::prelude::*;
use crate::optimizer::ZERO_BITS;

verus! {

/// The Zero prior: the prior value of every input is zero.
#[derive(Clone, Copy, Debug)]
pub struct Zero {}

impl Zero {
    /// The default zero prior; the input dimension does not matter to it.
    pub fn default_prior(_input_dimension: usize) -> Zero {
        Zero {  }
    }

    /// One zero for each of `nrows` input rows, as double bits (the bit
    /// pattern of 0.0 is 0).
    pub fn prior(&self, nrows: usize) -> (r: Vec<u64>)
        ensures
            r@.len() == nrows,
            forall|i: int| 0 <= i < nrows ==> r@[i] == ZERO_BITS,
    {
        let mut r: Vec<u64> = Vec::new();
        let mut i: usize = 0;
        while i < nrows
            invariant
                i <= nrows,
                r@.len() == i,
                forall|k: int| 0 <= k < i ==> r@[k] == ZERO_BITS,
            decreases nrows - i,
        {
            r.push(ZERO_BITS);
            i += 1;
        }
        r
    }
}

/// The Constant prior: the prior value of every input is one constant,
/// carried as a double-precision bit pattern.
#[derive(Clone, Copy, Debug)]
pub struct Constant {
    c: u64,
}

impl Constant {
    /// The constant, as double bits.
    pub closed spec fn value(&self) -> u64 {
        self.c
    }

    /// Constructs a new constant prior.
    pub fn new(c: u64) -> (r: Constant)
        ensures
            r.value() == c,
    {
        Constant { c }
    }

    /// The default constant prior: constant zero, whatever the input
    /// dimension.
    pub fn default_prior(_input_dimension: usize) -> (r: Constant)
        ensures
            r.value() == ZERO_BITS,
    {
        Constant { c: ZERO_BITS }
    }

    /// The constant once for each of `nrows` input rows.
    pub fn prior(&self, nrows: usize) -> (r: Vec<u64>)
        ensures
            r@.len() == nrows,
            forall|i: int| 0 <= i < nrows ==> r@[i] == self.value(),
    {
        let mut r: Vec<u64> = Vec::new();
        let mut i: usize = 0;
        while i < nrows
            invariant
                i <= nrows,
                r@.len() == i,
                forall|k: int| 0 <= k < i ==> r@[k] == self.value(),
            decreases nrows - i,
        {
            r.push(self.c);
            i += 1;
        }
        r
    }

    /// Replaces the constant; fitting the prior to training outputs sets it
    /// to their mean, which the caller computes.
    pub fn set_value(&mut self, c: u64)
        ensures
            final(self).value() == c,
    {
        self.c = c;
    }
}

} // verus!
