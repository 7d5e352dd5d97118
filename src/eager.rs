//! The two backends that compute at once: one on plain integers, one on
//! heap-allocated integers.
use crate::arith::{add_wrapping, pow_wrapped, pow_wrapping, wrap64};
use crate::lang::{Core, DomainError, Extended};
use vstd::prelude::*;

verus! {

/// Computes each operation immediately on an `i64`.
pub struct EagerEvaluator;

/// Computes like `EagerEvaluator`, with every value in its own `Box`.
pub struct IndirectEvaluator;

impl Core for EagerEvaluator {
    type Repr = i64;

    type Model = int;

    open spec fn model(r: &i64) -> int {
        *r as int
    }

    open spec fn lit_model(v: i64) -> int {
        v as int
    }

    open spec fn add_model(l: int, r: int) -> int {
        wrap64(l + r)
    }

    fn lit(v: i64) -> (r: i64) {
        v
    }

    fn add(l: i64, r: i64) -> (s: i64) {
        add_wrapping(l, r)
    }
}

impl Extended for EagerEvaluator {
    open spec fn pow_defined(n: int, p: int) -> bool {
        p >= 0
    }

    open spec fn pow_model(n: int, p: int) -> int {
        pow_wrapped(n, p as nat)
    }

    fn pow(n: i64, p: i64) -> (r: Result<i64, DomainError>) {
        if p < 0 {
            Err(DomainError::NegativeExponent)
        } else {
            Ok(pow_wrapping(n, p as u64))
        }
    }
}

impl Core for IndirectEvaluator {
    type Repr = Box<i64>;

    type Model = int;

    open spec fn model(r: &Box<i64>) -> int {
        **r as int
    }

    open spec fn lit_model(v: i64) -> int {
        v as int
    }

    open spec fn add_model(l: int, r: int) -> int {
        wrap64(l + r)
    }

    fn lit(v: i64) -> (r: Box<i64>) {
        Box::new(v)
    }

    fn add(l: Box<i64>, r: Box<i64>) -> (s: Box<i64>) {
        Box::new(add_wrapping(*l, *r))
    }
}

impl Extended for IndirectEvaluator {
    open spec fn pow_defined(n: int, p: int) -> bool {
        p >= 0
    }

    open spec fn pow_model(n: int, p: int) -> int {
        pow_wrapped(n, p as nat)
    }

    fn pow(n: Box<i64>, p: Box<i64>) -> (r: Result<Box<i64>, DomainError>) {
        if *p < 0 {
            Err(DomainError::NegativeExponent)
        } else {
            Ok(Box::new(pow_wrapping(*n, *p as u64)))
        }
    }
}

} // verus!
