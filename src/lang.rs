//! The two capability groups that a backend implements, and the one program
//! written against them.
use vstd::prelude::*;

verus! {

/// The single failure of the arithmetic backends: an exponent below zero.
#[derive(Clone, Copy, Debug, PartialEq, Eq, Structural)]
pub enum DomainError {
    NegativeExponent,
}

/// Literals and addition over a backend's chosen representation.
///
/// `Model` is the mathematical value that a representation stands for, and the
/// `*_model` functions give the meaning of each operation on models.
pub trait Core {
    type Repr;

    type Model;

    spec fn model(r: &Self::Repr) -> Self::Model;

    spec fn lit_model(v: i64) -> Self::Model;

    spec fn add_model(l: Self::Model, r: Self::Model) -> Self::Model;

    fn lit(v: i64) -> (r: Self::Repr)
        ensures
            Self::model(&r) == Self::lit_model(v),
    ;

    fn add(l: Self::Repr, r: Self::Repr) -> (s: Self::Repr)
        ensures
            Self::model(&s) == Self::add_model(Self::model(&l), Self::model(&r)),
    ;
}

/// Exponentiation over the same representation as `Core`.
pub trait Extended: Core {
    /// Whether the power can be formed at all (it cannot for a negative exponent
    /// on a backend that computes at once).
    spec fn pow_defined(n: Self::Model, p: Self::Model) -> bool;

    spec fn pow_model(n: Self::Model, p: Self::Model) -> Self::Model;

    fn pow(n: Self::Repr, p: Self::Repr) -> (r: Result<Self::Repr, DomainError>)
        ensures
            match r {
                Ok(v) => Self::pow_defined(Self::model(&n), Self::model(&p)) && Self::model(&v)
                    == Self::pow_model(Self::model(&n), Self::model(&p)),
                Err(e) => !Self::pow_defined(Self::model(&n), Self::model(&p)) && e
                    == DomainError::NegativeExponent,
            },
    ;
}

/// What `from` does to a value: nothing.
pub open spec fn bridged<L: Extended>(x: L::Repr) -> L::Repr {
    x
}

/// Moves a value between the two capability groups of one backend. It is the
/// identity: both groups share the backend's representation.
pub fn from<L: Extended>(x: L::Repr) -> (r: L::Repr)
    ensures
        r == bridged::<L>(x),
        r == x,
{
    x
}

/// The model of the fixed program `pow(2, add(4, 20))`, or `None` where the
/// backend cannot form the power.
pub open spec fn program_model<L: Extended>() -> Option<L::Model> {
    let n = L::lit_model(2);
    let p = L::add_model(L::lit_model(4), L::lit_model(20));
    if L::pow_defined(n, p) {
        Some(L::pow_model(n, p))
    } else {
        None
    }
}

/// Evaluates `pow(2, add(4, 20))` with backend `L`.
pub fn evaluate<L: Extended>() -> (r: Result<L::Repr, DomainError>)
    ensures
        match r {
            Ok(v) => program_model::<L>() == Some(L::model(&v)),
            Err(e) => program_model::<L>() is None && e == DomainError::NegativeExponent,
        },
{
    let exponent = from::<L>(L::add(L::lit(4), L::lit(20)));
    let base = from::<L>(L::lit(2));
    L::pow(base, exponent)
}

} // verus!
