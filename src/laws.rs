//! Laws that relate the backends and their operations.
use crate::arith::{lemma_wrap_id, pow_wrapped};
use crate::deferred::{AsyncEvaluator, Deferred};
use crate::eager::{EagerEvaluator, IndirectEvaluator};
use crate::lang::{bridged, Core, DomainError, Extended};
use crate::printer::Printer;
use vstd::arithmetic::power::pow;
use vstd::prelude::*;

verus! {

/// A program of the language, written out as a tree so that laws can speak of
/// every program at once.
pub enum Expr {
    Lit(i64),
    Sum(Box<Expr>, Box<Expr>),
    Power(Box<Expr>, Box<Expr>),
}

/// The model that backend `L` gives a program, or `None` where one of its
/// powers cannot be formed.
pub open spec fn denote<L: Extended>(e: Expr) -> Option<L::Model>
    decreases e,
{
    match e {
        Expr::Lit(v) => Some(L::lit_model(v)),
        Expr::Sum(a, b) => match (denote::<L>(*a), denote::<L>(*b)) {
            (Some(x), Some(y)) => Some(L::add_model(x, y)),
            _ => None,
        },
        Expr::Power(a, b) => match (denote::<L>(*a), denote::<L>(*b)) {
            (Some(x), Some(y)) => if L::pow_defined(x, y) {
                Some(L::pow_model(x, y))
            } else {
                None
            },
            _ => None,
        },
    }
}

/// Bridging changes nothing: bridging once gives the value back, and so does
/// bridging twice, on every backend.
pub proof fn lemma_bridge_identity<L: Extended>(x: L::Repr)
    ensures
        bridged::<L>(x) == x,
        bridged::<L>(bridged::<L>(x)) == x,
        L::model(&bridged::<L>(x)) == L::model(&x),
{
}

/// The printed power puts the exponent in parentheses exactly when the
/// exponent holds a space.
pub proof fn lemma_pow_parenthesizes(n: Seq<char>, p: Seq<char>)
    ensures
        (Printer::pow_model(n, p) == n + seq!['^', '('] + p + seq![')']) <==> p.contains(' '),
        (Printer::pow_model(n, p) == n + seq!['^'] + p) <==> !p.contains(' '),
{
    let bare = n + seq!['^'] + p;
    let wrapped = n + seq!['^', '('] + p + seq![')'];
    assert(bare.len() != wrapped.len());
}

/// The asynchronous sum resolves to the same result whichever operand comes
/// first.
pub proof fn lemma_join_commutes(l: Deferred, r: Deferred)
    ensures
        AsyncEvaluator::add_model(l, r).outcome() == AsyncEvaluator::add_model(r, l).outcome(),
{
    let lr = AsyncEvaluator::add_model(l, r);
    let rl = AsyncEvaluator::add_model(r, l);
    match (l.outcome(), r.outcome()) {
        (Ok(a), Ok(b)) => {
            assert(a + b == b + a);
        },
        (Err(e1), Err(e2)) => {
            assert(e1 == e2);
        },
        _ => {},
    }
}

/// A negative exponent is a domain error on every arithmetic backend, and zero
/// to the power zero is one on each of them.
pub proof fn lemma_pow_boundary(n: i64)
    ensures
        !EagerEvaluator::pow_defined(EagerEvaluator::lit_model(n), EagerEvaluator::lit_model(-1i64)),
        !IndirectEvaluator::pow_defined(
            IndirectEvaluator::lit_model(n),
            IndirectEvaluator::lit_model(-1i64),
        ),
        AsyncEvaluator::pow_model(AsyncEvaluator::lit_model(n), AsyncEvaluator::lit_model(-1i64)).outcome()
            == Err::<i64, DomainError>(DomainError::NegativeExponent),
        EagerEvaluator::pow_defined(EagerEvaluator::lit_model(0), EagerEvaluator::lit_model(0)),
        EagerEvaluator::pow_model(EagerEvaluator::lit_model(0), EagerEvaluator::lit_model(0)) == 1,
        IndirectEvaluator::pow_defined(IndirectEvaluator::lit_model(0), IndirectEvaluator::lit_model(0)),
        IndirectEvaluator::pow_model(IndirectEvaluator::lit_model(0), IndirectEvaluator::lit_model(0)) == 1,
        AsyncEvaluator::pow_model(AsyncEvaluator::lit_model(0), AsyncEvaluator::lit_model(0)).outcome()
            == Ok::<i64, DomainError>(1),
{
    assert(pow(0, 0) == 1) by {
        reveal_with_fuel(pow, 1);
    }
    lemma_wrap_id(1);
    assert(pow_wrapped(0, 0) == 1);
    assert(Deferred::Ready(n).outcome() == Ok::<i64, DomainError>(n));
    assert(Deferred::Ready(-1i64).outcome() == Ok::<i64, DomainError>(-1i64));
    assert(Deferred::Ready(0i64).outcome() == Ok::<i64, DomainError>(0i64));
}

/// The heap-allocated evaluator and the plain one give every program the same
/// result, and fail on the same programs.
pub proof fn lemma_indirection_transparent(e: Expr)
    ensures
        denote::<IndirectEvaluator>(e) == denote::<EagerEvaluator>(e),
    decreases e,
{
    match e {
        Expr::Lit(_) => {},
        Expr::Sum(a, b) => {
            lemma_indirection_transparent(*a);
            lemma_indirection_transparent(*b);
        },
        Expr::Power(a, b) => {
            lemma_indirection_transparent(*a);
            lemma_indirection_transparent(*b);
        },
    }
}

} // verus!
