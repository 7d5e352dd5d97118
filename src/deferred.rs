//! The asynchronous backend: deferred computations that make progress only
//! while a driver steps them.
//!
//! A deferred computation is a tree. `Add` resolves its left operand, then its
//! right one; `Pow` first waits a fixed delay, then resolves its base and its
//! exponent. The only thing a computation ever waits for is such a delay, so
//! a driver alternates `step` with sleeping until the delay has passed.
use crate::arith::{add_wrapping, pow_wrapped, pow_wrapping, wrap64};
use crate::lang::{Core, DomainError, Extended};
use vstd::prelude::*;

verus! {

/// How long each exponentiation waits before it resolves its operands.
pub const DELAY_MS: u64 = 1000;

/// A computation that yields an `i64`, or the domain error, once driven.
pub enum Deferred {
    /// Resolved to a value.
    Ready(i64),
    /// Resolved to an error.
    Failed(DomainError),
    /// The sum of two computations.
    Add(Box<Deferred>, Box<Deferred>),
    /// A power; the flag tells whether its delay has already passed.
    Pow(bool, Box<Deferred>, Box<Deferred>),
}

/// What the driver hands to `step`.
#[derive(Clone, Copy, Debug, PartialEq, Eq, Structural)]
pub enum Event {
    /// A plain poll: nothing has happened since the last step.
    Poll,
    /// The delay that the last step asked for has passed.
    DelayElapsed,
}

/// What `step` asks of the driver.
#[derive(Clone, Copy, Debug)]
pub enum Action {
    /// Sleep this many milliseconds, then step again with `DelayElapsed`.
    Sleep(u64),
    /// The computation has resolved to this result.
    Finish(Result<i64, DomainError>),
}

/// The number of delays, 0 or 1, that an event lets pass.
pub open spec fn grant(event: Event) -> nat {
    if event is DelayElapsed {
        1
    } else {
        0
    }
}

impl Deferred {
    /// The result the computation resolves to when driven to the end.
    pub open spec fn outcome(self) -> Result<i64, DomainError>
        decreases self,
    {
        match self {
            Deferred::Ready(v) => Ok(v),
            Deferred::Failed(e) => Err(e),
            Deferred::Add(l, r) => match l.outcome() {
                Err(e) => Err(e),
                Ok(a) => match r.outcome() {
                    Err(e) => Err(e),
                    Ok(b) => Ok(wrap64(a + b) as i64),
                },
            },
            Deferred::Pow(_, n, p) => match n.outcome() {
                Err(e) => Err(e),
                Ok(a) => match p.outcome() {
                    Err(e) => Err(e),
                    Ok(b) => if b < 0 {
                        Err(DomainError::NegativeExponent)
                    } else {
                        Ok(pow_wrapped(a as int, b as nat) as i64)
                    },
                },
            },
        }
    }

    /// How many delays the computation still waits for before it resolves:
    /// those on the path that driving it takes, which stops at the first error.
    pub open spec fn waits(self) -> nat
        decreases self,
    {
        match self {
            Deferred::Ready(_) => 0,
            Deferred::Failed(_) => 0,
            Deferred::Add(l, r) => if l.outcome() is Err {
                l.waits()
            } else {
                l.waits() + r.waits()
            },
            Deferred::Pow(elapsed, n, p) => (if elapsed {
                0nat
            } else {
                1nat
            }) + if n.outcome() is Err {
                n.waits()
            } else {
                n.waits() + p.waits()
            },
        }
    }

    /// Whether the computation has resolved, to a value or to an error.
    pub open spec fn is_resolved(self) -> bool {
        self is Ready || self is Failed
    }

    /// Drives the computation as far as it goes, letting at most `grant`
    /// (0 or 1) delays pass. Also returns whether the grant is left unused.
    fn advance(self, grant: bool) -> (res: (Deferred, bool))
        ensures
            res.0.outcome() == self.outcome(),
            self.waits() <= (if grant { 1nat } else { 0nat }) ==> res.0.is_resolved()
                && res.1 == (grant && self.waits() == 0),
            self.waits() > (if grant { 1nat } else { 0nat }) ==> !res.0.is_resolved()
                && res.0.waits() == self.waits() - (if grant { 1nat } else { 0nat }) && !res.1,
        decreases self,
    {
        match self {
            Deferred::Ready(v) => (Deferred::Ready(v), grant),
            Deferred::Failed(e) => (Deferred::Failed(e), grant),
            Deferred::Add(l, r) => {
                let (l2, g1) = (*l).advance(grant);
                match l2 {
                    Deferred::Ready(a) => {
                        let (r2, g2) = (*r).advance(g1);
                        match r2 {
                            Deferred::Ready(b) => (Deferred::Ready(add_wrapping(a, b)), g2),
                            Deferred::Failed(e) => (Deferred::Failed(e), g2),
                            other => {
                                let pending = Deferred::Add(Box::new(Deferred::Ready(a)), Box::new(other));
                                assert(Deferred::Ready(a).waits() == 0);
                                assert(Deferred::Ready(a).outcome() is Ok);
                                assert(pending.waits() == other.waits());
                                (pending, g2)
                            },
                        }
                    },
                    Deferred::Failed(e) => (Deferred::Failed(e), g1),
                    other => (Deferred::Add(Box::new(other), r), g1),
                }
            },
            Deferred::Pow(elapsed, n, p) => {
                if !elapsed && !grant {
                    return (Deferred::Pow(false, n, p), false);
                }
                let g0 = grant && elapsed;
                let (n2, g1) = (*n).advance(g0);
                match n2 {
                    Deferred::Ready(a) => {
                        let (p2, g2) = (*p).advance(g1);
                        match p2 {
                            Deferred::Ready(b) => if b < 0 {
                                (Deferred::Failed(DomainError::NegativeExponent), g2)
                            } else {
                                (Deferred::Ready(pow_wrapping(a, b as u64)), g2)
                            },
                            Deferred::Failed(e) => (Deferred::Failed(e), g2),
                            other => {
                                let pending = Deferred::Pow(true, Box::new(Deferred::Ready(a)), Box::new(other));
                                assert(Deferred::Ready(a).waits() == 0);
                                assert(Deferred::Ready(a).outcome() is Ok);
                                assert(pending.waits() == other.waits());
                                (pending, g2)
                            },
                        }
                    },
                    Deferred::Failed(e) => (Deferred::Failed(e), g1),
                    other => (Deferred::Pow(true, Box::new(other), p), g1),
                }
            },
        }
    }

    /// One step of the driver: the next state of the computation and what the
    /// driver must do. A step never changes what the computation resolves to;
    /// a `DelayElapsed` lets one delay pass, and a step that ends in `Sleep`
    /// leaves exactly the delays not yet passed.
    pub fn step(self, event: Event) -> (res: (Deferred, Action))
        ensures
            res.0.outcome() == self.outcome(),
            self.waits() <= grant(event) ==> res.0.is_resolved() && res.1 == Action::Finish(
                self.outcome(),
            ),
            self.waits() > grant(event) ==> res.0.waits() == self.waits() - grant(event)
                && res.1 == Action::Sleep(DELAY_MS),
    {
        let (next, _) = self.advance(event == Event::DelayElapsed);
        match next {
            Deferred::Ready(v) => (Deferred::Ready(v), Action::Finish(Ok(v))),
            Deferred::Failed(e) => (Deferred::Failed(e), Action::Finish(Err(e))),
            other => (other, Action::Sleep(DELAY_MS)),
        }
    }

    /// Drives the computation to the end, letting each delay pass at once.
    pub fn resolve(self) -> (r: Result<i64, DomainError>)
        ensures
            r == self.outcome(),
    {
        let ghost goal = self.outcome();
        let mut state = self;
        loop
            invariant
                state.outcome() == goal,
                goal == self.outcome(),
            decreases state.waits(),
        {
            let (next, action) = state.step(Event::DelayElapsed);
            match action {
                Action::Finish(r) => {
                    return r;
                },
                Action::Sleep(_) => {
                    state = next;
                },
            }
        }
    }
}

/// Builds each operation as a deferred computation.
pub struct AsyncEvaluator;

impl Core for AsyncEvaluator {
    type Repr = Deferred;

    type Model = Deferred;

    open spec fn model(r: &Deferred) -> Deferred {
        *r
    }

    open spec fn lit_model(v: i64) -> Deferred {
        Deferred::Ready(v)
    }

    open spec fn add_model(l: Deferred, r: Deferred) -> Deferred {
        Deferred::Add(Box::new(l), Box::new(r))
    }

    fn lit(v: i64) -> (r: Deferred) {
        Deferred::Ready(v)
    }

    fn add(l: Deferred, r: Deferred) -> (s: Deferred) {
        Deferred::Add(Box::new(l), Box::new(r))
    }
}

impl Extended for AsyncEvaluator {
    open spec fn pow_defined(n: Deferred, p: Deferred) -> bool {
        true
    }

    open spec fn pow_model(n: Deferred, p: Deferred) -> Deferred {
        Deferred::Pow(false, Box::new(n), Box::new(p))
    }

    fn pow(n: Deferred, p: Deferred) -> (r: Result<Deferred, DomainError>) {
        Ok(Deferred::Pow(false, Box::new(n), Box::new(p)))
    }
}

} // verus!
