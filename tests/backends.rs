use tagless::deferred::{Action, AsyncEvaluator, Deferred, Event, DELAY_MS};
use tagless::eager::{EagerEvaluator, IndirectEvaluator};
use tagless::lang::{evaluate, from, Core, DomainError, Extended};
use tagless::printer::{contains_space, decimal_text, Printer};

fn drive(mut d: Deferred) -> (Result<i64, DomainError>, usize) {
    let mut sleeps: usize = 0;
    let mut event = Event::Poll;
    loop {
        let (next, action) = d.step(event);
        match action {
            Action::Finish(r) => return (r, sleeps),
            Action::Sleep(ms) => {
                assert_eq!(ms, DELAY_MS);
                sleeps += 1;
                event = Event::DelayElapsed;
                d = next;
            }
        }
    }
}

#[test]
fn program_on_printer() {
    assert_eq!(evaluate::<Printer>(), Ok("2^(4 + 20)".to_string()));
}

#[test]
fn program_on_eager() {
    assert_eq!(evaluate::<EagerEvaluator>(), Ok(16777216));
}

#[test]
fn program_on_indirect() {
    assert_eq!(evaluate::<IndirectEvaluator>(), Ok(Box::new(16777216)));
}

#[test]
fn program_on_async_resolves() {
    let d = evaluate::<AsyncEvaluator>().unwrap();
    assert_eq!(d.resolve(), Ok(16777216));
}

#[test]
fn program_on_async_waits_once() {
    let d = evaluate::<AsyncEvaluator>().unwrap();
    assert_eq!(drive(d), (Ok(16777216), 1));
}

#[test]
fn async_stays_pending_without_elapsed_delay() {
    let d = evaluate::<AsyncEvaluator>().unwrap();
    let (d, a) = d.step(Event::Poll);
    assert!(matches!(a, Action::Sleep(DELAY_MS)));
    let (d, a) = d.step(Event::Poll);
    assert!(matches!(a, Action::Sleep(DELAY_MS)));
    let (_, a) = d.step(Event::DelayElapsed);
    assert!(matches!(a, Action::Finish(Ok(16777216))));
}

#[test]
fn bridging_is_identity() {
    assert_eq!(from::<Printer>(from::<Printer>("4 + 20".to_string())), "4 + 20");
    assert_eq!(from::<EagerEvaluator>(from::<EagerEvaluator>(-7)), -7);
    assert_eq!(from::<IndirectEvaluator>(from::<IndirectEvaluator>(Box::new(9))), Box::new(9));
    let d = from::<AsyncEvaluator>(from::<AsyncEvaluator>(AsyncEvaluator::lit(11)));
    assert!(matches!(d, Deferred::Ready(11)));
}

#[test]
fn printer_parenthesizes_compound_exponent() {
    let r = Printer::pow("n".to_string(), "a b".to_string());
    assert_eq!(r, Ok("n^(a b)".to_string()));
}

#[test]
fn printer_leaves_simple_exponent_bare() {
    let r = Printer::pow("n".to_string(), "ab".to_string());
    assert_eq!(r, Ok("n^ab".to_string()));
    let r = Printer::pow("2".to_string(), "".to_string());
    assert_eq!(r, Ok("2^".to_string()));
}

#[test]
fn printer_literals_and_sums() {
    assert_eq!(Printer::lit(0), "0");
    assert_eq!(Printer::lit(-5), "-5");
    assert_eq!(Printer::lit(1234567890), "1234567890");
    assert_eq!(Printer::add(Printer::lit(4), Printer::lit(20)), "4 + 20");
}

#[test]
fn decimal_text_extremes() {
    assert_eq!(decimal_text(i64::MIN), "-9223372036854775808");
    assert_eq!(decimal_text(i64::MAX), "9223372036854775807");
    assert_eq!(decimal_text(10), "10");
}

#[test]
fn contains_space_finds_spaces() {
    assert!(contains_space("4 + 20"));
    assert!(contains_space(" "));
    assert!(!contains_space("24"));
    assert!(!contains_space(""));
}

#[test]
fn async_join_commutes() {
    let slow = || AsyncEvaluator::pow(AsyncEvaluator::lit(2), AsyncEvaluator::lit(3)).unwrap();
    let quick = || AsyncEvaluator::lit(5);
    let lr = AsyncEvaluator::add(slow(), quick());
    let rl = AsyncEvaluator::add(quick(), slow());
    assert_eq!(drive(lr), (Ok(13), 1));
    assert_eq!(drive(rl), (Ok(13), 1));
}

#[test]
fn async_join_commutes_with_two_delayed_operands() {
    let one = || AsyncEvaluator::pow(AsyncEvaluator::lit(3), AsyncEvaluator::lit(2)).unwrap();
    let nested = || {
        let inner = AsyncEvaluator::pow(AsyncEvaluator::lit(2), AsyncEvaluator::lit(2)).unwrap();
        AsyncEvaluator::pow(inner, AsyncEvaluator::lit(2)).unwrap()
    };
    assert_eq!(drive(AsyncEvaluator::add(one(), nested())), (Ok(25), 3));
    assert_eq!(drive(AsyncEvaluator::add(nested(), one())), (Ok(25), 3));
}

#[test]
fn negative_exponent_is_domain_error() {
    for n in [0i64, 1, 2, -3, i64::MAX] {
        assert_eq!(EagerEvaluator::pow(n, -1), Err(DomainError::NegativeExponent));
        assert_eq!(
            IndirectEvaluator::pow(Box::new(n), Box::new(-1)),
            Err(DomainError::NegativeExponent)
        );
        let d = AsyncEvaluator::pow(AsyncEvaluator::lit(n), AsyncEvaluator::lit(-1)).unwrap();
        assert_eq!(d.resolve(), Err(DomainError::NegativeExponent));
    }
}

#[test]
fn domain_error_stops_async_sum_early() {
    let bad = AsyncEvaluator::pow(AsyncEvaluator::lit(2), AsyncEvaluator::lit(-1)).unwrap();
    let good = AsyncEvaluator::pow(AsyncEvaluator::lit(2), AsyncEvaluator::lit(1)).unwrap();
    assert_eq!(drive(AsyncEvaluator::add(bad, good)), (Err(DomainError::NegativeExponent), 1));
}

#[test]
fn zero_to_the_zero_is_one() {
    assert_eq!(EagerEvaluator::pow(0, 0), Ok(1));
    assert_eq!(IndirectEvaluator::pow(Box::new(0), Box::new(0)), Ok(Box::new(1)));
    let d = AsyncEvaluator::pow(AsyncEvaluator::lit(0), AsyncEvaluator::lit(0)).unwrap();
    assert_eq!(d.resolve(), Ok(1));
}

#[test]
fn addition_wraps() {
    assert_eq!(EagerEvaluator::add(i64::MAX, 1), i64::MIN);
    assert_eq!(IndirectEvaluator::add(Box::new(i64::MIN), Box::new(-1)), Box::new(i64::MAX));
    let d = AsyncEvaluator::add(AsyncEvaluator::lit(i64::MAX), AsyncEvaluator::lit(2));
    assert_eq!(d.resolve(), Ok(i64::MIN + 1));
}

#[test]
fn power_wraps() {
    assert_eq!(EagerEvaluator::pow(2, 63), Ok(i64::MIN));
    assert_eq!(EagerEvaluator::pow(2, 64), Ok(0));
    assert_eq!(EagerEvaluator::pow(3, 41), Ok(3i64.wrapping_pow(41)));
    assert_eq!(EagerEvaluator::pow(-7, 25), Ok((-7i64).wrapping_pow(25)));
    assert_eq!(EagerEvaluator::pow(-1, i64::MAX), Ok(-1));
    assert_eq!(EagerEvaluator::pow(1, i64::MAX), Ok(1));
    assert_eq!(EagerEvaluator::pow(5, 0), Ok(1));
}

#[test]
fn indirect_matches_eager() {
    let cases: [(i64, i64, i64); 5] = [(2, 4, 20), (3, 1, 1), (-2, 0, 5), (7, 30, 40), (0, 0, 0)];
    for (b, x, y) in cases {
        let e = EagerEvaluator::pow(EagerEvaluator::lit(b), EagerEvaluator::add(x, y));
        let i = IndirectEvaluator::pow(
            IndirectEvaluator::lit(b),
            IndirectEvaluator::add(Box::new(x), Box::new(y)),
        );
        assert_eq!(i.map(|v| *v), e);
    }
}
