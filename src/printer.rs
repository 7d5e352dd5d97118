//! The backend that prints a program as a formula.
use crate::lang::{Core, DomainError, Extended};
use vstd::prelude::*;
use vstd::string::{StrSliceExecFns, StringExecFns};

verus! {

/// Renders each operation as text.
pub struct Printer;

/// The character for a digit below ten.
pub open spec fn digit_char(d: nat) -> char {
    if d == 0 { '0' }
    else if d == 1 { '1' }
    else if d == 2 { '2' }
    else if d == 3 { '3' }
    else if d == 4 { '4' }
    else if d == 5 { '5' }
    else if d == 6 { '6' }
    else if d == 7 { '7' }
    else if d == 8 { '8' }
    else { '9' }
}

/// The decimal digits of a natural number, most significant first.
pub open spec fn digits(n: nat) -> Seq<char>
    decreases n,
{
    if n < 10 {
        seq![digit_char(n)]
    } else {
        digits(n / 10) + seq![digit_char(n % 10)]
    }
}

/// The decimal text of an integer, with a leading `-` when negative.
pub open spec fn decimal(v: int) -> Seq<char> {
    if v < 0 {
        seq!['-'] + digits((-v) as nat)
    } else {
        digits(v as nat)
    }
}

/// The text of `l + r`.
pub open spec fn sum_text(l: Seq<char>, r: Seq<char>) -> Seq<char> {
    l + seq![' ', '+', ' '] + r
}

/// The text of `n` to the power `p`: the exponent is put in parentheses when it
/// holds a space, that is, when it is itself a compound formula.
pub open spec fn pow_text(n: Seq<char>, p: Seq<char>) -> Seq<char> {
    if p.contains(' ') {
        n + seq!['^', '('] + p + seq![')']
    } else {
        n + seq!['^'] + p
    }
}

fn digit_str(d: u64) -> (s: &'static str)
    requires
        d < 10,
    ensures
        s@ == seq![digit_char(d as nat)],
{
    proof {
        reveal_strlit("0");
        reveal_strlit("1");
        reveal_strlit("2");
        reveal_strlit("3");
        reveal_strlit("4");
        reveal_strlit("5");
        reveal_strlit("6");
        reveal_strlit("7");
        reveal_strlit("8");
        reveal_strlit("9");
    }
    if d == 0 { "0" }
    else if d == 1 { "1" }
    else if d == 2 { "2" }
    else if d == 3 { "3" }
    else if d == 4 { "4" }
    else if d == 5 { "5" }
    else if d == 6 { "6" }
    else if d == 7 { "7" }
    else if d == 8 { "8" }
    else { "9" }
}

fn push_digits(s: &mut String, n: u64)
    ensures
        final(s)@ == old(s)@ + digits(n as nat),
    decreases n,
{
    if n >= 10 {
        push_digits(s, n / 10);
    }
    s.append(digit_str(n % 10));
    proof {
        if n >= 10 {
            assert(final(s)@ =~= old(s)@ + digits(n as nat));
        }
    }
}

/// The decimal text of `v`.
pub fn decimal_text(v: i64) -> (s: String)
    ensures
        s@ == decimal(v as int),
{
    let mut s = String::new();
    if v < 0 {
        proof {
            reveal_strlit("-");
        }
        s.append("-");
        let magnitude: u64 = (-(v as i128)) as u64;
        push_digits(&mut s, magnitude);
    } else {
        push_digits(&mut s, v as u64);
    }
    s
}

/// Whether `s` holds a space character.
pub fn contains_space(s: &str) -> (b: bool)
    ensures
        b == s@.contains(' '),
{
    let len = s.unicode_len();
    let mut i: usize = 0;
    while i < len
        invariant
            len == s@.len(),
            i <= len,
            forall|j: int| 0 <= j < i ==> s@[j] != ' ',
        decreases len - i,
    {
        if s.get_char(i) == ' ' {
            return true;
        }
        i = i + 1;
    }
    false
}

impl Core for Printer {
    type Repr = String;

    type Model = Seq<char>;

    open spec fn model(r: &String) -> Seq<char> {
        r@
    }

    open spec fn lit_model(v: i64) -> Seq<char> {
        decimal(v as int)
    }

    open spec fn add_model(l: Seq<char>, r: Seq<char>) -> Seq<char> {
        sum_text(l, r)
    }

    fn lit(v: i64) -> (r: String) {
        decimal_text(v)
    }

    fn add(l: String, r: String) -> (s: String) {
        proof {
            reveal_strlit(" + ");
        }
        let mut s = l;
        s.append(" + ");
        s.append(r.as_str());
        proof {
            assert(s@ =~= sum_text(l@, r@));
        }
        s
    }
}

impl Extended for Printer {
    open spec fn pow_defined(n: Seq<char>, p: Seq<char>) -> bool {
        true
    }

    open spec fn pow_model(n: Seq<char>, p: Seq<char>) -> Seq<char> {
        pow_text(n, p)
    }

    fn pow(n: String, p: String) -> (r: Result<String, DomainError>) {
        let compound = contains_space(p.as_str());
        let mut s = n;
        if compound {
            proof {
                reveal_strlit("^(");
                reveal_strlit(")");
            }
            s.append("^(");
            s.append(p.as_str());
            s.append(")");
        } else {
            proof {
                reveal_strlit("^");
            }
            s.append("^");
            s.append(p.as_str());
        }
        proof {
            assert(s@ =~= pow_text(n@, p@));
        }
        Ok(s)
    }
}

} // verus!
