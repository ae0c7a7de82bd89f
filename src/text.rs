//! Text helpers shared by the library: comparison, concatenation, number
//! formatting and case folding.
use vstd::prelude::*;
use vstd::string::*;

verus! {

/// What `str::to_lowercase` returns for a text.
pub uninterp spec fn lower_of(s: Seq<char>) -> Seq<char>;

/// Relies on `str::to_lowercase`: the lowercase form depends on the
/// characters alone, and the empty text stays empty.
#[verifier::external_body]
pub(crate) fn lowercase(s: &str) -> (r: String)
    ensures
        r@ == lower_of(s@),
        s@.len() == 0 ==> r@.len() == 0,
{
    s.to_lowercase()
}

/// Compares two texts character by character.
pub fn same_text(a: &str, b: &str) -> (r: bool)
    ensures
        r == (a@ == b@),
{
    let x = String::from_str(a);
    let y = String::from_str(b);
    x == y
}

/// Appends `b` to `a`.
pub fn join(a: String, b: &str) -> (r: String)
    ensures
        r@ == a@ + b@,
{
    a.concat(b)
}

/// Copies a text into an owned string.
pub fn owned(s: &str) -> (r: String)
    ensures
        r@ == s@,
{
    String::from_str(s)
}

/// The character of a digit in base sixteen (lower case).
pub open spec fn digit_char(d: int) -> char {
    if d == 0 { '0' }
    else if d == 1 { '1' }
    else if d == 2 { '2' }
    else if d == 3 { '3' }
    else if d == 4 { '4' }
    else if d == 5 { '5' }
    else if d == 6 { '6' }
    else if d == 7 { '7' }
    else if d == 8 { '8' }
    else if d == 9 { '9' }
    else if d == 10 { 'a' }
    else if d == 11 { 'b' }
    else if d == 12 { 'c' }
    else if d == 13 { 'd' }
    else if d == 14 { 'e' }
    else { 'f' }
}

/// The digits of a natural number in base ten, or sixteen where `hex`
/// holds, most significant first, without leading zeros ("0" for zero).
pub open spec fn digits(n: nat, hex: bool) -> Seq<char>
    decreases n,
{
    if hex {
        if n < 16 {
            seq![digit_char(n as int)]
        } else {
            digits(n / 16, hex).push(digit_char((n % 16) as int))
        }
    } else {
        if n < 10 {
            seq![digit_char(n as int)]
        } else {
            digits(n / 10, hex).push(digit_char((n % 10) as int))
        }
    }
}

/// Decimal text of an integer, with a leading `-` when negative.
pub open spec fn decimal(n: int) -> Seq<char> {
    if n < 0 {
        seq!['-'] + digits((-n) as nat, false)
    } else {
        digits(n as nat, false)
    }
}

fn digit_text(d: u128) -> (r: &'static str)
    requires
        d < 16,
    ensures
        r@ == seq![digit_char(d as int)],
{
    proof {
        reveal_strlit("0"); reveal_strlit("1"); reveal_strlit("2"); reveal_strlit("3");
        reveal_strlit("4"); reveal_strlit("5"); reveal_strlit("6"); reveal_strlit("7");
        reveal_strlit("8"); reveal_strlit("9"); reveal_strlit("a"); reveal_strlit("b");
        reveal_strlit("c"); reveal_strlit("d"); reveal_strlit("e"); reveal_strlit("f");
    }
    if d == 0 { "0" }
    else if d == 1 { "1" }
    else if d == 2 { "2" }
    else if d == 3 { "3" }
    else if d == 4 { "4" }
    else if d == 5 { "5" }
    else if d == 6 { "6" }
    else if d == 7 { "7" }
    else if d == 8 { "8" }
    else if d == 9 { "9" }
    else if d == 10 { "a" }
    else if d == 11 { "b" }
    else if d == 12 { "c" }
    else if d == 13 { "d" }
    else if d == 14 { "e" }
    else { "f" }
}

/// Digits of `n` in base ten, or sixteen where `hex` holds.
pub fn natural_text(n: u128, hex: bool) -> (r: String)
    ensures
        r@ == digits(n as nat, hex),
{
    let base: u128 = if hex { 16 } else { 10 };
    let mut rem: u128 = n;
    let mut acc = String::new();
    while rem >= base
        invariant
            base == (if hex { 16u128 } else { 10u128 }),
            digits(n as nat, hex) == digits(rem as nat, hex) + acc@,
        decreases rem,
    {
        let d = digit_text(rem % base);
        let mut next = owned(d);
        next.append(acc.as_str());
        proof {
            assert(digits(rem as nat, hex) == digits((rem / base) as nat, hex).push(
                digit_char((rem % base) as int),
            ));
            assert(digits(n as nat, hex) == digits((rem / base) as nat, hex) + next@);
        }
        acc = next;
        rem = rem / base;
    }
    let mut last = owned(digit_text(rem));
    last.append(acc.as_str());
    assert(digits(rem as nat, hex) == seq![digit_char(rem as int)]);
    last
}

/// Decimal text of a signed integer.
pub fn integer_text(n: i64) -> (r: String)
    ensures
        r@ == decimal(n as int),
{
    if n < 0 {
        let m: i128 = -(n as i128);
        let t = natural_text(m as u128, false);
        let mut s = owned("-");
        proof { reveal_strlit("-"); }
        s.append(t.as_str());
        s
    } else {
        natural_text(n as u128, false)
    }
}

} // verus!
