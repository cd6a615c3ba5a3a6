//! Text helpers: decimal rendering of integers and character-wise string tests.
use vstd::prelude::*;

verus! {

/// The character of a decimal digit.
pub open spec fn digit_char(d: nat) -> char
    recommends
        d < 10,
{
    if d == 0 { '0' }
    else if d == 1 { '1' }
    else if d == 2 { '2' }
    else if d == 3 { '3' }
    else if d == 4 { '4' }
    else if d == 5 { '5' }
    else if d == 6 { '6' }
    else if d == 7 { '7' }
    else if d == 8 { '8' }
    else { '9' }
}

/// The decimal digits of a natural number, most significant first, with no
/// leading zero (zero itself is the single digit `0`).
pub open spec fn digits_of(n: nat) -> Seq<char>
    decreases n,
{
    if n < 10 {
        seq![digit_char(n)]
    } else {
        digits_of(n / 10) + seq![digit_char(n % 10)]
    }
}

/// The decimal text of an integer, as `Display` renders it: a minus sign for
/// negative values, then the digits of the magnitude.
pub open spec fn decimal_text(n: int) -> Seq<char> {
    if n < 0 {
        seq!['-'] + digits_of((-n) as nat)
    } else {
        digits_of(n as nat)
    }
}

/// The number that a string of decimal digits writes.
pub open spec fn digits_value(s: Seq<char>) -> int
    decreases s.len(),
{
    if s.len() == 0 {
        0
    } else {
        digits_value(s.drop_last()) * 10 + (s.last() as int - '0' as int)
    }
}

/// The number that decimal text writes: an optional minus sign, then digits.
pub open spec fn decimal_text_value(s: Seq<char>) -> int {
    if s.len() > 0 && s[0] == '-' {
        -digits_value(s.drop_first())
    } else {
        digits_value(s)
    }
}

/// The digits of a natural number are decimal digits, with no leading zero,
/// and they read back as the number.
pub proof fn lemma_digits_of(n: nat)
    ensures
        digits_value(digits_of(n)) == n,
        digits_of(n).len() > 0,
        forall|i: int| 0 <= i < digits_of(n).len() ==> '0' <= #[trigger] digits_of(n)[i] <= '9',
        digits_of(n)[0] == '0' ==> n == 0,
    decreases n,
{
    lemma_digit_char((n % 10) as nat);
    if n >= 10 {
        lemma_digits_of(n / 10);
        let s = digits_of(n);
        assert(s.drop_last() =~= digits_of(n / 10));
        assert(s.last() == digit_char((n % 10) as nat));
        assert((n / 10) * 10 + n % 10 == n);
        assert(digits_value(s) == digits_value(digits_of(n / 10)) * 10 + (n % 10));
    } else {
        assert(n % 10 == n);
        assert(digits_of(n).drop_last() =~= Seq::<char>::empty());
        assert(digits_value(Seq::<char>::empty()) == 0);
        assert(digits_of(n).last() == digit_char(n));
        assert(digits_value(digits_of(n)) == digits_value(digits_of(n).drop_last()) * 10 + (
        digit_char(n) as int - '0' as int));
    }
}

proof fn lemma_digit_char(d: nat)
    requires
        d < 10,
    ensures
        digit_char(d) as int - '0' as int == d,
        '1' <= digit_char(d) <= '9' || d == 0,
        '0' <= digit_char(d) <= '9',
{
}

/// Decimal text reads back as the integer it renders.
pub proof fn lemma_decimal_text_value(n: int)
    ensures
        decimal_text_value(decimal_text(n)) == n,
{
    if n < 0 {
        lemma_digits_of((-n) as nat);
        assert(decimal_text(n).drop_first() =~= digits_of((-n) as nat));
    } else {
        lemma_digits_of(n as nat);
    }
}

fn digit_str(d: u32) -> (s: &'static str)
    requires
        d < 10,
    ensures
        s@ == seq![digit_char(d as nat)],
{
    if d == 0 {
        proof { reveal_strlit("0"); }
        "0"
    } else if d == 1 {
        proof { reveal_strlit("1"); }
        "1"
    } else if d == 2 {
        proof { reveal_strlit("2"); }
        "2"
    } else if d == 3 {
        proof { reveal_strlit("3"); }
        "3"
    } else if d == 4 {
        proof { reveal_strlit("4"); }
        "4"
    } else if d == 5 {
        proof { reveal_strlit("5"); }
        "5"
    } else if d == 6 {
        proof { reveal_strlit("6"); }
        "6"
    } else if d == 7 {
        proof { reveal_strlit("7"); }
        "7"
    } else if d == 8 {
        proof { reveal_strlit("8"); }
        "8"
    } else {
        proof { reveal_strlit("9"); }
        "9"
    }
}

fn unsigned_decimal(n: u32) -> (s: String)
    ensures
        s@ == digits_of(n as nat),
    decreases n,
{
    if n < 10 {
        String::from_str(digit_str(n))
    } else {
        let mut s = unsigned_decimal(n / 10);
        s.append(digit_str(n % 10));
        s
    }
}

/// Renders an `i32` in decimal, as `format!("{}", n)` does.
pub fn decimal_string(n: i32) -> (s: String)
    ensures
        s@ == decimal_text(n as int),
{
    if n < 0 {
        let magnitude: u32 = if n == i32::MIN {
            2147483648u32
        } else {
            (-n) as u32
        };
        proof { reveal_strlit("-"); }
        let mut s = String::from_str("-");
        let digits = unsigned_decimal(magnitude);
        s.append(digits.as_str());
        s
    } else {
        unsigned_decimal(n as u32)
    }
}

/// Whether two strings hold the same characters.
pub fn str_eq(a: &str, b: &str) -> (r: bool)
    ensures
        r == (a@ == b@),
{
    let n = a.unicode_len();
    if n != b.unicode_len() {
        return false;
    }
    let mut i: usize = 0;
    while i < n
        invariant
            n == a@.len(),
            n == b@.len(),
            i <= n,
            forall|j: int| 0 <= j < i ==> a@[j] == b@[j],
        decreases n - i,
    {
        if a.get_char(i) != b.get_char(i) {
            return false;
        }
        i = i + 1;
    }
    assert(a@ =~= b@);
    true
}

/// Whether a string is not empty and begins with the character `c`.
pub fn starts_with_char(s: &str, c: char) -> (r: bool)
    ensures
        r == (s@.len() > 0 && s@[0] == c),
{
    if s.unicode_len() == 0 {
        false
    } else {
        s.get_char(0) == c
    }
}

} // verus!
