//! Fixed-point decimal numbers and their text form.

use vstd::prelude::*;

verus! {

/// `value` scaled down by `10^decimals`.
#[derive(Clone, Copy, Debug, Default)]
pub struct Decimal {
    pub value: i128,
    pub decimals: u32,
}

/// The character of a decimal digit.
pub open spec fn digit_char(d: int) -> char {
    if d == 0 {
        '0'
    } else if d == 1 {
        '1'
    } else if d == 2 {
        '2'
    } else if d == 3 {
        '3'
    } else if d == 4 {
        '4'
    } else if d == 5 {
        '5'
    } else if d == 6 {
        '6'
    } else if d == 7 {
        '7'
    } else if d == 8 {
        '8'
    } else {
        '9'
    }
}

/// The decimal digits of `n`, most significant first, without leading zeros.
pub open spec fn decimal_digits(n: nat) -> Seq<char>
    decreases n,
{
    if n < 10 {
        seq![digit_char(n as int)]
    } else {
        decimal_digits(n / 10).push(digit_char((n % 10) as int))
    }
}

/// The usual text of an integer: its digits, after a minus sign when negative.
pub open spec fn integer_text(value: int) -> Seq<char> {
    if value < 0 {
        seq!['-'] + decimal_digits((-value) as nat)
    } else {
        decimal_digits(value as nat)
    }
}

/// The text of a decimal: the integer text of `value` with a point inserted
/// `decimals` characters from the end; when the text is not longer than that,
/// it is padded on the left with zeros to `decimals` characters, after `0.`.
pub open spec fn decimal_text(value: i128, decimals: u32) -> Seq<char> {
    let s = integer_text(value as int);
    if s.len() <= decimals {
        seq!['0', '.'] + Seq::new((decimals - s.len()) as nat, |i: int| '0') + s
    } else {
        s.subrange(0, s.len() - decimals) + seq!['.'] + s.subrange(s.len() - decimals, s.len() as int)
    }
}

/// A decimal digit character.
pub open spec fn is_digit(c: char) -> bool {
    '0' <= c && c <= '9'
}

/// The number a string of decimal digits reads as.
pub open spec fn digits_value(s: Seq<char>) -> nat
    decreases s.len(),
{
    if s.len() == 0 {
        0
    } else {
        digits_value(s.drop_last()) * 10 + ((s.last() as int) - ('0' as int)) as nat
    }
}

/// A run of `k` zero characters.
pub open spec fn zeros(k: nat) -> Seq<char> {
    Seq::new(k, |i: int| '0')
}

proof fn lemma_digit_char(d: int)
    requires
        0 <= d < 10,
    ensures
        is_digit(digit_char(d)),
        (digit_char(d) as int) - ('0' as int) == d,
{
}

/// The digits of a number are digit characters and read back as the number.
proof fn lemma_decimal_digits_read_back(n: nat)
    ensures
        forall|i: int| 0 <= i < decimal_digits(n).len() ==> is_digit(#[trigger] decimal_digits(n)[i]),
        digits_value(decimal_digits(n)) == n,
        decimal_digits(n).len() >= 1,
    decreases n,
{
    if n < 10 {
        lemma_digit_char(n as int);
        let s = decimal_digits(n);
        assert(s.drop_last() =~= Seq::<char>::empty());
        assert(digits_value(s.drop_last()) == 0);
        assert(s.last() == digit_char(n as int));
    } else {
        lemma_decimal_digits_read_back(n / 10);
        lemma_digit_char((n % 10) as int);
        let s = decimal_digits(n);
        assert(s.drop_last() =~= decimal_digits(n / 10));
        assert(s.last() == digit_char((n % 10) as int));
        assert(digits_value(s) == digits_value(s.drop_last()) * 10 + ((s.last() as int) - ('0' as int)) as nat);
        assert(n == (n / 10) * 10 + n % 10);
        assert forall|i: int| 0 <= i < s.len() implies is_digit(#[trigger] s[i]) by {
            if i < s.len() - 1 {
                assert(s[i] == decimal_digits(n / 10)[i]);
            }
        }
    }
}

/// Leading zeros do not change what digits read as.
proof fn lemma_leading_zeros(k: nat, s: Seq<char>)
    ensures
        digits_value(zeros(k) + s) == digits_value(s),
    decreases s.len(), k,
{
    if s.len() == 0 {
        assert(zeros(k) + s =~= zeros(k));
        if k > 0 {
            assert(zeros(k).drop_last() =~= zeros((k - 1) as nat));
            lemma_leading_zeros((k - 1) as nat, s);
            assert(zeros((k - 1) as nat) + s =~= zeros((k - 1) as nat));
        }
    } else {
        assert((zeros(k) + s).drop_last() =~= zeros(k) + s.drop_last());
        lemma_leading_zeros(k, s.drop_last());
    }
}

/// The text of a non-negative decimal has exactly one point, with exactly
/// `decimals` digits after it; before it stands `0` when the value has no more
/// digits than `decimals`, and otherwise the value's leading digits; without
/// the point the text reads back as the value.
pub proof fn lemma_decimal_text_reads_back(value: i128, decimals: u32)
    requires
        value >= 0,
    ensures
        ({
            let t = decimal_text(value, decimals);
            let s = decimal_digits(value as nat);
            let n = s.len();
            let p: int = if n <= decimals {
                1
            } else {
                n - decimals
            };
            &&& 0 <= p < t.len()
            &&& t[p] == '.'
            &&& forall|i: int| 0 <= i < t.len() && i != p ==> is_digit(#[trigger] t[i])
            &&& t.len() - p - 1 == decimals
            &&& digits_value(t.remove(p)) == value
            &&& n <= decimals ==> t.subrange(0, p) == seq!['0']
            &&& n > decimals ==> t.subrange(0, p) == s.subrange(0, n - decimals)
        }),
{
    let t = decimal_text(value, decimals);
    let s = decimal_digits(value as nat);
    let n = s.len();
    lemma_decimal_digits_read_back(value as nat);
    assert(integer_text(value as int) == s);
    if n <= decimals {
        let z = zeros((decimals - n) as nat);
        assert(t == seq!['0', '.'] + z + s);
        assert(t.remove(1) =~= zeros((decimals - n + 1) as nat) + s);
        lemma_leading_zeros((decimals - n + 1) as nat, s);
        assert(t.subrange(0, 1) =~= seq!['0']);
        assert forall|i: int| 0 <= i < t.len() && i != 1 implies is_digit(#[trigger] t[i]) by {
            if i >= 2 + (decimals - n) {
                assert(t[i] == s[i - 2 - (decimals - n)]);
            }
        }
    } else {
        let p = n - decimals;
        assert(t.remove(p) =~= s);
        assert(t.subrange(0, p) =~= s.subrange(0, p));
        assert forall|i: int| 0 <= i < t.len() && i != p implies is_digit(#[trigger] t[i]) by {
            if i < p {
                assert(t[i] == s[i]);
            } else {
                assert(t[i] == s[i - 1]);
            }
        }
    }
}

fn digit_to_char(d: u128) -> (res: char)
    requires
        d < 10,
    ensures
        res == digit_char(d as int),
{
    if d == 0 {
        '0'
    } else if d == 1 {
        '1'
    } else if d == 2 {
        '2'
    } else if d == 3 {
        '3'
    } else if d == 4 {
        '4'
    } else if d == 5 {
        '5'
    } else if d == 6 {
        '6'
    } else if d == 7 {
        '7'
    } else if d == 8 {
        '8'
    } else {
        '9'
    }
}

/// The decimal digits of `n`.
fn digits_of(n: u128) -> (res: Vec<char>)
    ensures
        res@ == decimal_digits(n as nat),
{
    let mut rest = n;
    let mut out: Vec<char> = Vec::new();
    while rest >= 10
        invariant
            decimal_digits(n as nat) == decimal_digits(rest as nat) + out@,
        decreases rest,
    {
        let ghost before = out@;
        out.insert(0, digit_to_char(rest % 10));
        assert(decimal_digits(rest as nat) == decimal_digits((rest / 10) as nat).push(digit_char((rest % 10) as int)));
        assert(decimal_digits((rest / 10) as nat) + out@ =~= decimal_digits((rest / 10) as nat).push(
            digit_char((rest % 10) as int),
        ) + before);
        rest = rest / 10;
    }
    let ghost before = out@;
    out.insert(0, digit_to_char(rest));
    assert(out@ =~= seq![digit_char(rest as int)] + before);
    out
}

/// The usual text of an `i128`.
fn integer_to_chars(value: i128) -> (res: Vec<char>)
    ensures
        res@ == integer_text(value as int),
{
    if value < 0 {
        let magnitude = ((-(value + 1)) as u128) + 1;
        let digits = digits_of(magnitude);
        let mut out: Vec<char> = Vec::new();
        out.push('-');
        let mut i: usize = 0;
        while i < digits.len()
            invariant
                0 <= i <= digits@.len(),
                out@ =~= seq!['-'] + digits@.subrange(0, i as int),
            decreases digits@.len() - i,
        {
            out.push(digits[i]);
            i = i + 1;
        }
        assert(digits@.subrange(0, digits@.len() as int) =~= digits@);
        out
    } else {
        digits_of(value as u128)
    }
}

/// A `String` holding the given characters (`Iterator::collect` into `String`).
#[verifier::external_body]
fn string_from_chars(chars: &Vec<char>) -> (res: String)
    ensures
        res@ == chars@,
{
    chars.iter().collect()
}

impl Decimal {
    /// The decimal `value / 10^decimals`.
    pub fn new(value: i128, decimals: u32) -> (res: Self)
        ensures
            res.value == value,
            res.decimals == decimals,
    {
        Decimal { value, decimals }
    }

    /// The text of the decimal, as `decimal_text` describes it.
    pub fn to_string(&self) -> (res: String)
        ensures
            res@ == decimal_text(self.value, self.decimals),
    {
        let scaled = integer_to_chars(self.value);
        let len = scaled.len();
        let decimals = self.decimals as usize;
        let mut out: Vec<char> = Vec::new();
        if len <= decimals {
            out.push('0');
            out.push('.');
            let pad = decimals - len;
            let mut i: usize = 0;
            while i < pad
                invariant
                    0 <= i <= pad,
                    out@ =~= seq!['0', '.'] + Seq::new(i as nat, |k: int| '0'),
                decreases pad - i,
            {
                out.push('0');
                i = i + 1;
            }
            let ghost prefix = out@;
            let mut j: usize = 0;
            while j < len
                invariant
                    0 <= j <= len,
                    len == scaled@.len(),
                    out@ =~= prefix + scaled@.subrange(0, j as int),
                decreases len - j,
            {
                out.push(scaled[j]);
                j = j + 1;
            }
            assert(scaled@.subrange(0, len as int) =~= scaled@);
        } else {
            let point = len - decimals;
            let mut j: usize = 0;
            while j < len
                invariant
                    0 <= j <= len,
                    len == scaled@.len(),
                    point <= len,
                    j <= point ==> out@ =~= scaled@.subrange(0, j as int),
                    j > point ==> out@ =~= scaled@.subrange(0, point as int) + seq!['.'] + scaled@.subrange(
                        point as int,
                        j as int,
                    ),
                decreases len - j,
            {
                if j == point {
                    out.push('.');
                }
                out.push(scaled[j]);
                j = j + 1;
            }
            if point == len {
                out.push('.');
            }
        }
        string_from_chars(&out)
    }
}

} // verus!
