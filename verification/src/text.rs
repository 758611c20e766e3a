//! Small operations on text that the rest of the crate is built from.
use vstd::prelude::*;
use vstd::string::{StringExecFns, StringSliceAdditionalSpecFns};
use vstd::utf8::encode_utf8_decode_utf8;

verus! {

/// The characters of each string slice of a sequence.
pub open spec fn texts(items: Seq<&str>) -> Seq<Seq<char>> {
    Seq::new(items.len(), |i: int| items[i]@)
}

/// The characters of each string of a sequence.
pub open spec fn owned_texts(items: Seq<String>) -> Seq<Seq<char>> {
    Seq::new(items.len(), |i: int| items[i]@)
}

/// The items of `items` written one after the other, with `sep` between
/// each two.
pub open spec fn joined(items: Seq<Seq<char>>, sep: Seq<char>) -> Seq<char>
    decreases items.len(),
{
    if items.len() == 0 {
        Seq::empty()
    } else if items.len() == 1 {
        items[0]
    } else {
        joined(items.drop_last(), sep) + sep + items.last()
    }
}

/// Writes the items of `items` one after the other, with `sep` between each
/// two.
pub fn join(items: &Vec<&str>, sep: &str) -> (text: String)
    ensures
        text@ == joined(texts(items@), sep@),
{
    let mut text = String::new();
    let mut i: usize = 0;
    while i < items.len()
        invariant
            i <= items@.len(),
            text@ == joined(texts(items@).take(i as int), sep@),
        decreases items@.len() - i,
    {
        let ghost before = texts(items@).take(i as int);
        let ghost longer = texts(items@).take(i + 1);
        assert(longer.drop_last() =~= before);
        assert(longer.last() == items@[i as int]@);
        if i > 0 {
            text.append(sep);
        }
        text.append(items[i]);
        assert(text@ =~= joined(longer, sep@));
        i += 1;
    }
    assert(texts(items@).take(items@.len() as int) =~= texts(items@));
    text
}

/// `s` without the white space at its start and at its end, where white
/// space is what Unicode lists as `White_Space`.
pub uninterp spec fn trimmed(s: Seq<char>) -> Seq<char>;

/// Calls `str::trim`, which returns the slice without leading and trailing
/// white space. The contract gives the result the name `trimmed`: it
/// depends on the text alone.
#[verifier::external_body]
pub(crate) fn trim(s: &str) -> (t: &str)
    ensures
        t@ == trimmed(s@),
{
    s.trim()
}

/// Whether two string slices hold the same characters.
pub fn str_eq(a: &str, b: &str) -> (same: bool)
    ensures
        same == (a@ == b@),
{
    let x = a.as_bytes();
    let y = b.as_bytes();
    proof {
        encode_utf8_decode_utf8(a@);
        encode_utf8_decode_utf8(b@);
    }
    if x.len() != y.len() {
        return false;
    }
    let mut i: usize = 0;
    while i < x.len()
        invariant
            i <= x.len(),
            x.len() == y.len(),
            x@ == a.spec_bytes(),
            y@ == b.spec_bytes(),
            forall|j: int| 0 <= j < i ==> x@[j] == y@[j],
        decreases x.len() - i,
    {
        if x[i] != y[i] {
            return false;
        }
        i += 1;
    }
    assert(x@ =~= y@);
    true
}

/// Whether `c` is one of the ten decimal digits.
pub open spec fn is_digit(c: char) -> bool {
    '0' <= c <= '9'
}

/// Whether every character of `s` is a decimal digit.
pub open spec fn all_digits(s: Seq<char>) -> bool {
    forall|i: int| 0 <= i < s.len() ==> is_digit(#[trigger] s[i])
}

/// The number that the digits of `s` write in base ten.
pub open spec fn decimal(s: Seq<char>) -> nat
    decreases s.len(),
{
    if s.len() == 0 {
        0
    } else {
        decimal(s.drop_last()) * 10 + (s.last() as nat - '0' as nat) as nat
    }
}

/// Whether `s` starts with a sign.
pub open spec fn has_sign(s: Seq<char>) -> bool {
    s.len() > 0 && (s[0] == '-' || s[0] == '+')
}

/// What follows the sign of `s`, or all of `s` where it has none.
pub open spec fn magnitude(s: Seq<char>) -> Seq<char> {
    if has_sign(s) {
        s.drop_first()
    } else {
        s
    }
}

/// The integer that `s` writes: an optional `+` or `-`, then one or more
/// decimal digits and nothing else.
pub open spec fn signed_decimal(s: Seq<char>) -> int {
    if s.len() > 0 && s[0] == '-' {
        -(decimal(magnitude(s)) as int)
    } else {
        decimal(magnitude(s)) as int
    }
}

/// The `i32` that `s` writes, where it writes one: `None` for text that is
/// empty, holds anything but a sign and digits, or is out of range.
pub open spec fn parsed_i32(s: Seq<char>) -> Option<i32> {
    if magnitude(s).len() > 0 && all_digits(magnitude(s)) && i32::MIN <= signed_decimal(s)
        <= i32::MAX {
        Some(signed_decimal(s) as i32)
    } else {
        None
    }
}

/// Reading more digits never makes the number smaller.
pub proof fn lemma_decimal_grows(s: Seq<char>, k: int)
    requires
        0 <= k <= s.len(),
        all_digits(s),
    ensures
        decimal(s.take(k)) <= decimal(s),
    decreases s.len() - k,
{
    if k == s.len() {
        assert(s.take(k) =~= s);
    } else {
        lemma_decimal_grows(s, k + 1);
        let longer = s.take(k + 1);
        assert(longer.drop_last() =~= s.take(k));
        assert(is_digit(s[k]));
    }
}

/// Reads an `i32` written in base ten, with an optional sign.
pub fn parse_i32(s: &str) -> (value: Option<i32>)
    ensures
        value == parsed_i32(s@),
{
    if !s.is_ascii() {
        proof {
            let k = choose|k: int| 0 <= k < s@.len() && !('\0' <= #[trigger] s@[k] <= '\u{7f}');
            if has_sign(s@) {
                if k > 0 {
                    assert(magnitude(s@)[k - 1] == s@[k]);
                    assert(!is_digit(magnitude(s@)[k - 1]));
                }
            } else {
                assert(!is_digit(magnitude(s@)[k]));
            }
        }
        return None;
    }
    let bytes = s.as_bytes();
    proof {
        vstd::utf8::is_ascii_chars_encode_utf8(s@);
    }
    let n: usize = bytes.len();
    if n == 0 {
        return None;
    }
    let negative = bytes[0] == 45u8;
    let start: usize = if bytes[0] == 45u8 || bytes[0] == 43u8 {
        1
    } else {
        0
    };
    let ghost digits = magnitude(s@);
    assert(has_sign(s@) <==> start == 1);
    assert(digits.len() == n - start);
    assert(forall|j: int| 0 <= j < digits.len() ==> digits[j] == s@[j + start]);
    if start == n {
        return None;
    }
    let mut acc: i64 = 0;
    let mut i: usize = start;
    while i < n
        invariant
            start <= i <= n,
            n == bytes@.len(),
            n == s@.len(),
            digits.len() == n - start,
            digits == magnitude(s@),
            forall|j: int| 0 <= j < n ==> s@[j] as u8 == bytes@[j],
            forall|j: int| 0 <= j < n ==> '\0' <= #[trigger] s@[j] <= '\u{7f}',
            forall|j: int| 0 <= j < digits.len() ==> digits[j] == s@[j + start],
            forall|j: int| 0 <= j < i - start ==> is_digit(digits[j]),
            acc == decimal(digits.take(i - start)),
            0 <= acc <= 2147483648,
        decreases n - i,
    {
        let b: u8 = bytes[i];
        assert(s@[i as int] as u8 == b);
        assert(digits[i - start] == s@[i as int]);
        if b < 48u8 || b > 57u8 {
            assert(!is_digit(digits[i - start]));
            return None;
        }
        assert(is_digit(digits[i - start]));
        let ghost shorter = digits.take(i - start);
        let ghost longer = digits.take(i - start + 1);
        assert(longer.drop_last() =~= shorter);
        assert(longer.last() == digits[i - start]);
        acc = acc * 10 + (b - 48u8) as i64;
        assert(acc == decimal(longer));
        if acc > 2147483648 {
            proof {
                if all_digits(digits) {
                    lemma_decimal_grows(digits, i - start + 1);
                }
            }
            return None;
        }
        i += 1;
    }
    assert(digits.take(n - start) =~= digits);
    assert(all_digits(digits));
    if negative {
        Some((-acc) as i32)
    } else if acc > 2147483647 {
        None
    } else {
        Some(acc as i32)
    }
}

/// The character that writes the digit `d`.
pub open spec fn digit_char(d: nat) -> char {
    if d == 0 {
        '0'
    } else if d == 1 {
        '1'
    } else if d == 2 {
        '2'
    } else if d == 3 {
        '3'
    } else if d == 4 {
        '4'
    } else if d == 5 {
        '5'
    } else if d == 6 {
        '6'
    } else if d == 7 {
        '7'
    } else if d == 8 {
        '8'
    } else {
        '9'
    }
}

/// `n` written in base ten, without leading zeros.
pub open spec fn written(n: nat) -> Seq<char>
    decreases n,
{
    if n < 10 {
        seq![digit_char(n)]
    } else {
        written(n / 10).push(digit_char(n % 10))
    }
}

/// `n` written in base ten, with `-` in front where it is negative.
pub open spec fn written_int(n: int) -> Seq<char> {
    if n < 0 {
        seq!['-'] + written((-n) as nat)
    } else {
        written(n as nat)
    }
}

/// The digit `d` as text.
fn digit_text(d: u32) -> (text: &'static str)
    requires
        d < 10,
    ensures
        text@ == seq![digit_char(d as nat)],
{
    proof {
        reveal_strlit("0");
        reveal_strlit("1");
        reveal_strlit("2");
        reveal_strlit("3");
        reveal_strlit("4");
        reveal_strlit("5");
        reveal_strlit("6");
        reveal_strlit("7");
        reveal_strlit("8");
        reveal_strlit("9");
    }
    let text = if d == 0 {
        "0"
    } else if d == 1 {
        "1"
    } else if d == 2 {
        "2"
    } else if d == 3 {
        "3"
    } else if d == 4 {
        "4"
    } else if d == 5 {
        "5"
    } else if d == 6 {
        "6"
    } else if d == 7 {
        "7"
    } else if d == 8 {
        "8"
    } else {
        "9"
    };
    assert(text@ =~= seq![digit_char(d as nat)]);
    text
}

/// Appends `n`, written in base ten, to `text`.
fn write_u32(text: &mut String, n: u32)
    ensures
        final(text)@ == old(text)@ + written(n as nat),
    decreases n,
{
    if n >= 10 {
        write_u32(text, n / 10);
        text.append(digit_text(n % 10));
        assert(text@ =~= old(text)@ + written(n as nat));
    } else {
        text.append(digit_text(n));
    }
}

/// Writes `n` in base ten.
pub fn i32_text(n: i32) -> (text: String)
    ensures
        text@ == written_int(n as int),
{
    let mut text = String::new();
    if n < 0 {
        proof {
            reveal_strlit("-");
        }
        text.append("-");
        let magnitude: u32 = (-(n as i64)) as u32;
        write_u32(&mut text, magnitude);
        assert(text@ =~= written_int(n as int));
    } else {
        write_u32(&mut text, n as u32);
        assert(text@ =~= written_int(n as int));
    }
    text
}

} // verus!
