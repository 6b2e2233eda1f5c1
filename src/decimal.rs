//! Decimal text of integers, as device attributes hold them.
use vstd::prelude::*;
use vstd::string::*;
use crate::error::Ev3Error;

verus! {

broadcast use vstd::string::is_ascii_spec_bytes;

pub open spec fn is_digit(c: char) -> bool {
    '0' <= c <= '9'
}

pub open spec fn all_digits(s: Seq<char>) -> bool {
    s.len() > 0 && forall|i: int| 0 <= i < s.len() ==> is_digit(#[trigger] s[i])
}

/// The value of a string of decimal digits.
pub open spec fn digits_value(s: Seq<char>) -> int
    decreases s.len(),
{
    if s.len() == 0 {
        0
    } else {
        digits_value(s.drop_last()) * 10 + (s.last() as int - '0' as int)
    }
}

/// The integer that `s` spells: digits, optionally after one sign.
pub open spec fn decimal_value(s: Seq<char>) -> Option<int> {
    if s.len() > 0 && s[0] == '-' && all_digits(s.drop_first()) {
        Some(-digits_value(s.drop_first()))
    } else if s.len() > 0 && s[0] == '+' && all_digits(s.drop_first()) {
        Some(digits_value(s.drop_first()))
    } else if all_digits(s) {
        Some(digits_value(s))
    } else {
        None
    }
}

/// `s` spells an integer that fits in an `i32`.
pub open spec fn parses_to_i32(s: Seq<char>) -> bool {
    decimal_value(s) matches Some(v) && i32::MIN <= v <= i32::MAX
}

/// The decimal digits of a natural number, without leading zeros.
pub open spec fn digits_of(n: nat) -> Seq<char>
    decreases n,
{
    if n < 10 {
        seq![('0' as u8 + n as u8) as char]
    } else {
        digits_of(n / 10).push(('0' as u8 + (n % 10) as u8) as char)
    }
}

/// The decimal text of an integer.
pub open spec fn decimal_text(n: int) -> Seq<char> {
    if n < 0 {
        seq!['-'] + digits_of((-n) as nat)
    } else {
        digits_of(n as nat)
    }
}

proof fn lemma_ascii_digit(c: char)
    requires
        c <= '\u{7f}',
    ensures
        (c as u8) as u32 == c as u32,
        is_digit(c) <==> 48 <= (c as u8) <= 57,
{
}

proof fn lemma_digits_value_grows(s: Seq<char>, k: int)
    requires
        all_digits(s),
        1 <= k <= s.len(),
    ensures
        digits_value(s.subrange(0, k)) <= digits_value(s),
        digits_value(s) >= 0,
    decreases s.len(),
{
    assert(is_digit(s[s.len() - 1]));
    assert(s.last() as int - '0' as int >= 0);
    assert(digits_value(s) == digits_value(s.drop_last()) * 10 + (s.last() as int - '0' as int));
    if s.len() > 1 {
        assert(all_digits(s.drop_last()));
        if k < s.len() {
            lemma_digits_value_grows(s.drop_last(), k);
            assert(s.drop_last().subrange(0, k) == s.subrange(0, k));
        } else {
            assert(s.subrange(0, k) == s);
            lemma_digits_value_grows(s.drop_last(), 1);
        }
        lemma_digits_value_grows(s.drop_last(), s.len() - 1);
    } else {
        assert(s.subrange(0, k) == s);
        assert(s.drop_last().len() == 0);
        assert(digits_value(s.drop_last()) == 0);
    }
}

/// Value of the digits of `b[start..]` as characters, read with a running
/// bound: `None` once the value exceeds `limit`.
fn digits_in(b: &[u8], start: usize, limit: i64, Ghost(chars): Ghost<Seq<char>>) -> (r: Option<i64>)
    requires
        start < b@.len(),
        b@.len() == chars.len(),
        forall|i: int| 0 <= i < chars.len() ==> chars[i] as u8 == b@[i] && chars[i] <= '\u{7f}',
        0 <= limit <= i32::MAX as int + 1,
    ensures
        !all_digits(chars.subrange(start as int, chars.len() as int)) ==> r.is_none(),
        all_digits(chars.subrange(start as int, chars.len() as int)) ==> match r {
            Some(v) => v == digits_value(chars.subrange(start as int, chars.len() as int)) && 0 <= v <= limit,
            None => digits_value(chars.subrange(start as int, chars.len() as int)) > limit,
        },
{
    let ghost s = chars.subrange(start as int, chars.len() as int);
    let mut acc: i64 = 0;
    let mut i: usize = start;
    while i < b.len()
        invariant
            start <= i <= b@.len(),
            b@.len() == chars.len(),
            s == chars.subrange(start as int, chars.len() as int),
            forall|j: int| 0 <= j < chars.len() ==> chars[j] as u8 == b@[j] && chars[j] <= '\u{7f}',
            forall|j: int| start <= j < i ==> is_digit(#[trigger] chars[j]),
            acc == digits_value(chars.subrange(start as int, i as int)),
            0 <= acc <= limit,
            0 <= limit <= i32::MAX as int + 1,
        decreases b@.len() - i,
    {
        let c = b[i];
        proof {
            lemma_ascii_digit(chars[i as int]);
        }
        if c < 48 || c > 57 {
            assert(!is_digit(chars[i as int]));
            assert(s[i - start] == chars[i as int]);
            return None;
        }
        assert(is_digit(chars[i as int]));
        let ghost prefix = chars.subrange(start as int, i as int + 1);
        assert(prefix.drop_last() == chars.subrange(start as int, i as int));
        assert(prefix.last() as int - '0' as int == c as int - 48);
        acc = acc * 10 + (c as i64 - 48);
        i = i + 1;
        if acc > limit {
            assert(all_digits(s) ==> digits_value(s) > limit) by {
                if all_digits(s) {
                    assert(s.subrange(0, i - start) == prefix);
                    lemma_digits_value_grows(s, i - start);
                }
            };
            return None;
        }
    }
    assert(chars.subrange(start as int, i as int) == s);
    Some(acc)
}

/// Parse `s` as a decimal `i32`, as std's integer parser does: digits,
/// optionally after one `+` or `-`.
pub fn parse_i32(s: &str) -> (r: Result<i32, Ev3Error>)
    ensures
        parses_to_i32(s@) ==> r == Ok::<i32, Ev3Error>(decimal_value(s@).unwrap() as i32),
        !parses_to_i32(s@) ==> (r matches Err(Ev3Error::ParseInt { input }) && input@ == s@),
{
    let fail = Err(Ev3Error::ParseInt { input: s.to_owned() });
    if !s.is_ascii() {
        proof {
            if decimal_value(s@).is_some() {
                let k = choose|k: int| 0 <= k < s@.len() && !('\0' <= #[trigger] s@[k] <= '\u{7f}');
                if k == 0 {
                    assert(s@[0] == '-' || s@[0] == '+' || is_digit(s@[0]));
                } else {
                    assert(s@.drop_first()[k - 1] == s@[k]);
                    assert(s@[0] == '-' || s@[0] == '+' || is_digit(s@[0]));
                }
            }
        }
        return fail;
    }
    let b = s.as_bytes();
    assert(b@ == s.spec_bytes());
    assert(forall|i: int| 0 <= i < s@.len() ==> s@[i] as u8 == b@[i] && s@[i] <= '\u{7f}');
    if b.len() == 0 {
        return fail;
    }
    let negative = b[0] == 45;
    let signed = negative || b[0] == 43;
    if signed && b.len() == 1 {
        assert(s@.drop_first().len() == 0);
        assert(!is_digit(s@[0]));
        return fail;
    }
    let start: usize = if signed { 1 } else { 0 };
    let limit: i64 = if negative { 0x8000_0000 } else { 0x7fff_ffff };
    proof {
        assert(s@.subrange(1, s@.len() as int) == s@.drop_first());
        assert(s@.subrange(0, s@.len() as int) == s@);
        if signed {
            assert(s@[0] == '-' || s@[0] == '+');
            assert(!is_digit(s@[0]));
        } else {
            assert(s@[0] != '-' && s@[0] != '+');
        }
    }
    match digits_in(b, start, limit, Ghost(s@)) {
        Some(v) => {
            if negative {
                Ok((-v) as i32)
            } else {
                Ok(v as i32)
            }
        },
        None => fail,
    }
}

fn digit_str(d: u32) -> (r: &'static str)
    requires
        d < 10,
    ensures
        r@ == seq![('0' as u8 + d as u8) as char],
{
    proof {
        reveal_strlit("0");
        reveal_strlit("1");
        reveal_strlit("2");
        reveal_strlit("3");
        reveal_strlit("4");
        reveal_strlit("5");
        reveal_strlit("6");
        reveal_strlit("7");
        reveal_strlit("8");
        reveal_strlit("9");
    }
    match d {
        0 => "0",
        1 => "1",
        2 => "2",
        3 => "3",
        4 => "4",
        5 => "5",
        6 => "6",
        7 => "7",
        8 => "8",
        _ => "9",
    }
}

fn push_digits(out: &mut String, n: u32)
    ensures
        final(out)@ == old(out)@ + digits_of(n as nat),
    decreases n,
{
    if n >= 10 {
        push_digits(out, n / 10);
        out.append(digit_str(n % 10));
        assert(old(out)@ + digits_of(n as nat) == old(out)@ + digits_of((n / 10) as nat) + seq![
            ('0' as u8 + (n % 10) as u8) as char,
        ]);
    } else {
        out.append(digit_str(n));
    }
}

/// The decimal text of `n`.
pub fn format_i32(n: i32) -> (r: String)
    ensures
        r@ == decimal_text(n as int),
{
    let mut out = String::new();
    if n < 0 {
        proof {
            reveal_strlit("-");
        }
        out.append("-");
        let m: u32 = if n == i32::MIN { 0x8000_0000 } else { (-n) as u32 };
        push_digits(&mut out, m);
    } else {
        push_digits(&mut out, n as u32);
    }
    out
}

} // verus!
