//! Decimal text for the manifest fields: parsing digit strings with the
//! exact acceptance rules of the standard integer parsers, and rendering
//! integers back to digit strings, with a proved round trip.

use vstd::prelude::*;

verus! {

/// `c` is a decimal digit.
pub open spec fn is_digit(c: char) -> bool {
    48 <= c as u32 <= 57
}

/// Numeric value of a digit character.
pub open spec fn digit_val(c: char) -> int {
    c as u32 - 48
}

/// Every character of `s` is a decimal digit.
pub open spec fn all_digits(s: Seq<char>) -> bool {
    forall|k: int| 0 <= k < s.len() ==> is_digit(#[trigger] s[k])
}

/// Value of a digit string, most significant first.
pub open spec fn digits_val(s: Seq<char>) -> int
    decreases s.len(),
{
    if s.len() == 0 {
        0
    } else {
        digits_val(s.drop_last()) * 10 + digit_val(s.last())
    }
}

/// The digit character for `d`.
pub open spec fn digit_char(d: int) -> char {
    if d == 0 {
        '0'
    } else if d == 1 {
        '1'
    } else if d == 2 {
        '2'
    } else if d == 3 {
        '3'
    } else if d == 4 {
        '4'
    } else if d == 5 {
        '5'
    } else if d == 6 {
        '6'
    } else if d == 7 {
        '7'
    } else if d == 8 {
        '8'
    } else {
        '9'
    }
}

/// The decimal rendering of `n`, without sign or padding.
pub open spec fn dec_of(n: nat) -> Seq<char>
    decreases n,
{
    if n < 10 {
        seq![digit_char(n as int)]
    } else {
        dec_of(n / 10).push(digit_char((n % 10) as int))
    }
}

/// The decimal rendering of `n`, with a leading minus sign when negative.
pub open spec fn dec_i64(n: int) -> Seq<char> {
    if n < 0 {
        seq!['-'] + dec_of((-n) as nat)
    } else {
        dec_of(n as nat)
    }
}

pub proof fn lemma_digit_char_val(d: int)
    requires
        0 <= d <= 9,
    ensures
        is_digit(digit_char(d)),
        digit_val(digit_char(d)) == d,
{
}

/// Rendering produces digits only, and parsing them back gives `n`.
pub proof fn lemma_dec_of_val(n: nat)
    ensures
        all_digits(dec_of(n)),
        dec_of(n).len() >= 1,
        digits_val(dec_of(n)) == n,
        dec_of(n)[0] != '-',
        dec_of(n)[0] != '+',
    decreases n,
{
    if n < 10 {
        lemma_digit_char_val(n as int);
        let s = dec_of(n);
        assert(s == seq![digit_char(n as int)]);
        assert(s.drop_last() =~= Seq::<char>::empty());
        assert(digits_val(s) == digits_val(s.drop_last()) * 10 + digit_val(s.last()));
        assert(digits_val(Seq::<char>::empty()) == 0);
        assert(s.last() == digit_char(n as int));
    } else {
        lemma_dec_of_val(n / 10);
        lemma_digit_char_val((n % 10) as int);
        let t = dec_of(n / 10);
        let s = dec_of(n);
        assert(s == t.push(digit_char((n % 10) as int)));
        assert(s.drop_last() =~= t);
        assert(digits_val(s) == digits_val(t) * 10 + (n % 10));
        assert forall|k: int| 0 <= k < s.len() implies is_digit(#[trigger] s[k]) by {
            if k < t.len() {
                assert(s[k] == t[k]);
            } else {
                assert(s[k] == digit_char((n % 10) as int));
            }
        }
        assert(s[0] == t[0]);
    }
}

/// On an all-digit string the value of a prefix never exceeds the value of
/// the whole.
pub proof fn lemma_digits_val_prefix_le(s: Seq<char>, i: int)
    requires
        all_digits(s),
        0 <= i <= s.len(),
    ensures
        digits_val(s) >= 0,
        digits_val(s.take(i)) <= digits_val(s),
    decreases s.len(),
{
    if s.len() == 0 {
        assert(s.take(i) =~= s);
    } else {
        let t = s.drop_last();
        assert(all_digits(t));
        lemma_digits_val_prefix_le(t, if i <= t.len() {
            i
        } else {
            t.len() as int
        });
        assert(digit_val(s.last()) >= 0);
        if i <= t.len() {
            assert(s.take(i) =~= t.take(i));
        } else {
            assert(s.take(i) =~= s);
        }
    }
}

/// Extending an all-digit prefix by one digit multiplies by ten and adds it.
pub proof fn lemma_digits_val_step(s: Seq<char>, i: int)
    requires
        0 <= i < s.len(),
    ensures
        digits_val(s.take(i + 1)) == digits_val(s.take(i)) * 10 + digit_val(s[i]),
{
    assert(s.take(i + 1).drop_last() =~= s.take(i));
    assert(s.take(i + 1).last() == s[i]);
}

/// The digits of `v[lo..hi]` as a number, when they are digits and the value
/// stays within `limit`.
pub(crate) fn parse_digits_range(v: &Vec<char>, lo: usize, hi: usize, limit: u64) -> (r: Option<
    u64,
>)
    requires
        lo <= hi <= v@.len(),
    ensures
        ({
            let s = v@.subrange(lo as int, hi as int);
            match r {
                Some(x) => all_digits(s) && digits_val(s) == x && x <= limit,
                None => !all_digits(s) || digits_val(s) > limit,
            }
        }),
{
    let ghost s = v@.subrange(lo as int, hi as int);
    let mut acc: u64 = 0;
    let mut i = lo;
    while i < hi
        invariant
            lo <= i <= hi <= v@.len(),
            s == v@.subrange(lo as int, hi as int),
            acc <= limit,
            all_digits(s.take(i - lo)),
            acc == digits_val(s.take(i - lo)),
        decreases hi - i,
    {
        let c = v[i];
        let code = c as u32;
        if code < 48 || code > 57 {
            proof {
                assert(!is_digit(s[i - lo]));
            }
            return None;
        }
        let d: u64 = (code - 48) as u64;
        proof {
            assert(is_digit(s[i - lo]));
            assert(digit_val(s[i - lo]) == d);
            lemma_digits_val_step(s, i - lo);
        }
        let next: u64 = match acc.checked_mul(10) {
            Some(m) => match m.checked_add(d) {
                Some(x) => x,
                None => {
                    proof {
                        assert(digits_val(s.take(i - lo + 1)) > u64::MAX);
                        if all_digits(s) {
                            lemma_digits_val_prefix_le(s, i - lo + 1);
                            let j = i - lo + 1;
                            lemma_digits_val_extend(s, j);
                        }
                    }
                    return None;
                },
            },
            None => {
                proof {
                    assert(digits_val(s.take(i - lo + 1)) > u64::MAX);
                    if all_digits(s) {
                        lemma_digits_val_extend(s, i - lo + 1);
                    }
                }
                return None;
            },
        };
        if next > limit {
            proof {
                if all_digits(s) {
                    lemma_digits_val_extend(s, i - lo + 1);
                }
            }
            return None;
        }
        acc = next;
        i = i + 1;
    }
    proof {
        assert(s.take(hi - lo) =~= s);
    }
    Some(acc)
}

/// The whole is at least any of its take-prefixes, on an all-digit string.
proof fn lemma_digits_val_extend(s: Seq<char>, j: int)
    requires
        all_digits(s),
        0 <= j <= s.len(),
    ensures
        digits_val(s) >= digits_val(s.take(j)),
{
    lemma_digits_val_prefix_le(s, j);
}

/// `str::parse::<u32>` acceptance: an optional plus sign, then one or more
/// digits whose value fits.
pub open spec fn spec_parse_u32(s: Seq<char>) -> Option<u32> {
    let body = if s.len() > 0 && s[0] == '+' {
        s.drop_first()
    } else {
        s
    };
    if body.len() == 0 || !all_digits(body) {
        None
    } else if digits_val(body) > u32::MAX {
        None
    } else {
        Some(digits_val(body) as u32)
    }
}

/// `str::parse::<i64>` acceptance: an optional sign, then one or more digits
/// whose value fits.
pub open spec fn spec_parse_i64(s: Seq<char>) -> Option<i64> {
    if s.len() > 0 && s[0] == '-' {
        let body = s.drop_first();
        if body.len() == 0 || !all_digits(body) {
            None
        } else if digits_val(body) > 0x8000_0000_0000_0000 {
            None
        } else {
            Some((-digits_val(body)) as i64)
        }
    } else {
        let body = if s.len() > 0 && s[0] == '+' {
            s.drop_first()
        } else {
            s
        };
        if body.len() == 0 || !all_digits(body) {
            None
        } else if digits_val(body) > i64::MAX {
            None
        } else {
            Some(digits_val(body) as i64)
        }
    }
}

/// Parses `v[lo..hi]` as `str::parse::<u32>` would.
pub(crate) fn parse_u32_range(v: &Vec<char>, lo: usize, hi: usize) -> (r: Option<u32>)
    requires
        lo <= hi <= v@.len(),
    ensures
        r == spec_parse_u32(v@.subrange(lo as int, hi as int)),
{
    let ghost s = v@.subrange(lo as int, hi as int);
    let mut start = lo;
    if lo < hi && v[lo] == '+' {
        start = lo + 1;
    }
    proof {
        if s.len() > 0 && s[0] == '+' {
            assert(s.drop_first() =~= v@.subrange(start as int, hi as int));
        } else {
            assert(s =~= v@.subrange(start as int, hi as int));
        }
    }
    if start == hi {
        return None;
    }
    match parse_digits_range(v, start, hi, u32::MAX as u64) {
        Some(x) => Some(x as u32),
        None => None,
    }
}

/// Parses `v[lo..hi]` as `str::parse::<i64>` would.
pub(crate) fn parse_i64_range(v: &Vec<char>, lo: usize, hi: usize) -> (r: Option<i64>)
    requires
        lo <= hi <= v@.len(),
    ensures
        r == spec_parse_i64(v@.subrange(lo as int, hi as int)),
{
    let ghost s = v@.subrange(lo as int, hi as int);
    if lo < hi && v[lo] == '-' {
        proof {
            assert(s.drop_first() =~= v@.subrange(lo as int + 1, hi as int));
        }
        if lo + 1 == hi {
            return None;
        }
        match parse_digits_range(v, lo + 1, hi, 0x8000_0000_0000_0000u64) {
            Some(x) => {
                if x == 0x8000_0000_0000_0000u64 {
                    Some(i64::MIN)
                } else {
                    Some(-(x as i64))
                }
            },
            None => None,
        }
    } else {
        let mut start = lo;
        if lo < hi && v[lo] == '+' {
            start = lo + 1;
        }
        proof {
            if s.len() > 0 && s[0] == '+' {
                assert(s.drop_first() =~= v@.subrange(start as int, hi as int));
            } else {
                assert(s =~= v@.subrange(start as int, hi as int));
            }
        }
        if start == hi {
            return None;
        }
        match parse_digits_range(v, start, hi, i64::MAX as u64) {
            Some(x) => Some(x as i64),
            None => None,
        }
    }
}

/// Appends the decimal rendering of `n`.
pub(crate) fn push_dec_u64(out: &mut String, n: u64)
    ensures
        final(out)@ == old(out)@ + dec_of(n as nat),
    decreases n,
{
    if n < 10 {
        let d: char = match n {
            0 => '0',
            1 => '1',
            2 => '2',
            3 => '3',
            4 => '4',
            5 => '5',
            6 => '6',
            7 => '7',
            8 => '8',
            _ => '9',
        };
        crate::text::push_char(out, d);
        proof {
            assert(final(out)@ =~= old(out)@ + dec_of(n as nat));
        }
    } else {
        push_dec_u64(out, n / 10);
        let d: char = match n % 10 {
            0 => '0',
            1 => '1',
            2 => '2',
            3 => '3',
            4 => '4',
            5 => '5',
            6 => '6',
            7 => '7',
            8 => '8',
            _ => '9',
        };
        crate::text::push_char(out, d);
        proof {
            assert(final(out)@ =~= old(out)@ + dec_of(n as nat));
        }
    }
}

/// The decimal rendering of `n` as a fresh `String`.
pub(crate) fn u64_string(n: u64) -> (s: String)
    ensures
        s@ == dec_of(n as nat),
{
    let mut s = String::new();
    push_dec_u64(&mut s, n);
    proof {
        assert(s@ =~= dec_of(n as nat));
    }
    s
}

/// Appends the signed decimal rendering of `n`.
pub(crate) fn push_dec_i64(out: &mut String, n: i64)
    ensures
        final(out)@ == old(out)@ + dec_i64(n as int),
{
    if n < 0 {
        crate::text::push_char(out, '-');
        let mag: u64 = if n == i64::MIN {
            9223372036854775808u64
        } else {
            (-n) as u64
        };
        push_dec_u64(out, mag);
        proof {
            assert(final(out)@ =~= old(out)@ + dec_i64(n as int));
        }
    } else {
        push_dec_u64(out, n as u64);
    }
}

/// The signed decimal rendering of `n` as a fresh `String`.
pub(crate) fn i64_string(n: i64) -> (s: String)
    ensures
        s@ == dec_i64(n as int),
{
    let mut s = String::new();
    push_dec_i64(&mut s, n);
    proof {
        assert(s@ =~= dec_i64(n as int));
    }
    s
}

/// Parsing the rendering of a non-negative `i64` gives it back.
pub proof fn lemma_parse_dec_roundtrip(n: int)
    requires
        0 <= n <= i64::MAX,
    ensures
        spec_parse_i64(dec_of(n as nat)) == Some(n as i64),
{
    lemma_dec_of_val(n as nat);
}

/// Parsing the signed rendering of any machine integer gives it back.
pub proof fn lemma_parse_dec_i64_roundtrip(n: int)
    requires
        i64::MIN <= n <= i64::MAX,
    ensures
        spec_parse_i64(dec_i64(n)) == Some(n as i64),
{
    if n >= 0 {
        lemma_parse_dec_roundtrip(n);
    } else {
        lemma_dec_of_val((-n) as nat);
        let s = dec_i64(n);
        assert(s == seq!['-'] + dec_of((-n) as nat));
        assert(s[0] == '-');
        assert(s.drop_first() =~= dec_of((-n) as nat));
        assert(digits_val(dec_of((-n) as nat)) == -n);
        assert(-n <= 0x8000_0000_0000_0000);
    }
}

/// A decimal digit is not whitespace and none of the characters the
/// manifest grammar treats specially.
pub proof fn lemma_digit_char_facts(c: char)
    requires
        is_digit(c),
    ensures
        !crate::text::is_wspace(c),
        c != '\n',
        c != '=',
        c != '"',
        c != '[',
        c != '#',
        c != '-',
{
}

/// The characters of a signed decimal rendering: a possible leading minus,
/// digits everywhere else, nothing the grammar treats specially.
pub proof fn lemma_dec_i64_chars(n: int)
    requires
        i64::MIN <= n <= i64::MAX,
    ensures
        dec_i64(n).len() > 0,
        dec_i64(n)[0] == '-' || is_digit(dec_i64(n)[0]),
        is_digit(dec_i64(n).last()),
        forall|k: int|
            0 <= k < dec_i64(n).len() ==> dec_i64(n)[k] == '-' || is_digit(
                #[trigger] dec_i64(n)[k],
            ),
{
    if n >= 0 {
        lemma_dec_of_val(n as nat);
        assert(dec_i64(n) == dec_of(n as nat));
        assert(is_digit(dec_of(n as nat)[dec_of(n as nat).len() - 1]));
    } else {
        lemma_dec_of_val((-n) as nat);
        let d = dec_of((-n) as nat);
        let s = dec_i64(n);
        assert(s == seq!['-'] + d);
        assert(s[0] == '-');
        assert(s.last() == d.last());
        assert(is_digit(d[d.len() - 1]));
        assert(forall|k: int| 1 <= k < s.len() ==> s[k] == d[k - 1]);
        assert(forall|k: int| 0 <= k < d.len() ==> is_digit(#[trigger] d[k]));
    }
}

} // verus!