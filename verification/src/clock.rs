//! Wall-clock version codes and timestamp formatting.
//!
//! The clock itself comes from the `chrono` crate through two trusted
//! wrappers that hand back plain calendar fields; everything computed from
//! those fields is verified.

use vstd::prelude::*;

use chrono::Datelike;
use chrono::Timelike;

use crate::num::dec_of;
use crate::num::push_dec_u64;
use crate::text::push_char;

verus! {

/// The numeric reading of the fields laid out as `YYYYMMDDHHMM`: the code a
/// decimal parse of that text yields, for negative years included.
pub open spec fn spec_version_code(y: int, mo: int, d: int, h: int, mi: int) -> int {
    if y >= 0 {
        y * 100_000_000 + mo * 1_000_000 + d * 10_000 + h * 100 + mi
    } else {
        y * 100_000_000 - (mo * 1_000_000 + d * 10_000 + h * 100 + mi)
    }
}

/// Relies on chrono's `Utc::now` and its `Datelike`/`Timelike` accessors:
/// year, month (1-12), day (1-31), hour (0-23), minute (0-59) and second
/// (0-59) of the current UTC time, the ranges chrono documents.
#[verifier::external_body]
fn now_utc_fields() -> (r: (i32, u32, u32, u32, u32, u32))
    ensures
        1 <= r.1 <= 12,
        1 <= r.2 <= 31,
        r.3 <= 23,
        r.4 <= 59,
        r.5 <= 59,
{
    let now = chrono::Utc::now();
    (now.year(), now.month(), now.day(), now.hour(), now.minute(), now.second())
}

/// Relies on chrono's `DateTime::from_timestamp` and the same accessors:
/// the UTC calendar fields of a Unix timestamp, `None` when chrono reports
/// the seconds out of range.
#[verifier::external_body]
fn utc_fields_of_timestamp(ts: i64) -> (r: Option<(i32, u32, u32, u32, u32, u32)>)
    ensures
        r matches Some(f) ==> 1 <= f.1 <= 12 && 1 <= f.2 <= 31 && f.3 <= 23 && f.4 <= 59 && f.5
            <= 59,
{
    match chrono::DateTime::from_timestamp(ts, 0) {
        Some(dt) => Some((dt.year(), dt.month(), dt.day(), dt.hour(), dt.minute(), dt.second())),
        None => None,
    }
}

/// The code for one set of calendar fields.
pub fn version_code_from_fields(year: i32, month: u32, day: u32, hour: u32, minute: u32) -> (code:
    i64)
    requires
        1 <= month <= 12,
        1 <= day <= 31,
        hour <= 23,
        minute <= 59,
    ensures
        code == spec_version_code(year as int, month as int, day as int, hour as int, minute as int),
{
    let rest: i64 = (month as i64) * 1_000_000 + (day as i64) * 10_000 + (hour as i64) * 100 + (
    minute as i64);
    if year >= 0 {
        (year as i64) * 100_000_000 + rest
    } else {
        (year as i64) * 100_000_000 - rest
    }
}

/// A version code from the current UTC wall-clock time: the fields
/// `YYYYMMDDHHMM` read as one number.
pub fn generate_version_code() -> (code: i64)
    ensures
        exists|y: int, mo: int, d: int, h: int, mi: int|
            1 <= mo <= 12 && 1 <= d <= 31 && 0 <= h <= 23 && 0 <= mi <= 59 && code
                == #[trigger] spec_version_code(y, mo, d, h, mi),
{
    let (y, mo, d, h, mi, _s) = now_utc_fields();
    let code = version_code_from_fields(y, mo, d, h, mi);
    proof {
        assert(code == spec_version_code(y as int, mo as int, d as int, h as int, mi as int));
    }
    code
}

/// A version code from the UTC reading of a Unix timestamp; when the
/// timestamp is out of range, from the current time instead.
pub fn generate_version_code_from_timestamp(timestamp: i64) -> (code: i64)
    ensures
        exists|y: int, mo: int, d: int, h: int, mi: int|
            1 <= mo <= 12 && 1 <= d <= 31 && 0 <= h <= 23 && 0 <= mi <= 59 && code
                == #[trigger] spec_version_code(y, mo, d, h, mi),
{
    match utc_fields_of_timestamp(timestamp) {
        Some((y, mo, d, h, mi, _s)) => {
            let code = version_code_from_fields(y, mo, d, h, mi);
            proof {
                assert(code == spec_version_code(
                    y as int,
                    mo as int,
                    d as int,
                    h as int,
                    mi as int,
                ));
            }
            code
        },
        None => generate_version_code(),
    }
}

/// The current UTC year, straight from the clock.
pub fn current_year() -> i32 {
    let (y, _mo, _d, _h, _mi, _s) = now_utc_fields();
    y
}

/// `n` in decimal, zero-padded to two digits.
pub open spec fn pad2(n: int) -> Seq<char> {
    if 0 <= n < 10 {
        seq!['0'] + dec_of(n as nat)
    } else {
        dec_of(n as nat)
    }
}

/// `n` in decimal, zero-padded to four digits, with a sign for negative
/// years.
pub open spec fn pad4(n: int) -> Seq<char>
    decreases (if n < 0 {
        1int
    } else {
        0int
    }),
{
    if n < 0 {
        seq!['-'] + pad4(-n)
    } else if n < 10 {
        seq!['0', '0', '0'] + dec_of(n as nat)
    } else if n < 100 {
        seq!['0', '0'] + dec_of(n as nat)
    } else if n < 1000 {
        seq!['0'] + dec_of(n as nat)
    } else {
        dec_of(n as nat)
    }
}

fn push_pad2(out: &mut String, n: u64)
    requires
        n <= 59,
    ensures
        final(out)@ == old(out)@ + pad2(n as int),
{
    if n < 10 {
        push_char(out, '0');
    }
    push_dec_u64(out, n);
    proof {
        assert(final(out)@ =~= old(out)@ + pad2(n as int));
    }
}

/// The text `YYYY-MM-DD HH:MM:SS UTC` for one set of calendar fields.
pub open spec fn spec_format_fields(y: int, mo: int, d: int, h: int, mi: int, s: int) -> Seq<
    char,
> {
    pad4(y) + seq!['-'] + pad2(mo) + seq!['-'] + pad2(d) + seq![' '] + pad2(h) + seq![':'] + pad2(
        mi,
    ) + seq![':'] + pad2(s) + " UTC"@
}

/// Renders one set of calendar fields as `YYYY-MM-DD HH:MM:SS UTC`.
pub fn format_utc_fields(year: i32, month: u32, day: u32, hour: u32, minute: u32, second: u32) -> (r:
    String)
    requires
        1 <= month <= 12,
        1 <= day <= 31,
        hour <= 23,
        minute <= 59,
        second <= 59,
    ensures
        r@ == spec_format_fields(
            year as int,
            month as int,
            day as int,
            hour as int,
            minute as int,
            second as int,
        ),
{
    let mut out = String::new();
    if year < 0 {
        push_char(&mut out, '-');
    }
    let mag: u64 = if year < 0 {
        if year == i32::MIN {
            2147483648u64
        } else {
            (-year) as u64
        }
    } else {
        year as u64
    };
    if mag < 10 {
        out.append("000");
    } else if mag < 100 {
        out.append("00");
    } else if mag < 1000 {
        out.append("0");
    }
    push_dec_u64(&mut out, mag);
    proof {
        reveal_strlit("000");
        reveal_strlit("00");
        reveal_strlit("0");
        assert(mag as int == if year < 0 {
            0 - year as int
        } else {
            year as int
        });
        if year < 0 {
            assert(pad4(year as int) == seq!['-'] + pad4(0 - year as int));
        }
        assert(out@ =~= pad4(year as int));
    }
    push_char(&mut out, '-');
    push_pad2(&mut out, month as u64);
    push_char(&mut out, '-');
    push_pad2(&mut out, day as u64);
    push_char(&mut out, ' ');
    push_pad2(&mut out, hour as u64);
    push_char(&mut out, ':');
    push_pad2(&mut out, minute as u64);
    push_char(&mut out, ':');
    push_pad2(&mut out, second as u64);
    out.append(" UTC");
    proof {
        assert(out@ =~= spec_format_fields(
            year as int,
            month as int,
            day as int,
            hour as int,
            minute as int,
            second as int,
        ));
    }
    out
}

/// The UTC reading of a Unix timestamp as readable text, or a fixed notice
/// when the timestamp is out of range.
pub fn format_timestamp(timestamp: i64) -> (r: String)
    ensures
        r@ == "Invalid timestamp"@ || exists|y: int, mo: int, d: int, h: int, mi: int, s: int|
            1 <= mo <= 12 && 1 <= d <= 31 && 0 <= h <= 23 && 0 <= mi <= 59 && 0 <= s <= 59 && r@
                == #[trigger] spec_format_fields(y, mo, d, h, mi, s),
{
    match utc_fields_of_timestamp(timestamp) {
        Some((y, mo, d, h, mi, s)) => {
            let out = format_utc_fields(y, mo, d, h, mi, s);
            proof {
                assert(out@ == spec_format_fields(
                    y as int,
                    mo as int,
                    d as int,
                    h as int,
                    mi as int,
                    s as int,
                ));
            }
            out
        },
        None => "Invalid timestamp".to_owned(),
    }
}

/// Version codes order wall-clock readings: strictly later calendar fields
/// give a strictly greater code. A code derived at one moment therefore
/// exceeds every code derived from an earlier moment.
pub proof fn lemma_version_code_monotonic(
    y1: int,
    mo1: int,
    d1: int,
    h1: int,
    mi1: int,
    y2: int,
    mo2: int,
    d2: int,
    h2: int,
    mi2: int,
)
    requires
        0 <= y1,
        1 <= mo1 <= 12,
        1 <= d1 <= 31,
        0 <= h1 <= 23,
        0 <= mi1 <= 59,
        1 <= mo2 <= 12,
        1 <= d2 <= 31,
        0 <= h2 <= 23,
        0 <= mi2 <= 59,
        y1 < y2 || (y1 == y2 && (mo1 < mo2 || (mo1 == mo2 && (d1 < d2 || (d1 == d2 && (h1 < h2 || (
        h1 == h2 && mi1 < mi2))))))),
    ensures
        spec_version_code(y1, mo1, d1, h1, mi1) < spec_version_code(y2, mo2, d2, h2, mi2),
{
}

/// In the years 1000 through 9999 every wall-clock version code has exactly
/// twelve decimal digits.
pub proof fn lemma_version_code_twelve_digits(y: int, mo: int, d: int, h: int, mi: int)
    requires
        1000 <= y <= 9999,
        1 <= mo <= 12,
        1 <= d <= 31,
        0 <= h <= 23,
        0 <= mi <= 59,
    ensures
        100_000_000_000 <= spec_version_code(y, mo, d, h, mi) < 1_000_000_000_000,
{
}

} // verus!