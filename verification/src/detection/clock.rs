//! The current time, and the time stamp that names a detection session.

use vstd::prelude::*;

use chrono::{Datelike, Timelike};

use crate::text::{decimal, owned, push_decimal};

verus! {

/// A point in time as the system clock gives it.
#[verifier::external_type_specification]
#[verifier::external_body]
pub struct ExSystemTime(std::time::SystemTime);

/// Calls `std::time::SystemTime::now`. Nothing is stated: it is the clock.
#[verifier::external_body]
fn system_now() -> std::time::SystemTime {
    std::time::SystemTime::now()
}

/// Calls `SystemTime::duration_since(UNIX_EPOCH)`, which fails when `t` lies before the
/// epoch, and gives the duration as whole seconds and the nanoseconds beyond them.
/// Nothing is stated: `t` is opaque here.
#[verifier::external_body]
fn since_epoch(t: std::time::SystemTime) -> Option<(u64, u32)> {
    match t.duration_since(std::time::UNIX_EPOCH) {
        Ok(d) => Some((d.as_secs(), d.subsec_nanos())),
        Err(_) => None,
    }
}

/// The UTC calendar date and time of `secs` seconds after the UNIX epoch, as year, month,
/// day, hour, minute and second, as chrono computes it; nothing when chrono cannot hold
/// that date.
pub uninterp spec fn civil_of(secs: i64) -> Option<(i32, u32, u32, u32, u32, u32)>;

/// Calls `chrono::DateTime::from_timestamp(secs, 0)` and reads the year, month, day,
/// hour, minute and second of the result. The contract names the result, a function of
/// `secs` alone.
#[verifier::external_body]
pub fn civil_time(secs: i64) -> (r: Option<(i32, u32, u32, u32, u32, u32)>)
    ensures
        r == civil_of(secs),
{
    match chrono::DateTime::from_timestamp(secs, 0) {
        Some(t) => Some((t.year(), t.month(), t.day(), t.hour(), t.minute(), t.second())),
        None => None,
    }
}

/// The decimal digits of `n`, with zeros in front up to `width` digits.
pub open spec fn zero_padded(n: nat, width: nat) -> Seq<char> {
    if decimal(n).len() < width {
        Seq::new((width - decimal(n).len()) as nat, |i: int| '0') + decimal(n)
    } else {
        decimal(n)
    }
}

/// A year as `%Y` prints it: four digits with zeros in front, and a sign in front of
/// years below 0 or above 9999.
pub open spec fn year_text(y: int) -> Seq<char> {
    if 0 <= y <= 9999 {
        zero_padded(y as nat, 4)
    } else if y > 9999 {
        "+"@ + zero_padded(y as nat, 4)
    } else {
        "-"@ + zero_padded((-y) as nat, 4)
    }
}

/// A date and time as `%Y%m%d-%H%M%S` prints it.
pub open spec fn stamp_text(c: (i32, u32, u32, u32, u32, u32)) -> Seq<char> {
    year_text(c.0 as int) + zero_padded(c.1 as nat, 2) + zero_padded(c.2 as nat, 2) + "-"@
        + zero_padded(c.3 as nat, 2) + zero_padded(c.4 as nat, 2) + zero_padded(c.5 as nat, 2)
}

/// Appends `n` with zeros in front up to `width` digits.
fn push_padded(s: &mut String, n: u64, width: usize)
    ensures
        final(s)@ == old(s)@ + zero_padded(n as nat, width as nat),
{
    let mut digits = String::new();
    push_decimal(&mut digits, n);
    assert(digits@ == decimal(n as nat));
    let len = digits.unicode_len();
    let ghost start = s@;
    let mut k: usize = len;
    while k < width
        invariant
            len == decimal(n as nat).len(),
            len <= k,
            k <= width || k == len,
            s@ == start + Seq::new((k - len) as nat, |i: int| '0'),
        decreases width - k,
    {
        s.push('0');
        assert(Seq::new((k - len) as nat, |i: int| '0').push('0') =~= Seq::new(
            (k + 1 - len) as nat,
            |i: int| '0',
        ));
        k = k + 1;
    }
    s.push_str(digits.as_str());
    if len >= width {
        assert(Seq::new((k - len) as nat, |i: int| '0') =~= Seq::<char>::empty());
        assert(s@ =~= start + decimal(n as nat));
    } else {
        assert(k == width);
        assert(s@ =~= start + (Seq::new((width - len) as nat, |i: int| '0') + decimal(n as nat)));
    }
}

/// The time stamp `%Y%m%d-%H%M%S` of a date and time.
pub fn session_stamp(c: (i32, u32, u32, u32, u32, u32)) -> (s: String)
    ensures
        s@ == stamp_text(c),
{
    let (y, mo, d, h, mi, se) = c;
    let mut s = String::new();
    if y < 0 {
        s.push('-');
        push_padded(&mut s, (-(y as i64)) as u64, 4);
        proof {
            reveal_strlit("-");
            assert(s@ =~= "-"@ + zero_padded((-y) as nat, 4));
        }
    } else if y > 9999 {
        s.push('+');
        push_padded(&mut s, y as u64, 4);
        proof {
            reveal_strlit("+");
            assert(s@ =~= "+"@ + zero_padded(y as nat, 4));
        }
    } else {
        push_padded(&mut s, y as u64, 4);
        assert(s@ =~= zero_padded(y as nat, 4));
    }
    push_padded(&mut s, mo as u64, 2);
    push_padded(&mut s, d as u64, 2);
    s.push('-');
    push_padded(&mut s, h as u64, 2);
    push_padded(&mut s, mi as u64, 2);
    push_padded(&mut s, se as u64, 2);
    proof {
        reveal_strlit("-");
        assert(s@ =~= stamp_text(c));
    }
    s
}

/// The current time in milliseconds since the UNIX epoch, with its UTC time stamp
/// `%Y%m%d-%H%M%S`; nothing when the clock reads before the epoch or beyond the dates
/// that can be held.
pub fn now_with_stamp() -> (r: Option<(i64, String)>)
    ensures
        r matches Some((ms, stamp)) ==> ms >= 0 && (civil_of((ms / 1000) as i64) matches Some(c)
            && stamp@ == stamp_text(c)),
{
    let (secs, nanos) = match since_epoch(system_now()) {
        Some(t) => t,
        None => {
            return None;
        },
    };
    if secs > 9_000_000_000_000_000 {
        return None;
    }
    let civil = match civil_time(secs as i64) {
        Some(c) => c,
        None => {
            return None;
        },
    };
    let ms: i64 = (secs as i64) * 1000 + ((nanos % 1_000_000_000) / 1_000_000) as i64;
    assert(ms / 1000 == secs as i64) by (nonlinear_arith)
        requires
            ms == (secs as i64) * 1000 + ((nanos % 1_000_000_000) / 1_000_000) as i64,
            0 <= ((nanos % 1_000_000_000) / 1_000_000) < 1000,
            secs <= 9_000_000_000_000_000,
    ;
    Some((ms, session_stamp(civil)))
}

} // verus!
