//! Times in milliseconds: sums that stay in range, and how a position is
//! written for people.
use crate::text::{append, decimal, from_chars, push_decimal, to_chars};
use vstd::prelude::*;

verus! {

pub open spec fn clamp(x: int) -> int {
    if x > i64::MAX {
        i64::MAX as int
    } else if x < i64::MIN {
        i64::MIN as int
    } else {
        x
    }
}

/// The sum of two times, kept in the range of `i64`.
pub open spec fn sat_add(a: int, b: int) -> int {
    clamp(a + b)
}

/// The difference of two times, kept in the range of `i64`.
pub open spec fn sat_sub(a: int, b: int) -> int {
    clamp(a - b)
}

pub open spec fn magnitude(a: int) -> int {
    if a < 0 {
        -a
    } else {
        a
    }
}

pub fn add_ms(a: i64, b: i64) -> (r: i64)
    ensures
        r == sat_add(a as int, b as int),
{
    let sum: i128 = a as i128 + b as i128;
    if sum > i64::MAX as i128 {
        i64::MAX
    } else if sum < i64::MIN as i128 {
        i64::MIN
    } else {
        sum as i64
    }
}

pub fn sub_ms(a: i64, b: i64) -> (r: i64)
    ensures
        r == sat_sub(a as int, b as int),
{
    let diff: i128 = a as i128 - b as i128;
    if diff > i64::MAX as i128 {
        i64::MAX
    } else if diff < i64::MIN as i128 {
        i64::MIN
    } else {
        diff as i64
    }
}

/// The time that has passed at `now` since `then`; none where the clock
/// reads less than it did.
pub open spec fn elapsed(now: u64, then: u64) -> int {
    if now >= then {
        now - then
    } else {
        0
    }
}

pub fn elapsed_ms(now: u64, then: u64) -> (r: u64)
    ensures
        r == elapsed(now, then),
{
    if now >= then {
        now - then
    } else {
        0
    }
}

/// The whole seconds nearest to a time in milliseconds, halves away from 0,
/// without its sign.
pub open spec fn whole_seconds(ms: int) -> nat {
    ((magnitude(ms) + 500) / 1000) as nat
}

pub fn seconds_of(ms: i64) -> (r: u64)
    ensures
        r == whole_seconds(ms as int),
{
    let m: u64 = if ms < 0 {
        (-(ms as i128)) as u64
    } else {
        ms as u64
    };
    (m + 500) / 1000
}

/// A number below 100 in two digits.
pub open spec fn two_digits(n: nat) -> Seq<char> {
    if n < 10 {
        seq!['0'] + decimal(n)
    } else {
        decimal(n)
    }
}

/// The sign that stands before a time: `-` where the time rounds to less
/// than no seconds.
pub open spec fn sign_text(ms: int) -> Seq<char> {
    if ms < 0 && whole_seconds(ms) > 0 {
        seq!['-']
    } else {
        Seq::empty()
    }
}

/// Minutes and seconds of a number of seconds, as `mm:ss`.
pub open spec fn clock_text(s: nat) -> Seq<char> {
    two_digits((s % 3_600) / 60) + seq![':'] + two_digits(s % 60)
}

/// Hours, minutes and seconds of a number of seconds, as `hh:mm:ss`.
pub open spec fn long_clock_text(s: nat) -> Seq<char> {
    two_digits((s % 86_400) / 3_600) + seq![':'] + clock_text(s)
}

/// A number of seconds as a time code: `mm:ss`, with hours before it from
/// one hour on, days from one day on, weeks from one week on.
pub open spec fn duration_text(s: nat) -> Seq<char> {
    let weeks = s / 604_800;
    let days = (s % 604_800) / 86_400;
    let hours = (s % 86_400) / 3_600;
    if weeks > 0 {
        decimal(weeks) + "w, "@ + (decimal(days) + "d, "@ + long_clock_text(s))
    } else if days > 0 {
        decimal(days) + "d, "@ + long_clock_text(s)
    } else if hours > 0 {
        long_clock_text(s)
    } else {
        clock_text(s)
    }
}

/// A time as a time code, with its sign.
pub open spec fn time_code(ms: int) -> Seq<char> {
    sign_text(ms) + duration_text(whole_seconds(ms))
}

/// A time as a number of whole seconds.
pub open spec fn seconds_text(ms: int) -> Seq<char> {
    sign_text(ms) + decimal(whole_seconds(ms))
}

fn push_two_digits(dst: &mut Vec<char>, n: u64)
    requires
        n < 100,
    ensures
        final(dst)@ == old(dst)@ + two_digits(n as nat),
{
    if n < 10 {
        dst.push('0');
    }
    push_decimal(dst, n);
    assert(dst@ =~= old(dst)@ + two_digits(n as nat));
}

fn push_sign(dst: &mut Vec<char>, ms: i64)
    ensures
        final(dst)@ == old(dst)@ + sign_text(ms as int),
{
    if ms < 0 && seconds_of(ms) > 0 {
        dst.push('-');
    }
    assert(dst@ =~= old(dst)@ + sign_text(ms as int));
}

fn clock_chars(s: u64) -> (r: Vec<char>)
    ensures
        r@ == clock_text(s as nat),
{
    let mut out: Vec<char> = Vec::new();
    push_two_digits(&mut out, (s % 3_600) / 60);
    out.push(':');
    push_two_digits(&mut out, s % 60);
    assert(out@ =~= clock_text(s as nat));
    out
}

fn long_clock_chars(s: u64) -> (r: Vec<char>)
    ensures
        r@ == long_clock_text(s as nat),
{
    let mut out: Vec<char> = Vec::new();
    push_two_digits(&mut out, (s % 86_400) / 3_600);
    out.push(':');
    append(&mut out, &clock_chars(s));
    assert(out@ =~= long_clock_text(s as nat));
    out
}

fn days_chars(s: u64) -> (r: Vec<char>)
    ensures
        r@ == decimal(((s % 604_800) / 86_400) as nat) + "d, "@ + long_clock_text(s as nat),
{
    let mut out: Vec<char> = Vec::new();
    push_decimal(&mut out, (s % 604_800) / 86_400);
    append(&mut out, &to_chars("d, "));
    append(&mut out, &long_clock_chars(s));
    assert(out@ =~= decimal(((s % 604_800) / 86_400) as nat) + "d, "@ + long_clock_text(s as nat));
    out
}

fn duration_chars(s: u64) -> (r: Vec<char>)
    ensures
        r@ == duration_text(s as nat),
{
    let weeks = s / 604_800;
    let days = (s % 604_800) / 86_400;
    let hours = (s % 86_400) / 3_600;
    if weeks > 0 {
        let mut out: Vec<char> = Vec::new();
        push_decimal(&mut out, weeks);
        append(&mut out, &to_chars("w, "));
        append(&mut out, &days_chars(s));
        assert(out@ =~= duration_text(s as nat));
        out
    } else if days > 0 {
        days_chars(s)
    } else if hours > 0 {
        long_clock_chars(s)
    } else {
        clock_chars(s)
    }
}

/// Writes a position as a time code.
pub fn format_time(ms: i64) -> (r: String)
    ensures
        r@ == time_code(ms as int),
{
    let mut out: Vec<char> = Vec::new();
    push_sign(&mut out, ms);
    append(&mut out, &duration_chars(seconds_of(ms)));
    assert(out@ =~= time_code(ms as int));
    from_chars(&out)
}

/// Writes a position as a number of whole seconds.
pub fn format_seconds(ms: i64) -> (r: String)
    ensures
        r@ == seconds_text(ms as int),
{
    let mut out: Vec<char> = Vec::new();
    push_sign(&mut out, ms);
    push_decimal(&mut out, seconds_of(ms));
    assert(out@ =~= seconds_text(ms as int));
    from_chars(&out)
}

} // verus!
