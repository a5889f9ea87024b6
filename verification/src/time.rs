//! Spans of time: track lengths, playback positions and how they are shown.

use crate::text::{decimal, digit, digit_char, push_decimal};
use vstd::prelude::*;

verus! {

/// Nanoseconds in one second.
pub const NANOS_PER_SEC: u128 = 1_000_000_000;

/// Nanoseconds in one millisecond.
pub const NANOS_PER_MILLI: u128 = 1_000_000;

/// A span of time, counted in nanoseconds. The zero span doubles as "length
/// unknown" for a track.
#[derive(Clone, Copy, Debug, PartialEq, Eq, Structural)]
pub struct Duration {
    pub nanos: u128,
}

impl View for Duration {
    type V = nat;

    open spec fn view(&self) -> nat {
        self.nanos as nat
    }
}

impl Duration {
    /// The empty span.
    pub fn zero() -> (d: Duration)
        ensures
            d@ == 0,
    {
        Duration { nanos: 0 }
    }

    /// A span of `secs` whole seconds.
    pub fn from_secs(secs: u64) -> (d: Duration)
        ensures
            d@ == secs * NANOS_PER_SEC,
    {
        let wide: u128 = secs as u128;
        Duration { nanos: wide * NANOS_PER_SEC }
    }

    /// A span of `millis` milliseconds.
    pub fn from_millis(millis: u64) -> (d: Duration)
        ensures
            d@ == millis * NANOS_PER_MILLI,
    {
        let wide: u128 = millis as u128;
        Duration { nanos: wide * NANOS_PER_MILLI }
    }

    /// A span of `nanos` nanoseconds.
    pub fn from_nanos(nanos: u128) -> (d: Duration)
        ensures
            d@ == nanos,
    {
        Duration { nanos }
    }

    /// The whole seconds in the span; a started second does not count.
    pub fn as_secs(&self) -> (secs: u128)
        ensures
            secs == self@ / (NANOS_PER_SEC as nat),
    {
        self.nanos / NANOS_PER_SEC
    }

    /// The span in nanoseconds.
    pub fn as_nanos(&self) -> (nanos: u128)
        ensures
            nanos == self@,
    {
        self.nanos
    }

    /// Whether the span is empty.
    pub fn is_zero(&self) -> (r: bool)
        ensures
            r == (self@ == 0),
    {
        self.nanos == 0
    }

    /// The sum of two spans, held at the longest span there is.
    pub fn saturating_add(self, other: Duration) -> (d: Duration)
        ensures
            d@ == if self@ + other@ <= u128::MAX {
                self@ + other@
            } else {
                u128::MAX as nat
            },
    {
        Duration { nanos: self.nanos.saturating_add(other.nanos) }
    }

    /// What is left of the span after `other`, if `other` is not the longer.
    pub fn checked_sub(self, other: Duration) -> (d: Option<Duration>)
        ensures
            match d {
                Some(rest) => other@ <= self@ && rest@ == self@ - other@,
                None => other@ > self@,
            },
    {
        if other.nanos <= self.nanos {
            Some(Duration { nanos: self.nanos - other.nanos })
        } else {
            None
        }
    }

    /// What is left of the span after `other`, or nothing if `other` is longer.
    pub fn saturating_sub(self, other: Duration) -> (d: Duration)
        ensures
            d@ == if other@ <= self@ {
                self@ - other@
            } else {
                0
            },
    {
        if other.nanos <= self.nanos {
            Duration { nanos: self.nanos - other.nanos }
        } else {
            Duration { nanos: 0 }
        }
    }
}

/// How a span of `secs` whole seconds is shown: hours, minutes and seconds,
/// each left out when it is zero, with one blank between two of them and
/// none behind the last; `n/a` when all three are zero, which is how a
/// length that is not known is shown.
pub open spec fn duration_text(secs: nat) -> Seq<char> {
    let s = secs % 60;
    let m = (secs / 60) % 60;
    let h = (secs / 60) / 60;
    let hours = if h > 0 {
        decimal(h) + "h"@
    } else {
        Seq::empty()
    };
    let minutes = if m > 0 {
        decimal(m) + "m"@
    } else {
        Seq::empty()
    };
    let seconds = if s > 0 {
        decimal(s) + "s"@
    } else {
        Seq::empty()
    };
    let after_hours = if h > 0 && (m > 0 || s > 0) {
        " "@
    } else {
        Seq::empty()
    };
    let after_minutes = if m > 0 && s > 0 {
        " "@
    } else {
        Seq::empty()
    };
    if h == 0 && m == 0 && s == 0 {
        "n/a"@
    } else {
        hours + after_hours + minutes + after_minutes + seconds
    }
}

/// How a playback position of `secs` whole seconds is shown: as a span, but
/// the very start of a track reads `0s`.
pub open spec fn position_text(secs: nat) -> Seq<char> {
    if secs == 0 {
        "0s"@
    } else {
        duration_text(secs)
    }
}

/// Shows a span as hours, minutes and seconds.
pub fn format_duration(d: Duration) -> (r: String)
    ensures
        r@ == duration_text(d@ / (NANOS_PER_SEC as nat)),
{
    let secs = d.as_secs();
    let s = secs % 60;
    let m = (secs / 60) % 60;
    let h = (secs / 60) / 60;
    let mut out = String::new();
    if h == 0 && m == 0 && s == 0 {
        out.append("n/a");
        return out;
    }
    if h > 0 {
        push_decimal(&mut out, h);
        out.append("h");
        if m > 0 || s > 0 {
            out.append(" ");
        }
    }
    if m > 0 {
        push_decimal(&mut out, m);
        out.append("m");
        if s > 0 {
            out.append(" ");
        }
    }
    if s > 0 {
        push_decimal(&mut out, s);
        out.append("s");
    }
    proof {
        assert(out@ =~= duration_text(d@ / (NANOS_PER_SEC as nat)));
    }
    out
}

/// Shows a playback position: as a span, but the very start of a track
/// reads `0s`.
pub fn format_position(d: Duration) -> (r: String)
    ensures
        r@ == position_text(d@ / (NANOS_PER_SEC as nat)),
{
    if d.as_secs() == 0 {
        String::from_str("0s")
    } else {
        format_duration(d)
    }
}

/// Ten to the power of `n`.
pub open spec fn pow10(n: nat) -> nat
    decreases n,
{
    if n == 0 {
        1
    } else {
        10 * pow10((n - 1) as nat)
    }
}

/// The digits behind the decimal point of a fraction of `frac` units out of
/// ten to the power of `places`, up to the last one that is not zero.
pub open spec fn fraction_digits(frac: nat, places: nat) -> Seq<char>
    decreases places,
{
    if frac == 0 || places == 0 {
        Seq::empty()
    } else {
        seq![digit(frac / pow10((places - 1) as nat))] + fraction_digits(
            frac % pow10((places - 1) as nat),
            (places - 1) as nat,
        )
    }
}

/// A number with a unit: `whole`, then a point and the digits of the
/// fraction unless the fraction is zero, then the unit.
pub open spec fn with_unit(whole: nat, frac: nat, places: nat, unit: Seq<char>) -> Seq<char> {
    if frac == 0 {
        decimal(whole) + unit
    } else {
        decimal(whole) + seq!['.'] + fraction_digits(frac, places) + unit
    }
}

/// A span as diagnostics show it: in the largest of seconds, milliseconds,
/// microseconds and nanoseconds that it reaches, with as many decimals as it
/// needs.
pub open spec fn debug_text(nanos: nat) -> Seq<char> {
    if nanos >= 1_000_000_000 {
        with_unit(nanos / 1_000_000_000, nanos % 1_000_000_000, 9, "s"@)
    } else if nanos >= 1_000_000 {
        with_unit(nanos / 1_000_000, nanos % 1_000_000, 6, "ms"@)
    } else if nanos >= 1_000 {
        with_unit(nanos / 1_000, nanos % 1_000, 3, "µs"@)
    } else {
        with_unit(nanos, 0, 0, "ns"@)
    }
}

fn ten_to(n: u32) -> (r: u128)
    requires
        n <= 9,
    ensures
        r == pow10(n as nat),
        r <= 1_000_000_000,
{
    let mut r: u128 = 1;
    let mut i: u32 = 0;
    proof {
        reveal_with_fuel(pow10, 10);
        assert(pow10(9) == 1_000_000_000);
    }
    while i < n
        invariant
            i <= n <= 9,
            r == pow10(i as nat),
            r <= pow10(9),
            pow10(9) == 1_000_000_000,
        decreases n - i,
    {
        proof {
            lemma_pow10_grows((i + 1) as nat, 9);
        }
        r = r * 10;
        i = i + 1;
    }
    r
}

proof fn lemma_pow10_grows(a: nat, b: nat)
    requires
        a <= b,
    ensures
        0 < pow10(a) <= pow10(b),
    decreases b,
{
    if a < b {
        lemma_pow10_grows(a, (b - 1) as nat);
    } else if a > 0 {
        lemma_pow10_grows((a - 1) as nat, (a - 1) as nat);
    }
}

fn push_fraction_digits(out: &mut String, frac: u128, places: u32)
    requires
        places <= 9,
        frac < pow10(places as nat),
    ensures
        final(out)@ == old(out)@ + fraction_digits(frac as nat, places as nat),
    decreases places,
{
    if frac == 0 || places == 0 {
        assert(out@ + fraction_digits(frac as nat, places as nat) =~= out@);
        return ;
    }
    let unit = ten_to(places - 1);
    proof {
        lemma_pow10_grows((places - 1) as nat, (places - 1) as nat);
        assert(frac / unit < 10) by (nonlinear_arith)
            requires
                frac < 10 * unit,
                unit > 0,
        ;
        assert(frac % unit < unit) by (nonlinear_arith)
            requires
                unit > 0,
        ;
    }
    out.push(digit_char(frac / unit));
    push_fraction_digits(out, frac % unit, places - 1);
    proof {
        assert(out@ =~= old(out)@ + fraction_digits(frac as nat, places as nat));
    }
}

fn push_with_unit(out: &mut String, whole: u128, frac: u128, places: u32, unit: &str)
    requires
        places <= 9,
        frac < pow10(places as nat),
    ensures
        final(out)@ == old(out)@ + with_unit(whole as nat, frac as nat, places as nat, unit@),
{
    push_decimal(out, whole);
    if frac != 0 {
        out.push('.');
        push_fraction_digits(out, frac, places);
    }
    out.append(unit);
    proof {
        assert(out@ =~= old(out)@ + with_unit(whole as nat, frac as nat, places as nat, unit@));
    }
}

impl Duration {
    /// The span as diagnostics show it: `1.5s`, `250ms`, `0ns`.
    pub fn debug_string(&self) -> (r: String)
        ensures
            r@ == debug_text(self@),
    {
        let n = self.nanos;
        let mut out = String::new();
        proof {
            reveal_with_fuel(pow10, 10);
        }
        if n >= 1_000_000_000 {
            push_with_unit(&mut out, n / 1_000_000_000, n % 1_000_000_000, 9, "s");
        } else if n >= 1_000_000 {
            push_with_unit(&mut out, n / 1_000_000, n % 1_000_000, 6, "ms");
        } else if n >= 1_000 {
            push_with_unit(&mut out, n / 1_000, n % 1_000, 3, "µs");
        } else {
            push_with_unit(&mut out, n, 0, 0, "ns");
        }
        out
    }
}

} // verus!
