//! Elapsed wall-clock time and its human-scaled text.

use crate::decimal::{decimal, push_decimal};
use std::time::{Duration, Instant};
use vstd::prelude::*;
use vstd::string::*;

verus! {

/// Nanoseconds in one second: the fractional part of a duration stays below it.
pub const NANOS_PER_SEC: u32 = 1_000_000_000;

/// The numeral of `n`, padded with one leading zero to at least two digits.
pub open spec fn two_digits(n: nat) -> Seq<char> {
    if n < 10 {
        seq!['0'] + decimal(n)
    } else {
        decimal(n)
    }
}

/// The text of a duration of `secs` whole seconds and `nanos` further
/// nanoseconds. The unit is chosen by magnitude; every division truncates.
///
/// | duration            | text                                   |
/// |---------------------|----------------------------------------|
/// | below 1 µs          | nanoseconds, then ` ns`                |
/// | below 1 ms          | whole microseconds, then ` µs`         |
/// | below 1 s           | whole milliseconds, then ` ms`         |
/// | below 10 s          | seconds, `.`, two digits of hundredths, then ` s` |
/// | 10 s and more       | whole seconds, then ` s`               |
pub open spec fn elapsed_text(secs: nat, nanos: nat) -> Seq<char> {
    if secs == 0 {
        if nanos < 1_000 {
            decimal(nanos) + " ns"@
        } else if nanos < 1_000_000 {
            decimal(nanos / 1_000) + " µs"@
        } else {
            decimal(nanos / 1_000_000) + " ms"@
        }
    } else if secs < 10 {
        decimal(secs) + "."@ + two_digits(nanos / 10_000_000) + " s"@
    } else {
        decimal(secs) + " s"@
    }
}

/// The text never rounds: below one second it shows whole units of the chosen
/// magnitude, so two durations within the same whole unit read alike; below
/// ten seconds it shows whole hundredths of a second; and from ten seconds on
/// the part below one second does not show at all.
pub proof fn lemma_elapsed_text_truncates(secs: nat, nanos: nat, other: nat)
    ensures
        secs == 0 && 1_000 <= nanos < 1_000_000 && nanos / 1_000 == other / 1_000 ==> elapsed_text(
            secs,
            nanos,
        ) == elapsed_text(secs, other),
        secs == 0 && 1_000_000 <= nanos && nanos / 1_000_000 == other / 1_000_000 ==> elapsed_text(
            secs,
            nanos,
        ) == elapsed_text(secs, other),
        0 < secs < 10 && nanos / 10_000_000 == other / 10_000_000 ==> elapsed_text(secs, nanos)
            == elapsed_text(secs, other),
        secs >= 10 ==> elapsed_text(secs, nanos) == elapsed_text(secs, other),
{
}

#[verifier::external_type_specification]
#[verifier::external_body]
pub struct ExInstant(Instant);

/// `Instant::elapsed`: the time that has passed since the instant was taken.
/// It reads the clock, so nothing is claimed of the duration that comes back.
pub assume_specification[ Instant::elapsed ](start: &Instant) -> (d: Duration);

/// The whole seconds that a duration holds.
pub uninterp spec fn whole_secs(d: Duration) -> u64;

/// The part of a duration below one second, in nanoseconds.
pub uninterp spec fn fraction_nanos(d: Duration) -> u32;

/// `Duration::as_secs`: the whole seconds of the duration. They depend on the
/// duration alone; any `u64` can come back.
pub assume_specification[ Duration::as_secs ](d: &Duration) -> (secs: u64)
    ensures
        secs == whole_secs(*d),
;

/// `Duration::subsec_nanos`: the fractional part of the duration in
/// nanoseconds. It depends on the duration alone, and std documents it to be
/// less than one billion.
pub assume_specification[ Duration::subsec_nanos ](d: &Duration) -> (nanos: u32)
    ensures
        nanos == fraction_nanos(*d),
        nanos < NANOS_PER_SEC,
;

/// A span of time: whole seconds and the nanoseconds beyond them.
#[derive(Clone, Copy, Debug)]
pub struct Elapsed {
    secs: u64,
    nanos: u32,
}

impl Elapsed {
    #[verifier::type_invariant]
    spec fn well_formed(self) -> bool {
        self.nanos < NANOS_PER_SEC
    }

    /// The whole seconds of the span.
    pub closed spec fn secs(self) -> nat {
        self.secs as nat
    }

    /// The nanoseconds beyond the whole seconds.
    pub closed spec fn nanos(self) -> nat {
        self.nanos as nat
    }

    /// The span of `secs` seconds and `nanos` nanoseconds, if `nanos` is a
    /// proper fraction of a second.
    pub fn new(secs: u64, nanos: u32) -> (r: Option<Elapsed>)
        ensures
            r is Some <==> nanos < NANOS_PER_SEC,
            r matches Some(e) ==> e.secs() == secs && e.nanos() == nanos,
    {
        if nanos < NANOS_PER_SEC {
            Some(Elapsed { secs, nanos })
        } else {
            None
        }
    }

    /// The time that has passed since `start`: the clock is read once, and the
    /// span holds the whole seconds and the fraction of the duration that it
    /// gave. Which duration that is, only the clock says.
    pub fn from(start: &Instant) -> (e: Elapsed)
        ensures
            exists|d: Duration|
                e.secs() == #[trigger] whole_secs(d) && e.nanos() == fraction_nanos(d),
            e.nanos() < NANOS_PER_SEC,
    {
        let d = start.elapsed();
        let e = Elapsed::from_duration(&d);
        assert(e.secs() == whole_secs(d) && e.nanos() == fraction_nanos(d));
        e
    }

    /// The span that a duration holds: its whole seconds and its fraction.
    pub fn from_duration(d: &Duration) -> (e: Elapsed)
        ensures
            e.secs() == whole_secs(*d),
            e.nanos() == fraction_nanos(*d),
            e.nanos() < NANOS_PER_SEC,
    {
        Elapsed { secs: d.as_secs(), nanos: d.subsec_nanos() }
    }

    /// The whole seconds of the span.
    pub fn as_secs(&self) -> (s: u64)
        ensures
            s == self.secs(),
    {
        self.secs
    }

    /// The nanoseconds beyond the whole seconds, always below one billion.
    pub fn subsec_nanos(&self) -> (n: u32)
        ensures
            n == self.nanos(),
            n < NANOS_PER_SEC,
    {
        proof {
            use_type_invariant(self);
        }
        self.nanos
    }

    /// The span as text, in the unit that fits its magnitude.
    pub fn to_string(&self) -> (s: String)
        ensures
            s@ == elapsed_text(self.secs(), self.nanos()),
    {
        let mut out = String::new();
        if self.secs == 0 {
            if self.nanos < 1_000 {
                push_decimal(&mut out, self.nanos as u128);
                out.append(" ns");
                assert(out@ =~= decimal(self.nanos()) + " ns"@);
            } else if self.nanos < 1_000_000 {
                push_decimal(&mut out, (self.nanos / 1_000) as u128);
                out.append(" µs");
                assert(out@ =~= decimal(self.nanos() / 1_000) + " µs"@);
            } else {
                push_decimal(&mut out, (self.nanos / 1_000_000) as u128);
                out.append(" ms");
                assert(out@ =~= decimal(self.nanos() / 1_000_000) + " ms"@);
            }
        } else if self.secs < 10 {
            let hundredths = self.nanos / 10_000_000;
            push_decimal(&mut out, self.secs as u128);
            out.append(".");
            if hundredths < 10 {
                proof {
                    reveal_strlit("0");
                }
                out.append("0");
            }
            push_decimal(&mut out, hundredths as u128);
            out.append(" s");
            assert(out@ =~= decimal(self.secs()) + "."@ + two_digits(self.nanos() / 10_000_000)
                + " s"@);
        } else {
            push_decimal(&mut out, self.secs as u128);
            out.append(" s");
            assert(out@ =~= decimal(self.secs()) + " s"@);
        }
        out
    }
}

} // verus!
