//! Unit converters: [`Threshold`] and [`Duration`] turn a physical quantity
//! (acceleration in g or milli-g, time in seconds or milliseconds) into the
//! one-byte value the hardware expects, given the currently configured
//! [`Range`] or [`DataRate`].
//!
//! The two converters round differently on purpose: a threshold is rounded
//! *up* to the next least-significant-bit count so a requested threshold is
//! never under-armed, while a duration is truncated.  A magnitude whose
//! count does not fit one byte is reported as
//! [`Error::Unrepresentable`], never wrapped or saturated.

use vstd::prelude::*;

use vstd::arithmetic::div_mod::{
    lemma_div_denominator, lemma_div_is_ordered, lemma_div_multiples_vanish,
};

use crate::codec::{DataRate, Range};
use crate::Error;

verus! {

/// The quotient of `n` by `d`, rounded up to the next integer.
pub open spec fn ceil_div(n: int, d: int) -> int
    recommends
        0 < d,
{
    if n % d == 0 {
        n / d
    } else {
        n / d + 1
    }
}

/// The least-significant-bit count a threshold of `mgs` milli-g needs under
/// `range`: the magnitude divided by the range's milli-g-per-LSB scale,
/// rounded up.
pub open spec fn threshold_counts(range: Range, mgs: int) -> int {
    ceil_div(mgs, range.spec_as_mg() as int)
}

/// The byte converting `mgs` milli-g under `range` yields: the rounded-up
/// count when it fits one byte, and [`Error::Unrepresentable`] otherwise.
pub open spec fn spec_from_mg(range: Range, mgs: int) -> Result<u8, Error> {
    let c = threshold_counts(range, mgs);
    if c <= 255 {
        Ok(c as u8)
    } else {
        Err(Error::Unrepresentable)
    }
}

/// The byte converting `gs` g yields: exactly the result for the same
/// magnitude written as `gs * 1000` milli-g.
pub open spec fn spec_from_g(range: Range, gs: int) -> Result<u8, Error> {
    spec_from_mg(range, gs * 1000)
}

/// The sample-period count a duration of `seconds` spans at `rate`: the time
/// multiplied by the rate's frequency, truncated.  The frequency is carried
/// in milli-hertz, whence the division by 1000.
pub open spec fn duration_counts(rate: DataRate, seconds: int) -> int {
    (rate.spec_sample_rate_milli_hz() as int) * seconds / 1000
}

/// The byte converting `seconds` under `rate` yields: the truncated count
/// when it fits one byte, and [`Error::Unrepresentable`] otherwise.
pub open spec fn spec_from_seconds(rate: DataRate, seconds: int) -> Result<u8, Error> {
    let c = duration_counts(rate, seconds);
    if c <= 255 {
        Ok(c as u8)
    } else {
        Err(Error::Unrepresentable)
    }
}

/// The byte converting `ms` milliseconds through the historical path yields:
/// the input scaled by 1000 and handed to the seconds path.  The direction
/// of the scaling is dimensionally inverted from what the unit names
/// suggest; it is this conversion's established observable behaviour, kept
/// as it stands rather than silently corrected.  The dimensionally expected
/// conversion is [`spec_from_time_ms`].
pub open spec fn spec_from_milliseconds(rate: DataRate, ms: int) -> Result<u8, Error> {
    spec_from_seconds(rate, ms * 1000)
}

/// The sample-period count a duration of `ms` whole milliseconds spans at
/// `rate`, at the true dimension: milli-hertz times milliseconds is
/// micro-periods, whence the truncating division by one million.
pub open spec fn duration_counts_from_ms(rate: DataRate, ms: int) -> int {
    (rate.spec_sample_rate_milli_hz() as int) * ms / 1_000_000
}

/// The byte converting `ms` whole milliseconds at the true dimension yields:
/// the truncated count when it fits one byte, and
/// [`Error::Unrepresentable`] otherwise.
pub open spec fn spec_from_time_ms(rate: DataRate, ms: int) -> Result<u8, Error> {
    let c = duration_counts_from_ms(rate, ms);
    if c <= 255 {
        Ok(c as u8)
    } else {
        Err(Error::Unrepresentable)
    }
}

/// An interrupt threshold in hardware least-significant-bit units.  The
/// field is crate-private: a threshold is only ever produced by converting a
/// physical magnitude under a [`Range`], so callers cannot confuse units.
#[derive(Clone, Copy, Debug, PartialEq, Eq, Default)]
pub struct Threshold(pub(crate) u8);

/// An interrupt duration in units of one sample period, `1 / rate`.  The
/// field is crate-private: a duration is only ever produced by converting a
/// physical time under a [`DataRate`].
#[derive(Clone, Copy, Debug, PartialEq, Eq, Default)]
pub struct Duration(pub(crate) u8);

impl View for Threshold {
    type V = u8;

    /// A threshold is modelled by the raw byte it writes to the register.
    closed spec fn view(&self) -> u8 {
        self.0
    }
}

impl View for Duration {
    type V = u8;

    /// A duration is modelled by the raw byte it writes to the register.
    closed spec fn view(&self) -> u8 {
        self.0
    }
}

/// A quotient of a value at least `256 * d` is at least 256.
proof fn lemma_div_at_least_256(n: int, d: int)
    requires
        0 < d,
        256 * d <= n,
    ensures
        256 <= n / d,
{
    lemma_div_is_ordered(256 * d, n, d);
    lemma_div_multiples_vanish(256, d);
}

impl Threshold {
    /// The zero threshold, representing "threshold disabled".
    pub fn zero() -> (r: Threshold)
        ensures
            r@ == 0,
    {
        Threshold(0)
    }

    /// The raw byte to write into a threshold register.
    pub fn value(self) -> (r: u8)
        ensures
            r == self@,
    {
        self.0
    }

    /// Convert a magnitude in milli-g into a threshold, dividing by the
    /// range's milli-g-per-LSB scale and rounding up so the armed threshold
    /// is never below the requested one.
    pub fn from_mg(range: Range, mgs: u64) -> (r: Result<Threshold, Error>)
        ensures
            r matches Ok(t) ==> spec_from_mg(range, mgs as int) == Ok::<u8, Error>(t@),
            r matches Err(e) ==> spec_from_mg(range, mgs as int) == Err::<u8, Error>(e),
    {
        let scale = range.as_mg() as u64;
        let q = mgs / scale;
        if q >= 256 {
            return Err(Error::Unrepresentable);
        }
        let counts = if mgs % scale > 0 {
            q + 1
        } else {
            q
        };
        if counts <= 255 {
            Ok(Threshold(counts as u8))
        } else {
            Err(Error::Unrepresentable)
        }
    }

    /// Convert a magnitude in multiples of standard gravity into a
    /// threshold: exactly the milli-g conversion of `gs * 1000`.
    pub fn from_g(range: Range, gs: u64) -> (r: Result<Threshold, Error>)
        ensures
            r matches Ok(t) ==> spec_from_g(range, gs as int) == Ok::<u8, Error>(t@),
            r matches Err(e) ==> spec_from_g(range, gs as int) == Err::<u8, Error>(e),
    {
        match gs.checked_mul(1000) {
            Some(mgs) => Threshold::from_mg(range, mgs),
            None => {
                proof {
                    let m = gs as int * 1000;
                    let d = range.spec_as_mg() as int;
                    assert(256 * d <= m);
                    lemma_div_at_least_256(m, d);
                }
                Err(Error::Unrepresentable)
            },
        }
    }
}

impl Duration {
    /// The zero duration.
    pub fn zero() -> (r: Duration)
        ensures
            r@ == 0,
    {
        Duration(0)
    }

    /// The raw byte to write into a duration register.
    pub fn value(self) -> (r: u8)
        ensures
            r == self@,
    {
        self.0
    }

    /// Convert a time in seconds into a duration: the number of whole sample
    /// periods of `rate` the time spans, truncated, not rounded — the
    /// deliberate counterpart to the threshold's rounding up.  For
    /// sub-second resolution use [`Duration::from_time_ms`], which agrees
    /// with this path on every whole second.
    pub fn from_seconds(rate: DataRate, seconds: u64) -> (r: Result<Duration, Error>)
        ensures
            r matches Ok(t) ==> spec_from_seconds(rate, seconds as int) == Ok::<u8, Error>(t@),
            r matches Err(e) ==> spec_from_seconds(rate, seconds as int) == Err::<u8, Error>(e),
    {
        let mhz = rate.sample_rate_milli_hz() as u64;
        match mhz.checked_mul(seconds) {
            Some(p) => {
                let c = p / 1000;
                if c <= 255 {
                    Ok(Duration(c as u8))
                } else {
                    Err(Error::Unrepresentable)
                }
            },
            None => {
                proof {
                    lemma_div_at_least_256(mhz as int * seconds as int, 1000);
                }
                Err(Error::Unrepresentable)
            },
        }
    }

    /// Convert a time in whole milliseconds into a duration at the true
    /// dimension, truncating like the seconds path: 25 ms at 400 Hz spans
    /// ten sample periods.  This is the finest-grained verified entry point;
    /// it agrees with [`Duration::from_seconds`] on every whole second.
    pub fn from_time_ms(rate: DataRate, ms: u64) -> (r: Result<Duration, Error>)
        ensures
            r matches Ok(t) ==> spec_from_time_ms(rate, ms as int) == Ok::<u8, Error>(t@),
            r matches Err(e) ==> spec_from_time_ms(rate, ms as int) == Err::<u8, Error>(e),
    {
        let mhz = rate.sample_rate_milli_hz() as u64;
        match mhz.checked_mul(ms) {
            Some(p) => {
                let c = p / 1_000_000;
                if c <= 255 {
                    Ok(Duration(c as u8))
                } else {
                    Err(Error::Unrepresentable)
                }
            },
            None => {
                proof {
                    lemma_div_at_least_256(mhz as int * ms as int, 1_000_000);
                }
                Err(Error::Unrepresentable)
            },
        }
    }

    /// Convert a time in milliseconds into a duration through the
    /// historical path: the input is multiplied by 1000 and handed to the
    /// seconds path — dimensionally inverted from the expected
    /// relationship, but the established behaviour of this conversion, kept
    /// so that observable output does not change.  Callers who want the
    /// dimensionally expected result use [`Duration::from_time_ms`].
    pub fn from_milliseconds(rate: DataRate, ms: u64) -> (r: Result<Duration, Error>)
        ensures
            r matches Ok(t) ==> spec_from_milliseconds(rate, ms as int) == Ok::<u8, Error>(t@),
            r matches Err(e) ==> spec_from_milliseconds(rate, ms as int) == Err::<u8, Error>(e),
    {
        match ms.checked_mul(1000) {
            Some(seconds) => Duration::from_seconds(rate, seconds),
            None => {
                let mhz = rate.sample_rate_milli_hz();
                if mhz == 0 {
                    proof {
                        assert(duration_counts(rate, ms as int * 1000) == 0);
                    }
                    Ok(Duration(0))
                } else {
                    proof {
                        let m = mhz as int;
                        let s = ms as int * 1000;
                        assert(m * s >= s) by (nonlinear_arith)
                            requires
                                1 <= m,
                                0 <= s,
                        ;
                        lemma_div_at_least_256(m * s, 1000);
                    }
                    Err(Error::Unrepresentable)
                }
            },
        }
    }
}

/// Converting an acceleration given in g returns exactly what converting the
/// same magnitude written in milli-g returns, for every range and every
/// non-negative magnitude.
pub proof fn lemma_from_g_matches_from_mg(range: Range, gs: int)
    requires
        0 <= gs,
    ensures
        spec_from_g(range, gs) == spec_from_mg(range, gs * 1000),
{
}

/// Converting a time given in seconds returns exactly what converting the
/// same span written in whole milliseconds at the true dimension returns,
/// for every rate and every non-negative time.
pub proof fn lemma_from_seconds_matches_from_time_ms(rate: DataRate, seconds: int)
    requires
        0 <= seconds,
    ensures
        spec_from_seconds(rate, seconds) == spec_from_time_ms(rate, seconds * 1000),
{
    let m = rate.spec_sample_rate_milli_hz() as int;
    let x = m * seconds;
    assert(0 <= x) by (nonlinear_arith)
        requires
            0 <= m,
            0 <= seconds,
            x == m * seconds,
    ;
    assert(m * (seconds * 1000) == x * 1000) by (nonlinear_arith)
        requires
            x == m * seconds,
    ;
    lemma_div_denominator(x * 1000, 1000, 1000);
    lemma_div_multiples_vanish(x, 1000);
}

/// The seconds and the historical milliseconds conversion agree only where
/// the sample count involved is zero or already beyond the one-byte field,
/// because that millisecond path scales its input up by 1000 before reusing
/// the seconds path.  On every other input the two paths differ.
pub proof fn lemma_from_seconds_matches_from_milliseconds(rate: DataRate, seconds: int)
    requires
        0 <= seconds,
        rate.spec_sample_rate_milli_hz() * seconds == 0 || duration_counts(rate, seconds) > 255,
    ensures
        spec_from_seconds(rate, seconds) == spec_from_milliseconds(rate, seconds * 1000),
{
    let m = rate.spec_sample_rate_milli_hz() as int;
    let big = (seconds * 1000) * 1000;
    if m * seconds == 0 {
        assert(m * big == 0) by (nonlinear_arith)
            requires
                m * seconds == 0,
                big == (seconds * 1000) * 1000,
        ;
    } else {
        assert(256000 <= m * seconds) by {
            if m * seconds < 256000 {
                lemma_div_is_ordered(m * seconds, 255999, 1000);
            }
        };
        assert(m * big == (m * seconds) * 1000000) by (nonlinear_arith)
            requires
                big == (seconds * 1000) * 1000,
        ;
        assert(256 * 1000 <= m * big) by (nonlinear_arith)
            requires
                256000 <= m * seconds,
                m * big == (m * seconds) * 1000000,
        ;
        lemma_div_at_least_256(m * big, 1000);
    }
}

} // verus!
