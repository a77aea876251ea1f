use vstd::prelude::*;

verus! {

/// One decoded audio amplitude value in the canonical normalized domain.
///
/// The amplitude is a fixed-point fraction with denominator 32768: a stored
/// value `v` stands for the amplitude `v / 32768`, which lies in the interval
/// `[-1, 1)`. Every decoder variant scales its native representation into
/// this one domain, so consumers see the same value range whatever the
/// original format was. Conversion to a floating-point amplitude is a single
/// division performed outside this library.
#[derive(Clone, Copy, Debug, PartialEq, Eq, Structural)]
pub struct Sample {
    /// Numerator of the amplitude over the fixed denominator 32768.
    pub amplitude: i16,
}

} // verus!
