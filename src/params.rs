use vstd::prelude::*;

verus! {

/// A construction or reconfiguration parameter that is refused.
#[derive(Debug, Clone, Copy, PartialEq, Eq, Structural)]
pub enum ParamError {
    /// The sample rate is zero.
    SampleRate,
    /// The heart rate is not a positive finite number.
    HeartRate,
    /// A derived quantity is not finite.
    NumericDegenerate,
    /// The requested length does not fit in a sample count.
    Length,
}

/// Accepts a sample rate if it is positive.
pub fn check_sample_rate(sample_rate: u32) -> (r: Result<u32, ParamError>)
    ensures
        sample_rate > 0 ==> r == Ok::<u32, ParamError>(sample_rate),
        sample_rate == 0 ==> r == Err::<u32, ParamError>(ParamError::SampleRate),
{
    if sample_rate == 0 {
        Err(ParamError::SampleRate)
    } else {
        Ok(sample_rate)
    }
}

/// Number of samples in `minutes` minutes at `sample_rate` samples per second,
/// or `Length` when it does not fit in a `u64`.
pub fn total_samples(minutes: u32, sample_rate: u32) -> (r: Result<u64, ParamError>)
    ensures
        minutes * 60 * sample_rate <= u64::MAX ==> r == Ok::<u64, ParamError>(
            (minutes * 60 * sample_rate) as u64,
        ),
        minutes * 60 * sample_rate > u64::MAX ==> r == Err::<u64, ParamError>(ParamError::Length),
{
    let seconds: u64 = minutes as u64 * 60;
    match seconds.checked_mul(sample_rate as u64) {
        Some(n) => Ok(n),
        None => Err(ParamError::Length),
    }
}

} // verus!
