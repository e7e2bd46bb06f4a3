//! The number of rasterization samples taken per pixel.
use vstd::prelude::*;

use crate::device::DeviceCapabilities;

verus! {

/// A number of samples per pixel: a power of two from 1 to 64.
#[derive(Clone, Copy, Debug, PartialEq, Eq, Structural)]
pub enum SampleCount {
    Sample1,
    Sample2,
    Sample4,
    Sample8,
    Sample16,
    Sample32,
    Sample64,
}

/// A sample count that the device does not support.
#[derive(Clone, Copy, Debug, PartialEq, Eq, Structural)]
pub struct SampleCountUnsupported {
    /// The count that was asked for.
    pub requested: SampleCount,
    /// The device's supported counts, one bit per count (bit `n` set for
    /// `2^n` samples).
    pub supported: u32,
}

impl SampleCount {
    /// The number of samples.
    pub open spec fn spec_count(self) -> u32 {
        match self {
            SampleCount::Sample1 => 1,
            SampleCount::Sample2 => 2,
            SampleCount::Sample4 => 4,
            SampleCount::Sample8 => 8,
            SampleCount::Sample16 => 16,
            SampleCount::Sample32 => 32,
            SampleCount::Sample64 => 64,
        }
    }

    /// The number of samples, which is also the bit that stands for this
    /// count in a set of supported counts.
    pub fn count(self) -> (r: u32)
        ensures
            r == self.spec_count(),
    {
        match self {
            SampleCount::Sample1 => 1,
            SampleCount::Sample2 => 2,
            SampleCount::Sample4 => 4,
            SampleCount::Sample8 => 8,
            SampleCount::Sample16 => 16,
            SampleCount::Sample32 => 32,
            SampleCount::Sample64 => 64,
        }
    }

    /// Checks that the device supports this sample count.
    pub fn validate_device(self, device: &DeviceCapabilities) -> (r: Result<
        (),
        SampleCountUnsupported,
    >)
        ensures
            r is Ok <==> device.supports(self),
            r matches Err(e) ==> (e == SampleCountUnsupported {
                requested: self,
                supported: device.sample_counts,
            }),
    {
        if device.supports_sample_count(self) {
            Ok(())
        } else {
            Err(SampleCountUnsupported { requested: self, supported: device.sample_counts })
        }
    }
}

} // verus!
