//! What a device offers: its enabled optional capabilities and the sample
//! counts it supports.
use vstd::prelude::*;

use crate::sample_count::SampleCount;

verus! {

/// An optional device capability that a multisample setting may need.
#[derive(Clone, Copy, Debug, PartialEq, Eq, Structural)]
pub enum Capability {
    /// Shading of individual samples (`sample_rate_shading`).
    SampleRateShading,
    /// Forcing the alpha of each sample to one (`alpha_to_one`).
    AlphaToOne,
}

/// The optional capabilities that were enabled when the device was created.
#[derive(Clone, Copy, Debug, PartialEq, Eq, Structural)]
pub struct Features {
    pub sample_rate_shading: bool,
    pub alpha_to_one: bool,
}

/// A snapshot of a device's capabilities, as far as multisampling needs them.
#[derive(Clone, Copy, Debug, PartialEq, Eq, Structural)]
pub struct DeviceCapabilities {
    /// The enabled optional capabilities.
    pub enabled_features: Features,
    /// The supported sample counts, one bit per count: the bit whose value is
    /// the number of samples (bit 0 for one sample, bit 6 for 64).
    pub sample_counts: u32,
}

impl Features {
    /// No optional capability enabled.
    pub fn none() -> (r: Features)
        ensures
            !r.sample_rate_shading,
            !r.alpha_to_one,
    {
        Features { sample_rate_shading: false, alpha_to_one: false }
    }
}

impl DeviceCapabilities {
    /// Whether the capability is enabled.
    pub open spec fn enabled(self, c: Capability) -> bool {
        match c {
            Capability::SampleRateShading => self.enabled_features.sample_rate_shading,
            Capability::AlphaToOne => self.enabled_features.alpha_to_one,
        }
    }

    /// Whether the device supports the sample count.
    pub open spec fn supports(self, s: SampleCount) -> bool {
        self.sample_counts & s.spec_count() != 0
    }

    /// A conformant device supports single sampling.
    pub open spec fn conformant(self) -> bool {
        self.supports(SampleCount::Sample1)
    }

    /// Whether the capability is enabled.
    pub fn is_enabled(&self, c: Capability) -> (r: bool)
        ensures
            r == self.enabled(c),
    {
        match c {
            Capability::SampleRateShading => self.enabled_features.sample_rate_shading,
            Capability::AlphaToOne => self.enabled_features.alpha_to_one,
        }
    }

    /// Whether the device supports the sample count.
    pub fn supports_sample_count(&self, s: SampleCount) -> (r: bool)
        ensures
            r == self.supports(s),
    {
        self.sample_counts & s.count() != 0
    }
}

} // verus!
