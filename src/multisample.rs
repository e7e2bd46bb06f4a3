//! Generates several fragments per framebuffer pixel when rasterizing, for
//! anti-aliasing.
use vstd::prelude::*;

use crate::device::{Capability, DeviceCapabilities};
use crate::error::{Field, Rule, ValidationError};
use crate::sample_count::SampleCount;
use crate::shading::ShadingRatio;

verus! {

/// The multisample state of a graphics pipeline.
///
/// New fields may be added later: build a state with `new` and set the fields
/// that differ from the defaults.
#[non_exhaustive]
#[derive(Clone, Copy, Debug)]
pub struct MultisampleState {
    /// The number of rasterization samples per pixel. The depth and stencil
    /// tests run for each sample.
    pub rasterization_samples: SampleCount,
    /// The minimum fraction (from 0.0 to 1.0) of samples that run through the
    /// fragment shader individually; `None` turns sample shading off. Needs the
    /// `sample_rate_shading` capability when set.
    pub sample_shading: Option<ShadingRatio>,
    /// A mask ANDed with the coverage mask of each group of
    /// `rasterization_samples` samples; the bits beyond the sample count are
    /// ignored.
    pub sample_mask: [u32; 2],
    /// Whether the fragment's alpha decides, in a way that the implementation
    /// picks, which samples are covered.
    pub alpha_to_coverage_enable: bool,
    /// Whether the alpha of every sample is forced to its maximum after
    /// alpha-to-coverage. Needs the `alpha_to_one` capability when `true`.
    pub alpha_to_one_enable: bool,
}

/// The state with multisampling off: one sample, no sample shading, every
/// mask bit set, both alpha settings off.
pub open spec fn default_state() -> MultisampleState {
    MultisampleState {
        rasterization_samples: SampleCount::Sample1,
        sample_shading: None,
        sample_mask: [0xffff_ffffu32, 0xffff_ffffu32],
        alpha_to_coverage_enable: false,
        alpha_to_one_enable: false,
    }
}

/// The error for a device that lacks a capability that a field needs.
pub open spec fn capability_error(field: Field, capability: Capability, rule: Rule) -> ValidationError {
    ValidationError::CapabilityRequired { field, capability, rule }
}

impl MultisampleState {
    /// The outcome of checking the alpha-to-one setting alone.
    pub open spec fn alpha_to_one_outcome(self, device: DeviceCapabilities) -> Result<(), ValidationError> {
        if self.alpha_to_one_enable && !device.enabled(Capability::AlphaToOne) {
            Err(capability_error(Field::AlphaToOneEnable, Capability::AlphaToOne, Rule::AlphaToOneEnable))
        } else {
            Ok(())
        }
    }

    /// The outcome of checking the sample-shading ratio alone.
    pub open spec fn sample_shading_outcome(self, device: DeviceCapabilities) -> Result<(), ValidationError> {
        match self.sample_shading {
            None => Ok(()),
            Some(ratio) => if !device.enabled(Capability::SampleRateShading) {
                Err(capability_error(Field::SampleShading, Capability::SampleRateShading, Rule::SampleShadingEnable))
            } else if !ratio.in_unit_interval() {
                Err(ValidationError::ValueOutOfRange { field: Field::SampleShading, rule: Rule::MinSampleShadingRange })
            } else {
                Ok(())
            },
        }
    }

    /// The outcome of checking the sample count alone.
    pub open spec fn sample_count_outcome(self, device: DeviceCapabilities) -> Result<(), ValidationError> {
        if device.supports(self.rasterization_samples) {
            Ok(())
        } else {
            Err(ValidationError::UnsupportedSampleCount {
                field: Field::RasterizationSamples,
                requested: self.rasterization_samples,
                supported: device.sample_counts,
            })
        }
    }

    /// The outcome of validating the state against a device: the first of the
    /// sample count, the sample-shading ratio and the alpha-to-one setting that
    /// fails, or success. The sample mask and alpha-to-coverage are always legal.
    pub open spec fn validation(self, device: DeviceCapabilities) -> Result<(), ValidationError> {
        if self.sample_count_outcome(device) is Err {
            self.sample_count_outcome(device)
        } else if self.sample_shading_outcome(device) is Err {
            self.sample_shading_outcome(device)
        } else {
            self.alpha_to_one_outcome(device)
        }
    }

    /// Creates a state with multisampling off.
    pub fn new() -> (r: MultisampleState)
        ensures
            r == default_state(),
    {
        MultisampleState {
            rasterization_samples: SampleCount::Sample1,
            sample_shading: None,
            sample_mask: [0xffff_ffffu32, 0xffff_ffffu32],
            alpha_to_coverage_enable: false,
            alpha_to_one_enable: false,
        }
    }

    /// Checks the state against a device's capabilities, in this order: the
    /// sample count is supported; a sample-shading ratio needs the
    /// `sample_rate_shading` capability and lies between 0.0 and 1.0; an
    /// enabled alpha-to-one needs the `alpha_to_one` capability. The first
    /// failure is returned.
    pub fn validate(&self, device: &DeviceCapabilities) -> (r: Result<(), ValidationError>)
        ensures
            r == self.validation(*device),
    {
        match self.rasterization_samples.validate_device(device) {
            Ok(()) => {},
            Err(err) => {
                return Err(ValidationError::UnsupportedSampleCount {
                    field: Field::RasterizationSamples,
                    requested: err.requested,
                    supported: err.supported,
                });
            },
        }

        if let Some(ratio) = self.sample_shading {
            if !device.is_enabled(Capability::SampleRateShading) {
                return Err(ValidationError::CapabilityRequired {
                    field: Field::SampleShading,
                    capability: Capability::SampleRateShading,
                    rule: Rule::SampleShadingEnable,
                });
            }
            if !ratio.is_in_unit_interval() {
                return Err(ValidationError::ValueOutOfRange {
                    field: Field::SampleShading,
                    rule: Rule::MinSampleShadingRange,
                });
            }
        }

        if self.alpha_to_one_enable && !device.is_enabled(Capability::AlphaToOne) {
            return Err(ValidationError::CapabilityRequired {
                field: Field::AlphaToOneEnable,
                capability: Capability::AlphaToOne,
                rule: Rule::AlphaToOneEnable,
            });
        }

        Ok(())
    }
}

impl Default for MultisampleState {
    /// The state with multisampling off, as `MultisampleState::new` gives it.
    fn default() -> (r: MultisampleState)
        ensures
            r == default_state(),
    {
        MultisampleState::new()
    }
}

/// The state with multisampling off is legal on every conformant device,
/// whatever optional capabilities it has enabled.
pub proof fn lemma_default_state_is_valid(device: DeviceCapabilities)
    requires
        device.conformant(),
    ensures
        default_state().validation(device) == Ok::<(), ValidationError>(()),
{
}

/// A sample count that the device does not support is reported first,
/// whatever the other fields hold.
pub proof fn lemma_unsupported_sample_count_first(state: MultisampleState, device: DeviceCapabilities)
    requires
        !device.supports(state.rasterization_samples),
    ensures
        state.validation(device) == Err::<(), ValidationError>(ValidationError::UnsupportedSampleCount {
            field: Field::RasterizationSamples,
            requested: state.rasterization_samples,
            supported: device.sample_counts,
        }),
{
}

/// Validation fails on the sample-shading ratio exactly when the sample count
/// passes, a ratio is set, and the `sample_rate_shading` capability is off or
/// the ratio lies outside 0.0 to 1.0. A missing capability is reported as
/// such; a ratio out of range with the capability on, as a value out of range.
pub proof fn lemma_sample_shading_rule(state: MultisampleState, device: DeviceCapabilities)
    ensures
        (state.validation(device) matches Err(e) && e.spec_field() == Field::SampleShading) <==> (
        device.supports(state.rasterization_samples) && state.sample_shading is Some && !(
        device.enabled(Capability::SampleRateShading) && state.sample_shading->0.in_unit_interval())),
        device.supports(state.rasterization_samples) && state.sample_shading is Some
            && !device.enabled(Capability::SampleRateShading) ==> state.validation(device)
            == Err::<(), ValidationError>(
            capability_error(Field::SampleShading, Capability::SampleRateShading, Rule::SampleShadingEnable),
        ),
        device.supports(state.rasterization_samples) && state.sample_shading is Some
            && device.enabled(Capability::SampleRateShading)
            && !state.sample_shading->0.in_unit_interval()
            ==> state.validation(device) == Err::<(), ValidationError>(
            ValidationError::ValueOutOfRange { field: Field::SampleShading, rule: Rule::MinSampleShadingRange },
        ),
{
}

/// Validation fails on alpha-to-one exactly when the fields checked before it
/// pass, alpha-to-one is on and the `alpha_to_one` capability is off; with
/// alpha-to-one off it never fails there.
pub proof fn lemma_alpha_to_one_rule(state: MultisampleState, device: DeviceCapabilities)
    ensures
        (state.validation(device) matches Err(e) && e.spec_field() == Field::AlphaToOneEnable) <==> (
        state.sample_count_outcome(device) is Ok && state.sample_shading_outcome(device) is Ok
            && state.alpha_to_one_enable && !device.enabled(Capability::AlphaToOne)),
        state.sample_count_outcome(device) is Ok && state.sample_shading_outcome(device) is Ok
            && state.alpha_to_one_enable && !device.enabled(Capability::AlphaToOne)
            ==> state.validation(device) == Err::<(), ValidationError>(
            capability_error(Field::AlphaToOneEnable, Capability::AlphaToOne, Rule::AlphaToOneEnable),
        ),
{
}

/// The sample mask and alpha-to-coverage never change the outcome: two states
/// that differ in those fields alone validate alike.
pub proof fn lemma_mask_and_coverage_ignored(
    a: MultisampleState,
    b: MultisampleState,
    device: DeviceCapabilities,
)
    requires
        a.rasterization_samples == b.rasterization_samples,
        a.sample_shading == b.sample_shading,
        a.alpha_to_one_enable == b.alpha_to_one_enable,
    ensures
        a.validation(device) == b.validation(device),
{
}

/// Validation is a function of the state and the device alone: equal inputs
/// give equal outcomes.
pub proof fn lemma_validation_deterministic(
    a: MultisampleState,
    b: MultisampleState,
    da: DeviceCapabilities,
    db: DeviceCapabilities,
)
    requires
        a == b,
        da == db,
    ensures
        a.validation(da) == b.validation(db),
{
}

/// A ratio out of range is reported before a missing `alpha_to_one`
/// capability when both occur.
pub proof fn lemma_shading_range_before_alpha_to_one(state: MultisampleState, device: DeviceCapabilities)
    requires
        device.supports(state.rasterization_samples),
        device.enabled(Capability::SampleRateShading),
        state.sample_shading matches Some(ratio) && !ratio.in_unit_interval(),
        state.alpha_to_one_enable,
        !device.enabled(Capability::AlphaToOne),
    ensures
        state.validation(device) == Err::<(), ValidationError>(
            ValidationError::ValueOutOfRange { field: Field::SampleShading, rule: Rule::MinSampleShadingRange },
        ),
{
}

} // verus!
