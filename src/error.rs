//! Why a multisample state was rejected.
use vstd::prelude::*;

use crate::device::Capability;
use crate::sample_count::SampleCount;

verus! {

/// The field of a multisample state that a rejection is about.
#[derive(Clone, Copy, Debug, PartialEq, Eq, Structural)]
pub enum Field {
    RasterizationSamples,
    SampleShading,
    AlphaToOneEnable,
}

/// The rule of the graphics API that a rejected value breaks, as a stable
/// diagnostic code.
#[derive(Clone, Copy, Debug, PartialEq, Eq, Structural)]
pub enum Rule {
    /// The sample count must be one that the device supports.
    RasterizationSamplesParameter,
    /// Sample shading needs the `sample_rate_shading` capability.
    SampleShadingEnable,
    /// The minimum sample-shading ratio lies between 0.0 and 1.0.
    MinSampleShadingRange,
    /// Alpha-to-one needs the `alpha_to_one` capability.
    AlphaToOneEnable,
}

/// A rejection of a multisample state: the first rule it breaks.
#[derive(Clone, Copy, Debug, PartialEq, Eq, Structural)]
pub enum ValidationError {
    /// The device does not support the requested sample count.
    UnsupportedSampleCount { field: Field, requested: SampleCount, supported: u32 },
    /// A value needs an optional capability that is not enabled.
    CapabilityRequired { field: Field, capability: Capability, rule: Rule },
    /// A number lies outside its domain.
    ValueOutOfRange { field: Field, rule: Rule },
}

impl Field {
    /// The field's name, as it is written in a path to it.
    pub fn name(self) -> (r: &'static str)
        ensures
            r@ == self.spec_name(),
    {
        match self {
            Field::RasterizationSamples => "rasterization_samples",
            Field::SampleShading => "min_sample_shading",
            Field::AlphaToOneEnable => "alpha_to_one_enable",
        }
    }

    pub open spec fn spec_name(self) -> Seq<char> {
        match self {
            Field::RasterizationSamples => "rasterization_samples"@,
            Field::SampleShading => "min_sample_shading"@,
            Field::AlphaToOneEnable => "alpha_to_one_enable"@,
        }
    }
}

impl Rule {
    /// The identifier of the rule in the graphics API's specification.
    pub fn code(self) -> (r: &'static str)
        ensures
            r@ == self.spec_code(),
    {
        match self {
            Rule::RasterizationSamplesParameter => "VUID-VkPipelineMultisampleStateCreateInfo-rasterizationSamples-parameter",
            Rule::SampleShadingEnable => "VUID-VkPipelineMultisampleStateCreateInfo-sampleShadingEnable-00784",
            Rule::MinSampleShadingRange => "VUID-VkPipelineMultisampleStateCreateInfo-minSampleShading-00786",
            Rule::AlphaToOneEnable => "VUID-VkPipelineMultisampleStateCreateInfo-alphaToOneEnable-00785",
        }
    }

    pub open spec fn spec_code(self) -> Seq<char> {
        match self {
            Rule::RasterizationSamplesParameter => "VUID-VkPipelineMultisampleStateCreateInfo-rasterizationSamples-parameter"@,
            Rule::SampleShadingEnable => "VUID-VkPipelineMultisampleStateCreateInfo-sampleShadingEnable-00784"@,
            Rule::MinSampleShadingRange => "VUID-VkPipelineMultisampleStateCreateInfo-minSampleShading-00786"@,
            Rule::AlphaToOneEnable => "VUID-VkPipelineMultisampleStateCreateInfo-alphaToOneEnable-00785"@,
        }
    }
}

impl ValidationError {
    /// The field that holds the rejected value.
    pub open spec fn spec_field(self) -> Field {
        match self {
            ValidationError::UnsupportedSampleCount { field, .. } => field,
            ValidationError::CapabilityRequired { field, .. } => field,
            ValidationError::ValueOutOfRange { field, .. } => field,
        }
    }

    /// The rule that the rejected value breaks.
    pub open spec fn spec_rule(self) -> Rule {
        match self {
            ValidationError::UnsupportedSampleCount { .. } => Rule::RasterizationSamplesParameter,
            ValidationError::CapabilityRequired { rule, .. } => rule,
            ValidationError::ValueOutOfRange { rule, .. } => rule,
        }
    }

    /// The capability that would make the value legal, if one would.
    pub open spec fn spec_requires_one_of(self) -> Option<Capability> {
        match self {
            ValidationError::CapabilityRequired { capability, .. } => Some(capability),
            _ => None,
        }
    }

    /// What is wrong with the value, in words.
    pub open spec fn spec_problem(self) -> Seq<char> {
        match self {
            ValidationError::UnsupportedSampleCount { .. } => "is not supported by the device"@,
            ValidationError::CapabilityRequired { field: Field::SampleShading, .. } => "is `Some`"@,
            ValidationError::CapabilityRequired { field: Field::AlphaToOneEnable, .. } => "is `true`"@,
            ValidationError::CapabilityRequired { .. } => "is set"@,
            ValidationError::ValueOutOfRange { .. } => "is not between 0.0 and 1.0 inclusive"@,
        }
    }

    /// The field that holds the rejected value.
    pub fn field(&self) -> (r: Field)
        ensures
            r == self.spec_field(),
    {
        match self {
            ValidationError::UnsupportedSampleCount { field, .. } => *field,
            ValidationError::CapabilityRequired { field, .. } => *field,
            ValidationError::ValueOutOfRange { field, .. } => *field,
        }
    }

    /// The rule that the rejected value breaks.
    pub fn rule(&self) -> (r: Rule)
        ensures
            r == self.spec_rule(),
    {
        match self {
            ValidationError::UnsupportedSampleCount { .. } => Rule::RasterizationSamplesParameter,
            ValidationError::CapabilityRequired { rule, .. } => *rule,
            ValidationError::ValueOutOfRange { rule, .. } => *rule,
        }
    }

    /// The capability that would make the value legal, if one would.
    pub fn requires_one_of(&self) -> (r: Option<Capability>)
        ensures
            r == self.spec_requires_one_of(),
    {
        match self {
            ValidationError::CapabilityRequired { capability, .. } => Some(*capability),
            _ => None,
        }
    }

    /// What is wrong with the value, in words.
    pub fn problem(&self) -> (r: &'static str)
        ensures
            r@ == self.spec_problem(),
    {
        match self {
            ValidationError::UnsupportedSampleCount { .. } => "is not supported by the device",
            ValidationError::CapabilityRequired { field: Field::SampleShading, .. } => "is `Some`",
            ValidationError::CapabilityRequired { field: Field::AlphaToOneEnable, .. } => "is `true`",
            ValidationError::CapabilityRequired { .. } => "is set",
            ValidationError::ValueOutOfRange { .. } => "is not between 0.0 and 1.0 inclusive",
        }
    }
}

} // verus!
