use multisample_state::device::{Capability, DeviceCapabilities, Features};
use multisample_state::error::{Field, Rule, ValidationError};
use multisample_state::multisample::MultisampleState;
use multisample_state::sample_count::SampleCount;
use multisample_state::shading::ShadingRatio;

const ALL_SAMPLE_COUNTS: u32 = 0x7f;

fn device(sample_rate_shading: bool, alpha_to_one: bool, sample_counts: u32) -> DeviceCapabilities {
    DeviceCapabilities {
        enabled_features: Features { sample_rate_shading, alpha_to_one },
        sample_counts,
    }
}

fn ratio(v: f32) -> ShadingRatio {
    ShadingRatio::from_bits(v.to_bits())
}

fn shading_state(v: f32) -> MultisampleState {
    let mut s = MultisampleState::new();
    s.sample_shading = Some(ratio(v));
    s
}

#[test]
fn default_state_fields() {
    let s = MultisampleState::new();
    assert_eq!(s.rasterization_samples, SampleCount::Sample1);
    assert_eq!(s.sample_shading, None);
    assert_eq!(s.sample_mask, [0xFFFF_FFFF, 0xFFFF_FFFF]);
    assert!(!s.alpha_to_coverage_enable);
    assert!(!s.alpha_to_one_enable);
    let d = MultisampleState::default();
    assert_eq!(d.rasterization_samples, s.rasterization_samples);
    assert_eq!(d.sample_shading, s.sample_shading);
    assert_eq!(d.sample_mask, s.sample_mask);
    assert_eq!(d.alpha_to_coverage_enable, s.alpha_to_coverage_enable);
    assert_eq!(d.alpha_to_one_enable, s.alpha_to_one_enable);
}

#[test]
fn default_state_valid_on_every_device() {
    for srs in [false, true] {
        for a2o in [false, true] {
            for counts in [1u32, 0x05, ALL_SAMPLE_COUNTS, 0xffff_ffff] {
                let d = device(srs, a2o, counts);
                assert_eq!(MultisampleState::new().validate(&d), Ok(()));
            }
        }
    }
}

#[test]
fn scenario_default_without_capabilities() {
    let d = DeviceCapabilities { enabled_features: Features::none(), sample_counts: 1 };
    assert_eq!(MultisampleState::new().validate(&d), Ok(()));
}

#[test]
fn scenario_shading_without_capability() {
    let d = device(false, false, ALL_SAMPLE_COUNTS);
    let r = shading_state(0.5).validate(&d);
    let expected = ValidationError::CapabilityRequired {
        field: Field::SampleShading,
        capability: Capability::SampleRateShading,
        rule: Rule::SampleShadingEnable,
    };
    assert_eq!(r, Err(expected));
    let e = r.unwrap_err();
    assert_eq!(e.field(), Field::SampleShading);
    assert_eq!(e.field().name(), "min_sample_shading");
    assert_eq!(e.requires_one_of(), Some(Capability::SampleRateShading));
    assert_eq!(e.problem(), "is `Some`");
    assert_eq!(
        e.rule().code(),
        "VUID-VkPipelineMultisampleStateCreateInfo-sampleShadingEnable-00784"
    );
}

#[test]
fn scenario_shading_out_of_range() {
    let d = device(true, false, ALL_SAMPLE_COUNTS);
    let r = shading_state(1.5).validate(&d);
    assert_eq!(
        r,
        Err(ValidationError::ValueOutOfRange {
            field: Field::SampleShading,
            rule: Rule::MinSampleShadingRange,
        })
    );
    let e = r.unwrap_err();
    assert_eq!(e.requires_one_of(), None);
    assert_eq!(e.problem(), "is not between 0.0 and 1.0 inclusive");
    assert_eq!(
        e.rule().code(),
        "VUID-VkPipelineMultisampleStateCreateInfo-minSampleShading-00786"
    );
}

#[test]
fn scenario_alpha_to_one_without_capability() {
    let d = device(false, false, ALL_SAMPLE_COUNTS);
    let mut s = MultisampleState::new();
    s.alpha_to_one_enable = true;
    let r = s.validate(&d);
    assert_eq!(
        r,
        Err(ValidationError::CapabilityRequired {
            field: Field::AlphaToOneEnable,
            capability: Capability::AlphaToOne,
            rule: Rule::AlphaToOneEnable,
        })
    );
    let e = r.unwrap_err();
    assert_eq!(e.field().name(), "alpha_to_one_enable");
    assert_eq!(e.requires_one_of(), Some(Capability::AlphaToOne));
    assert_eq!(e.problem(), "is `true`");
    assert_eq!(
        e.rule().code(),
        "VUID-VkPipelineMultisampleStateCreateInfo-alphaToOneEnable-00785"
    );
}

#[test]
fn scenario_unsupported_sample_count() {
    // one, two and four samples only
    let counts = 0x07;
    for srs in [false, true] {
        for a2o in [false, true] {
            for shading in [None, Some(ratio(0.5)), Some(ratio(2.0))] {
                let d = device(srs, a2o, counts);
                let mut s = MultisampleState::new();
                s.rasterization_samples = SampleCount::Sample8;
                s.sample_shading = shading;
                s.alpha_to_one_enable = true;
                s.alpha_to_coverage_enable = true;
                s.sample_mask = [0, 0];
                let r = s.validate(&d);
                assert_eq!(
                    r,
                    Err(ValidationError::UnsupportedSampleCount {
                        field: Field::RasterizationSamples,
                        requested: SampleCount::Sample8,
                        supported: counts,
                    })
                );
                let e = r.unwrap_err();
                assert_eq!(e.field().name(), "rasterization_samples");
                assert_eq!(e.requires_one_of(), None);
                assert_eq!(e.problem(), "is not supported by the device");
                assert_eq!(
                    e.rule().code(),
                    "VUID-VkPipelineMultisampleStateCreateInfo-rasterizationSamples-parameter"
                );
            }
        }
    }
}

#[test]
fn supported_sample_counts_pass() {
    let counts = [
        SampleCount::Sample1,
        SampleCount::Sample2,
        SampleCount::Sample4,
        SampleCount::Sample8,
        SampleCount::Sample16,
        SampleCount::Sample32,
        SampleCount::Sample64,
    ];
    let values = [1u32, 2, 4, 8, 16, 32, 64];
    for (c, v) in counts.iter().zip(values.iter()) {
        assert_eq!(c.count(), *v);
        let mut s = MultisampleState::new();
        s.rasterization_samples = *c;
        assert_eq!(s.validate(&device(false, false, ALL_SAMPLE_COUNTS)), Ok(()));
        assert_eq!(s.validate(&device(false, false, 1 | *v)), Ok(()));
        if *v != 1 {
            assert!(s.validate(&device(false, false, 1)).is_err());
        }
        assert!(s.validate(&device(true, true, ALL_SAMPLE_COUNTS & !*v)).is_err());
    }
}

#[test]
fn sample_count_validate_device() {
    let d = device(false, false, 0x05);
    assert_eq!(SampleCount::Sample4.validate_device(&d), Ok(()));
    let err = SampleCount::Sample2.validate_device(&d).unwrap_err();
    assert_eq!(err.requested, SampleCount::Sample2);
    assert_eq!(err.supported, 0x05);
    assert!(d.supports_sample_count(SampleCount::Sample1));
    assert!(!d.supports_sample_count(SampleCount::Sample64));
}

#[test]
fn shading_rule_over_values() {
    let inside = [0.0f32, -0.0, 0.25, 0.5, 1.0, f32::MIN_POSITIVE, 1.0e-45];
    let outside = [
        1.5f32,
        1.000_000_1,
        -0.25,
        -1.0e-45,
        2.0,
        f32::INFINITY,
        f32::NEG_INFINITY,
        f32::NAN,
        f32::MAX,
    ];
    for v in inside {
        assert!(ratio(v).is_in_unit_interval());
        assert_eq!(shading_state(v).validate(&device(true, false, 1)), Ok(()));
        assert_eq!(
            shading_state(v).validate(&device(false, true, 1)).map_err(|e| e.field()),
            Err(Field::SampleShading)
        );
    }
    for v in outside {
        assert!(!ratio(v).is_in_unit_interval());
        assert_eq!(
            shading_state(v).validate(&device(true, true, 1)),
            Err(ValidationError::ValueOutOfRange {
                field: Field::SampleShading,
                rule: Rule::MinSampleShadingRange,
            })
        );
        assert_eq!(
            shading_state(v).validate(&device(false, true, 1)).map_err(|e| e.rule()),
            Err(Rule::SampleShadingEnable)
        );
    }
    let none = MultisampleState::new();
    assert_eq!(none.validate(&device(false, false, 1)), Ok(()));
}

#[test]
fn ratio_bits_round_trip() {
    let r = ShadingRatio::from_bits(0.75f32.to_bits());
    assert_eq!(f32::from_bits(r.to_bits()), 0.75);
    assert_eq!(r.bits, 0x3f40_0000);
}

#[test]
fn alpha_to_one_rule() {
    for a2o_cap in [false, true] {
        let d = device(false, a2o_cap, 1);
        let mut s = MultisampleState::new();
        s.alpha_to_one_enable = false;
        assert_eq!(s.validate(&d), Ok(()));
        s.alpha_to_one_enable = true;
        assert_eq!(s.validate(&d).is_err(), !a2o_cap);
    }
}

#[test]
fn mask_and_coverage_do_not_matter() {
    let masks = [[0u32, 0u32], [0xFFFF_FFFF, 0], [0x1234_5678, 0x9abc_def0], [0xFFFF_FFFF; 2]];
    for srs in [false, true] {
        for a2o in [false, true] {
            let d = device(srs, a2o, 0x05);
            for base in [
                MultisampleState::new(),
                shading_state(0.5),
                shading_state(3.0),
            ] {
                for alpha_to_one in [false, true] {
                    let mut reference = base;
                    reference.alpha_to_one_enable = alpha_to_one;
                    let expected = reference.validate(&d);
                    for mask in masks {
                        for coverage in [false, true] {
                            let mut s = reference;
                            s.sample_mask = mask;
                            s.alpha_to_coverage_enable = coverage;
                            assert_eq!(s.validate(&d), expected);
                        }
                    }
                }
            }
        }
    }
}

#[test]
fn validation_is_repeatable() {
    let d = device(false, false, 1);
    let mut s = shading_state(0.5);
    s.alpha_to_one_enable = true;
    let first = s.validate(&d);
    let second = s.validate(&d);
    assert_eq!(first, second);
    assert!(first.is_err());
}

#[test]
fn shading_range_reported_before_alpha_to_one() {
    let d = device(true, false, ALL_SAMPLE_COUNTS);
    let mut s = shading_state(1.5);
    s.alpha_to_one_enable = true;
    assert_eq!(
        s.validate(&d),
        Err(ValidationError::ValueOutOfRange {
            field: Field::SampleShading,
            rule: Rule::MinSampleShadingRange,
        })
    );
}

#[test]
fn capability_queries() {
    let d = device(true, false, 1);
    assert!(d.is_enabled(Capability::SampleRateShading));
    assert!(!d.is_enabled(Capability::AlphaToOne));
    let n = Features::none();
    assert!(!n.sample_rate_shading && !n.alpha_to_one);
}
