use no_denormals::no_denormals;
use std::num::FpCategory;

fn half(x: f32) -> f32 {
    std::hint::black_box(x) * 0.5
}

#[test]
fn test_positive() {
    let small: f32 = f32::MIN_POSITIVE;
    {
        let smaller = half(small);
        assert_eq!(smaller.classify(), FpCategory::Subnormal);
    }
    no_denormals(|| {
        let smaller = half(small);
        assert_eq!(smaller.classify(), FpCategory::Zero);
    });
    {
        let smaller = half(small);
        assert_eq!(smaller.classify(), FpCategory::Subnormal);
    };
}

#[test]
fn test_negative() {
    let small: f32 = -f32::MIN_POSITIVE;
    {
        let smaller = half(small);
        assert_eq!(smaller.classify(), FpCategory::Subnormal);
    }
    no_denormals(|| {
        let smaller = half(small);
        assert_eq!(smaller.classify(), FpCategory::Zero);
    });
    {
        let smaller = half(small);
        assert_eq!(smaller.classify(), FpCategory::Subnormal);
    };
}

#[test]
fn nested_scopes_keep_denormals_disabled() {
    let small: f32 = f32::MIN_POSITIVE;
    assert_eq!(half(small).classify(), FpCategory::Subnormal);
    no_denormals(|| {
        assert_eq!(half(small).classify(), FpCategory::Zero);
        no_denormals(|| {
            assert_eq!(half(small).classify(), FpCategory::Zero);
        });
        // The inner scope restored the outer scope's state, not the pre-outer
        // state: denormals stay disabled until the outer scope exits.
        assert_eq!(half(small).classify(), FpCategory::Zero);
    });
    assert_eq!(half(small).classify(), FpCategory::Subnormal);
}

#[test]
fn sequential_scopes_each_restore() {
    let small: f32 = f32::MIN_POSITIVE;
    assert_eq!(half(small).classify(), FpCategory::Subnormal);
    no_denormals(|| {
        assert_eq!(half(small).classify(), FpCategory::Zero);
    });
    assert_eq!(half(small).classify(), FpCategory::Subnormal);
    no_denormals(|| {
        assert_eq!(half(small).classify(), FpCategory::Zero);
    });
    assert_eq!(half(small).classify(), FpCategory::Subnormal);
}

#[test]
fn negated_value_flushes_to_zero_with_sign() {
    let small: f32 = -f32::MIN_POSITIVE;
    let inside = no_denormals(|| half(small));
    assert_eq!(inside.classify(), FpCategory::Zero);
    assert!(inside.is_sign_negative());
    let outside = half(small);
    assert_eq!(outside.classify(), FpCategory::Subnormal);
}

#[test]
fn returns_the_computation_result_unchanged() {
    assert_eq!(no_denormals(|| 6 * 7), 42);
    let v = no_denormals(|| vec![1u32, 2, 3]);
    assert_eq!(v, vec![1u32, 2, 3]);
    let s = no_denormals(|| String::from("dsp"));
    assert_eq!(s, "dsp");
}
