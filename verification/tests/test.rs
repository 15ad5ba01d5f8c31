use ordered_float::bits32;
use ordered_float::bits64;
use ordered_float::FloatIsNan;
use ordered_float::NotNan;
use ordered_float::OrderedFloat;
use ordered_float::ParseNotNanError;

use std::cmp::Ordering;
use std::collections::hash_map::RandomState;
use std::hash::BuildHasher;
use std::hash::Hash;
use std::hash::Hasher;

fn not_nan32(x: f32) -> NotNan<u32> {
    NotNan::<u32>::new(x.to_bits()).unwrap()
}

fn not_nan64(x: f64) -> NotNan<u64> {
    NotNan::<u64>::new(x.to_bits()).unwrap()
}

fn of32(x: f32) -> OrderedFloat<u32> {
    OrderedFloat(x.to_bits())
}

fn of64(x: f64) -> OrderedFloat<u64> {
    OrderedFloat(x.to_bits())
}

#[test]
fn ordered_f32_compare_regular_floats() {
    assert_eq!(of32(7.0).cmp(&of32(7.0)), Ordering::Equal);
    assert_eq!(of32(8.0).cmp(&of32(7.0)), Ordering::Greater);
    assert_eq!(of32(4.0).cmp(&of32(7.0)), Ordering::Less);
}

#[test]
fn ordered_f32_compare_regular_floats_op() {
    assert!(of32(7.0) == of32(7.0));
    assert!(of32(7.0) <= of32(7.0));
    assert!(of32(7.0) >= of32(7.0));
    assert!(of32(8.0) > of32(7.0));
    assert!(of32(8.0) >= of32(7.0));
    assert!(of32(4.0) < of32(7.0));
    assert!(of32(4.0) <= of32(7.0));
}

#[test]
fn ordered_f32_compare_nan() {
    let f32_nan: f32 = f32::NAN;
    assert_eq!(of32(f32_nan).cmp(&of32(f32::NAN)), Ordering::Equal);
    assert_eq!(of32(f32_nan).cmp(&of32(-100000.0)), Ordering::Greater);
    assert_eq!(of32(-100.0).cmp(&of32(f32::NAN)), Ordering::Less);
}

#[test]
fn ordered_f32_compare_nan_op() {
    let f32_nan: OrderedFloat<u32> = of32(f32::NAN);
    assert!(f32_nan == f32_nan);
    assert!(f32_nan <= f32_nan);
    assert!(f32_nan >= f32_nan);
    assert!(f32_nan > of32(-100000.0));
    assert!(f32_nan >= of32(-100000.0));
    assert!(of32(-100.0) < f32_nan);
    assert!(of32(-100.0) <= f32_nan);
    assert!(f32_nan > of32(f32::INFINITY));
    assert!(f32_nan >= of32(f32::INFINITY));
    assert!(f32_nan > of32(f32::NEG_INFINITY));
    assert!(f32_nan >= of32(f32::NEG_INFINITY));
}

#[test]
fn ordered_f64_compare_regular_floats() {
    assert_eq!(of64(7.0).cmp(&of64(7.0)), Ordering::Equal);
    assert_eq!(of64(8.0).cmp(&of64(7.0)), Ordering::Greater);
    assert_eq!(of64(4.0).cmp(&of64(7.0)), Ordering::Less);
}

#[test]
fn ordered_f64_compare_regular_floats_op() {
    assert!(of64(7.0) == of64(7.0));
    assert!(of64(7.0) <= of64(7.0));
    assert!(of64(7.0) >= of64(7.0));
    assert!(of64(8.0) > of64(7.0));
    assert!(of64(8.0) >= of64(7.0));
    assert!(of64(4.0) < of64(7.0));
    assert!(of64(4.0) <= of64(7.0));
}

#[test]
fn ordered_f64_compare_nan() {
    let f64_nan: f64 = f64::NAN;
    assert_eq!(of64(f64_nan).cmp(&of64(f64::NAN)), Ordering::Equal);
    assert_eq!(of64(f64_nan).cmp(&of64(-100000.0)), Ordering::Greater);
    assert_eq!(of64(-100.0).cmp(&of64(f64::NAN)), Ordering::Less);
}

#[test]
fn ordered_f64_compare_nan_op() {
    let f64_nan: OrderedFloat<u64> = of64(f64::NAN);
    assert!(f64_nan == f64_nan);
    assert!(f64_nan <= f64_nan);
    assert!(f64_nan >= f64_nan);
    assert!(f64_nan > of64(-100000.0));
    assert!(f64_nan >= of64(-100000.0));
    assert!(of64(-100.0) < f64_nan);
    assert!(of64(-100.0) <= f64_nan);
    assert!(f64_nan > of64(f64::INFINITY));
    assert!(f64_nan >= of64(f64::INFINITY));
    assert!(f64_nan > of64(f64::NEG_INFINITY));
    assert!(f64_nan >= of64(f64::NEG_INFINITY));
}

#[test]
fn not_nan32_compare_regular_floats() {
    assert_eq!(not_nan32(7.0).cmp(&not_nan32(7.0)), Ordering::Equal);
    assert_eq!(not_nan32(8.0).cmp(&not_nan32(7.0)), Ordering::Greater);
    assert_eq!(not_nan32(4.0).cmp(&not_nan32(7.0)), Ordering::Less);
}

#[test]
fn not_nan32_fail_when_constructing_with_nan() {
    let f32_nan: f32 = f32::NAN;
    assert!(NotNan::<u32>::new(f32_nan.to_bits()).is_err());
}

#[test]
fn not_nan64_compare_regular_floats() {
    assert_eq!(not_nan64(7.0).cmp(&not_nan64(7.0)), Ordering::Equal);
    assert_eq!(not_nan64(8.0).cmp(&not_nan64(7.0)), Ordering::Greater);
    assert_eq!(not_nan64(4.0).cmp(&not_nan64(7.0)), Ordering::Less);
}

#[test]
fn not_nan64_fail_when_constructing_with_nan() {
    let f64_nan: f64 = f64::NAN;
    assert!(NotNan::<u64>::new(f64_nan.to_bits()).is_err());
}

#[test]
fn not_nan32_zero() {
    assert_eq!(NotNan::<u32>::zero().into_inner(), 0.0f32.to_bits());
    assert!(NotNan::<u32>::zero().is_zero());
}

#[test]
fn not_nan32_one() {
    assert_eq!(NotNan::<u32>::one().into_inner(), 1.0f32.to_bits());
}

#[test]
fn not_nan32_bounded() {
    assert_eq!(NotNan::<u32>::min_value().into_inner(), f32::MIN.to_bits());
    assert_eq!(NotNan::<u32>::max_value().into_inner(), f32::MAX.to_bits());
}

#[test]
fn not_nan64_zero() {
    assert_eq!(NotNan::<u64>::zero(), not_nan64(0.0));
    assert!(NotNan::<u64>::zero().is_zero());
}

#[test]
fn not_nan64_one() {
    assert_eq!(NotNan::<u64>::one(), not_nan64(1.0));
}

#[test]
fn not_nan64_bounded() {
    assert_eq!(NotNan::<u64>::min_value().into_inner(), f64::MIN.to_bits());
    assert_eq!(NotNan::<u64>::max_value().into_inner(), f64::MAX.to_bits());
}

#[test]
fn not_nan32_num() {
    let parsed: Result<u32, std::num::ParseFloatError> =
        "42.0".parse::<f32>().map(f32::to_bits);
    assert_eq!(NotNan::<u32>::from_parsed(parsed).unwrap(), not_nan32(42.0));
    let nan_parsed: Result<u32, std::num::ParseFloatError> =
        "NaN".parse::<f32>().map(f32::to_bits);
    assert!(NotNan::<u32>::from_parsed(nan_parsed).is_err());
}

#[test]
fn not_nan64_num() {
    let parsed: Result<u64, std::num::ParseFloatError> =
        "42.0".parse::<f64>().map(f64::to_bits);
    assert_eq!(NotNan::<u64>::from_parsed(parsed).unwrap(), not_nan64(42.0));
    let nan_parsed: Result<u64, std::num::ParseFloatError> =
        "NaN".parse::<f64>().map(f64::to_bits);
    assert!(NotNan::<u64>::from_parsed(nan_parsed).is_err());
}

#[test]
fn parse_error_kinds_are_distinct() {
    let malformed: Result<u64, std::num::ParseFloatError> =
        "abc".parse::<f64>().map(f64::to_bits);
    let r = NotNan::<u64>::from_parsed(malformed);
    assert!(matches!(r, Err(ParseNotNanError::ParseFloatError(_))));

    let textual_nan: Result<u64, std::num::ParseFloatError> =
        "NaN".parse::<f64>().map(f64::to_bits);
    let r = NotNan::<u64>::from_parsed(textual_nan);
    assert!(matches!(r, Err(ParseNotNanError::IsNaN)));
}

fn hash_of(bits: u64, state: &RandomState) -> u64 {
    let mut h = state.build_hasher();
    bits.hash(&mut h);
    h.finish()
}

#[test]
fn hash_zero_and_neg_zero_to_the_same_hc() {
    let state = RandomState::new();
    let h1 = hash_of(of64(0.0).canonical_bits(), &state);
    let h2 = hash_of(of64(-0.0).canonical_bits(), &state);
    assert_eq!(h1, h2);
}

#[test]
fn hash_inf_and_neg_inf_to_different_hcs() {
    let state = RandomState::new();
    let h1 = hash_of(of64(f64::INFINITY).canonical_bits(), &state);
    let h2 = hash_of(of64(f64::NEG_INFINITY).canonical_bits(), &state);
    assert!(h1 != h2);
}

#[test]
fn hash_is_good_for_whole_numbers() {
    let state = RandomState::new();
    let limit = 10000;

    let mut set = std::collections::HashSet::with_capacity(limit);
    for i in 0..limit {
        set.insert(hash_of(of64(i as f64).canonical_bits(), &state));
    }

    // This allows 100 collisions, which is far too many, but should guard
    // against transient issues that will result from using RandomState
    let pct_unique = set.len() as f64 / limit as f64;
    assert!(0.99f64 < pct_unique, "percent-unique={}", pct_unique);
}

#[test]
fn hash_is_good_for_fractional_numbers() {
    let state = RandomState::new();
    let limit = 10000;

    let mut set = std::collections::HashSet::with_capacity(limit);
    for i in 0..limit {
        set.insert(hash_of(of64(i as f64 * (1f64 / limit as f64)).canonical_bits(), &state));
    }

    let pct_unique = set.len() as f64 / limit as f64;
    assert!(0.99f64 < pct_unique, "percent-unique={}", pct_unique);
}

#[test]
fn ordered_f32_neg() {
    assert_eq!(of32(-7.0), of32(7.0).neg());
}

#[test]
fn ordered_f64_neg() {
    assert_eq!(of64(-7.0), of64(7.0).neg());
}

#[test]
fn test_not_nan_bit_pattern() {
    let nan = f64::NAN;
    assert_eq!(NotNan::<u64>::new(nan.to_bits()), Err(FloatIsNan));

    let pi = std::f64::consts::PI;
    assert!(NotNan::<u64>::new(pi.to_bits()).is_ok());
}

// A sampling of finite, infinite, zero and subnormal values of both signs.
fn f64_samples() -> Vec<f64> {
    vec![
        f64::NEG_INFINITY,
        f64::MIN,
        -2.5,
        -1.0,
        -f64::MIN_POSITIVE,
        -f64::from_bits(1),
        -0.0,
        0.0,
        f64::from_bits(1),
        f64::MIN_POSITIVE,
        1.0,
        2.5,
        f64::MAX,
        f64::INFINITY,
    ]
}

fn f32_samples() -> Vec<f32> {
    vec![
        f32::NEG_INFINITY,
        f32::MIN,
        -2.5,
        -1.0,
        -f32::MIN_POSITIVE,
        -f32::from_bits(1),
        -0.0,
        0.0,
        f32::from_bits(1),
        f32::MIN_POSITIVE,
        1.0,
        2.5,
        f32::MAX,
        f32::INFINITY,
    ]
}

// Distinct NaN encodings: quiet, negative quiet, payload-carrying.
fn f64_nan_bits() -> Vec<u64> {
    vec![
        f64::NAN.to_bits(),
        f64::NAN.to_bits() | 0x8000_0000_0000_0000,
        0x7ff0_0000_0000_0001,
        0xfff8_0000_0000_1234,
    ]
}

#[test]
fn order_agrees_with_ieee_on_non_nan() {
    for &x in f64_samples().iter() {
        for &y in f64_samples().iter() {
            let native = x.partial_cmp(&y).unwrap();
            assert_eq!(of64(x).cmp(&of64(y)), native, "{} vs {}", x, y);
        }
    }
    for &x in f32_samples().iter() {
        for &y in f32_samples().iter() {
            let native = x.partial_cmp(&y).unwrap();
            assert_eq!(of32(x).cmp(&of32(y)), native, "{} vs {}", x, y);
        }
    }
}

#[test]
fn total_order_trichotomy_concrete() {
    let mut all: Vec<u64> = f64_samples().iter().map(|x| x.to_bits()).collect();
    all.extend(f64_nan_bits());
    for &a in all.iter() {
        for &b in all.iter() {
            let lt = OrderedFloat(a) < OrderedFloat(b);
            let eq = OrderedFloat(a) == OrderedFloat(b);
            let gt = OrderedFloat(a) > OrderedFloat(b);
            let count = [lt, eq, gt].iter().filter(|&&h| h).count();
            assert_eq!(count, 1, "{:#x} vs {:#x}", a, b);
        }
    }
}

#[test]
fn nan_is_maximal_for_every_encoding() {
    for &n in f64_nan_bits().iter() {
        for &m in f64_nan_bits().iter() {
            assert!(OrderedFloat(n) == OrderedFloat(m));
        }
        for &x in f64_samples().iter() {
            assert!(OrderedFloat(x.to_bits()) < OrderedFloat(n));
            assert!(OrderedFloat(n) > OrderedFloat(x.to_bits()));
        }
    }
}

#[test]
fn signed_zero_equality() {
    assert!(of64(0.0) == of64(-0.0));
    assert!(of32(0.0) == of32(-0.0));
    assert_eq!(of64(0.0).canonical_bits(), of64(-0.0).canonical_bits());
    assert_eq!(of32(0.0).canonical_bits(), of32(-0.0).canonical_bits());
}

#[test]
fn canonical_bits_agree_exactly_with_equality() {
    let mut all: Vec<u64> = f64_samples().iter().map(|x| x.to_bits()).collect();
    all.extend(f64_nan_bits());
    for &a in all.iter() {
        for &b in all.iter() {
            let eq = OrderedFloat(a) == OrderedFloat(b);
            let canon_eq = OrderedFloat(a).canonical_bits() == OrderedFloat(b).canonical_bits();
            assert_eq!(eq, canon_eq, "{:#x} vs {:#x}", a, b);
        }
    }
}

#[test]
fn construction_accepts_every_non_nan() {
    for &x in f64_samples().iter() {
        let r = NotNan::<u64>::new(x.to_bits());
        assert_eq!(r.unwrap().into_inner(), x.to_bits());
    }
    for &n in f64_nan_bits().iter() {
        assert_eq!(NotNan::<u64>::new(n), Err(FloatIsNan));
    }
}

#[test]
fn round_trip_bit_for_bit() {
    for &x in f64_samples().iter() {
        assert_eq!(NotNan::<u64>::new(x.to_bits()).unwrap().into_inner(), x.to_bits());
        assert_eq!(OrderedFloat(x.to_bits()).into_inner(), x.to_bits());
    }
}

#[test]
fn sort_orders_nan_last() {
    let mut v = vec![of64(f64::NAN), of64(2.0), of64(1.0)];
    v.sort_by(|a, b| a.cmp(b));
    assert!(v[0] == of64(1.0));
    assert!(v[1] == of64(2.0));
    assert!(v[2].is_nan());
}

#[test]
fn arithmetic_invariant_enforcement() {
    // a same-type sum of two valid operands may still be NaN; re-validation
    // must reject it
    let a = not_nan64(f64::INFINITY);
    let b = not_nan64(f64::NEG_INFINITY);
    let sum = f64::from_bits(a.into_inner()) + f64::from_bits(b.into_inner());
    assert_eq!(NotNan::<u64>::new(sum.to_bits()), Err(FloatIsNan));

    // the mixed-type form returns the raw value without failing, even when
    // it is NaN ...
    let c = not_nan64(0.0);
    let raw = f64::from_bits(c.into_inner()) / 0.0f64;
    assert!(OrderedFloat(raw.to_bits()).is_nan());

    // ... and re-wrapping that raw NaN through validated construction fails
    assert!(NotNan::<u64>::new(raw.to_bits()).is_err());
}

#[test]
fn sum_to_nan_is_rejected() {
    // accumulating [+inf, -inf] produces NaN at the second step; the strict
    // sum must fail rather than wrap the result
    let items = vec![not_nan32(f32::INFINITY), not_nan32(f32::NEG_INFINITY)];
    let mut acc: f32 = 0.0;
    for item in items.iter() {
        acc += f32::from_bits(item.into_inner());
    }
    assert!(NotNan::<u32>::new(acc.to_bits()).is_err());
}

#[test]
fn product_to_nan_is_rejected() {
    let items = vec![not_nan32(f32::INFINITY), not_nan32(0.0)];
    let mut acc: f32 = 1.0;
    for item in items.iter() {
        acc *= f32::from_bits(item.into_inner());
    }
    assert!(NotNan::<u32>::new(acc.to_bits()).is_err());
}

#[test]
fn not_nan64_sum_product() {
    let a = not_nan64(2138.1237);
    let b = not_nan64(132f64);
    let c = not_nan64(5.1);

    let sum = f64::from_bits(a.into_inner()) + f64::from_bits(b.into_inner())
        + f64::from_bits(c.into_inner());
    assert_eq!(NotNan::<u64>::new(sum.to_bits()).unwrap(), not_nan64(2138.1237 + 132f64 + 5.1));

    let product = f64::from_bits(a.into_inner()) * f64::from_bits(b.into_inner())
        * f64::from_bits(c.into_inner());
    assert_eq!(
        NotNan::<u64>::new(product.to_bits()).unwrap(),
        not_nan64(2138.1237 * 132f64 * 5.1)
    );
}

#[test]
fn widening_matches_native_conversion() {
    for &x in f32_samples().iter() {
        let narrow = not_nan32(x);
        let wide: NotNan<u64> = narrow.widen();
        assert_eq!(wide.into_inner(), (x as f64).to_bits(), "widening {}", x);
        let via_from: NotNan<u64> = NotNan::from(narrow);
        assert_eq!(via_from.into_inner(), (x as f64).to_bits());
    }
    // a denser sweep through small subnormal fractions
    for frac in 1u32..200u32 {
        let x = f32::from_bits(frac);
        assert_eq!(not_nan32(x).widen().into_inner(), (x as f64).to_bits());
        let y = f32::from_bits(frac | 0x8000_0000);
        assert_eq!(not_nan32(y).widen().into_inner(), (y as f64).to_bits());
    }
}

#[test]
fn not_nan_negation_succeeds() {
    assert_eq!(not_nan64(1.0).neg(), not_nan64(-1.0));
    assert_eq!(not_nan64(-0.0).neg().into_inner(), 0.0f64.to_bits());
    assert!(!not_nan32(f32::INFINITY).neg().is_nan());
}

#[test]
fn unchecked_construction_matches_checked() {
    let a = NotNan::<u32>::new_unchecked(111f32.to_bits());
    assert_eq!(a, NotNan::<u32>::new(111f32.to_bits()).unwrap());
    let b = NotNan::<u32>::unchecked_new(111f32.to_bits());
    assert_eq!(b, a);
}

#[test]
fn default_is_positive_zero() {
    assert_eq!(OrderedFloat::<u64>::default().into_inner(), 0.0f64.to_bits());
    assert_eq!(NotNan::<u64>::default().into_inner(), 0.0f64.to_bits());
    assert_eq!(OrderedFloat::<u32>::default().into_inner(), 0.0f32.to_bits());
    assert_eq!(NotNan::<u32>::default().into_inner(), 0.0f32.to_bits());
}

#[test]
fn raw_comparison_uses_ieee_equality() {
    // against a raw pattern, equality is the native IEEE one: NaN is equal
    // to nothing, the zeros are equal
    assert!(of64(7.0) == 7.0f64.to_bits());
    assert!(of64(0.0) == (-0.0f64).to_bits());
    assert!(of64(f64::NAN) != f64::NAN.to_bits());
    // while two wrapped NaN values are equal in the total order
    assert!(of64(f64::NAN) == of64(f64::NAN));
    let one = not_nan32(1.0);
    assert!(one == 1.0f32.to_bits());
    assert!(one != 2.0f32.to_bits());
}

#[test]
fn canonical_bits_is_idempotent() {
    let mut all: Vec<u64> = f64_samples().iter().map(|x| x.to_bits()).collect();
    all.extend(f64_nan_bits());
    for &a in all.iter() {
        let c = OrderedFloat(a).canonical_bits();
        assert_eq!(OrderedFloat(c).canonical_bits(), c);
        assert!(OrderedFloat(a) == OrderedFloat(c));
    }
}

#[test]
fn classification_of_special_values() {
    assert!(of64(f64::INFINITY).is_infinite());
    assert!(!of64(f64::INFINITY).is_finite());
    assert!(of64(f64::NEG_INFINITY).is_infinite());
    assert!(!of64(f64::NAN).is_finite());
    assert!(!of64(f64::NAN).is_infinite());
    assert!(of64(0.0).is_finite());
    assert!(of32(f32::MAX).is_finite());
    assert!(of32(f32::INFINITY).is_infinite());
    assert!(!of32(f32::NAN).is_finite());
}

#[test]
fn nan_classification_of_raw_bits() {
    assert!(bits64::is_nan(f64::NAN.to_bits()));
    assert!(!bits64::is_nan(f64::INFINITY.to_bits()));
    assert!(!bits64::is_nan(0u64));
    assert!(bits32::is_nan(f32::NAN.to_bits()));
    assert!(!bits32::is_nan(f32::INFINITY.to_bits()));
    assert_eq!(bits64::canonical(f64::NAN.to_bits()), bits64::CANONICAL_NAN_BITS);
    assert_eq!(bits32::canonical(f32::NAN.to_bits()), bits32::CANONICAL_NAN_BITS);
}
