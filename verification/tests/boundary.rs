//! Tests for the boundary operation: mode mapping, request building with
//! the lenient mods fallback and the tri-state optional, and the bit-exact
//! result record.

use perf_adapter::mode::{mode_from_code, GameMode};
use perf_adapter::record::CalculatePerformanceResult;
use perf_adapter::request::{build_request, CalculateError, PerformanceRequest};

const PATH: &[u8] = b"songs/500-objects.osu";

fn request(
    mode_code: u32,
    mods: Option<&[u8]>,
    passed_objects: Option<u32>,
) -> Result<PerformanceRequest, CalculateError> {
    build_request(
        Some(PATH),
        mode_code,
        mods,
        1000,
        98.5f64.to_bits(),
        2,
        passed_objects,
        false,
        950000,
    )
}

#[test]
fn all_four_mode_codes_map() {
    assert_eq!(mode_from_code(0), Some(GameMode::Standard));
    assert_eq!(mode_from_code(1), Some(GameMode::Taiko));
    assert_eq!(mode_from_code(2), Some(GameMode::CatchTheBeat));
    assert_eq!(mode_from_code(3), Some(GameMode::Mania));
}

#[test]
fn mode_codes_outside_the_set_are_refused() {
    assert_eq!(mode_from_code(4), None);
    assert_eq!(mode_from_code(7), None);
    assert_eq!(mode_from_code(u32::MAX), None);
}

#[test]
fn valid_call_builds_the_request() {
    let r = request(0, Some(b"0".as_slice()), None).unwrap();
    assert_eq!(
        r,
        PerformanceRequest {
            mode: GameMode::Standard,
            mods: 0,
            max_combo: 1000,
            accuracy_bits: 98.5f64.to_bits(),
            miss_count: 2,
            passed_objects: None,
            score: 950000,
        }
    );
}

#[test]
fn every_valid_mode_code_succeeds() {
    for code in 0..4u32 {
        assert!(request(code, Some(b"0".as_slice()), None).is_ok());
    }
}

#[test]
fn invalid_mode_code_is_an_error() {
    assert_eq!(request(4, Some(b"0".as_slice()), None), Err(CalculateError::InvalidMode));
    assert_eq!(request(99, None, None), Err(CalculateError::InvalidMode));
}

#[test]
fn absent_path_is_an_error() {
    let r = build_request(None, 0, None, 1000, 0, 2, None, false, 950000);
    assert_eq!(r, Err(CalculateError::InvalidPath));
}

#[test]
fn non_utf8_path_is_an_error() {
    let r = build_request(
        Some(b"\xFFbad\x80path".as_slice()),
        0,
        None,
        1000,
        0,
        2,
        None,
        false,
        950000,
    );
    assert_eq!(r, Err(CalculateError::InvalidPath));
}

#[test]
fn path_is_checked_before_the_mode() {
    let r = build_request(None, 99, None, 1000, 0, 2, None, false, 950000);
    assert_eq!(r, Err(CalculateError::InvalidPath));
}

#[test]
fn neutral_mods_spellings_agree() {
    // "0" and absent mods build the very same request
    assert_eq!(request(0, Some(b"0".as_slice()), None), request(0, None, None));
}

#[test]
fn unparsable_mods_fall_back_silently() {
    // "NM" is not an error and behaves exactly like "0"
    assert_eq!(request(0, Some(b"NM".as_slice()), None), request(0, Some(b"0".as_slice()), None));
    assert_eq!(request(0, Some(b"NM".as_slice()), None), request(0, None, None));
}

#[test]
fn mods_change_the_request() {
    let plain = request(0, Some(b"0".as_slice()), None).unwrap();
    let double_time = request(0, Some(b"64".as_slice()), None).unwrap();
    assert_eq!(double_time.mods, 64);
    assert_ne!(plain, double_time);
    let mut expected = plain;
    expected.mods = 64;
    assert_eq!(double_time, expected);
}

#[test]
fn passed_objects_is_tri_state() {
    let absent = request(0, Some(b"0".as_slice()), None).unwrap();
    let zero = request(0, Some(b"0".as_slice()), Some(0)).unwrap();
    let partial = request(0, Some(b"0".as_slice()), Some(250)).unwrap();
    assert_eq!(absent.passed_objects, None);
    assert_eq!(zero.passed_objects, Some(0));
    assert_eq!(partial.passed_objects, Some(250));
    assert_ne!(absent, zero); // absent is not present-with-zero
    assert_ne!(zero, partial);
}

#[test]
fn legacy_flag_is_inert() {
    let with = build_request(Some(PATH), 3, None, 10, 0, 0, Some(5), true, 1);
    let without = build_request(Some(PATH), 3, None, 10, 0, 0, Some(5), false, 1);
    assert_eq!(with, without);
}

#[test]
fn repeated_calls_are_deterministic() {
    let first = request(2, Some(b"72".as_slice()), Some(123));
    for _ in 0..10 {
        assert_eq!(request(2, Some(b"72".as_slice()), Some(123)), first);
    }
}

#[test]
fn record_carries_bits_exactly() {
    let pp = 217.4893561204_f64;
    let stars = 6.3024203_f64;
    let r = CalculatePerformanceResult::from_attributes(pp.to_bits(), stars.to_bits());
    // bit-exact round trip: no precision is lost in the record
    assert_eq!(f64::from_bits(r.pp_bits), pp);
    assert_eq!(f64::from_bits(r.stars_bits), stars);
    assert_eq!(r.pp_bits, pp.to_bits());
    assert_eq!(r.stars_bits, stars.to_bits());
}

#[test]
fn default_record_is_all_zero() {
    let r = CalculatePerformanceResult::default();
    assert_eq!(f64::from_bits(r.pp_bits), 0.0);
    assert_eq!(f64::from_bits(r.stars_bits), 0.0);
}
