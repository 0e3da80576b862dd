//! Preference enumeration tests: the integer bijection and the token
//! mapping.

use rusty_spout::call::EngineCall;
use rusty_spout::error::Error;
use rusty_spout::preference::DxgiGpuPreference;
use rusty_spout::spout::RustySpout;

#[test]
fn integer_mapping_round_trips_every_variant() {
    let variants = [
        DxgiGpuPreference::NotRegistered,
        DxgiGpuPreference::Unspecified,
        DxgiGpuPreference::MinimumPower,
        DxgiGpuPreference::HighPerformance,
    ];
    for variant in variants {
        let code = variant.try_into_code().unwrap();
        let back = DxgiGpuPreference::try_from(code).unwrap();
        assert_eq!(back, variant);
    }
}

#[test]
fn integer_codes_are_fixed() {
    assert_eq!(DxgiGpuPreference::NotRegistered.try_into_code().unwrap(), -1);
    assert_eq!(DxgiGpuPreference::Unspecified.try_into_code().unwrap(), 0);
    assert_eq!(DxgiGpuPreference::MinimumPower.try_into_code().unwrap(), 1);
    assert_eq!(DxgiGpuPreference::HighPerformance.try_into_code().unwrap(), 2);
}

#[test]
fn unknown_codes_are_unexpected_value() {
    for code in [-3, -2, 3, 4, 100, i32::MIN, i32::MAX] {
        assert_eq!(
            DxgiGpuPreference::try_from(code).unwrap_err(),
            Error::UnexpectedValue
        );
    }
}

#[test]
fn token_mapping_matches_fixed_set() {
    assert_eq!(
        DxgiGpuPreference::Unspecified.try_into_token().unwrap(),
        "DXGI_GPU_PREFERENCE_UNSPECIFIED"
    );
    assert_eq!(
        DxgiGpuPreference::MinimumPower.try_into_token().unwrap(),
        "DXGI_GPU_PREFERENCE_MINIMUM_POWER"
    );
    assert_eq!(
        DxgiGpuPreference::HighPerformance.try_into_token().unwrap(),
        "DXGI_GPU_PREFERENCE_HIGH_PERFORMANCE"
    );
    assert_eq!(
        DxgiGpuPreference::NotRegistered.try_into_token().unwrap_err(),
        Error::UnexpectedValue
    );
}

#[test]
fn preference_crosses_as_its_code() {
    let mut spout = RustySpout::new();
    spout.get_spout(0x1000).unwrap();

    match spout
        .set_preferred_adapter(DxgiGpuPreference::HighPerformance)
        .unwrap()
    {
        EngineCall::SetPreferredAdapter { preference } => assert_eq!(preference, 2),
        other => panic!("unexpected call: {:?}", other),
    }

    match spout
        .set_performance_preference(DxgiGpuPreference::MinimumPower, "C:/app.exe")
        .unwrap()
    {
        EngineCall::SetPerformancePreference { preference, path } => {
            assert_eq!(preference, 1);
            assert_eq!(path, b"C:/app.exe\0".to_vec());
        }
        other => panic!("unexpected call: {:?}", other),
    }
}
