use weight_sync::utils::get_and_format_weight;
use weight_sync::withings::WeightError;

#[test]
fn a_weight_in_grams_becomes_kilograms() {
    assert_eq!(get_and_format_weight(&Ok(82350)), Some("82.35".to_string()));
    assert_eq!(get_and_format_weight(&Ok(80000)), Some("80".to_string()));
}

#[test]
fn a_failed_lookup_gives_no_text() {
    assert_eq!(get_and_format_weight(&Err(WeightError::NoMeasurements)), None);
    assert_eq!(get_and_format_weight(&Err(WeightError::Auth("no token".to_string()))), None);
    assert_eq!(get_and_format_weight(&Err(WeightError::Measurement("down".to_string()))), None);
}
