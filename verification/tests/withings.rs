use weight_sync::withings::{
    access_token_result, get_access_token, get_day_before_timestamp, get_env_var,
    get_weight_by_date, measurement_params, timestamp_days_before, Grant, Measure, MeasureGroup,
    MeasurementParams, TokenError, TokenRequest, WeightError, WithingsError, CLIENT_ID_ENV,
    CLIENT_SECRET_ENV, SECONDS_PER_DAY,
};

fn weight(value: i64) -> Measure {
    Measure { value, measure_type: 1, unit: -3 }
}

fn missing(name: &str) -> WithingsError {
    WithingsError::Config {
        message: format!("Missing environment variable {}", name),
        help: format!("Set the {} environment variable", name),
    }
}

#[test]
fn names_of_the_environment_variables() {
    assert_eq!(CLIENT_ID_ENV, "WITHINGS_CLIENT_ID");
    assert_eq!(CLIENT_SECRET_ENV, "WITHINGS_CLIENT_SECRET");
}

#[test]
fn a_variable_that_is_set_is_handed_on() {
    assert_eq!(get_env_var("API_KEY", Some("abc".to_string())), Ok("abc".to_string()));
    assert_eq!(get_env_var("API_KEY", Some(String::new())), Ok(String::new()));
}

#[test]
fn a_variable_that_is_not_set_is_reported_by_name() {
    assert_eq!(
        get_env_var("API_KEY", None),
        Err(WithingsError::Config {
            message: "Missing environment variable API_KEY".to_string(),
            help: "Set the API_KEY environment variable".to_string(),
        })
    );
}

#[test]
fn text_of_a_configuration_error() {
    assert_eq!(
        missing("WITHINGS_CLIENT_ID").to_text(),
        "Configuration error: Missing environment variable WITHINGS_CLIENT_ID"
    );
}

#[test]
fn text_of_the_token_errors() {
    assert_eq!(TokenError::ClientSecret(missing("X")).to_text(), "Missing client secret");
    assert_eq!(TokenError::ClientId(missing("X")).to_text(), "Missing client ID");
    assert_eq!(
        TokenError::Token(missing("X")).to_text(),
        "Configuration error: Missing environment variable X"
    );
}

#[test]
fn text_of_the_weight_errors() {
    assert_eq!(WeightError::Auth("no".to_string()).to_text(), "Authentication error: no");
    assert_eq!(WeightError::Measurement("down".to_string()).to_text(), "Measurement error: down");
    assert_eq!(WeightError::NoMeasurements.to_text(), "No measurements available");
}

#[test]
fn a_token_is_refreshed_where_the_configuration_file_exists() {
    assert_eq!(
        get_access_token(Some("secret".to_string()), Some("id".to_string()), true),
        Ok(TokenRequest {
            client_id: "id".to_string(),
            client_secret: "secret".to_string(),
            grant: Grant::Refresh,
        })
    );
}

#[test]
fn a_token_is_asked_for_anew_where_no_configuration_file_exists() {
    assert_eq!(
        get_access_token(Some("secret".to_string()), Some("id".to_string()), false),
        Ok(TokenRequest {
            client_id: "id".to_string(),
            client_secret: "secret".to_string(),
            grant: Grant::Authorize,
        })
    );
}

#[test]
fn a_missing_secret_is_reported_first() {
    for exists in [false, true] {
        assert_eq!(
            get_access_token(None, None, exists),
            Err(TokenError::ClientSecret(missing("WITHINGS_CLIENT_SECRET")))
        );
        assert_eq!(
            get_access_token(None, Some("id".to_string()), exists),
            Err(TokenError::ClientSecret(missing("WITHINGS_CLIENT_SECRET")))
        );
    }
}

#[test]
fn a_missing_client_id_is_reported() {
    for exists in [false, true] {
        assert_eq!(
            get_access_token(Some("secret".to_string()), None, exists),
            Err(TokenError::ClientId(missing("WITHINGS_CLIENT_ID")))
        );
    }
}

#[test]
fn a_token_that_came_is_handed_on() {
    assert_eq!(access_token_result(Ok("token".to_string())), Ok("token".to_string()));
}

#[test]
fn a_failed_token_request_is_reported_with_its_cause() {
    assert_eq!(
        access_token_result(Err("API returned an error".to_string())),
        Err(TokenError::Token(WithingsError::Config {
            message: "Failed to obtain access token".to_string(),
            help: "Error: API returned an error".to_string(),
        }))
    );
}

#[test]
fn the_request_asks_for_weights_since_the_update() {
    let request = measurement_params(
        Ok("token".to_string()),
        Some("id".to_string()),
        "1706108118".to_string(),
    );
    assert_eq!(
        request,
        Ok(MeasurementParams {
            access_token: "token".to_string(),
            client_id: "id".to_string(),
            meastype: "1".to_string(),
            category: "1".to_string(),
            start: None,
            end: None,
            offset: None,
            lastupdate: Some("1706108118".to_string()),
        })
    );
}

#[test]
fn category_and_type_are_those_of_the_withings_client() {
    let request =
        measurement_params(Ok("t".to_string()), Some("i".to_string()), String::new()).unwrap();
    assert_eq!(request.category, withings_rs::models::meas::CategoryType::Measures.to_string());
    assert_eq!(request.meastype, withings_rs::models::MeasureType::Weight.to_string());
    assert_ne!(request.category, "t");
    assert_ne!(request.meastype, "");
}

#[test]
fn a_missing_token_becomes_an_authentication_error() {
    let secret = TokenError::ClientSecret(missing("WITHINGS_CLIENT_SECRET"));
    assert_eq!(
        measurement_params(Err(secret), Some("id".to_string()), "0".to_string()),
        Err(WeightError::Auth("Missing client secret".to_string()))
    );
    let id = TokenError::ClientId(missing("WITHINGS_CLIENT_ID"));
    assert_eq!(
        measurement_params(Err(id), None, "0".to_string()),
        Err(WeightError::Auth("Missing client ID".to_string()))
    );
    let refused = access_token_result(Err("denied".to_string()));
    assert_eq!(
        measurement_params(refused, Some("id".to_string()), "0".to_string()),
        Err(WeightError::Auth("Configuration error: Failed to obtain access token".to_string()))
    );
}

#[test]
fn a_missing_client_id_becomes_an_authentication_error() {
    assert_eq!(
        measurement_params(Ok("token".to_string()), None, "0".to_string()),
        Err(WeightError::Auth(
            "Configuration error: Missing environment variable WITHINGS_CLIENT_ID".to_string()
        ))
    );
}

#[test]
fn the_weight_is_the_first_measure_of_the_first_group() {
    let groups = vec![
        MeasureGroup { measures: vec![weight(82350), weight(1)] },
        MeasureGroup { measures: vec![weight(90000)] },
    ];
    assert_eq!(get_weight_by_date(Ok(groups)), Ok(82350));
}

#[test]
fn the_value_is_taken_as_it_stands() {
    let groups = vec![MeasureGroup { measures: vec![Measure { value: -7, measure_type: 4, unit: 2 }] }];
    assert_eq!(get_weight_by_date(Ok(groups)), Ok(-7));
}

#[test]
fn no_group_is_no_measurement() {
    assert_eq!(get_weight_by_date(Ok(Vec::new())), Err(WeightError::NoMeasurements));
}

#[test]
fn an_empty_first_group_is_no_measurement() {
    let groups =
        vec![MeasureGroup { measures: Vec::new() }, MeasureGroup { measures: vec![weight(80000)] }];
    assert_eq!(get_weight_by_date(Ok(groups)), Err(WeightError::NoMeasurements));
}

#[test]
fn a_failed_request_is_a_measurement_error() {
    assert_eq!(
        get_weight_by_date(Err("API returned an error: 503".to_string())),
        Err(WeightError::Measurement("API returned an error: 503".to_string()))
    );
}

#[test]
fn a_day_has_86400_seconds() {
    assert_eq!(SECONDS_PER_DAY, 86_400);
}

#[test]
fn timestamp_of_the_day_before() {
    assert_eq!(timestamp_days_before(1706108118, 1), "1706021718");
    assert_eq!(timestamp_days_before(1706108118, 0), "1706108118");
    assert_eq!(timestamp_days_before(1706108118, 7), "1705503318");
}

#[test]
fn a_negative_number_of_days_leads_forward() {
    assert_eq!(timestamp_days_before(1706108118, -1), "1706194518");
}

#[test]
fn timestamps_before_the_epoch_are_negative() {
    assert_eq!(timestamp_days_before(0, 1), "-86400");
    assert_eq!(timestamp_days_before(86399, 1), "-1");
}

#[test]
fn timestamps_beyond_the_machine_word() {
    assert_eq!(timestamp_days_before(i64::MAX, i64::MIN), "796908567356289484587007");
    assert_eq!(timestamp_days_before(i64::MIN, i64::MAX), "-796908567356289484500608");
}

#[test]
fn timestamps_agree_with_chrono() {
    let moments = [0i64, 1, 86_399, 1_706_108_118, 4_102_444_800, -1, -86_401];
    let days = [0i64, 1, 2, 30, 365, 10_000, -1, -400];
    for now in moments {
        for day in days {
            let moment = chrono::DateTime::from_timestamp(now, 0).unwrap();
            let before = moment - chrono::Duration::days(day);
            assert_eq!(timestamp_days_before(now, day), before.timestamp().to_string());
        }
    }
}

#[test]
fn the_timestamp_of_a_day_before_now_lies_a_day_back() {
    let earlier = chrono::Local::now().timestamp();
    let text = get_day_before_timestamp(1);
    let later = chrono::Local::now().timestamp();
    let seconds: i64 = text.parse().unwrap();
    assert!(earlier - 86_400 <= seconds && seconds <= later - 86_400);
    assert_eq!(seconds.to_string(), text);
}

#[test]
fn the_timestamp_of_no_day_before_now_is_now() {
    let earlier = chrono::Local::now().timestamp();
    let seconds: i64 = get_day_before_timestamp(0).parse().unwrap();
    let later = chrono::Local::now().timestamp();
    assert!(earlier <= seconds && seconds <= later);
}
