use weight_sync::strava::{
    access_token_result, auth_strava, authorization_result, config_file, get_access_token,
    get_athlete_stats, get_authenticated_athlete, sync_strava, sync_weight_to_strava,
    update_athlete_weight, with_refresh_token, AuthConfig, StravaError, TokenPlan, WeightSync,
    AUTH_URL, CLIENT_ID_ENV, CLIENT_SECRET_ENV, CONFIG_FILE_ENV, DEFAULT_CONFIG_FILE, TOKEN_URL,
};

fn fresh(id: &str, secret: &str) -> AuthConfig {
    AuthConfig {
        client_id: id.to_string(),
        client_secret: secret.to_string(),
        refresh_token: Some(String::new()),
        auth_url: "http://www.strava.com/oauth/authorize".to_string(),
        token_url: "https://www.strava.com/oauth/token".to_string(),
    }
}

fn no_client_id() -> StravaError {
    StravaError::Config {
        message: "Missing client ID".to_string(),
        help: "Set the STRAVA_CLIENT_ID environment variable".to_string(),
    }
}

fn no_client_secret() -> StravaError {
    StravaError::Config {
        message: "Missing client secret".to_string(),
        help: "Set the STRAVA_CLIENT_SECRET environment variable".to_string(),
    }
}

#[test]
fn addresses_and_names() {
    assert_eq!(AUTH_URL, "http://www.strava.com/oauth/authorize");
    assert_eq!(TOKEN_URL, "https://www.strava.com/oauth/token");
    assert_eq!(CONFIG_FILE_ENV, "STRAVA_CONFIG_FILE");
    assert_eq!(DEFAULT_CONFIG_FILE, "config.json");
    assert_eq!(CLIENT_ID_ENV, "STRAVA_CLIENT_ID");
    assert_eq!(CLIENT_SECRET_ENV, "STRAVA_CLIENT_SECRET");
}

#[test]
fn text_of_the_strava_errors() {
    let authentication =
        StravaError::Authentication { source: "denied".to_string(), help: None };
    assert_eq!(authentication.to_text(), "Authentication failed");
    assert_eq!(no_client_id().to_text(), "Configuration error: Missing client ID");
    let api = StravaError::Api { message: "Failed".to_string(), src: Some("500".to_string()) };
    assert_eq!(api.to_text(), "API error: Failed");
}

#[test]
fn registration_takes_both_credentials() {
    assert_eq!(
        auth_strava(Some("id".to_string()), Some("secret".to_string())),
        Ok(fresh("id", "secret"))
    );
}

#[test]
fn the_configuration_is_the_one_of_the_strava_client() {
    let ours = auth_strava(Some("id".to_string()), Some("secret".to_string())).unwrap();
    let theirs = strava_client_rs::api::auth::Config::new(
        "id".to_string(),
        "secret".to_string(),
        String::new(),
        AUTH_URL.to_string(),
        TOKEN_URL.to_string(),
    );
    assert_eq!(ours.client_id, theirs.client_id);
    assert_eq!(ours.client_secret, theirs.client_secret);
    assert_eq!(ours.refresh_token, theirs.refresh_token);
    assert_eq!(ours.auth_url, theirs.auth_url);
    assert_eq!(ours.token_url, theirs.token_url);
    assert_ne!(ours.client_id, ours.client_secret);
    assert_ne!(ours.auth_url, ours.token_url);
}

#[test]
fn registration_without_client_id() {
    assert_eq!(auth_strava(None, Some("secret".to_string())), Err(no_client_id()));
    assert_eq!(auth_strava(None, None), Err(no_client_id()));
}

#[test]
fn registration_without_client_secret() {
    assert_eq!(auth_strava(Some("id".to_string()), None), Err(no_client_secret()));
}

#[test]
fn an_authorization_that_ended_well_gives_the_token() {
    assert_eq!(authorization_result(Ok("token".to_string())), Ok("token".to_string()));
}

#[test]
fn a_failed_authorization_is_reported() {
    assert_eq!(
        authorization_result(Err("denied".to_string())),
        Err(StravaError::Authentication {
            source: "denied".to_string(),
            help: Some("Check your Strava credentials and try again".to_string()),
        })
    );
}

#[test]
fn the_configuration_file_is_the_one_named() {
    assert_eq!(config_file(Some("/etc/strava.json".to_string())), "/etc/strava.json");
    assert_eq!(config_file(Some(String::new())), "");
}

#[test]
fn the_configuration_file_has_a_default() {
    assert_eq!(config_file(None), "config.json");
}

#[test]
fn a_token_is_refreshed_where_a_configuration_file_exists() {
    assert_eq!(
        get_access_token(Some("id".to_string()), Some("secret".to_string()), true),
        Ok(TokenPlan::Refresh(fresh("id", "secret")))
    );
}

#[test]
fn a_token_is_authorized_where_no_configuration_file_exists() {
    assert_eq!(
        get_access_token(Some("id".to_string()), Some("secret".to_string()), false),
        Ok(TokenPlan::Authorize(fresh("id", "secret")))
    );
}

#[test]
fn credentials_come_before_the_configuration_file() {
    for exists in [false, true] {
        assert_eq!(get_access_token(None, None, exists), Err(no_client_id()));
        assert_eq!(
            get_access_token(None, Some("secret".to_string()), exists),
            Err(no_client_id())
        );
        assert_eq!(
            get_access_token(Some("id".to_string()), None, exists),
            Err(no_client_secret())
        );
    }
}

#[test]
fn the_stored_refresh_token_replaces_the_empty_one() {
    let ready = with_refresh_token(fresh("id", "secret"), "stored".to_string());
    assert_eq!(
        ready,
        AuthConfig { refresh_token: Some("stored".to_string()), ..fresh("id", "secret") }
    );
}

#[test]
fn a_token_request_that_ended_well_gives_the_token() {
    assert_eq!(access_token_result(Ok("token".to_string())), Ok("token".to_string()));
}

#[test]
fn a_failed_token_request_is_reported() {
    assert_eq!(
        access_token_result(Err("timeout".to_string())),
        Err(StravaError::Authentication {
            source: "timeout".to_string(),
            help: Some("Check your credentials and network connection".to_string()),
        })
    );
}

#[test]
fn an_athlete_that_came_is_handed_on() {
    assert_eq!(get_authenticated_athlete(Ok(("Ada", 7_u64))), Ok(("Ada", 7_u64)));
}

#[test]
fn a_failed_athlete_request_is_reported() {
    assert_eq!(
        get_authenticated_athlete::<u8>(Err("API returned an error".to_string())),
        Err(StravaError::Api {
            message: "Failed to get athlete information".to_string(),
            src: Some("API returned an error".to_string()),
        })
    );
}

#[test]
fn statistics_that_came_are_handed_on() {
    assert_eq!(get_athlete_stats(Ok(vec![1, 2, 3])), Ok(vec![1, 2, 3]));
}

#[test]
fn a_failed_statistics_request_is_reported() {
    assert_eq!(
        get_athlete_stats::<u8>(Err("API returned an error".to_string())),
        Err(StravaError::Api {
            message: "Failed to get athlete stats".to_string(),
            src: Some("API returned an error".to_string()),
        })
    );
}

#[test]
fn the_status_of_an_update_is_handed_on() {
    assert_eq!(update_athlete_weight(Ok("200 OK".to_string())), Ok("200 OK".to_string()));
}

#[test]
fn a_failed_update_is_reported() {
    assert_eq!(
        update_athlete_weight(Err("API returned an error".to_string())),
        Err(StravaError::Api {
            message: "Failed to update athlete weight".to_string(),
            src: Some("API returned an error".to_string()),
        })
    );
}

#[test]
fn a_weight_is_synced_with_two_lines() {
    assert_eq!(
        sync_weight_to_strava(Some("82.35".to_string())),
        Ok(WeightSync {
            weight: "82.35".to_string(),
            announcement: "Syncing to Strava...".to_string(),
            confirmation: "Weight updated in Strava to 82.35 kg".to_string(),
        })
    );
}

#[test]
fn a_sync_needs_a_weight() {
    assert_eq!(
        sync_weight_to_strava(None),
        Err(StravaError::Api { message: "Weight value is required".to_string(), src: None })
    );
}

#[test]
fn the_spaced_sync_ends_its_lines_with_a_break() {
    assert_eq!(
        sync_strava(Some("80".to_string())),
        WeightSync {
            weight: "80".to_string(),
            announcement: "Syncing to Strava...\n".to_string(),
            confirmation: "Weight updated in Strava to 80 kg\n".to_string(),
        }
    );
}
