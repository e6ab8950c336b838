//! The Withings side: credentials, the measurement request, and the weight
//! that a response holds.

use crate::text::{integer_text, integer_to_string, text_of};
use vstd::prelude::*;
use vstd::string::StringExecFns;

verus! {

/// Name of the environment variable that holds the client id.
pub const CLIENT_ID_ENV: &'static str = "WITHINGS_CLIENT_ID";

/// Name of the environment variable that holds the client secret.
pub const CLIENT_SECRET_ENV: &'static str = "WITHINGS_CLIENT_SECRET";

/// Errors of the Withings configuration.
#[derive(Debug, Clone, PartialEq, Eq)]
pub enum WithingsError {
    /// Something that the tool needs is not configured.
    Config {
        /// What is wrong.
        message: String,
        /// How to put it right.
        help: String,
    },
}

/// A `WithingsError` as a mathematical value.
pub enum WithingsErrorView {
    Config { message: Seq<char>, help: Seq<char> },
}

impl View for WithingsError {
    type V = WithingsErrorView;

    open spec fn view(&self) -> WithingsErrorView {
        match self {
            WithingsError::Config { message, help } => WithingsErrorView::Config {
                message: message@,
                help: help@,
            },
        }
    }
}

impl WithingsErrorView {
    /// The line that describes the error.
    pub open spec fn text(self) -> Seq<char> {
        match self {
            WithingsErrorView::Config { message, help } => "Configuration error: "@ + message,
        }
    }
}

impl WithingsError {
    /// The line that describes the error.
    pub fn to_text(&self) -> (text: String)
        ensures
            text@ == self@.text(),
    {
        match self {
            WithingsError::Config { message, help } => {
                let mut text = String::from_str("Configuration error: ");
                text.append(message.as_str());
                text
            },
        }
    }
}

/// The error that reports the environment variable `name` as not set.
pub open spec fn missing_variable(name: Seq<char>) -> WithingsErrorView {
    WithingsErrorView::Config {
        message: "Missing environment variable "@ + name,
        help: "Set the "@ + name + " environment variable"@,
    }
}

/// Decides what a lookup of the environment variable `name` amounts to:
/// `value` is what the environment holds under that name, if anything.
pub fn get_env_var(name: &str, value: Option<String>) -> (found: Result<String, WithingsError>)
    ensures
        match value {
            Some(v) => found == Ok::<String, WithingsError>(v),
            None => found matches Err(e) && e@ == missing_variable(name@),
        },
{
    match value {
        Some(v) => Ok(v),
        None => {
            let mut message = String::from_str("Missing environment variable ");
            message.append(name);
            let mut help = String::from_str("Set the ");
            help.append(name);
            help.append(" environment variable");
            Err(WithingsError::Config { message, help })
        },
    }
}

/// Why no access token could be had.
#[derive(Debug, Clone, PartialEq, Eq)]
pub enum TokenError {
    /// The client secret is not configured.
    ClientSecret(WithingsError),
    /// The client id is not configured.
    ClientId(WithingsError),
    /// The token endpoint, or the authorization that leads to it, failed.
    Token(WithingsError),
}

/// A `TokenError` as a mathematical value.
pub enum TokenErrorView {
    ClientSecret(WithingsErrorView),
    ClientId(WithingsErrorView),
    Token(WithingsErrorView),
}

impl View for TokenError {
    type V = TokenErrorView;

    open spec fn view(&self) -> TokenErrorView {
        match self {
            TokenError::ClientSecret(e) => TokenErrorView::ClientSecret(e@),
            TokenError::ClientId(e) => TokenErrorView::ClientId(e@),
            TokenError::Token(e) => TokenErrorView::Token(e@),
        }
    }
}

impl TokenErrorView {
    /// The line that heads a report of the error.
    pub open spec fn text(self) -> Seq<char> {
        match self {
            TokenErrorView::ClientSecret(_) => "Missing client secret"@,
            TokenErrorView::ClientId(_) => "Missing client ID"@,
            TokenErrorView::Token(e) => e.text(),
        }
    }
}

impl TokenError {
    /// The line that heads a report of the error.
    pub fn to_text(&self) -> (text: String)
        ensures
            text@ == self@.text(),
    {
        match self {
            TokenError::ClientSecret(_) => String::from_str("Missing client secret"),
            TokenError::ClientId(_) => String::from_str("Missing client ID"),
            TokenError::Token(e) => e.to_text(),
        }
    }
}

/// How an access token is to be obtained.
#[derive(Debug, Clone, Copy, PartialEq, Eq, Structural)]
pub enum Grant {
    /// Trade the refresh token of the configuration file for a new token.
    Refresh,
    /// Send the user through the authorization page.
    Authorize,
}

/// What to ask the token endpoint with.
#[derive(Debug, Clone, PartialEq, Eq)]
pub struct TokenRequest {
    pub client_id: String,
    pub client_secret: String,
    pub grant: Grant,
}

/// A `TokenRequest` as a mathematical value.
pub struct TokenRequestView {
    pub client_id: Seq<char>,
    pub client_secret: Seq<char>,
    pub grant: Grant,
}

impl View for TokenRequest {
    type V = TokenRequestView;

    open spec fn view(&self) -> TokenRequestView {
        TokenRequestView {
            client_id: self.client_id@,
            client_secret: self.client_secret@,
            grant: self.grant,
        }
    }
}

/// The grant to use: a refresh where a configuration file exists, since it
/// holds a refresh token, and a new authorization where none does.
pub open spec fn grant_for(config_exists: bool) -> Grant {
    if config_exists {
        Grant::Refresh
    } else {
        Grant::Authorize
    }
}

/// Decides how to obtain an access token from what the environment holds
/// under `CLIENT_SECRET_ENV` and `CLIENT_ID_ENV` and from whether the
/// configuration file exists. The secret is looked at first.
pub fn get_access_token(
    client_secret: Option<String>,
    client_id: Option<String>,
    config_exists: bool,
) -> (request: Result<TokenRequest, TokenError>)
    ensures
        match (client_secret, client_id) {
            (None, _) => request matches Err(e) && e@ == TokenErrorView::ClientSecret(
                missing_variable(CLIENT_SECRET_ENV@),
            ),
            (Some(_), None) => request matches Err(e) && e@ == TokenErrorView::ClientId(
                missing_variable(CLIENT_ID_ENV@),
            ),
            (Some(secret), Some(id)) => request matches Ok(r) && r@ == (TokenRequestView {
                client_id: id@,
                client_secret: secret@,
                grant: grant_for(config_exists),
            }),
        },
{
    let client_secret = match get_env_var(CLIENT_SECRET_ENV, client_secret) {
        Ok(secret) => secret,
        Err(e) => {
            return Err(TokenError::ClientSecret(e));
        },
    };
    let client_id = match get_env_var(CLIENT_ID_ENV, client_id) {
        Ok(id) => id,
        Err(e) => {
            return Err(TokenError::ClientId(e));
        },
    };
    let grant = if config_exists {
        Grant::Refresh
    } else {
        Grant::Authorize
    };
    Ok(TokenRequest { client_id, client_secret, grant })
}

/// The error that reports a failed token request, `cause` being what the
/// token endpoint or the authorization said.
pub open spec fn token_failure(cause: Seq<char>) -> WithingsErrorView {
    WithingsErrorView::Config {
        message: "Failed to obtain access token"@,
        help: "Error: "@ + cause,
    }
}

/// Decides what the answer to a token request amounts to: the token, or the
/// error that reports why there is none.
pub fn access_token_result(outcome: Result<String, String>) -> (token: Result<String, TokenError>)
    ensures
        match outcome {
            Ok(t) => token == Ok::<String, TokenError>(t),
            Err(cause) => token matches Err(e) && e@ == TokenErrorView::Token(
                token_failure(cause@),
            ),
        },
{
    match outcome {
        Ok(t) => Ok(t),
        Err(cause) => {
            let mut help = String::from_str("Error: ");
            help.append(cause.as_str());
            Err(
                TokenError::Token(
                    WithingsError::Config {
                        message: String::from_str("Failed to obtain access token"),
                        help,
                    },
                ),
            )
        },
    }
}

/// Errors of a weight lookup.
#[derive(Debug, Clone, PartialEq, Eq)]
pub enum WeightError {
    /// No access token or no client id: the text says which and why.
    Auth(String),
    /// The measurements could not be fetched.
    Measurement(String),
    /// The answer holds no measurement.
    NoMeasurements,
}

/// A `WeightError` as a mathematical value.
pub enum WeightErrorView {
    Auth(Seq<char>),
    Measurement(Seq<char>),
    NoMeasurements,
}

impl View for WeightError {
    type V = WeightErrorView;

    open spec fn view(&self) -> WeightErrorView {
        match self {
            WeightError::Auth(text) => WeightErrorView::Auth(text@),
            WeightError::Measurement(text) => WeightErrorView::Measurement(text@),
            WeightError::NoMeasurements => WeightErrorView::NoMeasurements,
        }
    }
}

impl WeightErrorView {
    /// The line that describes the error.
    pub open spec fn text(self) -> Seq<char> {
        match self {
            WeightErrorView::Auth(text) => "Authentication error: "@ + text,
            WeightErrorView::Measurement(text) => "Measurement error: "@ + text,
            WeightErrorView::NoMeasurements => "No measurements available"@,
        }
    }
}

impl WeightError {
    /// The line that describes the error.
    pub fn to_text(&self) -> (text: String)
        ensures
            text@ == self@.text(),
    {
        match self {
            WeightError::Auth(detail) => {
                let mut text = String::from_str("Authentication error: ");
                text.append(detail.as_str());
                text
            },
            WeightError::Measurement(detail) => {
                let mut text = String::from_str("Measurement error: ");
                text.append(detail.as_str());
                text
            },
            WeightError::NoMeasurements => String::from_str("No measurements available"),
        }
    }
}

/// The parameters of a request for measurements.
#[derive(Debug, Clone, PartialEq, Eq)]
pub struct MeasurementParams {
    pub access_token: String,
    pub client_id: String,
    pub meastype: String,
    pub category: String,
    pub start: Option<String>,
    pub end: Option<String>,
    pub offset: Option<String>,
    pub lastupdate: Option<String>,
}

/// `MeasurementParams` as a mathematical value.
pub struct MeasurementParamsView {
    pub access_token: Seq<char>,
    pub client_id: Seq<char>,
    pub meastype: Seq<char>,
    pub category: Seq<char>,
    pub start: Option<Seq<char>>,
    pub end: Option<Seq<char>>,
    pub offset: Option<Seq<char>>,
    pub lastupdate: Option<Seq<char>>,
}

impl View for MeasurementParams {
    type V = MeasurementParamsView;

    open spec fn view(&self) -> MeasurementParamsView {
        MeasurementParamsView {
            access_token: self.access_token@,
            client_id: self.client_id@,
            meastype: self.meastype@,
            category: self.category@,
            start: text_of(self.start),
            end: text_of(self.end),
            offset: text_of(self.offset),
            lastupdate: text_of(self.lastupdate),
        }
    }
}

/// The request for every weight that was measured or changed after
/// `lastupdate`: real measurements (category `1`) of the weight (type `1`),
/// with no other limit.
pub open spec fn weight_request(
    access_token: Seq<char>,
    client_id: Seq<char>,
    lastupdate: Seq<char>,
) -> MeasurementParamsView {
    MeasurementParamsView {
        access_token,
        client_id,
        meastype: "1"@,
        category: "1"@,
        start: None,
        end: None,
        offset: None,
        lastupdate: Some(lastupdate),
    }
}

/// `CategoryType::Measures` of `withings_rs`, rendered by the `Display` impl
/// that the crate gives it: the text `1`, by which the Withings API names
/// real measurements.
#[verifier::external_body]
fn measures_category() -> (category: String)
    ensures
        category@ == "1"@,
{
    withings_rs::models::meas::CategoryType::Measures.to_string()
}

/// `MeasureType::Weight` of `withings_rs`, rendered by the `Display` impl
/// that the crate gives it: the text `1`, by which the Withings API names the
/// weight among the kinds of measure.
#[verifier::external_body]
fn weight_measure_type() -> (meastype: String)
    ensures
        meastype@ == "1"@,
{
    withings_rs::models::MeasureType::Weight.to_string()
}

/// Decides what to ask the measurement endpoint: `access_token` is how the
/// token request ended, `client_id` what the environment holds under
/// `CLIENT_ID_ENV`. A missing token is reported before a missing client id.
pub fn measurement_params(
    access_token: Result<String, TokenError>,
    client_id: Option<String>,
    lastupdate: String,
) -> (request: Result<MeasurementParams, WeightError>)
    ensures
        match (access_token, client_id) {
            (Err(e), _) => request matches Err(w) && w@ == WeightErrorView::Auth(e@.text()),
            (Ok(_), None) => request matches Err(w) && w@ == WeightErrorView::Auth(
                missing_variable(CLIENT_ID_ENV@).text(),
            ),
            (Ok(token), Some(id)) => request matches Ok(p) && p@ == weight_request(
                token@,
                id@,
                lastupdate@,
            ),
        },
{
    let access_token = match access_token {
        Ok(token) => token,
        Err(e) => {
            return Err(WeightError::Auth(e.to_text()));
        },
    };
    let client_id = match get_env_var(CLIENT_ID_ENV, client_id) {
        Ok(id) => id,
        Err(e) => {
            return Err(WeightError::Auth(e.to_text()));
        },
    };
    Ok(
        MeasurementParams {
            access_token,
            client_id,
            category: measures_category(),
            meastype: weight_measure_type(),
            start: None,
            end: None,
            offset: None,
            lastupdate: Some(lastupdate),
        },
    )
}

/// One measure of a measurement group: `value` times ten to the power of
/// `unit` is the quantity, in the unit of its `measure_type`.
#[derive(Debug, Clone, Copy, PartialEq, Eq)]
pub struct Measure {
    pub value: i64,
    pub measure_type: i64,
    pub unit: i64,
}

/// What was measured at one moment.
#[derive(Debug, Clone, PartialEq, Eq)]
pub struct MeasureGroup {
    pub measures: Vec<Measure>,
}

/// The value of the first measure of the first group, where the first group
/// exists and holds a measure. Later groups are not looked at.
pub open spec fn first_value(groups: Seq<MeasureGroup>) -> Option<i64> {
    if groups.len() > 0 && groups[0].measures@.len() > 0 {
        Some(groups[0].measures@[0].value)
    } else {
        None
    }
}

/// Decides what the answer of the measurement endpoint amounts to.
/// `response` holds the measurement groups in the order of the answer, or
/// what went wrong on the way; the weight is the value of the first measure
/// of the first group, as it stands.
pub fn get_weight_by_date(response: Result<Vec<MeasureGroup>, String>) -> (weight: Result<
    i64,
    WeightError,
>)
    ensures
        match response {
            Err(cause) => weight matches Err(w) && w@ == WeightErrorView::Measurement(cause@),
            Ok(groups) => match first_value(groups@) {
                Some(value) => weight == Ok::<i64, WeightError>(value),
                None => weight matches Err(w) && w@ == WeightErrorView::NoMeasurements,
            },
        },
{
    match response {
        Err(cause) => Err(WeightError::Measurement(cause)),
        Ok(groups) => {
            if groups.len() == 0 {
                return Err(WeightError::NoMeasurements);
            }
            let first = &groups[0];
            if first.measures.len() == 0 {
                return Err(WeightError::NoMeasurements);
            }
            Ok(first.measures[0].value)
        },
    }
}

/// Seconds in a day.
pub const SECONDS_PER_DAY: i64 = 86_400;

/// The Unix timestamp of the moment `day` days before the moment `now`, as
/// decimal text. A negative `day` leads into the future.
pub open spec fn timestamp_text(now: int, day: int) -> Seq<char> {
    integer_text(now - SECONDS_PER_DAY * day)
}

/// The Unix timestamp, as decimal text, of the moment `day` days before the
/// moment whose Unix timestamp is `now`.
pub fn timestamp_days_before(now: i64, day: i64) -> (timestamp: String)
    ensures
        timestamp@ == timestamp_text(now as int, day as int),
{
    let seconds: i128 = now as i128 - SECONDS_PER_DAY as i128 * day as i128;
    integer_to_string(seconds)
}

/// The clock: `chrono::Local::now()`, of which `timestamp()` gives the whole
/// seconds since the Unix epoch. Nothing is claimed of the value, which
/// differs from call to call.
#[verifier::external_body]
fn unix_time_now() -> (seconds: i64) {
    chrono::Local::now().timestamp()
}

/// The Unix timestamp, as decimal text, of the moment `day` days before now.
pub fn get_day_before_timestamp(day: i64) -> (timestamp: String)
    ensures
        exists|now: i64| timestamp@ == #[trigger] timestamp_text(now as int, day as int),
{
    let now: i64 = unix_time_now();
    timestamp_days_before(now, day)
}

} // verus!
