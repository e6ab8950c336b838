//! The Strava side: credentials, the choice between refreshing a token and
//! asking for a new authorization, and what the answers of the API amount to.

use crate::text::text_of;
use vstd::prelude::*;
use vstd::string::StringExecFns;

verus! {

/// Address of the page on which the user authorizes the tool.
pub const AUTH_URL: &'static str = "http://www.strava.com/oauth/authorize";

/// Address of the token endpoint.
pub const TOKEN_URL: &'static str = "https://www.strava.com/oauth/token";

/// Name of the environment variable that holds the path of the configuration file.
pub const CONFIG_FILE_ENV: &'static str = "STRAVA_CONFIG_FILE";

/// Path of the configuration file where the environment names none.
pub const DEFAULT_CONFIG_FILE: &'static str = "config.json";

/// Name of the environment variable that holds the client id.
pub const CLIENT_ID_ENV: &'static str = "STRAVA_CLIENT_ID";

/// Name of the environment variable that holds the client secret.
pub const CLIENT_SECRET_ENV: &'static str = "STRAVA_CLIENT_SECRET";

/// Errors of the Strava side.
#[allow(inconsistent_fields)]
#[derive(Debug, Clone, PartialEq, Eq)]
pub enum StravaError {
    /// No access token could be had.
    Authentication {
        /// What the authorization or the token endpoint said.
        source: String,
        /// How to put it right.
        help: Option<String>,
    },
    /// Something that the tool needs is not configured.
    Config {
        /// What is wrong.
        message: String,
        /// How to put it right.
        help: String,
    },
    /// A call of the API failed, or could not be made.
    Api {
        /// What was attempted.
        message: String,
        /// What the API said, where it was asked.
        src: Option<String>,
    },
}

/// A `StravaError` as a mathematical value.
#[allow(inconsistent_fields)]
pub enum StravaErrorView {
    Authentication { source: Seq<char>, help: Option<Seq<char>> },
    Config { message: Seq<char>, help: Seq<char> },
    Api { message: Seq<char>, src: Option<Seq<char>> },
}

impl View for StravaError {
    type V = StravaErrorView;

    open spec fn view(&self) -> StravaErrorView {
        match self {
            StravaError::Authentication { source, help } => StravaErrorView::Authentication {
                source: source@,
                help: text_of(*help),
            },
            StravaError::Config { message, help } => StravaErrorView::Config {
                message: message@,
                help: help@,
            },
            StravaError::Api { message, src } => StravaErrorView::Api {
                message: message@,
                src: text_of(*src),
            },
        }
    }
}

impl StravaErrorView {
    /// The line that describes the error.
    pub open spec fn text(self) -> Seq<char> {
        match self {
            StravaErrorView::Authentication { source, help } => "Authentication failed"@,
            StravaErrorView::Config { message, help } => "Configuration error: "@ + message,
            StravaErrorView::Api { message, src } => "API error: "@ + message,
        }
    }
}

impl StravaError {
    /// The line that describes the error.
    pub fn to_text(&self) -> (text: String)
        ensures
            text@ == self@.text(),
    {
        match self {
            StravaError::Authentication { source, help } => String::from_str(
                "Authentication failed",
            ),
            StravaError::Config { message, help } => {
                let mut text = String::from_str("Configuration error: ");
                text.append(message.as_str());
                text
            },
            StravaError::Api { message, src } => {
                let mut text = String::from_str("API error: ");
                text.append(message.as_str());
                text
            },
        }
    }
}

/// What the authorization and the token endpoint are addressed with.
#[derive(Debug, Clone, PartialEq, Eq)]
pub struct AuthConfig {
    pub client_id: String,
    pub client_secret: String,
    pub refresh_token: Option<String>,
    pub auth_url: String,
    pub token_url: String,
}

/// An `AuthConfig` as a mathematical value.
pub struct AuthConfigView {
    pub client_id: Seq<char>,
    pub client_secret: Seq<char>,
    pub refresh_token: Option<Seq<char>>,
    pub auth_url: Seq<char>,
    pub token_url: Seq<char>,
}

impl View for AuthConfig {
    type V = AuthConfigView;

    open spec fn view(&self) -> AuthConfigView {
        AuthConfigView {
            client_id: self.client_id@,
            client_secret: self.client_secret@,
            refresh_token: text_of(self.refresh_token),
            auth_url: self.auth_url@,
            token_url: self.token_url@,
        }
    }
}

/// `strava_client_rs::api::auth::Config::new`: the configuration that holds
/// the five arguments, each in the field of its name, the refresh token as
/// `Some`.
#[verifier::external_body]
fn new_auth_config(
    client_id: String,
    client_secret: String,
    refresh_token: String,
    auth_url: String,
    token_url: String,
) -> (config: AuthConfig)
    ensures
        config@ == (AuthConfigView {
            client_id: client_id@,
            client_secret: client_secret@,
            refresh_token: Some(refresh_token@),
            auth_url: auth_url@,
            token_url: token_url@,
        }),
{
    let config = strava_client_rs::api::auth::Config::new(
        client_id,
        client_secret,
        refresh_token,
        auth_url,
        token_url,
    );
    AuthConfig {
        client_id: config.client_id,
        client_secret: config.client_secret,
        refresh_token: config.refresh_token,
        auth_url: config.auth_url,
        token_url: config.token_url,
    }
}

/// The configuration of a client that holds no refresh token yet: the two
/// credentials, an empty refresh token, and the two addresses of Strava.
pub open spec fn fresh_config(client_id: Seq<char>, client_secret: Seq<char>) -> AuthConfigView {
    AuthConfigView {
        client_id,
        client_secret,
        refresh_token: Some(Seq::<char>::empty()),
        auth_url: AUTH_URL@,
        token_url: TOKEN_URL@,
    }
}

/// The error that reports the client id as not configured.
pub open spec fn missing_client_id() -> StravaErrorView {
    StravaErrorView::Config {
        message: "Missing client ID"@,
        help: "Set the "@ + CLIENT_ID_ENV@ + " environment variable"@,
    }
}

/// The error that reports the client secret as not configured.
pub open spec fn missing_client_secret() -> StravaErrorView {
    StravaErrorView::Config {
        message: "Missing client secret"@,
        help: "Set the "@ + CLIENT_SECRET_ENV@ + " environment variable"@,
    }
}

/// What the two credentials amount to: the configuration of a client without
/// a refresh token, or the error that names the first of them that is not
/// set, the id before the secret.
pub open spec fn credentials(
    client_id: Option<Seq<char>>,
    client_secret: Option<Seq<char>>,
) -> Result<AuthConfigView, StravaErrorView> {
    match (client_id, client_secret) {
        (None, _) => Err(missing_client_id()),
        (Some(_), None) => Err(missing_client_secret()),
        (Some(id), Some(secret)) => Ok(fresh_config(id, secret)),
    }
}

fn help_to_set(variable: &str) -> (help: String)
    ensures
        help@ == "Set the "@ + variable@ + " environment variable"@,
{
    let mut help = String::from_str("Set the ");
    help.append(variable);
    help.append(" environment variable");
    help
}

/// Decides with what to register the tool with Strava: `client_id` and
/// `client_secret` are what the environment holds under `CLIENT_ID_ENV` and
/// `CLIENT_SECRET_ENV`. The configuration that comes back is the one to open
/// the authorization with.
pub fn auth_strava(client_id: Option<String>, client_secret: Option<String>) -> (config: Result<
    AuthConfig,
    StravaError,
>)
    ensures
        match credentials(text_of(client_id), text_of(client_secret)) {
            Ok(c) => config matches Ok(found) && found@ == c,
            Err(e) => config matches Err(found) && found@ == e,
        },
{
    let client_id = match client_id {
        Some(id) => id,
        None => {
            return Err(
                StravaError::Config {
                    message: String::from_str("Missing client ID"),
                    help: help_to_set(CLIENT_ID_ENV),
                },
            );
        },
    };
    let client_secret = match client_secret {
        Some(secret) => secret,
        None => {
            return Err(
                StravaError::Config {
                    message: String::from_str("Missing client secret"),
                    help: help_to_set(CLIENT_SECRET_ENV),
                },
            );
        },
    };
    Ok(
        new_auth_config(
            client_id,
            client_secret,
            String::new(),
            String::from_str(AUTH_URL),
            String::from_str(TOKEN_URL),
        ),
    )
}

/// The error that reports a failed authorization or token request, `cause`
/// being what came back and `help` the advice to give.
pub open spec fn authentication_failure(cause: Seq<char>, help: Seq<char>) -> StravaErrorView {
    StravaErrorView::Authentication { source: cause, help: Some(help) }
}

fn token_or_failure(outcome: Result<String, String>, help: &str) -> (token: Result<
    String,
    StravaError,
>)
    ensures
        match outcome {
            Ok(t) => token == Ok::<String, StravaError>(t),
            Err(cause) => token matches Err(e) && e@ == authentication_failure(cause@, help@),
        },
{
    match outcome {
        Ok(t) => Ok(t),
        Err(cause) => Err(
            StravaError::Authentication { source: cause, help: Some(String::from_str(help)) },
        ),
    }
}

/// Decides what the end of the authorization that `auth_strava` prepared
/// amounts to: the access token, or the error that reports why there is none.
pub fn authorization_result(outcome: Result<String, String>) -> (token: Result<String, StravaError>)
    ensures
        match outcome {
            Ok(t) => token == Ok::<String, StravaError>(t),
            Err(cause) => token matches Err(e) && e@ == authentication_failure(
                cause@,
                "Check your Strava credentials and try again"@,
            ),
        },
{
    token_or_failure(outcome, "Check your Strava credentials and try again")
}

/// Decides which file holds the configuration: the one that the environment
/// names under `CONFIG_FILE_ENV`, or `DEFAULT_CONFIG_FILE` where it names none.
pub fn config_file(named: Option<String>) -> (path: String)
    ensures
        path@ == match named {
            Some(p) => p@,
            None => DEFAULT_CONFIG_FILE@,
        },
{
    match named {
        Some(p) => p,
        None => String::from_str(DEFAULT_CONFIG_FILE),
    }
}

/// How an access token is to be obtained.
#[derive(Debug, Clone, PartialEq, Eq)]
pub enum TokenPlan {
    /// Read the refresh token that the configuration file holds, put it into
    /// the configuration with `with_refresh_token`, and trade it for a token.
    Refresh(AuthConfig),
    /// Send the user through the authorization page.
    Authorize(AuthConfig),
}

/// A `TokenPlan` as a mathematical value.
pub enum TokenPlanView {
    Refresh(AuthConfigView),
    Authorize(AuthConfigView),
}

impl View for TokenPlan {
    type V = TokenPlanView;

    open spec fn view(&self) -> TokenPlanView {
        match self {
            TokenPlan::Refresh(config) => TokenPlanView::Refresh(config@),
            TokenPlan::Authorize(config) => TokenPlanView::Authorize(config@),
        }
    }
}

/// The plan for a client with the configuration `config`: a refresh where a
/// configuration file exists, a new authorization where none does.
pub open spec fn token_plan(config: AuthConfigView, config_exists: bool) -> TokenPlanView {
    if config_exists {
        TokenPlanView::Refresh(config)
    } else {
        TokenPlanView::Authorize(config)
    }
}

/// Decides how to obtain an access token: `client_id` and `client_secret` are
/// what the environment holds under `CLIENT_ID_ENV` and `CLIENT_SECRET_ENV`,
/// `config_exists` says whether the configuration file exists. The
/// credentials are looked at before the file.
pub fn get_access_token(
    client_id: Option<String>,
    client_secret: Option<String>,
    config_exists: bool,
) -> (plan: Result<TokenPlan, StravaError>)
    ensures
        match credentials(text_of(client_id), text_of(client_secret)) {
            Ok(c) => plan matches Ok(p) && p@ == token_plan(c, config_exists),
            Err(e) => plan matches Err(found) && found@ == e,
        },
{
    match auth_strava(client_id, client_secret) {
        Ok(config) => {
            if config_exists {
                Ok(TokenPlan::Refresh(config))
            } else {
                Ok(TokenPlan::Authorize(config))
            }
        },
        Err(e) => Err(e),
    }
}

/// Puts the refresh token that the configuration file holds into `config`.
pub fn with_refresh_token(config: AuthConfig, refresh_token: String) -> (ready: AuthConfig)
    ensures
        ready@ == (AuthConfigView { refresh_token: Some(refresh_token@), ..config@ }),
{
    let mut ready = config;
    ready.refresh_token = Some(refresh_token);
    ready
}

/// Decides what the end of the refresh or authorization that
/// `get_access_token` planned amounts to: the access token, or the error that
/// reports why there is none.
pub fn access_token_result(outcome: Result<String, String>) -> (token: Result<String, StravaError>)
    ensures
        match outcome {
            Ok(t) => token == Ok::<String, StravaError>(t),
            Err(cause) => token matches Err(e) && e@ == authentication_failure(
                cause@,
                "Check your credentials and network connection"@,
            ),
        },
{
    token_or_failure(outcome, "Check your credentials and network connection")
}

/// The error that reports a failed call of the API: `message` says what was
/// attempted, `cause` what the API said.
pub open spec fn api_failure(message: Seq<char>, cause: Seq<char>) -> StravaErrorView {
    StravaErrorView::Api { message, src: Some(cause) }
}

fn answer_or_failure<T>(response: Result<T, String>, message: &str) -> (answer: Result<
    T,
    StravaError,
>)
    ensures
        match response {
            Ok(a) => answer == Ok::<T, StravaError>(a),
            Err(cause) => answer matches Err(e) && e@ == api_failure(message@, cause@),
        },
{
    match response {
        Ok(a) => Ok(a),
        Err(cause) => Err(StravaError::Api { message: String::from_str(message), src: Some(cause) }),
    }
}

/// Decides what the answer to the request for the athlete of the access token
/// amounts to: the athlete as it came, or the error that reports the failure.
pub fn get_authenticated_athlete<T>(response: Result<T, String>) -> (athlete: Result<
    T,
    StravaError,
>)
    ensures
        match response {
            Ok(a) => athlete == Ok::<T, StravaError>(a),
            Err(cause) => athlete matches Err(e) && e@ == api_failure(
                "Failed to get athlete information"@,
                cause@,
            ),
        },
{
    answer_or_failure(response, "Failed to get athlete information")
}

/// Decides what the answer to the request for the statistics of the athlete
/// amounts to: the statistics as they came, or the error that reports the
/// failure.
pub fn get_athlete_stats<T>(response: Result<T, String>) -> (stats: Result<T, StravaError>)
    ensures
        match response {
            Ok(s) => stats == Ok::<T, StravaError>(s),
            Err(cause) => stats matches Err(e) && e@ == api_failure(
                "Failed to get athlete stats"@,
                cause@,
            ),
        },
{
    answer_or_failure(response, "Failed to get athlete stats")
}

/// Decides what the answer to an update of the weight amounts to: the status
/// line of the answer as it came, or the error that reports the failure.
pub fn update_athlete_weight(response: Result<String, String>) -> (status: Result<
    String,
    StravaError,
>)
    ensures
        match response {
            Ok(s) => status == Ok::<String, StravaError>(s),
            Err(cause) => status matches Err(e) && e@ == api_failure(
                "Failed to update athlete weight"@,
                cause@,
            ),
        },
{
    answer_or_failure(response, "Failed to update athlete weight")
}

/// A weight to send to Strava, with the line to print before it is sent and
/// the line to print once Strava has taken it.
#[derive(Debug, Clone, PartialEq, Eq)]
pub struct WeightSync {
    /// The weight in kilograms, as decimal text.
    pub weight: String,
    pub announcement: String,
    pub confirmation: String,
}

/// A `WeightSync` as a mathematical value.
pub struct WeightSyncView {
    pub weight: Seq<char>,
    pub announcement: Seq<char>,
    pub confirmation: Seq<char>,
}

impl View for WeightSync {
    type V = WeightSyncView;

    open spec fn view(&self) -> WeightSyncView {
        WeightSyncView {
            weight: self.weight@,
            announcement: self.announcement@,
            confirmation: self.confirmation@,
        }
    }
}

/// The error that reports that there is no weight to send.
pub open spec fn weight_required() -> StravaErrorView {
    StravaErrorView::Api { message: "Weight value is required"@, src: None }
}

/// The sync of `weight`, announced and confirmed by one line each.
pub open spec fn weight_sync(weight: Seq<char>) -> WeightSyncView {
    WeightSyncView {
        weight,
        announcement: "Syncing to Strava..."@,
        confirmation: "Weight updated in Strava to "@ + weight + " kg"@,
    }
}

/// Decides what to send to Strava: the weight where there is one, the error
/// that asks for it where there is none.
pub fn sync_weight_to_strava(weight_in_kgs: Option<String>) -> (sync: Result<
    WeightSync,
    StravaError,
>)
    ensures
        match weight_in_kgs {
            Some(w) => sync matches Ok(s) && s@ == weight_sync(w@),
            None => sync matches Err(e) && e@ == weight_required(),
        },
{
    match weight_in_kgs {
        Some(weight) => {
            let mut confirmation = String::from_str("Weight updated in Strava to ");
            confirmation.append(weight.as_str());
            confirmation.append(" kg");
            Ok(
                WeightSync {
                    weight,
                    announcement: String::from_str("Syncing to Strava..."),
                    confirmation,
                },
            )
        },
        None => Err(
            StravaError::Api { message: String::from_str("Weight value is required"), src: None },
        ),
    }
}

/// The sync of `weight`, announced and confirmed by one line each, with an
/// empty line after each of the two.
pub open spec fn spaced_weight_sync(weight: Seq<char>) -> WeightSyncView {
    WeightSyncView {
        weight,
        announcement: "Syncing to Strava...\n"@,
        confirmation: "Weight updated in Strava to "@ + weight + " kg\n"@,
    }
}

/// The sync of a weight that is known to be there, in the spaced form.
pub fn sync_strava(weight_in_kgs: Option<String>) -> (sync: WeightSync)
    requires
        weight_in_kgs is Some,
    ensures
        sync@ == spaced_weight_sync(weight_in_kgs->0@),
{
    let weight = weight_in_kgs.unwrap();
    let mut confirmation = String::from_str("Weight updated in Strava to ");
    confirmation.append(weight.as_str());
    confirmation.append(" kg\n");
    WeightSync { weight, announcement: String::from_str("Syncing to Strava...\n"), confirmation }
}

} // verus!
