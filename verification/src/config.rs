//! The settings that the service starts with, and the checks that stop it
//! from starting with bad ones. Reading the environment is left to the
//! caller: every function here takes what was read.

use vstd::prelude::*;
use vstd::utf8::encode_utf8;
use crate::text::{contains, decimal_u64, occurs_in, parse_u64, same_text};

verus! {

/// The fewest bytes a signing secret may have. A service cannot be made with
/// a shorter one.
pub const MIN_SECRET_BYTES: usize = 32;

/// The fewest bytes a signing secret may have in production.
pub const MIN_PRODUCTION_SECRET_BYTES: usize = 64;

/// The settings the service reads.
#[derive(Clone, Copy, Debug, PartialEq, Eq, Structural)]
pub enum Setting {
    DatabaseUrl,
    ServerUrl,
    JwtSecret,
    JwtExpirationHours,
    RustLog,
    Environment,
}

impl Setting {
    /// The name of the environment variable that holds the setting.
    pub open spec fn name(self) -> Seq<char> {
        match self {
            Setting::DatabaseUrl => "DATABASE_URL"@,
            Setting::ServerUrl => "SERVER_URL"@,
            Setting::JwtSecret => "JWT_SECRET"@,
            Setting::JwtExpirationHours => "JWT_EXPIRATION_HOURS"@,
            Setting::RustLog => "RUST_LOG"@,
            Setting::Environment => "ENVIRONMENT"@,
        }
    }

    /// The name of the environment variable that holds the setting.
    pub fn variable(self) -> (name: &'static str)
        ensures
            name@ == self.name(),
    {
        match self {
            Setting::DatabaseUrl => "DATABASE_URL",
            Setting::ServerUrl => "SERVER_URL",
            Setting::JwtSecret => "JWT_SECRET",
            Setting::JwtExpirationHours => "JWT_EXPIRATION_HOURS",
            Setting::RustLog => "RUST_LOG",
            Setting::Environment => "ENVIRONMENT",
        }
    }
}

/// Why the service may not start.
#[derive(Clone, Copy, Debug, PartialEq, Eq, Structural)]
pub enum ConfigError {
    /// A setting is not set.
    Missing { setting: Setting },
    /// The signing secret is shorter than 32 bytes.
    SecretTooShort,
    /// The token lifetime is not a number of hours.
    InvalidExpirationHours,
    /// The environment is none of the three known ones.
    UnknownEnvironment,
    /// The signing secret is too weak for production.
    InsecureProductionSecret,
    /// The database password is too weak for production.
    WeakDatabasePassword,
}

impl ConfigError {
    /// The sentence that startup stops with.
    pub open spec fn message(self) -> Seq<char> {
        match self {
            ConfigError::Missing { setting } => setting.name()
                + " environment variable is required but not set"@,
            ConfigError::SecretTooShort => "JWT_SECRET must be at least 32 characters long for security"@,
            ConfigError::InvalidExpirationHours => "JWT_EXPIRATION_HOURS must be a valid number"@,
            ConfigError::UnknownEnvironment => "ENVIRONMENT must be one of: development, staging, production"@,
            ConfigError::InsecureProductionSecret => "Production JWT_SECRET appears to be insecure. Use a long, random string (64+ chars)"@,
            ConfigError::WeakDatabasePassword => "Production database appears to use a weak password"@,
        }
    }

    /// The sentence that startup stops with.
    pub fn describe(self) -> (text: String)
        ensures
            text@ == self.message(),
    {
        match self {
            ConfigError::Missing { setting } => {
                let mut text = setting.variable().to_owned();
                text.append(" environment variable is required but not set");
                text
            },
            ConfigError::SecretTooShort => "JWT_SECRET must be at least 32 characters long for security".to_owned(),
            ConfigError::InvalidExpirationHours => "JWT_EXPIRATION_HOURS must be a valid number".to_owned(),
            ConfigError::UnknownEnvironment => "ENVIRONMENT must be one of: development, staging, production".to_owned(),
            ConfigError::InsecureProductionSecret => "Production JWT_SECRET appears to be insecure. Use a long, random string (64+ chars)".to_owned(),
            ConfigError::WeakDatabasePassword => "Production database appears to use a weak password".to_owned(),
        }
    }
}

/// The settings as read, each absent where its variable is not set.
#[derive(Clone, Debug, PartialEq, Eq)]
pub struct RawSettings {
    pub database_url: Option<String>,
    pub server_url: Option<String>,
    pub jwt_secret: Option<String>,
    pub jwt_expiration_hours: Option<String>,
    pub rust_log: Option<String>,
    pub environment: Option<String>,
}

/// A `RawSettings` as contracts see it.
pub struct RawSettingsView {
    pub database_url: Option<Seq<char>>,
    pub server_url: Option<Seq<char>>,
    pub jwt_secret: Option<Seq<char>>,
    pub jwt_expiration_hours: Option<Seq<char>>,
    pub rust_log: Option<Seq<char>>,
    pub environment: Option<Seq<char>>,
}

/// An optional text, as contracts see it.
pub open spec fn view_text(value: Option<String>) -> Option<Seq<char>> {
    match value {
        Some(text) => Some(text@),
        None => None,
    }
}

impl View for RawSettings {
    type V = RawSettingsView;

    open spec fn view(&self) -> RawSettingsView {
        RawSettingsView {
            database_url: view_text(self.database_url),
            server_url: view_text(self.server_url),
            jwt_secret: view_text(self.jwt_secret),
            jwt_expiration_hours: view_text(self.jwt_expiration_hours),
            rust_log: view_text(self.rust_log),
            environment: view_text(self.environment),
        }
    }
}

/// The settings the service runs with.
#[derive(Clone, Debug, PartialEq, Eq)]
pub struct Settings {
    pub database_url: String,
    pub server_url: String,
    pub jwt_secret: String,
    pub jwt_expiration_hours: u64,
    pub rust_log: String,
    pub environment: String,
}

/// A `Settings` as contracts see it.
pub struct SettingsView {
    pub database_url: Seq<char>,
    pub server_url: Seq<char>,
    pub jwt_secret: Seq<char>,
    pub jwt_expiration_hours: u64,
    pub rust_log: Seq<char>,
    pub environment: Seq<char>,
}

impl View for Settings {
    type V = SettingsView;

    open spec fn view(&self) -> SettingsView {
        SettingsView {
            database_url: self.database_url@,
            server_url: self.server_url@,
            jwt_secret: self.jwt_secret@,
            jwt_expiration_hours: self.jwt_expiration_hours,
            rust_log: self.rust_log@,
            environment: self.environment@,
        }
    }
}

/// A setting that only has to be set.
pub open spec fn required(setting: Setting, value: Option<Seq<char>>) -> Result<Seq<char>, ConfigError> {
    match value {
        Some(text) => Ok(text),
        None => Err(ConfigError::Missing { setting }),
    }
}

/// Whether a secret is long enough to sign with: 32 bytes or more.
pub open spec fn strong_secret(secret: Seq<char>) -> bool {
    encode_utf8(secret).len() >= MIN_SECRET_BYTES
}

/// The signing secret: set, and long enough.
pub open spec fn checked_secret(value: Option<Seq<char>>) -> Result<Seq<char>, ConfigError> {
    match value {
        None => Err(ConfigError::Missing { setting: Setting::JwtSecret }),
        Some(secret) => if strong_secret(secret) {
            Ok(secret)
        } else {
            Err(ConfigError::SecretTooShort)
        },
    }
}

/// The token lifetime: set, and a decimal number of hours.
pub open spec fn checked_hours(value: Option<Seq<char>>) -> Result<u64, ConfigError> {
    match value {
        None => Err(ConfigError::Missing { setting: Setting::JwtExpirationHours }),
        Some(text) => match decimal_u64(text) {
            Some(hours) => Ok(hours),
            None => Err(ConfigError::InvalidExpirationHours),
        },
    }
}

/// Whether a text names one of the three environments.
pub open spec fn known_environment(name: Seq<char>) -> bool {
    name == "development"@ || name == "staging"@ || name == "production"@
}

/// The environment: set, and one of the three known ones.
pub open spec fn checked_environment(value: Option<Seq<char>>) -> Result<Seq<char>, ConfigError> {
    match value {
        None => Err(ConfigError::Missing { setting: Setting::Environment }),
        Some(name) => if known_environment(name) {
            Ok(name)
        } else {
            Err(ConfigError::UnknownEnvironment)
        },
    }
}

/// Whether a signing secret is too weak for production: it looks like a
/// development or test secret, or is shorter than 64 bytes.
pub open spec fn insecure_secret(secret: Seq<char>) -> bool {
    occurs_in(secret, "dev"@) || occurs_in(secret, "test"@) || encode_utf8(secret).len()
        < MIN_PRODUCTION_SECRET_BYTES
}

/// Whether a database address carries a password that is too weak for
/// production.
pub open spec fn weak_database_password(database_url: Seq<char>) -> bool {
    occurs_in(database_url, "passw0rd"@) || occurs_in(database_url, "password"@)
}

/// What production asks of the secret and the database address, the secret
/// first.
pub open spec fn production_check(jwt_secret: Seq<char>, database_url: Seq<char>) -> Result<(), ConfigError> {
    if insecure_secret(jwt_secret) {
        Err(ConfigError::InsecureProductionSecret)
    } else if weak_database_password(database_url) {
        Err(ConfigError::WeakDatabasePassword)
    } else {
        Ok(())
    }
}

/// What the settings as read amount to: the settings to run with, or the
/// first thing that is wrong with them. They are checked in a fixed order:
/// database address, server address, secret, token lifetime, log level,
/// environment, and then, in production only, the strength of the secret
/// and of the database password.
pub open spec fn validated(raw: RawSettingsView) -> Result<SettingsView, ConfigError> {
    match required(Setting::DatabaseUrl, raw.database_url) {
        Err(e) => Err(e),
        Ok(database_url) => match required(Setting::ServerUrl, raw.server_url) {
            Err(e) => Err(e),
            Ok(server_url) => match checked_secret(raw.jwt_secret) {
                Err(e) => Err(e),
                Ok(jwt_secret) => match checked_hours(raw.jwt_expiration_hours) {
                    Err(e) => Err(e),
                    Ok(jwt_expiration_hours) => match required(Setting::RustLog, raw.rust_log) {
                        Err(e) => Err(e),
                        Ok(rust_log) => match checked_environment(raw.environment) {
                            Err(e) => Err(e),
                            Ok(environment) => match (if environment == "production"@ {
                                production_check(jwt_secret, database_url)
                            } else {
                                Ok(())
                            }) {
                                Err(e) => Err(e),
                                Ok(_) => Ok(
                                    SettingsView {
                                        database_url,
                                        server_url,
                                        jwt_secret,
                                        jwt_expiration_hours,
                                        rust_log,
                                        environment,
                                    },
                                ),
                            },
                        },
                    },
                },
            },
        },
    }
}

/// A checked text, as contracts see it.
pub open spec fn view_checked(res: Result<String, ConfigError>) -> Result<Seq<char>, ConfigError> {
    match res {
        Ok(text) => Ok(text@),
        Err(e) => Err(e),
    }
}

fn require(setting: Setting, value: Option<String>) -> (res: Result<String, ConfigError>)
    ensures
        view_checked(res) == required(setting, view_text(value)),
{
    match value {
        Some(text) => Ok(text),
        None => Err(ConfigError::Missing { setting }),
    }
}

/// The database address, which has to be set.
pub fn get_database_url(value: Option<String>) -> (res: Result<String, ConfigError>)
    ensures
        view_checked(res) == required(Setting::DatabaseUrl, view_text(value)),
{
    require(Setting::DatabaseUrl, value)
}

/// The address the server binds to, which has to be set.
pub fn get_server_url(value: Option<String>) -> (res: Result<String, ConfigError>)
    ensures
        view_checked(res) == required(Setting::ServerUrl, view_text(value)),
{
    require(Setting::ServerUrl, value)
}

/// The signing secret, which has to be set and at least 32 bytes long.
pub fn get_jwt_secret(value: Option<String>) -> (res: Result<String, ConfigError>)
    ensures
        view_checked(res) == checked_secret(view_text(value)),
{
    match value {
        None => Err(ConfigError::Missing { setting: Setting::JwtSecret }),
        Some(secret) => {
            if secret.as_str().as_bytes().len() < MIN_SECRET_BYTES {
                Err(ConfigError::SecretTooShort)
            } else {
                Ok(secret)
            }
        },
    }
}

/// The token lifetime in hours, which has to be set to a decimal number.
pub fn get_jwt_expiration_hours(value: Option<String>) -> (res: Result<u64, ConfigError>)
    ensures
        res == checked_hours(view_text(value)),
{
    match value {
        None => Err(ConfigError::Missing { setting: Setting::JwtExpirationHours }),
        Some(text) => match parse_u64(text.as_str()) {
            Some(hours) => Ok(hours),
            None => Err(ConfigError::InvalidExpirationHours),
        },
    }
}

/// The log level, which has to be set.
pub fn get_rust_log(value: Option<String>) -> (res: Result<String, ConfigError>)
    ensures
        view_checked(res) == required(Setting::RustLog, view_text(value)),
{
    require(Setting::RustLog, value)
}

/// Decides whether a text names one of the three environments.
pub fn is_known_environment(name: &str) -> (known: bool)
    ensures
        known == known_environment(name@),
{
    same_text(name, "development") || same_text(name, "staging") || same_text(name, "production")
}

/// The environment, which has to be set to `development`, `staging` or
/// `production`.
pub fn get_environment(value: Option<String>) -> (res: Result<String, ConfigError>)
    ensures
        view_checked(res) == checked_environment(view_text(value)),
{
    match value {
        None => Err(ConfigError::Missing { setting: Setting::Environment }),
        Some(name) => {
            if is_known_environment(name.as_str()) {
                Ok(name)
            } else {
                Err(ConfigError::UnknownEnvironment)
            }
        },
    }
}

/// Checks what production asks on top: a secret that does not look like a
/// development or test secret and has at least 64 bytes, and a database
/// address without a weak password.
pub fn validate_production_config(jwt_secret: &str, database_url: &str) -> (res: Result<
    (),
    ConfigError,
>)
    ensures
        res == production_check(jwt_secret@, database_url@),
{
    if contains(jwt_secret, "dev") || contains(jwt_secret, "test") || jwt_secret.as_bytes().len()
        < MIN_PRODUCTION_SECRET_BYTES {
        Err(ConfigError::InsecureProductionSecret)
    } else if contains(database_url, "passw0rd") || contains(database_url, "password") {
        Err(ConfigError::WeakDatabasePassword)
    } else {
        Ok(())
    }
}

/// Checks all settings, in order, and hands out the settings to run with or
/// the first thing that is wrong.
pub fn validate_environment(raw: RawSettings) -> (res: Result<Settings, ConfigError>)
    ensures
        match res {
            Ok(settings) => validated(raw@) == Ok::<SettingsView, ConfigError>(settings@),
            Err(e) => validated(raw@) == Err::<SettingsView, ConfigError>(e),
        },
{
    let RawSettings {
        database_url,
        server_url,
        jwt_secret,
        jwt_expiration_hours,
        rust_log,
        environment,
    } = raw;
    let database_url = match get_database_url(database_url) {
        Ok(v) => v,
        Err(e) => {
            return Err(e);
        },
    };
    let server_url = match get_server_url(server_url) {
        Ok(v) => v,
        Err(e) => {
            return Err(e);
        },
    };
    let jwt_secret = match get_jwt_secret(jwt_secret) {
        Ok(v) => v,
        Err(e) => {
            return Err(e);
        },
    };
    let jwt_expiration_hours = match get_jwt_expiration_hours(jwt_expiration_hours) {
        Ok(v) => v,
        Err(e) => {
            return Err(e);
        },
    };
    let rust_log = match get_rust_log(rust_log) {
        Ok(v) => v,
        Err(e) => {
            return Err(e);
        },
    };
    let environment = match get_environment(environment) {
        Ok(v) => v,
        Err(e) => {
            return Err(e);
        },
    };
    if same_text(environment.as_str(), "production") {
        match validate_production_config(jwt_secret.as_str(), database_url.as_str()) {
            Ok(_) => {},
            Err(e) => {
                return Err(e);
            },
        }
    }
    Ok(Settings { database_url, server_url, jwt_secret, jwt_expiration_hours, rust_log, environment })
}

} // verus!
