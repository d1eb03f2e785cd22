//! The settings of the application, and what is derived from them.

use crate::domain::{email_syntax_is_valid, SubscriberEmail};
use crate::secret::SecretText;
use vstd::prelude::*;
use vstd::std_specs::convert::TryFromSpecImpl;

verus! {

/// All settings.
pub struct Settings {
    pub database: DatabaseSettings,
    pub application: ApplicationSettings,
    pub email_client: EmailClientSettings,
}

/// How the store is reached.
pub struct DatabaseSettings {
    pub username: String,
    pub password: SecretText,
    pub port: u16,
    pub host: String,
    pub database_name: String,
    /// Whether the connection has to be encrypted.
    pub require_ssl: bool,
}

/// How far a connection insists on encryption.
#[derive(Clone, Copy, Debug, PartialEq, Eq, Structural)]
pub enum SslMode {
    /// Only an encrypted connection will do.
    Require,
    /// An encrypted connection is tried first.
    Prefer,
}

/// What it takes to connect to the store. Without a database the connection
/// is made to the server alone.
pub struct ConnectOptions<'a> {
    pub host: &'a str,
    pub username: &'a str,
    pub password: &'a SecretText,
    pub port: u16,
    pub ssl_mode: SslMode,
    pub database: Option<&'a str>,
}

/// The mathematical value of `ConnectOptions`.
pub struct ConnectOptionsView {
    pub host: Seq<char>,
    pub username: Seq<char>,
    pub password: Seq<char>,
    pub port: u16,
    pub ssl_mode: SslMode,
    pub database: Option<Seq<char>>,
}

impl<'a> View for ConnectOptions<'a> {
    type V = ConnectOptionsView;

    open spec fn view(&self) -> ConnectOptionsView {
        ConnectOptionsView {
            host: self.host@,
            username: self.username@,
            password: self.password@,
            port: self.port,
            ssl_mode: self.ssl_mode,
            database: match self.database {
                Some(name) => Some(name@),
                None => None,
            },
        }
    }
}

impl DatabaseSettings {
    /// What `without_db` hands out.
    pub open spec fn server_options(&self) -> ConnectOptionsView {
        ConnectOptionsView {
            host: self.host@,
            username: self.username@,
            password: self.password@,
            port: self.port,
            ssl_mode: if self.require_ssl {
                SslMode::Require
            } else {
                SslMode::Prefer
            },
            database: None,
        }
    }

    /// What `with_db` hands out.
    pub open spec fn database_options(&self) -> ConnectOptionsView {
        ConnectOptionsView { database: Some(self.database_name@), ..self.server_options() }
    }

    /// The options for a connection to the database of these settings.
    pub fn with_db(&self) -> (options: ConnectOptions<'_>)
        ensures
            options@ == self.database_options(),
    {
        let options = self.without_db();
        ConnectOptions {
            host: options.host,
            username: options.username,
            password: options.password,
            port: options.port,
            ssl_mode: options.ssl_mode,
            database: Some(self.database_name.as_str()),
        }
    }

    /// The options for a connection to the server, with no database chosen.
    /// Encryption is required where the settings say so and preferred
    /// otherwise.
    pub fn without_db(&self) -> (options: ConnectOptions<'_>)
        ensures
            options@ == self.server_options(),
    {
        let ssl_mode = if self.require_ssl {
            SslMode::Require
        } else {
            SslMode::Prefer
        };
        ConnectOptions {
            host: self.host.as_str(),
            username: self.username.as_str(),
            password: &self.password,
            port: self.port,
            ssl_mode,
            database: None,
        }
    }
}

/// Where the application listens.
pub struct ApplicationSettings {
    pub port: u16,
    pub host: String,
}

/// How the dispatch service is reached.
pub struct EmailClientSettings {
    pub base_url: String,
    pub sender_email: String,
    pub authorization_token: SecretText,
}

impl EmailClientSettings {
    /// The address that emails are sent from, if the setting holds a valid
    /// one.
    pub fn sender(&self) -> (result: Result<SubscriberEmail, String>)
        ensures
            match result {
                Ok(email) => email@ == self.sender_email@ && email_syntax_is_valid(
                    self.sender_email@,
                ),
                Err(message) => !email_syntax_is_valid(self.sender_email@) && message@
                    == SubscriberEmail::rejection(self.sender_email@),
            },
    {
        SubscriberEmail::parse(self.sender_email.clone())
    }
}

/// Where the application runs.
#[derive(Clone, Copy, Debug, PartialEq, Eq, Structural)]
pub enum Environment {
    Local,
    Production,
}

/// The lower-case form of `text`, as `str::to_lowercase` makes it.
pub uninterp spec fn lowercased(text: Seq<char>) -> Seq<char>;

/// Calls `str::to_lowercase`. What it makes of a text depends on the text
/// alone.
#[verifier::external_body]
fn to_lowercase(text: &str) -> (lowered: String)
    ensures
        lowered@ == lowercased(text@),
{
    text.to_lowercase()
}

impl Environment {
    /// The name of the environment.
    pub open spec fn name(self) -> Seq<char> {
        match self {
            Environment::Local => "local"@,
            Environment::Production => "production"@,
        }
    }

    /// The environment of the given name.
    pub open spec fn named(name: Seq<char>) -> Option<Environment> {
        if name == "local"@ {
            Some(Environment::Local)
        } else if name == "production"@ {
            Some(Environment::Production)
        } else {
            None
        }
    }

    /// The message that rejects `value` as the name of an environment.
    pub open spec fn rejection(value: Seq<char>) -> Seq<char> {
        value + " is not a supported environment. Use either 'local' or 'production'."@
    }

    /// What `try_from` makes of `value`: the environment whose name is the
    /// lower-case form of `value`, or the message that rejects `value`.
    pub open spec fn parsed(value: Seq<char>) -> Result<Environment, Seq<char>> {
        match Self::named(lowercased(value)) {
            Some(environment) => Ok(environment),
            None => Err(Self::rejection(value)),
        }
    }

    /// The name of the environment.
    pub fn as_str(&self) -> (name: &'static str)
        ensures
            name@ == self.name(),
    {
        match self {
            Environment::Local => "local",
            Environment::Production => "production",
        }
    }

    /// The environment whose name is `name`, letter for letter.
    pub fn from_name(name: &str) -> (environment: Option<Environment>)
        ensures
            environment == Self::named(name@),
    {
        let name = name.to_owned();
        if name == "local".to_owned() {
            Some(Environment::Local)
        } else if name == "production".to_owned() {
            Some(Environment::Production)
        } else {
            None
        }
    }
}

/// The mathematical value of what `Environment::try_from` hands out.
pub open spec fn parsed_view(result: Result<Environment, String>) -> Result<
    Environment,
    Seq<char>,
> {
    match result {
        Ok(environment) => Ok(environment),
        Err(message) => Err(message@),
    }
}

impl TryFrom<String> for Environment {
    type Error = String;

    /// Reads the name of an environment, in whatever case it is written.
    fn try_from(value: String) -> (result: Result<Environment, String>)
        ensures
            parsed_view(result) == Environment::parsed(value@),
    {
        let lowered = to_lowercase(value.as_str());
        match Environment::from_name(lowered.as_str()) {
            Some(environment) => Ok(environment),
            None => {
                let mut message = value;
                message.append(
                    " is not a supported environment. Use either 'local' or 'production'.",
                );
                Err(message)
            },
        }
    }
}

impl TryFromSpecImpl<String> for Environment {
    /// The contract of `try_from` speaks of views, so nothing is claimed of
    /// the values themselves.
    open spec fn obeys_try_from_spec() -> bool {
        false
    }

    open spec fn try_from_spec(v: String) -> Result<Environment, String> {
        arbitrary()
    }
}

/// The file that holds the settings of the environment that
/// `app_environment` names, where `None` stands for the local one.
pub open spec fn settings_file(app_environment: Option<Seq<char>>) -> Result<Seq<char>, Seq<char>> {
    let value = match app_environment {
        Some(value) => value,
        None => "local"@,
    };
    match Environment::parsed(value) {
        Ok(environment) => Ok(environment.name() + ".yaml"@),
        Err(message) => Err(message),
    }
}

/// The mathematical value of an optional text.
pub open spec fn optional_text(text: Option<String>) -> Option<Seq<char>> {
    match text {
        Some(text) => Some(text@),
        None => None,
    }
}

/// The mathematical value of what `environment_filename` hands out.
pub open spec fn filename_view(result: Result<String, String>) -> Result<Seq<char>, Seq<char>> {
    match result {
        Ok(name) => Ok(name@),
        Err(message) => Err(message@),
    }
}

/// Names the file that holds the settings of the environment in which the
/// application runs. `app_environment` is what the environment says about
/// it; where it says nothing, the application runs locally.
pub fn environment_filename(app_environment: Option<String>) -> (result: Result<String, String>)
    ensures
        filename_view(result) == settings_file(optional_text(app_environment)),
{
    let value = match app_environment {
        Some(value) => value,
        None => "local".to_owned(),
    };
    match Environment::try_from(value) {
        Ok(environment) => {
            let mut name = environment.as_str().to_owned();
            name.append(".yaml");
            Ok(name)
        },
        Err(message) => Err(message),
    }
}

} // verus!
