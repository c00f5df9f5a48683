//! The settings of a deployment: where the store is and where the server
//! listens.

use crate::text::append_decimal;
use crate::text::decimal_text;
use secrecy::ExposeSecret;
use secrecy::Secret;
use vstd::prelude::*;
use vstd::string::StringExecFns;

verus! {

/// A text that is kept out of logs and wiped from memory when it is dropped.
#[verifier::external_body]
pub struct SecretText {
    inner: Secret<String>,
}

/// The text that a secret holds.
pub uninterp spec fn exposed(secret: SecretText) -> Seq<char>;

/// Wraps a text as a secret.
///
/// Trusted: calls `secrecy::Secret::new`, which stores its argument as it is.
/// The contract claims that the secret holds the text that was handed in.
#[verifier::external_body]
fn seal(text: String) -> (secret: SecretText)
    ensures
        exposed(secret) == text@,
{
    SecretText { inner: Secret::new(text) }
}

/// Reads the text of a secret.
///
/// Trusted: calls `secrecy::ExposeSecret::expose_secret` on a `Secret`, which
/// returns a reference to what the secret stores. The contract claims that
/// the text returned is the one the secret holds.
#[verifier::external_body]
fn unseal(secret: &SecretText) -> (text: &String)
    ensures
        text@ == exposed(*secret),
{
    secret.inner.expose_secret()
}

impl SecretText {
    /// The secret that holds `text`.
    pub fn new(text: String) -> (secret: SecretText)
        ensures
            exposed(secret) == text@,
    {
        seal(text)
    }

    /// The text in the clear. The caller answers for where it goes.
    pub fn expose(&self) -> (text: &str)
        ensures
            text@ == exposed(*self),
    {
        unseal(self).as_str()
    }
}

/// Where the server listens.
pub struct ApplicationSettings {
    pub host: String,
    pub port: u16,
}

/// How the store is reached.
pub struct DatabaseSettings {
    pub username: String,
    pub password: SecretText,
    pub host: String,
    pub port: u16,
    pub database_name: String,
}

/// All settings of a deployment.
pub struct Settings {
    pub database: DatabaseSettings,
    pub application: ApplicationSettings,
}

/// The address of a Postgres instance: scheme, credentials, host and port.
pub open spec fn instance_text(
    username: Seq<char>,
    password: Seq<char>,
    host: Seq<char>,
    port: u16,
) -> Seq<char> {
    "postgres://"@ + username + ":"@ + password + "@"@ + host + ":"@ + decimal_text(port as nat)
}

/// The address of one database of a Postgres instance.
pub open spec fn database_text(
    username: Seq<char>,
    password: Seq<char>,
    host: Seq<char>,
    port: u16,
    database_name: Seq<char>,
) -> Seq<char> {
    instance_text(username, password, host, port) + "/"@ + database_name
}

/// The text `host:port`.
pub open spec fn address_text(host: Seq<char>, port: u16) -> Seq<char> {
    host + ":"@ + decimal_text(port as nat)
}

impl ApplicationSettings {
    /// The address to listen on, as `host:port`.
    pub fn address(&self) -> (text: String)
        ensures
            text@ == address_text(self.host@, self.port),
    {
        let mut text = self.host.clone();
        text.append(":");
        append_decimal(&mut text, self.port);
        text
    }
}

impl DatabaseSettings {
    /// The instance's address, without a database, in the clear.
    fn instance_string(&self) -> (text: String)
        ensures
            text@ == instance_text(
                self.username@,
                exposed(self.password),
                self.host@,
                self.port,
            ),
    {
        let mut text = String::from_str("postgres://");
        text.append(self.username.as_str());
        text.append(":");
        text.append(self.password.expose());
        text.append("@");
        text.append(self.host.as_str());
        text.append(":");
        append_decimal(&mut text, self.port);
        text
    }

    /// The connection string of the database, kept as a secret since it holds
    /// the password.
    pub fn connection_string(&self) -> (secret: SecretText)
        ensures
            exposed(secret) == database_text(
                self.username@,
                exposed(self.password),
                self.host@,
                self.port,
                self.database_name@,
            ),
    {
        let mut text = self.instance_string();
        text.append("/");
        text.append(self.database_name.as_str());
        seal(text)
    }

    /// The connection string of the Postgres instance, with no database
    /// named, kept as a secret since it holds the password.
    pub fn connection_string_without_db(&self) -> (secret: SecretText)
        ensures
            exposed(secret) == instance_text(
                self.username@,
                exposed(self.password),
                self.host@,
                self.port,
            ),
    {
        seal(self.instance_string())
    }
}

} // verus!
