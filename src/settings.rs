//! The server's configuration and its defaults.

use vstd::prelude::*;
use crate::configuration::MailConfiguration;
use crate::logging::Level;

verus! {

/// The version segment of every API path.
pub const API_VERSION: &'static str = "v1";

/// The logging configuration.
#[derive(Debug, Clone)]
pub struct Logging {
    /// The location of the logging configuration file.
    pub path: Option<String>,
    /// The logging level to use.
    pub level: Option<Level>,
}

impl Default for Logging {
    /// No file, level `Info`.
    fn default() -> (r: Self)
        ensures
            r.path is None,
            r.level == Some(Level::Info),
    {
        Logging { path: None, level: Some(Level::Info) }
    }
}

/// The HTTP server configuration.
#[derive(Debug)]
pub struct Http {
    /// The local IP address and port to bind the HTTP server to.
    pub bind: (String, u16),
    /// The host name of this instance.
    pub host: String,
    /// An optional path prefix to serve the API on.
    pub directory: Option<String>,
}

impl Default for Http {
    /// Bound to `localhost` port 8100, named `localhost:8100`, no prefix.
    fn default() -> (r: Self)
        ensures
            r.bind.0@ == "localhost"@,
            r.bind.1 == 8100,
            r.host@ == "localhost:8100"@,
            r.directory is None,
    {
        Http {
            bind: (String::from_str("localhost"), 8100),
            host: String::from_str("localhost:8100"),
            directory: None,
        }
    }
}

/// The server configuration.
#[derive(Debug)]
pub struct Configuration {
    /// The logging configuration.
    pub logging: Logging,
    /// The HTTP server configuration.
    pub http: Http,
    /// The mail service configuration.
    pub mail: MailConfiguration,
}

impl Configuration {
    /// The configuration has every default value.
    pub open spec fn is_default(&self) -> bool {
        &&& self.logging.path is None
        &&& self.logging.level == Some(Level::Info)
        &&& self.http.bind.0@ == "localhost"@
        &&& self.http.bind.1 == 8100
        &&& self.http.host@ == "localhost:8100"@
        &&& self.http.directory is None
        &&& self.mail.accept.anonymous_sender && self.mail.accept.unsigned
            && self.mail.accept.unsigned_attachments
        &&& !self.mail.require.subject && !self.mail.require.body
            && self.mail.require.labels@.len() == 0
        &&& self.mail.limit.recipients == 100
        &&& self.mail.limit.subject_size == 1024
        &&& self.mail.limit.body_size == 262144
        &&& self.mail.limit.embedded_attachments == 100
        &&& self.mail.limit.embedded_attachment_size == 262144
        &&& self.mail.limit.remote_attachments == 100
        &&& self.mail.limit.remote_attachment_size == 536870912
        &&& self.mail.limit.labels == 1000
    }
}

impl Default for Configuration {
    /// The default of each part.
    fn default() -> (r: Self)
        ensures
            r.is_default(),
    {
        Configuration {
            logging: Logging::default(),
            http: Http::default(),
            mail: MailConfiguration::default(),
        }
    }
}

/// The configuration in force: the one read from a file when a file was
/// named, else the defaults.
pub fn configure(file: Option<Configuration>) -> (r: Configuration)
    ensures
        file matches Some(c) ==> r == c,
        file is None ==> r.is_default(),
{
    match file {
        Some(c) => c,
        None => Configuration::default(),
    }
}

/// The path under which the API is served: `<directory>/v1`, or `v1`.
pub fn api_root(directory: &Option<String>) -> (r: String)
    ensures
        directory matches Some(d) ==> r@ == d@ + "/"@ + API_VERSION@,
        directory is None ==> r@ == API_VERSION@,
{
    match directory {
        Some(d) => {
            let mut r = d.clone();
            r.append("/");
            r.append(API_VERSION);
            r
        },
        None => String::from_str(API_VERSION),
    }
}

} // verus!
