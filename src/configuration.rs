//! Settings the service is started with.
use crate::text::{decimal, push_decimal};
use vstd::prelude::*;
use vstd::string::*;

verus! {

/// All settings of the service.
#[derive(Clone)]
pub struct Settings {
    pub database: DatabaseSettings,
    pub application_port: u16,
}

/// Where and as whom to reach the Postgres database.
#[derive(Clone)]
pub struct DatabaseSettings {
    pub username: String,
    pub password: String,
    pub port: u16,
    pub host: String,
    pub database_name: String,
}

/// `postgres://<username>:<password>@<host>:<port>/<database_name>`.
pub open spec fn connection_string_of(d: DatabaseSettings) -> Seq<char> {
    "postgres://"@ + d.username@ + ":"@ + d.password@ + "@"@ + d.host@ + ":"@
        + decimal(d.port as nat) + "/"@ + d.database_name@
}

impl DatabaseSettings {
    /// The connection URL of the database.
    pub fn connection_string(&self) -> (r: String)
        ensures
            r@ == connection_string_of(*self),
    {
        let mut s = String::from_str("postgres://");
        s.append(self.username.as_str());
        s.append(":");
        s.append(self.password.as_str());
        s.append("@");
        s.append(self.host.as_str());
        s.append(":");
        push_decimal(&mut s, self.port);
        s.append("/");
        s.append(self.database_name.as_str());
        s
    }
}

} // verus!
