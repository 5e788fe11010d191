//! Where the database of the bot is found.

use crate::text::{numeral, push_numeral};
use vstd::prelude::*;
use vstd::string::StringExecFns;

verus! {

/// How to reach the database. The password is kept as it is given: nothing
/// here shows or logs it.
pub struct DbConfig {
    pub user: String,
    pub password: String,
    pub host: String,
    pub port: u16,
    pub name: String,
}

/// A [`DbConfig`] as contracts speak of it.
pub ghost struct DbConfigView {
    pub user: Seq<char>,
    pub password: Seq<char>,
    pub host: Seq<char>,
    pub port: u16,
    pub name: Seq<char>,
}

impl View for DbConfig {
    type V = DbConfigView;

    open spec fn view(&self) -> DbConfigView {
        DbConfigView {
            user: self.user@,
            password: self.password@,
            host: self.host@,
            port: self.port,
            name: self.name@,
        }
    }
}

impl DbConfigView {
    /// The address of the database server, with user and password.
    pub open spec fn connection_url(self) -> Seq<char> {
        "postgres://"@ + self.user + ":"@ + self.password + "@"@ + self.host + ":"@ + numeral(
            self.port as nat,
        )
    }

    /// The address of the database on its server.
    pub open spec fn database_url(self) -> Seq<char> {
        self.connection_url() + "/"@ + self.name
    }
}

impl DbConfig {
    /// The address of the database server, with user and password.
    pub fn get_connection_url(&self) -> (url: String)
        ensures
            url@ == self@.connection_url(),
    {
        let mut url = String::from_str("postgres://");
        url.append(self.user.as_str());
        url.append(":");
        url.append(self.password.as_str());
        url.append("@");
        url.append(self.host.as_str());
        url.append(":");
        push_numeral(&mut url, self.port as u64);
        url
    }

    /// The address of the database on its server.
    pub fn get_database_url(&self) -> (url: String)
        ensures
            url@ == self@.database_url(),
    {
        let mut url = self.get_connection_url();
        url.append("/");
        url.append(self.name.as_str());
        url
    }
}

} // verus!
