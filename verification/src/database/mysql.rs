//! What is said to a MySQL server and how its answers are reported. The connection
//! itself is made elsewhere.

use vstd::prelude::*;
use vstd::string::StringExecFns;

use crate::text::{decimal_text, push_decimal, push_signed_decimal, signed_decimal_text};

verus! {

/// Where the MySQL server is and how to log in.
pub struct MySqlConfig {
    pub username: String,
    pub password: String,
    pub host: String,
    pub port: u16,
    pub database_name: String,
}

impl Default for MySqlConfig {
    /// The server of the development setup.
    fn default() -> (r: Self)
        ensures
            r.username@ == "app_user"@,
            r.password@ == "secure_password"@,
            r.host@ == "mysql"@,
            r.port == 3306,
            r.database_name@ == "micro_frontend"@,
    {
        Self {
            username: String::from_str("app_user"),
            password: String::from_str("secure_password"),
            host: String::from_str("mysql"),
            port: 3306,
            database_name: String::from_str("micro_frontend"),
        }
    }
}

/// The query that looks up one user.
pub const GET_USER_QUERY: &'static str = "SELECT username, display_name FROM users WHERE username = ?";

/// The statement that sets the display name of a user and creates the user if need be.
pub const UPDATE_DISPLAY_NAME_QUERY: &'static str =
    "INSERT INTO users (username, display_name) VALUES (?, ?) \n             ON DUPLICATE KEY UPDATE display_name = VALUES(display_name)";

/// The query that counts the users.
pub const COUNT_USERS_QUERY: &'static str = "SELECT COUNT(*) as user_count FROM users";

/// The address under which the server of `config` is reached.
pub open spec fn url_text(config: MySqlConfig) -> Seq<char> {
    "mysql://"@ + config.username@ + ":"@ + config.password@ + "@"@ + config.host@ + ":"@
        + decimal_text(config.port as nat) + "/"@ + config.database_name@
}

/// The line with which a server that holds `user_count` users reports that it is well.
pub open spec fn health_text(user_count: i64) -> Seq<char> {
    "mysql_db_healthy_with_"@ + signed_decimal_text(user_count as int) + "_users"@
}

/// The word under which the outcome of a query is counted.
pub open spec fn status_label(success: bool) -> Seq<char> {
    if success {
        "success"@
    } else {
        "error"@
    }
}

impl MySqlConfig {
    /// The address under which the server is reached.
    pub fn connection_url(&self) -> (r: String)
        ensures
            r@ == url_text(*self),
    {
        let mut url = String::from_str("mysql://");
        url.append(self.username.as_str());
        url.append(":");
        url.append(self.password.as_str());
        url.append("@");
        url.append(self.host.as_str());
        url.append(":");
        push_decimal(&mut url, self.port as u64);
        url.append("/");
        url.append(self.database_name.as_str());
        url
    }
}

/// The line with which a server that holds `user_count` users reports that it is well.
pub fn health_line(user_count: i64) -> (r: String)
    ensures
        r@ == health_text(user_count),
{
    let mut out = String::from_str("mysql_db_healthy_with_");
    push_signed_decimal(&mut out, user_count);
    out.append("_users");
    out
}

/// The word under which the outcome of a query is counted.
pub fn query_status(success: bool) -> (r: &'static str)
    ensures
        r@ == status_label(success),
{
    if success {
        "success"
    } else {
        "error"
    }
}

} // verus!
