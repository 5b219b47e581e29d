use vstd::prelude::*;

use crate::numeric::{integer_text_value, parse_i64, parse_u16};
use crate::roles::{role_name, UserRole};

verus! {

/// Service configuration: store location, signing secret, credential
/// lifetime in seconds, and the address to listen on.
#[derive(Debug, Clone)]
pub struct Config {
    pub database_url: String,
    pub jwt_secret: String,
    pub jwt_expiration: i64,
    pub server_host: String,
    pub server_port: u16,
}

/// The value a setting takes: the given text, else the default.
pub open spec fn setting_or(given: Option<String>, default: Seq<char>) -> Seq<char> {
    match given {
        Some(s) => s@,
        None => default,
    }
}

/// A credential lifetime read from its setting; 86400 seconds when the
/// setting is absent or not an `i64`.
pub open spec fn lifetime_setting(given: Option<String>) -> i64 {
    match integer_text_value(setting_or(given, "86400"@), true) {
        Some(v) => if i64::MIN <= v <= i64::MAX {
            v as i64
        } else {
            86400
        },
        None => 86400,
    }
}

/// A port read from its setting; 8080 when the setting is absent or not a
/// `u16`.
pub open spec fn port_setting(given: Option<String>) -> u16 {
    match integer_text_value(setting_or(given, "8080"@), false) {
        Some(v) => if 0 <= v <= u16::MAX {
            v as u16
        } else {
            8080
        },
        None => 8080,
    }
}

fn text_or(given: Option<String>, default: &str) -> (r: String)
    ensures
        r@ == setting_or(given, default@),
{
    match given {
        Some(s) => s,
        None => String::from_str(default),
    }
}

impl Config {
    /// Builds the configuration from the settings found in the process
    /// environment, filling in the default of each one that is absent.
    pub fn from_settings(
        database_url: Option<String>,
        jwt_secret: Option<String>,
        jwt_expiration: Option<String>,
        server_host: Option<String>,
        server_port: Option<String>,
    ) -> (r: Config)
        ensures
            r.database_url@ == setting_or(database_url, "inventory.db"@),
            r.jwt_secret@ == setting_or(jwt_secret, "your_jwt_secret_key"@),
            r.jwt_expiration == lifetime_setting(jwt_expiration),
            r.server_host@ == setting_or(server_host, "0.0.0.0"@),
            r.server_port == port_setting(server_port),
    {
        let expiration_text = text_or(jwt_expiration, "86400");
        let port_text = text_or(server_port, "8080");
        let jwt_expiration = match parse_i64(expiration_text.as_str()) {
            Some(v) => v,
            None => 86400,
        };
        let server_port = match parse_u16(port_text.as_str()) {
            Some(v) => v,
            None => 8080,
        };
        Config {
            database_url: text_or(database_url, "inventory.db"),
            jwt_secret: text_or(jwt_secret, "your_jwt_secret_key"),
            jwt_expiration,
            server_host: text_or(server_host, "0.0.0.0"),
            server_port,
        }
    }
}

/// What a successful login returns.
#[derive(Debug, Clone)]
pub struct AuthResponse {
    pub token: String,
    pub user_id: i64,
    pub username: String,
    pub role: String,
}

impl AuthResponse {
    /// The login answer for a user holding `role`.
    pub fn new(token: String, user_id: i64, username: String, role: &UserRole) -> (r: AuthResponse)
        ensures
            r.token == token,
            r.user_id == user_id,
            r.username == username,
            r.role@ == role_name(*role),
    {
        AuthResponse { token, user_id, username, role: role.to_string() }
    }
}

/// A login request.
#[derive(Debug, Clone)]
pub struct LoginCredentials {
    pub username: String,
    pub password: String,
}

/// A request to create a user.
#[derive(Debug, Clone)]
pub struct NewUser {
    pub username: String,
    pub password: String,
    pub email: String,
    pub role: UserRole,
}

/// A partial update of a user; absent fields stay as they are.
#[derive(Debug, Clone)]
pub struct UpdateUser {
    pub username: Option<String>,
    pub email: Option<String>,
    pub role: Option<UserRole>,
}

impl UpdateUser {
    /// Whether the update changes anything.
    pub fn has_changes(&self) -> (r: bool)
        ensures
            r == (self.username is Some || self.email is Some || self.role is Some),
    {
        self.username.is_some() || self.email.is_some() || self.role.is_some()
    }
}

/// A request to create a category.
#[derive(Debug, Clone)]
pub struct NewCategory {
    pub name: String,
    pub description: Option<String>,
}

/// A partial update of a category; absent fields stay as they are.
#[derive(Debug, Clone)]
pub struct UpdateCategory {
    pub name: Option<String>,
    pub description: Option<String>,
}

impl UpdateCategory {
    /// Whether the update changes anything.
    pub fn has_changes(&self) -> (r: bool)
        ensures
            r == (self.name is Some || self.description is Some),
    {
        self.name.is_some() || self.description.is_some()
    }
}

/// Query of the low-stock listing.
#[derive(Debug, Clone, Copy)]
pub struct LowStockQuery {
    pub threshold: Option<i32>,
}

impl LowStockQuery {
    /// The stock level at or below which an item is listed; 10 by default.
    pub fn threshold_or_default(&self) -> (r: i32)
        ensures
            r == match self.threshold {
                Some(t) => t,
                None => 10,
            },
    {
        match self.threshold {
            Some(t) => t,
            None => 10,
        }
    }
}

/// Query of the recent-movements listing.
#[derive(Debug, Clone, Copy)]
pub struct RecentTransactionsQuery {
    pub limit: Option<i64>,
}

impl RecentTransactionsQuery {
    /// How many movements to list; 20 by default.
    pub fn limit_or_default(&self) -> (r: i64)
        ensures
            r == match self.limit {
                Some(l) => l,
                None => 20,
            },
    {
        match self.limit {
            Some(l) => l,
            None => 20,
        }
    }
}

/// Movement totals of one day.
#[derive(Debug, Clone)]
pub struct TransactionSummary {
    pub date: String,
    pub additions: i64,
    pub removals: i64,
    pub adjustments: i64,
    pub net_change: i64,
}

/// Date bounds (`YYYY-MM-DD`) of the movement history report.
#[derive(Debug, Clone)]
pub struct DateRangeQuery {
    pub start_date: Option<String>,
    pub end_date: Option<String>,
}

} // verus!
