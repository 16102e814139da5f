//! Process configuration: an immutable value built once at startup from
//! already-read raw values. Construction fails, and startup must abort,
//! when a numeric value does not parse as its declared type.
use vstd::prelude::*;

use crate::text::{dec_val, i64_value, parse_i64_decimal, parse_u16_decimal, parses_as_i64,
    parses_as_u16, unsigned_body};

verus! {

/// The configuration a running process needs: where the database lives,
/// the token-signing secret, the token lifetime, and the listen port.
#[derive(Debug, Clone)]
pub struct Config {
    pub database_url: String,
    pub jwt_secret: String,
    pub jwt_maxage: i64,
    pub port: u16,
}

impl Config {
    /// Builds the configuration from raw values. The token lifetime and the
    /// port arrive as text and must follow decimal syntax for their types;
    /// the result is absent exactly when one of them does not.
    pub fn from_values(
        database_url: String,
        jwt_secret: String,
        jwt_maxage: &str,
        port: &str,
    ) -> (r: Option<Config>)
        ensures
            r is Some <==> parses_as_i64(jwt_maxage@) && parses_as_u16(port@),
            r is Some ==> r->0.database_url@ == database_url@,
            r is Some ==> r->0.jwt_secret@ == jwt_secret@,
            r is Some ==> r->0.jwt_maxage as int == i64_value(jwt_maxage@),
            r is Some ==> r->0.port == dec_val(unsigned_body(port@)),
    {
        let maxage = parse_i64_decimal(jwt_maxage);
        let port_num = parse_u16_decimal(port);
        match (maxage, port_num) {
            (Some(jwt_maxage), Some(port)) => Some(
                Config { database_url, jwt_secret, jwt_maxage, port },
            ),
            _ => None,
        }
    }
}

} // verus!
