//! The configuration record, the supported database backends, and the
//! decision that the `start` command takes after reading `config.yaml`.

use vstd::prelude::*;
use crate::strutil::str_eq;

verus! {

/// The fields of `config.yaml`, loaded once at process start.
#[derive(Debug)]
pub struct ConfigLayout {
    pub database: String,
    pub uri: String,
    pub auth_header: Option<String>,
    pub api_key: String,
}

/// The database backend the gateway runs against, with its connection URI.
#[derive(Debug, PartialEq)]
pub enum Database {
    Mongodb { uri: String },
    Postgres { uri: String },
    MySQL { uri: String },
}

/// Picks the backend named by the `database` field of the configuration.
/// Exactly the names `Mongodb`, `Postgres` and `MySQL` are recognised;
/// every other name is not supported.
pub fn select_database(kind: &str, uri: String) -> (r: Option<Database>)
    ensures
        (match r {
            Some(Database::Mongodb { uri: u }) => kind@ == "Mongodb"@ && u == uri,
            Some(Database::Postgres { uri: u }) => kind@ == "Postgres"@ && u == uri,
            Some(Database::MySQL { uri: u }) => kind@ == "MySQL"@ && u == uri,
            None => kind@ != "Mongodb"@ && kind@ != "Postgres"@ && kind@ != "MySQL"@,
        }),
{
    if str_eq(kind, "Mongodb") {
        Some(Database::Mongodb { uri })
    } else if str_eq(kind, "Postgres") {
        Some(Database::Postgres { uri })
    } else if str_eq(kind, "MySQL") {
        Some(Database::MySQL { uri })
    } else {
        None
    }
}

} // verus!
