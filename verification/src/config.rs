use vstd::prelude::*;

verus! {

/// Process configuration, passed explicitly into the components that need
/// it: the listen port, the database connection parameters, and how many
/// synthetic transfers to seed at startup. Reading it from the
/// environment is the caller's concern.
#[derive(Debug, Clone)]
pub struct Config {
    pub port: String,
    pub clickhouse_url: String,
    pub clickhouse_user: String,
    pub clickhouse_password: String,
    pub data_generation_count: usize,
}

} // verus!
