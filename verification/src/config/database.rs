//! The settings of the user store, as the environment gives them.

use vstd::prelude::*;

use crate::config::{
    lookup, number_setting, parse_number_setting, parse_switch, switch_or, value_or, var_or,
    Environment,
};
use crate::database::mysql::MySqlConfig;
use crate::database::{adapter_named, select_adapter, DatabaseConfig, DatabasePlan};

verus! {

/// The settings of the user store that `env` gives: the mock store unless another is
/// named, no cache unless it is switched on, and five minutes for which an answer is kept
/// unless another time is given.
pub fn load_database_config(env: &Environment) -> (r: DatabaseConfig)
    ensures
        r.adapter_type@ == value_or(env@, "DATABASE_ADAPTER"@, "mock"@),
        r.cache_enabled == switch_or(lookup(env@, "ENABLE_DATABASE_QUERY_CACHING"@), false),
        r.cache_ttl_seconds == number_setting(
            lookup(env@, "DATABASE_CACHE_TTL_SECONDS"@),
            u64::MAX,
            300,
        ),
{
    DatabaseConfig {
        adapter_type: var_or(env, "DATABASE_ADAPTER", "mock").to_owned(),
        cache_enabled: parse_switch(env.var("ENABLE_DATABASE_QUERY_CACHING"), false),
        cache_ttl_seconds: parse_number_setting(env.var("DATABASE_CACHE_TTL_SECONDS"), u64::MAX, 300),
    }
}

/// The settings of the MySQL server that `env` gives, each with the value of the
/// development setup where the environment is silent.
pub fn load_mysql_config(env: &Environment) -> (r: MySqlConfig)
    ensures
        r.username@ == value_or(env@, "DATABASE_USERNAME"@, "app_user"@),
        r.password@ == value_or(env@, "DATABASE_PASSWORD"@, "secure_password"@),
        r.host@ == value_or(env@, "DATABASE_HOST"@, "mysql"@),
        r.port == number_setting(lookup(env@, "DATABASE_PORT"@), 65535, 3306),
        r.database_name@ == value_or(env@, "DATABASE_NAME"@, "micro_frontend"@),
{
    MySqlConfig {
        username: var_or(env, "DATABASE_USERNAME", "app_user").to_owned(),
        password: var_or(env, "DATABASE_PASSWORD", "secure_password").to_owned(),
        host: var_or(env, "DATABASE_HOST", "mysql").to_owned(),
        port: parse_number_setting(env.var("DATABASE_PORT"), 65535, 3306) as u16,
        database_name: var_or(env, "DATABASE_NAME", "micro_frontend").to_owned(),
    }
}

/// The store to set up for `env`, and the cache in front of it.
pub fn create_database_from_env(env: &Environment) -> (r: Result<DatabasePlan, String>)
    ensures
        r is Ok <==> adapter_named(value_or(env@, "DATABASE_ADAPTER"@, "mock"@)) is Some,
        r matches Ok(plan) ==> Some(plan.adapter) == adapter_named(
            value_or(env@, "DATABASE_ADAPTER"@, "mock"@),
        ) && plan.cache_ttl_seconds == (if switch_or(
            lookup(env@, "ENABLE_DATABASE_QUERY_CACHING"@),
            false,
        ) {
            Some(number_setting(lookup(env@, "DATABASE_CACHE_TTL_SECONDS"@), u64::MAX, 300))
        } else {
            None
        }),
        r matches Err(e) ==> e@ == "Unknown database adapter: "@ + value_or(
            env@,
            "DATABASE_ADAPTER"@,
            "mock"@,
        ),
{
    let config = load_database_config(env);
    select_adapter(&config)
}

} // verus!
