//! Request-routing, protocol and bookkeeping logic of the bakpiaRun PHP
//! application server, with its contracts proved by Verus.

pub mod text;
pub mod clock;
pub mod mysql_protocol;
pub mod db_proxy;
pub mod config;
pub mod static_file;
pub mod admin_auth;
pub mod pool_manager;
pub mod worker;
pub mod metrics;
pub mod queue;
pub mod security;
pub mod rate_limit;
pub mod logger;
pub mod types;
pub mod ipc;
pub mod job_handlers;
pub mod handlers;
pub mod php_flow;
pub mod embed;
pub mod file_embed;
