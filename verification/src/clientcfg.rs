//! The client's configuration records: the agents it may reach, its
//! retry and load-balancing behaviour, and how it authenticates.
//! File paths are held as plain strings.

use vstd::prelude::*;
use crate::client::{LoadBalancingStrategy, RetryStrategy};

verus! {

/// One reachable agent: its id, endpoint, optional credentials, and
/// its weight in load balancing.
#[derive(Debug, Clone)]
pub struct AgentConfig {
    pub id: String,
    pub url: String,
    pub auth: Option<AuthConfig>,
    pub weight: u32,
    pub enabled: bool,
}

/// How the client behaves: timeouts, retries, balancing, buffering.
#[derive(Debug, Clone)]
pub struct ClientBehaviorConfig {
    pub operation_timeout_ms: u64,
    pub max_retries: u32,
    pub retry_strategy: RetryStrategy,
    pub load_balancing: LoadBalancingStrategy,
    pub enable_failover: bool,
    pub read_buffer_size: usize,
    pub write_buffer_size: usize,
}

/// How the client authenticates: one method with its credentials.
#[derive(Debug, Clone)]
pub struct AuthConfig {
    pub method: AuthMethod,
    pub credentials: AuthCredentials,
}

/// The authentication methods a client can use.
#[derive(Debug, Clone, Copy, PartialEq, Eq, Structural)]
pub enum AuthMethod {
    NoAuth,
    Token,
    Certificate,
    UsernamePassword,
}

/// The credentials for each authentication method.
#[derive(Debug, Clone)]
pub enum AuthCredentials {
    NoCredentials,
    Token { token: String },
    Certificate { cert_path: String, key_path: String },
    UsernamePassword { username: String, password: String },
}

} // verus!
