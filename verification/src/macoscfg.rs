//! The NFS-bridge configuration: where the server listens, which
//! agents it talks to, and its validation, together with that
//! program's command line as plain data.

use vstd::prelude::*;
use crate::protocol::strings_view;
use crate::paths::str_has_prefix;
use crate::config::has_prefix;
use crate::strutil::str_to_string;

verus! {

/// Token or certificate authentication for the bridge.
#[derive(Debug, Clone)]
pub struct AuthConfig {
    pub enabled: bool,
    pub token: Option<String>,
    pub cert_file: Option<String>,
    pub key_file: Option<String>,
}

/// Cache and buffer tuning for the bridge.
#[derive(Debug, Clone, Copy, PartialEq, Eq, Structural)]
pub struct PerformanceConfig {
    pub cache_enabled: bool,
    pub cache_size_mb: u64,
    pub read_buffer_size: usize,
    pub write_buffer_size: usize,
    pub connection_pool_size: usize,
    pub compression_enabled: bool,
}

/// Everything the NFS bridge runs with.
#[derive(Debug, Clone)]
pub struct MacOSConfig {
    pub host: String,
    pub port: u16,
    pub agents: Vec<String>,
    pub connection_timeout: u64,
    pub request_timeout: u64,
    pub max_connections: usize,
    pub debug: bool,
    pub cache_dir: Option<String>,
    pub auth: AuthConfig,
    pub performance: PerformanceConfig,
}

/// Why the bridge's configuration was rejected.
#[derive(Debug, Clone, Copy, PartialEq, Eq, Structural)]
pub enum MacOSConfigError {
    /// No agent endpoint is named.
    NoAgents,
    /// The port is zero.
    ZeroPort,
    /// The connection or request timeout is zero.
    ZeroTimeout,
    /// An agent endpoint names neither `ws://` nor `wss://`.
    BadAgentUrl,
}

/// Whether the endpoint carries a websocket scheme.
pub open spec fn ws_url(u: Seq<char>) -> bool {
    has_prefix(u, "ws://"@) || has_prefix(u, "wss://"@)
}

/// The record's verdict, in the order the checks are made: agents
/// named, port and timeouts nonzero, every endpoint a websocket URL.
pub open spec fn macos_config_verdict(c: MacOSConfig) -> Result<(), MacOSConfigError> {
    if strings_view(c.agents).len() == 0 {
        Err(MacOSConfigError::NoAgents)
    } else if c.port == 0 {
        Err(MacOSConfigError::ZeroPort)
    } else if c.connection_timeout == 0 || c.request_timeout == 0 {
        Err(MacOSConfigError::ZeroTimeout)
    } else if !(forall|k: int|
        0 <= k < strings_view(c.agents).len() ==> ws_url(#[trigger] strings_view(c.agents)[k])) {
        Err(MacOSConfigError::BadAgentUrl)
    } else {
        Ok(())
    }
}

impl Default for AuthConfig {
    /// Authentication off, no token and no key material.
    fn default() -> (r: AuthConfig)
        ensures
            r.enabled == false,
            r.token is None,
            r.cert_file is None,
            r.key_file is None,
    {
        AuthConfig { enabled: false, token: None, cert_file: None, key_file: None }
    }
}

impl Default for PerformanceConfig {
    /// Caching and compression on, 256 MiB of cache, 128 KiB buffers,
    /// a pool of twenty connections.
    fn default() -> (r: PerformanceConfig)
        ensures
            r == (PerformanceConfig {
                cache_enabled: true,
                cache_size_mb: 256u64,
                read_buffer_size: 131072usize,
                write_buffer_size: 131072usize,
                connection_pool_size: 20usize,
                compression_enabled: true,
            }),
    {
        PerformanceConfig {
            cache_enabled: true,
            cache_size_mb: 256,
            read_buffer_size: 131072,
            write_buffer_size: 131072,
            connection_pool_size: 20,
            compression_enabled: true,
        }
    }
}

impl Default for MacOSConfig {
    /// The loopback host on the NFS port, one local agent endpoint,
    /// half-minute connection and minute-long request timeouts.
    fn default() -> (r: MacOSConfig)
        ensures
            r.host@ == "127.0.0.1"@,
            r.port == 2049u16,
            strings_view(r.agents).len() == 1,
            strings_view(r.agents)[0] == "ws://127.0.0.1:8080"@,
            r.connection_timeout == 30u64,
            r.request_timeout == 60u64,
            r.max_connections == 100usize,
            r.debug == false,
            r.cache_dir is None,
            r.auth.enabled == false,
            r.performance == (PerformanceConfig {
                cache_enabled: true,
                cache_size_mb: 256u64,
                read_buffer_size: 131072usize,
                write_buffer_size: 131072usize,
                connection_pool_size: 20usize,
                compression_enabled: true,
            }),
    {
        let mut agents: Vec<String> = Vec::new();
        agents.push(str_to_string("ws://127.0.0.1:8080"));
        proof {
            assert(strings_view(agents) =~= seq!["ws://127.0.0.1:8080"@]);
        }
        MacOSConfig {
            host: str_to_string("127.0.0.1"),
            port: 2049,
            agents,
            connection_timeout: 30,
            request_timeout: 60,
            max_connections: 100,
            debug: false,
            cache_dir: None,
            auth: AuthConfig::default(),
            performance: PerformanceConfig::default(),
        }
    }
}

impl MacOSConfig {
    /// Check the record: at least one agent, a nonzero port and
    /// nonzero timeouts, and a websocket scheme on every endpoint.
    pub fn validate(&self) -> (r: Result<(), MacOSConfigError>)
        ensures
            r == macos_config_verdict(*self),
    {
        let ghost av = strings_view(self.agents);
        if self.agents.len() == 0 {
            return Err(MacOSConfigError::NoAgents);
        }
        if self.port == 0 {
            return Err(MacOSConfigError::ZeroPort);
        }
        if self.connection_timeout == 0 || self.request_timeout == 0 {
            return Err(MacOSConfigError::ZeroTimeout);
        }
        let mut k: usize = 0;
        while k < self.agents.len()
            invariant
                k <= self.agents@.len(),
                av == strings_view(self.agents),
                av.len() == self.agents@.len(),
                av.len() != 0,
                self.port != 0,
                self.connection_timeout != 0,
                self.request_timeout != 0,
                forall|j: int| 0 <= j < k ==> ws_url(#[trigger] av[j]),
            decreases self.agents@.len() - k,
        {
            let a = self.agents[k].as_str();
            if !str_has_prefix(a, "ws://") && !str_has_prefix(a, "wss://") {
                proof {
                    let ghost sv = strings_view(self.agents);
                    assert(sv[k as int] == self.agents@[k as int]@);
                    assert(!(forall|j: int| 0 <= j < sv.len() ==> ws_url(#[trigger] sv[j]))) by {
                        assert(!ws_url(sv[k as int]));
                    }
                }
                return Err(MacOSConfigError::BadAgentUrl);
            }
            proof {
                assert(av[k as int] == self.agents@[k as int]@);
            }
            k = k + 1;
        }
        Ok(())
    }
}

/// The bridge's command line, as plain data.
#[derive(Debug, Clone)]
pub struct Cli {
    pub config: Option<String>,
    pub verbose: bool,
    pub host: Option<String>,
    pub port: Option<u16>,
    pub agents: Option<String>,
    pub command: Commands,
}

/// One command the bridge can run.
#[derive(Debug, Clone)]
pub enum Commands {
    Start,
    Config { action: ConfigAction },
    Mount { action: MountAction },
    Status,
}

/// Configuration subcommands.
#[derive(Debug, Clone)]
pub enum ConfigAction {
    Generate,
    Validate { path: Option<String> },
    Show,
}

/// Mount subcommands.
#[derive(Debug, Clone)]
pub enum MountAction {
    Show { mount_point: String },
    Mount { mount_point: String },
    Unmount { mount_point: String },
}

} // verus!
