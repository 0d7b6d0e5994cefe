//! Agent-side configuration: the settings records, validation, and the
//! overlay merge where an empty field of the overlay keeps the base's
//! value.  File paths are held as plain strings.

use vstd::prelude::*;
use crate::protocol::strings_view;
use crate::paths::str_has_prefix;

verus! {

/// Which paths an agent serves, and under what restrictions.
#[derive(Debug, Clone)]
pub struct AccessConfig {
    pub allowed_paths: Vec<String>,
    pub read_only_paths: Vec<String>,
    pub denied_paths: Vec<String>,
    pub max_file_size: u64,
    pub follow_symlinks: bool,
    pub allowed_extensions: Vec<String>,
    pub denied_extensions: Vec<String>,
}

/// Keys, certificates and session security settings.
#[derive(Debug, Clone)]
pub struct SecurityConfig {
    pub key_file: String,
    pub cert_file: String,
    pub enable_tls: bool,
    pub verify_certs: bool,
    pub session_timeout: u64,
    pub enable_auth: bool,
    pub allowed_clients: Vec<String>,
}

/// Timeouts, heartbeats and reconnection limits.
#[derive(Debug, Clone, Copy, PartialEq, Eq, Structural)]
pub struct NetworkConfig {
    pub connection_timeout: u64,
    pub read_timeout: u64,
    pub write_timeout: u64,
    pub heartbeat_interval: u64,
    pub max_reconnect_attempts: u32,
    pub reconnect_backoff_base: u64,
    pub max_concurrent_connections: usize,
    pub tcp_keepalive: bool,
    pub keepalive_interval: u64,
}

/// Caps on message, chunk and directory-listing sizes.
#[derive(Debug, Clone, Copy, PartialEq, Eq, Structural)]
pub struct MessageLimits {
    pub max_message_size: usize,
    pub max_chunk_size: usize,
    pub max_dir_entries: usize,
}

/// Session lifetime and bookkeeping settings.
#[derive(Debug, Clone)]
pub struct SessionConfig {
    pub timeout: u64,
    pub max_sessions: usize,
    pub cleanup_interval: u64,
    pub enable_persistence: bool,
    pub storage_path: Option<String>,
}

/// Worker, buffer and cache tuning.
#[derive(Debug, Clone, Copy, PartialEq, Eq, Structural)]
pub struct PerformanceConfig {
    pub worker_threads: usize,
    pub io_buffer_size: usize,
    pub async_io: bool,
    pub fs_cache_size: usize,
    pub enable_prefetch: bool,
    pub prefetch_window: usize,
}

/// Where and how the process logs.
#[derive(Debug, Clone)]
pub struct LoggingConfig {
    pub level: String,
    pub format: String,
    pub file: Option<String>,
    pub max_file_size: usize,
    pub max_files: usize,
    pub enable_access_log: bool,
    pub access_log_file: Option<String>,
}

/// A mounted remote directory: where it lives on the agent, where it
/// appears locally, and under which options.
#[derive(Debug, Clone)]
pub struct MountPoint {
    pub remote_path: String,
    pub local_path: String,
    pub options: MountOptions,
    pub agent_id: String,
}

/// Per-mount caching and write behaviour.
#[derive(Debug, Clone, Copy, PartialEq, Eq, Structural)]
pub struct MountOptions {
    pub read_only: bool,
    pub write_cache: bool,
    pub read_cache: bool,
    pub cache_ttl: u64,
    pub max_cached_file_size: u64,
}

/// Everything an agent runs with.
#[derive(Debug, Clone)]
pub struct AgentConfig {
    pub agent_id: String,
    pub relay_url: String,
    pub access: AccessConfig,
    pub security: SecurityConfig,
    pub network: NetworkConfig,
    pub logging: LoggingConfig,
    pub performance: PerformanceConfig,
}

impl Default for MountOptions {
    /// Caches on, not read-only, an hour of cache lifetime, a 100 MiB
    /// per-file cache cap.
    fn default() -> (r: MountOptions)
        ensures
            r == (MountOptions {
                read_only: false,
                write_cache: true,
                read_cache: true,
                cache_ttl: 3600u64,
                max_cached_file_size: 104857600u64,
            }),
    {
        MountOptions {
            read_only: false,
            write_cache: true,
            read_cache: true,
            cache_ttl: 3600,
            max_cached_file_size: 104857600,
        }
    }
}

impl Default for NetworkConfig {
    /// Half-minute connect timeout, minute-long I/O timeouts,
    /// half-minute heartbeat, five reconnection attempts.
    fn default() -> (r: NetworkConfig)
        ensures
            r == (NetworkConfig {
                connection_timeout: 30u64,
                read_timeout: 60u64,
                write_timeout: 60u64,
                heartbeat_interval: 30u64,
                max_reconnect_attempts: 5u32,
                reconnect_backoff_base: 1u64,
                max_concurrent_connections: 10usize,
                tcp_keepalive: true,
                keepalive_interval: 60u64,
            }),
    {
        NetworkConfig {
            connection_timeout: 30,
            read_timeout: 60,
            write_timeout: 60,
            heartbeat_interval: 30,
            max_reconnect_attempts: 5,
            reconnect_backoff_base: 1,
            max_concurrent_connections: 10,
            tcp_keepalive: true,
            keepalive_interval: 60,
        }
    }
}

impl Default for MessageLimits {
    /// 64 MiB messages, 1 MiB chunks, a thousand directory entries.
    fn default() -> (r: MessageLimits)
        ensures
            r == (MessageLimits {
                max_message_size: 67108864usize,
                max_chunk_size: 1048576usize,
                max_dir_entries: 1000usize,
            }),
    {
        MessageLimits { max_message_size: 67108864, max_chunk_size: 1048576, max_dir_entries: 1000 }
    }
}

impl Default for LoggingConfig {
    /// Plain-text logging at `info`, to standard output, five files of
    /// 100 MiB each when a file is set, no access log.
    fn default() -> (r: LoggingConfig)
        ensures
            r.level@ == "info"@,
            r.format@ == "plain"@,
            r.file is None,
            r.max_file_size == 100usize,
            r.max_files == 5usize,
            r.enable_access_log == false,
            r.access_log_file is None,
    {
        LoggingConfig {
            level: crate::strutil::str_to_string("info"),
            format: crate::strutil::str_to_string("plain"),
            file: None,
            max_file_size: 100,
            max_files: 5,
            enable_access_log: false,
            access_log_file: None,
        }
    }
}

/// Why a configuration was rejected.
#[derive(Debug, Clone, Copy, PartialEq, Eq, Structural)]
pub enum ConfigError {
    /// The agent id is empty.
    EmptyAgentId,
    /// The relay URL is empty.
    EmptyRelayUrl,
    /// The relay URL names neither `ws://` nor `wss://`.
    BadRelayScheme,
    /// The allow-list of paths is empty.
    NoAllowedPaths,
    /// An allowed path does not exist on disk.
    MissingAllowedPath,
    /// The maximum file size is zero.
    ZeroMaxFileSize,
    /// The worker-thread count is zero.
    ZeroWorkerThreads,
    /// The I/O buffer size is zero.
    ZeroIoBufferSize,
    /// The log level is none of the five known levels.
    BadLogLevel,
}

/// Whether `pre` literally begins `s`.
pub open spec fn has_prefix(s: Seq<char>, pre: Seq<char>) -> bool {
    pre.len() <= s.len() && s.take(pre.len() as int) == pre
}

/// The five log levels the configuration accepts.
pub open spec fn valid_log_level(s: Seq<char>) -> bool {
    ||| s == "trace"@
    ||| s == "debug"@
    ||| s == "info"@
    ||| s == "warn"@
    ||| s == "error"@
}

/// The checks that need nothing but the record itself, in the order
/// they are made before the disk is consulted; the first failure wins.
pub open spec fn early_config_error(c: AgentConfig) -> Option<ConfigError> {
    if c.agent_id@.len() == 0 {
        Some(ConfigError::EmptyAgentId)
    } else if c.relay_url@.len() == 0 {
        Some(ConfigError::EmptyRelayUrl)
    } else if !has_prefix(c.relay_url@, "ws://"@) && !has_prefix(c.relay_url@, "wss://"@) {
        Some(ConfigError::BadRelayScheme)
    } else if strings_view(c.access.allowed_paths).len() == 0 {
        Some(ConfigError::NoAllowedPaths)
    } else {
        None
    }
}

/// The checks made after the disk was consulted, in order; the first
/// failure wins.
pub open spec fn late_config_verdict(c: AgentConfig) -> Result<(), ConfigError> {
    if c.access.max_file_size == 0 {
        Err(ConfigError::ZeroMaxFileSize)
    } else if c.performance.worker_threads == 0 {
        Err(ConfigError::ZeroWorkerThreads)
    } else if c.performance.io_buffer_size == 0 {
        Err(ConfigError::ZeroIoBufferSize)
    } else if !valid_log_level(c.logging.level@) {
        Err(ConfigError::BadLogLevel)
    } else {
        Ok(())
    }
}

/// Relies on std::path::Path::exists: whether the path names anything
/// on disk.  The answer depends on the machine's filesystem, so
/// nothing is stated of it.
#[verifier::external_body]
fn path_exists(p: &String) -> bool {
    std::path::Path::new(p.as_str()).exists()
}

/// Whether every path of the list exists on disk right now.
fn all_paths_exist(paths: &Vec<String>) -> (r: bool) {
    let mut k: usize = 0;
    while k < paths.len()
        invariant
            k <= paths@.len(),
        decreases paths@.len() - k,
    {
        if !path_exists(&paths[k]) {
            return false;
        }
        k = k + 1;
    }
    true
}

/// Check a configuration: the agent id and relay URL must be set, the
/// URL carries a websocket scheme, at least one allowed path is named
/// and each exists on disk, the size and worker settings are nonzero,
/// and the log level is known.  Every check but the disk's is pinned;
/// the disk alone decides between `MissingAllowedPath` and the later
/// checks.
pub fn validate_config(config: &AgentConfig) -> (r: Result<(), ConfigError>)
    ensures
        match early_config_error(*config) {
            Some(e) => r == Err::<(), ConfigError>(e),
            None => r == Err::<(), ConfigError>(ConfigError::MissingAllowedPath) || r
                == late_config_verdict(*config),
        },
{
    if config.agent_id.as_str().unicode_len() == 0 {
        return Err(ConfigError::EmptyAgentId);
    }
    if config.relay_url.as_str().unicode_len() == 0 {
        return Err(ConfigError::EmptyRelayUrl);
    }
    if !str_has_prefix(config.relay_url.as_str(), "ws://") && !str_has_prefix(
        config.relay_url.as_str(),
        "wss://",
    ) {
        return Err(ConfigError::BadRelayScheme);
    }
    if config.access.allowed_paths.len() == 0 {
        return Err(ConfigError::NoAllowedPaths);
    }
    if !all_paths_exist(&config.access.allowed_paths) {
        return Err(ConfigError::MissingAllowedPath);
    }
    if config.access.max_file_size == 0 {
        return Err(ConfigError::ZeroMaxFileSize);
    }
    if config.performance.worker_threads == 0 {
        return Err(ConfigError::ZeroWorkerThreads);
    }
    if config.performance.io_buffer_size == 0 {
        return Err(ConfigError::ZeroIoBufferSize);
    }
    let lvl = &config.logging.level;
    let known = crate::access::str_eq(lvl.as_str(), "trace") || crate::access::str_eq(
        lvl.as_str(),
        "debug",
    ) || crate::access::str_eq(lvl.as_str(), "info") || crate::access::str_eq(lvl.as_str(), "warn")
        || crate::access::str_eq(lvl.as_str(), "error");
    if !known {
        return Err(ConfigError::BadLogLevel);
    }
    Ok(())
}

/// The overlay's list when it has entries, else the base's.
pub open spec fn merged_list(base: Seq<Seq<char>>, overlay: Seq<Seq<char>>) -> Seq<Seq<char>> {
    if overlay.len() == 0 {
        base
    } else {
        overlay
    }
}

/// The overlay's string when it is non-empty, else the base's.
pub open spec fn merged_str(base: Seq<char>, overlay: Seq<char>) -> Seq<char> {
    if overlay.len() == 0 {
        base
    } else {
        overlay
    }
}

/// The view of an optional string.
pub open spec fn opt_str_view(o: Option<String>) -> Option<Seq<char>> {
    match o {
        Some(s) => Some(s@),
        None => None,
    }
}

/// The overlay's optional value when it is set, else the base's.
pub open spec fn merged_opt(base: Option<Seq<char>>, overlay: Option<Seq<char>>) -> Option<
    Seq<char>,
> {
    match overlay {
        Some(s) => Some(s),
        None => base,
    }
}

fn clone_strings(v: &Vec<String>) -> (r: Vec<String>)
    ensures
        strings_view(r) == strings_view(*v),
{
    let mut out: Vec<String> = Vec::new();
    let mut k: usize = 0;
    while k < v.len()
        invariant
            k <= v@.len(),
            out@.len() == k,
            forall|j: int| 0 <= j < k ==> #[trigger] out@[j]@ == v@[j]@,
        decreases v@.len() - k,
    {
        out.push(crate::strutil::clone_string(&v[k]));
        k = k + 1;
    }
    proof {
        assert(strings_view(out) =~= strings_view(*v));
    }
    out
}

fn merge_list(base: &Vec<String>, overlay: &Vec<String>) -> (r: Vec<String>)
    ensures
        strings_view(r) == merged_list(strings_view(*base), strings_view(*overlay)),
{
    if overlay.len() == 0 {
        clone_strings(base)
    } else {
        clone_strings(overlay)
    }
}

fn merge_str(base: &String, overlay: &String) -> (r: String)
    ensures
        r@ == merged_str(base@, overlay@),
{
    if overlay.as_str().unicode_len() == 0 {
        crate::strutil::clone_string(base)
    } else {
        crate::strutil::clone_string(overlay)
    }
}

fn clone_opt_string(o: &Option<String>) -> (r: Option<String>)
    ensures
        opt_str_view(r) == opt_str_view(*o),
{
    match o {
        Some(s) => Some(crate::strutil::clone_string(s)),
        None => None,
    }
}

fn merge_opt(base: &Option<String>, overlay: &Option<String>) -> (r: Option<String>)
    ensures
        opt_str_view(r) == merged_opt(opt_str_view(*base), opt_str_view(*overlay)),
{
    match overlay {
        Some(s) => Some(crate::strutil::clone_string(s)),
        None => clone_opt_string(base),
    }
}

/// How a merged access record relates to its base and overlay: each
/// list keeps the base's entries only where the overlay names none,
/// and the scalars are the overlay's.
pub open spec fn merged_access(base: AccessConfig, overlay: AccessConfig, r: AccessConfig) -> bool {
    &&& strings_view(r.allowed_paths) == merged_list(
        strings_view(base.allowed_paths),
        strings_view(overlay.allowed_paths),
    )
    &&& strings_view(r.read_only_paths) == merged_list(
        strings_view(base.read_only_paths),
        strings_view(overlay.read_only_paths),
    )
    &&& strings_view(r.denied_paths) == merged_list(
        strings_view(base.denied_paths),
        strings_view(overlay.denied_paths),
    )
    &&& strings_view(r.allowed_extensions) == merged_list(
        strings_view(base.allowed_extensions),
        strings_view(overlay.allowed_extensions),
    )
    &&& strings_view(r.denied_extensions) == merged_list(
        strings_view(base.denied_extensions),
        strings_view(overlay.denied_extensions),
    )
    &&& r.max_file_size == overlay.max_file_size
    &&& r.follow_symlinks == overlay.follow_symlinks
}

/// How a merged security record relates to its base and overlay: the
/// client list keeps the base's entries only where the overlay names
/// none; everything else is the overlay's.
pub open spec fn merged_security(
    base: SecurityConfig,
    overlay: SecurityConfig,
    r: SecurityConfig,
) -> bool {
    &&& r.key_file@ == overlay.key_file@
    &&& r.cert_file@ == overlay.cert_file@
    &&& r.enable_tls == overlay.enable_tls
    &&& r.verify_certs == overlay.verify_certs
    &&& r.session_timeout == overlay.session_timeout
    &&& r.enable_auth == overlay.enable_auth
    &&& strings_view(r.allowed_clients) == merged_list(
        strings_view(base.allowed_clients),
        strings_view(overlay.allowed_clients),
    )
}

/// How a merged logging record relates to its base and overlay: level
/// and format keep the base's value where the overlay's is empty, the
/// file paths keep it where the overlay sets none, the rest is the
/// overlay's.
pub open spec fn merged_logging(
    base: LoggingConfig,
    overlay: LoggingConfig,
    r: LoggingConfig,
) -> bool {
    &&& r.level@ == merged_str(base.level@, overlay.level@)
    &&& r.format@ == merged_str(base.format@, overlay.format@)
    &&& opt_str_view(r.file) == merged_opt(opt_str_view(base.file), opt_str_view(overlay.file))
    &&& r.max_file_size == overlay.max_file_size
    &&& r.max_files == overlay.max_files
    &&& r.enable_access_log == overlay.enable_access_log
    &&& opt_str_view(r.access_log_file) == merged_opt(
        opt_str_view(base.access_log_file),
        opt_str_view(overlay.access_log_file),
    )
}

/// How a merged performance record relates to its base and overlay:
/// zero worker or buffer settings of the overlay keep the base's
/// value, the rest is the overlay's.
pub open spec fn merged_performance(
    base: PerformanceConfig,
    overlay: PerformanceConfig,
    r: PerformanceConfig,
) -> bool {
    &&& r.worker_threads == (if overlay.worker_threads == 0 {
        base.worker_threads
    } else {
        overlay.worker_threads
    })
    &&& r.io_buffer_size == (if overlay.io_buffer_size == 0 {
        base.io_buffer_size
    } else {
        overlay.io_buffer_size
    })
    &&& r.async_io == overlay.async_io
    &&& r.fs_cache_size == overlay.fs_cache_size
    &&& r.enable_prefetch == overlay.enable_prefetch
    &&& r.prefetch_window == overlay.prefetch_window
}

fn merge_access_configs(base: &AccessConfig, overlay: &AccessConfig) -> (r: AccessConfig)
    ensures
        merged_access(*base, *overlay, r),
{
    AccessConfig {
        allowed_paths: merge_list(&base.allowed_paths, &overlay.allowed_paths),
        read_only_paths: merge_list(&base.read_only_paths, &overlay.read_only_paths),
        denied_paths: merge_list(&base.denied_paths, &overlay.denied_paths),
        max_file_size: overlay.max_file_size,
        follow_symlinks: overlay.follow_symlinks,
        allowed_extensions: merge_list(&base.allowed_extensions, &overlay.allowed_extensions),
        denied_extensions: merge_list(&base.denied_extensions, &overlay.denied_extensions),
    }
}

fn merge_security_configs(base: &SecurityConfig, overlay: &SecurityConfig) -> (r: SecurityConfig)
    ensures
        merged_security(*base, *overlay, r),
{
    SecurityConfig {
        key_file: crate::strutil::clone_string(&overlay.key_file),
        cert_file: crate::strutil::clone_string(&overlay.cert_file),
        enable_tls: overlay.enable_tls,
        verify_certs: overlay.verify_certs,
        session_timeout: overlay.session_timeout,
        enable_auth: overlay.enable_auth,
        allowed_clients: merge_list(&base.allowed_clients, &overlay.allowed_clients),
    }
}

fn merge_logging_configs(base: &LoggingConfig, overlay: &LoggingConfig) -> (r: LoggingConfig)
    ensures
        merged_logging(*base, *overlay, r),
{
    LoggingConfig {
        level: merge_str(&base.level, &overlay.level),
        format: merge_str(&base.format, &overlay.format),
        file: merge_opt(&base.file, &overlay.file),
        max_file_size: overlay.max_file_size,
        max_files: overlay.max_files,
        enable_access_log: overlay.enable_access_log,
        access_log_file: merge_opt(&base.access_log_file, &overlay.access_log_file),
    }
}

fn merge_performance_configs(
    base: &PerformanceConfig,
    overlay: &PerformanceConfig,
) -> (r: PerformanceConfig)
    ensures
        merged_performance(*base, *overlay, r),
{
    PerformanceConfig {
        worker_threads: if overlay.worker_threads == 0 {
            base.worker_threads
        } else {
            overlay.worker_threads
        },
        io_buffer_size: if overlay.io_buffer_size == 0 {
            base.io_buffer_size
        } else {
            overlay.io_buffer_size
        },
        async_io: overlay.async_io,
        fs_cache_size: overlay.fs_cache_size,
        enable_prefetch: overlay.enable_prefetch,
        prefetch_window: overlay.prefetch_window,
    }
}

/// Merge two configurations, the overlay taking precedence: an empty
/// id, URL, list or level of the overlay keeps the base's value, the
/// network record is the overlay's whole, and the nested records merge
/// field by field as the `merged_*` relations state.
pub fn merge_configs(base: &AgentConfig, overlay: &AgentConfig) -> (r: AgentConfig)
    ensures
        r.agent_id@ == merged_str(base.agent_id@, overlay.agent_id@),
        r.relay_url@ == merged_str(base.relay_url@, overlay.relay_url@),
        merged_access(base.access, overlay.access, r.access),
        merged_security(base.security, overlay.security, r.security),
        r.network == overlay.network,
        merged_logging(base.logging, overlay.logging, r.logging),
        merged_performance(base.performance, overlay.performance, r.performance),
{
    AgentConfig {
        agent_id: merge_str(&base.agent_id, &overlay.agent_id),
        relay_url: merge_str(&base.relay_url, &overlay.relay_url),
        access: merge_access_configs(&base.access, &overlay.access),
        security: merge_security_configs(&base.security, &overlay.security),
        network: overlay.network,
        logging: merge_logging_configs(&base.logging, &overlay.logging),
        performance: merge_performance_configs(&base.performance, &overlay.performance),
    }
}

} // verus!
