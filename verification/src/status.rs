//! What an agent reports about itself: filesystem, connection and
//! access counters, gathered into one status record.  Timestamps are
//! held as milliseconds since the Unix epoch.

use vstd::prelude::*;
use crate::access::AccessControlStatistics;

verus! {

/// Counters of filesystem work done so far.
#[derive(Debug, Clone, Copy, PartialEq, Eq, Structural)]
pub struct FilesystemStatistics {
    pub active_operations: usize,
    pub total_operations: u64,
    pub error_count: u64,
    pub bytes_read: u64,
    pub bytes_written: u64,
}

/// Counters of relay traffic, and the last heartbeat seen.
#[derive(Debug, Clone, Copy, PartialEq, Eq, Structural)]
pub struct ConnectionStatistics {
    pub messages_sent: u64,
    pub messages_received: u64,
    pub reconnection_count: u32,
    pub last_heartbeat_millis: Option<u64>,
}

/// One agent's full status report.
#[derive(Debug, Clone)]
pub struct AgentStatus {
    pub agent_id: String,
    pub connected: bool,
    pub uptime_seconds: u64,
    pub filesystem_stats: FilesystemStatistics,
    pub connection_stats: ConnectionStatistics,
    pub access_control_stats: AccessControlStatistics,
}

} // verus!
