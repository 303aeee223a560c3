//! Startup configuration: verbosity, tunnel addressing, MTU and the
//! per-protocol idle timeouts. Immutable after startup and read-shared by
//! every component.

use crate::flow::{ipv4_value, Protocol};
use crate::pump::MIN_IP_HEADER_LEN;
use vstd::prelude::*;

verus! {

/// Verbosity level of the logger, as the command line names it.
#[derive(Default, Debug, Copy, Clone, PartialEq, Eq, PartialOrd, Ord, Structural)]
pub enum ArgVerbosity {
    Off,
    Error,
    Warn,
    #[default]
    Info,
    Debug,
    Trace,
}

/// The name of a verbosity level, as the logger's filter expects it.
pub open spec fn verbosity_name_spec(v: ArgVerbosity) -> Seq<char> {
    match v {
        ArgVerbosity::Off => "off"@,
        ArgVerbosity::Error => "error"@,
        ArgVerbosity::Warn => "warn"@,
        ArgVerbosity::Info => "info"@,
        ArgVerbosity::Debug => "debug"@,
        ArgVerbosity::Trace => "trace"@,
    }
}

impl ArgVerbosity {
    /// The level's name, for the logger's filter.
    pub fn name(&self) -> (r: &'static str)
        ensures
            r@ == verbosity_name_spec(*self),
    {
        match *self {
            ArgVerbosity::Off => "off",
            ArgVerbosity::Error => "error",
            ArgVerbosity::Warn => "warn",
            ArgVerbosity::Info => "info",
            ArgVerbosity::Debug => "debug",
            ArgVerbosity::Trace => "trace",
        }
    }
}

/// Default MTU for packets moved by the pump, in bytes.
pub const DEFAULT_MTU: usize = 1400;

/// Default TCP idle timeout, in seconds.
pub const DEFAULT_TCP_TIMEOUT_SECS: u64 = 10;

/// Default UDP idle timeout, in seconds.
pub const DEFAULT_UDP_TIMEOUT_SECS: u64 = 10;

/// How many reaper ticks should fit into the shortest idle timeout.
pub const REAPER_TICKS_PER_TIMEOUT: u64 = 5;

/// Startup configuration, immutable thereafter.
#[derive(Clone, Copy, PartialEq, Eq, Structural, Debug)]
pub struct Config {
    pub verbosity: ArgVerbosity,
    pub tunnel_addr: u32,
    pub tunnel_netmask: u32,
    pub mtu: usize,
    pub tcp_timeout_secs: u64,
    pub udp_timeout_secs: u64,
}

impl Config {
    /// A configuration is usable if its MTU admits at least an IP header.
    pub open spec fn wf(self) -> bool {
        MIN_IP_HEADER_LEN <= self.mtu
    }

    /// The idle timeout a protocol's sessions are configured with.
    pub open spec fn timeout_spec(self, p: Protocol) -> u64 {
        match p {
            Protocol::Tcp => self.tcp_timeout_secs,
            Protocol::Udp => self.udp_timeout_secs,
        }
    }

    /// Returns the idle timeout for one protocol's sessions.
    pub fn timeout_for(&self, p: Protocol) -> (r: u64)
        ensures
            r == self.timeout_spec(p),
    {
        match p {
            Protocol::Tcp => self.tcp_timeout_secs,
            Protocol::Udp => self.udp_timeout_secs,
        }
    }

    /// The reaper's tick interval: the smaller idle timeout divided by
    /// `REAPER_TICKS_PER_TIMEOUT`, never less than one second.
    pub open spec fn reaper_interval_spec(self) -> int {
        let shorter = if self.tcp_timeout_secs <= self.udp_timeout_secs {
            self.tcp_timeout_secs
        } else {
            self.udp_timeout_secs
        };
        if (shorter as int / REAPER_TICKS_PER_TIMEOUT as int) < 1 {
            1
        } else {
            shorter as int / REAPER_TICKS_PER_TIMEOUT as int
        }
    }

    /// Returns the interval, in seconds, at which the reaper scans the
    /// registry.
    pub fn reaper_interval_secs(&self) -> (r: u64)
        ensures
            r == self.reaper_interval_spec(),
    {
        let shorter = if self.tcp_timeout_secs <= self.udp_timeout_secs {
            self.tcp_timeout_secs
        } else {
            self.udp_timeout_secs
        };
        let ticks = shorter / REAPER_TICKS_PER_TIMEOUT;
        if ticks < 1 {
            1
        } else {
            ticks
        }
    }
}

impl Default for Config {
    /// The defaults the bridge starts with: tunnel side `10.0.0.1/24`,
    /// MTU 1400, ten-second idle timeouts, informational logging.
    fn default() -> (r: Config)
        ensures
            r.verbosity == ArgVerbosity::Info,
            r.tunnel_addr == ipv4_value(10, 0, 0, 1),
            r.tunnel_netmask == ipv4_value(255, 255, 255, 0),
            r.mtu == DEFAULT_MTU,
            r.tcp_timeout_secs == DEFAULT_TCP_TIMEOUT_SECS,
            r.udp_timeout_secs == DEFAULT_UDP_TIMEOUT_SECS,
            r.wf(),
    {
        Config {
            verbosity: ArgVerbosity::Info,
            tunnel_addr: crate::flow::ipv4(10, 0, 0, 1),
            tunnel_netmask: crate::flow::ipv4(255, 255, 255, 0),
            mtu: DEFAULT_MTU,
            tcp_timeout_secs: DEFAULT_TCP_TIMEOUT_SECS,
            udp_timeout_secs: DEFAULT_UDP_TIMEOUT_SECS,
        }
    }
}

} // verus!
