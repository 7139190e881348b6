//! The settings the relay runs with.

use vstd::prelude::*;
use crate::gate::{AdmissionPolicy, SessionGate};
use crate::pump::{FramePump, Leg, TerminationPolicy};

verus! {

/// Sessions allowed at once when the configuration names no limit.
pub const DEFAULT_MAX_CONN: usize = 1000;

/// Read timeout under [`TerminationPolicy::ReadTimeout`]: the idle threshold.
pub const IDLE_READ_TIMEOUT_MS: u64 = 10_000;

/// Read timeout under [`TerminationPolicy::IdleCount`]: one idle interval.
pub const POLL_READ_TIMEOUT_MS: u64 = 100;

/// Write timeout on both backend connections.
pub const WRITE_TIMEOUT_MS: u64 = 10;

/// Pause between admission attempts under [`AdmissionPolicy::Wait`].
pub const ADMISSION_BACKOFF_MS: u64 = 5;

/// The relay's configuration.
pub struct AppConfig {
    /// Address of the primary backend, whose replies go back to the client.
    pub primary: String,
    /// Address of the shadow backend, whose replies are dropped.
    pub shadow: String,
    /// Local port to listen on.
    pub port: String,
    /// Most sessions alive at once; [`DEFAULT_MAX_CONN`] when absent.
    pub max_conn: Option<usize>,
    /// Size of each pump's transfer buffer.
    pub buffer_size_bytes: usize,
    /// What to do with a connection while no slot is free.
    pub admission: AdmissionPolicy,
    /// When idle reads end a session.
    pub termination: TerminationPolicy,
}

/// The session limit a configuration asks for.
pub open spec fn max_sessions_of(max_conn: Option<usize>) -> nat {
    match max_conn {
        Some(n) => n as nat,
        None => DEFAULT_MAX_CONN as nat,
    }
}

/// The read timeout that goes with a termination policy, in milliseconds.
pub open spec fn read_timeout_of(t: TerminationPolicy) -> nat {
    match t {
        TerminationPolicy::ReadTimeout => IDLE_READ_TIMEOUT_MS as nat,
        TerminationPolicy::IdleCount(_) => POLL_READ_TIMEOUT_MS as nat,
    }
}

impl AppConfig {
    /// A configuration with the default policies: a full gate makes new
    /// connections wait, and the first read timeout ends a session.
    pub fn new(
        primary: String,
        shadow: String,
        port: String,
        max_conn: Option<usize>,
        buffer_size_bytes: usize,
    ) -> (c: AppConfig)
        ensures
            c.primary@ == primary@,
            c.shadow@ == shadow@,
            c.port@ == port@,
            c.max_conn == max_conn,
            c.buffer_size_bytes == buffer_size_bytes,
            c.admission == AdmissionPolicy::Wait,
            c.termination == TerminationPolicy::ReadTimeout,
    {
        AppConfig {
            primary,
            shadow,
            port,
            max_conn,
            buffer_size_bytes,
            admission: AdmissionPolicy::Wait,
            termination: TerminationPolicy::ReadTimeout,
        }
    }

    /// The same configuration under another admission policy.
    pub fn with_admission(self, admission: AdmissionPolicy) -> (c: AppConfig)
        ensures
            c.primary@ == self.primary@,
            c.shadow@ == self.shadow@,
            c.port@ == self.port@,
            c.max_conn == self.max_conn,
            c.buffer_size_bytes == self.buffer_size_bytes,
            c.admission == admission,
            c.termination == self.termination,
    {
        AppConfig { admission, ..self }
    }

    /// The same configuration under another termination policy.
    pub fn with_termination(self, termination: TerminationPolicy) -> (c: AppConfig)
        ensures
            c.primary@ == self.primary@,
            c.shadow@ == self.shadow@,
            c.port@ == self.port@,
            c.max_conn == self.max_conn,
            c.buffer_size_bytes == self.buffer_size_bytes,
            c.admission == self.admission,
            c.termination == termination,
    {
        AppConfig { termination, ..self }
    }

    /// The most sessions alive at once.
    pub fn max_sessions(&self) -> (n: usize)
        ensures
            n == max_sessions_of(self.max_conn),
    {
        match self.max_conn {
            Some(n) => n,
            None => DEFAULT_MAX_CONN,
        }
    }

    /// The address to bind: every interface, on the configured port.
    pub fn listen_address(&self) -> (a: String)
        ensures
            a@ == "0.0.0.0:"@ + self.port@,
    {
        let mut a = String::from_str("0.0.0.0:");
        a.append(self.port.as_str());
        a
    }

    /// The read timeout on every connection of a session, in milliseconds.
    pub fn read_timeout_ms(&self) -> (ms: u64)
        ensures
            ms == read_timeout_of(self.termination),
    {
        match self.termination {
            TerminationPolicy::ReadTimeout => IDLE_READ_TIMEOUT_MS,
            TerminationPolicy::IdleCount(_) => POLL_READ_TIMEOUT_MS,
        }
    }

    /// An empty gate sized by this configuration.
    pub fn new_gate(&self) -> (g: SessionGate)
        ensures
            g.live() == 0,
            g.limit() == max_sessions_of(self.max_conn),
    {
        SessionGate::new(self.max_sessions())
    }

    /// A fresh pump for `leg` under this configuration's termination policy.
    pub fn new_pump(&self, leg: Leg) -> (p: FramePump)
        ensures
            p == (FramePump { leg, policy: self.termination, idle: 0, ended: None }),
    {
        FramePump::new(leg, self.termination)
    }
}

} // verus!
