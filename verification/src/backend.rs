//! How the test tooling spawns, reaches and stops one daemon instance:
//! the backend's configuration and errors, and the decisions of the
//! handshake wait. The process handling itself is done by the caller.

use std::io;
use std::path::PathBuf;

use uuid::Uuid;
use vstd::prelude::*;

use crate::domain::node_id::{
    hyphenated_text, is_random_v4, random_v4_value, uuid_from_value, uuid_text, uuid_to_value,
    uuid_value,
};
use crate::handshake::{spec_endpoint, HandshakeInfo};

verus! {

/// How long to wait for a spawned instance's handshake, in seconds.
pub const HANDSHAKE_TIMEOUT_SECS: u64 = 5;

/// How long to sleep between two looks for the handshake, in
/// milliseconds.
pub const HANDSHAKE_POLL_INTERVAL_MILLIS: u64 = 50;

/// What a backend needs to spawn one node.
pub struct NodeConfig {
    pub data_dir: PathBuf,
    /// The identifier of the test run the node belongs to.
    pub test_run_id: Uuid,
}

impl NodeConfig {
    /// The test-run identifier as handed to the daemon: its hyphenated
    /// lower-case text.
    pub fn test_run_id_text(&self) -> (text: String)
        ensures
            text@ == hyphenated_text(uuid_value(self.test_run_id)),
    {
        uuid_text(uuid_to_value(self.test_run_id))
    }
}

/// A fresh, random (version 4) test-run identifier, shared by every node
/// of one cluster.
pub fn new_test_run_id() -> (id: Uuid)
    ensures
        is_random_v4(uuid_value(id)),
{
    uuid_from_value(random_v4_value())
}

/// Every way spawning or reaching an instance can fail.
#[derive(Debug)]
pub enum BackendError {
    /// The instance could not be spawned or connected to.
    Spawn(String),
    /// The instance never became reachable within the timeout.
    HandshakeTimeout,
    /// The handshake file could not be parsed.
    HandshakeParse(String),
    /// An I/O error.
    Io(io::Error),
}

/// The result of one look for the handshake file.
pub enum HandshakeRead {
    /// The file could not be read (it is not written yet).
    Missing,
    /// The file was read but did not parse; the parser's message.
    Malformed(String),
    /// The file was read and parsed.
    Ready(HandshakeInfo),
}

/// What to do after one look for the handshake.
pub enum HandshakePoll {
    /// The instance is reachable at this endpoint.
    Reachable(String),
    /// Waiting is over, with this error.
    Failed(BackendError),
    /// Sleep for the poll interval and look again.
    Wait,
}

/// The decision after one look for the handshake: a parsed handshake
/// gives the endpoint and a malformed one a parse error, whatever the
/// time; a missing one is waited for until the deadline has passed, and
/// then gives a timeout.
pub fn poll_handshake(read: HandshakeRead, deadline_passed: bool) -> (poll: HandshakePoll)
    ensures
        match read {
            HandshakeRead::Ready(info) => poll matches HandshakePoll::Reachable(url) && url@
                == spec_endpoint(info.grpc_port),
            HandshakeRead::Malformed(message) => poll matches HandshakePoll::Failed(
                BackendError::HandshakeParse(m),
            ) && m == message,
            HandshakeRead::Missing => if deadline_passed {
                poll matches HandshakePoll::Failed(BackendError::HandshakeTimeout)
            } else {
                poll is Wait
            },
        },
{
    match read {
        HandshakeRead::Ready(info) => HandshakePoll::Reachable(info.grpc_endpoint()),
        HandshakeRead::Malformed(message) => HandshakePoll::Failed(
            BackendError::HandshakeParse(message),
        ),
        HandshakeRead::Missing => {
            if deadline_passed {
                HandshakePoll::Failed(BackendError::HandshakeTimeout)
            } else {
                HandshakePoll::Wait
            }
        },
    }
}

/// Spawns the compiled daemon binary as a separate OS process.
pub struct ProcessBackend {
    daemon_binary: PathBuf,
}

impl ProcessBackend {
    /// The daemon binary this backend runs.
    pub closed spec fn spec_daemon_binary(&self) -> PathBuf {
        self.daemon_binary
    }

    /// A backend that runs the daemon binary at `daemon_binary`.
    pub fn new<P: Into<PathBuf>>(daemon_binary: P) -> (backend: Self)
        ensures
            call_ensures(P::into, (daemon_binary,), backend.spec_daemon_binary()),
    {
        ProcessBackend { daemon_binary: daemon_binary.into() }
    }

    /// The daemon binary this backend runs.
    pub fn daemon_binary(&self) -> (path: &PathBuf)
        ensures
            *path == self.spec_daemon_binary(),
    {
        &self.daemon_binary
    }
}

} // verus!
