//! Detected sessions, and the backends that find them.

use std::path::PathBuf;
use vstd::prelude::*;

verus! {

/// How a session was started.
#[derive(Debug, Clone, Copy, PartialEq, Eq, Structural)]
pub enum SessionKind {
    Interactive,
    Background,
}

/// What the agent registry says a session is doing.
#[derive(Debug, Clone, Copy, PartialEq, Eq, Structural)]
pub enum CliActivity {
    Busy,
    Idle,
}

/// One running session, as a backend reports it.
#[derive(Debug)]
pub struct DetectedSession {
    pub pid: u32,
    pub cwd: PathBuf,
    pub project_path: PathBuf,
    pub session_id: Option<String>,
    pub project_name: String,
    pub kind: SessionKind,
    pub started_at_ms: Option<u64>,
    pub official_name: Option<String>,
    pub cli_activity: Option<CliActivity>,
}

impl DetectedSession {
    /// The session id, if the backend found one.
    pub open spec fn sid(&self) -> Option<Seq<char>> {
        match self.session_id {
            Some(id) => Some(id@),
            None => None,
        }
    }

    /// A session found by process scanning, which knows nothing of the metadata
    /// that only the agent registry has.
    pub fn with_legacy_defaults(
        pid: u32,
        cwd: PathBuf,
        project_path: PathBuf,
        session_id: Option<String>,
        project_name: String,
    ) -> (session: Self)
        ensures
            session.pid == pid,
            session.cwd == cwd,
            session.project_path == project_path,
            session.session_id == session_id,
            session.project_name == project_name,
            session.kind == SessionKind::Interactive,
            session.started_at_ms is None,
            session.official_name is None,
            session.cli_activity is None,
    {
        DetectedSession {
            pid,
            cwd,
            project_path,
            session_id,
            project_name,
            kind: SessionKind::Interactive,
            started_at_ms: None,
            official_name: None,
            cli_activity: None,
        }
    }
}

/// A backend that finds the running sessions.
pub trait SessionSource: Sized {
    /// What a backend reports beside the sessions (process counts and the like).
    type Diagnostics;

    /// Why a detection failed.
    type Error;

    /// Whether one detection may take the backend from `self` to `after` and return
    /// `result`. Each backend says for itself what its detections may do; one that
    /// says nothing may do anything.
    open spec fn may_detect(
        self,
        after: Self,
        result: Result<(Vec<DetectedSession>, Self::Diagnostics), Self::Error>,
    ) -> bool {
        true
    }

    /// Run one detection.
    fn detect(&mut self) -> (result: Result<
        (Vec<DetectedSession>, Self::Diagnostics),
        Self::Error,
    >)
        ensures
            old(self).may_detect(*final(self), result),
    ;

    /// A short name for logs.
    fn backend_name(&self) -> &'static str;
}

/// A session found by process scanning is the process and the paths that were found,
/// with none of the metadata that only the agent registry has.
pub proof fn law_legacy_session_is_what_was_found(
    pid: u32,
    cwd: PathBuf,
    project_path: PathBuf,
    session_id: Option<String>,
    project_name: String,
    session: DetectedSession,
)
    requires
        call_ensures(
            DetectedSession::with_legacy_defaults,
            (pid, cwd, project_path, session_id, project_name),
            session,
        ),
    ensures
        session == (DetectedSession {
            pid,
            cwd,
            project_path,
            session_id,
            project_name,
            kind: SessionKind::Interactive,
            started_at_ms: None,
            official_name: None,
            cli_activity: None,
        }),
{
}

} // verus!
