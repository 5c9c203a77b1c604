use c9watch::session::merged::{combine_detections, merge_sessions, MergedSessionSource};
use c9watch::session::source::{CliActivity, DetectedSession, SessionKind, SessionSource};
use std::path::PathBuf;

fn cli_session(pid: u32, sid: &str) -> DetectedSession {
    DetectedSession {
        pid,
        cwd: PathBuf::from("/tmp"),
        project_path: PathBuf::from("/tmp/proj"),
        session_id: Some(sid.to_string()),
        project_name: "proj".to_string(),
        kind: SessionKind::Interactive,
        started_at_ms: Some(1),
        official_name: Some("cli-name".to_string()),
        cli_activity: Some(CliActivity::Busy),
    }
}

fn legacy_session(pid: u32, sid: Option<&str>) -> DetectedSession {
    DetectedSession::with_legacy_defaults(
        pid,
        PathBuf::from("/tmp"),
        PathBuf::from("/tmp/proj"),
        sid.map(|s| s.to_string()),
        "proj".to_string(),
    )
}

fn pids(sessions: &[DetectedSession]) -> Vec<u32> {
    sessions.iter().map(|s| s.pid).collect()
}

#[test]
fn merges_disjoint_sessions() {
    let cli = vec![cli_session(1, "a")];
    let legacy = vec![legacy_session(2, Some("b"))];
    let out = merge_sessions(cli, legacy);
    assert_eq!(out.len(), 2);
}

#[test]
fn dedups_same_session_id_keeping_cli_entry() {
    let cli = vec![cli_session(1, "a")];
    let legacy = vec![legacy_session(1, Some("a"))];
    let out = merge_sessions(cli, legacy);
    assert_eq!(out.len(), 1);
    // CLI entry wins: its richer metadata is preserved.
    assert_eq!(out[0].official_name.as_deref(), Some("cli-name"));
    assert_eq!(out[0].cli_activity, Some(CliActivity::Busy));
}

#[test]
fn dedups_same_pid_even_when_session_id_differs() {
    let cli = vec![cli_session(1, "a")];
    // Same pid, no/other session id: still treated as the same process.
    let legacy = vec![legacy_session(1, None)];
    let out = merge_sessions(cli, legacy);
    assert_eq!(out.len(), 1);
}

#[test]
fn appends_legacy_only_sessions() {
    // Sessions the CLI registry missed (e.g. older build / elevated) appear.
    let cli = vec![cli_session(1, "a")];
    let legacy = vec![
        legacy_session(1, Some("a")), // dup, dropped
        legacy_session(2, Some("b")), // new
        legacy_session(3, None),      // new, no session id
    ];
    let out = merge_sessions(cli, legacy);
    assert_eq!(out.len(), 3);
    let pids: Vec<u32> = out.iter().map(|s| s.pid).collect();
    assert!(pids.contains(&2) && pids.contains(&3));
}

#[test]
fn empty_inputs_yield_empty() {
    assert!(merge_sessions(vec![], vec![]).is_empty());
}

#[test]
fn dedups_same_session_id_under_another_pid() {
    let out = merge_sessions(vec![cli_session(1, "a")], vec![legacy_session(7, Some("a"))]);
    assert_eq!(pids(&out), vec![1]);
}

#[test]
fn cli_duplicates_are_kept() {
    let out = merge_sessions(vec![cli_session(1, "a"), cli_session(1, "a")], vec![]);
    assert_eq!(pids(&out), vec![1, 1]);
}

#[test]
fn legacy_duplicates_are_dropped_and_order_is_kept() {
    let out = merge_sessions(
        vec![cli_session(9, "z")],
        vec![
            legacy_session(5, Some("e")),
            legacy_session(4, None),
            legacy_session(6, Some("e")),
            legacy_session(4, Some("f")),
            legacy_session(3, Some("f")),
        ],
    );
    // "f" came with a dropped entry, so it was not seen when pid 3 arrived.
    assert_eq!(pids(&out), vec![9, 5, 4, 3]);
}

#[test]
fn missing_session_ids_are_not_equal() {
    let out = merge_sessions(vec![], vec![legacy_session(1, None), legacy_session(2, None)]);
    assert_eq!(pids(&out), vec![1, 2]);
}

#[test]
fn merging_in_batches_and_again() {
    let first = || vec![legacy_session(1, Some("a")), legacy_session(2, Some("b"))];
    let second = || vec![legacy_session(2, Some("c")), legacy_session(3, Some("a"))];
    let mut all = first();
    all.extend(second());
    let cli = || vec![cli_session(8, "x")];
    let at_once = merge_sessions(cli(), all);
    let batches = merge_sessions(merge_sessions(cli(), first()), second());
    assert_eq!(pids(&at_once), vec![8, 1, 2]);
    assert_eq!(pids(&batches), pids(&at_once));
    assert_eq!(pids(&merge_sessions(batches, second())), vec![8, 1, 2]);
}

#[test]
fn legacy_defaults() {
    let s = legacy_session(4, Some("id"));
    assert_eq!(s.pid, 4);
    assert_eq!(s.cwd, PathBuf::from("/tmp"));
    assert_eq!(s.project_path, PathBuf::from("/tmp/proj"));
    assert_eq!(s.session_id.as_deref(), Some("id"));
    assert_eq!(s.project_name, "proj");
    assert_eq!(s.kind, SessionKind::Interactive);
    assert_eq!(s.started_at_ms, None);
    assert_eq!(s.official_name, None);
    assert_eq!(s.cli_activity, None);
}

type Detection = Result<(Vec<DetectedSession>, u32), String>;

fn ok(pid: u32, diagnostics: u32) -> Detection {
    Ok((vec![legacy_session(pid, None)], diagnostics))
}

fn failed(message: &str) -> Detection {
    Err(message.to_string())
}

fn summary(detection: Detection) -> Result<(Vec<u32>, u32), String> {
    detection.map(|(sessions, diagnostics)| (pids(&sessions), diagnostics))
}

#[test]
fn both_backends_are_merged_with_legacy_diagnostics() {
    let out = combine_detections(ok(1, 10), Some(ok(2, 20)));
    assert_eq!(summary(out), Ok((vec![1, 2], 20)));
}

#[test]
fn cli_alone_where_legacy_is_absent_or_failed() {
    let absent: Option<Detection> = None;
    assert_eq!(summary(combine_detections(ok(1, 10), absent)), Ok((vec![1], 10)));
    assert_eq!(summary(combine_detections(ok(1, 10), Some(failed("l")))), Ok((vec![1], 10)));
}

#[test]
fn legacy_alone_where_cli_failed() {
    assert_eq!(summary(combine_detections(failed("c"), Some(ok(2, 20)))), Ok((vec![2], 20)));
}

#[test]
fn cli_error_where_both_failed() {
    let absent: Option<Detection> = None;
    assert_eq!(summary(combine_detections(failed("c"), absent)), Err("c".to_string()));
    assert_eq!(
        summary(combine_detections(failed("c"), Some(failed("l")))),
        Err("c".to_string())
    );
}

/// A backend that finds one more session at each detection.
struct Counting {
    base: u32,
    runs: u32,
}

impl SessionSource for Counting {
    type Diagnostics = u32;
    type Error = String;

    fn detect(&mut self) -> Detection {
        self.runs += 1;
        ok(self.base + self.runs, self.runs)
    }

    fn backend_name(&self) -> &'static str {
        "counting"
    }
}

#[test]
fn merged_source_runs_both_backends_each_cycle() {
    let legacy: Result<Counting, String> = Ok(Counting { base: 200, runs: 4 });
    let mut source = MergedSessionSource::new(Counting { base: 100, runs: 0 }, legacy);
    assert_eq!(source.backend_name(), "merged");
    assert_eq!(summary(source.detect()), Ok((vec![101, 205], 5)));
    assert_eq!(summary(source.detect()), Ok((vec![102, 206], 6)));
}

#[test]
fn merged_source_without_legacy_backend() {
    let legacy: Result<Counting, String> = Err("no home directory".to_string());
    let mut source = MergedSessionSource::new(Counting { base: 100, runs: 0 }, legacy);
    assert_eq!(summary(source.detect()), Ok((vec![101], 1)));
}
