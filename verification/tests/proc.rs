use c9watch::proc::{
    parent_pid, process_alive, resolve_claude, signal_target, which_windows, LivenessProbe,
    ProcessRecord, ProcessTree, SearchStep, STILL_ACTIVE,
};
use std::path::PathBuf;

#[test]
fn pid_zero_is_not_alive() {
    assert!(!process_alive(0, LivenessProbe::Signal { status: 0, denied: false }));
    assert!(!process_alive(0, LivenessProbe::NotOpened { denied: true }));
    assert!(!process_alive(0, LivenessProbe::Opened { exit_code: Some(STILL_ACTIVE) }));
    assert_eq!(signal_target(0), None);
}

#[test]
fn signalled_process_is_alive_unless_it_is_missing() {
    assert!(process_alive(42, LivenessProbe::Signal { status: 0, denied: false }));
    assert!(!process_alive(42, LivenessProbe::Signal { status: -1, denied: false }));
}

#[test]
fn process_that_may_not_be_touched_is_alive() {
    assert!(process_alive(1, LivenessProbe::Signal { status: -1, denied: true }));
    assert!(process_alive(4, LivenessProbe::NotOpened { denied: true }));
}

#[test]
fn opened_process_is_alive_while_it_has_no_exit_code() {
    assert!(process_alive(42, LivenessProbe::Opened { exit_code: Some(259) }));
    assert!(!process_alive(42, LivenessProbe::Opened { exit_code: Some(0) }));
    assert!(!process_alive(42, LivenessProbe::Opened { exit_code: None }));
    assert!(!process_alive(42, LivenessProbe::NotOpened { denied: false }));
    assert!(!process_alive(42, LivenessProbe::Unavailable));
}

#[test]
fn pids_beyond_the_signed_range_are_not_alive_on_unix() {
    for pid in [1u32, 42, 0x7fff_ffff] {
        assert_eq!(signal_target(pid), Some(pid as i32));
    }
    for pid in [0x8000_0000u32, u32::MAX] {
        assert_eq!(signal_target(pid), None);
        assert!(!process_alive(pid, LivenessProbe::Signal { status: 0, denied: false }));
        assert!(!process_alive(pid, LivenessProbe::Signal { status: -1, denied: true }));
        assert!(!process_alive(pid, LivenessProbe::Unavailable));
    }
}

fn record(pid: u32, parent: Option<u32>, name: &str, exe: Option<&str>) -> ProcessRecord {
    ProcessRecord {
        pid,
        parent,
        name: name.to_string(),
        exe: exe.map(|e| e.to_string()),
    }
}

#[test]
fn snapshot_gives_back_the_records() {
    let tree = ProcessTree::from_records(vec![
        record(1, Some(0), "init", None),
        record(7, Some(1), "node", Some("/usr/bin/node")),
        record(8, Some(8), "odd", None),
        record(9, None, "kthread", None),
    ]);
    assert_eq!(tree.parent(1), None);
    assert_eq!(tree.parent(7), Some(1));
    assert_eq!(tree.parent(8), None);
    assert_eq!(tree.parent(9), None);
    assert_eq!(tree.parent(10), None);
    assert_eq!(tree.name(7), Some("node"));
    assert_eq!(tree.name(10), None);
    assert_eq!(tree.exe(7), Some("/usr/bin/node"));
    assert_eq!(tree.exe(1), None);
}

#[test]
fn later_records_of_a_pid_count() {
    let tree = ProcessTree::from_records(vec![
        record(7, Some(1), "old", Some("/old")),
        record(7, None, "new", None),
    ]);
    assert_eq!(tree.name(7), Some("new"));
    assert_eq!(tree.parent(7), Some(1));
    assert_eq!(tree.exe(7), Some("/old"));
}

#[test]
fn snapshot_names_the_running_processes() {
    // This test is a running process, so at least one has a name.
    let tree = ProcessTree::capture();
    let known: Vec<u32> = (0..=4_194_304).filter(|pid| tree.name(*pid).is_some()).collect();
    assert!(!known.is_empty());
    for pid in known {
        let parent = tree.parent(pid);
        assert!(parent != Some(0) && parent != Some(pid));
    }
}

#[test]
fn parent_is_never_zero_or_the_process_itself() {
    assert_eq!(parent_pid(u32::MAX), None);
    let parent = parent_pid(1);
    assert!(parent != Some(0) && parent != Some(1));
}

/// Runs the search for `x` where these candidates are files; also lists what it asked.
fn search(dirs: usize, files: &[(usize, &str)]) -> (Option<(usize, String)>, Vec<String>) {
    let mut answers = vec![];
    let mut asked = vec![];
    loop {
        match which_windows("x", dirs, &answers) {
            SearchStep::Probe { dir, name } => {
                asked.push(format!("{}/{}", dir, name));
                answers.push(files.contains(&(dir, name.as_str())));
            }
            SearchStep::Found { dir, name } => return (Some((dir, name)), asked),
            SearchStep::Missing => return (None, asked),
        }
    }
}

#[test]
fn windows_search_takes_the_first_file() {
    let (found, asked) = search(3, &[(2, "x.exe"), (1, "x.bat"), (1, "x.cmd")]);
    assert_eq!(found, Some((1, "x.cmd".to_string())));
    assert_eq!(asked, vec!["0/x.exe", "0/x.cmd", "0/x.bat", "1/x.exe", "1/x.cmd"]);
    let (found, asked) = search(2, &[(0, "x.exe"), (0, "x.cmd")]);
    assert_eq!(found, Some((0, "x.exe".to_string())));
    assert_eq!(asked, vec!["0/x.exe"]);
    assert_eq!(search(1, &[(0, "x.bat")]).0, Some((0, "x.bat".to_string())));
}

#[test]
fn windows_search_may_find_nothing() {
    assert_eq!(search(0, &[]), (None, vec![]));
    let (found, asked) = search(2, &[(0, "y.exe")]);
    assert_eq!(found, None);
    assert_eq!(asked.len(), 6);
}

#[test]
fn executable_is_what_was_found_or_the_bare_name() {
    assert_eq!(resolve_claude("agent", None), PathBuf::from("agent"));
    let found = PathBuf::from("C:/npm/agent.cmd");
    assert_eq!(resolve_claude("agent", Some(found.clone())), found);
}
