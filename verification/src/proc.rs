//! Small cross-platform process helpers.
//!
//! The parent/name lookups go through a snapshot of the process table taken with
//! `sysinfo`, so they work identically on macOS, Linux, and Windows. Asking the
//! operating system whether a single process is there, and searching `PATH`, are
//! left to the caller: the functions here decide what to ask and what the answers
//! mean.

use crate::path::path_from_text;
use std::collections::HashMap;
use std::path::PathBuf;
use vstd::prelude::*;

verus! {

broadcast use vstd::std_specs::hash::group_hash_axioms;

/// The exit code that Windows reports for a process that is still running.
pub const STILL_ACTIVE: u32 = 259;

/// What the operating system said when asked about a process.
#[derive(Debug, Clone, Copy, PartialEq, Eq, Structural)]
pub enum LivenessProbe {
    /// Unix: what `kill(pid, 0)` returned, and whether it failed for want of
    /// permission, which only a process that exists can bring about.
    Signal { status: i32, denied: bool },
    /// Windows: the process could not be opened, for want of permission or because
    /// there is none.
    NotOpened { denied: bool },
    /// Windows: the process was opened; its exit code, if it could be read.
    Opened { exit_code: Option<u32> },
    /// There is no way to ask on this platform.
    Unavailable,
}

impl LivenessProbe {
    /// Whether the answer says that the process `pid` exists. On Unix a pid is a
    /// signed number, so no process has one above `i32::MAX`.
    pub open spec fn says_alive(self, pid: u32) -> bool {
        match self {
            LivenessProbe::Signal { status, denied } => pid <= i32::MAX && (status == 0 || denied),
            LivenessProbe::NotOpened { denied } => denied,
            LivenessProbe::Opened { exit_code } => exit_code == Some(STILL_ACTIVE),
            LivenessProbe::Unavailable => false,
        }
    }
}

/// The process that `kill(_, 0)` is to be asked about for `pid`, as the signed
/// number that it takes. `None` for the pids that no process has, and about which it
/// must not be asked: 0 would name the caller's own group, and a pid above `i32::MAX`,
/// taken as a signed number, some other group or every process.
pub fn signal_target(pid: u32) -> (target: Option<i32>)
    ensures
        target == (if pid == 0 || pid > i32::MAX {
            None
        } else {
            Some(pid as i32)
        }),
{
    if pid == 0 || pid > 0x7fff_ffff {
        None
    } else {
        Some(pid as i32)
    }
}

/// Returns `true` if a process with `pid` currently exists, given what the
/// operating system answered when asked about it. A process that the caller may not
/// signal or open exists all the same. Pid 0 never does.
pub fn process_alive(pid: u32, probe: LivenessProbe) -> (alive: bool)
    ensures
        alive == (pid != 0 && probe.says_alive(pid)),
{
    if pid == 0 {
        return false;
    }
    match probe {
        LivenessProbe::Signal { status, denied } => pid <= 0x7fff_ffff && (status == 0 || denied),
        LivenessProbe::NotOpened { denied } => denied,
        LivenessProbe::Opened { exit_code } => match exit_code {
            Some(code) => code == STILL_ACTIVE,
            None => false,
        },
        LivenessProbe::Unavailable => false,
    }
}

/// One process, as the snapshot sees it.
#[derive(Debug)]
pub struct ProcessRecord {
    pub pid: u32,
    pub parent: Option<u32>,
    pub name: String,
    pub exe: Option<String>,
}

/// The parent pids that `records` give; of two records of one pid the later counts.
pub open spec fn parents_of(records: Seq<ProcessRecord>) -> Map<u32, u32>
    decreases records.len(),
{
    if records.len() == 0 {
        Map::empty()
    } else {
        let before = parents_of(records.drop_last());
        match records.last().parent {
            Some(parent) => before.insert(records.last().pid, parent),
            None => before,
        }
    }
}

/// The process names that `records` give; of two records of one pid the later counts.
pub open spec fn names_of(records: Seq<ProcessRecord>) -> Map<u32, Seq<char>>
    decreases records.len(),
{
    if records.len() == 0 {
        Map::empty()
    } else {
        names_of(records.drop_last()).insert(records.last().pid, records.last().name@)
    }
}

/// The executable paths that `records` give; of two records of one pid the later
/// counts.
pub open spec fn exes_of(records: Seq<ProcessRecord>) -> Map<u32, Seq<char>>
    decreases records.len(),
{
    if records.len() == 0 {
        Map::empty()
    } else {
        let before = exes_of(records.drop_last());
        match records.last().exe {
            Some(exe) => before.insert(records.last().pid, exe@),
            None => before,
        }
    }
}

/// The parent of `pid` in `parents`; a process is never its own parent, and pid 0
/// is nobody's.
pub open spec fn parent_in(parents: Map<u32, u32>, pid: u32) -> Option<u32> {
    if parents.contains_key(pid) && parents[pid] != 0 && parents[pid] != pid {
        Some(parents[pid])
    } else {
        None
    }
}

/// What stands in `texts` under `pid`.
pub open spec fn text_in(texts: Map<u32, Seq<char>>, pid: u32) -> Option<Seq<char>> {
    if texts.contains_key(pid) {
        Some(texts[pid])
    } else {
        None
    }
}

/// A text that may be absent, as the characters it holds.
pub open spec fn opt_text(text: Option<&str>) -> Option<Seq<char>> {
    match text {
        Some(s) => Some(s@),
        None => None,
    }
}

/// A one-shot snapshot of the running process table: parent PID, process name,
/// and (where available) the full executable path for every process.
///
/// Capturing once and walking the in-memory maps avoids spawning `ps` per
/// ancestor and works on Windows where `ps` is absent.
pub struct ProcessTree {
    parents: HashMap<u32, u32>,
    names: HashMap<u32, String>,
    exes: HashMap<u32, String>,
}

/// The characters of each text of a map.
spec fn texts(map: Map<u32, String>) -> Map<u32, Seq<char>> {
    map.map_values(|s: String| s@)
}

impl ProcessTree {
    /// The recorded parent pids.
    pub closed spec fn parents(&self) -> Map<u32, u32> {
        self.parents@
    }

    /// The recorded process names.
    pub closed spec fn names(&self) -> Map<u32, Seq<char>> {
        texts(self.names@)
    }

    /// The recorded executable paths.
    pub closed spec fn exes(&self) -> Map<u32, Seq<char>> {
        texts(self.exes@)
    }

    /// Whether the snapshot holds exactly what `records` say.
    pub open spec fn built_from(&self, records: Seq<ProcessRecord>) -> bool {
        &&& self.parents() == parents_of(records)
        &&& self.names() == names_of(records)
        &&& self.exes() == exes_of(records)
    }

    /// Whether every process of which the parent or the executable is known has a
    /// name too.
    pub open spec fn wf(&self) -> bool {
        &&& self.parents().dom().subset_of(self.names().dom())
        &&& self.exes().dom().subset_of(self.names().dom())
    }

    /// The snapshot that a list of processes makes.
    pub fn from_records(records: Vec<ProcessRecord>) -> (tree: Self)
        ensures
            tree.built_from(records@),
            tree.wf(),
    {
        let mut parents: HashMap<u32, u32> = HashMap::new();
        let mut names: HashMap<u32, String> = HashMap::new();
        let mut exes: HashMap<u32, String> = HashMap::new();
        let ghost all = records@;
        assert(all.take(0) =~= Seq::empty());
        assert(texts(names@) =~= Map::empty());
        assert(texts(exes@) =~= Map::empty());
        for record in it: records
            invariant
                it.seq() == all,
                parents@ == parents_of(all.take(it.index() as int)),
                texts(names@) == names_of(all.take(it.index() as int)),
                texts(exes@) == exes_of(all.take(it.index() as int)),
        {
            let ghost k = it.index() as int;
            let ghost old_names = names@;
            let ghost old_exes = exes@;
            let ProcessRecord { pid, parent, name, exe } = record;
            proof {
                assert(all.take(k + 1).drop_last() =~= all.take(k));
                assert(texts(old_names.insert(pid, name)) =~= texts(old_names).insert(pid, name@));
                if exe is Some {
                    assert(texts(old_exes.insert(pid, exe->0)) =~= texts(old_exes).insert(
                        pid,
                        exe->0@,
                    ));
                }
            }
            if let Some(parent) = parent {
                parents.insert(pid, parent);
            }
            names.insert(pid, name);
            if let Some(exe) = exe {
                exes.insert(pid, exe);
            }
        }
        assert(all.take(all.len() as int) =~= all);
        let tree = ProcessTree { parents, names, exes };
        proof {
            lemma_built_is_wf(all);
        }
        tree
    }

    /// A snapshot of the processes that run now.
    pub fn capture() -> (tree: Self)
        ensures
            exists|records: Seq<ProcessRecord>| #[trigger]
                table_read(records) && tree.built_from(records),
            tree.wf(),
    {
        let records = running_processes();
        assert(table_read(records@));
        Self::from_records(records)
    }

    /// Parent PID of `pid`, or `None` if unknown or at the root.
    pub fn parent(&self, pid: u32) -> (parent: Option<u32>)
        ensures
            parent == parent_in(self.parents(), pid),
    {
        match self.parents.get(&pid) {
            Some(parent) => if *parent != 0 && *parent != pid {
                Some(*parent)
            } else {
                None
            },
            None => None,
        }
    }

    /// Short process name (e.g. `Code.exe`, `node`).
    pub fn name(&self, pid: u32) -> (name: Option<&str>)
        ensures
            opt_text(name) == text_in(self.names(), pid),
    {
        match self.names.get(&pid) {
            Some(s) => Some(s.as_str()),
            None => None,
        }
    }

    /// Full executable path, when sysinfo could resolve it.
    pub fn exe(&self, pid: u32) -> (exe: Option<&str>)
        ensures
            opt_text(exe) == text_in(self.exes(), pid),
    {
        match self.exes.get(&pid) {
            Some(s) => Some(s.as_str()),
            None => None,
        }
    }
}

/// `sysinfo::System::processes` after a refresh of all processes: one record for each
/// process that the machine shows, with its pid, its parent, its name and the path of
/// its executable. What comes back rests on the machine alone, so nothing is
/// claimed of it, neither which processes are listed nor their order.
#[verifier::external_body]
fn running_processes() -> (records: Vec<ProcessRecord>) {
    let refresh = sysinfo::ProcessRefreshKind::new().with_exe(sysinfo::UpdateKind::OnlyIfNotSet);
    let wanted = sysinfo::RefreshKind::new().with_processes(refresh);
    let mut sys = sysinfo::System::new_with_specifics(wanted);
    sys.refresh_processes_specifics(sysinfo::ProcessesToUpdate::All, true, refresh);
    sys.processes().iter().map(|(pid, process)| ProcessRecord {
        pid: pid.as_u32(),
        parent: process.parent().map(|p| p.as_u32()),
        name: process.name().to_string_lossy().to_string(),
        exe: process.exe().map(|p| p.to_string_lossy().to_string()),
    }).collect()
}

/// Whether a reading of the process table may give `records`.
pub closed spec fn table_read(records: Seq<ProcessRecord>) -> bool {
    exists|read: Vec<ProcessRecord>| #[trigger]
        call_ensures(running_processes, (), read) && read@ == records
}

/// Convenience: parent PID of a single process via a fresh snapshot. Prefer
/// [`ProcessTree::capture`] when walking several ancestors.
pub fn parent_pid(pid: u32) -> (parent: Option<u32>)
    ensures
        exists|records: Seq<ProcessRecord>| #[trigger]
            table_read(records) && parent == parent_in(parents_of(records), pid),
        parent is Some ==> parent->0 != 0 && parent->0 != pid,
{
    ProcessTree::capture().parent(pid)
}

/// The suffixes under which Windows may hold an executable, in the order in which
/// they are tried.
pub open spec fn windows_suffix(k: int) -> Seq<char> {
    if k == 0 {
        ".exe"@
    } else if k == 1 {
        ".cmd"@
    } else {
        ".bat"@
    }
}

/// The file name to look for with the `k`th suffix.
fn windows_candidate(stem: &str, k: usize) -> (name: String)
    ensures
        name@ == stem@ + windows_suffix(k as int),
{
    if k == 0 {
        stem.to_string().concat(".exe")
    } else if k == 1 {
        stem.to_string().concat(".cmd")
    } else {
        stem.to_string().concat(".bat")
    }
}

/// How the search for an executable goes on. A candidate is a file name in one of the
/// directories of `PATH`, which is given by its position there.
#[derive(Debug)]
pub enum SearchStep {
    /// It is to be found out whether this candidate is a file.
    Probe { dir: usize, name: String },
    /// This candidate is what was searched for.
    Found { dir: usize, name: String },
    /// There is none.
    Missing,
}

/// Whether the search has come to its end with candidate `i`: it is a file, and none
/// that was tried before it is.
pub open spec fn first_file(answers: Seq<bool>, i: int) -> bool {
    &&& 0 <= i < answers.len()
    &&& answers[i]
    &&& forall|j: int| 0 <= j < i ==> !#[trigger] answers[j]
}

/// Whether `name` in directory `dir` is candidate `i` of the search for `stem`: the
/// directories are gone through in order, and each suffix is tried in each of them.
pub open spec fn is_candidate(stem: Seq<char>, i: int, dir: int, name: Seq<char>) -> bool {
    dir == i / 3 && name == stem + windows_suffix(i % 3)
}

/// Whether `step` is how the search for `stem` in `dirs` directories goes on once
/// `answers` is known: for each candidate tried so far, in order, whether it is a file.
pub open spec fn search_step(
    stem: Seq<char>,
    dirs: int,
    answers: Seq<bool>,
    step: SearchStep,
) -> bool {
    match step {
        SearchStep::Found { dir, name } => exists|i: int| #[trigger]
            first_file(answers, i) && is_candidate(stem, i, dir as int, name@),
        SearchStep::Probe { dir, name } => {
            &&& !answers.contains(true)
            &&& answers.len() < 3 * dirs
            &&& is_candidate(stem, answers.len() as int, dir as int, name@)
        },
        SearchStep::Missing => !answers.contains(true) && answers.len() >= 3 * dirs,
    }
}

/// How the search for `stem` on Windows goes on. `dirs` is the number of directories in
/// `PATH`, 0 where there is no `PATH`; `answers` says for each candidate that was probed
/// so far, in order, whether it is a file. The search ends at the first that is.
pub fn which_windows(stem: &str, dirs: usize, answers: &Vec<bool>) -> (step: SearchStep)
    ensures
        search_step(stem@, dirs as int, answers@, step),
{
    let mut i: usize = 0;
    while i < answers.len()
        invariant
            i <= answers@.len(),
            forall|j: int| 0 <= j < i ==> !#[trigger] answers@[j],
        decreases answers.len() - i,
    {
        if answers[i] {
            let name = windows_candidate(stem, i % 3);
            assert(first_file(answers@, i as int) && is_candidate(
                stem@,
                i as int,
                (i / 3) as int,
                name@,
            ));
            return SearchStep::Found { dir: i / 3, name };
        }
        i += 1;
    }
    if i / 3 < dirs {
        SearchStep::Probe { dir: i / 3, name: windows_candidate(stem, i % 3) }
    } else {
        SearchStep::Missing
    }
}

/// Resolve the executable of the agent to a path suitable for starting it. `agent` is
/// the name of the agent's command.
///
/// On Unix the bare name resolves via PATH. On Windows, npm installs the agent
/// as a `.cmd` file, which the bare name will not find (it only stands for `.exe`);
/// there PATH is searched with [`which_windows`], and `found` is the full path of
/// what was found. Falls back to the bare name if nothing is found.
pub fn resolve_claude(agent: &str, found: Option<PathBuf>) -> (path: PathBuf)
    ensures
        path == (match found {
            Some(full) => full,
            None => crate::path::path_of(agent@),
        }),
{
    match found {
        Some(full) => full,
        None => path_from_text(agent),
    }
}

proof fn lemma_built_is_wf(records: Seq<ProcessRecord>)
    ensures
        parents_of(records).dom().subset_of(names_of(records).dom()),
        exes_of(records).dom().subset_of(names_of(records).dom()),
    decreases records.len(),
{
    if records.len() > 0 {
        lemma_built_is_wf(records.drop_last());
    }
}

/// Where no two records have the same pid, a snapshot gives back of each process
/// what its record says.
pub proof fn law_snapshot_gives_back_the_records(records: Seq<ProcessRecord>, k: int)
    requires
        0 <= k < records.len(),
        forall|i: int, j: int|
            0 <= i < j < records.len() ==> (#[trigger] records[i]).pid != (
            #[trigger] records[j]).pid,
    ensures
        text_in(names_of(records), records[k].pid) == Some(records[k].name@),
        text_in(exes_of(records), records[k].pid) == (match records[k].exe {
            Some(exe) => Some(exe@),
            None => None,
        }),
        parent_in(parents_of(records), records[k].pid) == (match records[k].parent {
            Some(parent) if parent != 0 && parent != records[k].pid => Some(parent),
            _ => None,
        }),
    decreases records.len(),
{
    let before = records.drop_last();
    if k == records.len() - 1 {
        assert forall|i: int| 0 <= i < before.len() implies (#[trigger] before[i]).pid
            != records[k].pid by {
            assert(before[i] == records[i]);
        }
        law_unlisted_process_is_unknown(before, records[k].pid);
    } else {
        assert(before[k] == records[k]);
        assert(records[k].pid != records[records.len() - 1].pid);
        assert forall|i: int, j: int| 0 <= i < j < before.len() implies (
        #[trigger] before[i]).pid != (#[trigger] before[j]).pid by {
            assert(records[i].pid != records[j].pid);
        }
        law_snapshot_gives_back_the_records(before, k);
    }
}

/// Of a process that no record lists, a snapshot knows nothing.
pub proof fn law_unlisted_process_is_unknown(records: Seq<ProcessRecord>, pid: u32)
    requires
        forall|i: int| 0 <= i < records.len() ==> (#[trigger] records[i]).pid != pid,
    ensures
        text_in(names_of(records), pid) is None,
        text_in(exes_of(records), pid) is None,
        parent_in(parents_of(records), pid) is None,
        !parents_of(records).contains_key(pid),
    decreases records.len(),
{
    if records.len() > 0 {
        let before = records.drop_last();
        assert forall|i: int| 0 <= i < before.len() implies (#[trigger] before[i]).pid != pid by {
            assert(before[i] == records[i]);
        }
        assert(records[records.len() - 1].pid != pid);
        law_unlisted_process_is_unknown(before, pid);
    }
}

/// The parent that a fresh snapshot gives is the one that every snapshot of the same
/// process table gives; it is never pid 0 and never the process itself.
pub proof fn law_parent_is_that_of_any_snapshot(
    tree: ProcessTree,
    records: Seq<ProcessRecord>,
    pid: u32,
)
    requires
        tree.built_from(records),
    ensures
        parent_in(tree.parents(), pid) == parent_in(parents_of(records), pid),
        parent_in(tree.parents(), pid) != Some(0u32),
        parent_in(tree.parents(), pid) != Some(pid),
{
}

/// The answers given so far leave a search one way to go on.
pub proof fn law_search_step_is_determined(
    stem: Seq<char>,
    dirs: int,
    answers: Seq<bool>,
    step: SearchStep,
    other: SearchStep,
)
    requires
        search_step(stem, dirs, answers, step),
        search_step(stem, dirs, answers, other),
    ensures
        match (step, other) {
            (SearchStep::Found { dir: d, name: n }, SearchStep::Found { dir: e, name: m }) => d == e
                && n@ == m@,
            (SearchStep::Probe { dir: d, name: n }, SearchStep::Probe { dir: e, name: m }) => d == e
                && n@ == m@,
            (SearchStep::Missing, SearchStep::Missing) => true,
            _ => false,
        },
{
    assert forall|i: int| #[trigger] first_file(answers, i) implies answers.contains(true) by {
        assert(answers[i]);
    }
    assert forall|i: int, j: int| #[trigger]
        first_file(answers, i) && #[trigger] first_file(answers, j) implies i == j by {
        assert(answers[i] && answers[j]);
    }
}

/// A search that is answered truly at every probe asks about the candidates in order up
/// to the first that is a file, and finds that one; where none is, it asks about all of
/// them and finds nothing. `files` says of every candidate whether it is a file, and
/// `tried` of how many of them the search has been told.
pub proof fn law_search_finds_the_first_file(
    stem: Seq<char>,
    dirs: int,
    files: Seq<bool>,
    tried: int,
    step: SearchStep,
)
    requires
        files.len() == 3 * dirs,
        0 <= tried <= files.len(),
        search_step(stem, dirs, files.take(tried), step),
    ensures
        forall|i: int| #[trigger]
            first_file(files, i) ==> if i < tried {
                step matches SearchStep::Found { dir, name } && is_candidate(
                    stem,
                    i,
                    dir as int,
                    name@,
                )
            } else {
                step matches SearchStep::Probe { dir, name } && is_candidate(
                    stem,
                    tried,
                    dir as int,
                    name@,
                )
            },
        !files.contains(true) && tried < files.len() ==> step is Probe,
        !files.contains(true) && tried == files.len() ==> step is Missing,
{
    let answers = files.take(tried);
    assert forall|j: int| 0 <= j < tried implies #[trigger] answers[j] == files[j] by {}
    if step is Found {
        let (dir, name) = (step->Found_dir, step->Found_name);
        let k = choose|k: int| #[trigger]
            first_file(answers, k) && is_candidate(stem, k, dir as int, name@);
        assert(answers[k] && files[k]);
        assert forall|i: int| #[trigger] first_file(files, i) implies i == k by {
            assert(files[i]);
            if i < k {
                assert(answers[i]);
            }
        }
    } else {
        assert forall|i: int| #[trigger] first_file(files, i) implies i >= tried by {
            if i < tried {
                assert(answers[i]);
            }
        }
    }
}

/// Liveness, platform by platform. On Unix a process is alive exactly if `kill` could be
/// asked about its pid and either succeeded or was denied; on Windows, if it was opened
/// and still runs, or may not be opened. Pid 0 is never alive, and where nothing can be
/// asked, nothing is.
pub proof fn law_probe_decides_liveness(
    pid: u32,
    probe: LivenessProbe,
    alive: bool,
    target: Option<i32>,
)
    requires
        call_ensures(process_alive, (pid, probe), alive),
        call_ensures(signal_target, (pid,), target),
    ensures
        target is Some <==> 0 < pid <= 0x7fff_ffff,
        target is Some ==> target->0 == pid,
        probe matches LivenessProbe::Signal { status, denied } ==> (alive <==> target is Some && (
        status == 0 || denied)),
        probe matches LivenessProbe::NotOpened { denied } ==> (alive <==> pid != 0 && denied),
        probe matches LivenessProbe::Opened { exit_code } ==> (alive <==> pid != 0 && exit_code
            == Some(259u32)),
        probe is Unavailable ==> !alive,
{
}

proof fn lemma_names_of(records: Seq<ProcessRecord>, pid: u32)
    ensures
        forall|k: int|
            0 <= k < records.len() && (#[trigger] records[k]).pid == pid && (forall|j: int|
                k < j < records.len() ==> (#[trigger] records[j]).pid != pid) ==> names_of(
                records,
            ).contains_key(pid) && names_of(records)[pid] == records[k].name@,
        names_of(records).contains_key(pid) ==> exists|k: int|
            0 <= k < records.len() && (#[trigger] records[k]).pid == pid,
    decreases records.len(),
{
    if records.len() > 0 {
        let before = records.drop_last();
        let n = records.len() - 1;
        lemma_names_of(before, pid);
        assert(forall|i: int| 0 <= i < n ==> #[trigger] before[i] == records[i]);
        if records[n].pid != pid {
            assert forall|k: int|
                0 <= k < records.len() && (#[trigger] records[k]).pid == pid && (forall|j: int|
                    k < j < records.len() ==> (#[trigger] records[j]).pid != pid) implies names_of(
                records,
            ).contains_key(pid) && names_of(records)[pid] == records[k].name@ by {
                assert(before[k] == records[k]);
                assert forall|j: int| k < j < before.len() implies (#[trigger] before[j]).pid
                    != pid by {
                    assert(records[j].pid != pid);
                }
            }
            if names_of(records).contains_key(pid) {
                let k = choose|k: int| 0 <= k < before.len() && (#[trigger] before[k]).pid == pid;
                assert(records[k].pid == pid);
            }
        }
    }
}

proof fn lemma_parents_of(records: Seq<ProcessRecord>, pid: u32)
    ensures
        forall|k: int|
            0 <= k < records.len() && (#[trigger] records[k]).pid == pid && records[k].parent
                is Some && (forall|j: int|
                k < j < records.len() ==> (#[trigger] records[j]).pid != pid || records[j].parent
                    is None) ==> parents_of(records).contains_key(pid) && parents_of(records)[pid]
                == records[k].parent->0,
        parents_of(records).contains_key(pid) ==> exists|k: int|
            0 <= k < records.len() && (#[trigger] records[k]).pid == pid && records[k].parent
                is Some,
    decreases records.len(),
{
    if records.len() > 0 {
        let before = records.drop_last();
        let n = records.len() - 1;
        lemma_parents_of(before, pid);
        assert(forall|i: int| 0 <= i < n ==> #[trigger] before[i] == records[i]);
        if records[n].pid != pid || records[n].parent is None {
            assert forall|k: int|
                0 <= k < records.len() && (#[trigger] records[k]).pid == pid && records[k].parent
                    is Some && (forall|j: int|
                    k < j < records.len() ==> (#[trigger] records[j]).pid != pid
                        || records[j].parent is None) implies parents_of(records).contains_key(pid)
                && parents_of(records)[pid] == records[k].parent->0 by {
                assert(before[k] == records[k]);
                assert forall|j: int| k < j < before.len() implies (#[trigger] before[j]).pid
                    != pid || before[j].parent is None by {
                    assert(records[j].pid != pid || records[j].parent is None);
                }
            }
            if parents_of(records).contains_key(pid) {
                let k = choose|k: int|
                    0 <= k < before.len() && (#[trigger] before[k]).pid == pid && before[k].parent
                        is Some;
                assert(records[k].pid == pid);
            }
        }
    }
}

proof fn lemma_exes_of(records: Seq<ProcessRecord>, pid: u32)
    ensures
        forall|k: int|
            0 <= k < records.len() && (#[trigger] records[k]).pid == pid && records[k].exe is Some
                && (forall|j: int|
                k < j < records.len() ==> (#[trigger] records[j]).pid != pid || records[j].exe
                    is None) ==> exes_of(records).contains_key(pid) && exes_of(records)[pid]
                == records[k].exe->0@,
        exes_of(records).contains_key(pid) ==> exists|k: int|
            0 <= k < records.len() && (#[trigger] records[k]).pid == pid && records[k].exe is Some,
    decreases records.len(),
{
    if records.len() > 0 {
        let before = records.drop_last();
        let n = records.len() - 1;
        lemma_exes_of(before, pid);
        assert(forall|i: int| 0 <= i < n ==> #[trigger] before[i] == records[i]);
        if records[n].pid != pid || records[n].exe is None {
            assert forall|k: int|
                0 <= k < records.len() && (#[trigger] records[k]).pid == pid && records[k].exe
                    is Some && (forall|j: int|
                    k < j < records.len() ==> (#[trigger] records[j]).pid != pid || records[j].exe
                        is None) implies exes_of(records).contains_key(pid) && exes_of(
                records,
            )[pid] == records[k].exe->0@ by {
                assert(before[k] == records[k]);
                assert forall|j: int| k < j < before.len() implies (#[trigger] before[j]).pid
                    != pid || before[j].exe is None by {
                    assert(records[j].pid != pid || records[j].exe is None);
                }
            }
            if exes_of(records).contains_key(pid) {
                let k = choose|k: int|
                    0 <= k < before.len() && (#[trigger] before[k]).pid == pid && before[k].exe
                        is Some;
                assert(records[k].pid == pid);
            }
        }
    }
}

/// A snapshot names a process as the last record of its pid does, and names no process
/// that has no record.
pub proof fn law_last_record_names_the_process(
    records: Vec<ProcessRecord>,
    tree: ProcessTree,
    pid: u32,
    name: Option<&str>,
)
    requires
        call_ensures(ProcessTree::from_records, (records,), tree),
        call_ensures(ProcessTree::name, (&tree, pid), name),
    ensures
        forall|k: int|
            0 <= k < records@.len() && (#[trigger] records@[k]).pid == pid && (forall|j: int|
                k < j < records@.len() ==> (#[trigger] records@[j]).pid != pid) ==> name is Some
                && name->0@ == records@[k].name@,
        (forall|k: int| 0 <= k < records@.len() ==> (#[trigger] records@[k]).pid != pid)
            ==> name is None,
{
    lemma_names_of(records@, pid);
}

/// A snapshot gives as the parent of a process what the last record of its pid that has
/// a parent gives, unless that is pid 0 or the process itself; and of a process without
/// such a record it knows no parent.
pub proof fn law_last_record_gives_the_parent(
    records: Vec<ProcessRecord>,
    tree: ProcessTree,
    pid: u32,
    parent: Option<u32>,
)
    requires
        call_ensures(ProcessTree::from_records, (records,), tree),
        call_ensures(ProcessTree::parent, (&tree, pid), parent),
    ensures
        forall|k: int|
            0 <= k < records@.len() && (#[trigger] records@[k]).pid == pid && records@[k].parent
                is Some && (forall|j: int|
                k < j < records@.len() ==> (#[trigger] records@[j]).pid != pid
                    || records@[j].parent is None) ==> (if records@[k].parent->0 == 0
                || records@[k].parent->0 == pid {
                parent is None
            } else {
                parent == records@[k].parent
            }),
        (forall|k: int|
            0 <= k < records@.len() && (#[trigger] records@[k]).pid == pid ==> records@[k].parent
                is None) ==> parent is None,
{
    lemma_parents_of(records@, pid);
}

/// A snapshot gives as the executable of a process what the last record of its pid that
/// has one gives, and of a process without such a record it knows none.
pub proof fn law_last_record_gives_the_executable(
    records: Vec<ProcessRecord>,
    tree: ProcessTree,
    pid: u32,
    exe: Option<&str>,
)
    requires
        call_ensures(ProcessTree::from_records, (records,), tree),
        call_ensures(ProcessTree::exe, (&tree, pid), exe),
    ensures
        forall|k: int|
            0 <= k < records@.len() && (#[trigger] records@[k]).pid == pid && records@[k].exe
                is Some && (forall|j: int|
                k < j < records@.len() ==> (#[trigger] records@[j]).pid != pid || records@[j].exe
                    is None) ==> exe is Some && exe->0@ == records@[k].exe->0@,
        (forall|k: int|
            0 <= k < records@.len() && (#[trigger] records@[k]).pid == pid ==> records@[k].exe
                is None) ==> exe is None,
{
    lemma_exes_of(records@, pid);
}

/// A snapshot of the running processes is the snapshot that one reading of the process
/// table makes.
pub proof fn law_capture_holds_what_was_read(tree: ProcessTree)
    requires
        call_ensures(ProcessTree::capture, (), tree),
    ensures
        exists|records: Seq<ProcessRecord>| #[trigger]
            table_read(records) && forall|read: Vec<ProcessRecord>, other: ProcessTree|
                read@ == records && #[trigger] call_ensures(
                    ProcessTree::from_records,
                    (read,),
                    other,
                ) ==> other.parents() == tree.parents() && other.names() == tree.names()
                    && other.exes() == tree.exes(),
{
}

/// The parent of a single process is the one that the snapshot of some reading of the
/// process table gives.
pub proof fn law_parent_pid_asks_one_snapshot(pid: u32, parent: Option<u32>)
    requires
        call_ensures(parent_pid, (pid,), parent),
    ensures
        exists|records: Seq<ProcessRecord>| #[trigger]
            table_read(records) && forall|
                read: Vec<ProcessRecord>,
                tree: ProcessTree,
                given: Option<u32>,
            |
                read@ == records && #[trigger] call_ensures(
                    ProcessTree::from_records,
                    (read,),
                    tree,
                ) && #[trigger] call_ensures(ProcessTree::parent, (&tree, pid), given) ==> given
                    == parent,
{
}

/// A search tries `.exe`, `.cmd` and `.bat` in the first directory, then in the second,
/// and so on; it ends at the first that is a file, and finds nothing only when all of
/// them were tried. Where `k` numbers the suffixes, candidate `3 * dir + k` is the file
/// with suffix `k` in directory `dir`.
pub proof fn law_search_goes_through_the_directories(
    stem: &str,
    dirs: usize,
    answers: Vec<bool>,
    step: SearchStep,
)
    requires
        call_ensures(which_windows, (stem, dirs, &answers), step),
    ensures
        step is Found <==> exists|i: int| 0 <= i < answers@.len() && #[trigger] answers@[i],
        step is Probe <==> (forall|i: int| 0 <= i < answers@.len() ==> !#[trigger] answers@[i])
            && answers@.len() < 3 * dirs,
        step matches SearchStep::Found { dir, name } ==> exists|i: int|
            {
                &&& 0 <= i < answers@.len()
                &&& #[trigger] answers@[i]
                &&& forall|j: int| 0 <= j < i ==> !#[trigger] answers@[j]
                &&& i == 3 * dir && name@ == stem@ + ".exe"@ || i == 3 * dir + 1 && name@ == stem@
                    + ".cmd"@ || i == 3 * dir + 2 && name@ == stem@ + ".bat"@
            },
        step matches SearchStep::Probe { dir, name } ==> {
            ||| answers@.len() == 3 * dir && name@ == stem@ + ".exe"@
            ||| answers@.len() == 3 * dir + 1 && name@ == stem@ + ".cmd"@
            ||| answers@.len() == 3 * dir + 2 && name@ == stem@ + ".bat"@
        },
{
    match step {
        SearchStep::Found { dir, name } => {
            let i = choose|i: int| #[trigger]
                first_file(answers@, i) && is_candidate(stem@, i, dir as int, name@);
            assert(answers@[i]);
        },
        _ => {
            assert forall|i: int| 0 <= i < answers@.len() implies !#[trigger] answers@[i] by {
                if answers@[i] {
                    assert(answers@.contains(true));
                }
            }
        },
    }
}

/// What was found is what is started, under whichever name it was searched for, and
/// otherwise the bare name is.
pub proof fn law_found_executable_wins(agent: &str, found: Option<PathBuf>, path: PathBuf)
    requires
        call_ensures(resolve_claude, (agent, found), path),
    ensures
        found is Some ==> path == found->0,
        found is None ==> path == crate::path::path_of(agent@),
{
}

} // verus!
