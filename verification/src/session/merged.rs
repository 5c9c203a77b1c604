//! Merging the sessions that two backends find.

use super::source::{DetectedSession, SessionSource};
use std::collections::HashSet;
use vstd::hash_set::StringHashSet;
use vstd::prelude::*;

verus! {

broadcast use vstd::std_specs::hash::group_hash_axioms;

/// Whether two sessions are taken for the same one: they share the pid, or both
/// have a session id and it is the same.
pub open spec fn same_session(a: DetectedSession, b: DetectedSession) -> bool {
    a.pid == b.pid || (a.sid() is Some && a.sid() == b.sid())
}

/// Whether `sessions` already holds the session `s`.
pub open spec fn known(sessions: Seq<DetectedSession>, s: DetectedSession) -> bool {
    exists|i: int| 0 <= i < sessions.len() && same_session(#[trigger] sessions[i], s)
}

/// The CLI sessions, followed by the legacy sessions in their order, each of them
/// only if nothing before it in the list is the same session.
pub open spec fn merged(
    cli: Seq<DetectedSession>,
    legacy: Seq<DetectedSession>,
) -> Seq<DetectedSession>
    decreases legacy.len(),
{
    if legacy.len() == 0 {
        cli
    } else {
        let before = merged(cli, legacy.drop_last());
        if known(before, legacy.last()) {
            before
        } else {
            before.push(legacy.last())
        }
    }
}

/// The pids that occur in `sessions`.
spec fn pids(sessions: Seq<DetectedSession>) -> Set<u32> {
    Set::new(|pid: u32| exists|i: int| 0 <= i < sessions.len() && (#[trigger] sessions[i]).pid == pid)
}

/// The session ids that occur in `sessions`.
spec fn sids(sessions: Seq<DetectedSession>) -> Set<Seq<char>> {
    Set::new(
        |sid: Seq<char>|
            exists|i: int|
                0 <= i < sessions.len() && (#[trigger] sessions[i]).sid() == Some(sid),
    )
}

/// Merge legacy results into the CLI results, deduplicating by session id and
/// then by pid. CLI entries take precedence (they carry richer metadata), so
/// only legacy sessions not already present are appended.
pub fn merge_sessions(cli: Vec<DetectedSession>, legacy: Vec<DetectedSession>) -> (out: Vec<
    DetectedSession,
>)
    ensures
        out@ == merged(cli@, legacy@),
{
    let mut seen_sids = StringHashSet::new();
    let mut seen_pids: HashSet<u32> = HashSet::new();
    let mut i: usize = 0;
    while i < cli.len()
        invariant
            i <= cli.len(),
            seen_pids@ =~= pids(cli@.take(i as int)),
            seen_sids@ =~= sids(cli@.take(i as int)),
        decreases cli.len() - i,
    {
        let s = &cli[i];
        proof {
            lemma_push_seen(cli@.take(i as int), *s);
            assert(cli@.take(i + 1) =~= cli@.take(i as int).push(*s));
        }
        if let Some(id) = &s.session_id {
            seen_sids.insert(id.clone());
        }
        seen_pids.insert(s.pid);
        i += 1;
    }
    assert(cli@.take(i as int) =~= cli@);
    let mut out = cli;
    let ghost all = legacy@;
    assert(all.take(0) =~= Seq::empty());
    for s in it: legacy
        invariant
            it.seq() == all,
            out@ == merged(cli@, all.take(it.index() as int)),
            seen_pids@ =~= pids(out@),
            seen_sids@ =~= sids(out@),
    {
        let ghost k = it.index() as int;
        proof {
            assert(all.take(k + 1).drop_last() =~= all.take(k));
            lemma_push_seen(out@, s);
            lemma_known(out@, s);
        }
        let dup_sid = match &s.session_id {
            Some(id) => seen_sids.contains(id.as_str()),
            None => false,
        };
        if !dup_sid && !seen_pids.contains(&s.pid) {
            if let Some(id) = &s.session_id {
                seen_sids.insert(id.clone());
            }
            seen_pids.insert(s.pid);
            out.push(s);
        }
    }
    assert(all.take(all.len() as int) =~= all);
    out
}

proof fn lemma_push_seen(sessions: Seq<DetectedSession>, s: DetectedSession)
    ensures
        pids(sessions.push(s)) =~= pids(sessions).insert(s.pid),
        sids(sessions.push(s)) =~= (match s.sid() {
            Some(sid) => sids(sessions).insert(sid),
            None => sids(sessions),
        }),
{
    let longer = sessions.push(s);
    assert(longer[sessions.len() as int] == s);
    assert(forall|i: int| 0 <= i < sessions.len() ==> #[trigger] longer[i] == sessions[i]);
    assert forall|pid: u32| pids(sessions).insert(s.pid).contains(pid) implies pids(
        longer,
    ).contains(pid) by {
        if pid != s.pid {
            let i = choose|i: int|
                0 <= i < sessions.len() && (#[trigger] sessions[i]).pid == pid;
            assert(longer[i].pid == pid);
        }
    }
    assert forall|sid: Seq<char>| sids(sessions).contains(sid) implies sids(longer).contains(
        sid,
    ) by {
        let i = choose|i: int|
            0 <= i < sessions.len() && (#[trigger] sessions[i]).sid() == Some(sid);
        assert(longer[i].sid() == Some(sid));
    }
}

proof fn lemma_known(sessions: Seq<DetectedSession>, s: DetectedSession)
    ensures
        known(sessions, s) <==> (pids(sessions).contains(s.pid) || (s.sid() is Some && sids(
            sessions,
        ).contains(s.sid()->0))),
{
}

/// Auto-mode source that runs both the CLI (the agent's own list of its
/// sessions) and legacy (process-scan) backends each cycle and merges their results.
///
/// This surfaces both:
/// - sessions the CLI registry knows about (with rich metadata: official name,
///   busy/idle activity, kind), and
/// - sessions only visible via process scanning, e.g. older agent builds
///   that predate the agent registry, or sessions running in an elevated
///   terminal that the CLI registry didn't capture.
///
/// One backend failing (e.g. the agent's list unsupported on an old build) degrades gracefully to the other instead of blanking the list.
pub struct MergedSessionSource<C, L> {
    cli: C,
    legacy: Option<L>,
}

impl<C, L> MergedSessionSource<C, L> {
    /// The CLI backend.
    pub closed spec fn cli(self) -> C {
        self.cli
    }

    /// The legacy backend, if it could be set up.
    pub closed spec fn legacy(self) -> Option<L> {
        self.legacy
    }

    /// A source over the two backends. Setting up the legacy backend may have
    /// failed (the home directory can't be resolved); in that case run CLI-only
    /// rather than refusing to start.
    pub fn new<E>(cli: C, legacy: Result<L, E>) -> (source: Self)
        ensures
            source.cli() == cli,
            source.legacy() == (match legacy {
                Ok(backend) => Some(backend),
                Err(_) => None,
            }),
    {
        MergedSessionSource {
            cli,
            legacy: match legacy {
                Ok(backend) => Some(backend),
                Err(_) => None,
            },
        }
    }
}

/// What one detection returns: the sessions and the diagnostics, or an error.
pub type Detection<D, E> = Result<(Vec<DetectedSession>, D), E>;

/// Whether `result` is what the outcomes of the two backends add up to.
/// `legacy` is `None` where there is no legacy backend.
pub open spec fn combined<D, E, F>(
    cli: Detection<D, E>,
    legacy: Option<Detection<D, F>>,
    result: Detection<D, E>,
) -> bool {
    match (cli, legacy) {
        // Both ran: merge, and keep the legacy diagnostics (process counts).
        (Ok((cli_sessions, _)), Some(Ok((legacy_sessions, legacy_diagnostics)))) => {
            &&& result is Ok
            &&& result->Ok_0.0@ == merged(cli_sessions@, legacy_sessions@)
            &&& result->Ok_0.1 == legacy_diagnostics
        },
        // CLI ok, legacy failed or absent: CLI only.
        (Ok(found), _) => result == Detection::<D, E>::Ok(found),
        // CLI failed, legacy ok: legacy only.
        (Err(_), Some(Ok(found))) => result == Detection::<D, E>::Ok(found),
        // Both failed (or CLI failed with no legacy): surface the CLI error.
        (Err(error), _) => result == Detection::<D, E>::Err(error),
    }
}

/// What one detection of a merged source returns, from what its backends returned.
pub fn combine_detections<D, E, F>(
    cli: Detection<D, E>,
    legacy: Option<Detection<D, F>>,
) -> (result: Detection<D, E>)
    ensures
        combined(cli, legacy, result),
{
    match (cli, legacy) {
        (Ok((cli_sessions, _)), Some(Ok((legacy_sessions, legacy_diagnostics)))) => Ok(
            (merge_sessions(cli_sessions, legacy_sessions), legacy_diagnostics),
        ),
        (Ok(found), _) => Ok(found),
        (Err(_), Some(Ok(found))) => Ok(found),
        (Err(error), _) => Err(error),
    }
}

impl<D, C: SessionSource<Diagnostics = D>, L: SessionSource<Diagnostics = D>> SessionSource for MergedSessionSource<
    C,
    L,
> {
    type Diagnostics = D;

    type Error = C::Error;

    /// Each backend that is there ran one detection, and the result is what the two
    /// outcomes add up to.
    open spec fn may_detect(self, after: Self, result: Detection<D, C::Error>) -> bool {
        exists|cli: Detection<D, C::Error>, legacy: Option<Detection<D, L::Error>>|
            {
                &&& self.cli().may_detect(after.cli(), cli)
                &&& match (self.legacy(), after.legacy(), legacy) {
                    (Some(l_before), Some(l_after), Some(l_result)) => l_before.may_detect(
                        l_after,
                        l_result,
                    ),
                    (None, None, None) => true,
                    _ => false,
                }
                &&& #[trigger] combined(cli, legacy, result)
            }
    }

    fn detect(&mut self) -> (result: Detection<D, C::Error>) {
        let cli_res = self.cli.detect();
        let legacy_res = match &mut self.legacy {
            Some(backend) => Some(backend.detect()),
            None => None,
        };
        combine_detections(cli_res, legacy_res)
    }

    fn backend_name(&self) -> (name: &'static str)
        ensures
            name@ == "merged"@,
    {
        "merged"
    }
}

/// The CLI entries come first, all of them, unchanged and in their order: a CLI
/// entry always wins over a legacy entry of the same session.
pub proof fn law_cli_entries_are_kept(cli: Seq<DetectedSession>, legacy: Seq<DetectedSession>)
    ensures
        cli.len() <= merged(cli, legacy).len() <= cli.len() + legacy.len(),
        merged(cli, legacy).take(cli.len() as int) == cli,
    decreases legacy.len(),
{
    if legacy.len() > 0 {
        law_cli_entries_are_kept(cli, legacy.drop_last());
        assert(merged(cli, legacy).take(cli.len() as int) =~= merged(
            cli,
            legacy.drop_last(),
        ).take(cli.len() as int));
    } else {
        assert(cli.take(cli.len() as int) =~= cli);
    }
}

/// No session is lost: each session of either list is in the merged list, itself
/// or as an entry that is taken for the same session.
pub proof fn law_no_session_is_lost(
    cli: Seq<DetectedSession>,
    legacy: Seq<DetectedSession>,
    s: DetectedSession,
)
    requires
        cli.contains(s) || legacy.contains(s),
    ensures
        known(merged(cli, legacy), s),
    decreases legacy.len(),
{
    law_cli_entries_are_kept(cli, legacy);
    let out = merged(cli, legacy);
    if cli.contains(s) {
        let i = cli.index_of(s);
        assert(out.take(cli.len() as int)[i] == out[i]);
        assert(same_session(out[i], s));
    } else {
        let k = legacy.index_of(s);
        let before = merged(cli, legacy.drop_last());
        if k == legacy.len() - 1 {
            if !known(before, s) {
                assert(same_session(out[before.len() as int], s));
            }
        } else {
            assert(legacy.drop_last()[k] == s);
            law_no_session_is_lost(cli, legacy.drop_last(), s);
            let i = choose|i: int| 0 <= i < before.len() && same_session(#[trigger] before[i], s);
            assert(out[i] == before[i]);
        }
    }
}

/// An appended legacy session is the same session as no entry before it, so nothing
/// that is appended occurs twice.
pub proof fn law_appended_sessions_are_new(
    cli: Seq<DetectedSession>,
    legacy: Seq<DetectedSession>,
)
    ensures
        forall|i: int, j: int|
            0 <= i < j < merged(cli, legacy).len() && cli.len() <= j ==> !same_session(
                #[trigger] merged(cli, legacy)[i],
                #[trigger] merged(cli, legacy)[j],
            ),
    decreases legacy.len(),
{
    if legacy.len() > 0 {
        law_appended_sessions_are_new(cli, legacy.drop_last());
        let before = merged(cli, legacy.drop_last());
        let out = merged(cli, legacy);
        assert forall|i: int, j: int|
            0 <= i < j < out.len() && cli.len() <= j implies !same_session(
            #[trigger] out[i],
            #[trigger] out[j],
        ) by {
            assert(out[i] == before[i]);
            if j < before.len() {
                assert(out[j] == before[j]);
            }
        }
    }
}

/// If the CLI entries have pairwise different pids, so do the merged entries; and
/// if no session id occurs twice among the CLI entries, none does in the merged list.
pub proof fn law_merging_keeps_ids_unique(
    cli: Seq<DetectedSession>,
    legacy: Seq<DetectedSession>,
)
    ensures
        pids_unique(cli) ==> pids_unique(merged(cli, legacy)),
        sids_unique(cli) ==> sids_unique(merged(cli, legacy)),
{
    law_cli_entries_are_kept(cli, legacy);
    law_appended_sessions_are_new(cli, legacy);
    let out = merged(cli, legacy);
    assert forall|i: int| 0 <= i < cli.len() implies #[trigger] out[i] == cli[i] by {
        assert(out.take(cli.len() as int)[i] == out[i]);
    }
    assert forall|i: int, j: int|
        pids_unique(cli) && 0 <= i < j < out.len() implies (#[trigger] out[i]).pid != (
    #[trigger] out[j]).pid by {
        if j < cli.len() {
            assert(cli[i].pid != cli[j].pid);
        } else {
            assert(!same_session(out[i], out[j]));
        }
    }
    assert forall|i: int, j: int|
        sids_unique(cli) && 0 <= i < j < out.len() && (#[trigger] out[i]).sid()
            is Some implies out[i].sid() != (#[trigger] out[j]).sid() by {
        if j < cli.len() {
            assert(cli[i].sid() != cli[j].sid());
        } else {
            assert(!same_session(out[i], out[j]));
        }
    }
}

/// No pid occurs twice.
pub open spec fn pids_unique(sessions: Seq<DetectedSession>) -> bool {
    forall|i: int, j: int|
        0 <= i < j < sessions.len() ==> (#[trigger] sessions[i]).pid != (
        #[trigger] sessions[j]).pid
}

/// No session id occurs twice.
pub open spec fn sids_unique(sessions: Seq<DetectedSession>) -> bool {
    forall|i: int, j: int|
        0 <= i < j < sessions.len() && (#[trigger] sessions[i]).sid() is Some
            ==> sessions[i].sid() != (#[trigger] sessions[j]).sid()
}

/// Whether `picks` lists positions below `bound` in increasing order.
pub open spec fn increasing_below(picks: Seq<int>, bound: int) -> bool {
    &&& forall|i: int| 0 <= i < picks.len() ==> 0 <= #[trigger] picks[i] < bound
    &&& forall|i: int, j: int| 0 <= i < j < picks.len() ==> #[trigger] picks[i] < #[trigger] picks[j]
}

/// What is appended comes from the legacy list, unchanged and in its order.
pub proof fn law_appended_in_legacy_order(
    cli: Seq<DetectedSession>,
    legacy: Seq<DetectedSession>,
)
    ensures
        exists|picks: Seq<int>| #[trigger]
            increasing_below(picks, legacy.len() as int) && merged(cli, legacy) == cli
                + picks.map_values(|k: int| legacy[k]),
    decreases legacy.len(),
{
    let out = merged(cli, legacy);
    if legacy.len() == 0 {
        let picks = Seq::<int>::empty();
        assert(increasing_below(picks, 0));
        assert(out =~= cli + picks.map_values(|k: int| legacy[k]));
    } else {
        let shorter = legacy.drop_last();
        law_appended_in_legacy_order(cli, shorter);
        let before = merged(cli, shorter);
        let picks = choose|picks: Seq<int>| #[trigger]
            increasing_below(picks, shorter.len() as int) && before == cli + picks.map_values(
                |k: int| shorter[k],
            );
        if known(before, legacy.last()) {
            assert(increasing_below(picks, legacy.len() as int));
            assert(out =~= cli + picks.map_values(|k: int| legacy[k]));
        } else {
            let more = picks.push(legacy.len() - 1);
            assert(increasing_below(more, legacy.len() as int));
            assert(out =~= cli + more.map_values(|k: int| legacy[k]));
        }
    }
}

/// Merging a legacy list in two batches gives the same as merging it at once.
pub proof fn law_merging_in_batches(
    cli: Seq<DetectedSession>,
    first: Seq<DetectedSession>,
    second: Seq<DetectedSession>,
)
    ensures
        merged(cli, first + second) == merged(merged(cli, first), second),
    decreases second.len(),
{
    if second.len() == 0 {
        assert(first + second =~= first);
    } else {
        law_merging_in_batches(cli, first, second.drop_last());
        assert((first + second).drop_last() =~= first + second.drop_last());
        assert((first + second).last() == second.last());
    }
}

/// Legacy sessions that are all known already add nothing.
pub proof fn law_known_sessions_add_nothing(
    cli: Seq<DetectedSession>,
    legacy: Seq<DetectedSession>,
)
    requires
        forall|k: int| 0 <= k < legacy.len() ==> known(cli, #[trigger] legacy[k]),
    ensures
        merged(cli, legacy) == cli,
    decreases legacy.len(),
{
    if legacy.len() > 0 {
        assert(known(cli, legacy[legacy.len() - 1]));
        assert forall|k: int| 0 <= k < legacy.len() - 1 implies known(
            cli,
            #[trigger] legacy.drop_last()[k],
        ) by {
            assert(legacy.drop_last()[k] == legacy[k]);
        }
        law_known_sessions_add_nothing(cli, legacy.drop_last());
    }
}

/// Merging the same legacy list once more changes nothing.
pub proof fn law_merging_again_changes_nothing(
    cli: Seq<DetectedSession>,
    legacy: Seq<DetectedSession>,
)
    ensures
        merged(merged(cli, legacy), legacy) == merged(cli, legacy),
{
    assert forall|k: int| 0 <= k < legacy.len() implies known(
        merged(cli, legacy),
        #[trigger] legacy[k],
    ) by {
        assert(legacy.contains(legacy[k]));
        law_no_session_is_lost(cli, legacy, legacy[k]);
    }
    law_known_sessions_add_nothing(merged(cli, legacy), legacy);
}

/// One backend failing degrades to the other: a detection fails only if the CLI
/// backend failed and the legacy backend failed too or is absent, and then with the
/// error of the CLI backend.
pub proof fn law_one_failing_backend_degrades<D, E, F>(
    cli: Detection<D, E>,
    legacy: Option<Detection<D, F>>,
    result: Detection<D, E>,
)
    requires
        combined(cli, legacy, result),
    ensures
        result is Err <==> cli is Err && !(legacy is Some && legacy->0 is Ok),
        result is Err ==> result->Err_0 == cli->Err_0,
        cli is Ok && !(legacy is Some && legacy->0 is Ok) ==> result == cli,
        cli is Err && legacy is Some && legacy->0 is Ok ==> result->Ok_0 == legacy->0->Ok_0,
{
}

/// One more legacy session adds itself at the end, unless an entry that stood before it
/// has its pid, or both have a session id and it is the same; then it adds nothing.
/// Without legacy sessions, the CLI entries are all there is.
pub proof fn law_one_more_legacy_session(
    cli: Vec<DetectedSession>,
    legacy: Vec<DetectedSession>,
    before: Vec<DetectedSession>,
    s: DetectedSession,
    longer: Vec<DetectedSession>,
    after: Vec<DetectedSession>,
)
    requires
        call_ensures(merge_sessions, (cli, legacy), before),
        longer@ == legacy@.push(s),
        call_ensures(merge_sessions, (cli, longer), after),
    ensures
        legacy@.len() == 0 ==> before@ == cli@,
        (exists|i: int|
            0 <= i < before@.len() && ((#[trigger] before@[i]).pid == s.pid || (
            before@[i].session_id is Some && s.session_id is Some && before@[i].session_id->0@
                == s.session_id->0@))) ==> after@ == before@,
        (forall|i: int|
            0 <= i < before@.len() ==> (#[trigger] before@[i]).pid != s.pid && !(
            before@[i].session_id is Some && s.session_id is Some && before@[i].session_id->0@
                == s.session_id->0@)) ==> after@ == before@.push(s),
{
    assert(longer@.drop_last() =~= legacy@);
    assert(longer@.last() == s);
    if exists|i: int|
        0 <= i < before@.len() && ((#[trigger] before@[i]).pid == s.pid || (before@[i].session_id
            is Some && s.session_id is Some && before@[i].session_id->0@ == s.session_id->0@)) {
        let i = choose|i: int|
            0 <= i < before@.len() && ((#[trigger] before@[i]).pid == s.pid || (
            before@[i].session_id is Some && s.session_id is Some && before@[i].session_id->0@
                == s.session_id->0@));
        assert(same_session(before@[i], s));
    }
}

/// A merged list begins with the CLI entries; each session of either list is in it, by
/// its pid or by its session id; and of two entries of which the later is no CLI entry,
/// neither the pids are equal nor the session ids, where both have one.
pub proof fn law_merged_list_is_complete_and_free_of_duplicates(
    cli: Vec<DetectedSession>,
    legacy: Vec<DetectedSession>,
    out: Vec<DetectedSession>,
)
    requires
        call_ensures(merge_sessions, (cli, legacy), out),
    ensures
        cli@.len() <= out@.len() <= cli@.len() + legacy@.len(),
        forall|i: int| 0 <= i < cli@.len() ==> #[trigger] out@[i] == cli@[i],
        forall|k: int|
            0 <= k < legacy@.len() ==> exists|i: int|
                0 <= i < out@.len() && ((#[trigger] out@[i]).pid == (#[trigger] legacy@[k]).pid || (
                out@[i].session_id is Some && legacy@[k].session_id is Some
                    && out@[i].session_id->0@ == legacy@[k].session_id->0@)),
        forall|i: int, j: int|
            0 <= i < j < out@.len() && cli@.len() <= j ==> (#[trigger] out@[i]).pid != (
            #[trigger] out@[j]).pid && !(out@[i].session_id is Some && out@[j].session_id is Some
                && out@[i].session_id->0@ == out@[j].session_id->0@),
{
    law_cli_entries_are_kept(cli@, legacy@);
    law_appended_sessions_are_new(cli@, legacy@);
    assert forall|i: int| 0 <= i < cli@.len() implies #[trigger] out@[i] == cli@[i] by {
        assert(out@.take(cli@.len() as int)[i] == out@[i]);
    }
    assert forall|k: int| 0 <= k < legacy@.len() implies exists|i: int|
        0 <= i < out@.len() && ((#[trigger] out@[i]).pid == (#[trigger] legacy@[k]).pid || (
        out@[i].session_id is Some && legacy@[k].session_id is Some && out@[i].session_id->0@
            == legacy@[k].session_id->0@)) by {
        assert(legacy@.contains(legacy@[k]));
        law_no_session_is_lost(cli@, legacy@, legacy@[k]);
        let i = choose|i: int|
            0 <= i < out@.len() && same_session(#[trigger] out@[i], legacy@[k]);
        assert(out@[i].pid == legacy@[k].pid || out@[i].sid() == legacy@[k].sid());
    }
    assert forall|i: int, j: int|
        0 <= i < j < out@.len() && cli@.len() <= j implies (#[trigger] out@[i]).pid != (
    #[trigger] out@[j]).pid && !(out@[i].session_id is Some && out@[j].session_id is Some
        && out@[i].session_id->0@ == out@[j].session_id->0@) by {
        assert(!same_session(out@[i], out@[j]));
    }
}

/// Where both backends answered, the detection gives exactly what merging their lists
/// gives, however long they are, and the diagnostics of the legacy backend. So each
/// session that either backend reported is in the result, by its pid or by its session
/// id, and the CLI entries come first.
pub proof fn law_both_backends_are_heard<D, E, F>(
    cli: (Vec<DetectedSession>, D),
    legacy: (Vec<DetectedSession>, D),
    result: Detection<D, E>,
    out: Vec<DetectedSession>,
)
    requires
        call_ensures(
            combine_detections::<D, E, F>,
            (Detection::<D, E>::Ok(cli), Some(Detection::<D, F>::Ok(legacy))),
            result,
        ),
        call_ensures(merge_sessions, (cli.0, legacy.0), out),
    ensures
        result is Ok,
        result->Ok_0.0@ == out@,
        result->Ok_0.1 == legacy.1,
        forall|i: int| 0 <= i < cli.0@.len() ==> #[trigger] result->Ok_0.0@[i] == cli.0@[i],
        forall|k: int|
            0 <= k < legacy.0@.len() ==> exists|i: int|
                0 <= i < result->Ok_0.0@.len() && ((#[trigger] result->Ok_0.0@[i]).pid == (
                #[trigger] legacy.0@[k]).pid || (result->Ok_0.0@[i].session_id is Some
                    && legacy.0@[k].session_id is Some && result->Ok_0.0@[i].session_id->0@
                    == legacy.0@[k].session_id->0@)),
{
    law_merged_list_is_complete_and_free_of_duplicates(cli.0, legacy.0, out);
}

/// Where one backend did not answer, the detection gives what the other gave, and the
/// CLI error where neither did.
pub proof fn law_the_other_backend_is_heard<D, E, F>(
    cli: Detection<D, E>,
    legacy: Option<Detection<D, F>>,
    result: Detection<D, E>,
)
    requires
        call_ensures(combine_detections::<D, E, F>, (cli, legacy), result),
        cli is Err || legacy is None || legacy->0 is Err,
    ensures
        cli is Ok ==> result == cli,
        cli is Err && legacy is Some && legacy->0 is Ok ==> result is Ok && result->Ok_0
            == legacy->0->Ok_0,
        cli is Err && (legacy is None || legacy->0 is Err) ==> result == cli,
{
}

/// If no two legacy sessions share a pid or a session id, and the CLI backend found
/// nothing, the legacy list is the merged list.
pub proof fn law_distinct_legacy_sessions_alone(
    cli: Vec<DetectedSession>,
    legacy: Vec<DetectedSession>,
    out: Vec<DetectedSession>,
)
    requires
        call_ensures(merge_sessions, (cli, legacy), out),
        cli@.len() == 0,
        forall|i: int, j: int|
            0 <= i < j < legacy@.len() ==> (#[trigger] legacy@[i]).pid != (
            #[trigger] legacy@[j]).pid && !(legacy@[i].session_id is Some
                && legacy@[j].session_id is Some && legacy@[i].session_id->0@
                == legacy@[j].session_id->0@),
    ensures
        out@ == legacy@,
{
    lemma_distinct_sessions_are_all_kept(cli@, legacy@, legacy@.len() as int);
    assert(legacy@.take(legacy@.len() as int) =~= legacy@);
}

proof fn lemma_distinct_sessions_are_all_kept(
    cli: Seq<DetectedSession>,
    legacy: Seq<DetectedSession>,
    n: int,
)
    requires
        cli.len() == 0,
        0 <= n <= legacy.len(),
        forall|i: int, j: int|
            0 <= i < j < legacy.len() ==> (#[trigger] legacy[i]).pid != (#[trigger] legacy[j]).pid
                && !(legacy[i].session_id is Some && legacy[j].session_id is Some
                && legacy[i].session_id->0@ == legacy[j].session_id->0@),
    ensures
        merged(cli, legacy.take(n)) == legacy.take(n),
    decreases n,
{
    if n == 0 {
        assert(legacy.take(0) =~= cli);
    } else {
        lemma_distinct_sessions_are_all_kept(cli, legacy, n - 1);
        let shorter = legacy.take(n - 1);
        assert(legacy.take(n).drop_last() =~= shorter);
        assert(legacy.take(n).last() == legacy[n - 1]);
        assert forall|i: int| 0 <= i < shorter.len() implies !same_session(
            #[trigger] shorter[i],
            legacy[n - 1],
        ) by {
            assert(shorter[i] == legacy[i]);
            assert(legacy[i].pid != legacy[n - 1].pid);
        }
        assert(legacy.take(n) =~= shorter.push(legacy[n - 1]));
    }
}

/// A detection of a merged source takes one detection of each backend that is there,
/// and keeps the backends. Without a legacy backend it gives what the CLI backend gave;
/// with one, what both gave is merged, one that failed leaves it to the other, and the
/// CLI error is given where both failed.
pub proof fn law_merged_source_runs_each_backend<
    D,
    C: SessionSource<Diagnostics = D>,
    L: SessionSource<Diagnostics = D>,
>(
    source: MergedSessionSource<C, L>,
    after: MergedSessionSource<C, L>,
    result: Detection<D, C::Error>,
)
    requires
        source.may_detect(after, result),
    ensures
        source.legacy() is None ==> after.legacy() is None && source.cli().may_detect(
            after.cli(),
            result,
        ),
        source.legacy() is Some ==> after.legacy() is Some && exists|
            c: Detection<D, C::Error>,
            l: Detection<D, L::Error>,
        |
            {
                &&& #[trigger] source.cli().may_detect(after.cli(), c)
                &&& #[trigger] source.legacy()->0.may_detect(after.legacy()->0, l)
                &&& c is Ok && l is Err ==> result == c
                &&& c is Err && l is Err ==> result == c
                &&& c is Err && l is Ok ==> result is Ok && result->Ok_0 == l->Ok_0
                &&& c is Ok && l is Ok ==> {
                    &&& result is Ok
                    &&& result->Ok_0.1 == l->Ok_0.1
                    &&& result->Ok_0.0@ == merged(c->Ok_0.0@, l->Ok_0.0@)
                }
            },
{
    let (c, l) = choose|c: Detection<D, C::Error>, l: Option<Detection<D, L::Error>>|
        {
            &&& source.cli().may_detect(after.cli(), c)
            &&& match (source.legacy(), after.legacy(), l) {
                (Some(l_before), Some(l_after), Some(l_result)) => l_before.may_detect(
                    l_after,
                    l_result,
                ),
                (None, None, None) => true,
                _ => false,
            }
            &&& #[trigger] combined(c, l, result)
        };
    if source.legacy() is Some {
        assert(source.cli().may_detect(after.cli(), c));
        assert(source.legacy()->0.may_detect(after.legacy()->0, l->0));
    }
}

/// A merged source keeps the backends it is given; a legacy backend that could not be
/// set up is left out.
pub proof fn law_new_source_keeps_its_backends<C, L, E>(
    cli: C,
    legacy: Result<L, E>,
    source: MergedSessionSource<C, L>,
)
    requires
        call_ensures(MergedSessionSource::<C, L>::new::<E>, (cli, legacy), source),
    ensures
        source.cli() == cli,
        legacy is Ok ==> source.legacy() == Some(legacy->Ok_0),
        legacy is Err ==> source.legacy() is None,
{
}

} // verus!
