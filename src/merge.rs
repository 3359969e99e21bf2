//! From detected manifests, defaults and overrides to a repository's
//! configuration: baseline policies, override application, conflict checks.

use vstd::prelude::*;
use std::collections::HashMap;
use indexmap::IndexMap;
use crate::dependabot::{
    clone_groups, group_entries, insert_group, new_groups, strs, merged, Cooldown, CooldownView, DependabotConfig,
    DependabotConfigView, Group, GroupView, UpdateOverrideView, Registry, Schedule, ScheduleView, Update,
    UpdateOverride, UpdateView,
};
use crate::ecosystem::Ecosystem;
use crate::text::{owned, push_text};

verus! {

/// The pieces of `s` between `/` separators, empty pieces included, as
/// `str::split('/')` yields them.
pub open spec fn split_slash(s: Seq<char>) -> Seq<Seq<char>>
    decreases s.len(),
{
    if s.len() == 0 {
        seq![Seq::<char>::empty()]
    } else {
        let r = split_slash(s.drop_last());
        if s.last() == '/' {
            r.push(Seq::<char>::empty())
        } else {
            r.update(r.len() - 1, r.last().push(s.last()))
        }
    }
}

/// The pieces joined with `/` between them.
pub open spec fn join_slash(parts: Seq<Seq<char>>) -> Seq<char>
    decreases parts.len(),
{
    if parts.len() == 0 {
        Seq::<char>::empty()
    } else if parts.len() == 1 {
        parts[0]
    } else {
        join_slash(parts.drop_last()) + seq!['/'] + parts.last()
    }
}

/// A raw path has the four leading segments of a search result path and a file name.
pub open spec fn path_ok(raw: Seq<char>) -> bool {
    split_slash(raw).len() >= 5
}

/// The directory of a raw path, relative to the repository root: the segments
/// after the first four, without the last (the file name), after a `/`.
pub open spec fn normalized(raw: Seq<char>) -> Seq<char> {
    let parts = split_slash(raw);
    seq!['/'] + join_slash(parts.subrange(4, parts.len() - 1))
}

/// Relies on `str::split` with a `char` pattern: the pieces between the separators,
/// in order, empty ones included.
#[verifier::external_body]
fn split_on_slash(s: &str) -> (r: Vec<String>)
    ensures
        r@.map_values(|p: String| p@) == split_slash(s@),
{
    s.split('/').map(|p| p.to_string()).collect()
}

/// The directory that a raw search result path names, or `None` where the path
/// is too short to hold one.
pub fn normalize_path(raw: &String) -> (r: Option<String>)
    ensures
        path_ok(raw@) <==> r is Some,
        r matches Some(d) ==> d@ == normalized(raw@),
{
    let parts = split_on_slash(raw.as_str());
    let ghost ps = parts@.map_values(|p: String| p@);
    if parts.len() < 5 {
        return None;
    }
    let mut out = owned("/");
    let mut k: usize = 4;
    proof {
        reveal_strlit("/");
        assert(ps.subrange(4, 4) =~= Seq::<Seq<char>>::empty());
        assert(out@ =~= seq!['/'] + join_slash(ps.subrange(4, 4)));
    }
    while k < parts.len() - 1
        invariant
            ps == split_slash(raw@),
            ps == parts@.map_values(|p: String| p@),
            5 <= parts@.len(),
            4 <= k <= parts@.len() - 1,
            out@ == seq!['/'] + join_slash(ps.subrange(4, k as int)),
        decreases parts@.len() - k,
    {
        let ghost before = out@;
        if k > 4 {
            push_text(&mut out, "/");
            proof {
                reveal_strlit("/");
            }
        }
        push_text(&mut out, parts[k].as_str());
        proof {
            let sub = ps.subrange(4, k + 1);
            assert(sub.drop_last() =~= ps.subrange(4, k as int));
            assert(ps[k as int] == parts@[k as int]@);
            assert(sub.last() == parts@[k as int]@);
            if k > 4 {
                assert(out@ =~= seq!['/'] + join_slash(sub));
            } else {
                assert(sub.len() == 1);
                assert(out@ =~= seq!['/'] + join_slash(sub));
            }
        }
        k = k + 1;
    }
    Some(out)
}

/// Why the configuration of a repository could not be produced.
#[derive(Debug, Clone)]
pub enum MergeError {
    /// More than one override names this ecosystem.
    AmbiguousOverride { package_ecosystem: String },
    /// A detected manifest path is too short to name a directory.
    MalformedPath { path: String },
}

/// The view of a merge error.
pub enum MergeErrorView {
    AmbiguousOverride { package_ecosystem: Seq<char> },
    MalformedPath { path: Seq<char> },
}

impl View for MergeError {
    type V = MergeErrorView;

    open spec fn view(&self) -> MergeErrorView {
        match self {
            MergeError::AmbiguousOverride { package_ecosystem } => MergeErrorView::AmbiguousOverride {
                package_ecosystem: package_ecosystem@,
            },
            MergeError::MalformedPath { path } => MergeErrorView::MalformedPath { path: path@ },
        }
    }
}

/// The positions, in order, of the overrides for ecosystem `eco`.
pub open spec fn match_indices(os: Seq<UpdateOverride>, eco: Seq<char>) -> Seq<int>
    decreases os.len(),
{
    if os.len() == 0 {
        Seq::<int>::empty()
    } else {
        let r = match_indices(os.drop_last(), eco);
        if os.last().package_ecosystem@ == eco {
            r.push(os.len() - 1)
        } else {
            r
        }
    }
}

/// The policy `base` after the overrides of its ecosystem: unchanged where none
/// names it, patched by the one that does, and `None` where several do.
pub open spec fn applied(base: UpdateView, os: Seq<UpdateOverride>) -> Option<UpdateView> {
    let m = match_indices(os, base.package_ecosystem);
    if m.len() == 0 {
        Some(base)
    } else if m.len() == 1 {
        Some(merged(base, os[m[0]]@))
    } else {
        None
    }
}

proof fn lemma_match_indices_bounds(os: Seq<UpdateOverride>, eco: Seq<char>)
    ensures
        forall|k: int|
            0 <= k < match_indices(os, eco).len() ==> 0 <= #[trigger] match_indices(os, eco)[k]
                < os.len() && os[match_indices(os, eco)[k]].package_ecosystem@ == eco,
    decreases os.len(),
{
    if os.len() > 0 {
        lemma_match_indices_bounds(os.drop_last(), eco);
    }
}

/// Applies to `update` the override that the repository has for its ecosystem.
/// Fails where more than one override names that ecosystem.
pub fn apply_override(update: Update, overrides: &Vec<UpdateOverride>) -> (r: Result<Update, MergeError>)
    ensures
        r is Ok <==> applied(update@, overrides@) is Some,
        r matches Ok(u) ==> applied(update@, overrides@) == Some(u@),
        r matches Err(e) ==> e@ == (MergeErrorView::AmbiguousOverride {
            package_ecosystem: update@.package_ecosystem,
        }),
{
    let ghost eco = update@.package_ecosystem;
    let mut count: usize = 0;
    let mut first: usize = 0;
    let mut i: usize = 0;
    while i < overrides.len()
        invariant
            0 <= i <= overrides@.len(),
            eco == update@.package_ecosystem,
            count == match_indices(overrides@.take(i as int), eco).len(),
            count <= i,
            count >= 1 ==> first == match_indices(overrides@.take(i as int), eco)[0],
        decreases overrides@.len() - i,
    {
        proof {
            assert(overrides@.take(i + 1).drop_last() =~= overrides@.take(i as int));
        }
        if overrides[i].package_ecosystem == update.package_ecosystem {
            if count == 0 {
                first = i;
            }
            count = count + 1;
        }
        i = i + 1;
    }
    proof {
        assert(overrides@.take(overrides@.len() as int) =~= overrides@);
        lemma_match_indices_bounds(overrides@, eco);
    }
    if count > 1 {
        Err(MergeError::AmbiguousOverride { package_ecosystem: update.package_ecosystem })
    } else if count == 1 {
        Ok(update.override_config(&overrides[first]))
    } else {
        Ok(update)
    }
}

/// The settings that every generated update policy starts from.
pub struct Defaults {
    /// When updates are checked for.
    pub schedule: Schedule,
    /// The groups of updates.
    pub groups: IndexMap<String, Group>,
    /// The cooldown policy, for ecosystems that have versions.
    pub cooldown: Cooldown,
    /// The most pull requests open at once.
    pub open_pull_requests_limit: Option<u32>,
}

pub struct DefaultsView {
    pub schedule: ScheduleView,
    pub groups: Seq<(Seq<char>, GroupView)>,
    pub cooldown: CooldownView,
    pub open_pull_requests_limit: Option<u32>,
}

impl View for Defaults {
    type V = DefaultsView;

    open spec fn view(&self) -> DefaultsView {
        DefaultsView {
            schedule: self.schedule@,
            groups: group_entries(self.groups),
            cooldown: self.cooldown@,
            open_pull_requests_limit: self.open_pull_requests_limit,
        }
    }
}

/// The policy generated for ecosystem `eco` in directory `dir` before overrides:
/// the default schedule, groups and pull request limit, and the default cooldown
/// where `with_cooldown` holds.
pub open spec fn baseline_entry(eco: Seq<char>, dir: Seq<char>, d: DefaultsView, with_cooldown: bool) -> UpdateView {
    UpdateView {
        package_ecosystem: eco,
        directory: Some(dir),
        directories: None,
        schedule: d.schedule,
        allow: None,
        ignore: None,
        assignees: None,
        commit_message: None,
        labels: None,
        milestone: None,
        open_pull_requests_limit: d.open_pull_requests_limit,
        registries: None,
        reviewers: None,
        target_branch: None,
        vendor: None,
        versioning_strategy: None,
        insecure_external_code_execution: None,
        pull_request_branch_name: None,
        rebase_strategy: None,
        groups: Some(d.groups),
        cooldown: if with_cooldown { Some(d.cooldown) } else { None },
    }
}

/// The policy generated for `eco` in `dir` before overrides.
pub fn baseline_update(eco: String, dir: String, d: &Defaults, with_cooldown: bool) -> (r: Update)
    ensures
        r@ == baseline_entry(eco@, dir@, d@, with_cooldown),
{
    Update {
        package_ecosystem: eco,
        directory: Some(dir),
        directories: None,
        schedule: d.schedule.duplicate(),
        allow: None,
        ignore: None,
        assignees: None,
        commit_message: None,
        labels: None,
        milestone: None,
        open_pull_requests_limit: d.open_pull_requests_limit,
        registries: None,
        reviewers: None,
        target_branch: None,
        vendor: None,
        versioning_strategy: None,
        insecure_external_code_execution: None,
        pull_request_branch_name: None,
        rebase_strategy: None,
        groups: Some(clone_groups(&d.groups)),
        cooldown: if with_cooldown { Some(d.cooldown.duplicate()) } else { None },
    }
}

/// Some accepted policy already covers ecosystem `eco` in directory `dir`.
pub open spec fn has_conflict(acc: Seq<UpdateView>, dir: Seq<char>, eco: Seq<char>) -> bool {
    exists|i: int|
        0 <= i < acc.len() && (#[trigger] acc[i]).directory == Some(dir) && acc[i].package_ecosystem
            == eco
}

/// Whether an ecosystem gets the cooldown policy: submodules have no versions to wait on.
pub open spec fn takes_cooldown(eco: Ecosystem) -> bool {
    !(eco is Submodule)
}

/// The policies of a repository, in order: the one for its workflows where
/// `has_ci` holds, then one for each detected manifest whose directory and
/// ecosystem no earlier policy covers; each after its override.
pub open spec fn build_spec(
    detected: Seq<(String, Ecosystem)>,
    has_ci: bool,
    os: Seq<UpdateOverride>,
    d: DefaultsView,
) -> Result<Seq<UpdateView>, MergeErrorView>
    decreases detected.len(),
{
    if detected.len() == 0 {
        if has_ci {
            let eco = Ecosystem::GitHubActions.spec_name();
            match applied(baseline_entry(eco, "/"@, d, true), os) {
                Some(u) => Ok(seq![u]),
                None => Err(MergeErrorView::AmbiguousOverride { package_ecosystem: eco }),
            }
        } else {
            Ok(Seq::<UpdateView>::empty())
        }
    } else {
        match build_spec(detected.drop_last(), has_ci, os, d) {
            Err(e) => Err(e),
            Ok(acc) => {
                let raw = detected.last().0@;
                let eco = detected.last().1;
                if !path_ok(raw) {
                    Err(MergeErrorView::MalformedPath { path: raw })
                } else if has_conflict(acc, normalized(raw), eco.spec_name()) {
                    Ok(acc)
                } else {
                    match applied(
                        baseline_entry(eco.spec_name(), normalized(raw), d, takes_cooldown(eco)),
                        os,
                    ) {
                        Some(u) => Ok(acc.push(u)),
                        None => Err(
                            MergeErrorView::AmbiguousOverride { package_ecosystem: eco.spec_name() },
                        ),
                    }
                }
            },
        }
    }
}

proof fn lemma_build_err_prefix(
    detected: Seq<(String, Ecosystem)>,
    k: int,
    has_ci: bool,
    os: Seq<UpdateOverride>,
    d: DefaultsView,
)
    requires
        0 <= k <= detected.len(),
        build_spec(detected.take(k), has_ci, os, d) is Err,
    ensures
        build_spec(detected, has_ci, os, d) == build_spec(detected.take(k), has_ci, os, d),
    decreases detected.len(),
{
    if detected.len() == k {
        assert(detected.take(k) =~= detected);
    } else {
        assert(detected.drop_last().take(k) =~= detected.take(k));
        lemma_build_err_prefix(detected.drop_last(), k, has_ci, os, d);
    }
}

/// The views of a list of policies.
pub open spec fn views(v: Seq<Update>) -> Seq<UpdateView> {
    v.map_values(|u: Update| u@)
}

/// Whether a policy of `updates` already covers `eco` in `dir`.
fn conflicts(updates: &Vec<Update>, dir: &String, eco: &String) -> (r: bool)
    ensures
        r == has_conflict(views(updates@), dir@, eco@),
{
    let mut j: usize = 0;
    while j < updates.len()
        invariant
            0 <= j <= updates@.len(),
            forall|k: int|
                0 <= k < j ==> !((#[trigger] views(updates@)[k]).directory == Some(dir@)
                    && views(updates@)[k].package_ecosystem == eco@),
        decreases updates@.len() - j,
    {
        let hit = match &updates[j].directory {
            Some(d) => *d == *dir && updates[j].package_ecosystem == *eco,
            None => false,
        };
        if hit {
            assert(views(updates@)[j as int].directory == Some(dir@));
            return true;
        }
        j = j + 1;
    }
    false
}

/// The update policies of a repository: the one for its workflows where
/// `has_ci` holds, then one for each detected `(path, ecosystem)` in order,
/// each after the repository's override for its ecosystem. A detection whose
/// directory and ecosystem an earlier policy covers is dropped.
pub fn build_updates(
    detected: &Vec<(String, Ecosystem)>,
    has_ci: bool,
    overrides: &Vec<UpdateOverride>,
    defaults: &Defaults,
) -> (r: Result<Vec<Update>, MergeError>)
    ensures
        r is Ok <==> build_spec(detected@, has_ci, overrides@, defaults@) is Ok,
        r matches Ok(v) ==> build_spec(detected@, has_ci, overrides@, defaults@) == Ok::<
            Seq<UpdateView>,
            MergeErrorView,
        >(views(v@)),
        r matches Err(e) ==> build_spec(detected@, has_ci, overrides@, defaults@) == Err::<
            Seq<UpdateView>,
            MergeErrorView,
        >(e@),
{
    let mut updates: Vec<Update> = Vec::new();
    proof {
        assert(detected@.take(0) =~= Seq::<(String, Ecosystem)>::empty());
    }
    if has_ci {
        let eco = Ecosystem::GitHubActions.to_string();
        let base = baseline_update(eco, owned("/"), defaults, true);
        match apply_override(base, overrides) {
            Ok(u) => updates.push(u),
            Err(e) => {
                proof {
                    lemma_build_err_prefix(detected@, 0, has_ci, overrides@, defaults@);
                }
                return Err(e);
            },
        }
    }
    proof {
        assert(views(updates@) =~= build_spec(detected@.take(0), has_ci, overrides@, defaults@)->Ok_0);
    }
    let mut i: usize = 0;
    while i < detected.len()
        invariant
            0 <= i <= detected@.len(),
            build_spec(detected@.take(i as int), has_ci, overrides@, defaults@) == Ok::<
                Seq<UpdateView>,
                MergeErrorView,
            >(views(updates@)),
        decreases detected@.len() - i,
    {
        proof {
            assert(detected@.take(i + 1).drop_last() =~= detected@.take(i as int));
            assert(detected@.take(i + 1).last() == detected@[i as int]);
        }
        let raw = &detected[i].0;
        let ecosystem = detected[i].1;
        let dir = match normalize_path(raw) {
            Some(d) => d,
            None => {
                proof {
                    lemma_build_err_prefix(detected@, i + 1, has_ci, overrides@, defaults@);
                }
                return Err(MergeError::MalformedPath { path: raw.clone() });
            },
        };
        let eco = ecosystem.to_string();
        if !conflicts(&updates, &dir, &eco) {
            let with_cooldown = match ecosystem {
                Ecosystem::Submodule => false,
                _ => true,
            };
            let base = baseline_update(eco, dir, defaults, with_cooldown);
            match apply_override(base, overrides) {
                Ok(u) => {
                    let ghost prev = views(updates@);
                    let ghost uv = u@;
                    updates.push(u);
                    proof {
                        assert(views(updates@) =~= prev.push(uv));
                    }
                },
                Err(e) => {
                    proof {
                        lemma_build_err_prefix(detected@, i + 1, has_ci, overrides@, defaults@);
                    }
                    return Err(e);
                },
            }
        }
        i = i + 1;
    }
    proof {
        assert(detected@.take(detected@.len() as int) =~= detected@);
    }
    Ok(updates)
}

/// The configuration file that holds `updates`, with the registries where
/// there are any, or `None` where there is no policy to publish.
pub fn finalize(updates: Vec<Update>, registries: &HashMap<String, Registry>) -> (r: Option<DependabotConfig>)
    ensures
        r is None <==> updates@.len() == 0,
        r matches Some(c) ==> c@ == (DependabotConfigView {
            version: 2,
            updates: views(updates@),
            registries: if registries@.is_empty() { None } else { Some(registries@) },
        }),
{
    if updates.len() == 0 {
        return None;
    }
    let regs = if registries.is_empty() { None } else { Some(registries.clone()) };
    Some(DependabotConfig { version: 2, updates, registries: regs })
}

/// The configuration of a repository: its policies, each after its override,
/// and the registries where there are any; `None` where it has no policy.
pub fn generate_config(
    detected: &Vec<(String, Ecosystem)>,
    has_ci: bool,
    overrides: &Vec<UpdateOverride>,
    registries: &HashMap<String, Registry>,
    defaults: &Defaults,
) -> (r: Result<Option<DependabotConfig>, MergeError>)
    ensures
        r is Ok <==> build_spec(detected@, has_ci, overrides@, defaults@) is Ok,
        r matches Err(e) ==> build_spec(detected@, has_ci, overrides@, defaults@) == Err::<
            Seq<UpdateView>,
            MergeErrorView,
        >(e@),
        r matches Ok(c) ==> {
            let v = build_spec(detected@, has_ci, overrides@, defaults@)->Ok_0;
            &&& c is None <==> v.len() == 0
            &&& c matches Some(c) ==> c@ == (DependabotConfigView {
                version: 2,
                updates: v,
                registries: if registries@.is_empty() { None } else { Some(registries@) },
            })
        },
{
    match build_updates(detected, has_ci, overrides, defaults) {
        Ok(updates) => Ok(finalize(updates, registries)),
        Err(e) => Err(e),
    }
}

proof fn lemma_applied_keeps(base: UpdateView, os: Seq<UpdateOverride>)
    requires
        applied(base, os) is Some,
    ensures
        applied(base, os)->0.package_ecosystem == base.package_ecosystem,
        (forall|i: int| 0 <= i < os.len() ==> (#[trigger] os[i])@.directory is None)
            ==> applied(base, os)->0.directory == base.directory,
        (forall|i: int| 0 <= i < os.len() ==> (#[trigger] os[i])@.directories is None)
            ==> applied(base, os)->0.directories == base.directories,
{
    lemma_match_indices_bounds(os, base.package_ecosystem);
}

proof fn lemma_one_match(os: Seq<UpdateOverride>, eco: Seq<char>, i: int)
    requires
        0 <= i < os.len(),
        os[i].package_ecosystem@ == eco,
    ensures
        match_indices(os, eco).len() >= 1,
    decreases os.len(),
{
    if i < os.len() - 1 {
        lemma_one_match(os.drop_last(), eco, i);
    }
}

proof fn lemma_two_matches(os: Seq<UpdateOverride>, eco: Seq<char>, i: int, j: int)
    requires
        0 <= i < j < os.len(),
        os[i].package_ecosystem@ == eco,
        os[j].package_ecosystem@ == eco,
    ensures
        match_indices(os, eco).len() >= 2,
    decreases os.len(),
{
    if j == os.len() - 1 {
        lemma_one_match(os.drop_last(), eco, i);
    } else {
        lemma_two_matches(os.drop_last(), eco, i, j);
    }
}

/// Going through the overrides a second time changes nothing: a policy that
/// came out of them comes out of them again unchanged.
pub proof fn lemma_apply_override_idempotent(base: UpdateView, os: Seq<UpdateOverride>)
    ensures
        applied(base, os) matches Some(m) ==> applied(m, os) == Some(m),
{
    if applied(base, os) is Some {
        lemma_applied_keeps(base, os);
        let m = applied(base, os)->0;
        let idx = match_indices(os, base.package_ecosystem);
        if idx.len() == 1 {
            let o = os[idx[0]]@;
            assert(merged(m, o) == m);
        }
    }
}

/// With no override, a policy stays as it is.
pub proof fn lemma_no_override_keeps(base: UpdateView)
    ensures
        applied(base, Seq::<UpdateOverride>::empty()) == Some(base),
{
}

/// Two overrides for the ecosystem of a policy make its merge fail.
pub proof fn lemma_two_overrides_fail(base: UpdateView, os: Seq<UpdateOverride>, i: int, j: int)
    requires
        0 <= i < j < os.len(),
        os[i].package_ecosystem@ == base.package_ecosystem,
        os[j].package_ecosystem@ == base.package_ecosystem,
    ensures
        applied(base, os) is None,
{
    lemma_two_matches(os, base.package_ecosystem, i, j);
}

/// A patch that sets only the milestone gives the policy that milestone and
/// leaves every other field as it was.
pub proof fn lemma_milestone_only(base: UpdateView, patch: UpdateOverrideView)
    requires
        patch.milestone is Some,
        patch.directory is None,
        patch.directories is None,
        patch.schedule is None,
        patch.allow is None,
        patch.ignore is None,
        patch.assignees is None,
        patch.commit_message is None,
        patch.labels is None,
        patch.open_pull_requests_limit is None,
        patch.registries is None,
        patch.reviewers is None,
        patch.target_branch is None,
        patch.vendor is None,
        patch.versioning_strategy is None,
        patch.insecure_external_code_execution is None,
        patch.pull_request_branch_name is None,
        patch.rebase_strategy is None,
        patch.groups is None,
        patch.cooldown is None,
    ensures
        merged(base, patch) == (UpdateView { milestone: patch.milestone, ..base }),
{
}

/// Of a policy and a patch that each fill at most one of `directory` and
/// `directories`, the merge fills at most one too, unless the patch fills the
/// one that the policy leaves empty.
pub proof fn lemma_merged_directory_exclusive(base: UpdateView, patch: UpdateOverrideView)
    requires
        base.wf(),
        patch.wf(),
    ensures
        merged(base, patch).wf() <==> !(patch.directory is Some && base.directories is Some) && !(
        patch.directories is Some && base.directory is Some),
{
}

/// Where no override sets `directories`, no generated policy fills both
/// `directory` and `directories`.
pub proof fn lemma_build_directory_exclusive(
    detected: Seq<(String, Ecosystem)>,
    has_ci: bool,
    os: Seq<UpdateOverride>,
    d: DefaultsView,
)
    requires
        forall|i: int| 0 <= i < os.len() ==> (#[trigger] os[i])@.directories is None,
    ensures
        build_spec(detected, has_ci, os, d) matches Ok(v) ==> forall|k: int|
            0 <= k < v.len() ==> (#[trigger] v[k]).wf(),
    decreases detected.len(),
{
    if detected.len() == 0 {
        if has_ci {
            let b = baseline_entry(Ecosystem::GitHubActions.spec_name(), "/"@, d, true);
            if applied(b, os) is Some {
                lemma_applied_keeps(b, os);
            }
        }
    } else {
        lemma_build_directory_exclusive(detected.drop_last(), has_ci, os, d);
        let raw = detected.last().0@;
        let eco = detected.last().1;
        let b = baseline_entry(eco.spec_name(), normalized(raw), d, takes_cooldown(eco));
        if applied(b, os) is Some {
            lemma_applied_keeps(b, os);
        }
    }
}

/// Where no override sets `directory`, no two generated policies share both
/// directory and ecosystem: a later detection of the same pair is dropped.
pub proof fn lemma_build_no_duplicates(
    detected: Seq<(String, Ecosystem)>,
    has_ci: bool,
    os: Seq<UpdateOverride>,
    d: DefaultsView,
)
    requires
        forall|i: int| 0 <= i < os.len() ==> (#[trigger] os[i])@.directory is None,
    ensures
        build_spec(detected, has_ci, os, d) matches Ok(v) ==> forall|a: int, b: int|
            0 <= a < b < v.len() ==> !((#[trigger] v[a]).directory == (#[trigger] v[b]).directory
                && v[a].package_ecosystem == v[b].package_ecosystem),
    decreases detected.len(),
{
    if detected.len() > 0 {
        lemma_build_no_duplicates(detected.drop_last(), has_ci, os, d);
        let raw = detected.last().0@;
        let eco = detected.last().1;
        let b = baseline_entry(eco.spec_name(), normalized(raw), d, takes_cooldown(eco));
        if applied(b, os) is Some {
            lemma_applied_keeps(b, os);
        }
        match build_spec(detected.drop_last(), has_ci, os, d) {
            Ok(acc) => {
                if path_ok(raw) && !has_conflict(acc, normalized(raw), eco.spec_name()) && applied(b, os) is Some {
                    let v = acc.push(applied(b, os)->0);
                    assert forall|x: int, y: int|
                        0 <= x < y < v.len() implies !((#[trigger] v[x]).directory == (#[trigger] v[y]).directory
                        && v[x].package_ecosystem == v[y].package_ecosystem) by {
                        if y == v.len() - 1 {
                            assert(v[x] == acc[x]);
                        } else {
                            assert(v[x] == acc[x] && v[y] == acc[y]);
                        }
                    }
                }
            },
            Err(_) => {},
        }
    }
}

/// A group of `applies_to` updates of the given types, which leaves out the
/// organisation's own crates.
pub open spec fn standard_group(applies_to: Seq<char>, update_types: Seq<Seq<char>>) -> GroupView {
    GroupView {
        applies_to: Some(applies_to),
        dependency_type: None,
        patterns: None,
        exclude_patterns: Some(seq!["kittycad*"@]),
        update_types: Some(update_types),
    }
}

/// The settings that the organisation's repositories start from: a weekly
/// check on Saturday in the Los Angeles time zone, at most five open pull
/// requests, five groups, and a seven day cooldown that spares its own crates.
pub open spec fn standard_defaults() -> DefaultsView {
    DefaultsView {
        schedule: ScheduleView {
            interval: "weekly"@,
            day: Some("saturday"@),
            time: None,
            timezone: Some("America/Los_Angeles"@),
            cronjob: None,
        },
        groups: seq![
            ("security"@, standard_group("security-updates"@, seq!["minor"@, "patch"@])),
            ("security-major"@, standard_group("security-updates"@, seq!["major"@])),
            ("patch"@, standard_group("version-updates"@, seq!["patch"@])),
            ("major"@, standard_group("version-updates"@, seq!["major"@])),
            ("minor"@, standard_group("version-updates"@, seq!["minor"@, "patch"@])),
        ],
        cooldown: CooldownView {
            default_days: Some(7),
            semver_major_days: None,
            semver_minor_days: None,
            semver_patch_days: None,
            included: None,
            exclude: Some(seq!["*kcl*"@, "*zoo*"@, "*kittycad*"@]),
        },
        open_pull_requests_limit: Some(5),
    }
}

/// A list of one string.
fn one_text(a: &str) -> (r: Vec<String>)
    ensures
        strs(r@) == seq![a@],
{
    let mut r: Vec<String> = Vec::new();
    r.push(owned(a));
    assert(strs(r@) =~= seq![a@]);
    r
}

/// A list of two strings.
fn two_texts(a: &str, b: &str) -> (r: Vec<String>)
    ensures
        strs(r@) == seq![a@, b@],
{
    let mut r: Vec<String> = Vec::new();
    r.push(owned(a));
    r.push(owned(b));
    assert(strs(r@) =~= seq![a@, b@]);
    r
}

fn make_group(applies_to: &str, update_types: Vec<String>) -> (r: Group)
    ensures
        r@ == standard_group(applies_to@, strs(update_types@)),
{
    Group {
        applies_to: Some(owned(applies_to)),
        dependency_type: None,
        patterns: None,
        exclude_patterns: Some(one_text("kittycad*")),
        update_types: Some(update_types),
    }
}

impl Defaults {
    /// The settings that the organisation's repositories start from.
    pub fn standard() -> (r: Defaults)
        ensures
            r@ == standard_defaults(),
    {
        let schedule = Schedule {
            interval: owned("weekly"),
            day: Some(owned("saturday")),
            time: None,
            timezone: Some(owned("America/Los_Angeles")),
            cronjob: None,
        };
        let mut groups = new_groups();
        proof {
            reveal_strlit("security");
            reveal_strlit("security-major");
            reveal_strlit("patch");
            reveal_strlit("major");
            reveal_strlit("minor");
        }
        assert("security"@.len() != "security-major"@.len());
        assert("security"@.len() != "patch"@.len() && "security-major"@.len() != "patch"@.len());
        assert("security"@.len() != "major"@.len() && "security-major"@.len() != "major"@.len());
        assert("security"@.len() != "minor"@.len() && "security-major"@.len() != "minor"@.len());
        assert("patch"@[0] != "major"@[0] && "patch"@[0] != "minor"@[0] && "major"@[1] != "minor"@[1]);
        let ghost e0 = group_entries(groups);
        insert_group(&mut groups, owned("security"), make_group("security-updates", two_texts("minor", "patch")));
        let ghost e1 = group_entries(groups);
        assert(e1 == e0.push(("security"@, standard_group("security-updates"@, seq!["minor"@, "patch"@]))));
        insert_group(&mut groups, owned("security-major"), make_group("security-updates", one_text("major")));
        let ghost e2 = group_entries(groups);
        assert(e1[0].0 != "security-major"@);
        assert(e2 == e1.push(("security-major"@, standard_group("security-updates"@, seq!["major"@]))));
        insert_group(&mut groups, owned("patch"), make_group("version-updates", one_text("patch")));
        let ghost e3 = group_entries(groups);
        assert(e2[0].0 != "patch"@ && e2[1].0 != "patch"@);
        assert(e3 == e2.push(("patch"@, standard_group("version-updates"@, seq!["patch"@]))));
        insert_group(&mut groups, owned("major"), make_group("version-updates", one_text("major")));
        let ghost e4 = group_entries(groups);
        assert(e3[0].0 != "major"@ && e3[1].0 != "major"@ && e3[2].0 != "major"@);
        assert(e4 == e3.push(("major"@, standard_group("version-updates"@, seq!["major"@]))));
        insert_group(&mut groups, owned("minor"), make_group("version-updates", two_texts("minor", "patch")));
        let ghost e5 = group_entries(groups);
        assert(e4[0].0 != "minor"@ && e4[1].0 != "minor"@ && e4[2].0 != "minor"@ && e4[3].0 != "minor"@);
        assert(e5 == e4.push(("minor"@, standard_group("version-updates"@, seq!["minor"@, "patch"@]))));
        let mut exclude: Vec<String> = Vec::new();
        exclude.push(owned("*kcl*"));
        exclude.push(owned("*zoo*"));
        exclude.push(owned("*kittycad*"));
        assert(strs(exclude@) =~= seq!["*kcl*"@, "*zoo*"@, "*kittycad*"@]);
        let cooldown = Cooldown {
            default_days: Some(7),
            semver_major_days: None,
            semver_minor_days: None,
            semver_patch_days: None,
            included: None,
            exclude: Some(exclude),
        };
        let r = Defaults { schedule, groups, cooldown, open_pull_requests_limit: Some(5) };
        assert(group_entries(r.groups) =~= standard_defaults().groups);
        r
    }
}

} // verus!
