//! The configuration file's data model: update policies, their parts, the
//! partial patches that override them, and the merge of a patch into a policy.

use std::collections::HashMap;
use indexmap::IndexMap;
use vstd::prelude::*;

verus! {

#[verifier::external_type_specification]
#[verifier::external_body]
#[verifier::reject_recursive_types(K)]
#[verifier::reject_recursive_types(V)]
#[verifier::reject_recursive_types(S)]
pub struct ExIndexMap<K, V, S>(IndexMap<K, V, S>);

/// The view of an optional string.
pub open spec fn opt_str(o: Option<String>) -> Option<Seq<char>> {
    match o {
        Some(s) => Some(s@),
        None => None,
    }
}

/// The view of a list of strings.
pub open spec fn strs(v: Seq<String>) -> Seq<Seq<char>> {
    v.map_values(|s: String| s@)
}

/// The view of an optional list of strings.
pub open spec fn opt_strs(o: Option<Vec<String>>) -> Option<Seq<Seq<char>>> {
    match o {
        Some(v) => Some(strs(v@)),
        None => None,
    }
}

/// The first of two optional values that is present.
pub open spec fn either<T>(first: Option<T>, second: Option<T>) -> Option<T> {
    if first is Some {
        first
    } else {
        second
    }
}

/// When updates are checked for.
#[derive(Debug, Clone, Default)]
pub struct Schedule {
    /// The frequency: "daily", "weekly" or "monthly".
    pub interval: String,
    /// The day for weekly updates (e.g. "monday").
    pub day: Option<String>,
    /// The time of day ("hh:mm").
    pub time: Option<String>,
    /// The time zone of `time`.
    pub timezone: Option<String>,
    /// A cron expression for custom scheduling.
    pub cronjob: Option<String>,
}

pub struct ScheduleView {
    pub interval: Seq<char>,
    pub day: Option<Seq<char>>,
    pub time: Option<Seq<char>>,
    pub timezone: Option<Seq<char>>,
    pub cronjob: Option<Seq<char>>,
}

impl View for Schedule {
    type V = ScheduleView;

    open spec fn view(&self) -> ScheduleView {
        ScheduleView {
            interval: self.interval@,
            day: opt_str(self.day),
            time: opt_str(self.time),
            timezone: opt_str(self.timezone),
            cronjob: opt_str(self.cronjob),
        }
    }
}

/// How commit messages are written.
#[derive(Debug, Clone)]
pub struct CommitMessage {
    /// Prefix for all commit messages.
    pub prefix: Option<String>,
    /// A different prefix for development dependency updates.
    pub prefix_development: Option<String>,
    /// Additional text after the prefix.
    pub include_scope: Option<String>,
}

pub struct CommitMessageView {
    pub prefix: Option<Seq<char>>,
    pub prefix_development: Option<Seq<char>>,
    pub include_scope: Option<Seq<char>>,
}

impl View for CommitMessage {
    type V = CommitMessageView;

    open spec fn view(&self) -> CommitMessageView {
        CommitMessageView {
            prefix: opt_str(self.prefix),
            prefix_development: opt_str(self.prefix_development),
            include_scope: opt_str(self.include_scope),
        }
    }
}

/// How pull request branches are named.
#[derive(Debug, Clone)]
pub struct PullRequestBranchName {
    /// The separator used in branch names.
    pub separator: String,
}

impl View for PullRequestBranchName {
    type V = Seq<char>;

    open spec fn view(&self) -> Seq<char> {
        self.separator@
    }
}

/// A rule that allows or ignores dependencies.
#[derive(Debug, Clone)]
pub struct DependencyRule {
    /// The dependency name pattern (wildcards allowed).
    pub dependency_name: Option<String>,
    /// The dependency type ("direct", "indirect", "development", ...).
    pub dependency_type: Option<String>,
    /// For ignore rules: versions or version ranges.
    pub versions: Option<Vec<String>>,
    /// For ignore rules: update types ("minor", "patch", ...).
    pub update_types: Option<Vec<String>>,
}

pub struct DependencyRuleView {
    pub dependency_name: Option<Seq<char>>,
    pub dependency_type: Option<Seq<char>>,
    pub versions: Option<Seq<Seq<char>>>,
    pub update_types: Option<Seq<Seq<char>>>,
}

impl View for DependencyRule {
    type V = DependencyRuleView;

    open spec fn view(&self) -> DependencyRuleView {
        DependencyRuleView {
            dependency_name: opt_str(self.dependency_name),
            dependency_type: opt_str(self.dependency_type),
            versions: opt_strs(self.versions),
            update_types: opt_strs(self.update_types),
        }
    }
}

/// The view of an optional list of rules.
pub open spec fn opt_rules(o: Option<Vec<DependencyRule>>) -> Option<Seq<DependencyRuleView>> {
    match o {
        Some(v) => Some(v@.map_values(|r: DependencyRule| r@)),
        None => None,
    }
}

/// An outside package registry.
#[derive(Debug, Clone)]
pub struct Registry {
    /// The registry type (e.g. "docker-registry", "npm-registry").
    pub registry_type: String,
    /// Where the registry is reached.
    pub url: String,
    /// A user name for authentication.
    pub username: Option<String>,
    /// A password, often a reference to a secret.
    pub password: Option<String>,
    /// An authentication token, in place of user name and password.
    pub token: Option<String>,
    /// Whether `url` replaces the ecosystem's default base URL.
    pub replaces_base: Option<bool>,
}

/// A named group that batches several dependency updates into one pull request.
#[derive(Debug, Clone, Default)]
pub struct Group {
    /// "security-updates" or "version-updates".
    pub applies_to: Option<String>,
    /// "development" or "production".
    pub dependency_type: Option<String>,
    /// Names of dependencies in the group.
    pub patterns: Option<Vec<String>>,
    /// Names of dependencies to exclude.
    pub exclude_patterns: Option<Vec<String>>,
    /// Update types ("minor", "patch", "major").
    pub update_types: Option<Vec<String>>,
}

pub struct GroupView {
    pub applies_to: Option<Seq<char>>,
    pub dependency_type: Option<Seq<char>>,
    pub patterns: Option<Seq<Seq<char>>>,
    pub exclude_patterns: Option<Seq<Seq<char>>>,
    pub update_types: Option<Seq<Seq<char>>>,
}

impl View for Group {
    type V = GroupView;

    open spec fn view(&self) -> GroupView {
        GroupView {
            applies_to: opt_str(self.applies_to),
            dependency_type: opt_str(self.dependency_type),
            patterns: opt_strs(self.patterns),
            exclude_patterns: opt_strs(self.exclude_patterns),
            update_types: opt_strs(self.update_types),
        }
    }
}

/// A minimum age, in days, that a new version must reach before it is proposed.
#[derive(Debug, Clone, Default)]
pub struct Cooldown {
    /// Days for dependencies without a more specific rule.
    pub default_days: Option<u32>,
    /// Days for major version updates.
    pub semver_major_days: Option<u32>,
    /// Days for minor version updates.
    pub semver_minor_days: Option<u32>,
    /// Days for patch version updates.
    pub semver_patch_days: Option<u32>,
    /// Dependencies the cooldown applies to (wildcards allowed).
    pub included: Option<Vec<String>>,
    /// Dependencies exempt from the cooldown (wildcards allowed).
    pub exclude: Option<Vec<String>>,
}

pub struct CooldownView {
    pub default_days: Option<u32>,
    pub semver_major_days: Option<u32>,
    pub semver_minor_days: Option<u32>,
    pub semver_patch_days: Option<u32>,
    pub included: Option<Seq<Seq<char>>>,
    pub exclude: Option<Seq<Seq<char>>>,
}

impl View for Cooldown {
    type V = CooldownView;

    open spec fn view(&self) -> CooldownView {
        CooldownView {
            default_days: self.default_days,
            semver_major_days: self.semver_major_days,
            semver_minor_days: self.semver_minor_days,
            semver_patch_days: self.semver_patch_days,
            included: opt_strs(self.included),
            exclude: opt_strs(self.exclude),
        }
    }
}

/// The named groups of a map, in the map's order.
pub uninterp spec fn group_entries(m: IndexMap<String, Group>) -> Seq<(Seq<char>, GroupView)>;

/// The entries of an ordered map after `key` is set to `value`: an existing key
/// keeps its place, a new one goes last.
pub open spec fn entries_with(
    entries: Seq<(Seq<char>, GroupView)>,
    key: Seq<char>,
    value: GroupView,
) -> Seq<(Seq<char>, GroupView)> {
    if exists|i: int| 0 <= i < entries.len() && (#[trigger] entries[i]).0 == key {
        let i = choose|i: int| 0 <= i < entries.len() && (#[trigger] entries[i]).0 == key;
        entries.update(i, (key, value))
    } else {
        entries.push((key, value))
    }
}

/// Relies on `IndexMap::new`: the new map is empty.
#[verifier::external_body]
pub(crate) fn new_groups() -> (r: IndexMap<String, Group>)
    ensures
        group_entries(r) == Seq::<(Seq<char>, GroupView)>::empty(),
{
    IndexMap::new()
}

/// Relies on `IndexMap::insert`: an existing key keeps its place and takes the
/// new value, a new key is appended.
#[verifier::external_body]
pub(crate) fn insert_group(m: &mut IndexMap<String, Group>, key: String, value: Group)
    ensures
        group_entries(*final(m)) == entries_with(group_entries(*old(m)), key@, value@),
{
    m.insert(key, value);
}

/// Relies on `IndexMap::clone`: the copy holds the same groups in the same order.
#[verifier::external_body]
pub(crate) fn clone_groups(m: &IndexMap<String, Group>) -> (r: IndexMap<String, Group>)
    ensures
        group_entries(r) == group_entries(*m),
{
    m.clone()
}

/// The view of an optional group map.
pub open spec fn opt_groups(o: Option<IndexMap<String, Group>>) -> Option<Seq<(Seq<char>, GroupView)>> {
    match o {
        Some(m) => Some(group_entries(m)),
        None => None,
    }
}

/// A copy of an optional string.
pub(crate) fn copy_opt_str(o: &Option<String>) -> (r: Option<String>)
    ensures
        opt_str(r) == opt_str(*o),
{
    match o {
        Some(s) => Some(s.clone()),
        None => None,
    }
}

/// A copy of a list of strings.
pub(crate) fn copy_strs(v: &Vec<String>) -> (r: Vec<String>)
    ensures
        strs(r@) == strs(v@),
{
    let mut r: Vec<String> = Vec::new();
    let mut i: usize = 0;
    while i < v.len()
        invariant
            0 <= i <= v@.len(),
            r@.len() == i,
            forall|j: int| 0 <= j < i ==> (#[trigger] r@[j])@ == v@[j]@,
        decreases v@.len() - i,
    {
        r.push(v[i].clone());
        i = i + 1;
    }
    proof {
        assert(strs(r@) =~= strs(v@));
    }
    r
}

/// A copy of an optional list of strings.
pub(crate) fn copy_opt_strs(o: &Option<Vec<String>>) -> (r: Option<Vec<String>>)
    ensures
        opt_strs(r) == opt_strs(*o),
{
    match o {
        Some(v) => Some(copy_strs(v)),
        None => None,
    }
}

impl Schedule {
    /// A copy of the schedule.
    pub fn duplicate(&self) -> (r: Schedule)
        ensures
            r@ == self@,
    {
        Schedule {
            interval: self.interval.clone(),
            day: copy_opt_str(&self.day),
            time: copy_opt_str(&self.time),
            timezone: copy_opt_str(&self.timezone),
            cronjob: copy_opt_str(&self.cronjob),
        }
    }
}

impl CommitMessage {
    /// A copy of the commit message style.
    pub fn duplicate(&self) -> (r: CommitMessage)
        ensures
            r@ == self@,
    {
        CommitMessage {
            prefix: copy_opt_str(&self.prefix),
            prefix_development: copy_opt_str(&self.prefix_development),
            include_scope: copy_opt_str(&self.include_scope),
        }
    }
}

impl PullRequestBranchName {
    /// A copy of the branch naming style.
    pub fn duplicate(&self) -> (r: PullRequestBranchName)
        ensures
            r@ == self@,
    {
        PullRequestBranchName { separator: self.separator.clone() }
    }
}

impl DependencyRule {
    /// A copy of the rule.
    pub fn duplicate(&self) -> (r: DependencyRule)
        ensures
            r@ == self@,
    {
        DependencyRule {
            dependency_name: copy_opt_str(&self.dependency_name),
            dependency_type: copy_opt_str(&self.dependency_type),
            versions: copy_opt_strs(&self.versions),
            update_types: copy_opt_strs(&self.update_types),
        }
    }
}

impl Group {
    /// A copy of the group.
    pub fn duplicate(&self) -> (r: Group)
        ensures
            r@ == self@,
    {
        Group {
            applies_to: copy_opt_str(&self.applies_to),
            dependency_type: copy_opt_str(&self.dependency_type),
            patterns: copy_opt_strs(&self.patterns),
            exclude_patterns: copy_opt_strs(&self.exclude_patterns),
            update_types: copy_opt_strs(&self.update_types),
        }
    }
}

impl Cooldown {
    /// A copy of the cooldown policy.
    pub fn duplicate(&self) -> (r: Cooldown)
        ensures
            r@ == self@,
    {
        Cooldown {
            default_days: self.default_days,
            semver_major_days: self.semver_major_days,
            semver_minor_days: self.semver_minor_days,
            semver_patch_days: self.semver_patch_days,
            included: copy_opt_strs(&self.included),
            exclude: copy_opt_strs(&self.exclude),
        }
    }
}

/// A copy of an optional list of rules.
pub(crate) fn copy_opt_rules(o: &Option<Vec<DependencyRule>>) -> (r: Option<Vec<DependencyRule>>)
    ensures
        opt_rules(r) == opt_rules(*o),
{
    match o {
        None => None,
        Some(v) => {
            let mut r: Vec<DependencyRule> = Vec::new();
            let mut i: usize = 0;
            while i < v.len()
                invariant
                    0 <= i <= v@.len(),
                    r@.len() == i,
                    forall|j: int| 0 <= j < i ==> (#[trigger] r@[j])@ == v@[j]@,
                decreases v@.len() - i,
            {
                r.push(v[i].duplicate());
                i = i + 1;
            }
            proof {
                assert(r@.map_values(|x: DependencyRule| x@) =~= v@.map_values(|x: DependencyRule| x@));
            }
            Some(r)
        },
    }
}

/// The view of an optional value that has a view.
pub open spec fn opt_view<T: View>(o: Option<T>) -> Option<T::V> {
    match o {
        Some(x) => Some(x@),
        None => None,
    }
}

/// The update policy of one ecosystem in one repository.
#[derive(Debug, Clone, Default)]
pub struct Update {
    /// The package ecosystem (e.g. "npm", "docker").
    pub package_ecosystem: String,
    /// A single directory where the manifests reside.
    pub directory: Option<String>,
    /// Alternatively, a list of directories.
    pub directories: Option<Vec<String>>,
    /// When updates are checked for.
    pub schedule: Schedule,
    /// Rules that allow specific dependencies.
    pub allow: Option<Vec<DependencyRule>>,
    /// Rules that ignore dependencies or versions.
    pub ignore: Option<Vec<DependencyRule>>,
    /// Assignees of the pull requests.
    pub assignees: Option<Vec<String>>,
    /// How commit messages are written.
    pub commit_message: Option<CommitMessage>,
    /// Labels of the pull requests.
    pub labels: Option<Vec<String>>,
    /// A milestone, by numeric id.
    pub milestone: Option<u32>,
    /// The most pull requests open at once.
    pub open_pull_requests_limit: Option<u32>,
    /// Names of the registries this update uses.
    pub registries: Option<Vec<String>>,
    /// Who is asked to look over the pull requests.
    pub reviewers: Option<Vec<String>>,
    /// The branch that version updates target.
    pub target_branch: Option<String>,
    /// Whether vendored dependencies are maintained.
    pub vendor: Option<bool>,
    /// How version constraints are updated.
    pub versioning_strategy: Option<String>,
    /// Whether outside code may run during updates.
    pub insecure_external_code_execution: Option<bool>,
    /// How pull request branches are named.
    pub pull_request_branch_name: Option<PullRequestBranchName>,
    /// The rebase strategy.
    pub rebase_strategy: Option<String>,
    /// Named groups of updates.
    pub groups: Option<IndexMap<String, Group>>,
    /// The cooldown policy.
    pub cooldown: Option<Cooldown>,
}

pub struct UpdateView {
    pub package_ecosystem: Seq<char>,
    pub directory: Option<Seq<char>>,
    pub directories: Option<Seq<Seq<char>>>,
    pub schedule: ScheduleView,
    pub allow: Option<Seq<DependencyRuleView>>,
    pub ignore: Option<Seq<DependencyRuleView>>,
    pub assignees: Option<Seq<Seq<char>>>,
    pub commit_message: Option<CommitMessageView>,
    pub labels: Option<Seq<Seq<char>>>,
    pub milestone: Option<u32>,
    pub open_pull_requests_limit: Option<u32>,
    pub registries: Option<Seq<Seq<char>>>,
    pub reviewers: Option<Seq<Seq<char>>>,
    pub target_branch: Option<Seq<char>>,
    pub vendor: Option<bool>,
    pub versioning_strategy: Option<Seq<char>>,
    pub insecure_external_code_execution: Option<bool>,
    pub pull_request_branch_name: Option<Seq<char>>,
    pub rebase_strategy: Option<Seq<char>>,
    pub groups: Option<Seq<(Seq<char>, GroupView)>>,
    pub cooldown: Option<CooldownView>,
}

impl View for Update {
    type V = UpdateView;

    open spec fn view(&self) -> UpdateView {
        UpdateView {
            package_ecosystem: self.package_ecosystem@,
            directory: opt_str(self.directory),
            directories: opt_strs(self.directories),
            schedule: self.schedule@,
            allow: opt_rules(self.allow),
            ignore: opt_rules(self.ignore),
            assignees: opt_strs(self.assignees),
            commit_message: opt_view(self.commit_message),
            labels: opt_strs(self.labels),
            milestone: self.milestone,
            open_pull_requests_limit: self.open_pull_requests_limit,
            registries: opt_strs(self.registries),
            reviewers: opt_strs(self.reviewers),
            target_branch: opt_str(self.target_branch),
            vendor: self.vendor,
            versioning_strategy: opt_str(self.versioning_strategy),
            insecure_external_code_execution: self.insecure_external_code_execution,
            pull_request_branch_name: opt_view(self.pull_request_branch_name),
            rebase_strategy: opt_str(self.rebase_strategy),
            groups: opt_groups(self.groups),
            cooldown: opt_view(self.cooldown),
        }
    }
}

/// A partial patch to an update policy: each field that is present replaces
/// the policy's own.
#[derive(Debug, Clone, Default)]
pub struct UpdateOverride {
    /// The package ecosystem (e.g. "npm", "docker").
    pub package_ecosystem: String,
    /// A single directory where the manifests reside.
    pub directory: Option<String>,
    /// Alternatively, a list of directories.
    pub directories: Option<Vec<String>>,
    /// When updates are checked for.
    pub schedule: Option<Schedule>,
    /// Rules that allow specific dependencies.
    pub allow: Option<Vec<DependencyRule>>,
    /// Rules that ignore dependencies or versions.
    pub ignore: Option<Vec<DependencyRule>>,
    /// Assignees of the pull requests.
    pub assignees: Option<Vec<String>>,
    /// How commit messages are written.
    pub commit_message: Option<CommitMessage>,
    /// Labels of the pull requests.
    pub labels: Option<Vec<String>>,
    /// A milestone, by numeric id.
    pub milestone: Option<u32>,
    /// The most pull requests open at once.
    pub open_pull_requests_limit: Option<u32>,
    /// Names of the registries this update uses.
    pub registries: Option<Vec<String>>,
    /// Who is asked to look over the pull requests.
    pub reviewers: Option<Vec<String>>,
    /// The branch that version updates target.
    pub target_branch: Option<String>,
    /// Whether vendored dependencies are maintained.
    pub vendor: Option<bool>,
    /// How version constraints are updated.
    pub versioning_strategy: Option<String>,
    /// Whether outside code may run during updates.
    pub insecure_external_code_execution: Option<bool>,
    /// How pull request branches are named.
    pub pull_request_branch_name: Option<PullRequestBranchName>,
    /// The rebase strategy.
    pub rebase_strategy: Option<String>,
    /// Named groups of updates.
    pub groups: Option<IndexMap<String, Group>>,
    /// The cooldown policy.
    pub cooldown: Option<Cooldown>,
}

pub struct UpdateOverrideView {
    pub package_ecosystem: Seq<char>,
    pub directory: Option<Seq<char>>,
    pub directories: Option<Seq<Seq<char>>>,
    pub schedule: Option<ScheduleView>,
    pub allow: Option<Seq<DependencyRuleView>>,
    pub ignore: Option<Seq<DependencyRuleView>>,
    pub assignees: Option<Seq<Seq<char>>>,
    pub commit_message: Option<CommitMessageView>,
    pub labels: Option<Seq<Seq<char>>>,
    pub milestone: Option<u32>,
    pub open_pull_requests_limit: Option<u32>,
    pub registries: Option<Seq<Seq<char>>>,
    pub reviewers: Option<Seq<Seq<char>>>,
    pub target_branch: Option<Seq<char>>,
    pub vendor: Option<bool>,
    pub versioning_strategy: Option<Seq<char>>,
    pub insecure_external_code_execution: Option<bool>,
    pub pull_request_branch_name: Option<Seq<char>>,
    pub rebase_strategy: Option<Seq<char>>,
    pub groups: Option<Seq<(Seq<char>, GroupView)>>,
    pub cooldown: Option<CooldownView>,
}

impl View for UpdateOverride {
    type V = UpdateOverrideView;

    open spec fn view(&self) -> UpdateOverrideView {
        UpdateOverrideView {
            package_ecosystem: self.package_ecosystem@,
            directory: opt_str(self.directory),
            directories: opt_strs(self.directories),
            schedule: opt_view(self.schedule),
            allow: opt_rules(self.allow),
            ignore: opt_rules(self.ignore),
            assignees: opt_strs(self.assignees),
            commit_message: opt_view(self.commit_message),
            labels: opt_strs(self.labels),
            milestone: self.milestone,
            open_pull_requests_limit: self.open_pull_requests_limit,
            registries: opt_strs(self.registries),
            reviewers: opt_strs(self.reviewers),
            target_branch: opt_str(self.target_branch),
            vendor: self.vendor,
            versioning_strategy: opt_str(self.versioning_strategy),
            insecure_external_code_execution: self.insecure_external_code_execution,
            pull_request_branch_name: opt_view(self.pull_request_branch_name),
            rebase_strategy: opt_str(self.rebase_strategy),
            groups: opt_groups(self.groups),
            cooldown: opt_view(self.cooldown),
        }
    }
}

impl UpdateView {
    /// At most one of `directory` and `directories` is present.
    pub open spec fn wf(self) -> bool {
        !(self.directory is Some && self.directories is Some)
    }
}

impl UpdateOverrideView {
    /// At most one of `directory` and `directories` is present.
    pub open spec fn wf(self) -> bool {
        !(self.directory is Some && self.directories is Some)
    }
}

/// The policy `base` patched by `patch`: each field is the patch's where the
/// patch has one, and the base's otherwise; the ecosystem is the base's.
pub open spec fn merged(base: UpdateView, patch: UpdateOverrideView) -> UpdateView {
    UpdateView {
        package_ecosystem: base.package_ecosystem,
        directory: either(patch.directory, base.directory),
        directories: either(patch.directories, base.directories),
        schedule: match patch.schedule {
            Some(s) => s,
            None => base.schedule,
        },
        allow: either(patch.allow, base.allow),
        ignore: either(patch.ignore, base.ignore),
        assignees: either(patch.assignees, base.assignees),
        commit_message: either(patch.commit_message, base.commit_message),
        labels: either(patch.labels, base.labels),
        milestone: either(patch.milestone, base.milestone),
        open_pull_requests_limit: either(patch.open_pull_requests_limit, base.open_pull_requests_limit),
        registries: either(patch.registries, base.registries),
        reviewers: either(patch.reviewers, base.reviewers),
        target_branch: either(patch.target_branch, base.target_branch),
        vendor: either(patch.vendor, base.vendor),
        versioning_strategy: either(patch.versioning_strategy, base.versioning_strategy),
        insecure_external_code_execution: either(patch.insecure_external_code_execution, base.insecure_external_code_execution),
        pull_request_branch_name: either(patch.pull_request_branch_name, base.pull_request_branch_name),
        rebase_strategy: either(patch.rebase_strategy, base.rebase_strategy),
        groups: either(patch.groups, base.groups),
        cooldown: either(patch.cooldown, base.cooldown),
    }
}

impl Update {
    /// This policy patched by `other`: each field that `other` holds replaces
    /// this one's; the ecosystem stays.
    pub fn override_config(self, other: &UpdateOverride) -> (r: Update)
        ensures
            r@ == merged(self@, other@),
    {
        Update {
            package_ecosystem: self.package_ecosystem,
            directory: match &other.directory {
                Some(x) => Some(x.clone()),
                None => self.directory,
            },
            directories: match &other.directories {
                Some(x) => Some(copy_strs(x)),
                None => self.directories,
            },
            schedule: match &other.schedule {
                Some(s) => s.duplicate(),
                None => self.schedule,
            },
            allow: match &other.allow {
                Some(_) => copy_opt_rules(&other.allow),
                None => self.allow,
            },
            ignore: match &other.ignore {
                Some(_) => copy_opt_rules(&other.ignore),
                None => self.ignore,
            },
            assignees: match &other.assignees {
                Some(x) => Some(copy_strs(x)),
                None => self.assignees,
            },
            commit_message: match &other.commit_message {
                Some(x) => Some(x.duplicate()),
                None => self.commit_message,
            },
            labels: match &other.labels {
                Some(x) => Some(copy_strs(x)),
                None => self.labels,
            },
            milestone: match other.milestone {
                Some(x) => Some(x),
                None => self.milestone,
            },
            open_pull_requests_limit: match other.open_pull_requests_limit {
                Some(x) => Some(x),
                None => self.open_pull_requests_limit,
            },
            registries: match &other.registries {
                Some(x) => Some(copy_strs(x)),
                None => self.registries,
            },
            reviewers: match &other.reviewers {
                Some(x) => Some(copy_strs(x)),
                None => self.reviewers,
            },
            target_branch: match &other.target_branch {
                Some(x) => Some(x.clone()),
                None => self.target_branch,
            },
            vendor: match other.vendor {
                Some(x) => Some(x),
                None => self.vendor,
            },
            versioning_strategy: match &other.versioning_strategy {
                Some(x) => Some(x.clone()),
                None => self.versioning_strategy,
            },
            insecure_external_code_execution: match other.insecure_external_code_execution {
                Some(x) => Some(x),
                None => self.insecure_external_code_execution,
            },
            pull_request_branch_name: match &other.pull_request_branch_name {
                Some(x) => Some(x.duplicate()),
                None => self.pull_request_branch_name,
            },
            rebase_strategy: match &other.rebase_strategy {
                Some(x) => Some(x.clone()),
                None => self.rebase_strategy,
            },
            groups: match &other.groups {
                Some(x) => Some(clone_groups(x)),
                None => self.groups,
            },
            cooldown: match &other.cooldown {
                Some(x) => Some(x.duplicate()),
                None => self.cooldown,
            },
        }
    }
}

/// A configuration file: its version, its update policies in order, and the
/// registries they may use.
#[derive(Debug, Clone, Default)]
pub struct DependabotConfig {
    /// The configuration version (always 2).
    pub version: u32,
    /// One update policy for each ecosystem and directory.
    pub updates: Vec<Update>,
    /// Private registries, by name.
    pub registries: Option<HashMap<String, Registry>>,
}

pub struct DependabotConfigView {
    pub version: u32,
    pub updates: Seq<UpdateView>,
    pub registries: Option<Map<String, Registry>>,
}

impl View for DependabotConfig {
    type V = DependabotConfigView;

    open spec fn view(&self) -> DependabotConfigView {
        DependabotConfigView {
            version: self.version,
            updates: self.updates@.map_values(|u: Update| u@),
            registries: match self.registries {
                Some(m) => Some(m@),
                None => None,
            },
        }
    }
}

} // verus!
