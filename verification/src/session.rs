//! Session Driver: the top-level control loop over modules, groups and
//! candidates, written as a state machine.  An unverified runner executes
//! each returned [`Action`] (a search, a manifest-tool call, a build stage, a
//! tree reset) and feeds the result back as an [`Event`]; every decision —
//! filtering, staging, outcome routing, ledger growth — is taken here.
//!
//! The machine keeps a ghost log with one record per processed candidate;
//! the session invariant ties the confirmed-removal ledger to that log, and
//! the laws are stated over both.

use vstd::prelude::*;
use crate::groups::DependencyGroup;
use crate::groups::spec_extra_flag;
use crate::groups::spec_ignore_group;
use crate::ledger::LedgerEntry;
use crate::ledger::LedgerEntryModel;
use crate::ledger::ledger_view;
use crate::ledger::render_all;
use crate::ledger::render_replay;
use crate::ledger::spec_concat_replays;
use crate::ledger::spec_replay;
use crate::manifest::DependencyEntry;
use crate::manifest::EntryModel;
use crate::manifest::entries_view;
use crate::manifest::manifest_ignores;
use crate::manifest::manifest_ok;
use crate::manifest::names_view;
use crate::manifest::read_group;
use crate::manifest::spec_group_entries;
use crate::oracle::spec_pattern;
use crate::oracle::usage_pattern;
use crate::outcome::VerificationOutcome;
use crate::pipeline::PipelineRun;
use crate::pipeline::PipelineStep;
use crate::pipeline::Stage;
use crate::pipeline::spec_on_result;
use crate::policy::IgnorePolicy;
use crate::policy::spec_should_skip;

verus! {

/// A condition that aborts the whole session.
#[derive(Debug)]
pub enum SessionError {
    /// The manifest-removal tool cannot be invoked at all.
    RemovalToolMissing,
    /// The workspace's working tree has pending changes.
    DirtyCheckout,
    /// The usage-oracle tool cannot be invoked at all.
    OracleMissing,
    /// A module's manifest could not be read.
    ManifestUnreadable,
    /// A module's manifest is not well-formed.
    ManifestInvalid,
    /// The pre-mutation verification of the workspace failed.
    BaselineFailed(VerificationOutcome),
}

/// Where the session stands; each waiting phase names the event it expects.
#[derive(Clone, Copy, Debug, PartialEq, Eq, Structural)]
pub enum Phase {
    Start,
    AwaitRmTool,
    AwaitGitStatus,
    AwaitProbe,
    AwaitBaseline,
    StartPass,
    AwaitManifest,
    AtEntry,
    AwaitOracle,
    AwaitRemove,
    AwaitVerify,
    AwaitReset,
    Finishing,
    Done,
    Failed,
}

/// What the runner reports back after performing an action.
#[derive(Debug)]
pub enum Event {
    /// Nothing to report; asks the machine for its next internal move.
    Tick,
    /// An external tool finished; `detail` is its diagnostic text.
    ToolDone { ok: bool, detail: String },
    /// The version-control status output for the workspace root.
    GitStatus { stdout: String, stderr: String },
    /// The all-features probe finished; `doc_flags` says, per module, whether
    /// a documentation-testable library target was seen.
    ProbeDone { all_features_ok: bool, doc_flags: Vec<bool> },
    /// The text of the current module's manifest, if it could be read.
    ManifestText { text: Option<String> },
    /// The usage oracle's verdict; `None` when its tool cannot be invoked.
    OracleDone { verdict: Option<bool> },
    /// The module's working tree was restored to its committed state.
    ResetDone,
}

/// What the runner must do next.
#[derive(Debug)]
pub enum Action {
    /// Nothing external; feed `Event::Tick` back.
    Continue,
    /// Check that the manifest-removal tool can be invoked.
    CheckRemovalTool,
    /// Query version-control status at `dir`.
    QueryGitStatus { dir: String },
    /// Compile-check `dir` with every optional feature enabled.
    RunProbe { dir: String },
    /// Compile-check all targets at `dir` under the session's feature mode.
    RunCheck { dir: String, all_features: bool },
    /// Release-build all targets at `dir`.
    RunBuild { dir: String, all_features: bool },
    /// Compile the documentation examples at `dir` without running any test.
    RunDocTest { dir: String, all_features: bool },
    /// Read the manifest of the module at `dir`.
    ReadManifest { dir: String },
    /// Search the module's source tree for the usage pattern.
    RunOracle { dir: String, pattern: String },
    /// Remove one dependency from the module's manifest.
    RunRemove { dir: String, flag: Option<String>, name: String },
    /// Discard all uncommitted changes in the module's tree.
    RunReset { dir: String },
    /// Write the replay artifact.
    WriteArtifact { path: String, content: String },
    /// No unused dependencies were found; nothing is written.
    ReportNoUnused,
}

/// How one processed candidate was resolved.
pub enum Resolution {
    /// Excluded by the ignore policy; no external process ran for it.
    SkippedPolicy,
    /// The usage oracle reported the name as used; no mutation ran.
    SkippedOracle,
    /// The removal was attempted; `reset_done` says the tree was restored.
    Attempted { remove_ok: bool, outcome: VerificationOutcome, reset_done: bool },
}

/// The ghost record of one processed candidate.
pub struct CandidateRecord {
    pub module: Seq<char>,
    pub group: DependencyGroup,
    pub name: Seq<char>,
    pub optional: bool,
    /// The module-local ignore names of the candidate's pass.
    pub local: Seq<Seq<char>>,
    /// The oracle's verdict, `None` when the policy resolved the candidate
    /// before the oracle was consulted.
    pub oracle_used: Option<bool>,
    pub resolution: Resolution,
}

/// The session machine.
pub struct SessionState {
    /// The workspace root directory.
    pub root: String,
    /// The module directories, in enumeration order.
    pub modules: Vec<String>,
    pub policy: IgnorePolicy,
    /// The session feature mode, fixed by the probe.
    pub all_features: bool,
    /// Per module: whether it has a documentation-testable library target.
    pub doc_flags: Vec<bool>,
    pub group_idx: usize,
    pub module_idx: usize,
    /// The current pass's declarations, read fresh at the pass's start.
    pub entries: Vec<DependencyEntry>,
    pub local_ignores: Vec<String>,
    pub entry_idx: usize,
    pub run: PipelineRun,
    pub pending: VerificationOutcome,
    pub remove_ok: bool,
    pub oracle_used: Ghost<Option<bool>>,
    pub ledger: Vec<LedgerEntry>,
    pub phase: Phase,
    pub error: Option<SessionError>,
    pub log: Ghost<Seq<CandidateRecord>>,
}

/// The group processed in pass number `i`: the normal group first, then
/// development, then build.
pub open spec fn group_of_idx(i: int) -> DependencyGroup {
    if i == 0 {
        DependencyGroup::Normal
    } else if i == 1 {
        DependencyGroup::Dev
    } else {
        DependencyGroup::Build
    }
}

fn group_of_idx_exec(i: usize) -> (g: DependencyGroup)
    ensures
        g == group_of_idx(i as int),
{
    if i == 0 {
        DependencyGroup::Normal
    } else if i == 1 {
        DependencyGroup::Dev
    } else {
        DependencyGroup::Build
    }
}

/// Whether module `i` gets the documentation stage; a module the probe said
/// nothing about gets it.
pub open spec fn doc_flag(s: SessionState, i: int) -> bool {
    if 0 <= i < s.doc_flags@.len() {
        s.doc_flags@[i]
    } else {
        true
    }
}

pub open spec fn cur_module(s: SessionState) -> Seq<char> {
    s.modules@[s.module_idx as int]@
}

pub open spec fn cur_entry(s: SessionState) -> EntryModel {
    s.entries@[s.entry_idx as int]@
}

/// Whether the ignore policy excludes the current candidate.
pub open spec fn policy_skips(s: SessionState) -> bool {
    spec_should_skip(
        names_view(s.policy.global@),
        names_view(s.local_ignores@),
        cur_entry(s).name,
        cur_entry(s).optional,
    )
}

/// The ghost record the machine appends for the current candidate.
pub open spec fn record_for(
    s: SessionState,
    oracle_used: Option<bool>,
    res: Resolution,
) -> CandidateRecord {
    CandidateRecord {
        module: cur_module(s),
        group: cur_entry(s).group,
        name: cur_entry(s).name,
        optional: cur_entry(s).optional,
        local: names_view(s.local_ignores@),
        oracle_used,
        resolution: res,
    }
}

/// A record of a removal that passed: the mutation succeeded and every
/// applicable verification stage succeeded.
pub open spec fn is_confirmed(r: CandidateRecord) -> bool {
    r.resolution matches Resolution::Attempted {
        remove_ok: true,
        outcome: VerificationOutcome::Success,
        ..
    }
}

/// The ledger entry a confirmed record stands for.
pub open spec fn model_of(r: CandidateRecord) -> LedgerEntryModel {
    LedgerEntryModel {
        module: r.module,
        name: r.name,
        group: r.group,
        replay: spec_replay(r.module, r.name, r.group),
    }
}

/// The ledger the log owes: one entry per confirmed record, in order.
pub open spec fn ledger_of(log: Seq<CandidateRecord>) -> Seq<LedgerEntryModel>
    decreases log.len(),
{
    if log.len() == 0 {
        Seq::<LedgerEntryModel>::empty()
    } else if is_confirmed(log.last()) {
        ledger_of(log.drop_last()).push(model_of(log.last()))
    } else {
        ledger_of(log.drop_last())
    }
}

/// What holds of every record the machine writes.
pub open spec fn record_wf(r: CandidateRecord, global: Seq<Seq<char>>) -> bool {
    &&& (r.resolution is SkippedPolicy <==> spec_should_skip(global, r.local, r.name, r.optional))
    &&& (r.resolution is SkippedOracle ==> r.oracle_used == Some(true))
    &&& (r.resolution is Attempted ==> r.oracle_used == Some(false))
    &&& (r.resolution matches Resolution::Attempted { reset_done, .. } ==> reset_done)
}

pub open spec fn log_wf(log: Seq<CandidateRecord>, global: Seq<Seq<char>>) -> bool {
    forall|i: int| 0 <= i < log.len() ==> record_wf(#[trigger] log[i], global)
}

/// The phases inside one module's pass for one group.
pub open spec fn in_pass(s: SessionState) -> bool {
    ||| s.phase == Phase::AwaitManifest
    ||| s.phase == Phase::AtEntry
    ||| s.phase == Phase::AwaitOracle
    ||| s.phase == Phase::AwaitRemove
    ||| s.phase == Phase::AwaitVerify
    ||| s.phase == Phase::AwaitReset
}

/// The phases in which one candidate is under consideration.
pub open spec fn at_candidate(s: SessionState) -> bool {
    ||| s.phase == Phase::AwaitOracle
    ||| s.phase == Phase::AwaitRemove
    ||| s.phase == Phase::AwaitVerify
    ||| s.phase == Phase::AwaitReset
}

/// The phases in which the current module's tree may hold an open mutation.
pub open spec fn mutation_open(s: SessionState) -> bool {
    ||| s.phase == Phase::AwaitRemove
    ||| s.phase == Phase::AwaitVerify
    ||| s.phase == Phase::AwaitReset
}

/// The session invariant: every state the machine can reach satisfies it.
pub open spec fn inv(s: SessionState) -> bool {
    &&& s.group_idx <= 3
    &&& s.module_idx <= s.modules@.len()
    &&& s.entry_idx <= s.entries@.len()
    &&& (in_pass(s) ==> s.group_idx < 3 && s.module_idx < s.modules@.len())
    &&& (at_candidate(s) ==> s.entry_idx < s.entries@.len())
    &&& (at_candidate(s) ==> !policy_skips(s))
    &&& (mutation_open(s) ==> s.oracle_used@ == Some(false))
    &&& ((s.phase == Phase::AwaitBaseline || s.phase == Phase::AwaitVerify) ==> s.run.all_features
        == s.all_features)
    &&& ledger_view(s.ledger@) == ledger_of(s.log@)
    &&& log_wf(s.log@, names_view(s.policy.global@))
}

// ---------------------------------------------------------------------------
// The transition relation, one predicate per waiting phase.
// ---------------------------------------------------------------------------

/// Configuration the machine never changes.
pub open spec fn frame_ok(pre: SessionState, post: SessionState) -> bool {
    &&& post.root == pre.root
    &&& post.modules == pre.modules
    &&& post.policy.global == pre.policy.global
}

pub open spec fn same_mode(pre: SessionState, post: SessionState) -> bool {
    post.all_features == pre.all_features && post.doc_flags == pre.doc_flags
}

pub open spec fn same_pass(pre: SessionState, post: SessionState) -> bool {
    &&& post.group_idx == pre.group_idx
    &&& post.module_idx == pre.module_idx
    &&& post.entries == pre.entries
    &&& post.local_ignores == pre.local_ignores
    &&& post.entry_idx == pre.entry_idx
}

pub open spec fn same_records(pre: SessionState, post: SessionState) -> bool {
    post.ledger == pre.ledger && post.log@ == pre.log@
}

/// The action that starts the given pipeline stage at `dir`.
pub open spec fn is_stage_action(a: Action, st: Stage, dir: Seq<char>, af: bool) -> bool {
    match st {
        Stage::Check => a matches Action::RunCheck { dir: d, all_features: f } && d@ == dir && f
            == af,
        Stage::Build => a matches Action::RunBuild { dir: d, all_features: f } && d@ == dir && f
            == af,
        Stage::DocTest => a matches Action::RunDocTest { dir: d, all_features: f } && d@ == dir
            && f == af,
    }
}

/// The removal tool's flag for a group, as carried by a removal action.
pub open spec fn flag_matches(flag: Option<String>, g: DependencyGroup) -> bool {
    match flag {
        Some(f) => spec_extra_flag(g) == Some(f@),
        None => spec_extra_flag(g) is None,
    }
}

pub open spec fn arm_start(pre: SessionState, post: SessionState, a: Action) -> bool {
    &&& frame_ok(pre, post) && same_mode(pre, post) && same_pass(pre, post) && same_records(
        pre,
        post,
    )
    &&& post.error == pre.error
    &&& post.phase == Phase::AwaitRmTool
    &&& a is CheckRemovalTool
}

pub open spec fn arm_rm_tool(pre: SessionState, ok: bool, post: SessionState, a: Action) -> bool {
    &&& frame_ok(pre, post) && same_mode(pre, post) && same_pass(pre, post) && same_records(
        pre,
        post,
    )
    &&& if ok {
        &&& post.phase == Phase::AwaitGitStatus
        &&& post.error == pre.error
        &&& (a matches Action::QueryGitStatus { dir } && dir@ == pre.root@)
    } else {
        &&& post.phase == Phase::Failed
        &&& post.error matches Some(SessionError::RemovalToolMissing)
        &&& a is Continue
    }
}

pub open spec fn arm_git_status(
    pre: SessionState,
    stdout: String,
    stderr: String,
    post: SessionState,
    a: Action,
) -> bool {
    let clean = stdout@.len() == 0 && stderr@.len() == 0;
    &&& frame_ok(pre, post) && same_mode(pre, post) && same_pass(pre, post) && same_records(
        pre,
        post,
    )
    &&& if clean {
        &&& post.phase == Phase::AwaitProbe
        &&& post.error == pre.error
        &&& (a matches Action::RunProbe { dir } && dir@ == pre.root@)
    } else {
        &&& post.phase == Phase::Failed
        &&& post.error matches Some(SessionError::DirtyCheckout)
        &&& a is Continue
    }
}

pub open spec fn arm_probe(
    pre: SessionState,
    all_features_ok: bool,
    doc_flags: Vec<bool>,
    post: SessionState,
    a: Action,
) -> bool {
    &&& frame_ok(pre, post) && same_pass(pre, post) && same_records(pre, post)
    &&& post.error == pre.error
    &&& post.all_features == all_features_ok
    &&& post.doc_flags == doc_flags
    &&& post.phase == Phase::AwaitBaseline
    &&& post.run == (PipelineRun {
        all_features: all_features_ok,
        doc_testable: true,
        stage: Stage::Check,
    })
    &&& is_stage_action(a, Stage::Check, pre.root@, all_features_ok)
}

pub open spec fn arm_baseline(
    pre: SessionState,
    ok: bool,
    detail: String,
    post: SessionState,
    a: Action,
) -> bool {
    &&& frame_ok(pre, post) && same_mode(pre, post) && same_pass(pre, post) && same_records(
        pre,
        post,
    )
    &&& match spec_on_result(pre.run, ok, detail) {
        PipelineStep::Continue(r2) => {
            &&& post.phase == Phase::AwaitBaseline
            &&& post.run == r2
            &&& post.error == pre.error
            &&& is_stage_action(a, r2.stage, pre.root@, r2.all_features)
        },
        PipelineStep::Done(o) => if o is Success {
            &&& post.phase == Phase::StartPass
            &&& post.error == pre.error
            &&& a is Continue
        } else {
            &&& post.phase == Phase::Failed
            &&& post.error == Some(SessionError::BaselineFailed(o))
            &&& a is Continue
        },
    }
}

pub open spec fn arm_start_pass(pre: SessionState, post: SessionState, a: Action) -> bool {
    &&& frame_ok(pre, post) && same_mode(pre, post) && same_records(pre, post)
    &&& post.error == pre.error
    &&& if pre.group_idx >= 3 {
        &&& post.phase == Phase::Finishing
        &&& same_pass(pre, post)
        &&& a is Continue
    } else if pre.module_idx >= pre.modules@.len() {
        &&& post.phase == Phase::StartPass
        &&& post.group_idx as int == pre.group_idx as int + 1
        &&& post.module_idx == 0
        &&& post.entries == pre.entries
        &&& post.local_ignores == pre.local_ignores
        &&& post.entry_idx == pre.entry_idx
        &&& a is Continue
    } else {
        &&& post.phase == Phase::AwaitManifest
        &&& same_pass(pre, post)
        &&& (a matches Action::ReadManifest { dir } && dir@ == cur_module(pre))
    }
}

pub open spec fn arm_manifest(
    pre: SessionState,
    text: Option<String>,
    post: SessionState,
    a: Action,
) -> bool {
    &&& frame_ok(pre, post) && same_mode(pre, post) && same_records(pre, post)
    &&& post.group_idx == pre.group_idx
    &&& post.module_idx == pre.module_idx
    &&& match text {
        None => {
            &&& post.phase == Phase::Failed
            &&& post.error matches Some(SessionError::ManifestUnreadable)
            &&& a is Continue
        },
        Some(t) => if manifest_ok(t@) {
            &&& post.phase == Phase::AtEntry
            &&& post.error == pre.error
            &&& entries_view(post.entries@) == spec_group_entries(
                t@,
                group_of_idx(pre.group_idx as int),
            )
            &&& names_view(post.local_ignores@) == manifest_ignores(
                t@,
                spec_ignore_group(group_of_idx(pre.group_idx as int)),
            )
            &&& post.entry_idx == 0
            &&& a is Continue
        } else {
            &&& post.phase == Phase::Failed
            &&& post.error matches Some(SessionError::ManifestInvalid)
            &&& a is Continue
        },
    }
}

pub open spec fn arm_at_entry(pre: SessionState, post: SessionState, a: Action) -> bool {
    &&& frame_ok(pre, post) && same_mode(pre, post)
    &&& post.error == pre.error
    &&& if pre.entry_idx >= pre.entries@.len() {
        &&& post.phase == Phase::StartPass
        &&& same_records(pre, post)
        &&& post.group_idx == pre.group_idx
        &&& post.module_idx as int == pre.module_idx as int + 1
        &&& post.entries == pre.entries
        &&& post.local_ignores == pre.local_ignores
        &&& a is Continue
    } else if policy_skips(pre) {
        &&& post.phase == Phase::AtEntry
        &&& post.log@ == pre.log@.push(record_for(pre, None, Resolution::SkippedPolicy))
        &&& post.ledger == pre.ledger
        &&& post.group_idx == pre.group_idx
        &&& post.module_idx == pre.module_idx
        &&& post.entries == pre.entries
        &&& post.local_ignores == pre.local_ignores
        &&& post.entry_idx as int == pre.entry_idx as int + 1
        &&& a is Continue
    } else {
        &&& post.phase == Phase::AwaitOracle
        &&& same_pass(pre, post)
        &&& same_records(pre, post)
        &&& (a matches Action::RunOracle { dir, pattern } && dir@ == cur_module(pre) && pattern@
            == spec_pattern(cur_entry(pre).name))
    }
}

pub open spec fn arm_oracle(
    pre: SessionState,
    verdict: Option<bool>,
    post: SessionState,
    a: Action,
) -> bool {
    &&& frame_ok(pre, post) && same_mode(pre, post)
    &&& match verdict {
        None => {
            &&& post.phase == Phase::Failed
            &&& post.error matches Some(SessionError::OracleMissing)
            &&& same_pass(pre, post)
            &&& same_records(pre, post)
            &&& a is Continue
        },
        Some(true) => {
            &&& post.phase == Phase::AtEntry
            &&& post.error == pre.error
            &&& post.log@ == pre.log@.push(record_for(pre, Some(true), Resolution::SkippedOracle))
            &&& post.ledger == pre.ledger
            &&& post.group_idx == pre.group_idx
            &&& post.module_idx == pre.module_idx
            &&& post.entries == pre.entries
            &&& post.local_ignores == pre.local_ignores
            &&& post.entry_idx as int == pre.entry_idx as int + 1
            &&& a is Continue
        },
        Some(false) => {
            &&& post.phase == Phase::AwaitRemove
            &&& post.error == pre.error
            &&& same_pass(pre, post)
            &&& same_records(pre, post)
            &&& post.oracle_used@ == Some(false)
            &&& (a matches Action::RunRemove { dir, flag, name } && dir@ == cur_module(pre)
                && name@ == cur_entry(pre).name && flag_matches(flag, cur_entry(pre).group))
        },
    }
}

pub open spec fn arm_remove(
    pre: SessionState,
    ok: bool,
    detail: String,
    post: SessionState,
    a: Action,
) -> bool {
    &&& frame_ok(pre, post) && same_mode(pre, post) && same_pass(pre, post) && same_records(
        pre,
        post,
    )
    &&& post.error == pre.error
    &&& post.oracle_used == pre.oracle_used
    &&& post.remove_ok == ok
    &&& if ok {
        &&& post.phase == Phase::AwaitVerify
        &&& post.run == (PipelineRun {
            all_features: pre.all_features,
            doc_testable: doc_flag(pre, pre.module_idx as int),
            stage: Stage::Check,
        })
        &&& is_stage_action(a, Stage::Check, cur_module(pre), pre.all_features)
    } else {
        &&& post.phase == Phase::AwaitReset
        &&& post.pending == VerificationOutcome::ToolingError(detail)
        &&& (a matches Action::RunReset { dir } && dir@ == cur_module(pre))
    }
}

pub open spec fn arm_verify(
    pre: SessionState,
    ok: bool,
    detail: String,
    post: SessionState,
    a: Action,
) -> bool {
    &&& frame_ok(pre, post) && same_mode(pre, post) && same_pass(pre, post) && same_records(
        pre,
        post,
    )
    &&& post.error == pre.error
    &&& post.oracle_used == pre.oracle_used
    &&& post.remove_ok == pre.remove_ok
    &&& match spec_on_result(pre.run, ok, detail) {
        PipelineStep::Continue(r2) => {
            &&& post.phase == Phase::AwaitVerify
            &&& post.run == r2
            &&& is_stage_action(a, r2.stage, cur_module(pre), r2.all_features)
        },
        PipelineStep::Done(o) => {
            &&& post.phase == Phase::AwaitReset
            &&& post.pending == o
            &&& (a matches Action::RunReset { dir } && dir@ == cur_module(pre))
        },
    }
}

/// Whether the candidate under reset is confirmed: its removal succeeded and
/// its whole pipeline succeeded.
pub open spec fn confirmed_now(pre: SessionState) -> bool {
    pre.remove_ok && pre.pending is Success
}

pub open spec fn arm_reset(pre: SessionState, post: SessionState, a: Action) -> bool {
    let rec = record_for(
        pre,
        pre.oracle_used@,
        Resolution::Attempted { remove_ok: pre.remove_ok, outcome: pre.pending, reset_done: true },
    );
    &&& frame_ok(pre, post) && same_mode(pre, post)
    &&& post.error == pre.error
    &&& post.phase == Phase::AtEntry
    &&& post.log@ == pre.log@.push(rec)
    &&& if confirmed_now(pre) {
        ledger_view(post.ledger@) == ledger_view(pre.ledger@).push(model_of(rec))
    } else {
        post.ledger == pre.ledger
    }
    &&& post.group_idx == pre.group_idx
    &&& post.module_idx == pre.module_idx
    &&& post.entries == pre.entries
    &&& post.local_ignores == pre.local_ignores
    &&& post.entry_idx as int == pre.entry_idx as int + 1
    &&& a is Continue
}

pub open spec fn arm_finishing(pre: SessionState, post: SessionState, a: Action) -> bool {
    &&& frame_ok(pre, post) && same_mode(pre, post) && same_pass(pre, post) && same_records(
        pre,
        post,
    )
    &&& post.error == pre.error
    &&& post.phase == Phase::Done
    &&& if pre.ledger@.len() == 0 {
        a is ReportNoUnused
    } else {
        a matches Action::WriteArtifact { path, content } && path@ == "unused.sh"@ && content@
            == spec_concat_replays(ledger_view(pre.ledger@))
    }
}

/// The whole transition relation: which (post, action) a step from `pre` on
/// `e` may produce.
pub open spec fn spec_step(pre: SessionState, e: Event, post: SessionState, a: Action) -> bool {
    match pre.phase {
        Phase::Start => e is Tick && arm_start(pre, post, a),
        Phase::AwaitRmTool => e matches Event::ToolDone { ok, detail } && arm_rm_tool(
            pre,
            ok,
            post,
            a,
        ),
        Phase::AwaitGitStatus => e matches Event::GitStatus { stdout, stderr } && arm_git_status(
            pre,
            stdout,
            stderr,
            post,
            a,
        ),
        Phase::AwaitProbe => e matches Event::ProbeDone { all_features_ok, doc_flags }
            && arm_probe(pre, all_features_ok, doc_flags, post, a),
        Phase::AwaitBaseline => e matches Event::ToolDone { ok, detail } && arm_baseline(
            pre,
            ok,
            detail,
            post,
            a,
        ),
        Phase::StartPass => e is Tick && arm_start_pass(pre, post, a),
        Phase::AwaitManifest => e matches Event::ManifestText { text } && arm_manifest(
            pre,
            text,
            post,
            a,
        ),
        Phase::AtEntry => e is Tick && arm_at_entry(pre, post, a),
        Phase::AwaitOracle => e matches Event::OracleDone { verdict } && arm_oracle(
            pre,
            verdict,
            post,
            a,
        ),
        Phase::AwaitRemove => e matches Event::ToolDone { ok, detail } && arm_remove(
            pre,
            ok,
            detail,
            post,
            a,
        ),
        Phase::AwaitVerify => e matches Event::ToolDone { ok, detail } && arm_verify(
            pre,
            ok,
            detail,
            post,
            a,
        ),
        Phase::AwaitReset => e is ResetDone && arm_reset(pre, post, a),
        Phase::Finishing => e is Tick && arm_finishing(pre, post, a),
        Phase::Done => false,
        Phase::Failed => false,
    }
}

/// Which event kind each phase expects from the runner.
pub open spec fn spec_expects(s: SessionState, e: Event) -> bool {
    match s.phase {
        Phase::Start => e is Tick,
        Phase::AwaitRmTool => e is ToolDone,
        Phase::AwaitGitStatus => e is GitStatus,
        Phase::AwaitProbe => e is ProbeDone,
        Phase::AwaitBaseline => e is ToolDone,
        Phase::StartPass => e is Tick,
        Phase::AwaitManifest => e is ManifestText,
        Phase::AtEntry => e is Tick,
        Phase::AwaitOracle => e is OracleDone,
        Phase::AwaitRemove => e is ToolDone,
        Phase::AwaitVerify => e is ToolDone,
        Phase::AwaitReset => e is ResetDone,
        Phase::Finishing => e is Tick,
        Phase::Done => false,
        Phase::Failed => false,
    }
}

/// Appending a record grows the owed ledger by its entry exactly when the
/// record is confirmed.
pub proof fn lemma_ledger_of_push(log: Seq<CandidateRecord>, r: CandidateRecord)
    ensures
        ledger_of(log.push(r)) == if is_confirmed(r) {
            ledger_of(log).push(model_of(r))
        } else {
            ledger_of(log)
        },
{
    assert(log.push(r).drop_last() =~= log);
    assert(log.push(r).last() == r);
}

impl SessionState {
    /// A fresh session over the given workspace root, module directories and
    /// compiled-in global ignore names.
    pub fn new(root: String, modules: Vec<String>, global_ignores: Vec<String>) -> (s:
        SessionState)
        ensures
            inv(s),
            s.phase == Phase::Start,
            s.root == root,
            s.modules == modules,
            s.policy.global == global_ignores,
            s.ledger@.len() == 0,
            s.log@ =~= Seq::<CandidateRecord>::empty(),
            s.error is None,
    {
        let s = SessionState {
            root,
            modules,
            policy: IgnorePolicy { global: global_ignores },
            all_features: false,
            doc_flags: Vec::new(),
            group_idx: 0,
            module_idx: 0,
            entries: Vec::new(),
            local_ignores: Vec::new(),
            entry_idx: 0,
            run: PipelineRun::start(false, true),
            pending: VerificationOutcome::Success,
            remove_ok: false,
            oracle_used: Ghost(None),
            ledger: Vec::new(),
            phase: Phase::Start,
            error: None,
            log: Ghost(Seq::empty()),
        };
        proof {
            assert(ledger_view(s.ledger@) =~= ledger_of(s.log@));
        }
        s
    }

    /// Whether the session has ended, normally or fatally.
    pub fn finished(&self) -> (r: bool)
        ensures
            r == (self.phase == Phase::Done || self.phase == Phase::Failed),
    {
        match self.phase {
            Phase::Done => true,
            Phase::Failed => true,
            _ => false,
        }
    }

    /// One transition of the session machine: consumes the event the current
    /// phase expects and returns the next action for the runner.
    pub fn step(&mut self, event: Event) -> (a: Action)
        requires
            inv(*old(self)),
            spec_expects(*old(self), event),
        ensures
            inv(*final(self)),
            spec_step(*old(self), event, *final(self), a),
    {
        match event {
            Event::Tick => {
                match self.phase {
                    Phase::Start => self.on_start(),
                    Phase::StartPass => self.on_start_pass(),
                    Phase::AtEntry => self.on_at_entry(),
                    Phase::Finishing => self.on_finishing(),
                    _ => {
                        proof {
                            assert(false);
                        }
                        Action::Continue
                    },
                }
            },
            Event::ToolDone { ok, detail } => {
                match self.phase {
                    Phase::AwaitRmTool => self.on_rm_tool(ok),
                    Phase::AwaitBaseline => self.on_baseline(ok, detail),
                    Phase::AwaitRemove => self.on_remove(ok, detail),
                    Phase::AwaitVerify => self.on_verify(ok, detail),
                    _ => {
                        proof {
                            assert(false);
                        }
                        Action::Continue
                    },
                }
            },
            Event::GitStatus { stdout, stderr } => self.on_git_status(stdout, stderr),
            Event::ProbeDone { all_features_ok, doc_flags } => self.on_probe(
                all_features_ok,
                doc_flags,
            ),
            Event::ManifestText { text } => self.on_manifest(text),
            Event::OracleDone { verdict } => self.on_oracle(verdict),
            Event::ResetDone => self.on_reset(),
        }
    }

    fn on_start(&mut self) -> (a: Action)
        requires
            inv(*old(self)),
            old(self).phase == Phase::Start,
        ensures
            inv(*final(self)),
            arm_start(*old(self), *final(self), a),
    {
        self.phase = Phase::AwaitRmTool;
        Action::CheckRemovalTool
    }

    fn on_rm_tool(&mut self, ok: bool) -> (a: Action)
        requires
            inv(*old(self)),
            old(self).phase == Phase::AwaitRmTool,
        ensures
            inv(*final(self)),
            arm_rm_tool(*old(self), ok, *final(self), a),
    {
        if ok {
            self.phase = Phase::AwaitGitStatus;
            Action::QueryGitStatus { dir: self.root.clone() }
        } else {
            self.phase = Phase::Failed;
            self.error = Some(SessionError::RemovalToolMissing);
            Action::Continue
        }
    }

    fn on_git_status(&mut self, stdout: String, stderr: String) -> (a: Action)
        requires
            inv(*old(self)),
            old(self).phase == Phase::AwaitGitStatus,
        ensures
            inv(*final(self)),
            arm_git_status(*old(self), stdout, stderr, *final(self), a),
    {
        if stdout.as_str().is_empty() && stderr.as_str().is_empty() {
            self.phase = Phase::AwaitProbe;
            Action::RunProbe { dir: self.root.clone() }
        } else {
            self.phase = Phase::Failed;
            self.error = Some(SessionError::DirtyCheckout);
            Action::Continue
        }
    }

    fn on_probe(&mut self, all_features_ok: bool, doc_flags: Vec<bool>) -> (a: Action)
        requires
            inv(*old(self)),
            old(self).phase == Phase::AwaitProbe,
        ensures
            inv(*final(self)),
            arm_probe(*old(self), all_features_ok, doc_flags, *final(self), a),
    {
        self.all_features = all_features_ok;
        self.doc_flags = doc_flags;
        self.run = PipelineRun::start(all_features_ok, true);
        self.phase = Phase::AwaitBaseline;
        Action::RunCheck { dir: self.root.clone(), all_features: all_features_ok }
    }

    fn on_baseline(&mut self, ok: bool, detail: String) -> (a: Action)
        requires
            inv(*old(self)),
            old(self).phase == Phase::AwaitBaseline,
        ensures
            inv(*final(self)),
            arm_baseline(*old(self), ok, detail, *final(self), a),
    {
        match self.run.on_result(ok, detail) {
            PipelineStep::Continue(r2) => {
                self.run = r2;
                stage_action(r2.stage, &self.root, r2.all_features)
            },
            PipelineStep::Done(o) => {
                match o {
                    VerificationOutcome::Success => {
                        self.phase = Phase::StartPass;
                        Action::Continue
                    },
                    _ => {
                        self.phase = Phase::Failed;
                        self.error = Some(SessionError::BaselineFailed(o));
                        Action::Continue
                    },
                }
            },
        }
    }

    fn on_start_pass(&mut self) -> (a: Action)
        requires
            inv(*old(self)),
            old(self).phase == Phase::StartPass,
        ensures
            inv(*final(self)),
            arm_start_pass(*old(self), *final(self), a),
    {
        if self.group_idx >= 3 {
            self.phase = Phase::Finishing;
            Action::Continue
        } else if self.module_idx >= self.modules.len() {
            self.group_idx = self.group_idx + 1;
            self.module_idx = 0;
            Action::Continue
        } else {
            self.phase = Phase::AwaitManifest;
            Action::ReadManifest { dir: self.modules[self.module_idx].clone() }
        }
    }

    fn on_manifest(&mut self, text: Option<String>) -> (a: Action)
        requires
            inv(*old(self)),
            old(self).phase == Phase::AwaitManifest,
        ensures
            inv(*final(self)),
            arm_manifest(*old(self), text, *final(self), a),
    {
        match text {
            None => {
                self.phase = Phase::Failed;
                self.error = Some(SessionError::ManifestUnreadable);
                Action::Continue
            },
            Some(t) => {
                let group = group_of_idx_exec(self.group_idx);
                match read_group(t.as_str(), group) {
                    Ok(reading) => {
                        self.entries = reading.entries;
                        self.local_ignores = reading.local_ignores;
                        self.entry_idx = 0;
                        self.phase = Phase::AtEntry;
                        Action::Continue
                    },
                    Err(_) => {
                        self.phase = Phase::Failed;
                        self.error = Some(SessionError::ManifestInvalid);
                        Action::Continue
                    },
                }
            },
        }
    }

    fn on_at_entry(&mut self) -> (a: Action)
        requires
            inv(*old(self)),
            old(self).phase == Phase::AtEntry,
        ensures
            inv(*final(self)),
            arm_at_entry(*old(self), *final(self), a),
    {
        if self.entry_idx >= self.entries.len() {
            let n = self.modules.len();
            proof {
                assert(self.module_idx < n);
            }
            self.module_idx = self.module_idx + 1;
            self.phase = Phase::StartPass;
            Action::Continue
        } else {
            let skip = self.policy.should_skip(&self.local_ignores, &self.entries[self.entry_idx]);
            if skip {
                let ghost rec = record_for(*self, None, Resolution::SkippedPolicy);
                proof {
                    lemma_ledger_of_push(self.log@, rec);
                }
                self.log = Ghost(self.log@.push(rec));
                self.entry_idx = self.entry_idx + 1;
                Action::Continue
            } else {
                let pattern = usage_pattern(self.entries[self.entry_idx].name.as_str());
                self.phase = Phase::AwaitOracle;
                Action::RunOracle { dir: self.modules[self.module_idx].clone(), pattern }
            }
        }
    }

    fn on_oracle(&mut self, verdict: Option<bool>) -> (a: Action)
        requires
            inv(*old(self)),
            old(self).phase == Phase::AwaitOracle,
        ensures
            inv(*final(self)),
            arm_oracle(*old(self), verdict, *final(self), a),
    {
        match verdict {
            None => {
                self.phase = Phase::Failed;
                self.error = Some(SessionError::OracleMissing);
                Action::Continue
            },
            Some(true) => {
                let ghost rec = record_for(*self, Some(true), Resolution::SkippedOracle);
                proof {
                    lemma_ledger_of_push(self.log@, rec);
                }
                self.log = Ghost(self.log@.push(rec));
                let n = self.entries.len();
                proof {
                    assert(self.entry_idx < n);
                }
                self.entry_idx = self.entry_idx + 1;
                self.phase = Phase::AtEntry;
                Action::Continue
            },
            Some(false) => {
                self.oracle_used = Ghost(Some(false));
                self.phase = Phase::AwaitRemove;
                let flag = match self.entries[self.entry_idx].group.extra_flag() {
                    Some(f) => Some(String::from_str(f)),
                    None => None,
                };
                Action::RunRemove {
                    dir: self.modules[self.module_idx].clone(),
                    flag,
                    name: self.entries[self.entry_idx].name.clone(),
                }
            },
        }
    }

    fn on_remove(&mut self, ok: bool, detail: String) -> (a: Action)
        requires
            inv(*old(self)),
            old(self).phase == Phase::AwaitRemove,
        ensures
            inv(*final(self)),
            arm_remove(*old(self), ok, detail, *final(self), a),
    {
        self.remove_ok = ok;
        if ok {
            let doc = if self.module_idx < self.doc_flags.len() {
                self.doc_flags[self.module_idx]
            } else {
                true
            };
            self.run = PipelineRun::start(self.all_features, doc);
            self.phase = Phase::AwaitVerify;
            Action::RunCheck {
                dir: self.modules[self.module_idx].clone(),
                all_features: self.all_features,
            }
        } else {
            self.pending = VerificationOutcome::ToolingError(detail);
            self.phase = Phase::AwaitReset;
            Action::RunReset { dir: self.modules[self.module_idx].clone() }
        }
    }

    fn on_verify(&mut self, ok: bool, detail: String) -> (a: Action)
        requires
            inv(*old(self)),
            old(self).phase == Phase::AwaitVerify,
        ensures
            inv(*final(self)),
            arm_verify(*old(self), ok, detail, *final(self), a),
    {
        match self.run.on_result(ok, detail) {
            PipelineStep::Continue(r2) => {
                self.run = r2;
                stage_action(r2.stage, &self.modules[self.module_idx], r2.all_features)
            },
            PipelineStep::Done(o) => {
                self.pending = o;
                self.phase = Phase::AwaitReset;
                Action::RunReset { dir: self.modules[self.module_idx].clone() }
            },
        }
    }

    fn on_reset(&mut self) -> (a: Action)
        requires
            inv(*old(self)),
            old(self).phase == Phase::AwaitReset,
        ensures
            inv(*final(self)),
            arm_reset(*old(self), *final(self), a),
    {
        let ghost rec = record_for(
            *self,
            self.oracle_used@,
            Resolution::Attempted {
                remove_ok: self.remove_ok,
                outcome: self.pending,
                reset_done: true,
            },
        );
        proof {
            lemma_ledger_of_push(self.log@, rec);
        }
        let confirmed = self.remove_ok && match &self.pending {
            VerificationOutcome::Success => true,
            _ => false,
        };
        if confirmed {
            let module = self.modules[self.module_idx].clone();
            let name = self.entries[self.entry_idx].name.clone();
            let group = self.entries[self.entry_idx].group;
            let replay = render_replay(&module, &name, group);
            let entry = LedgerEntry { module, name, group, replay };
            proof {
                assert(entry@ == model_of(rec));
            }
            self.ledger.push(entry);
            proof {
                assert(ledger_view(self.ledger@) =~= ledger_view(old(self).ledger@).push(
                    model_of(rec),
                ));
            }
        }
        self.log = Ghost(self.log@.push(rec));
        let n = self.entries.len();
        proof {
            assert(self.entry_idx < n);
        }
        self.entry_idx = self.entry_idx + 1;
        self.phase = Phase::AtEntry;
        Action::Continue
    }

    fn on_finishing(&mut self) -> (a: Action)
        requires
            inv(*old(self)),
            old(self).phase == Phase::Finishing,
        ensures
            inv(*final(self)),
            arm_finishing(*old(self), *final(self), a),
    {
        self.phase = Phase::Done;
        if self.ledger.len() == 0 {
            Action::ReportNoUnused
        } else {
            let content = render_all(&self.ledger);
            Action::WriteArtifact { path: String::from_str("unused.sh"), content }
        }
    }
}

fn stage_action(stage: Stage, dir: &String, all_features: bool) -> (a: Action)
    ensures
        is_stage_action(a, stage, dir@, all_features),
{
    match stage {
        Stage::Check => Action::RunCheck { dir: dir.clone(), all_features },
        Stage::Build => Action::RunBuild { dir: dir.clone(), all_features },
        Stage::DocTest => Action::RunDocTest { dir: dir.clone(), all_features },
    }
}

} // verus!
