//! Lifecycle hook orchestration.
//!
//! A run works through one stage's configured commands in declared order.
//! The caller performs each command (they are arbitrary user shell
//! commands, run with the worktree path as working directory) and reports
//! the outcome back; this module decides which command runs next, when the
//! run stops, and whether the stage as a whole succeeded. The rule is
//! fail-fast unless forced: without the force flag the first failing
//! command ends the run and the stage fails, with it every command runs
//! and failures are mere warnings.

use vstd::prelude::*;

verus! {

/// The four lifecycle stages at which configured commands can run.
#[derive(Clone, Copy, PartialEq, Eq, Structural, Debug)]
pub enum Stage {
    PostCreate,
    PostStart,
    PreMerge,
    PostMerge,
}

/// How a stage is allowed to execute its commands. Results are presented
/// in declared order and judged by the same fail-fast rule either way.
#[derive(Clone, Copy, PartialEq, Eq, Structural, Debug)]
pub enum ExecutionPolicy {
    /// Each command completes before the next starts.
    Sequential,
    /// Independent commands may run concurrently.
    IndependentParallel,
}

impl Stage {
    /// The stage's name as it appears on the command line.
    pub open spec fn name_spec(self) -> Seq<char> {
        match self {
            Stage::PostCreate => "post-create"@,
            Stage::PostStart => "post-start"@,
            Stage::PreMerge => "pre-merge"@,
            Stage::PostMerge => "post-merge"@,
        }
    }

    /// The stage's command-line name.
    pub fn name(self) -> (r: &'static str)
        ensures
            r@ == self.name_spec(),
    {
        match self {
            Stage::PostCreate => "post-create",
            Stage::PostStart => "post-start",
            Stage::PreMerge => "pre-merge",
            Stage::PostMerge => "post-merge",
        }
    }

    /// Which stage a command-line name denotes, if any.
    pub fn from_name(name: &str) -> (r: Option<Stage>)
        ensures
            r matches Some(stage) ==> name@ == stage.name_spec(),
            r is None ==> forall|stage: Stage| name@ != stage.name_spec(),
    {
        if crate::text::str_eq(name, "post-create") {
            Some(Stage::PostCreate)
        } else if crate::text::str_eq(name, "post-start") {
            Some(Stage::PostStart)
        } else if crate::text::str_eq(name, "pre-merge") {
            Some(Stage::PreMerge)
        } else if crate::text::str_eq(name, "post-merge") {
            Some(Stage::PostMerge)
        } else {
            None
        }
    }

    /// The execution policy of each stage, as one lookup table. Only
    /// `post-create` admits concurrent execution of independent commands;
    /// the other stages are strictly sequential.
    pub open spec fn policy_spec(self) -> ExecutionPolicy {
        match self {
            Stage::PostCreate => ExecutionPolicy::IndependentParallel,
            _ => ExecutionPolicy::Sequential,
        }
    }

    /// Look up the stage's execution policy.
    pub fn policy(self) -> (r: ExecutionPolicy)
        ensures
            r == self.policy_spec(),
    {
        match self {
            Stage::PostCreate => ExecutionPolicy::IndependentParallel,
            _ => ExecutionPolicy::Sequential,
        }
    }

    /// Whether the stage needs a target branch in its context. Only the
    /// merge stages do.
    pub open spec fn needs_target_branch_spec(self) -> bool {
        self == Stage::PreMerge || self == Stage::PostMerge
    }

    /// Whether the stage needs a target branch in its context.
    pub fn needs_target_branch(self) -> (r: bool)
        ensures
            r == self.needs_target_branch_spec(),
    {
        match self {
            Stage::PreMerge => true,
            Stage::PostMerge => true,
            _ => false,
        }
    }
}

/// The project's configured command sets, one optional ordered set per
/// stage. `None` means the hook is not configured, which is a hard stop;
/// an empty set is a no-op success.
pub struct ProjectHooks {
    pub post_create_command: Option<Vec<String>>,
    pub post_start_command: Option<Vec<String>>,
    pub pre_merge_command: Option<Vec<String>>,
    pub post_merge_command: Option<Vec<String>>,
}

/// The command set configured for a stage.
pub open spec fn command_set_for(hooks: &ProjectHooks, stage: Stage) -> Option<Vec<String>> {
    match stage {
        Stage::PostCreate => hooks.post_create_command,
        Stage::PostStart => hooks.post_start_command,
        Stage::PreMerge => hooks.pre_merge_command,
        Stage::PostMerge => hooks.post_merge_command,
    }
}

/// Why a hook invocation was refused before any command ran.
#[derive(Debug)]
pub enum HookError {
    /// The requested stage has no configured command set.
    NotConfigured(Stage),
    /// The hook-type string on the command line names no stage.
    UnknownHookType(String),
}

impl HookError {
    /// The human-readable failure text.
    pub open spec fn message_spec(&self) -> Seq<char> {
        match self {
            HookError::NotConfigured(stage) => "No "@ + stage.name_spec()
                + " commands configured"@,
            HookError::UnknownHookType(name) => "Unknown hook type: "@ + name@,
        }
    }

    /// Render the failure for the user.
    pub fn message(&self) -> (m: String)
        ensures
            m@ == self.message_spec(),
    {
        match self {
            HookError::NotConfigured(stage) => {
                let mut m = "No ".to_owned();
                m.append(stage.name());
                m.append(" commands configured");
                m
            },
            HookError::UnknownHookType(name) => {
                let mut m = "Unknown hook type: ".to_owned();
                m.append(name.as_str());
                m
            },
        }
    }
}

/// Fail if the stage's command set is absent. Nothing may be executed in
/// that case; the caller surfaces guidance to the user.
pub fn check_hook_configured<T>(hook: &Option<T>, stage: Stage) -> (r: Result<(), HookError>)
    ensures
        r is Ok <==> hook is Some,
        r matches Err(e) ==> e == HookError::NotConfigured(stage),
{
    if hook.is_none() {
        return Err(HookError::NotConfigured(stage));
    }
    Ok(())
}

/// The target branch for the merge stages: the repository's default
/// branch where one could be resolved, and the last-resort literal
/// `main` where none could. Degrading rather than failing here is a
/// deliberate policy.
pub fn resolve_target_branch(default_branch: Option<String>) -> (r: String)
    ensures
        default_branch matches Some(b) ==> r@ == b@,
        default_branch is None ==> r@ == "main"@,
{
    match default_branch {
        Some(b) => b,
        None => "main".to_owned(),
    }
}

/// The context a hook invocation runs in, constructed fresh per
/// invocation from live repository state at the boundary: the absolute
/// worktree path, the current branch, the repository's default branch if
/// one was resolvable, and the caller's force flag.
pub struct HookContext {
    pub worktree_path: String,
    pub branch: String,
    pub default_branch: Option<String>,
    pub force: bool,
}

/// Everything a caller needs to run one stage's hook: the commands in
/// declared order, the stage's execution policy, and the contextual
/// values owed to the commands. The caller must run each command with
/// `worktree_path` as its working directory and supply `branch` and
/// `target_branch` to the command's environment.
pub struct HookPlan {
    pub stage: Stage,
    pub commands: Vec<String>,
    pub policy: ExecutionPolicy,
    pub worktree_path: String,
    pub branch: String,
    pub target_branch: Option<String>,
    pub force: bool,
}

/// What a correct plan for the given request looks like.
pub open spec fn plan_matches(
    hooks: ProjectHooks,
    stage: Stage,
    context: HookContext,
    plan: HookPlan,
) -> bool {
    &&& command_set_for(&hooks, stage) matches Some(cmds) && plan.commands == cmds
    &&& plan.stage == stage
    &&& plan.policy == stage.policy_spec()
    &&& plan.worktree_path == context.worktree_path
    &&& plan.branch == context.branch
    &&& plan.force == context.force
    &&& (stage.needs_target_branch_spec() ==> (plan.target_branch matches Some(t) && (
    context.default_branch matches Some(b) ==> t@ == b@) && (context.default_branch is None ==> t@
        == "main"@)))
    &&& (!stage.needs_target_branch_spec() ==> plan.target_branch is None)
}

/// Resolve a stage request against the project configuration.
///
/// An absent command set is a hard stop: the error comes back before
/// anything could run. The merge stages get a target branch, degrading
/// to the literal `main` when none was resolvable.
pub fn plan_hook_run(hooks: ProjectHooks, stage: Stage, context: HookContext) -> (r: Result<
    HookPlan,
    HookError,
>)
    ensures
        r is Err <==> command_set_for(&hooks, stage) is None,
        r matches Err(e) ==> e == HookError::NotConfigured(stage),
        r matches Ok(plan) ==> plan_matches(hooks, stage, context, plan),
{
    let set = match stage {
        Stage::PostCreate => hooks.post_create_command,
        Stage::PostStart => hooks.post_start_command,
        Stage::PreMerge => hooks.pre_merge_command,
        Stage::PostMerge => hooks.post_merge_command,
    };
    let commands = match set {
        Some(c) => c,
        None => {
            return Err(HookError::NotConfigured(stage));
        },
    };
    let HookContext { worktree_path, branch, default_branch, force } = context;
    let target_branch = if stage.needs_target_branch() {
        Some(resolve_target_branch(default_branch))
    } else {
        None
    };
    Ok(
        HookPlan {
            stage,
            commands,
            policy: stage.policy(),
            worktree_path,
            branch,
            target_branch,
            force,
        },
    )
}

/// The stages' command-line names are pairwise distinct.
pub proof fn lemma_stage_names_distinct(a: Stage, b: Stage)
    requires
        a.name_spec() == b.name_spec(),
    ensures
        a == b,
{
    reveal_strlit("post-create");
    reveal_strlit("post-start");
    reveal_strlit("pre-merge");
    reveal_strlit("post-merge");
    match a {
        Stage::PostCreate => assert(a.name_spec() == "post-create"@),
        Stage::PostStart => assert(a.name_spec() == "post-start"@),
        Stage::PreMerge => assert(a.name_spec() == "pre-merge"@),
        Stage::PostMerge => assert(a.name_spec() == "post-merge"@),
    }
    match b {
        Stage::PostCreate => assert(b.name_spec() == "post-create"@),
        Stage::PostStart => assert(b.name_spec() == "post-start"@),
        Stage::PreMerge => assert(b.name_spec() == "pre-merge"@),
        Stage::PostMerge => assert(b.name_spec() == "post-merge"@),
    }
    assert("post-create"@.len() == 11);
    assert("post-start"@.len() == 10);
    assert("pre-merge"@.len() == 9);
    assert("post-merge"@.len() == 10);
    assert("post-start"@[5] == 's');
    assert("post-merge"@[5] == 'm');
}

/// Resolve a hook request by its command-line name. A string that names
/// no stage is a user-facing error, not a panic.
pub fn plan_hook_run_by_name(hooks: ProjectHooks, hook_type: &str, context: HookContext) -> (r:
    Result<HookPlan, HookError>)
    ensures
        (forall|stage: Stage| hook_type@ != stage.name_spec()) ==> (r matches Err(e)
            && e matches HookError::UnknownHookType(n) && n@ == hook_type@),
        forall|stage: Stage|
            hook_type@ == #[trigger] stage.name_spec() ==> ((r is Err <==> command_set_for(
                &hooks,
                stage,
            ) is None) && (r matches Err(e) ==> e == HookError::NotConfigured(stage)) && (
            r matches Ok(plan) ==> plan_matches(hooks, stage, context, plan))),
{
    match Stage::from_name(hook_type) {
        Some(stage) => {
            let r = plan_hook_run(hooks, stage, context);
            proof {
                assert forall|stage2: Stage| hook_type@ == #[trigger] stage2.name_spec() implies
                    stage2 == stage by {
                    lemma_stage_names_distinct(stage2, stage);
                }
            }
            r
        },
        None => Err(HookError::UnknownHookType(hook_type.to_owned())),
    }
}

/// Law: a stage whose command set is absent admits no plan at all, for
/// any force flag and any target branch; with planning refused, no
/// command of the stage can run.
pub proof fn lemma_unconfigured_hook_refused(
    hooks: ProjectHooks,
    stage: Stage,
    context: HookContext,
    plan: HookPlan,
)
    requires
        command_set_for(&hooks, stage) is None,
    ensures
        !plan_matches(hooks, stage, context, plan),
{
}

/// How many commands run when the per-command outcomes would be `o`
/// (`o[i]` says whether command `i` succeeds): with force all of them,
/// without force up to and including the first failure.
pub open spec fn run_length(o: Seq<bool>, force: bool) -> nat
    decreases o.len(),
{
    if o.len() == 0 {
        0
    } else if o[0] || force {
        1 + run_length(o.drop_first(), force)
    } else {
        1
    }
}

/// Whether a run that has seen the outcomes `o` so far goes on to the
/// next command: always under force, and only while nothing failed
/// without it.
pub open spec fn run_continues(o: Seq<bool>, force: bool) -> bool {
    force || !o.contains(false)
}

/// Whether the stage as a whole succeeds after the outcomes `o`: forced
/// runs succeed with failures downgraded to warnings, unforced runs
/// succeed only when every command did.
pub open spec fn stage_succeeds(o: Seq<bool>, force: bool) -> bool {
    force || !o.contains(false)
}

/// One stage's run over its configured commands, in declared order.
///
/// The caller asks [`HookRun::next_command`] which command to run,
/// performs it, and reports the outcome through [`HookRun::record`];
/// the recorded outcomes are the machine's ghost history.
pub struct HookRun {
    total: usize,
    force: bool,
    started: usize,
    any_failed: bool,
    outcomes: Ghost<Seq<bool>>,
}

impl HookRun {
    /// The number of configured commands.
    pub closed spec fn total_spec(&self) -> nat {
        self.total as nat
    }

    /// The force flag the run was started with.
    pub closed spec fn force_spec(&self) -> bool {
        self.force
    }

    /// The outcomes recorded so far, in declared command order.
    pub closed spec fn outcomes_spec(&self) -> Seq<bool> {
        self.outcomes@
    }

    /// The machine's internal consistency.
    pub closed spec fn wf(&self) -> bool {
        &&& self.started == self.outcomes@.len()
        &&& self.started <= self.total
        &&& self.any_failed == self.outcomes@.contains(false)
    }

    /// Start a run over `total` commands.
    pub fn new(total: usize, force: bool) -> (r: HookRun)
        ensures
            r.wf(),
            r.total_spec() == total,
            r.force_spec() == force,
            r.outcomes_spec() == Seq::<bool>::empty(),
    {
        HookRun { total, force, started: 0, any_failed: false, outcomes: Ghost(Seq::empty()) }
    }

    /// The position of the next command to run, in declared order, or
    /// `None` when the run is over: every command ran, or a failure
    /// stopped an unforced run.
    pub fn next_command(&self) -> (r: Option<usize>)
        requires
            self.wf(),
        ensures
            r matches Some(i) ==> i == self.outcomes_spec().len(),
            r is Some <==> self.outcomes_spec().len() < self.total_spec() && run_continues(
                self.outcomes_spec(),
                self.force_spec(),
            ),
    {
        if self.started < self.total && (self.force || !self.any_failed) {
            Some(self.started)
        } else {
            None
        }
    }

    /// Record the outcome of the command that [`HookRun::next_command`]
    /// handed out.
    pub fn record(&mut self, ok: bool)
        requires
            old(self).wf(),
            old(self).outcomes_spec().len() < old(self).total_spec(),
        ensures
            final(self).wf(),
            final(self).outcomes_spec() == old(self).outcomes_spec().push(ok),
            final(self).total_spec() == old(self).total_spec(),
            final(self).force_spec() == old(self).force_spec(),
    {
        let ghost old_outcomes = self.outcomes@;
        self.started = self.started + 1;
        if !ok {
            self.any_failed = true;
        }
        self.outcomes = Ghost(old_outcomes.push(ok));
        proof {
            assert(old_outcomes.push(ok).contains(false) <==> (old_outcomes.contains(false)
                || !ok)) by {
                if !ok {
                    assert(old_outcomes.push(ok)[old_outcomes.len() as int] == false);
                } else if old_outcomes.contains(false) {
                    let i = choose|i: int|
                        0 <= i < old_outcomes.len() && old_outcomes[i] == false;
                    assert(old_outcomes.push(ok)[i] == false);
                } else if old_outcomes.push(ok).contains(false) {
                    let i = choose|i: int|
                        0 <= i < old_outcomes.push(ok).len() && old_outcomes.push(ok)[i] == false;
                    assert(old_outcomes[i] == false);
                }
            }
        }
    }

    /// How many commands have run.
    pub fn commands_run(&self) -> (n: usize)
        requires
            self.wf(),
        ensures
            n == self.outcomes_spec().len(),
    {
        self.started
    }

    /// Whether the stage succeeded so far: forced runs always report
    /// success, unforced runs report success only while nothing failed.
    pub fn stage_succeeded(&self) -> (r: bool)
        requires
            self.wf(),
        ensures
            r == stage_succeeds(self.outcomes_spec(), self.force_spec()),
    {
        self.force || !self.any_failed
    }
}

/// A run never covers more commands than there are.
pub proof fn lemma_run_length_le(o: Seq<bool>, force: bool)
    ensures
        run_length(o, force) <= o.len(),
    decreases o.len(),
{
    if o.len() > 0 && (o[0] || force) {
        lemma_run_length_le(o.drop_first(), force);
    }
}

/// Law: with force set, every command runs, whatever the outcomes.
pub proof fn lemma_force_runs_all(o: Seq<bool>)
    ensures
        run_length(o, true) == o.len(),
    decreases o.len(),
{
    if o.len() > 0 {
        lemma_force_runs_all(o.drop_first());
    }
}

/// Law: without force, a run whose first failing command sits at
/// position `k` (counting from zero) covers exactly the `k + 1` commands
/// up to and including it, and the stage fails.
pub proof fn lemma_fail_fast(o: Seq<bool>, k: int)
    requires
        0 <= k < o.len(),
        !o[k],
        forall|i: int| 0 <= i < k ==> o[i],
    ensures
        run_length(o, false) == k + 1,
        !stage_succeeds(o, false),
    decreases k,
{
    assert(o.contains(false)) by {
        assert(o[k] == false);
    }
    if k > 0 {
        assert(forall|i: int| 0 <= i < k - 1 ==> o.drop_first()[i]);
        lemma_fail_fast(o.drop_first(), k - 1);
    }
}

/// Law: without force, a run all of whose commands succeed covers every
/// one of them, and the stage succeeds.
pub proof fn lemma_all_ok_runs_all(o: Seq<bool>)
    requires
        forall|i: int| 0 <= i < o.len() ==> o[i],
    ensures
        run_length(o, false) == o.len(),
        stage_succeeds(o, false),
    decreases o.len(),
{
    if o.len() > 0 {
        assert(forall|i: int| 0 <= i < o.len() - 1 ==> o.drop_first()[i]);
        lemma_all_ok_runs_all(o.drop_first());
    }
    if o.contains(false) {
        let i = choose|i: int| 0 <= i < o.len() && o[i] == false;
        assert(o[i]);
    }
}

/// Law: a [`HookRun`] that records, one after the other, the outcomes
/// `o` of the commands it hands out goes on for exactly
/// `run_length(o, force)` commands: before that point it always
/// continues, and if commands are left beyond it, it halts there.
pub proof fn lemma_run_stops_at_run_length(o: Seq<bool>, force: bool)
    ensures
        run_length(o, force) <= o.len(),
        forall|j: int|
            0 <= j < run_length(o, force) ==> run_continues(#[trigger] o.take(j), force),
        run_length(o, force) < o.len() ==> !run_continues(
            o.take(run_length(o, force) as int),
            force,
        ),
    decreases o.len(),
{
    lemma_run_length_le(o, force);
    if force {
        lemma_force_runs_all(o);
    } else if o.len() > 0 {
        if o[0] {
            lemma_run_stops_at_run_length(o.drop_first(), force);
            let n = run_length(o, force) as int;
            assert(n == 1 + run_length(o.drop_first(), force));
            assert forall|j: int| 0 <= j < n implies run_continues(
                #[trigger] o.take(j),
                force,
            ) by {
                if j > 0 {
                    assert(run_continues(o.drop_first().take(j - 1), force));
                    if o.take(j).contains(false) {
                        let i = choose|i: int| 0 <= i < j && o.take(j)[i] == false;
                        assert(i != 0);
                        assert(o.drop_first().take(j - 1)[i - 1] == false);
                    }
                }
            }
            if n < o.len() {
                assert(!run_continues(o.drop_first().take(n - 1), force));
                let i = choose|i: int|
                    0 <= i < n - 1 && (#[trigger] o.drop_first().take(n - 1)[i]) == false;
                assert(o.take(n)[i + 1] == false);
            }
        } else {
            assert(run_length(o, force) == 1);
            assert forall|j: int| 0 <= j < 1 implies run_continues(
                #[trigger] o.take(j),
                force,
            ) by {
                assert(o.take(j).len() == 0);
            }
            if 1 < o.len() {
                assert(o.take(1)[0] == false);
                assert(o.take(1).contains(false));
            }
        }
    }
}

} // verus!

