//! GitHub Actions workflows as `gh_workflow` builds them: what a step, a job and a workflow hold,
//! and what each call that builds them adds.

use vstd::prelude::*;
use vstd::string::*;

use crate::text;

verus! {

/// An environment of `gh_workflow`: variables in the order in which they were added.
#[verifier::external_type_specification]
#[verifier::external_body]
pub struct ExEnv(gh_workflow::Env);

/// A step of `gh_workflow`. Its parameter says whether it uses an action or runs a command.
#[verifier::external_type_specification]
#[verifier::external_body]
#[verifier::reject_recursive_types(A)]
pub struct ExStep<A>(gh_workflow::Step<A>);

/// The mark of a step that uses an action.
#[verifier::external_type_specification]
#[verifier::external_body]
pub struct ExUse(gh_workflow::Use);

/// The mark of a step that runs a command.
#[verifier::external_type_specification]
#[verifier::external_body]
pub struct ExRun(gh_workflow::Run);

/// The permissions of a workflow's token.
#[verifier::external_type_specification]
#[verifier::external_body]
pub struct ExPermissions(gh_workflow::Permissions);

/// A job of `gh_workflow`.
#[verifier::external_type_specification]
#[verifier::external_body]
pub struct ExJob(gh_workflow::Job);

/// The events that start a workflow.
#[verifier::external_type_specification]
#[verifier::external_body]
pub struct ExEvent(gh_workflow::Event);

/// A workflow of `gh_workflow`.
#[verifier::external_type_specification]
#[verifier::external_body]
pub struct ExWorkflow(gh_workflow::Workflow);

/// A value that a workflow file gives to a variable, an input or a runner.
pub enum SettingView {
    /// A string.
    Text(Seq<char>),
    /// Any other JSON value.
    Other(serde_json::Value),
}

/// What a step holds.
pub struct StepView {
    pub name: Option<Seq<char>>,
    /// The action that the step uses.
    pub uses: Option<Seq<char>>,
    /// The inputs of the action.
    pub with: Seq<(Seq<char>, SettingView)>,
    /// The script that the step runs.
    pub run: Option<Seq<char>>,
    pub shell: Option<Seq<char>>,
    pub env: Option<Seq<(Seq<char>, SettingView)>>,
    /// Whether the step sets nothing else.
    pub plain: bool,
}

/// How far a token may touch the repository's contents.
#[derive(Clone, Copy, Debug, PartialEq, Eq, Structural)]
pub enum Access {
    Read,
    Write,
}

/// What a token's permissions grant.
pub struct PermissionsView {
    /// The access to the repository's contents.
    pub contents: Option<Access>,
    /// Whether they say nothing of anything else.
    pub plain: bool,
}

/// What a job holds.
pub struct JobView {
    pub name: Option<Seq<char>>,
    pub runs_on: Option<SettingView>,
    /// The identifiers of the jobs that have to succeed first.
    pub needs: Seq<Seq<char>>,
    /// The condition under which the job runs.
    pub cond: Option<Seq<char>>,
    pub permissions: Option<PermissionsView>,
    pub timeout_minutes: Option<u32>,
    pub env: Option<Seq<(Seq<char>, SettingView)>>,
    pub steps: Seq<StepView>,
    /// Whether the job sets nothing else.
    pub plain: bool,
}

/// Which pushes start a workflow.
#[derive(Clone, Debug)]
pub struct PushFilter {
    pub tags: Vec<String>,
    pub branches: Vec<String>,
    pub paths: Vec<String>,
}

/// The mathematical view of a [`PushFilter`].
pub struct PushView {
    pub tags: Seq<Seq<char>>,
    pub branches: Seq<Seq<char>>,
    pub paths: Seq<Seq<char>>,
}

impl View for PushFilter {
    type V = PushView;

    open spec fn view(&self) -> PushView {
        PushView {
            tags: text::texts(self.tags@),
            branches: text::texts(self.branches@),
            paths: text::texts(self.paths@),
        }
    }
}

/// What starts a workflow.
pub struct EventView {
    /// The pushes that do.
    pub push: Option<PushView>,
    /// Whether it can be started by hand, without inputs.
    pub dispatch: bool,
    /// Whether nothing else does.
    pub plain: bool,
}

/// Runs that exclude each other.
pub struct ConcurrencyView {
    pub group: Seq<char>,
    /// Whether a new run cancels the one in progress.
    pub cancel_in_progress: bool,
}

/// What a workflow holds.
pub struct WorkflowView {
    pub name: Option<Seq<char>>,
    pub on: Option<EventView>,
    pub permissions: Option<PermissionsView>,
    pub concurrency: Option<ConcurrencyView>,
    pub env: Seq<(Seq<char>, SettingView)>,
    /// The jobs by their identifiers, in order.
    pub jobs: Seq<(Seq<char>, JobView)>,
    /// Whether the workflow sets nothing else.
    pub plain: bool,
}

/// The keys of an ordered map, in order.
pub open spec fn keys<V>(entries: Seq<(Seq<char>, V)>) -> Seq<Seq<char>> {
    entries.map_values(|entry: (Seq<char>, V)| entry.0)
}

/// An ordered map after `key` was set to `value`: a key that was there keeps its place, a new
/// one comes last.
pub open spec fn put<V>(entries: Seq<(Seq<char>, V)>, key: Seq<char>, value: V) -> Seq<
    (Seq<char>, V),
> {
    match keys(entries).index_of_first(key) {
        Some(i) => entries.update(i, (key, value)),
        None => entries.push((key, value)),
    }
}

/// The reference to an action: its owner, its repository and its version.
pub open spec fn action_reference(
    owner: Seq<char>,
    repository: Seq<char>,
    version: Seq<char>,
) -> Seq<char> {
    owner + "/"@ + repository + "@"@ + version
}

/// A step that holds its name alone.
pub open spec fn named_step(name: Seq<char>) -> StepView {
    StepView {
        name: Some(name),
        uses: None,
        with: seq![],
        run: None,
        shell: None,
        env: None,
        plain: true,
    }
}

/// A job that holds its name alone, on the default runner.
pub open spec fn named_job(name: Seq<char>) -> JobView {
    JobView {
        name: Some(name),
        runs_on: Some(SettingView::Text("ubuntu-latest"@)),
        needs: seq![],
        cond: None,
        permissions: None,
        timeout_minutes: None,
        env: None,
        steps: seq![],
        plain: true,
    }
}

/// A workflow that holds its name alone.
pub open spec fn named_workflow(name: Seq<char>) -> WorkflowView {
    WorkflowView {
        name: Some(name),
        on: None,
        permissions: None,
        concurrency: None,
        env: seq![],
        jobs: seq![],
        plain: true,
    }
}

/// Permissions that grant access to the repository's contents and say nothing else.
pub open spec fn contents_only(access: Access) -> PermissionsView {
    PermissionsView { contents: Some(access), plain: true }
}

/// The variables that a step sets; none, if it has no environment.
pub open spec fn step_env(step: StepView) -> Seq<(Seq<char>, SettingView)> {
    match step.env {
        Some(env) => env,
        None => seq![],
    }
}

/// The variables of an environment, in order.
pub uninterp spec fn env_contents(env: gh_workflow::Env) -> Seq<(Seq<char>, SettingView)>;

/// What a step that uses an action holds.
pub uninterp spec fn action_contents(step: gh_workflow::Step<gh_workflow::Use>) -> StepView;

/// What a step that runs a command holds.
pub uninterp spec fn command_contents(step: gh_workflow::Step<gh_workflow::Run>) -> StepView;

/// What permissions grant.
pub uninterp spec fn permissions_contents(permissions: gh_workflow::Permissions) -> PermissionsView;

/// What a job holds.
pub uninterp spec fn job_contents(job: gh_workflow::Job) -> JobView;

/// What an event holds.
pub uninterp spec fn event_contents(event: gh_workflow::Event) -> EventView;

/// What a workflow holds.
pub uninterp spec fn workflow_contents(workflow: gh_workflow::Workflow) -> WorkflowView;

/// Calls the `clone` of `gh_workflow::Env`, which copies every variable in order.
#[verifier::external_body]
pub(crate) fn env_clone(env: &gh_workflow::Env) -> (copy: gh_workflow::Env)
    ensures
        env_contents(copy) == env_contents(*env),
{
    env.clone()
}

/// Calls `gh_workflow::Env::add`, which inserts a string into the ordered map of variables.
#[verifier::external_body]
pub(crate) fn env_add(env: gh_workflow::Env, key: &str, value: &str) -> (result: gh_workflow::Env)
    ensures
        env_contents(result) == put(env_contents(env), key@, SettingView::Text(value@)),
{
    env.add(key, value)
}

/// Calls `gh_workflow::Step::new` and `uses`: a step with a name and the reference to an action,
/// owner and repository parted by a slash and the version behind an at sign.
#[verifier::external_body]
pub(crate) fn use_action(name: &str, owner: &str, repository: &str, version: &str) -> (result:
    gh_workflow::Step<gh_workflow::Use>)
    ensures
        action_contents(result) == (StepView {
            uses: Some(action_reference(owner@, repository@, version@)),
            ..named_step(name@)
        }),
{
    gh_workflow::Step::new(name).uses(owner, repository, version)
}

/// Calls `gh_workflow::Step::add_with`, which inserts a string into the ordered map of inputs.
#[verifier::external_body]
pub(crate) fn add_with(
    step: gh_workflow::Step<gh_workflow::Use>,
    key: &str,
    value: &str,
) -> (result: gh_workflow::Step<gh_workflow::Use>)
    ensures
        action_contents(result) == (StepView {
            with: put(action_contents(step).with, key@, SettingView::Text(value@)),
            ..action_contents(step)
        }),
{
    step.add_with((key, value))
}

/// Calls `gh_workflow::Step::new` and `run`: a step with a name and a script.
#[verifier::external_body]
pub(crate) fn run_script(name: &str, script: &str) -> (result: gh_workflow::Step<
    gh_workflow::Run,
>)
    ensures
        command_contents(result) == (StepView { run: Some(script@), ..named_step(name@) }),
{
    gh_workflow::Step::new(name).run(script)
}

/// Calls the setter `shell` of `gh_workflow::Step`.
#[verifier::external_body]
pub(crate) fn with_shell(step: gh_workflow::Step<gh_workflow::Run>, shell: &str) -> (result:
    gh_workflow::Step<gh_workflow::Run>)
    ensures
        command_contents(result) == (StepView { shell: Some(shell@), ..command_contents(step) }),
{
    step.shell(shell)
}

/// Calls `gh_workflow::Step::add_env`, which inserts a string into the step's ordered map of
/// variables and makes the map where there is none.
#[verifier::external_body]
pub(crate) fn with_variable(
    step: gh_workflow::Step<gh_workflow::Run>,
    key: &str,
    value: &str,
) -> (result: gh_workflow::Step<gh_workflow::Run>)
    ensures
        command_contents(result) == (StepView {
            env: Some(
                put(step_env(command_contents(step)), key@, SettingView::Text(value@)),
            ),
            ..command_contents(step)
        }),
{
    step.add_env((key, value))
}

/// Calls the setter `env` of `gh_workflow::Step`, which replaces the step's environment.
#[verifier::external_body]
pub(crate) fn with_env(step: gh_workflow::Step<gh_workflow::Run>, env: gh_workflow::Env) -> (result:
    gh_workflow::Step<gh_workflow::Run>)
    ensures
        command_contents(result) == (StepView {
            env: Some(env_contents(env)),
            ..command_contents(step)
        }),
{
    step.env(env)
}

/// Calls the setter `contents` of a default `gh_workflow::Permissions`.
#[verifier::external_body]
pub(crate) fn contents_permission(access: Access) -> (result: gh_workflow::Permissions)
    ensures
        permissions_contents(result) == contents_only(access),
{
    gh_workflow::Permissions::default().contents(match access {
        Access::Read => gh_workflow::Level::Read,
        Access::Write => gh_workflow::Level::Write,
    })
}

/// Calls `gh_workflow::Job::new`: a job with a name, on the runner `ubuntu-latest`.
#[verifier::external_body]
pub(crate) fn new_job(name: &str) -> (result: gh_workflow::Job)
    ensures
        job_contents(result) == named_job(name@),
{
    gh_workflow::Job::new(name)
}

/// Calls the setter `runs_on` of `gh_workflow::Job`.
#[verifier::external_body]
pub(crate) fn runs_on(job: gh_workflow::Job, runner: &str) -> (result: gh_workflow::Job)
    ensures
        job_contents(result) == (JobView {
            runs_on: Some(SettingView::Text(runner@)),
            ..job_contents(job)
        }),
{
    job.runs_on(runner)
}

/// Calls `gh_workflow::Job::add_needs`, which appends the identifier of a job.
#[verifier::external_body]
pub(crate) fn add_needs(job: gh_workflow::Job, id: &str) -> (result: gh_workflow::Job)
    ensures
        job_contents(result) == (JobView {
            needs: job_contents(job).needs.push(id@),
            ..job_contents(job)
        }),
{
    job.add_needs(id)
}

/// Calls the setter `needs` of `gh_workflow::Job`, which replaces the identifiers.
#[verifier::external_body]
pub(crate) fn needs(job: gh_workflow::Job, ids: Vec<String>) -> (result: gh_workflow::Job)
    ensures
        job_contents(result) == (JobView { needs: text::texts(ids@), ..job_contents(job) }),
{
    job.needs(ids)
}

/// Calls the setter `cond` of `gh_workflow::Job` with a `gh_workflow::Expression`.
#[verifier::external_body]
pub(crate) fn cond(job: gh_workflow::Job, condition: &str) -> (result: gh_workflow::Job)
    ensures
        job_contents(result) == (JobView { cond: Some(condition@), ..job_contents(job) }),
{
    job.cond(gh_workflow::Expression::new(condition))
}

/// Calls the setter `timeout_minutes` of `gh_workflow::Job`.
#[verifier::external_body]
pub(crate) fn timeout_minutes(job: gh_workflow::Job, minutes: u32) -> (result: gh_workflow::Job)
    ensures
        job_contents(result) == (JobView {
            timeout_minutes: Some(minutes),
            ..job_contents(job)
        }),
{
    job.timeout_minutes(minutes)
}

/// Calls the setter `permissions` of `gh_workflow::Job`.
#[verifier::external_body]
pub(crate) fn job_permissions(
    job: gh_workflow::Job,
    permissions: gh_workflow::Permissions,
) -> (result: gh_workflow::Job)
    ensures
        job_contents(result) == (JobView {
            permissions: Some(permissions_contents(permissions)),
            ..job_contents(job)
        }),
{
    job.permissions(permissions)
}

/// Calls the setter `env` of `gh_workflow::Job`, which replaces the job's environment.
#[verifier::external_body]
pub(crate) fn job_env(job: gh_workflow::Job, env: gh_workflow::Env) -> (result: gh_workflow::Job)
    ensures
        job_contents(result) == (JobView { env: Some(env_contents(env)), ..job_contents(job) }),
{
    job.env(env)
}

/// Calls `gh_workflow::Job::add_step` with a step that uses an action: the step comes last.
#[verifier::external_body]
pub(crate) fn add_action(
    job: gh_workflow::Job,
    step: gh_workflow::Step<gh_workflow::Use>,
) -> (result: gh_workflow::Job)
    ensures
        job_contents(result) == (JobView {
            steps: job_contents(job).steps.push(action_contents(step)),
            ..job_contents(job)
        }),
{
    job.add_step(step)
}

/// Calls `gh_workflow::Job::add_step` with a step that runs a command: the step comes last.
#[verifier::external_body]
pub(crate) fn add_command(
    job: gh_workflow::Job,
    step: gh_workflow::Step<gh_workflow::Run>,
) -> (result: gh_workflow::Job)
    ensures
        job_contents(result) == (JobView {
            steps: job_contents(job).steps.push(command_contents(step)),
            ..job_contents(job)
        }),
{
    job.add_step(step)
}

/// Calls the setter `push` of a default `gh_workflow::Event`, with a `gh_workflow::Push` that the
/// setters `tags`, `branches` and `paths` fill.
#[verifier::external_body]
pub(crate) fn on_push(filter: PushFilter) -> (result: gh_workflow::Event)
    ensures
        event_contents(result) == (EventView {
            push: Some(filter@),
            dispatch: false,
            plain: true,
        }),
{
    gh_workflow::Event::default().push(
        gh_workflow::Push::default()
            .tags(filter.tags)
            .branches(filter.branches)
            .paths(filter.paths),
    )
}

/// Calls the setter `workflow_dispatch` of `gh_workflow::Event` with a default
/// `gh_workflow::WorkflowDispatch`.
#[verifier::external_body]
pub(crate) fn or_dispatch(event: gh_workflow::Event) -> (result: gh_workflow::Event)
    ensures
        event_contents(result) == (EventView { dispatch: true, ..event_contents(event) }),
{
    event.workflow_dispatch(gh_workflow::WorkflowDispatch::default())
}

/// Calls `gh_workflow::Workflow::new`: a workflow with a name.
#[verifier::external_body]
pub(crate) fn new_workflow(name: &str) -> (result: gh_workflow::Workflow)
    ensures
        workflow_contents(result) == named_workflow(name@),
{
    gh_workflow::Workflow::new(name)
}

/// Calls the setter `on` of `gh_workflow::Workflow`.
#[verifier::external_body]
pub(crate) fn on(workflow: gh_workflow::Workflow, event: gh_workflow::Event) -> (result:
    gh_workflow::Workflow)
    ensures
        workflow_contents(result) == (WorkflowView {
            on: Some(event_contents(event)),
            ..workflow_contents(workflow)
        }),
{
    workflow.on(event)
}

/// Calls the setter `permissions` of `gh_workflow::Workflow`.
#[verifier::external_body]
pub(crate) fn workflow_permissions(
    workflow: gh_workflow::Workflow,
    permissions: gh_workflow::Permissions,
) -> (result: gh_workflow::Workflow)
    ensures
        workflow_contents(result) == (WorkflowView {
            permissions: Some(permissions_contents(permissions)),
            ..workflow_contents(workflow)
        }),
{
    workflow.permissions(permissions)
}

/// Calls the setter `concurrency` of `gh_workflow::Workflow` with a `gh_workflow::Concurrency`
/// of the group and of whether a new run cancels the one in progress.
#[verifier::external_body]
pub(crate) fn concurrency(
    workflow: gh_workflow::Workflow,
    group: &str,
    cancel_in_progress: bool,
) -> (result: gh_workflow::Workflow)
    ensures
        workflow_contents(result) == (WorkflowView {
            concurrency: Some(ConcurrencyView { group: group@, cancel_in_progress }),
            ..workflow_contents(workflow)
        }),
{
    workflow.concurrency(
        gh_workflow::Concurrency::new(gh_workflow::Expression::new(group))
            .cancel_in_progress(cancel_in_progress),
    )
}

/// Calls `gh_workflow::Workflow::add_env`, which inserts a string into the workflow's ordered map
/// of variables.
#[verifier::external_body]
pub(crate) fn workflow_variable(
    workflow: gh_workflow::Workflow,
    key: &str,
    value: &str,
) -> (result: gh_workflow::Workflow)
    ensures
        workflow_contents(result) == (WorkflowView {
            env: put(workflow_contents(workflow).env, key@, SettingView::Text(value@)),
            ..workflow_contents(workflow)
        }),
{
    workflow.add_env((key, value))
}

/// Calls `gh_workflow::Workflow::add_job`, which inserts a job into the ordered map of jobs.
#[verifier::external_body]
pub(crate) fn add_job(
    workflow: gh_workflow::Workflow,
    id: &str,
    job: gh_workflow::Job,
) -> (result: gh_workflow::Workflow)
    ensures
        workflow_contents(result) == (WorkflowView {
            jobs: put(workflow_contents(workflow).jobs, id@, job_contents(job)),
            ..workflow_contents(workflow)
        }),
{
    workflow.add_job(id, job)
}

/// A key that a map does not hold is appended.
pub proof fn lemma_put_new<V>(entries: Seq<(Seq<char>, V)>, key: Seq<char>, value: V)
    requires
        forall|i: int| 0 <= i < entries.len() ==> (#[trigger] entries[i]).0 != key,
    ensures
        put(entries, key, value) == entries.push((key, value)),
{
    keys(entries).index_of_first_ensures(key);
    assert forall|i: int| 0 <= i < keys(entries).len() implies keys(entries)[i] != key by {
        assert(keys(entries)[i] == entries[i].0);
    }
}

} // verus!
