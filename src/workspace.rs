use vstd::prelude::*;

use crate::connection::{permits_scheduling, scheduling_allowed, ConnectionState};
use crate::outcome::{
    outcome_of, outcome_spec, shown, ExitStatus, NotificationId, Notifications, SpawnError,
    TaskOutcome, Toast,
};
use crate::registry::{ProjectKey, WindowId, WorkspaceStore};
use crate::template::{
    id_base_spec, resolve_spec, ResolvedTask, ResolvedView, SpawnInTerminal, SpawnView,
    TaskContext, TaskSourceKind, TaskTemplate,
};

verus! {

/// The part a window plays for its project.
#[derive(Clone, Copy, Debug, PartialEq, Eq, Structural)]
pub enum WorkspaceWindowRole {
    /// The one window of a project that runs its tasks and debug sessions.
    Primary,
    /// A further window on the same project, which forwards what it cannot run.
    SecondaryEditor,
}

/// A non-owning reference to an open document.
#[derive(Clone, Copy, Debug, PartialEq, Eq, Structural)]
pub struct BufferId {
    pub id: u64,
}

/// A non-owning reference to a worktree of the project.
#[derive(Clone, Copy, Debug, PartialEq, Eq, Structural)]
pub struct WorktreeId {
    pub id: u64,
}

/// A debug configuration, handed to the debugger provider as it stands.
pub struct DebugScenario {
    pub label: String,
    pub adapter: String,
}

/// Everything a debugger provider needs to start a session.
pub struct DebugRequest {
    pub scenario: DebugScenario,
    pub task_context: TaskContext,
    pub active_buffer: Option<BufferId>,
    pub worktree_id: Option<WorktreeId>,
}

/// Why a request ended without being run or forwarded.
#[derive(Clone, Copy, Debug, PartialEq, Eq, Structural)]
pub enum Refusal {
    /// The remote host is not connected (logged as a warning).
    Disconnected,
    /// The template does not resolve under the context (silent).
    Unresolvable,
    /// A secondary window found no open primary window (logged as a warning).
    NoPrimaryWindow,
    /// No provider, and the window is not secondary (logged with its role).
    NoProvider(WorkspaceWindowRole),
}

/// Where a resolved task goes.
pub enum TaskDispatch {
    Dropped(Refusal),
    /// Hand `spawn` to this window's terminal provider and report its outcome
    /// under `tracking_id`.
    SpawnLocally { tracking_id: u64, spawn: SpawnInTerminal },
    /// Send `spawn` to the window `primary`, which runs it with its own
    /// provider; nothing waits for that window's outcome.
    ForwardToPrimary { primary: WindowId, spawn: SpawnInTerminal },
}

pub ghost enum DispatchView {
    Dropped(Refusal),
    SpawnLocally { tracking_id: u64, spawn: SpawnView },
    ForwardToPrimary { primary: WindowId, spawn: SpawnView },
}

impl View for TaskDispatch {
    type V = DispatchView;

    open spec fn view(&self) -> DispatchView {
        match self {
            TaskDispatch::Dropped(r) => DispatchView::Dropped(*r),
            TaskDispatch::SpawnLocally { tracking_id, spawn } => DispatchView::SpawnLocally {
                tracking_id: *tracking_id,
                spawn: spawn@,
            },
            TaskDispatch::ForwardToPrimary { primary, spawn } => DispatchView::ForwardToPrimary {
                primary: *primary,
                spawn: spawn@,
            },
        }
    }
}

/// Where a debug session is started.
pub enum DebugDispatch {
    Dropped(Refusal),
    /// Hand the request to this window's debugger provider.
    StartLocally(DebugRequest),
    /// Send the request, references unchanged, to the window `primary`.
    ForwardToPrimary { primary: WindowId, request: DebugRequest },
}

/// What one scheduling call asks of the collaborators around the window.
pub struct SchedulePlan {
    /// Tell the debugger provider that a task was scheduled.
    pub notify_debugger: bool,
    /// Record the run in the task inventory, for running it again later.
    pub history: Option<(TaskSourceKind, ResolvedTask)>,
    pub dispatch: TaskDispatch,
}

/// An execution that was started in this window and whose outcome has not
/// been reported yet.
pub struct InFlightTask {
    pub tracking_id: u64,
    pub label: String,
}

/// One window: its capabilities, its role, and its own scheduling state.
pub struct Workspace {
    pub project_key: ProjectKey,
    pub role: WorkspaceWindowRole,
    /// `None` for a project that is not remote.
    pub remote_connection_state: Option<ConnectionState>,
    pub terminal_provider: bool,
    pub debugger_provider: bool,
    pub task_inventory: bool,
    pub scheduled_tasks: Vec<InFlightTask>,
    pub next_tracking_id: u64,
    pub notifications: Notifications,
}

/// Position of the execution tracked under `id`, or -1.
pub open spec fn tracked_index(tasks: Seq<InFlightTask>, id: u64) -> int
    decreases tasks.len(),
{
    if tasks.len() == 0 {
        -1
    } else if tasks.last().tracking_id == id {
        tasks.len() - 1
    } else {
        tracked_index(tasks.drop_last(), id)
    }
}

pub proof fn lemma_tracked_index(tasks: Seq<InFlightTask>, id: u64)
    ensures
        -1 <= tracked_index(tasks, id) < tasks.len(),
        tracked_index(tasks, id) >= 0 ==> tasks[tracked_index(tasks, id)].tracking_id == id,
        tracked_index(tasks, id) < 0 ==> forall|k: int|
            0 <= k < tasks.len() ==> tasks[k].tracking_id != id,
    decreases tasks.len(),
{
    if tasks.len() > 0 && tasks.last().tracking_id != id {
        lemma_tracked_index(tasks.drop_last(), id);
        assert(forall|k: int| 0 <= k < tasks.len() - 1 ==> tasks.drop_last()[k] == tasks[k]);
    }
}

/// The text of the notification for a launch that failed with `detail`.
pub open spec fn spawn_failure_message(detail: Seq<char>) -> Seq<char> {
    "Task spawn failed: "@ + detail
}

/// The plan that stops a call before anything is run.
pub open spec fn refused_plan(plan: SchedulePlan, why: Refusal) -> bool {
    &&& !plan.notify_debugger
    &&& plan.history is None
    &&& plan.dispatch@ == DispatchView::Dropped(why)
}

impl Workspace {
    pub open spec fn wf(&self) -> bool {
        &&& self.notifications.wf()
        &&& forall|i: int|
            0 <= i < self.scheduled_tasks@.len() ==> self.scheduled_tasks@[i].tracking_id
                < self.next_tracking_id
        &&& forall|i: int, j: int|
            0 <= i < self.scheduled_tasks@.len() && 0 <= j < self.scheduled_tasks@.len() && i
                != j ==> self.scheduled_tasks@[i].tracking_id
                != self.scheduled_tasks@[j].tracking_id
    }

    /// Room for one more tracked execution.
    pub open spec fn can_track(&self) -> bool {
        self.next_tracking_id < u64::MAX
    }

    /// Everything but the in-flight executions is as in `other`.
    pub open spec fn same_but_tracking(&self, other: Workspace) -> bool {
        &&& self.project_key == other.project_key
        &&& self.role == other.role
        &&& self.remote_connection_state == other.remote_connection_state
        &&& self.terminal_provider == other.terminal_provider
        &&& self.debugger_provider == other.debugger_provider
        &&& self.task_inventory == other.task_inventory
        &&& self.notifications == other.notifications
    }

    /// Where a request goes when this window lacks the capability to run it.
    pub open spec fn route_spec(&self, store: WorkspaceStore, spawn: SpawnView) -> DispatchView {
        match store.primary_workspace_spec(self.project_key) {
            Some(w) => DispatchView::ForwardToPrimary { primary: w, spawn },
            None => DispatchView::Dropped(Refusal::NoPrimaryWindow),
        }
    }

    /// A local terminal provider wins; failing that a secondary window routes
    /// to its primary; any other window drops the request.
    pub open spec fn dispatch_spec(&self, store: WorkspaceStore, spawn: SpawnView) -> DispatchView {
        if self.terminal_provider {
            DispatchView::SpawnLocally { tracking_id: self.next_tracking_id, spawn }
        } else if self.role == WorkspaceWindowRole::SecondaryEditor {
            self.route_spec(store, spawn)
        } else {
            DispatchView::Dropped(Refusal::NoProvider(self.role))
        }
    }

    /// How scheduling the resolved `task` changes the window and what it asks.
    pub open spec fn schedules(
        pre: Workspace,
        post: Workspace,
        store: WorkspaceStore,
        task: ResolvedView,
        omit_history: bool,
        plan: SchedulePlan,
    ) -> bool {
        &&& plan.notify_debugger == (!omit_history && pre.debugger_provider)
        &&& (plan.history is Some) == (!omit_history && pre.task_inventory)
        &&& plan.history matches Some((_, t)) ==> t@ == task
        &&& plan.dispatch@ == pre.dispatch_spec(store, task.resolved)
        &&& post.same_but_tracking(pre)
        &&& if pre.terminal_provider {
            &&& post.next_tracking_id == pre.next_tracking_id + 1
            &&& post.scheduled_tasks@.len() == pre.scheduled_tasks@.len() + 1
            &&& post.scheduled_tasks@.drop_last() == pre.scheduled_tasks@
            &&& post.scheduled_tasks@.last().tracking_id == pre.next_tracking_id
            &&& post.scheduled_tasks@.last().label@ == task.resolved.label
        } else {
            post == pre
        }
    }

    /// How reporting what the execution under `id` yielded changes the window.
    pub open spec fn reports(
        pre: Workspace,
        post: Workspace,
        id: u64,
        result: Option<Result<ExitStatus, SpawnError>>,
        r: Option<TaskOutcome>,
    ) -> bool {
        let i = tracked_index(pre.scheduled_tasks@, id);
        if i < 0 {
            r is None && post == pre
        } else {
            &&& r == Some(outcome_spec(result))
            &&& post.scheduled_tasks@ == pre.scheduled_tasks@.remove(i)
            &&& post.next_tracking_id == pre.next_tracking_id
            &&& post.project_key == pre.project_key
            &&& post.role == pre.role
            &&& post.remote_connection_state == pre.remote_connection_state
            &&& post.terminal_provider == pre.terminal_provider
            &&& post.debugger_provider == pre.debugger_provider
            &&& post.task_inventory == pre.task_inventory
            &&& match result {
                Some(Err(e)) => exists|t: Toast|
                    {
                        &&& t.id == NotificationId::TaskSpawnFailure
                        &&& t.message@ == spawn_failure_message(e.message@)
                        &&& post.notifications.toasts@ == #[trigger] shown(
                            pre.notifications.toasts@,
                            t,
                        )
                    },
                _ => post.notifications == pre.notifications,
            }
        }
    }

    pub open spec fn debug_dispatch_spec(
        &self,
        store: WorkspaceStore,
        request: DebugRequest,
    ) -> DebugDispatch {
        if !permits_scheduling(self.remote_connection_state) {
            DebugDispatch::Dropped(Refusal::Disconnected)
        } else if self.debugger_provider {
            DebugDispatch::StartLocally(request)
        } else if self.role == WorkspaceWindowRole::SecondaryEditor {
            match store.primary_workspace_spec(self.project_key) {
                Some(w) => DebugDispatch::ForwardToPrimary { primary: w, request },
                None => DebugDispatch::Dropped(Refusal::NoPrimaryWindow),
            }
        } else {
            DebugDispatch::Dropped(Refusal::NoProvider(self.role))
        }
    }

    /// A window with nothing in flight.
    pub fn new(
        project_key: ProjectKey,
        role: WorkspaceWindowRole,
        remote_connection_state: Option<ConnectionState>,
        terminal_provider: bool,
        debugger_provider: bool,
        task_inventory: bool,
    ) -> (r: Workspace)
        ensures
            r.wf(),
            r.can_track(),
            r.project_key == project_key,
            r.role == role,
            r.remote_connection_state == remote_connection_state,
            r.terminal_provider == terminal_provider,
            r.debugger_provider == debugger_provider,
            r.task_inventory == task_inventory,
            r.scheduled_tasks@.len() == 0,
            r.next_tracking_id == 0,
            r.notifications.toasts@.len() == 0,
    {
        Workspace {
            project_key,
            role,
            remote_connection_state,
            terminal_provider,
            debugger_provider,
            task_inventory,
            scheduled_tasks: Vec::new(),
            next_tracking_id: 0,
            notifications: Notifications::new(),
        }
    }
}

impl Workspace {
    /// Schedules an already resolved task: records it unless `omit_history`,
    /// then runs it here, forwards it to the primary window, or drops it.
    pub fn schedule_resolved_task(
        &mut self,
        task_source_kind: TaskSourceKind,
        resolved_task: ResolvedTask,
        omit_history: bool,
        store: &WorkspaceStore,
    ) -> (r: SchedulePlan)
        requires
            old(self).wf(),
            old(self).can_track(),
        ensures
            final(self).wf(),
            Self::schedules(*old(self), *final(self), *store, resolved_task@, omit_history, r),
            r.history matches Some((k, t)) ==> k == task_source_kind && t == resolved_task,
    {
        let spawn_in_terminal = resolved_task.resolved.duplicate();
        let notify_debugger = !omit_history && self.debugger_provider;
        let history = if !omit_history && self.task_inventory {
            Some((task_source_kind, resolved_task))
        } else {
            None
        };
        let dispatch = if self.terminal_provider {
            let tracking_id = self.next_tracking_id;
            let label = spawn_in_terminal.label.clone();
            self.scheduled_tasks.push(InFlightTask { tracking_id, label });
            self.next_tracking_id = tracking_id + 1;
            TaskDispatch::SpawnLocally { tracking_id, spawn: spawn_in_terminal }
        } else if self.role == WorkspaceWindowRole::SecondaryEditor {
            self.spawn_task_via_primary_window(spawn_in_terminal, store)
        } else {
            TaskDispatch::Dropped(Refusal::NoProvider(self.role))
        };
        proof {
            if old(self).terminal_provider {
                assert(self.scheduled_tasks@.drop_last() =~= old(self).scheduled_tasks@);
            }
        }
        SchedulePlan { notify_debugger, history, dispatch }
    }

    /// Forwards `spawn_in_terminal` to the open primary window of this
    /// window's project, or drops it when there is none.
    fn spawn_task_via_primary_window(
        &self,
        spawn_in_terminal: SpawnInTerminal,
        store: &WorkspaceStore,
    ) -> (r: TaskDispatch)
        ensures
            r@ == self.route_spec(*store, spawn_in_terminal@),
    {
        match store.primary_workspace_for_project(self.project_key) {
            Some(primary) => TaskDispatch::ForwardToPrimary { primary, spawn: spawn_in_terminal },
            None => TaskDispatch::Dropped(Refusal::NoPrimaryWindow),
        }
    }
}

impl Workspace {
    /// Schedules `task_to_resolve`: refused while the remote host is not
    /// connected, a silent no-op when the template does not resolve under
    /// `task_cx`, and otherwise as `schedule_resolved_task`.
    pub fn schedule_task(
        &mut self,
        task_source_kind: TaskSourceKind,
        task_to_resolve: &TaskTemplate,
        task_cx: &TaskContext,
        omit_history: bool,
        store: &WorkspaceStore,
    ) -> (r: SchedulePlan)
        requires
            old(self).wf(),
            old(self).can_track(),
        ensures
            final(self).wf(),
            !permits_scheduling(old(self).remote_connection_state) ==> {
                &&& refused_plan(r, Refusal::Disconnected)
                &&& *final(self) == *old(self)
            },
            permits_scheduling(old(self).remote_connection_state) ==> match resolve_spec(
                *task_to_resolve,
                id_base_spec(task_source_kind),
                *task_cx,
            ) {
                None => refused_plan(r, Refusal::Unresolvable) && *final(self) == *old(self),
                Some(task) => {
                    &&& Self::schedules(*old(self), *final(self), *store, task, omit_history, r)
                    &&& r.history matches Some((k, _)) ==> k == task_source_kind
                },
            },
    {
        if !scheduling_allowed(self.remote_connection_state) {
            return SchedulePlan {
                notify_debugger: false,
                history: None,
                dispatch: TaskDispatch::Dropped(Refusal::Disconnected),
            };
        }
        match task_to_resolve.resolve_task(&task_source_kind.to_id_base(), task_cx) {
            Some(resolved_task) => self.schedule_resolved_task(
                task_source_kind,
                resolved_task,
                omit_history,
                store,
            ),
            None => SchedulePlan {
                notify_debugger: false,
                history: None,
                dispatch: TaskDispatch::Dropped(Refusal::Unresolvable),
            },
        }
    }

    /// Refused while the remote host is not connected; otherwise starts a
    /// debug session here when this window has a debugger provider, else
    /// forwards it from a secondary window to its open primary window.
    pub fn start_debug_session(
        &self,
        scenario: DebugScenario,
        task_context: TaskContext,
        active_buffer: Option<BufferId>,
        worktree_id: Option<WorktreeId>,
        store: &WorkspaceStore,
    ) -> (r: DebugDispatch)
        ensures
            r == self.debug_dispatch_spec(
                *store,
                (DebugRequest { scenario, task_context, active_buffer, worktree_id }),
            ),
    {
        let request = DebugRequest { scenario, task_context, active_buffer, worktree_id };
        if !scheduling_allowed(self.remote_connection_state) {
            DebugDispatch::Dropped(Refusal::Disconnected)
        } else if self.debugger_provider {
            DebugDispatch::StartLocally(request)
        } else if self.role == WorkspaceWindowRole::SecondaryEditor {
            self.start_debug_via_primary_window(request, store)
        } else {
            DebugDispatch::Dropped(Refusal::NoProvider(self.role))
        }
    }

    /// Forwards `request` to the open primary window of this window's
    /// project, or drops it when there is none.
    fn start_debug_via_primary_window(&self, request: DebugRequest, store: &WorkspaceStore) -> (r:
        DebugDispatch)
        ensures
            r == (match store.primary_workspace_spec(self.project_key) {
                Some(w) => DebugDispatch::ForwardToPrimary { primary: w, request },
                None => DebugDispatch::Dropped(Refusal::NoPrimaryWindow),
            }),
    {
        match store.primary_workspace_for_project(self.project_key) {
            Some(primary) => DebugDispatch::ForwardToPrimary { primary, request },
            None => DebugDispatch::Dropped(Refusal::NoPrimaryWindow),
        }
    }

    /// A request forwarded to this window: it goes to the terminal provider
    /// untracked, or, without one, finishes at once with no outcome.
    pub fn spawn_in_terminal(&self, spawn_in_terminal: SpawnInTerminal) -> (r: Option<
        SpawnInTerminal,
    >)
        ensures
            r == (if self.terminal_provider {
                Some(spawn_in_terminal)
            } else {
                None
            }),
    {
        if self.terminal_provider {
            Some(spawn_in_terminal)
        } else {
            None
        }
    }

    /// Reports what the execution tracked under `tracking_id` yielded. The
    /// first report for it stops tracking it, raises a notification on a
    /// launch failure, and returns the outcome; any later one returns nothing.
    pub fn report_outcome(
        &mut self,
        tracking_id: u64,
        result: Option<Result<ExitStatus, SpawnError>>,
    ) -> (r: Option<TaskOutcome>)
        requires
            old(self).wf(),
        ensures
            final(self).wf(),
            Self::reports(*old(self), *final(self), tracking_id, result, r),
    {
        let mut i: usize = self.scheduled_tasks.len();
        assert(self.scheduled_tasks@.take(i as int) =~= self.scheduled_tasks@);
        while i > 0 && self.scheduled_tasks[i - 1].tracking_id != tracking_id
            invariant
                i <= self.scheduled_tasks.len(),
                *self == *old(self),
                tracked_index(self.scheduled_tasks@, tracking_id) == tracked_index(
                    self.scheduled_tasks@.take(i as int),
                    tracking_id,
                ),
            decreases i,
        {
            assert(self.scheduled_tasks@.take(i as int).drop_last() =~= self.scheduled_tasks@.take(
                i - 1,
            ));
            i = i - 1;
        }
        if i == 0 {
            assert(self.scheduled_tasks@.take(0) =~= Seq::<InFlightTask>::empty());
            return None;
        }
        assert(self.scheduled_tasks@.take(i as int).last() == self.scheduled_tasks@[i - 1]);
        assert(tracked_index(old(self).scheduled_tasks@, tracking_id) == i - 1);
        let ghost pre = self.scheduled_tasks@;
        let _done = self.scheduled_tasks.remove(i - 1);
        proof {
            let k = (i - 1) as int;
            assert forall|a: int, b: int|
                0 <= a < self.scheduled_tasks@.len() && 0 <= b < self.scheduled_tasks@.len() && a
                    != b implies self.scheduled_tasks@[a].tracking_id
                != self.scheduled_tasks@[b].tracking_id by {
                let a0 = if a < k {
                    a
                } else {
                    a + 1
                };
                let b0 = if b < k {
                    b
                } else {
                    b + 1
                };
                assert(self.scheduled_tasks@[a] == pre[a0]);
                assert(self.scheduled_tasks@[b] == pre[b0]);
            }
            assert forall|a: int| 0 <= a < self.scheduled_tasks@.len() implies self.scheduled_tasks@[a].tracking_id
                < self.next_tracking_id by {
                let a0 = if a < k {
                    a
                } else {
                    a + 1
                };
                assert(self.scheduled_tasks@[a] == pre[a0]);
            }
        }
        match outcome_of(result) {
            TaskOutcome::Failed(e) => {
                let mut message = "Task spawn failed: ".to_owned();
                message.append(e.message.as_str());
                self.notifications.show_toast(
                    Toast { id: NotificationId::TaskSpawnFailure, message },
                );
                Some(TaskOutcome::Failed(e))
            },
            other => Some(other),
        }
    }
}

/// A remote project that is connecting, disconnected, missing heartbeats or
/// reconnecting admits no scheduling; `schedule_task` then resolves nothing,
/// records nothing and runs nothing.
pub proof fn lemma_unconnected_remote_refuses(state: ConnectionState)
    requires
        state != ConnectionState::Connected,
    ensures
        !permits_scheduling(Some(state)),
{
}

/// A window with a terminal provider runs the task itself, whatever its role
/// and whatever the store holds, and tracks it under a fresh id.
pub proof fn lemma_local_provider_wins(
    pre: Workspace,
    post: Workspace,
    store: WorkspaceStore,
    task: ResolvedView,
    omit_history: bool,
    plan: SchedulePlan,
)
    requires
        pre.wf(),
        pre.terminal_provider,
        Workspace::schedules(pre, post, store, task, omit_history, plan),
    ensures
        plan.dispatch@ == (DispatchView::SpawnLocally {
            tracking_id: pre.next_tracking_id,
            spawn: task.resolved,
        }),
        post.scheduled_tasks@.last().tracking_id == pre.next_tracking_id,
        tracked_index(pre.scheduled_tasks@, pre.next_tracking_id) < 0,
{
    lemma_tracked_index(pre.scheduled_tasks@, pre.next_tracking_id);
}

/// A secondary window without a terminal provider whose project has an open
/// primary window sends exactly one message, to that window, carrying the
/// resolved request; it tracks nothing and so waits for no outcome.
pub proof fn lemma_secondary_forwards_to_primary(
    pre: Workspace,
    post: Workspace,
    store: WorkspaceStore,
    task: ResolvedView,
    omit_history: bool,
    plan: SchedulePlan,
    primary: WindowId,
)
    requires
        !pre.terminal_provider,
        pre.role == WorkspaceWindowRole::SecondaryEditor,
        store.primary_window_spec(pre.project_key) == Some(primary),
        store.is_open(primary),
        Workspace::schedules(pre, post, store, task, omit_history, plan),
    ensures
        plan.dispatch@ == (DispatchView::ForwardToPrimary { primary, spawn: task.resolved }),
        post == pre,
{
}

/// A secondary window without a terminal provider whose project has no
/// primary window, or only a closed one, sends nothing and tracks nothing;
/// the refusal names the missing primary window for the log.
pub proof fn lemma_secondary_without_primary_drops(
    pre: Workspace,
    post: Workspace,
    store: WorkspaceStore,
    task: ResolvedView,
    omit_history: bool,
    plan: SchedulePlan,
)
    requires
        !pre.terminal_provider,
        pre.role == WorkspaceWindowRole::SecondaryEditor,
        store.primary_workspace_spec(pre.project_key) is None,
        Workspace::schedules(pre, post, store, task, omit_history, plan),
    ensures
        plan.dispatch@ == DispatchView::Dropped(Refusal::NoPrimaryWindow),
        post == pre,
{
}

/// Each tracked execution has its outcome reported exactly once: the first
/// report yields exactly one of succeeded, failed or cancelled, and a second
/// report for the same id yields nothing and changes nothing.
pub proof fn lemma_outcome_reported_once(
    pre: Workspace,
    mid: Workspace,
    post: Workspace,
    id: u64,
    first: Option<Result<ExitStatus, SpawnError>>,
    second: Option<Result<ExitStatus, SpawnError>>,
    r1: Option<TaskOutcome>,
    r2: Option<TaskOutcome>,
)
    requires
        pre.wf(),
        tracked_index(pre.scheduled_tasks@, id) >= 0,
        Workspace::reports(pre, mid, id, first, r1),
        Workspace::reports(mid, post, id, second, r2),
    ensures
        r1 == Some(outcome_spec(first)),
        r2 is None,
        post == mid,
{
    let tasks = pre.scheduled_tasks@;
    let i = tracked_index(tasks, id);
    lemma_tracked_index(tasks, id);
    lemma_tracked_index(mid.scheduled_tasks@, id);
    if tracked_index(mid.scheduled_tasks@, id) >= 0 {
        let j = tracked_index(mid.scheduled_tasks@, id);
        let j0 = if j < i {
            j
        } else {
            j + 1
        };
        assert(mid.scheduled_tasks@[j] == tasks[j0]);
    }
}

/// With a terminal provider, the role of a window makes no difference: two
/// windows that differ only in role get the same plan and track the same run.
pub proof fn lemma_role_irrelevant_with_provider(
    w1: Workspace,
    w2: Workspace,
    post1: Workspace,
    post2: Workspace,
    store: WorkspaceStore,
    task: ResolvedView,
    omit_history: bool,
    plan1: SchedulePlan,
    plan2: SchedulePlan,
)
    requires
        w1.terminal_provider,
        w2.terminal_provider,
        w1.debugger_provider == w2.debugger_provider,
        w1.task_inventory == w2.task_inventory,
        w1.next_tracking_id == w2.next_tracking_id,
        w1.scheduled_tasks@ == w2.scheduled_tasks@,
        Workspace::schedules(w1, post1, store, task, omit_history, plan1),
        Workspace::schedules(w2, post2, store, task, omit_history, plan2),
    ensures
        plan1.notify_debugger == plan2.notify_debugger,
        (plan1.history is Some) == (plan2.history is Some),
        plan1.dispatch@ == plan2.dispatch@,
        post1.next_tracking_id == post2.next_tracking_id,
        post1.scheduled_tasks@.len() == post2.scheduled_tasks@.len(),
        post1.scheduled_tasks@.drop_last() == post2.scheduled_tasks@.drop_last(),
        post1.scheduled_tasks@.last().tracking_id == post2.scheduled_tasks@.last().tracking_id,
        post1.scheduled_tasks@.last().label@ == post2.scheduled_tasks@.last().label@,
{
}

} // verus!
