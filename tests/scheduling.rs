use workspace_tasks::connection::{scheduling_allowed, ConnectionState};
use workspace_tasks::outcome::{ExitStatus, NotificationId, SpawnError, TaskOutcome};
use workspace_tasks::registry::{ProjectKey, WindowId, WorkspaceStore};
use workspace_tasks::template::{
    SpawnInTerminal, TaskContext, TaskSourceKind, TaskTemplate, TemplateToken,
};
use workspace_tasks::workspace::{
    BufferId, DebugDispatch, DebugScenario, Refusal, TaskDispatch, Workspace,
    WorkspaceWindowRole, WorktreeId,
};

const PROJECT: ProjectKey = ProjectKey { id: 7 };

fn run_tests_template() -> TaskTemplate {
    TaskTemplate {
        label: "run-tests".to_string(),
        command: TemplateToken::Literal("pytest".to_string()),
        args: vec![],
        cwd: None,
    }
}

fn repo_context() -> TaskContext {
    TaskContext { cwd: Some("/repo".to_string()), task_variables: vec![] }
}

fn worktree_source() -> TaskSourceKind {
    TaskSourceKind::Worktree {
        id: 1,
        directory_in_worktree: ".zed".to_string(),
        id_base: "worktree".to_string(),
    }
}

fn window(role: WorkspaceWindowRole, terminal: bool) -> Workspace {
    Workspace::new(PROJECT, role, None, terminal, false, true)
}

fn store_with_primary(primary: u64, open: bool) -> WorkspaceStore {
    let mut store = WorkspaceStore::new();
    store.primary_windows.push((PROJECT, WindowId { id: primary }));
    store.workspaces.push(WindowId { id: 99 });
    if open {
        store.workspaces.push(WindowId { id: primary });
    }
    store
}

fn spawned_id(dispatch: &TaskDispatch) -> u64 {
    match dispatch {
        TaskDispatch::SpawnLocally { tracking_id, .. } => *tracking_id,
        _ => panic!("expected a local spawn"),
    }
}

#[test]
fn gate_allows_local_and_connected_only() {
    assert!(scheduling_allowed(None));
    assert!(scheduling_allowed(Some(ConnectionState::Connected)));
    assert!(!scheduling_allowed(Some(ConnectionState::Connecting)));
    assert!(!scheduling_allowed(Some(ConnectionState::Disconnected)));
    assert!(!scheduling_allowed(Some(ConnectionState::HeartbeatMissed)));
    assert!(!scheduling_allowed(Some(ConnectionState::Reconnecting)));
}

#[test]
fn unconnected_remote_schedules_nothing() {
    for state in [
        ConnectionState::Connecting,
        ConnectionState::Disconnected,
        ConnectionState::HeartbeatMissed,
        ConnectionState::Reconnecting,
    ] {
        let mut ws =
            Workspace::new(PROJECT, WorkspaceWindowRole::Primary, Some(state), true, true, true);
        let plan = ws.schedule_task(
            worktree_source(),
            &run_tests_template(),
            &repo_context(),
            false,
            &WorkspaceStore::new(),
        );
        assert!(!plan.notify_debugger);
        assert!(plan.history.is_none());
        assert!(matches!(plan.dispatch, TaskDispatch::Dropped(Refusal::Disconnected)));
        assert!(ws.scheduled_tasks.is_empty());
        assert_eq!(ws.next_tracking_id, 0);
    }
}

#[test]
fn connected_remote_schedules() {
    let mut ws = Workspace::new(
        PROJECT,
        WorkspaceWindowRole::Primary,
        Some(ConnectionState::Connected),
        true,
        false,
        true,
    );
    let plan = ws.schedule_task(
        worktree_source(),
        &run_tests_template(),
        &repo_context(),
        false,
        &WorkspaceStore::new(),
    );
    assert_eq!(spawned_id(&plan.dispatch), 0);
}

#[test]
fn unresolvable_template_has_no_effect() {
    let mut ws = Workspace::new(PROJECT, WorkspaceWindowRole::Primary, None, true, true, true);
    let template = TaskTemplate {
        label: "echo".to_string(),
        command: TemplateToken::Literal("echo".to_string()),
        args: vec![TemplateToken::Variable("ZED_FILE".to_string())],
        cwd: None,
    };
    let plan =
        ws.schedule_task(worktree_source(), &template, &repo_context(), false, &WorkspaceStore::new());
    assert!(!plan.notify_debugger);
    assert!(plan.history.is_none());
    assert!(matches!(plan.dispatch, TaskDispatch::Dropped(Refusal::Unresolvable)));
    assert!(ws.scheduled_tasks.is_empty());
}

#[test]
fn empty_id_base_is_unresolvable() {
    let mut ws = window(WorkspaceWindowRole::Primary, true);
    let source = TaskSourceKind::AbsPath { id_base: String::new(), abs_path: "/t.json".to_string() };
    let plan =
        ws.schedule_task(source, &run_tests_template(), &repo_context(), false, &WorkspaceStore::new());
    assert!(matches!(plan.dispatch, TaskDispatch::Dropped(Refusal::Unresolvable)));
    assert!(plan.history.is_none());
}

#[test]
fn empty_command_is_unresolvable() {
    let template = TaskTemplate {
        label: "nothing".to_string(),
        command: TemplateToken::Literal(String::new()),
        args: vec![],
        cwd: None,
    };
    assert!(template.resolve_task(&"base".to_string(), &repo_context()).is_none());
}

#[test]
fn resolution_substitutes_variables() {
    let template = TaskTemplate {
        label: "test file".to_string(),
        command: TemplateToken::Variable("RUNNER".to_string()),
        args: vec![
            TemplateToken::Literal("-k".to_string()),
            TemplateToken::Variable("ZED_FILE".to_string()),
        ],
        cwd: Some(TemplateToken::Variable("ZED_DIR".to_string())),
    };
    let cx = TaskContext {
        cwd: Some("/repo".to_string()),
        task_variables: vec![
            ("RUNNER".to_string(), "cargo".to_string()),
            ("ZED_FILE".to_string(), "a.rs".to_string()),
            ("ZED_DIR".to_string(), "/repo/src".to_string()),
            ("RUNNER".to_string(), "pytest".to_string()),
        ],
    };
    let resolved = template.resolve_task(&"base".to_string(), &cx).unwrap();
    assert_eq!(resolved.id_base, "base");
    assert_eq!(resolved.resolved.label, "test file");
    assert_eq!(resolved.resolved.command, "pytest");
    assert_eq!(resolved.resolved.args, vec!["-k".to_string(), "a.rs".to_string()]);
    assert_eq!(resolved.resolved.cwd, Some("/repo/src".to_string()));
}

#[test]
fn resolution_is_repeatable() {
    let cx = repo_context();
    let a = run_tests_template().resolve_task(&"base".to_string(), &cx).unwrap();
    let b = run_tests_template().resolve_task(&"base".to_string(), &cx).unwrap();
    assert_eq!(a.resolved.command, b.resolved.command);
    assert_eq!(a.resolved.args, b.resolved.args);
    assert_eq!(a.resolved.cwd, b.resolved.cwd);
    assert_eq!(a.id_base, b.id_base);
}

#[test]
fn id_bases_of_sources() {
    assert_eq!(TaskSourceKind::UserInput.to_id_base(), "oneshot");
    assert_eq!(worktree_source().to_id_base(), "worktree");
    assert_eq!(TaskSourceKind::Language { name: "python".to_string() }.to_id_base(), "python");
}

#[test]
fn run_tests_exit_one_is_a_completed_run() {
    let mut ws = window(WorkspaceWindowRole::Primary, true);
    let plan = ws.schedule_task(
        worktree_source(),
        &run_tests_template(),
        &repo_context(),
        false,
        &WorkspaceStore::new(),
    );
    let (kind, recorded) = plan.history.expect("history recorded");
    assert!(matches!(kind, TaskSourceKind::Worktree { id: 1, .. }));
    assert_eq!(recorded.resolved.command, "pytest");
    let id = match &plan.dispatch {
        TaskDispatch::SpawnLocally { tracking_id, spawn } => {
            assert_eq!(spawn.command, "pytest");
            assert!(spawn.args.is_empty());
            assert_eq!(spawn.cwd, Some("/repo".to_string()));
            *tracking_id
        }
        _ => panic!("expected a local spawn"),
    };
    assert_eq!(ws.scheduled_tasks.len(), 1);
    let status = ExitStatus { code: Some(1) };
    assert!(!status.success());
    let outcome = ws.report_outcome(id, Some(Ok(status)));
    assert!(matches!(outcome, Some(TaskOutcome::Succeeded(ExitStatus { code: Some(1) }))));
    assert!(ws.scheduled_tasks.is_empty());
    assert!(ws.notifications.toasts.is_empty());
}

#[test]
fn repeated_launch_failure_shows_one_notification() {
    let mut ws = window(WorkspaceWindowRole::Primary, true);
    let mut ids = vec![];
    for _ in 0..2 {
        let plan = ws.schedule_task(
            worktree_source(),
            &run_tests_template(),
            &repo_context(),
            false,
            &WorkspaceStore::new(),
        );
        ids.push(spawned_id(&plan.dispatch));
    }
    assert_ne!(ids[0], ids[1]);
    for id in ids {
        let err = SpawnError { message: "command not found".to_string() };
        let outcome = ws.report_outcome(id, Some(Err(err)));
        match outcome {
            Some(TaskOutcome::Failed(e)) => assert_eq!(e.message, "command not found"),
            _ => panic!("expected a failure"),
        }
        assert_eq!(ws.notifications.toasts.len(), 1);
    }
    assert_eq!(ws.notifications.toasts[0].id, NotificationId::TaskSpawnFailure);
    assert_eq!(ws.notifications.toasts[0].message, "Task spawn failed: command not found");
}

#[test]
fn secondary_without_primary_drops_the_task() {
    let mut ws = window(WorkspaceWindowRole::SecondaryEditor, false);
    let plan = ws.schedule_task(
        worktree_source(),
        &run_tests_template(),
        &repo_context(),
        false,
        &WorkspaceStore::new(),
    );
    assert!(matches!(plan.dispatch, TaskDispatch::Dropped(Refusal::NoPrimaryWindow)));
    assert!(ws.scheduled_tasks.is_empty());
}

#[test]
fn secondary_with_closed_primary_drops_the_task() {
    let mut ws = window(WorkspaceWindowRole::SecondaryEditor, false);
    let store = store_with_primary(3, false);
    let plan =
        ws.schedule_task(worktree_source(), &run_tests_template(), &repo_context(), true, &store);
    assert!(matches!(plan.dispatch, TaskDispatch::Dropped(Refusal::NoPrimaryWindow)));
}

#[test]
fn secondary_forwards_resolved_task_to_primary() {
    let mut ws = window(WorkspaceWindowRole::SecondaryEditor, false);
    let store = store_with_primary(3, true);
    let plan =
        ws.schedule_task(worktree_source(), &run_tests_template(), &repo_context(), false, &store);
    assert!(plan.history.is_some());
    match plan.dispatch {
        TaskDispatch::ForwardToPrimary { primary, spawn } => {
            assert_eq!(primary, WindowId { id: 3 });
            assert_eq!(spawn.command, "pytest");
            assert_eq!(spawn.cwd, Some("/repo".to_string()));
            let primary_window = window(WorkspaceWindowRole::Primary, true);
            let launched = primary_window.spawn_in_terminal(spawn).expect("primary runs it");
            assert_eq!(launched.command, "pytest");
        }
        _ => panic!("expected forwarding"),
    }
    assert!(ws.scheduled_tasks.is_empty());
}

#[test]
fn latest_primary_designation_wins() {
    let mut store = store_with_primary(3, true);
    store.primary_windows.push((PROJECT, WindowId { id: 4 }));
    store.primary_windows.push((ProjectKey { id: 8 }, WindowId { id: 3 }));
    assert_eq!(store.primary_window_for_project(PROJECT), Some(WindowId { id: 4 }));
    assert_eq!(store.primary_workspace_for_project(PROJECT), None);
    store.workspaces.push(WindowId { id: 4 });
    assert_eq!(store.primary_workspace_for_project(PROJECT), Some(WindowId { id: 4 }));
    assert_eq!(store.primary_window_for_project(ProjectKey { id: 9 }), None);
}

#[test]
fn local_provider_wins_over_secondary_role() {
    let mut ws = window(WorkspaceWindowRole::SecondaryEditor, true);
    let store = store_with_primary(3, true);
    let plan =
        ws.schedule_task(worktree_source(), &run_tests_template(), &repo_context(), false, &store);
    assert_eq!(spawned_id(&plan.dispatch), 0);
    assert_eq!(ws.scheduled_tasks.len(), 1);
    assert_eq!(ws.scheduled_tasks[0].label, "run-tests");
}

#[test]
fn primary_without_provider_drops_the_task() {
    let mut ws = window(WorkspaceWindowRole::Primary, false);
    let plan = ws.schedule_task(
        worktree_source(),
        &run_tests_template(),
        &repo_context(),
        false,
        &store_with_primary(3, true),
    );
    assert!(matches!(
        plan.dispatch,
        TaskDispatch::Dropped(Refusal::NoProvider(WorkspaceWindowRole::Primary))
    ));
}

#[test]
fn omitted_history_records_nothing() {
    let mut ws = Workspace::new(PROJECT, WorkspaceWindowRole::Primary, None, true, true, true);
    let plan =
        ws.schedule_task(worktree_source(), &run_tests_template(), &repo_context(), true, &WorkspaceStore::new());
    assert!(plan.history.is_none());
    assert!(!plan.notify_debugger);
    let plan =
        ws.schedule_task(worktree_source(), &run_tests_template(), &repo_context(), false, &WorkspaceStore::new());
    assert!(plan.history.is_some());
    assert!(plan.notify_debugger);
}

#[test]
fn no_inventory_records_nothing() {
    let mut ws = Workspace::new(PROJECT, WorkspaceWindowRole::Primary, None, true, false, false);
    let plan =
        ws.schedule_task(worktree_source(), &run_tests_template(), &repo_context(), false, &WorkspaceStore::new());
    assert!(plan.history.is_none());
    assert!(!plan.notify_debugger);
}

#[test]
fn outcome_is_reported_once() {
    let mut ws = window(WorkspaceWindowRole::Primary, true);
    let plan = ws.schedule_task(
        worktree_source(),
        &run_tests_template(),
        &repo_context(),
        false,
        &WorkspaceStore::new(),
    );
    let id = spawned_id(&plan.dispatch);
    assert!(matches!(ws.report_outcome(id, None), Some(TaskOutcome::Cancelled)));
    assert!(ws.report_outcome(id, Some(Ok(ExitStatus { code: Some(0) }))).is_none());
    assert!(ws.report_outcome(id + 5, None).is_none());
    assert!(ws.notifications.toasts.is_empty());
}

#[test]
fn spawn_in_terminal_without_provider_yields_nothing() {
    let ws = window(WorkspaceWindowRole::Primary, false);
    let spawn = SpawnInTerminal {
        label: "l".to_string(),
        command: "ls".to_string(),
        args: vec![],
        cwd: None,
    };
    assert!(ws.spawn_in_terminal(spawn).is_none());
}

fn scenario() -> DebugScenario {
    DebugScenario { label: "debug main".to_string(), adapter: "CodeLLDB".to_string() }
}

#[test]
fn debug_session_starts_locally_with_provider() {
    let ws = Workspace::new(PROJECT, WorkspaceWindowRole::SecondaryEditor, None, false, true, true);
    let r = ws.start_debug_session(
        scenario(),
        repo_context(),
        Some(BufferId { id: 2 }),
        Some(WorktreeId { id: 5 }),
        &store_with_primary(3, true),
    );
    match r {
        DebugDispatch::StartLocally(req) => {
            assert_eq!(req.scenario.label, "debug main");
            assert_eq!(req.active_buffer, Some(BufferId { id: 2 }));
            assert_eq!(req.worktree_id, Some(WorktreeId { id: 5 }));
        }
        _ => panic!("expected a local start"),
    }
}

#[test]
fn debug_session_forwarded_with_references() {
    let ws = window(WorkspaceWindowRole::SecondaryEditor, false);
    let r = ws.start_debug_session(
        scenario(),
        repo_context(),
        Some(BufferId { id: 2 }),
        None,
        &store_with_primary(3, true),
    );
    match r {
        DebugDispatch::ForwardToPrimary { primary, request } => {
            assert_eq!(primary, WindowId { id: 3 });
            assert_eq!(request.scenario.adapter, "CodeLLDB");
            assert_eq!(request.active_buffer, Some(BufferId { id: 2 }));
            assert_eq!(request.worktree_id, None);
            assert_eq!(request.task_context.cwd, Some("/repo".to_string()));
        }
        _ => panic!("expected forwarding"),
    }
}

#[test]
fn debug_session_dropped_without_primary_or_provider() {
    let secondary = window(WorkspaceWindowRole::SecondaryEditor, false);
    let r = secondary.start_debug_session(scenario(), repo_context(), None, None, &WorkspaceStore::new());
    assert!(matches!(r, DebugDispatch::Dropped(Refusal::NoPrimaryWindow)));
    let primary = window(WorkspaceWindowRole::Primary, false);
    let r = primary.start_debug_session(scenario(), repo_context(), None, None, &store_with_primary(3, true));
    assert!(matches!(
        r,
        DebugDispatch::Dropped(Refusal::NoProvider(WorkspaceWindowRole::Primary))
    ));
}

#[test]
fn debug_session_refused_when_disconnected() {
    for state in [
        ConnectionState::Connecting,
        ConnectionState::Disconnected,
        ConnectionState::HeartbeatMissed,
        ConnectionState::Reconnecting,
    ] {
        let ws = Workspace::new(PROJECT, WorkspaceWindowRole::Primary, Some(state), true, true, true);
        let r = ws.start_debug_session(scenario(), repo_context(), None, None, &WorkspaceStore::new());
        assert!(matches!(r, DebugDispatch::Dropped(Refusal::Disconnected)));
    }
    let ws = Workspace::new(
        PROJECT,
        WorkspaceWindowRole::Primary,
        Some(ConnectionState::Connected),
        false,
        true,
        true,
    );
    let r = ws.start_debug_session(scenario(), repo_context(), None, None, &WorkspaceStore::new());
    assert!(matches!(r, DebugDispatch::StartLocally(_)));
}
