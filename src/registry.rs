use vstd::prelude::*;

verus! {

/// Identity of a project: equal keys name the same project.
#[derive(Clone, Copy, Debug, PartialEq, Eq, Structural)]
pub struct ProjectKey {
    pub id: u64,
}

/// Identity of a window. It stays valid after the window closes; whether the
/// window is still open is asked of the store.
#[derive(Clone, Copy, Debug, PartialEq, Eq, Structural)]
pub struct WindowId {
    pub id: u64,
}

/// The table of open windows and of the primary window of each project. It is
/// owned by whoever opens and closes windows; scheduling only reads it.
pub struct WorkspaceStore {
    /// Primary designations in the order they were made; a later one for the
    /// same project replaces an earlier one.
    pub primary_windows: Vec<(ProjectKey, WindowId)>,
    /// The windows that are still open.
    pub workspaces: Vec<WindowId>,
}

/// The window last designated primary for `key`.
pub open spec fn primary_for(entries: Seq<(ProjectKey, WindowId)>, key: ProjectKey) -> Option<
    WindowId,
>
    decreases entries.len(),
{
    if entries.len() == 0 {
        None
    } else if entries.last().0 == key {
        Some(entries.last().1)
    } else {
        primary_for(entries.drop_last(), key)
    }
}

impl WorkspaceStore {
    pub open spec fn primary_window_spec(&self, key: ProjectKey) -> Option<WindowId> {
        primary_for(self.primary_windows@, key)
    }

    pub open spec fn is_open(&self, window: WindowId) -> bool {
        self.workspaces@.contains(window)
    }

    /// The primary window of `key`, provided that it is still open.
    pub open spec fn primary_workspace_spec(&self, key: ProjectKey) -> Option<WindowId> {
        match self.primary_window_spec(key) {
            Some(w) => if self.is_open(w) {
                Some(w)
            } else {
                None
            },
            None => None,
        }
    }

    /// A store with no windows.
    pub fn new() -> (r: WorkspaceStore)
        ensures
            r.primary_windows@.len() == 0,
            r.workspaces@.len() == 0,
    {
        WorkspaceStore { primary_windows: Vec::new(), workspaces: Vec::new() }
    }

    /// The window designated primary for `key`, open or not.
    pub fn primary_window_for_project(&self, key: ProjectKey) -> (r: Option<WindowId>)
        ensures
            r == self.primary_window_spec(key),
    {
        let entries = &self.primary_windows;
        let mut i: usize = entries.len();
        assert(entries@.take(i as int) =~= entries@);
        while i > 0
            invariant
                i <= entries.len(),
                entries@ == self.primary_windows@,
                primary_for(entries@, key) == primary_for(entries@.take(i as int), key),
            decreases i,
        {
            assert(entries@.take(i as int).drop_last() =~= entries@.take(i - 1));
            assert(entries@.take(i as int).last() == entries@[i - 1]);
            if entries[i - 1].0 == key {
                return Some(entries[i - 1].1);
            }
            i = i - 1;
        }
        assert(entries@.take(0) =~= Seq::<(ProjectKey, WindowId)>::empty());
        None
    }

    /// `window` itself if it is still open, nothing if it has closed.
    pub fn open_window(&self, window: WindowId) -> (r: Option<WindowId>)
        ensures
            r == (if self.is_open(window) {
                Some(window)
            } else {
                None
            }),
    {
        let mut i: usize = 0;
        while i < self.workspaces.len()
            invariant
                i <= self.workspaces.len(),
                forall|j: int| 0 <= j < i ==> self.workspaces@[j] != window,
            decreases self.workspaces.len() - i,
        {
            if self.workspaces[i] == window {
                return Some(window);
            }
            i = i + 1;
        }
        None
    }

    /// The open primary window of `key`: nothing when no primary is designated
    /// or when the designated one has closed.
    pub fn primary_workspace_for_project(&self, key: ProjectKey) -> (r: Option<WindowId>)
        ensures
            r == self.primary_workspace_spec(key),
    {
        match self.primary_window_for_project(key) {
            Some(w) => self.open_window(w),
            None => None,
        }
    }
}

} // verus!
