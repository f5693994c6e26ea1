use vstd::prelude::*;

verus! {

/// How a finished process ended: its exit code, if it had one.
#[derive(Clone, Copy, Debug, PartialEq, Eq, Structural)]
pub struct ExitStatus {
    pub code: Option<i32>,
}

impl ExitStatus {
    pub open spec fn is_success(&self) -> bool {
        self.code == Some(0i32)
    }

    /// Exit code zero.
    pub fn success(&self) -> (r: bool)
        ensures
            r == self.is_success(),
    {
        match self.code {
            Some(c) => c == 0,
            None => false,
        }
    }
}

/// A launch that could not proceed, with the provider's description.
pub struct SpawnError {
    pub message: String,
}

/// What became of one scheduled execution. Any exit status counts as a
/// completed run; only a launch failure is a failure.
pub enum TaskOutcome {
    Succeeded(ExitStatus),
    Failed(SpawnError),
    Cancelled,
}

pub open spec fn outcome_spec(result: Option<Result<ExitStatus, SpawnError>>) -> TaskOutcome {
    match result {
        Some(Ok(status)) => TaskOutcome::Succeeded(status),
        Some(Err(e)) => TaskOutcome::Failed(e),
        None => TaskOutcome::Cancelled,
    }
}

/// Classifies what a provider's execution handle yielded: nothing means it was
/// cancelled before completion.
pub fn outcome_of(result: Option<Result<ExitStatus, SpawnError>>) -> (r: TaskOutcome)
    ensures
        r == outcome_spec(result),
{
    match result {
        Some(Ok(status)) => TaskOutcome::Succeeded(status),
        Some(Err(e)) => TaskOutcome::Failed(e),
        None => TaskOutcome::Cancelled,
    }
}

/// Identity of a user-visible notification. Notifications with equal
/// identities replace one another instead of stacking.
#[derive(Clone, Copy, Debug, PartialEq, Eq, Structural)]
pub enum NotificationId {
    /// A resolved task could not be launched.
    TaskSpawnFailure,
}

/// A notification; the message is the description of what failed.
pub struct Toast {
    pub id: NotificationId,
    pub message: String,
}

/// Position of the last toast with identity `id`, or -1.
pub open spec fn toast_index(toasts: Seq<Toast>, id: NotificationId) -> int
    decreases toasts.len(),
{
    if toasts.len() == 0 {
        -1
    } else if toasts.last().id == id {
        toasts.len() - 1
    } else {
        toast_index(toasts.drop_last(), id)
    }
}

/// The toasts after `t` is shown: it replaces the one with its identity, or
/// is added after the others.
pub open spec fn shown(toasts: Seq<Toast>, t: Toast) -> Seq<Toast> {
    let i = toast_index(toasts, t.id);
    if i < 0 {
        toasts.push(t)
    } else {
        toasts.update(i, t)
    }
}

/// No two toasts share an identity.
pub open spec fn distinct_ids(toasts: Seq<Toast>) -> bool {
    forall|i: int, j: int|
        0 <= i < toasts.len() && 0 <= j < toasts.len() && i != j ==> toasts[i].id != toasts[j].id
}

pub proof fn lemma_toast_index(toasts: Seq<Toast>, id: NotificationId)
    ensures
        -1 <= toast_index(toasts, id) < toasts.len(),
        toast_index(toasts, id) >= 0 ==> toasts[toast_index(toasts, id)].id == id,
        toast_index(toasts, id) < 0 ==> forall|k: int| 0 <= k < toasts.len() ==> toasts[k].id != id,
    decreases toasts.len(),
{
    if toasts.len() > 0 && toasts.last().id != id {
        lemma_toast_index(toasts.drop_last(), id);
        assert(forall|k: int| 0 <= k < toasts.len() - 1 ==> toasts.drop_last()[k] == toasts[k]);
    }
}

/// Showing a toast whose identity is already shown replaces that toast in
/// place: the number of toasts stays the same.
pub proof fn lemma_show_toast_coalesces(toasts: Seq<Toast>, t: Toast, k: int)
    requires
        distinct_ids(toasts),
        0 <= k < toasts.len(),
        toasts[k].id == t.id,
    ensures
        shown(toasts, t).len() == toasts.len(),
        shown(toasts, t)[k] == t,
{
    lemma_toast_index(toasts, t.id);
}

/// The notifications a window shows.
pub struct Notifications {
    pub toasts: Vec<Toast>,
}

impl Notifications {
    pub open spec fn wf(&self) -> bool {
        distinct_ids(self.toasts@)
    }

    pub fn new() -> (r: Notifications)
        ensures
            r.wf(),
            r.toasts@.len() == 0,
    {
        Notifications { toasts: Vec::new() }
    }

    /// Shows `toast`, replacing a shown toast of the same identity.
    pub fn show_toast(&mut self, toast: Toast)
        requires
            old(self).wf(),
        ensures
            final(self).wf(),
            final(self).toasts@ == shown(old(self).toasts@, toast),
    {
        let ghost id = toast.id;
        let mut i: usize = self.toasts.len();
        assert(self.toasts@.take(i as int) =~= self.toasts@);
        while i > 0
            invariant
                i <= self.toasts.len(),
                self.toasts@ == old(self).toasts@,
                distinct_ids(old(self).toasts@),
                toast.id == id,
                toast_index(self.toasts@, id) == toast_index(self.toasts@.take(i as int), id),
            decreases i,
        {
            assert(self.toasts@.take(i as int).drop_last() =~= self.toasts@.take(i - 1));
            assert(self.toasts@.take(i as int).last() == self.toasts@[i - 1]);
            if self.toasts[i - 1].id == toast.id {
                proof {
                    lemma_toast_index(old(self).toasts@, id);
                }
                let ghost j = i - 1;
                assert(old(self).toasts@[j].id == id);
                self.toasts.set(i - 1, toast);
                assert forall|a: int, b: int|
                    0 <= a < self.toasts@.len() && 0 <= b < self.toasts@.len() && a != b implies
                    self.toasts@[a].id != self.toasts@[b].id by {
                    assert(self.toasts@[a].id == old(self).toasts@[a].id);
                    assert(self.toasts@[b].id == old(self).toasts@[b].id);
                }
                return;
            }
            i = i - 1;
        }
        assert(self.toasts@.take(0) =~= Seq::<Toast>::empty());
        proof {
            lemma_toast_index(old(self).toasts@, id);
        }
        self.toasts.push(toast);
        assert(distinct_ids(self.toasts@));
    }
}

} // verus!
