use vstd::prelude::*;

verus! {

/// What the owner of a task slot asks its runtime to do after a lifecycle call.
pub enum SlotChange {
    /// Leave the running task, if any, as it is.
    Unchanged,
    /// Abort the task with token `abort`, if any, and spawn one with token `token`.
    Started { token: u64, abort: Option<u64> },
    /// Abort the task with token `abort`, if any.
    Stopped { abort: Option<u64> },
}

/// The slot for one logical background task.
///
/// Each task installed in the slot is known by a token. At most one token is
/// active at a time; a task whose token is no longer the active one has been
/// superseded or cancelled and must not emit.
pub struct TaskSlot {
    active: Option<u64>,
    next_token: u64,
}

impl TaskSlot {
    /// The token of the task that currently owns the slot, if any.
    pub closed spec fn active(&self) -> Option<u64> {
        self.active
    }

    /// The token that the next installed task receives.
    pub closed spec fn next_token(&self) -> u64 {
        self.next_token
    }

    /// An active token is always the last one handed out.
    pub closed spec fn wf(&self) -> bool {
        self.active matches Some(t) ==> t != self.next_token
    }

    /// An empty slot.
    pub fn new() -> (r: TaskSlot)
        ensures
            r.wf(),
            r.active() is None,
    {
        TaskSlot { active: None, next_token: 0 }
    }

    /// Installs a new task; returns its token and the token of the task that it
    /// replaces, which the caller aborts.
    pub fn replace(&mut self) -> (r: (u64, Option<u64>))
        requires
            old(self).wf(),
        ensures
            final(self).wf(),
            final(self).active() == Some(r.0),
            r.0 == old(self).next_token(),
            r.1 == old(self).active(),
            r.1 != Some(r.0),
    {
        let token = self.next_token;
        let previous = self.active;
        self.active = Some(token);
        self.next_token = token.wrapping_add(1);
        (token, previous)
    }

    /// Empties the slot; returns the token of the task to abort, if any.
    pub fn cancel(&mut self) -> (r: Option<u64>)
        requires
            old(self).wf(),
        ensures
            final(self).wf(),
            final(self).active() is None,
            final(self).next_token() == old(self).next_token(),
            r == old(self).active(),
    {
        let previous = self.active;
        self.active = None;
        previous
    }

    /// Whether the task with this token still owns the slot.
    pub fn is_current(&self, token: u64) -> (r: bool)
        ensures
            r == (self.active() == Some(token)),
    {
        match self.active {
            Some(t) => t == token,
            None => false,
        }
    }

    /// Whether some task owns the slot.
    pub fn is_occupied(&self) -> (r: bool)
        ensures
            r == (self.active() is Some),
    {
        self.active.is_some()
    }
}

} // verus!
