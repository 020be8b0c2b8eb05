use vstd::prelude::*;

verus! {

/// What the saved restore target becomes when the frontmost process is
/// observed: a foreign process replaces the target, while seeing this
/// process itself — or nothing at all — preserves the old target, so rapid
/// show/hide toggles cannot lose it.
pub open spec fn saved_target(
    prev: Option<i32>,
    frontmost: Option<i32>,
    our_pid: i32,
) -> Option<i32> {
    if frontmost is Some && frontmost->0 != our_pid {
        frontmost
    } else {
        prev
    }
}

/// The process-wide "previously frontmost application" cell, as plain state:
/// the surrounding application owns one of these behind its lock and performs
/// the actual window and activation calls with the decisions made here.
pub struct FocusState {
    pub prev_pid: Option<i32>,
}

impl FocusState {
    /// A fresh cell with no restore target.
    pub fn new() -> (r: FocusState)
        ensures
            r.prev_pid is None,
    {
        FocusState { prev_pid: None }
    }

    /// Records the observed frontmost process as the restore target, unless
    /// it is this process itself or nothing was observed; then the previous
    /// target is preserved rather than cleared.
    pub fn save_frontmost(&mut self, frontmost: Option<i32>, our_pid: i32)
        ensures
            final(self).prev_pid == saved_target(old(self).prev_pid, frontmost, our_pid),
    {
        match frontmost {
            None => (),
            Some(pid) => {
                if pid != our_pid {
                    self.prev_pid = Some(pid);
                }
            },
        }
    }

    /// Hands the restore target out and clears it, so the same process is
    /// not restored twice when hiding is requested from several code paths.
    pub fn take_restore_target(&mut self) -> (r: Option<i32>)
        ensures
            r == old(self).prev_pid,
            final(self).prev_pid is None,
    {
        let t = self.prev_pid;
        self.prev_pid = None;
        t
    }
}

} // verus!
