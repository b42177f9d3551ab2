//! The process supervisor's decision core.  It owns one slot that is either
//! empty or holds the generation tag of the current session (the pairing of
//! a spawned player process and its IPC client, which the caller keeps under
//! the same tag).  `ensure_step` is the check-and-maybe-replace sequence run
//! under the slot's guard: probe the child, reuse a live session, and spawn
//! a fresh one otherwise.  The caller performs the probe and the spawn; the
//! decision, the slot and the count of spawns are verified here.

use vstd::prelude::*;

verus! {

/// What the non-blocking probe of the slot found.
pub enum Probe {
    /// The slot is empty: no process was ever spawned, or the last session
    /// was discarded.
    NoSession,
    /// The slot holds a session and its child process still runs.
    Running,
    /// The slot holds a session but its child process has exited.
    Exited,
    /// The probe itself failed; nothing is known about the child.
    ProbeFailed,
}

/// What the caller must do after `ensure_step`.
pub enum EnsureAction {
    /// The current session is alive: issue commands on it as it stands.
    Reuse,
    /// Spawn a fresh process and client pair, and keep it under this tag.
    Spawn(u64),
    /// Surface the probe's failure to the caller; nothing was replaced.
    Fail,
}

pub struct Supervisor {
    /// The generation tag of the session in the slot, if one is there.
    session: Option<u64>,
    /// The tag the next spawned session will carry.
    next_gen: u64,
    /// How many spawns this supervisor has decided.
    spawns: Ghost<nat>,
}

impl Supervisor {
    pub closed spec fn session_gen(self) -> Option<u64> {
        self.session
    }

    pub closed spec fn next_gen(self) -> u64 {
        self.next_gen
    }

    pub closed spec fn spawn_count(self) -> nat {
        self.spawns@
    }

    /// Every session ever stored carries a tag below `next_gen`.
    pub open spec fn wf(self) -> bool {
        match self.session_gen() {
            Some(g) => g < self.next_gen(),
            None => true,
        }
    }

    /// A fresh supervisor: empty slot, no spawn decided yet.
    pub fn new() -> (s: Supervisor)
        ensures
            s.session_gen() is None,
            s.next_gen() == 0,
            s.spawn_count() == 0,
            s.wf(),
    {
        Supervisor { session: None, next_gen: 0, spawns: Ghost(0) }
    }

    /// The tag of the session the slot holds, if any: commands may be issued
    /// only on the session carrying this tag.
    pub fn current(&self) -> (r: Option<u64>)
        ensures
            r == self.session_gen(),
    {
        self.session
    }

    /// The tag the next spawned session will carry.
    pub fn watermark(&self) -> (r: u64)
        ensures
            r == self.next_gen(),
    {
        self.next_gen
    }

    /// One guarded check-and-maybe-replace sequence.  `probe` must report on
    /// the slot as it stands: `NoSession` exactly when the slot is empty.
    pub fn ensure_step(&mut self, probe: Probe) -> (a: EnsureAction)
        requires
            old(self).wf(),
            old(self).next_gen() < u64::MAX,
            (probe is NoSession) <==> (old(self).session_gen() is None),
        ensures
            ensure_spec(*old(self), probe, *final(self), a),
            final(self).wf(),
    {
        match probe {
            Probe::Running => EnsureAction::Reuse,
            Probe::ProbeFailed => EnsureAction::Fail,
            Probe::NoSession | Probe::Exited => {
                let g = self.next_gen;
                self.session = Some(g);
                self.next_gen = g + 1;
                proof {
                    self.spawns@ = self.spawns@ + 1;
                }
                EnsureAction::Spawn(g)
            },
        }
    }
}

/// The transition `ensure_step` performs: a live session is reused and
/// nothing changes; an empty slot or a dead child is replaced by exactly one
/// fresh session under a tag never used before; a failed probe changes
/// nothing and is surfaced.
pub open spec fn ensure_spec(pre: Supervisor, probe: Probe, post: Supervisor, a: EnsureAction) -> bool {
    match probe {
        Probe::Running => a is Reuse && post == pre,
        Probe::ProbeFailed => a is Fail && post == pre,
        Probe::NoSession | Probe::Exited => {
            &&& a == EnsureAction::Spawn(pre.next_gen())
            &&& post.session_gen() == Some(pre.next_gen())
            &&& post.next_gen() == pre.next_gen() + 1
            &&& post.spawn_count() == pre.spawn_count() + 1
        },
    }
}

/// Law: `ensure_running` called twice in a row while the spawned process
/// stays alive performs exactly one spawn — the first call fills the empty
/// slot, the second reuses it untouched.
pub proof fn lemma_ensure_twice_one_spawn(
    s0: Supervisor,
    s1: Supervisor,
    s2: Supervisor,
    a1: EnsureAction,
    a2: EnsureAction,
)
    requires
        s0.session_gen() is None,
        ensure_spec(s0, Probe::NoSession, s1, a1),
        ensure_spec(s1, Probe::Running, s2, a2),
    ensures
        a1 == EnsureAction::Spawn(s0.next_gen()),
        a2 is Reuse,
        s2 == s1,
        s2.spawn_count() == s0.spawn_count() + 1,
{
}

/// Law: `ensure_running` called after the supervised process has exited
/// performs exactly one new spawn, and the slot no longer holds the previous
/// session's tag — the old IPC client is unusable for new commands.
pub proof fn lemma_respawn_after_exit(s0: Supervisor, s1: Supervisor, a: EnsureAction, g0: u64)
    requires
        s0.wf(),
        s0.session_gen() == Some(g0),
        ensure_spec(s0, Probe::Exited, s1, a),
    ensures
        a == EnsureAction::Spawn(s0.next_gen()),
        s1.spawn_count() == s0.spawn_count() + 1,
        s1.session_gen() is Some,
        s1.session_gen() != Some(g0),
{
}

} // verus!
