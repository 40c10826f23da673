use vstd::prelude::*;

verus! {

/// Whether a session may have output pending from its last input call.
#[derive(Debug, Clone, Copy, PartialEq, Eq, Structural)]
pub enum Phase {
    /// No output pending: the last drain came back empty, or no input was
    /// accepted yet.
    Idle,
    /// The last input call was accepted; the cursor may yield more output.
    Draining,
}

/// The protocol state shared by decoder and encoder sessions.
///
/// `drained` is the position of the output cursor: the number of records
/// drained since the last input call. Zero is the cursor's initial state,
/// which every input call restores.
#[derive(Debug, Clone, Copy, PartialEq, Eq, Structural)]
pub struct SessionState {
    pub open: bool,
    pub phase: Phase,
    pub drained: u64,
}

impl SessionState {
    /// The state of a session whose native context was just created.
    pub open spec fn initial() -> SessionState {
        SessionState { open: true, phase: Phase::Idle, drained: 0 }
    }

    /// The state after an input call (decode, encode or flush) that the
    /// native engine accepted or rejected.
    pub open spec fn after_input(self, accepted: bool) -> SessionState {
        SessionState {
            open: self.open,
            phase: if accepted { Phase::Draining } else { self.phase },
            drained: 0,
        }
    }

    /// The state after a drain call that yielded a record or nothing.
    pub open spec fn after_drain(self, yielded: bool) -> SessionState {
        if yielded {
            SessionState {
                drained: if self.drained < u64::MAX { (self.drained + 1) as u64 } else { self.drained },
                ..self
            }
        } else {
            SessionState { phase: Phase::Idle, ..self }
        }
    }

    /// Whether releasing the session tears the native context down, and the
    /// state afterwards.
    pub open spec fn after_release(self) -> (bool, SessionState) {
        (self.open, SessionState { open: false, ..self })
    }

    /// Whether the cursor is in its initial state.
    pub open spec fn cursor_is_initial(self) -> bool {
        self.drained == 0
    }

    /// A session whose native context was just created.
    pub fn new() -> (s: SessionState)
        ensures
            s == SessionState::initial(),
    {
        SessionState { open: true, phase: Phase::Idle, drained: 0 }
    }

    /// Records an input call; `accepted` is whether the native engine
    /// returned success. The cursor is reset whatever the outcome.
    pub fn record_input(&mut self, accepted: bool)
        ensures
            *final(self) == old(self).after_input(accepted),
    {
        self.drained = 0;
        if accepted {
            self.phase = Phase::Draining;
        }
    }

    /// Records a drain call; `yielded` is whether the native engine handed
    /// out a record.
    pub fn record_drain(&mut self, yielded: bool)
        ensures
            *final(self) == old(self).after_drain(yielded),
    {
        if yielded {
            if self.drained < u64::MAX {
                self.drained = self.drained + 1;
            }
        } else {
            self.phase = Phase::Idle;
        }
    }

    /// Marks the session released. Returns whether the native context must
    /// be destroyed now: true on the first release only.
    pub fn release(&mut self) -> (destroy: bool)
        ensures
            (destroy, *final(self)) == old(self).after_release(),
    {
        let destroy = self.open;
        self.open = false;
        destroy
    }

    /// Whether the native cursor must be at its initial (null) state.
    pub fn cursor_at_start(&self) -> (r: bool)
        ensures
            r == self.cursor_is_initial(),
    {
        self.drained == 0
    }

    /// Whether output may still be pending from the last input call.
    pub fn is_draining(&self) -> (r: bool)
        ensures
            r == (self.phase == Phase::Draining),
    {
        match self.phase {
            Phase::Draining => true,
            Phase::Idle => false,
        }
    }
}

/// A session that is created and released at once tears its native context
/// down exactly once: the first release destroys it, a later one does not.
pub proof fn lemma_lifecycle_single_teardown()
    ensures
        SessionState::initial().after_release().0,
        !SessionState::initial().after_release().1.after_release().0,
        !SessionState::initial().after_release().1.open,
{
}

/// Whatever the state and whatever the native outcome, an input call leaves
/// the cursor in its initial state.
pub proof fn lemma_input_resets_cursor(s: SessionState, accepted: bool)
    ensures
        s.after_input(accepted).cursor_is_initial(),
        accepted ==> s.after_input(accepted).phase == Phase::Draining,
        !accepted ==> s.after_input(accepted).phase == s.phase,
{
}

/// A drain that comes back empty ends the draining phase; one that yields a
/// record keeps it.
pub proof fn lemma_drain_until_empty(s: SessionState)
    ensures
        s.after_drain(false).phase == Phase::Idle,
        s.after_drain(true).phase == s.phase,
        s.after_drain(true).open == s.open,
{
}

} // verus!
