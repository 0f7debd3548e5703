//! The slot that holds the replication session.
use vstd::prelude::*;

verus! {

/// The one place where the active replication session lives.
///
/// A slot is made with or without a session. Afterwards the session can be
/// used in place or taken out for good; nothing puts a session back. An
/// empty slot therefore stays empty, and every operation that needs the
/// session fails from then on.
pub struct SessionSlot<S> {
    session: Option<S>,
}

impl<S> View for SessionSlot<S> {
    type V = Option<S>;

    closed spec fn view(&self) -> Option<S> {
        self.session
    }
}

impl<S> SessionSlot<S> {
    /// A slot that holds `session`, if there is one.
    pub fn new(session: Option<S>) -> (slot: SessionSlot<S>)
        ensures
            slot@ == session,
    {
        SessionSlot { session }
    }

    /// Whether the slot holds a session.
    pub fn is_present(&self) -> (present: bool)
        ensures
            present == (self@ is Some),
    {
        self.session.is_some()
    }

    /// The session, to be used in place.
    pub fn session_mut(&mut self) -> (session: Option<&mut S>)
        ensures
            old(self)@ is None ==> session is None && final(self)@ is None,
            old(self)@ is Some ==> session is Some && *session->0 == old(self)@->0 && final(self)@
                == Some(*final(session->0)),
    {
        match &mut self.session {
            Some(session) => Some(session),
            None => None,
        }
    }

    /// Takes the session out of the slot and hands it to the caller, who
    /// drains it. The slot is empty afterwards.
    pub fn shutdown(&mut self) -> (session: Option<S>)
        ensures
            session == old(self)@,
            final(self)@ is None,
    {
        self.session.take()
    }
}

} // verus!
