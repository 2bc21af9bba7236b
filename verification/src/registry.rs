//! The session registry: one slot for the session descriptor and one for the
//! handle of the supervised process. Each slot is meant to sit behind a lock of
//! its own, so a reader of the descriptor never waits for a shutdown.

use vstd::prelude::*;
use vstd::string::*;

verus! {

/// Why a query for the session failed.
#[derive(Clone, Copy, Debug, PartialEq, Eq, Structural)]
pub enum AccessError {
    /// The lock of the session slot could not be acquired.
    LockUnavailable,
    /// No descriptor has been published yet.
    NotInitialized,
}

impl AccessError {
    /// The text of the failure, as a sequence of characters.
    pub open spec fn message_of(self) -> Seq<char> {
        match self {
            AccessError::LockUnavailable => "Session lock failed"@,
            AccessError::NotInitialized => "Session has not been initialized"@,
        }
    }

    /// The text shown to whoever asked.
    pub fn message(&self) -> (text: &'static str)
        ensures
            text@ == self.message_of(),
    {
        match self {
            AccessError::LockUnavailable => "Session lock failed",
            AccessError::NotInitialized => "Session has not been initialized",
        }
    }
}

/// Where the backend listens and the credential it expects.
#[derive(Debug)]
pub struct SessionDescriptor {
    pub base_url: String,
    pub token: String,
}

/// A session descriptor as plain sequences of characters.
pub struct SessionView {
    pub base_url: Seq<char>,
    pub token: Seq<char>,
}

impl View for SessionDescriptor {
    type V = SessionView;

    open spec fn view(&self) -> SessionView {
        SessionView { base_url: self.base_url@, token: self.token@ }
    }
}

impl Clone for SessionDescriptor {
    fn clone(&self) -> (copy: Self)
        ensures
            copy == *self,
    {
        SessionDescriptor { base_url: self.base_url.clone(), token: self.token.clone() }
    }
}

/// What a session slot holds once `descriptor` is published in it: the new
/// descriptor, whatever it held before.
pub open spec fn after_publish(slot: Option<SessionView>, descriptor: SessionView) -> Option<
    SessionView,
> {
    Some(descriptor)
}

/// What a query finds in a session slot that holds `slot`.
pub open spec fn lookup(slot: Option<SessionView>) -> Result<SessionView, AccessError> {
    match slot {
        Some(descriptor) => Ok(descriptor),
        None => Err(AccessError::NotInitialized),
    }
}

/// What a query finds when the slot's lock was taken (`Some`) or could not be
/// (`None`).
pub open spec fn lookup_locked(guard: Option<Option<SessionView>>) -> Result<
    SessionView,
    AccessError,
> {
    match guard {
        Some(slot) => lookup(slot),
        None => Err(AccessError::LockUnavailable),
    }
}

/// The outcome of a query with its descriptor as plain sequences.
pub open spec fn outcome_view(outcome: Result<SessionDescriptor, AccessError>) -> Result<
    SessionView,
    AccessError,
> {
    match outcome {
        Ok(descriptor) => Ok(descriptor@),
        Err(e) => Err(e),
    }
}

/// The slot that holds the session descriptor.
pub struct SessionSlot {
    descriptor: Option<SessionDescriptor>,
}

impl View for SessionSlot {
    type V = Option<SessionView>;

    closed spec fn view(&self) -> Option<SessionView> {
        match self.descriptor {
            Some(descriptor) => Some(descriptor@),
            None => None,
        }
    }
}

impl SessionSlot {
    /// An empty slot.
    pub fn new() -> (slot: Self)
        ensures
            slot@ is None,
    {
        SessionSlot { descriptor: None }
    }

    /// Stores `descriptor`, whatever the slot held before.
    pub fn publish_session(&mut self, descriptor: SessionDescriptor)
        ensures
            final(self)@ == after_publish(old(self)@, descriptor@),
    {
        self.descriptor = Some(descriptor);
    }

    /// A copy of the published descriptor. Fails with `NotInitialized` exactly
    /// when nothing has been published.
    pub fn get_session(&self) -> (outcome: Result<SessionDescriptor, AccessError>)
        ensures
            outcome_view(outcome) == lookup(self@),
    {
        match &self.descriptor {
            Some(descriptor) => Ok(descriptor.clone()),
            None => Err(AccessError::NotInitialized),
        }
    }
}

/// Answers a query for the session. `guard` is the session slot as seen under
/// its lock, or `None` when the lock could not be acquired.
pub fn session_config(guard: Option<&SessionSlot>) -> (outcome: Result<
    SessionDescriptor,
    AccessError,
>)
    ensures
        outcome_view(outcome) == lookup_locked(
            match guard {
                Some(slot) => Some(slot@),
                None => None,
            },
        ),
{
    match guard {
        Some(slot) => slot.get_session(),
        None => Err(AccessError::LockUnavailable),
    }
}

/// What a process slot holds once `handle` is stored in it.
pub open spec fn after_store<P>(slot: Option<P>, handle: P) -> Option<P> {
    Some(handle)
}

/// What taking from a process slot hands out.
pub open spec fn taken<P>(slot: Option<P>) -> Option<P> {
    slot
}

/// What a process slot holds once it was taken from: nothing.
pub open spec fn after_take<P>(slot: Option<P>) -> Option<P> {
    None
}

/// The slot that holds the handle of the supervised process. `P` is the
/// handle's type; the slot never looks inside it.
pub struct ProcessSlot<P> {
    handle: Option<P>,
}

impl<P> View for ProcessSlot<P> {
    type V = Option<P>;

    closed spec fn view(&self) -> Option<P> {
        self.handle
    }
}

impl<P> ProcessSlot<P> {
    /// An empty slot.
    pub fn new() -> (slot: Self)
        ensures
            slot@ is None,
    {
        ProcessSlot { handle: None }
    }

    /// Stores `handle`, whatever the slot held before.
    pub fn publish_process(&mut self, handle: P)
        ensures
            final(self)@ == after_store(old(self)@, handle),
    {
        self.handle = Some(handle);
    }

    /// Removes the stored handle and returns it; the slot is empty afterwards.
    pub fn take_process(&mut self) -> (handle: Option<P>)
        ensures
            handle == taken(old(self)@),
            final(self)@ == after_take(old(self)@),
    {
        self.handle.take()
    }
}

/// What a session slot holds after the publications of `history`, in their
/// order, on a slot that was empty.
pub open spec fn after_publications(history: Seq<SessionView>) -> Option<SessionView>
    decreases history.len(),
{
    if history.len() == 0 {
        None
    } else {
        after_publish(after_publications(history.drop_last()), history.last())
    }
}

/// A query before any publication fails with `NotInitialized`; after one or
/// more it finds exactly the descriptor published last.
pub proof fn lemma_get_follows_history(history: Seq<SessionView>)
    ensures
        lookup(after_publications(history)) == if history.len() == 0 {
            Err::<SessionView, AccessError>(AccessError::NotInitialized)
        } else {
            Ok::<SessionView, AccessError>(history.last())
        },
{
}

/// A query after a publication finds exactly the descriptor published last,
/// whatever the slot held before.
pub proof fn lemma_get_after_publish(
    before: Option<SessionView>,
    first: SessionView,
    last: SessionView,
)
    ensures
        lookup(after_publish(before, last)) == Ok::<SessionView, AccessError>(last),
        lookup(after_publish(after_publish(before, first), last)) == Ok::<
            SessionView,
            AccessError,
        >(last),
{
}

/// A query succeeds exactly on a slot in which something was published, and a
/// slot whose lock cannot be had answers `LockUnavailable` whatever it holds.
pub proof fn lemma_query_outcomes(slot: Option<SessionView>)
    ensures
        lookup(slot) is Ok <==> slot is Some,
        lookup(slot) is Err ==> lookup(slot) == Err::<SessionView, AccessError>(
            AccessError::NotInitialized,
        ),
        lookup_locked(Some(slot)) == lookup(slot),
        lookup_locked(None) == Err::<SessionView, AccessError>(AccessError::LockUnavailable),
{
}

/// A stored handle comes out exactly once: the take that follows a store hands
/// out that handle, and every take after it, with no store in between, hands
/// out nothing.
pub proof fn lemma_take_once<P>(before: Option<P>, handle: P)
    ensures
        taken(after_store(before, handle)) == Some(handle),
        taken(after_take(after_store(before, handle))) == None::<P>,
        taken(after_take(before)) == None::<P>,
        after_take(after_take(before)) == after_take(before),
{
}

} // verus!
