use vstd::prelude::*;

verus! {

/// Where one job handle stands in its life.
///
/// A handle is `Open` from the moment the OS creates it. Detaching moves
/// ownership out of the abstraction; the owning scope ending while the
/// handle is still owned closes it. No operation is valid on a handle
/// that is `Closed`.
#[derive(Clone, Copy, Debug, PartialEq, Eq, Structural)]
pub enum HandleState {
    /// The abstraction owns the open OS resource.
    Open,
    /// Ownership was moved out; the raw handle is the caller's now.
    Detached,
    /// The OS resource was released.
    Closed,
}

/// What can happen to an owned handle.
#[derive(Clone, Copy, Debug, PartialEq, Eq, Structural)]
pub enum HandleEvent {
    /// The owner takes the raw handle out of the abstraction.
    Detach,
    /// The owning scope ends.
    ScopeEnd,
}

/// What the owner must do to the OS resource after an event.
#[derive(Clone, Copy, Debug, PartialEq, Eq, Structural)]
pub enum ReleaseAction {
    /// Close the raw handle: the one best-effort release.
    Release,
    /// Leave the raw handle alone.
    Keep,
}

/// One step of the handle's life: the state after an event, and what to
/// do to the OS resource. Only the end of the owning scope, while the
/// handle is still owned, releases the resource; detaching first means
/// nothing ever will.
pub open spec fn spec_lifecycle_step(s: HandleState, e: HandleEvent) -> (HandleState,
    ReleaseAction) {
    match (s, e) {
        (HandleState::Open, HandleEvent::Detach) => (HandleState::Detached, ReleaseAction::Keep),
        (HandleState::Open, HandleEvent::ScopeEnd) => (HandleState::Closed,
            ReleaseAction::Release),
        (HandleState::Detached, _) => (HandleState::Detached, ReleaseAction::Keep),
        (HandleState::Closed, _) => (HandleState::Closed, ReleaseAction::Keep),
    }
}

/// Take one step of the handle's life.
pub fn lifecycle_step(s: HandleState, e: HandleEvent) -> (r: (HandleState, ReleaseAction))
    ensures
        r == spec_lifecycle_step(s, e),
{
    match (s, e) {
        (HandleState::Open, HandleEvent::Detach) => (HandleState::Detached, ReleaseAction::Keep),
        (HandleState::Open, HandleEvent::ScopeEnd) => (
            HandleState::Closed,
            ReleaseAction::Release,
        ),
        (HandleState::Detached, _) => (HandleState::Detached, ReleaseAction::Keep),
        (HandleState::Closed, _) => (HandleState::Closed, ReleaseAction::Keep),
    }
}

/// How many times a handle that starts in state `s` is released over a
/// whole sequence of events.
pub open spec fn spec_release_count(s: HandleState, events: Seq<HandleEvent>) -> nat
    decreases events.len(),
{
    if events.len() == 0 {
        0
    } else {
        let step = spec_lifecycle_step(s, events[0]);
        (if step.1 is Release {
            1nat
        } else {
            0nat
        }) + spec_release_count(step.0, events.drop_first())
    }
}

/// Law: a handle that is no longer owned — detached or already closed —
/// is never released again, whatever else happens. In particular,
/// detaching a handle and then letting the original owner go out of
/// scope does not release the OS resource.
pub proof fn lemma_detached_handle_never_released(s: HandleState, events: Seq<HandleEvent>)
    requires
        s is Detached || s is Closed,
    ensures
        spec_release_count(s, events) == 0,
    decreases events.len(),
{
    if events.len() > 0 {
        let step = spec_lifecycle_step(s, events[0]);
        lemma_detached_handle_never_released(step.0, events.drop_first());
    }
}

/// Law: whatever happens to a handle, the OS resource is released at most
/// once. Every release comes from the one step that closes an `Open`
/// handle, and no step leads back to `Open`.
pub proof fn lemma_released_at_most_once(s: HandleState, events: Seq<HandleEvent>)
    ensures
        spec_release_count(s, events) <= 1,
    decreases events.len(),
{
    if events.len() > 0 {
        let step = spec_lifecycle_step(s, events[0]);
        if step.1 is Release {
            lemma_detached_handle_never_released(step.0, events.drop_first());
        } else {
            lemma_released_at_most_once(step.0, events.drop_first());
        }
    }
}

} // verus!
