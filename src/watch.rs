//! The decisions of the network change watcher. The caller owns the operating
//! system's notification source: it performs each action and reports what
//! happened as the next event.
use vstd::prelude::*;

verus! {

/// Which notifications a subscription asks for.
#[derive(Debug, Clone, Copy, PartialEq, Eq, Structural)]
pub enum Scope {
    /// Link changes and IPv4 and IPv6 address changes.
    Full,
    /// Link changes and IPv4 address changes only.
    LinkAndV4,
}

#[derive(Debug, Clone, Copy, PartialEq, Eq, Structural)]
pub enum WatchState {
    /// The initial pass runs; nothing is subscribed yet.
    Starting,
    /// A subscription with this scope is being set up.
    Subscribing(Scope),
    /// Subscribed: waiting for notifications.
    Listening,
    /// The watcher gave up; the failure is fatal.
    Failed,
}

#[derive(Debug, Clone, Copy, PartialEq, Eq, Structural)]
pub enum WatchEvent {
    /// The reconciliation pass that was asked for has finished.
    PassDone,
    /// The subscription that was asked for is in place.
    Subscribed,
    /// The subscription that was asked for could not be set up.
    SubscribeFailed,
    /// A link or address change was notified.
    Changed,
    /// Receiving notifications failed.
    ReceiveFailed,
}

#[derive(Debug, Clone, Copy, PartialEq, Eq, Structural)]
pub enum WatchAction {
    /// Run one reconciliation pass for every address family, then report `PassDone`.
    RunPass,
    /// Subscribe with this scope, then report `Subscribed` or `SubscribeFailed`.
    Subscribe(Scope),
    /// Wait for the next notification.
    Wait,
    /// Stop watching with an error.
    Fail,
}

/// The watcher's first state and action: a pass runs before any subscription.
pub open spec fn watch_start_of() -> (WatchState, WatchAction) {
    (WatchState::Starting, WatchAction::RunPass)
}

/// The next state and action after `event` in `state`. The full scope is
/// tried first and the narrower one where it fails; every change runs one
/// pass. An event that the state does not expect changes nothing.
pub open spec fn watch_step_of(state: WatchState, event: WatchEvent) -> (WatchState, WatchAction) {
    match (state, event) {
        (WatchState::Starting, WatchEvent::PassDone) => (
            WatchState::Subscribing(Scope::Full),
            WatchAction::Subscribe(Scope::Full),
        ),
        (WatchState::Subscribing(_), WatchEvent::Subscribed) => (
            WatchState::Listening,
            WatchAction::Wait,
        ),
        (WatchState::Subscribing(Scope::Full), WatchEvent::SubscribeFailed) => (
            WatchState::Subscribing(Scope::LinkAndV4),
            WatchAction::Subscribe(Scope::LinkAndV4),
        ),
        (WatchState::Subscribing(Scope::LinkAndV4), WatchEvent::SubscribeFailed) => (
            WatchState::Failed,
            WatchAction::Fail,
        ),
        (WatchState::Listening, WatchEvent::Changed) => (WatchState::Listening, WatchAction::RunPass),
        (WatchState::Listening, WatchEvent::PassDone) => (WatchState::Listening, WatchAction::Wait),
        (WatchState::Listening, WatchEvent::ReceiveFailed) => (WatchState::Failed, WatchAction::Fail),
        (WatchState::Failed, _) => (WatchState::Failed, WatchAction::Fail),
        (s, _) => (s, WatchAction::Wait),
    }
}

/// The watcher's first state and action.
pub fn watch_start() -> (r: (WatchState, WatchAction))
    ensures
        r == watch_start_of(),
{
    (WatchState::Starting, WatchAction::RunPass)
}

/// The watcher's next state and action after `event` in `state`.
pub fn watch_step(state: WatchState, event: WatchEvent) -> (r: (WatchState, WatchAction))
    ensures
        r == watch_step_of(state, event),
{
    match (state, event) {
        (WatchState::Starting, WatchEvent::PassDone) => (
            WatchState::Subscribing(Scope::Full),
            WatchAction::Subscribe(Scope::Full),
        ),
        (WatchState::Subscribing(_), WatchEvent::Subscribed) => (
            WatchState::Listening,
            WatchAction::Wait,
        ),
        (WatchState::Subscribing(Scope::Full), WatchEvent::SubscribeFailed) => (
            WatchState::Subscribing(Scope::LinkAndV4),
            WatchAction::Subscribe(Scope::LinkAndV4),
        ),
        (WatchState::Subscribing(Scope::LinkAndV4), WatchEvent::SubscribeFailed) => (
            WatchState::Failed,
            WatchAction::Fail,
        ),
        (WatchState::Listening, WatchEvent::Changed) => (WatchState::Listening, WatchAction::RunPass),
        (WatchState::Listening, WatchEvent::PassDone) => (WatchState::Listening, WatchAction::Wait),
        (WatchState::Listening, WatchEvent::ReceiveFailed) => (WatchState::Failed, WatchAction::Fail),
        (WatchState::Failed, _) => (WatchState::Failed, WatchAction::Fail),
        (s, _) => (s, WatchAction::Wait),
    }
}

/// The state and the actions after the events `events`, from the start.
pub open spec fn watch_run(events: Seq<WatchEvent>) -> (WatchState, Seq<WatchAction>)
    decreases events.len(),
{
    if events.len() == 0 {
        (watch_start_of().0, seq![watch_start_of().1])
    } else {
        let (s, acts) = watch_run(events.drop_last());
        let (s2, a) = watch_step_of(s, events.last());
        (s2, acts.push(a))
    }
}

/// Whatever events come, the first action is a pass, and no subscription is
/// asked for before that pass has been reported done.
pub proof fn lemma_pass_before_subscribing(events: Seq<WatchEvent>)
    ensures
        watch_run(events).1.len() == events.len() + 1,
        watch_run(events).1[0] == WatchAction::RunPass,
        forall|i: int|
            0 <= i < events.len() && (#[trigger] watch_run(events).1[i + 1]) is Subscribe
                ==> exists|j: int| 0 <= j <= i && #[trigger] events[j] == WatchEvent::PassDone,
    decreases events.len(),
{
    if events.len() > 0 {
        let prev = events.drop_last();
        lemma_pass_before_subscribing(prev);
        lemma_subscribing_follows_pass(prev);
        let n = events.len() - 1;
        assert forall|i: int|
            0 <= i < events.len() && (#[trigger] watch_run(events).1[i + 1]) is Subscribe
                implies exists|j: int| 0 <= j <= i && #[trigger] events[j] == WatchEvent::PassDone by {
            if i < n {
                assert(watch_run(events).1[i + 1] == watch_run(prev).1[i + 1]);
                let j = choose|j: int| 0 <= j <= i && #[trigger] prev[j] == WatchEvent::PassDone;
                assert(events[j] == prev[j]);
            } else {
                let s = watch_run(prev).0;
                if s == WatchState::Starting {
                    assert(events[n] == WatchEvent::PassDone);
                } else {
                    let j = choose|j: int| 0 <= j < n && #[trigger] prev[j] == WatchEvent::PassDone;
                    assert(events[j] == prev[j]);
                }
            }
        }
    }
}

/// Out of the starting state, a pass has been reported done.
proof fn lemma_subscribing_follows_pass(events: Seq<WatchEvent>)
    ensures
        watch_run(events).0 != WatchState::Starting ==> exists|j: int|
            0 <= j < events.len() && #[trigger] events[j] == WatchEvent::PassDone,
    decreases events.len(),
{
    if events.len() > 0 {
        let prev = events.drop_last();
        lemma_subscribing_follows_pass(prev);
        if watch_run(prev).0 != WatchState::Starting {
            let j = choose|j: int| 0 <= j < prev.len() && #[trigger] prev[j] == WatchEvent::PassDone;
            assert(events[j] == prev[j]);
        } else if watch_run(events).0 != WatchState::Starting {
            assert(events[events.len() - 1] == WatchEvent::PassDone);
        }
    }
}

} // verus!
