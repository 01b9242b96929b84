use cfddns::watch::{watch_start, watch_step, Scope, WatchAction, WatchEvent, WatchState};

#[test]
fn pass_runs_before_subscribing() {
    let (s, a) = watch_start();
    assert_eq!((s, a), (WatchState::Starting, WatchAction::RunPass));
    let (s, a) = watch_step(s, WatchEvent::PassDone);
    assert_eq!(a, WatchAction::Subscribe(Scope::Full));
    let (s, a) = watch_step(s, WatchEvent::Subscribed);
    assert_eq!((s, a), (WatchState::Listening, WatchAction::Wait));
}

#[test]
fn narrower_scope_after_refusal() {
    let (s, _) = watch_step(WatchState::Starting, WatchEvent::PassDone);
    let (s, a) = watch_step(s, WatchEvent::SubscribeFailed);
    assert_eq!(a, WatchAction::Subscribe(Scope::LinkAndV4));
    let (s2, a2) = watch_step(s, WatchEvent::Subscribed);
    assert_eq!((s2, a2), (WatchState::Listening, WatchAction::Wait));
    let (s3, a3) = watch_step(s, WatchEvent::SubscribeFailed);
    assert_eq!((s3, a3), (WatchState::Failed, WatchAction::Fail));
}

#[test]
fn every_change_runs_one_pass() {
    let mut s = WatchState::Listening;
    let mut passes = 0;
    for _ in 0..4 {
        let (s1, a) = watch_step(s, WatchEvent::Changed);
        assert_eq!(a, WatchAction::RunPass);
        passes += 1;
        let (s2, a) = watch_step(s1, WatchEvent::PassDone);
        assert_eq!(a, WatchAction::Wait);
        s = s2;
    }
    assert_eq!(passes, 4);
    assert_eq!(watch_step(s, WatchEvent::ReceiveFailed), (WatchState::Failed, WatchAction::Fail));
}

#[test]
fn unexpected_events_change_nothing() {
    assert_eq!(watch_step(WatchState::Starting, WatchEvent::Changed), (WatchState::Starting, WatchAction::Wait));
    assert_eq!(watch_step(WatchState::Listening, WatchEvent::Subscribed), (WatchState::Listening, WatchAction::Wait));
    assert_eq!(watch_step(WatchState::Failed, WatchEvent::Changed), (WatchState::Failed, WatchAction::Fail));
}
