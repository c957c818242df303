use leptoaster::lifecycle::{
    LifecycleAction, LifecycleCoordinator, LifecycleEvent, LifecycleState, EXIT_ANIMATION_MS,
};
use leptoaster::{ToastBuilder, ToasterContext};

#[test]
fn expiry_then_exit_removes_exactly_once() {
    // a toast with a 100 ms expiry; the events arrive in virtual-time order:
    // t = 100 ms (expiry), the flag flip observed, t = 100 ms + exit wait
    let mut toaster = ToasterContext::default();
    let id = toaster.toast(ToastBuilder::new("soon").with_expiry(Some(100)));
    let mut coordinator = LifecycleCoordinator::new(id);
    assert_eq!(coordinator.state, LifecycleState::Visible);

    // t = 100 ms: the expiry elapses and finds the flag still false
    let action = coordinator.handle(LifecycleEvent::ExpiryElapsed, &mut toaster);
    assert_eq!(action, LifecycleAction::SignalledClear);
    assert_eq!(toaster.clear_signal(id), Some(true));
    assert_eq!(toaster.visible(), 1);

    // the flag flip is observed: the exit-animation wait begins
    let action = coordinator.handle(LifecycleEvent::ClearSignalSet, &mut toaster);
    assert_eq!(action, LifecycleAction::StartExitWait);
    assert_eq!(coordinator.state, LifecycleState::Clearing);
    assert_eq!(EXIT_ANIMATION_MS, 200);

    // t = 300 ms: the exit wait elapses and the toast is evicted
    let action = coordinator.handle(LifecycleEvent::ExitElapsed, &mut toaster);
    assert_eq!(action, LifecycleAction::RemovedToast);
    assert_eq!(coordinator.state, LifecycleState::Removed);
    assert_eq!(toaster.visible(), 0);
    assert!(toaster.queue().iter().all(|t| t.id != id));

    // a duplicate timer path after removal is a safe no-op
    let action = coordinator.handle(LifecycleEvent::ExitElapsed, &mut toaster);
    assert_eq!(action, LifecycleAction::Stay);
    assert_eq!(coordinator.state, LifecycleState::Removed);
    assert_eq!(toaster.visible(), 0);
}

#[test]
fn dismiss_before_expiry_wins_the_race() {
    // expiry at 5000 ms, dismiss click at 10 ms: the click flips the flag
    // and the later expiry timer finds it already set
    let mut toaster = ToasterContext::default();
    let id = toaster.toast(
        ToastBuilder::new("dismiss me")
            .with_expiry(Some(5_000))
            .with_dismissable(true),
    );
    let mut coordinator = LifecycleCoordinator::new(id);

    // t = 10 ms: the user clicks
    assert!(toaster.dismiss(id));
    assert_eq!(toaster.clear_signal(id), Some(true));

    let action = coordinator.handle(LifecycleEvent::ClearSignalSet, &mut toaster);
    assert_eq!(action, LifecycleAction::StartExitWait);
    let action = coordinator.handle(LifecycleEvent::ExitElapsed, &mut toaster);
    assert_eq!(action, LifecycleAction::RemovedToast);
    assert_eq!(toaster.visible(), 0);

    // t = 5000 ms: the stale expiry timer fires and takes no further action
    let action = coordinator.handle(LifecycleEvent::ExpiryElapsed, &mut toaster);
    assert_eq!(action, LifecycleAction::Stay);
    assert_eq!(coordinator.state, LifecycleState::Removed);
    assert_eq!(toaster.visible(), 0);
}

#[test]
fn expiry_timer_stays_when_flag_already_set() {
    // the race decided before removal: the flag is set, then the expiry
    // timer fires while the toast is still visible
    let mut toaster = ToasterContext::default();
    let id = toaster.toast(ToastBuilder::new("raced").with_expiry(Some(5_000)));
    let mut coordinator = LifecycleCoordinator::new(id);

    assert!(toaster.dismiss(id));
    let action = coordinator.handle(LifecycleEvent::ExpiryElapsed, &mut toaster);
    assert_eq!(action, LifecycleAction::Stay);
    assert_eq!(coordinator.state, LifecycleState::Visible);
    assert_eq!(toaster.clear_signal(id), Some(true));
    assert_eq!(toaster.visible(), 1);
}

#[test]
fn non_dismissable_clears_only_through_expiry() {
    let mut toaster = ToasterContext::default();
    let id = toaster.toast(
        ToastBuilder::new("stubborn")
            .with_expiry(Some(2_500))
            .with_dismissable(false),
    );
    let mut coordinator = LifecycleCoordinator::new(id);

    // a dismiss click does not flip the flag
    assert!(!toaster.dismiss(id));
    assert_eq!(toaster.clear_signal(id), Some(false));

    // the expiry still clears the toast
    let action = coordinator.handle(LifecycleEvent::ExpiryElapsed, &mut toaster);
    assert_eq!(action, LifecycleAction::SignalledClear);
    assert_eq!(toaster.clear_signal(id), Some(true));
}

#[test]
fn bulk_clear_evicts_all_through_their_own_lifecycles() {
    let mut toaster = ToasterContext::default();
    let ids = [
        toaster.toast(ToastBuilder::new("a").with_expiry(None)),
        toaster.toast(ToastBuilder::new("b").with_expiry(None)),
        toaster.toast(ToastBuilder::new("c").with_expiry(None)),
    ];
    let mut coordinators: Vec<LifecycleCoordinator> =
        ids.iter().map(|id| LifecycleCoordinator::new(*id)).collect();

    toaster.clear();
    for id in ids {
        assert_eq!(toaster.clear_signal(id), Some(true));
    }

    // each toast's own coordinator observes the flag and, after the exit
    // wait, removes its toast
    for coordinator in coordinators.iter_mut() {
        let action = coordinator.handle(LifecycleEvent::ClearSignalSet, &mut toaster);
        assert_eq!(action, LifecycleAction::StartExitWait);
    }
    for coordinator in coordinators.iter_mut() {
        let action = coordinator.handle(LifecycleEvent::ExitElapsed, &mut toaster);
        assert_eq!(action, LifecycleAction::RemovedToast);
    }
    assert_eq!(toaster.visible(), 0);
    assert_eq!(toaster.queue().len(), 0);
}

#[test]
fn toast_without_expiry_stays_until_cleared() {
    let mut toaster = ToasterContext::default();
    let id = toaster.toast(ToastBuilder::new("pinned").with_expiry(None));
    let coordinator = LifecycleCoordinator::new(id);
    // no expiry timer ever fires; nothing else touches the toast
    assert_eq!(coordinator.state, LifecycleState::Visible);
    assert_eq!(toaster.clear_signal(id), Some(false));
    assert_eq!(toaster.visible(), 1);
}
