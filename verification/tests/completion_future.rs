use vulkan_tasks::tasks::{CompletionFuture, FutureState, SignalStatus};

#[test]
fn future_starts_pending() {
    let f = CompletionFuture::new(77);
    assert_eq!(f.fence(), 77);
    assert!(!f.is_resolved());
}

#[test]
fn unsignaled_polls_never_resolve() {
    // Polling repeatedly while the signal is unset keeps the future Pending:
    // it never becomes Ready without the signal actually set.
    let mut f = CompletionFuture::new(1);
    for _ in 0..10 {
        assert_eq!(f.poll(SignalStatus::Unsignaled), FutureState::Pending);
        assert!(!f.is_resolved());
    }
}

#[test]
fn signaled_poll_resolves_to_ready() {
    let mut f = CompletionFuture::new(2);
    assert_eq!(f.poll(SignalStatus::Unsignaled), FutureState::Pending);
    assert_eq!(f.poll(SignalStatus::Signaled), FutureState::Ready);
    // Once Ready the future is resolved: no further poll is required.
    assert!(f.is_resolved());
    assert!(f.signal_released);
}

#[test]
fn faulted_check_resolves_to_failed() {
    let mut f = CompletionFuture::new(3);
    assert_eq!(f.poll(SignalStatus::Fault(-4)), FutureState::Failed(-4));
    assert!(f.is_resolved());
    // The signal resource is released on the fault path too.
    assert!(f.signal_released);
}

#[test]
fn fence_binding_is_stable_across_polls() {
    let mut f = CompletionFuture::new(99);
    f.poll(SignalStatus::Unsignaled);
    f.poll(SignalStatus::Unsignaled);
    assert_eq!(f.fence(), 99);
}
