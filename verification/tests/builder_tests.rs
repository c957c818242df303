use leptoaster::toast::shows_progress;
use leptoaster::{ToastBuilder, ToastLevel, ToastPosition};

#[test]
fn default_construction() {
    let toast = ToastBuilder::new("hi").build(1);
    assert_eq!(toast.id, 1);
    assert_eq!(toast.message, "hi");
    assert_eq!(toast.level, ToastLevel::Info);
    assert!(toast.dismissable);
    assert_eq!(toast.expiry, Some(2_500));
    assert!(toast.progress);
    assert_eq!(toast.position, ToastPosition::BottomLeft);
    assert!(!toast.clear_signal);
}

#[test]
fn builder_setters_override_defaults() {
    let toast = ToastBuilder::new("styled")
        .with_level(ToastLevel::Warn)
        .with_dismissable(false)
        .with_expiry(Some(1_500))
        .with_progress(false)
        .with_position(ToastPosition::TopRight)
        .build(7);
    assert_eq!(toast.id, 7);
    assert_eq!(toast.message, "styled");
    assert_eq!(toast.level, ToastLevel::Warn);
    assert!(!toast.dismissable);
    assert_eq!(toast.expiry, Some(1_500));
    assert!(!toast.progress);
    assert_eq!(toast.position, ToastPosition::TopRight);
    assert!(!toast.clear_signal);
}

#[test]
fn builder_accepts_degenerate_parameters() {
    let zero = ToastBuilder::new("now").with_expiry(Some(0)).build(1);
    assert_eq!(zero.expiry, Some(0));

    let endless = ToastBuilder::new("stay")
        .with_expiry(None)
        .with_progress(true)
        .build(2);
    assert_eq!(endless.expiry, None);
    assert!(endless.progress);

    let empty = ToastBuilder::new("").build(3);
    assert_eq!(empty.message, "");
}

#[test]
fn build_allocates_independent_clear_flags() {
    let builder = ToastBuilder::new("one");
    let first = builder.build(1);
    let second = ToastBuilder::new("two").build(2);
    assert!(!first.clear_signal);
    assert!(!second.clear_signal);
}

#[test]
fn progress_indicator_needs_a_finite_expiry() {
    assert!(shows_progress(&Some(2_500), true));
    assert!(!shows_progress(&Some(2_500), false));
    assert!(!shows_progress(&None, true));
    assert!(!shows_progress(&None, false));
}
