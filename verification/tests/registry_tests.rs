use leptoaster::{ToastBuilder, ToastLevel, ToasterContext};

#[test]
fn identifiers_strictly_increase() {
    let mut toaster = ToasterContext::default();
    let a = toaster.toast(ToastBuilder::new("a"));
    let b = toaster.toast(ToastBuilder::new("b"));
    toaster.remove(a);
    let c = toaster.toast(ToastBuilder::new("c"));
    assert_eq!(a, 1);
    assert_eq!(b, 2);
    assert_eq!(c, 3);
    assert!(a < b && b < c);
    assert_eq!(toaster.total(), 3);
}

#[test]
fn removed_identifier_is_never_reused() {
    let mut toaster = ToasterContext::default();
    let first = toaster.toast(ToastBuilder::new("gone"));
    toaster.remove(first);
    let second = toaster.toast(ToastBuilder::new("next"));
    assert_ne!(first, second);
    assert!(second > first);
}

#[test]
fn visible_counts_queued_toasts() {
    let mut toaster = ToasterContext::default();
    assert_eq!(toaster.visible(), 0);
    assert_eq!(toaster.queue().len(), 0);

    let a = toaster.toast(ToastBuilder::new("a"));
    let b = toaster.toast(ToastBuilder::new("b"));
    assert_eq!(toaster.visible(), 2);
    assert_eq!(toaster.queue().len(), 2);

    toaster.remove(a);
    assert_eq!(toaster.visible(), 1);
    assert_eq!(toaster.queue().len(), 1);

    toaster.remove(b);
    assert_eq!(toaster.visible(), 0);
    assert_eq!(toaster.queue().len(), 0);
}

#[test]
fn removal_is_idempotent() {
    let mut toaster = ToasterContext::default();
    let a = toaster.toast(ToastBuilder::new("a"));
    let b = toaster.toast(ToastBuilder::new("b"));

    toaster.remove(a);
    let after_once: Vec<u64> = toaster.queue().iter().map(|t| t.id).collect();
    let visible_once = toaster.visible();

    toaster.remove(a);
    let after_twice: Vec<u64> = toaster.queue().iter().map(|t| t.id).collect();
    assert_eq!(after_once, after_twice);
    assert_eq!(visible_once, toaster.visible());

    toaster.remove(999);
    assert_eq!(toaster.visible(), visible_once);
    assert_eq!(toaster.queue().len(), 1);
    assert_eq!(toaster.queue()[0].id, b);
}

#[test]
fn enqueue_appends_at_the_tail() {
    let mut toaster = ToasterContext::default();
    toaster.toast(ToastBuilder::new("first"));
    toaster.toast(ToastBuilder::new("second"));
    toaster.toast(ToastBuilder::new("third"));
    let messages: Vec<&str> = toaster.queue().iter().map(|t| t.message.as_str()).collect();
    assert_eq!(messages, vec!["first", "second", "third"]);
}

#[test]
fn convenience_wrappers_set_levels() {
    let mut toaster = ToasterContext::default();
    toaster.info("i");
    toaster.success("s");
    toaster.warn("w");
    toaster.error("e");
    let queue = toaster.queue();
    assert_eq!(queue.len(), 4);
    assert_eq!(queue[0].level, ToastLevel::Info);
    assert_eq!(queue[1].level, ToastLevel::Success);
    assert_eq!(queue[2].level, ToastLevel::Warn);
    assert_eq!(queue[3].level, ToastLevel::Error);
    assert_eq!(queue[0].message, "i");
    assert!(queue.iter().all(|t| t.dismissable));
    assert!(queue.iter().all(|t| t.expiry == Some(2_500)));
}

#[test]
fn clear_signal_is_write_once() {
    let mut toaster = ToasterContext::default();
    let id = toaster.toast(ToastBuilder::new("flag"));
    assert_eq!(toaster.clear_signal(id), Some(false));

    assert!(toaster.set_clear_signal(id));
    assert_eq!(toaster.clear_signal(id), Some(true));

    // setting again is a no-op and reports nothing newly set
    assert!(!toaster.set_clear_signal(id));
    assert_eq!(toaster.clear_signal(id), Some(true));

    // no later operation resets the flag
    toaster.toast(ToastBuilder::new("other"));
    toaster.clear();
    assert_eq!(toaster.clear_signal(id), Some(true));

    // an absent identifier has no flag to set
    assert!(!toaster.set_clear_signal(999));
    assert_eq!(toaster.clear_signal(999), None);
}

#[test]
fn bulk_clear_flags_every_toast_without_removing() {
    let mut toaster = ToasterContext::default();
    let a = toaster.toast(ToastBuilder::new("a").with_expiry(None));
    let b = toaster.toast(ToastBuilder::new("b").with_expiry(None));
    let c = toaster.toast(ToastBuilder::new("c").with_expiry(None));

    toaster.clear();

    assert_eq!(toaster.visible(), 3);
    assert_eq!(toaster.queue().len(), 3);
    for id in [a, b, c] {
        assert_eq!(toaster.clear_signal(id), Some(true));
    }
}

#[test]
fn dismiss_respects_the_dismissable_flag() {
    let mut toaster = ToasterContext::default();
    let open = toaster.toast(ToastBuilder::new("open").with_dismissable(true));
    let locked = toaster.toast(ToastBuilder::new("locked").with_dismissable(false));

    assert!(toaster.dismiss(open));
    assert_eq!(toaster.clear_signal(open), Some(true));

    assert!(!toaster.dismiss(locked));
    assert_eq!(toaster.clear_signal(locked), Some(false));

    assert!(!toaster.dismiss(999));
}
