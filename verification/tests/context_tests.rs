use leptoaster::toast::{
    get_colors, get_cursor, get_initial_positions, get_slide_in_animation_name,
    get_slide_out_animation_name,
};
use leptoaster::{
    expect_toaster, provide_toaster, ToastBuilder, ToastLevel, ToastPosition, ToasterContext,
};

#[test]
fn provide_installs_once_and_keeps_the_first() {
    let mut slot: Option<ToasterContext> = None;
    provide_toaster(&mut slot);
    assert!(slot.is_some());
    assert_eq!(slot.as_ref().unwrap().visible(), 0);
    assert_eq!(slot.as_ref().unwrap().total(), 0);

    // mutate the installed registry, then attempt a second installation:
    // the first instance survives
    let id = slot.as_mut().unwrap().toast(ToastBuilder::new("kept"));
    provide_toaster(&mut slot);
    let toaster = expect_toaster(&slot);
    assert_eq!(toaster.visible(), 1);
    assert_eq!(toaster.queue()[0].id, id);
    assert_eq!(toaster.queue()[0].message, "kept");
}

#[test]
fn expect_returns_the_installed_registry() {
    let mut slot: Option<ToasterContext> = None;
    provide_toaster(&mut slot);
    slot.as_mut().unwrap().info("here");
    let toaster = expect_toaster(&slot);
    assert_eq!(toaster.queue()[0].level, ToastLevel::Info);
}

#[test]
fn slide_animations_follow_the_side() {
    assert_eq!(
        get_slide_in_animation_name(&ToastPosition::TopLeft),
        "leptoaster-slide-in-left"
    );
    assert_eq!(
        get_slide_in_animation_name(&ToastPosition::BottomLeft),
        "leptoaster-slide-in-left"
    );
    assert_eq!(
        get_slide_in_animation_name(&ToastPosition::TopRight),
        "leptoaster-slide-in-right"
    );
    assert_eq!(
        get_slide_in_animation_name(&ToastPosition::BottomRight),
        "leptoaster-slide-in-right"
    );
    assert_eq!(
        get_slide_out_animation_name(&ToastPosition::TopLeft),
        "leptoaster-slide-out-left"
    );
    assert_eq!(
        get_slide_out_animation_name(&ToastPosition::BottomRight),
        "leptoaster-slide-out-right"
    );
}

#[test]
fn colors_follow_the_level() {
    assert_eq!(
        get_colors(&ToastLevel::Info),
        (
            "var(--leptoaster-info-background-color)",
            "var(--leptoaster-info-border-color)",
            "var(--leptoaster-info-text-color)",
        )
    );
    assert_eq!(
        get_colors(&ToastLevel::Success),
        (
            "var(--leptoaster-success-background-color)",
            "var(--leptoaster-success-border-color)",
            "var(--leptoaster-success-text-color)",
        )
    );
    assert_eq!(
        get_colors(&ToastLevel::Warn),
        (
            "var(--leptoaster-warn-background-color)",
            "var(--leptoaster-warn-border-color)",
            "var(--leptoaster-warn-text-color)",
        )
    );
    assert_eq!(
        get_colors(&ToastLevel::Error),
        (
            "var(--leptoaster-error-background-color)",
            "var(--leptoaster-error-border-color)",
            "var(--leptoaster-error-text-color)",
        )
    );
}

#[test]
fn initial_positions_start_off_screen() {
    let off = "calc((var(--leptoaster-width) + 12px * 2) * -1)";
    assert_eq!(get_initial_positions(&ToastPosition::TopLeft), (off, "auto"));
    assert_eq!(get_initial_positions(&ToastPosition::BottomLeft), (off, "auto"));
    assert_eq!(get_initial_positions(&ToastPosition::TopRight), ("auto", off));
    assert_eq!(get_initial_positions(&ToastPosition::BottomRight), ("auto", off));
}

#[test]
fn cursor_invites_clicks_only_when_dismissable() {
    assert_eq!(get_cursor(true), "pointer");
    assert_eq!(get_cursor(false), "default");
}
