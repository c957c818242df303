//! The toast record: its data model, its builder, and the presentation
//! queries a renderer derives from a single record (animation names, theme
//! colors, initial offsets, cursor).

pub mod builder;
pub mod data;

use vstd::prelude::*;

use crate::toast::data::{ToastLevel, ToastPosition};

verus! {

/// Name of the slide-in animation for a corner: toasts enter from the
/// screen edge their corner touches.
pub open spec fn spec_slide_in_animation_name(position: ToastPosition) -> Seq<char> {
    match position {
        ToastPosition::TopLeft => "leptoaster-slide-in-left"@,
        ToastPosition::BottomLeft => "leptoaster-slide-in-left"@,
        ToastPosition::TopRight => "leptoaster-slide-in-right"@,
        ToastPosition::BottomRight => "leptoaster-slide-in-right"@,
    }
}

/// Picks the slide-in animation of a toast from its position.
pub fn get_slide_in_animation_name(position: &ToastPosition) -> (r: &'static str)
    ensures
        r@ == spec_slide_in_animation_name(*position),
{
    match position {
        ToastPosition::TopLeft | ToastPosition::BottomLeft => "leptoaster-slide-in-left",
        ToastPosition::TopRight | ToastPosition::BottomRight => "leptoaster-slide-in-right",
    }
}

/// Name of the slide-out animation for a corner: toasts leave through the
/// same edge they entered from.
pub open spec fn spec_slide_out_animation_name(position: ToastPosition) -> Seq<char> {
    match position {
        ToastPosition::TopLeft => "leptoaster-slide-out-left"@,
        ToastPosition::BottomLeft => "leptoaster-slide-out-left"@,
        ToastPosition::TopRight => "leptoaster-slide-out-right"@,
        ToastPosition::BottomRight => "leptoaster-slide-out-right"@,
    }
}

/// Picks the slide-out animation of a toast from its position.
pub fn get_slide_out_animation_name(position: &ToastPosition) -> (r: &'static str)
    ensures
        r@ == spec_slide_out_animation_name(*position),
{
    match position {
        ToastPosition::TopLeft | ToastPosition::BottomLeft => "leptoaster-slide-out-left",
        ToastPosition::TopRight | ToastPosition::BottomRight => "leptoaster-slide-out-right",
    }
}

/// Theme variables of a level: background, border, and text color, in that
/// order.
pub open spec fn spec_colors(level: ToastLevel) -> (Seq<char>, Seq<char>, Seq<char>) {
    match level {
        ToastLevel::Info => (
            "var(--leptoaster-info-background-color)"@,
            "var(--leptoaster-info-border-color)"@,
            "var(--leptoaster-info-text-color)"@,
        ),
        ToastLevel::Success => (
            "var(--leptoaster-success-background-color)"@,
            "var(--leptoaster-success-border-color)"@,
            "var(--leptoaster-success-text-color)"@,
        ),
        ToastLevel::Warn => (
            "var(--leptoaster-warn-background-color)"@,
            "var(--leptoaster-warn-border-color)"@,
            "var(--leptoaster-warn-text-color)"@,
        ),
        ToastLevel::Error => (
            "var(--leptoaster-error-background-color)"@,
            "var(--leptoaster-error-border-color)"@,
            "var(--leptoaster-error-text-color)"@,
        ),
    }
}

/// Picks the background, border, and text color variables of a toast from
/// its level.
pub fn get_colors(level: &ToastLevel) -> (r: (&'static str, &'static str, &'static str))
    ensures
        (r.0@, r.1@, r.2@) == spec_colors(*level),
{
    match level {
        ToastLevel::Info => (
            "var(--leptoaster-info-background-color)",
            "var(--leptoaster-info-border-color)",
            "var(--leptoaster-info-text-color)",
        ),
        ToastLevel::Success => (
            "var(--leptoaster-success-background-color)",
            "var(--leptoaster-success-border-color)",
            "var(--leptoaster-success-text-color)",
        ),
        ToastLevel::Warn => (
            "var(--leptoaster-warn-background-color)",
            "var(--leptoaster-warn-border-color)",
            "var(--leptoaster-warn-text-color)",
        ),
        ToastLevel::Error => (
            "var(--leptoaster-error-background-color)",
            "var(--leptoaster-error-border-color)",
            "var(--leptoaster-error-text-color)",
        ),
    }
}

/// Initial `left` and `right` offsets of a toast, placing it just outside
/// the screen edge it slides in from.
pub open spec fn spec_initial_positions(position: ToastPosition) -> (Seq<char>, Seq<char>) {
    match position {
        ToastPosition::TopLeft => ("calc((var(--leptoaster-width) + 12px * 2) * -1)"@, "auto"@),
        ToastPosition::BottomLeft => ("calc((var(--leptoaster-width) + 12px * 2) * -1)"@, "auto"@),
        ToastPosition::TopRight => ("auto"@, "calc((var(--leptoaster-width) + 12px * 2) * -1)"@),
        ToastPosition::BottomRight => ("auto"@, "calc((var(--leptoaster-width) + 12px * 2) * -1)"@),
    }
}

/// Picks the initial `left` and `right` offsets of a toast from its
/// position.
pub fn get_initial_positions(position: &ToastPosition) -> (r: (&'static str, &'static str))
    ensures
        (r.0@, r.1@) == spec_initial_positions(*position),
{
    match position {
        ToastPosition::TopLeft | ToastPosition::BottomLeft => (
            "calc((var(--leptoaster-width) + 12px * 2) * -1)",
            "auto",
        ),
        ToastPosition::TopRight | ToastPosition::BottomRight => (
            "auto",
            "calc((var(--leptoaster-width) + 12px * 2) * -1)",
        ),
    }
}

/// Whether a toast shows its countdown indicator: only when both the
/// progress flag and a finite expiry are set. A progress flag without an
/// expiry means no indicator, not an error — there is no countdown to
/// show.
pub fn shows_progress(expiry: &Option<u32>, progress: bool) -> (r: bool)
    ensures
        r == (expiry is Some && progress),
{
    expiry.is_some() && progress
}

/// Cursor over a toast: a pointer invites the click a dismissable toast
/// reacts to.
pub open spec fn spec_cursor(dismissable: bool) -> Seq<char> {
    if dismissable {
        "pointer"@
    } else {
        "default"@
    }
}

/// Picks the cursor shown over a toast from its dismissable flag.
pub fn get_cursor(dismissable: bool) -> (r: &'static str)
    ensures
        r@ == spec_cursor(dismissable),
{
    match dismissable {
        true => "pointer",
        false => "default",
    }
}

} // verus!
