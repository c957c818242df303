//! The toast builder: a fluent constructor that seeds validated defaults and
//! produces a `ToastData` once the registry has allocated an identifier.

use vstd::prelude::*;

use crate::toast::data::{ToastData, ToastId, ToastLevel, ToastPosition, ToastView};

verus! {

/// Default expiry of a toast, in milliseconds.
pub const DEFAULT_EXPIRY_MS: u32 = 2_500;

/// Builds a toast, allowing for the customization of toast message,
/// level, dismissability, expiry, progress indicator, and position.
///
/// The defaults are:
/// * `level`: `ToastLevel::Info`
/// * `dismissable`: `true`
/// * `expiry`: `2_500` milliseconds
/// * `progress`: `true`
/// * `position`: `ToastPosition::BottomLeft`
pub struct ToastBuilder {
    message: String,
    level: ToastLevel,
    dismissable: bool,
    expiry: Option<u32>,
    progress: bool,
    position: ToastPosition,
}

/// The mathematical value of a `ToastBuilder`: every parameter a built
/// record will carry, except the identifier, which the registry assigns.
pub ghost struct BuilderView {
    pub message: Seq<char>,
    pub level: ToastLevel,
    pub dismissable: bool,
    pub expiry: Option<u32>,
    pub progress: bool,
    pub position: ToastPosition,
}

impl View for ToastBuilder {
    type V = BuilderView;

    closed spec fn view(&self) -> BuilderView {
        BuilderView {
            message: self.message@,
            level: self.level,
            dismissable: self.dismissable,
            expiry: self.expiry,
            progress: self.progress,
            position: self.position,
        }
    }
}

/// The builder a plain `new(message)` yields: all parameters at their
/// defaults.
pub open spec fn default_builder(message: Seq<char>) -> BuilderView {
    BuilderView {
        message: message,
        level: ToastLevel::Info,
        dismissable: true,
        expiry: Some(DEFAULT_EXPIRY_MS),
        progress: true,
        position: ToastPosition::BottomLeft,
    }
}

/// The record `build` makes of a builder and an identifier: the builder's
/// parameters, the given identifier, and a fresh clear flag, still false.
pub open spec fn built_view(b: BuilderView, id: ToastId) -> ToastView {
    ToastView {
        id: id,
        message: b.message,
        level: b.level,
        dismissable: b.dismissable,
        expiry: b.expiry,
        progress: b.progress,
        position: b.position,
        clear_signal: false,
    }
}

impl ToastBuilder {
    /// Constructs a new toast builder with the supplied message and all
    /// other parameters at their defaults.
    #[must_use]
    pub fn new(message: &str) -> (r: Self)
        ensures
            r@ == default_builder(message@),
    {
        ToastBuilder {
            message: message.to_owned(),
            level: ToastLevel::Info,
            dismissable: true,
            expiry: Some(DEFAULT_EXPIRY_MS),
            progress: true,
            position: ToastPosition::BottomLeft,
        }
    }

    /// Sets the level of the toast.
    #[must_use]
    pub fn with_level(self, level: ToastLevel) -> (r: Self)
        ensures
            r@ == (BuilderView { level: level, ..self@ }),
    {
        ToastBuilder { level, ..self }
    }

    /// Sets the dismissable flag of the toast to allow or disallow the toast
    /// from being dismissed on click.
    #[must_use]
    pub fn with_dismissable(self, dismissable: bool) -> (r: Self)
        ensures
            r@ == (BuilderView { dismissable: dismissable, ..self@ }),
    {
        ToastBuilder { dismissable, ..self }
    }

    /// Sets the progress flag of the toast to show or hide the countdown
    /// indicator.
    #[must_use]
    pub fn with_progress(self, progress: bool) -> (r: Self)
        ensures
            r@ == (BuilderView { progress: progress, ..self@ }),
    {
        ToastBuilder { progress, ..self }
    }

    /// Sets the expiry time of the toast in milliseconds, or disables
    /// self-expiry on `None`.
    #[must_use]
    pub fn with_expiry(self, expiry: Option<u32>) -> (r: Self)
        ensures
            r@ == (BuilderView { expiry: expiry, ..self@ }),
    {
        ToastBuilder { expiry, ..self }
    }

    /// Sets the position of the toast.
    #[must_use]
    pub fn with_position(self, position: ToastPosition) -> (r: Self)
        ensures
            r@ == (BuilderView { position: position, ..self@ }),
    {
        ToastBuilder { position, ..self }
    }

    /// Builds the toast into a `ToastData` with the supplied identifier.
    /// This is the single point where a record's clear flag comes to be,
    /// so every record starts with its own flag, still false.
    #[must_use]
    pub fn build(self, id: ToastId) -> (r: ToastData)
        ensures
            r@ == built_view(self@, id),
    {
        ToastData {
            id,
            message: self.message,
            level: self.level,
            dismissable: self.dismissable,
            expiry: self.expiry,
            progress: self.progress,
            position: self.position,
            clear_signal: false,
        }
    }
}

} // verus!
