//! The toast data model: identifier, level, screen position, and the record
//! itself with its one piece of mutable lifecycle state, the clear flag.

use vstd::prelude::*;

verus! {

/// Identifier of a toast: allocated by the registry from its all-time
/// counter, unique within the registry's lifetime and never reused.
pub type ToastId = u64;

/// Severity of a toast. Purely presentational.
#[derive(Clone, Copy, PartialEq, Eq, Structural, Debug)]
pub enum ToastLevel {
    Info,
    Success,
    Warn,
    Error,
}

/// Screen corner a toast is queued under. Determines queue membership and
/// stacking direction.
#[derive(Clone, Copy, PartialEq, Eq, Structural, Debug)]
pub enum ToastPosition {
    TopLeft,
    TopRight,
    BottomRight,
    BottomLeft,
}

/// One notification record. Immutable after construction, except the clear
/// flag, which the registry flips false -> true exactly once to start the
/// exit transition.
#[derive(Debug)]
pub struct ToastData {
    pub id: ToastId,
    pub message: String,
    pub level: ToastLevel,
    pub dismissable: bool,
    pub expiry: Option<u32>,
    pub progress: bool,
    pub position: ToastPosition,
    pub clear_signal: bool,
}

/// The mathematical value of a `ToastData`.
#[verifier::ext_equal]
pub ghost struct ToastView {
    pub id: ToastId,
    pub message: Seq<char>,
    pub level: ToastLevel,
    pub dismissable: bool,
    pub expiry: Option<u32>,
    pub progress: bool,
    pub position: ToastPosition,
    pub clear_signal: bool,
}

impl View for ToastData {
    type V = ToastView;

    open spec fn view(&self) -> ToastView {
        ToastView {
            id: self.id,
            message: self.message@,
            level: self.level,
            dismissable: self.dismissable,
            expiry: self.expiry,
            progress: self.progress,
            position: self.position,
            clear_signal: self.clear_signal,
        }
    }
}

impl Clone for ToastData {
    fn clone(&self) -> (r: Self)
        ensures
            r@ == self@,
    {
        ToastData {
            id: self.id,
            message: self.message.clone(),
            level: self.level,
            dismissable: self.dismissable,
            expiry: self.expiry,
            progress: self.progress,
            position: self.position,
            clear_signal: self.clear_signal,
        }
    }
}

} // verus!
