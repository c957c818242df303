//! A transient-notification ("toast") engine: a builder for toast records,
//! a registry that allocates identifiers and keeps the flat insertion-ordered
//! queue of active toasts, the per-toast lifecycle state machine that drives
//! expiry, exit animation and eviction, and the pure positional projection a
//! renderer partitions the queue with.

pub mod lifecycle;
pub mod toast;
pub mod toaster;

pub use crate::toast::builder::ToastBuilder;
pub use crate::toast::data::{ToastData, ToastId, ToastLevel, ToastPosition, ToastView};
pub use crate::toaster::context::ToasterContext;
pub use crate::toaster::{expect_toaster, provide_toaster};
