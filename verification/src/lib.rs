//! The managed side of a locked `localtime`.
//!
//! A native calendar engine asks for the time zone variable through a callback
//! instead of reading the process environment itself, so that the lookup can be
//! made under the lock that guards every change of the environment. This crate
//! holds what that callback and the conversions decide: how the looked-up value
//! is laid out for the native side and when its buffer is freed ([`carrier`]),
//! and how the engine's answer becomes a typed result ([`calendar`]).

pub mod calendar;
pub mod carrier;

pub use calendar::{localtime, CalendarTime, ConversionError};
pub use carrier::COsString;
