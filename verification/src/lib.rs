//! Console log formatting for a single application module.
//!
//! The crate decides how a log record is shown: which records pass the level
//! filters, which of the two standard streams receives a record, and how the
//! line is laid out (level label, optional timestamp and source location,
//! optional context prefix, optional ANSI colouring).  Every decision is a
//! function from plain values to plain values and carries a contract.

pub mod color;
pub mod config;
pub mod context;
pub mod dispatch;
pub mod format;
pub mod level;
pub mod location;
pub mod names;
pub mod text;

pub use crate::color::{get_level_color, Color};
pub use crate::config::LoggingConfig;
pub use crate::context::{ContextSlot, GlobalContext};
pub use crate::dispatch::{DispatchPlan, Sink};
pub use crate::format::{timestamp, Formatter, Record};
pub use crate::level::{Level, LevelFilter};
pub use crate::names::LevelNames;
