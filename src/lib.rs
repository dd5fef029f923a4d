//! A tracing aid: log lines that record "execution reached here", a literal
//! value, or an expression with its value, each preceded by a context header
//! unless the previous line came from the same file and function a short
//! while ago.

pub mod clock;
pub mod fmt;
pub mod laws;
pub mod location;
pub mod logger;
pub mod sink;

pub use clock::{Span, Timestamp};
pub use fmt::Formatter;
pub use location::LogLocation;
pub use logger::{LogError, Logger};
pub use sink::{Output, OutputSink, Sink, SinkError};
