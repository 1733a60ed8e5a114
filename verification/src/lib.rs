//! Results that remember the path along which a failure was returned.

pub mod demo;
pub mod errors;
pub mod laws;
pub mod location;
pub mod result;
pub mod return_trace;

pub use crate::errors::{BarError, FileNotFound, PermissionDenied};
pub use crate::location::Location;
pub use crate::result::{Residual, Trace, Traced};
pub use crate::return_trace::ReturnTrace;
