//! Visitor-based decoding core: the visitor, sequence and mapping cursor
//! interfaces, and the discard visitor that accepts and drops a value of
//! any shape and depth.

pub mod de;
pub mod ignore;
pub mod value;

pub use de::{MapAccess, SeqAccess, Visitor, VisitorError};
pub use ignore::{ignore, Ignore};
pub use value::{skip, visit, Value};
