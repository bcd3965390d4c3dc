//! The names that most users of the library need.

pub use crate::arith::{Operator, Outcome};
pub use crate::links::Links;
pub use crate::number::Number;
pub use crate::props::Props;
pub use crate::registry::{EntityNotFoundError, Registry};
pub use crate::value::Value;
pub use estr::Estr;
