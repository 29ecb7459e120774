//! Incremental builders for Python lists and tuples of a fixed capacity, and
//! a short string that lives on the stack.

use vstd::prelude::*;

pub mod error;
pub mod foreign;
pub mod list_builder;
pub mod slots;
pub mod stack_string;
pub mod storage;
pub mod tuple_builder;

pub use error::BuildError;
pub use list_builder::PyListBuilder;
pub use stack_string::StackString;
pub use tuple_builder::{list_as_tuple, PyTupleBuilder};
