//! Structured error values: an actionable kind, explicit retry semantics, a
//! message and key/value context, with cheap context storage and
//! stack-safe queries over trees of chained errors.

use vstd::prelude::*;

pub mod arena;
pub mod context;
pub mod convert;
pub mod db;
pub mod error;
pub mod extract;
pub mod http;
pub mod kind;
pub mod prelude;
pub mod render;
pub mod status;
pub mod storage;
pub mod text;

pub use crate::arena::{commit_to_arena, ContextArena, ContextHandle, ContextVec};
pub use crate::context::{AddContext, AddContextIter};
pub use crate::error::{Error, ErrorBuilder};
pub use crate::extract::{
    count_errors, count_frames, has_permanent, has_retryable, is_all_retryable, within_limit,
    Frame,
};
pub use crate::kind::ErrorKind;
pub use crate::status::ErrorStatus;

verus! {

/// A success, typed as a result whose failure is a tree of errors.
pub fn ok<T>(value: T) -> (res: Result<T, Frame>)
    ensures
        res == Ok::<T, Frame>(value),
{
    Ok(value)
}

} // verus!
