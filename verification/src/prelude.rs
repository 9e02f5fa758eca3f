//! The items that most users of the library need.

pub use crate::context::{AddContext, AddContextIter};
pub use crate::error::{Error, ErrorBuilder};
pub use crate::extract::{count_errors, count_frames, Frame};
pub use crate::kind::ErrorKind;
pub use crate::status::ErrorStatus;
