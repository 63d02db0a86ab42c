//! Safety layer mediating access to a Trusted Platform Module through a
//! stateful handle-based interface.
//!
//! The library owns the two invariants that any client of such a module
//! must not break: every native resource handle created through a context
//! is tracked and released exactly according to its disposition, even
//! under partial failure at teardown (`handle_manager`, `context`); and
//! every secret-bearing wire structure is scrubbed byte by byte before its
//! memory is released, with tagged unions dispatched on their pristine
//! discriminant (`data_zeroize`).
//!
//! The native calls themselves — transport setup, the module commands,
//! releasing the channel — are performed by the embedding program, which
//! hands each outcome to the verified decision logic here: session slots
//! are resolved to raw arguments (`session`), capability responses fill
//! the property cache (`capability`), and non-zero status codes become
//! structured errors (`errors`).

use vstd::prelude::*;

pub mod capability;
pub mod context;
pub mod data_zeroize;
pub mod errors;
pub mod handle_manager;
pub mod session;

verus! {

pub use crate::context::Context;
pub use crate::errors::Error;
pub use crate::errors::WrapperErrorKind;
pub use crate::handle_manager::HandleDisposition;
pub use crate::handle_manager::HandleManager;
pub use crate::session::AuthSession;

} // verus!
