//! Orchestration of a sparse direct solve against an external LU engine:
//! input validation, the engine session protocol with its resource
//! bookkeeping, and complex-to-interleaved marshaling.
pub mod error;
pub mod marshal;
pub mod session;
pub mod validate;

pub use error::{BufferCause, Field, SolveError};
pub use marshal::{marshal, unmarshal};
pub use session::{Action, Event, Phase, Session};
pub use validate::{validate, Shape};
