//! A driver for the reverse-communication protocol of an implicitly restarted
//! Arnoldi/Lanczos eigensolver: problem validation, workspace sizing, decoding
//! of the solver's requests into bounds-checked operator windows, status
//! classification and the extraction bookkeeping.
pub mod error;
pub mod which;
pub mod problem;
pub mod workspace;
pub mod protocol;
pub mod driver;

pub use crate::error::{classify_extraction, classify_status, Error, Status};
pub use crate::which::Which;
pub use crate::problem::{dense_problem, Problem};
pub use crate::workspace::{Domain, Extraction, Workspace};
pub use crate::protocol::{decode, Request};
pub use crate::driver::{Action, Driver, Phase};
