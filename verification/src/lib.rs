//! Discovery of the compiler flags needed to build a native extension against
//! an installed PHP runtime on POSIX-like systems: where the runtime's header
//! files are, and which preprocessor defines match its configuration.
//!
//! The answers come from one of two sources, chosen by a
//! [`RuntimeDescription`]: the `php-config` executable, or a snapshot of
//! keys and values captured beforehand. A [`Provider`] bound to the
//! description answers both questions.
//!
//! The library itself reads no environment, touches no file and starts no
//! process. Where an answer depends on the host, a query returns a [`Step`]:
//! a [`Request`] for the caller to carry out, or the result. The caller
//! records each answer in its [`HostFacts`] and asks again.
//!
//! ```text
//! let mut facts = HostFacts::new();
//! loop {
//!     match provider.get_includes(&facts) {
//!         Step::Need(request) => facts.record(carry_out(request)),
//!         Step::Done(result) => break result,
//!     }
//! }
//! ```

pub mod error;
pub mod flags;
pub mod host;
pub mod provider;
pub mod snapshot;
pub mod text;

pub use error::BuildError;
pub use host::{Answer, HostFacts, ProcessOutput, Request, Step};
pub use provider::{Provider, RuntimeDescription};
pub use snapshot::Snapshot;
