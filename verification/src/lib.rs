//! A bridge layer for native code running as an extension inside a host
//! interpreter that communicates through an opaque callback table.
//!
//! The host's side of the boundary is modelled explicitly: [`host::HostState`]
//! describes the observable state of the host call mechanism (its ternary
//! exit status, its heap of opaque values, its table of rooted references and
//! of declared error symbols), and every operation of the callback table is a
//! verified transition on that state.  On top of it sit the environment
//! handle with its rooted-value registry ([`env`]), the closed error taxonomy
//! with the three boundary translators ([`error`]), the process-wide
//! collector-fix latch ([`latch`]) and the deferred error-hierarchy
//! registrar ([`registrar`]); [`sample`] is a small extension built on the
//! bridge, exercising it end to end.

pub mod env;
pub mod error;
pub mod host;
pub mod latch;
pub mod registrar;
pub mod sample;

pub use env::{Env, GlobalRef, Value};
pub use error::{CoreSymbols, ErrorKind, PanicPayload, ResultExt, TempValue};
pub use host::{ExitStatus, HostState};
pub use latch::BugFixLatch;
pub use registrar::{ErrorDef, Registrar};
