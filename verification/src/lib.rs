//! Lifecycle hook execution subsystem.
//!
//! Given a named lifecycle event (before a version install, after a
//! successful install, after a failed install), this library locates an
//! optional user-provided executable under `<root>/hooks/<name>`, decides
//! whether it is runnable on the current platform, assembles the
//! environment describing the operation, and classifies the outcome of
//! running it — distinguishing "hook absent" (benign success) from
//! "hook present but failed" (a typed error).
//!
//! All decisions are made here over plain values and carry proved
//! contracts.  The filesystem probe and the process spawn themselves are
//! performed by the (unverified) embedding, which reports what it
//! observed back into the verified decision functions.

pub mod hooks;
pub mod invoker;
pub mod platform;
