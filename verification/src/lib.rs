//! Hidden-photos access control and database schema migration, verified with Verus.
//!
//! * [`session`]: the in-memory unlock flag of a session.
//! * [`primitives`]: SHA-256, base64 and the random source, behind trusted wrappers.
//! * [`pin`]: salted, iterated PIN hashing, PIN records, setting and verifying a PIN.
//! * [`os_auth`]: the outcome of an OS-level unlock attempt.
//! * [`migration`]: the schema migration table and the step machine that applies it.

pub mod session;
pub mod primitives;
pub mod pin;
pub mod os_auth;
pub mod text;
pub mod migration;
