//! Startup orchestration core for a desktop launcher.
//!
//! The crate models and verifies the three pieces of launch-time logic that
//! decide *what* happens, leaving the surrounding I/O to the host program:
//!
//! - [`migration`]: the one-shot legacy-directory migration guard and the
//!   effect of the migration action on the observed filesystem state;
//! - [`retry`]: the fixed-interval retry-until-success connection loop used
//!   for the optional peer-presence client;
//! - [`tasks`]: the registry of startup tasks, the conditions under which
//!   each is scheduled, and the orchestrator that turns every completed task
//!   into exactly one typed completion event;
//! - [`launcher`]: the launcher-level state assembled at startup from the
//!   outcomes of directory resolution and configuration loading.

pub mod launcher;
pub mod migration;
pub mod retry;
pub mod tasks;
