//! Coordination core of a storage-farming node.
//!
//! The crate holds the decisions of two subsystems and proves them:
//!
//! * the multi-plot farm orchestrator: how an allocation is split into plots,
//!   how the plots' construction is bounded and supervised, and when waiting
//!   on the running farms ends;
//! * the sync trigger: when the node is considered stalled or freshly online,
//!   and how a burst of such signals turns into one bulk import with the
//!   node's sync mode paused around it.
//!
//! Waiting, timers and the collaborators themselves (plot engine, chain
//! client, networks) stay with the caller: it performs what these functions
//! decide and reports back what happened.

pub mod first_listen_on;
pub mod legacy_multi_plots_farm;
pub mod plot_sizes;
pub mod single_disk_semaphore;
pub mod supervision;
pub mod sync_from_dsn;
