//! Drives a container engine through its command line: the decisions around
//! each engine command, the idempotent copy out of a container, and the
//! progress spinner's schedule, all as verified functions on plain values.
//! Spawning processes, walking the disk and rendering stay with the caller.

mod text;

pub mod docker;
pub mod engine;
pub mod spinner;
pub mod transfer;

pub use docker::{
    commit_container, commit_container_invocation, copy_into_container,
    copy_into_container_invocation, copy_into_container_write_error, create_container,
    create_container_invocation, delete_container, delete_container_invocation, delete_image,
    delete_image_invocation, image_exists, image_exists_invocation, pull_image,
    pull_image_invocation, push_image, push_image_invocation, random_tag, spawn_shell,
    spawn_shell_invocation, start_container, start_container_invocation, stop_container,
    stop_container_invocation,
};
pub use engine::{run_attach, run_quiet, Invocation, Outcome, INTERRUPT_MESSAGE};
pub use spinner::{tick_interval_ms, SpinnerWorker};
pub use transfer::{
    copy_from_container, copy_out_invocation, join, plan_transfer, relocation, FsAction, Staged,
    StagedEntry, TransferPlan,
};
