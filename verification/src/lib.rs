//! A batch updater for a flat collection of sibling working copies.
//!
//! Given one root directory, every immediate child holding a `.git` entry
//! is an update task: three fixed `git` commands are issued in it, in
//! order, and their captured standard output is replayed after a header
//! naming the working copy. This crate holds the decisions of that tool —
//! which children are worked on, which subprocesses are issued, what text
//! is emitted, and when the run fails — each with a proved contract. The
//! shell around it enumerates directories, spawns the subprocesses and
//! workers, and writes the rendered pieces out.

mod config;
mod discovery;
mod errors;
mod update;

pub use config::Config;
pub use config::emitted_headers;
pub use config::lemma_run_idempotent;
pub use discovery::ChildEntry;
pub use discovery::lemma_discovery_idempotent;
pub use discovery::lemma_one_task_per_working_copy;
pub use discovery::lemma_task_membership;
pub use discovery::select_working_copies;
pub use discovery::working_copy_paths;
pub use discovery::git_child_count;
pub use errors::SyncError;
pub use errors::error_line;
pub use errors::invalid_path_message;
pub use update::Chunk;
pub use update::ChunkModel;
pub use update::Invocation;
pub use update::InvocationModel;
pub use update::actions;
pub use update::block_of;
pub use update::header_line;
pub use update::lemma_header_precedes_blocks;
pub use update::output_blocks;
pub use update::render_update;
pub use update::rendered_output;
pub use update::update_commands;
pub use update::update_plan;
