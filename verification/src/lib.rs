//! A verified model of the protocol binding and call-marshalling layer that
//! sits between safe callers and a firmware's published interface tables.
//!
//! A firmware publishes its services as tables in its own memory, found by
//! a 128-bit identifier and called through entry points that report their
//! outcome as a status word and their results through output parameters.
//! This crate states, and proves, what a binding to such a table owes its
//! callers:
//!
//! - `status`: a status word becomes a `Result`, and an output is produced
//!   only when the status reports success;
//! - `layout`: tables and records are laid out field by field, reserved
//!   slots included;
//! - `memory`, `list`, `file_list`: firmware-owned records are read at their
//!   offsets, and firmware-owned lists are walked link by link without
//!   owning, changing or revisiting a node;
//! - `boot`: handles are found by identifier, and a protocol is opened on a
//!   handle or reported as not found;
//! - `shell_firmware`, `shell`, `shell_params`: the shell protocols, bound
//!   over any firmware that answers calls as a state machine;
//! - `ram_shell`: such a firmware, kept in memory, which enforces open modes
//!   and gives back what was written;
//! - `protocol_checks`: self-checks of protocol resolution.

pub mod boot;
pub mod file_list;
pub mod guid;
pub mod handle;
pub mod layout;
pub mod list;
pub mod memory;
pub mod protocol_checks;
pub mod ram_shell;
pub mod shell;
pub mod shell_file;
pub mod shell_firmware;
pub mod shell_params;
pub mod slot;
pub mod status;
pub mod text;
