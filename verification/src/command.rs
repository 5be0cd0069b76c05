//! The four operations, and what each does to a mode.

use std::path::PathBuf;
use vstd::prelude::*;
use crate::permissions::{
    snapshot_of, ClassFlags, Snapshot, OPEN, OWNER_ONLY, OWNER_WRITE_GROUP_OTHER_READ,
};

verus! {

/// `std::path::PathBuf`, carried through as an opaque value.
#[verifier::external_type_specification]
#[verifier::external_body]
pub struct ExPathBuf(PathBuf);

/// One invocation: the operation and the path it applies to.
#[derive(Debug)]
pub enum Commands {
    /// Only the owner can read, write and execute.
    Safe { file: PathBuf },
    /// Everyone can read; only the owner can write and execute.
    Show { file: PathBuf },
    /// Completely wide open.
    All { file: PathBuf },
    /// Report the permissions and change nothing.
    Info { file: PathBuf },
}

/// What remains to be done on the file system for an invocation.
#[derive(Clone, Copy, Debug, PartialEq, Eq, Structural)]
pub enum Action {
    /// Overwrite the permission bits with this pattern.
    SetMode(u32),
    /// Read the permission bits and print their report.
    Report,
}

impl Commands {
    /// The path the invocation carries.
    pub open spec fn path(self) -> PathBuf {
        match self {
            Commands::Safe { file } => file,
            Commands::Show { file } => file,
            Commands::All { file } => file,
            Commands::Info { file } => file,
        }
    }

    /// The pattern a mutation writes; `None` for the report.
    pub open spec fn pattern(self) -> Option<u32> {
        match self {
            Commands::Safe { .. } => Some(OWNER_ONLY),
            Commands::Show { .. } => Some(OWNER_WRITE_GROUP_OTHER_READ),
            Commands::All { .. } => Some(OPEN),
            Commands::Info { .. } => None,
        }
    }

    /// The mode of the path once the invocation has succeeded, given the mode
    /// it had before: a mutation overwrites, the report leaves it alone.
    pub open spec fn spec_mode_after(self, before: u32) -> u32 {
        match self.pattern() {
            Some(pattern) => pattern,
            None => before,
        }
    }

    pub fn file(&self) -> (path: &PathBuf)
        ensures
            *path == self.path(),
    {
        match self {
            Commands::Safe { file } => file,
            Commands::Show { file } => file,
            Commands::All { file } => file,
            Commands::Info { file } => file,
        }
    }

    /// The pattern to write, by a lookup on the operation alone.
    pub fn target_mode(&self) -> (target: Option<u32>)
        ensures
            target == self.pattern(),
    {
        match self {
            Commands::Safe { .. } => Some(OWNER_ONLY),
            Commands::Show { .. } => Some(OWNER_WRITE_GROUP_OTHER_READ),
            Commands::All { .. } => Some(OPEN),
            Commands::Info { .. } => None,
        }
    }

    /// What the caller has to do once the path's metadata has been read.
    pub fn action(&self) -> (action: Action)
        ensures
            action == match self.pattern() {
                Some(pattern) => Action::SetMode(pattern),
                None => Action::Report,
            },
    {
        match self.target_mode() {
            Some(pattern) => Action::SetMode(pattern),
            None => Action::Report,
        }
    }

    /// The mode the path has after the invocation, from the mode it had.
    pub fn mode_after(&self, before: u32) -> (after: u32)
        ensures
            after == self.spec_mode_after(before),
    {
        match self.target_mode() {
            Some(pattern) => pattern,
            None => before,
        }
    }
}

/// After the owner-only operation the owner may do everything and nobody
/// else anything, whatever the mode was before.
pub proof fn lemma_safe_grants_owner_only(cmd: Commands, before: u32)
    requires
        cmd is Safe,
    ensures
        snapshot_of(cmd.spec_mode_after(before)) == (Snapshot {
            owner: ClassFlags::all(),
            group: ClassFlags::none(),
            other: ClassFlags::none(),
        }),
{
    crate::permissions::lemma_owner_only_snapshot();
}

/// After the open operation every class may do everything, whatever the mode
/// was before.
pub proof fn lemma_all_grants_everything(cmd: Commands, before: u32)
    requires
        cmd is All,
    ensures
        snapshot_of(cmd.spec_mode_after(before)) == (Snapshot {
            owner: ClassFlags::all(),
            group: ClassFlags::all(),
            other: ClassFlags::all(),
        }),
{
    crate::permissions::lemma_open_snapshot();
}

/// After the world-readable operation the owner may do everything, and group
/// and other may read and nothing more, whatever the mode was before.
pub proof fn lemma_show_grants_owner_all_others_read(cmd: Commands, before: u32)
    requires
        cmd is Show,
    ensures
        snapshot_of(cmd.spec_mode_after(before)) == (Snapshot {
            owner: ClassFlags::all(),
            group: ClassFlags::read_only(),
            other: ClassFlags::read_only(),
        }),
{
    crate::permissions::lemma_group_other_read_snapshot();
}

/// The report leaves the mode as it was, and so the grid too.
pub proof fn lemma_info_keeps_mode(cmd: Commands, before: u32)
    requires
        cmd is Info,
    ensures
        cmd.spec_mode_after(before) == before,
        snapshot_of(cmd.spec_mode_after(before)) == snapshot_of(before),
{
}

/// Running the same operation a second time changes nothing more.
pub proof fn lemma_mode_after_idempotent(cmd: Commands, before: u32)
    ensures
        cmd.spec_mode_after(cmd.spec_mode_after(before)) == cmd.spec_mode_after(before),
{
}

/// A mutation overwrites: nothing of the old mode survives, so the
/// set-user-id, set-group-id and sticky bits are cleared.
pub proof fn lemma_mutation_overwrites(cmd: Commands, before: u32, other: u32)
    requires
        !(cmd is Info),
    ensures
        cmd.spec_mode_after(before) == cmd.spec_mode_after(other),
        cmd.spec_mode_after(before) & !0o777u32 == 0,
{
    crate::permissions::lemma_patterns_hold_permission_bits_only();
}

} // verus!
