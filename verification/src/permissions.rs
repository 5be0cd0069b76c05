//! The nine permission bits of a mode, seen as a grid of user class by
//! capability.

use vstd::prelude::*;

verus! {

/// Owner may read, write and execute; group and other may do nothing.
pub const OWNER_ONLY: u32 = 0o700;

/// Owner may read, write and execute; group and other may only read.
pub const OWNER_WRITE_GROUP_OTHER_READ: u32 = 0o744;

/// Every class may read, write and execute.
pub const OPEN: u32 = 0o777;

/// One of the three scopes a permission applies to.
#[derive(Clone, Copy, Debug, PartialEq, Eq, Structural)]
pub enum UserClass {
    Owner,
    Group,
    Other,
}

/// One of the three kinds of access.
#[derive(Clone, Copy, Debug, PartialEq, Eq, Structural)]
pub enum Capability {
    Read,
    Write,
    Execute,
}

/// What one user class may do.
#[derive(Clone, Copy, Debug, PartialEq, Eq, Structural)]
pub struct ClassFlags {
    pub read: bool,
    pub write: bool,
    pub execute: bool,
}

/// The permission state of a path at one moment: one row of flags per class.
#[derive(Clone, Copy, Debug, PartialEq, Eq, Structural)]
pub struct Snapshot {
    pub owner: ClassFlags,
    pub group: ClassFlags,
    pub other: ClassFlags,
}

/// The single bit of a mode that grants `cap` to `class`.
pub open spec fn permission_bit(class: UserClass, cap: Capability) -> u32 {
    match (class, cap) {
        (UserClass::Owner, Capability::Read) => 0o400u32,
        (UserClass::Owner, Capability::Write) => 0o200u32,
        (UserClass::Owner, Capability::Execute) => 0o100u32,
        (UserClass::Group, Capability::Read) => 0o040u32,
        (UserClass::Group, Capability::Write) => 0o020u32,
        (UserClass::Group, Capability::Execute) => 0o010u32,
        (UserClass::Other, Capability::Read) => 0o004u32,
        (UserClass::Other, Capability::Write) => 0o002u32,
        (UserClass::Other, Capability::Execute) => 0o001u32,
    }
}

/// Whether `mode` grants `cap` to `class`.
pub open spec fn grants(mode: u32, class: UserClass, cap: Capability) -> bool {
    mode & permission_bit(class, cap) != 0
}

/// The flags that `mode` holds for `class`.
pub open spec fn flags_of(mode: u32, class: UserClass) -> ClassFlags {
    ClassFlags {
        read: grants(mode, class, Capability::Read),
        write: grants(mode, class, Capability::Write),
        execute: grants(mode, class, Capability::Execute),
    }
}

/// The whole grid that `mode` holds.
pub open spec fn snapshot_of(mode: u32) -> Snapshot {
    Snapshot {
        owner: flags_of(mode, UserClass::Owner),
        group: flags_of(mode, UserClass::Group),
        other: flags_of(mode, UserClass::Other),
    }
}

/// Calls `file_mode::Mode::user_protection` on the `Mode` that
/// `Mode::from(u32)` builds, and reads the answer with
/// `Protection::is_read_set`, `is_write_set` and `is_execute_set`.
///
/// Trusted: each flag is claimed to be the test of the one bit of `mode` that
/// `permission_bit` names. The outside code keeps the low sixteen bits of
/// `mode`, shifts the class's three bits into the owner's place and tests
/// them there; bits above the low twelve play no part.
#[verifier::external_body]
fn user_protection(mode: u32, class: UserClass) -> (flags: ClassFlags)
    ensures
        flags == flags_of(mode, class),
{
    let user = match class {
        UserClass::Owner => file_mode::User::Owner,
        UserClass::Group => file_mode::User::Group,
        UserClass::Other => file_mode::User::Other,
    };
    let protection = file_mode::Mode::from(mode).user_protection(user);
    ClassFlags {
        read: protection.is_read_set(),
        write: protection.is_write_set(),
        execute: protection.is_execute_set(),
    }
}

impl ClassFlags {
    /// All three capabilities granted.
    pub open spec fn all() -> ClassFlags {
        ClassFlags { read: true, write: true, execute: true }
    }

    /// Nothing granted.
    pub open spec fn none() -> ClassFlags {
        ClassFlags { read: false, write: false, execute: false }
    }

    /// Read access and nothing else.
    pub open spec fn read_only() -> ClassFlags {
        ClassFlags { read: true, write: false, execute: false }
    }

    /// The flag for one capability.
    pub open spec fn spec_get(self, cap: Capability) -> bool {
        match cap {
            Capability::Read => self.read,
            Capability::Write => self.write,
            Capability::Execute => self.execute,
        }
    }

    /// The flag for one capability.
    pub fn get(&self, cap: Capability) -> (flag: bool)
        ensures
            flag == self.spec_get(cap),
    {
        match cap {
            Capability::Read => self.read,
            Capability::Write => self.write,
            Capability::Execute => self.execute,
        }
    }
}

impl Snapshot {
    /// The row of one class.
    pub open spec fn spec_class(self, class: UserClass) -> ClassFlags {
        match class {
            UserClass::Owner => self.owner,
            UserClass::Group => self.group,
            UserClass::Other => self.other,
        }
    }

    /// Decomposes a mode into its grid of flags. Bits outside the nine
    /// permission bits are ignored.
    pub fn of_mode(mode: u32) -> (snap: Snapshot)
        ensures
            snap == snapshot_of(mode),
            forall|class: UserClass, cap: Capability|
                snap.spec_class(class).spec_get(cap) == grants(mode, class, cap),
    {
        Snapshot {
            owner: user_protection(mode, UserClass::Owner),
            group: user_protection(mode, UserClass::Group),
            other: user_protection(mode, UserClass::Other),
        }
    }

    /// The row of one class.
    pub fn class(&self, class: UserClass) -> (flags: ClassFlags)
        ensures
            flags == self.spec_class(class),
    {
        match class {
            UserClass::Owner => self.owner,
            UserClass::Group => self.group,
            UserClass::Other => self.other,
        }
    }
}

/// The grid of the owner-only pattern.
pub proof fn lemma_owner_only_snapshot()
    ensures
        snapshot_of(OWNER_ONLY) == (Snapshot {
            owner: ClassFlags::all(),
            group: ClassFlags::none(),
            other: ClassFlags::none(),
        }),
{
    assert(0o700u32 & 0o400u32 != 0 && 0o700u32 & 0o200u32 != 0 && 0o700u32 & 0o100u32 != 0
        && 0o700u32 & 0o040u32 == 0 && 0o700u32 & 0o020u32 == 0 && 0o700u32 & 0o010u32 == 0
        && 0o700u32 & 0o004u32 == 0 && 0o700u32 & 0o002u32 == 0 && 0o700u32 & 0o001u32 == 0)
        by (bit_vector);
}

/// The grid of the pattern that lets group and other read.
pub proof fn lemma_group_other_read_snapshot()
    ensures
        snapshot_of(OWNER_WRITE_GROUP_OTHER_READ) == (Snapshot {
            owner: ClassFlags::all(),
            group: ClassFlags::read_only(),
            other: ClassFlags::read_only(),
        }),
{
    assert(0o744u32 & 0o400u32 != 0 && 0o744u32 & 0o200u32 != 0 && 0o744u32 & 0o100u32 != 0
        && 0o744u32 & 0o040u32 != 0 && 0o744u32 & 0o020u32 == 0 && 0o744u32 & 0o010u32 == 0
        && 0o744u32 & 0o004u32 != 0 && 0o744u32 & 0o002u32 == 0 && 0o744u32 & 0o001u32 == 0)
        by (bit_vector);
}

/// The grid of the open pattern.
pub proof fn lemma_open_snapshot()
    ensures
        snapshot_of(OPEN) == (Snapshot {
            owner: ClassFlags::all(),
            group: ClassFlags::all(),
            other: ClassFlags::all(),
        }),
{
    assert(0o777u32 & 0o400u32 != 0 && 0o777u32 & 0o200u32 != 0 && 0o777u32 & 0o100u32 != 0
        && 0o777u32 & 0o040u32 != 0 && 0o777u32 & 0o020u32 != 0 && 0o777u32 & 0o010u32 != 0
        && 0o777u32 & 0o004u32 != 0 && 0o777u32 & 0o002u32 != 0 && 0o777u32 & 0o001u32 != 0)
        by (bit_vector);
}

/// None of the three patterns holds a set-user-id, set-group-id or sticky
/// bit, nor anything above them.
pub proof fn lemma_patterns_hold_permission_bits_only()
    ensures
        OWNER_ONLY & !0o777u32 == 0,
        OWNER_WRITE_GROUP_OTHER_READ & !0o777u32 == 0,
        OPEN & !0o777u32 == 0,
{
    assert(0o700u32 & !0o777u32 == 0 && 0o744u32 & !0o777u32 == 0 && 0o777u32 & !0o777u32 == 0)
        by (bit_vector);
}

} // verus!
