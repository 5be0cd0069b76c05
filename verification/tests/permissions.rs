use lckup::command::{Action, Commands};
use lckup::permissions::{
    Capability, ClassFlags, Snapshot, UserClass, OPEN, OWNER_ONLY, OWNER_WRITE_GROUP_OTHER_READ,
};
use std::path::PathBuf;

const ALL: ClassFlags = ClassFlags { read: true, write: true, execute: true };
const NONE: ClassFlags = ClassFlags { read: false, write: false, execute: false };
const READ_ONLY: ClassFlags = ClassFlags { read: true, write: false, execute: false };

fn path() -> PathBuf {
    PathBuf::from("some/dir/target.txt")
}

#[test]
fn patterns_have_their_octal_values() {
    assert_eq!(OWNER_ONLY, 0o700);
    assert_eq!(OWNER_WRITE_GROUP_OTHER_READ, 0o744);
    assert_eq!(OPEN, 0o777);
    assert_eq!(OWNER_ONLY, 0b111_000_000);
    assert_eq!(OWNER_WRITE_GROUP_OTHER_READ, 0b111_100_100);
    assert_eq!(OPEN, 0b111_111_111);
}

#[test]
fn file_returns_the_path_of_every_variant() {
    assert_eq!(Commands::Safe { file: path() }.file(), &path());
    assert_eq!(Commands::Show { file: path() }.file(), &path());
    assert_eq!(Commands::All { file: path() }.file(), &path());
    assert_eq!(Commands::Info { file: path() }.file(), &path());
    let other = PathBuf::from("/elsewhere");
    assert_eq!(Commands::Info { file: other.clone() }.file(), &other);
    assert_ne!(Commands::Info { file: other }.file(), &path());
}

#[test]
fn target_mode_is_a_lookup_on_the_operation() {
    assert_eq!(Commands::Safe { file: path() }.target_mode(), Some(0o700));
    assert_eq!(Commands::Show { file: path() }.target_mode(), Some(0o744));
    assert_eq!(Commands::All { file: path() }.target_mode(), Some(0o777));
    assert_eq!(Commands::Info { file: path() }.target_mode(), None);
}

#[test]
fn action_sets_a_pattern_or_reports() {
    assert_eq!(Commands::Safe { file: path() }.action(), Action::SetMode(0o700));
    assert_eq!(Commands::Show { file: path() }.action(), Action::SetMode(0o744));
    assert_eq!(Commands::All { file: path() }.action(), Action::SetMode(0o777));
    assert_eq!(Commands::Info { file: path() }.action(), Action::Report);
}

#[test]
fn snapshot_reads_each_of_the_nine_bits() {
    let classes = [UserClass::Owner, UserClass::Group, UserClass::Other];
    let caps = [Capability::Read, Capability::Write, Capability::Execute];
    for (ci, class) in classes.iter().enumerate() {
        for (ki, cap) in caps.iter().enumerate() {
            let bit: u32 = 0o400 >> (3 * ci + ki);
            let snap = Snapshot::of_mode(bit);
            for (cj, other_class) in classes.iter().enumerate() {
                for (kj, other_cap) in caps.iter().enumerate() {
                    let expected = ci == cj && ki == kj;
                    assert_eq!(snap.class(*other_class).get(*other_cap), expected);
                }
            }
        }
    }
}

#[test]
fn snapshot_agrees_with_the_bits_of_every_mode() {
    for mode in 0u32..=0o177777 {
        let snap = Snapshot::of_mode(mode);
        assert_eq!(snap.owner.read, mode & 0o400 != 0);
        assert_eq!(snap.owner.write, mode & 0o200 != 0);
        assert_eq!(snap.owner.execute, mode & 0o100 != 0);
        assert_eq!(snap.group.read, mode & 0o040 != 0);
        assert_eq!(snap.group.write, mode & 0o020 != 0);
        assert_eq!(snap.group.execute, mode & 0o010 != 0);
        assert_eq!(snap.other.read, mode & 0o004 != 0);
        assert_eq!(snap.other.write, mode & 0o002 != 0);
        assert_eq!(snap.other.execute, mode & 0o001 != 0);
    }
}

#[test]
fn snapshot_ignores_bits_above_the_permission_bits() {
    for high in [0o1000u32, 0o2000, 0o4000, 0o100000, 0o40000, 0x10000, 0x8000_0000, 0xffff_f000] {
        assert_eq!(Snapshot::of_mode(high), Snapshot { owner: NONE, group: NONE, other: NONE });
        assert_eq!(Snapshot::of_mode(high | 0o640), Snapshot::of_mode(0o640));
    }
    assert_eq!(Snapshot::of_mode(u32::MAX), Snapshot { owner: ALL, group: ALL, other: ALL });
    assert_eq!(Snapshot::of_mode(0), Snapshot { owner: NONE, group: NONE, other: NONE });
}

#[test]
fn snapshot_of_a_mixed_mode() {
    let snap = Snapshot::of_mode(0o640);
    assert_eq!(snap.owner, ClassFlags { read: true, write: true, execute: false });
    assert_eq!(snap.group, ClassFlags { read: true, write: false, execute: false });
    assert_eq!(snap.other, NONE);
    let snap = Snapshot::of_mode(0o751);
    assert_eq!(snap.owner, ALL);
    assert_eq!(snap.group, ClassFlags { read: true, write: false, execute: true });
    assert_eq!(snap.other, ClassFlags { read: false, write: false, execute: true });
}

#[test]
fn class_and_get_pick_rows_and_flags() {
    let snap = Snapshot { owner: ALL, group: READ_ONLY, other: NONE };
    assert_eq!(snap.class(UserClass::Owner), ALL);
    assert_eq!(snap.class(UserClass::Group), READ_ONLY);
    assert_eq!(snap.class(UserClass::Other), NONE);
    let flags = ClassFlags { read: false, write: true, execute: false };
    assert!(!flags.get(Capability::Read));
    assert!(flags.get(Capability::Write));
    assert!(!flags.get(Capability::Execute));
}

#[test]
fn safe_leaves_owner_only_from_any_mode() {
    for before in [0u32, 0o640, 0o777, 0o7777, 0o100644, 0o4755] {
        let after = Commands::Safe { file: path() }.mode_after(before);
        assert_eq!(after, 0o700);
        assert_eq!(Snapshot::of_mode(after), Snapshot { owner: ALL, group: NONE, other: NONE });
    }
}

#[test]
fn all_leaves_everything_open_from_any_mode() {
    for before in [0u32, 0o640, 0o700, 0o7777, 0o100644] {
        let after = Commands::All { file: path() }.mode_after(before);
        assert_eq!(after, 0o777);
        assert_eq!(Snapshot::of_mode(after), Snapshot { owner: ALL, group: ALL, other: ALL });
    }
}

#[test]
fn show_leaves_group_and_other_read_only_from_any_mode() {
    for before in [0u32, 0o640, 0o700, 0o7777, 0o100644] {
        let after = Commands::Show { file: path() }.mode_after(before);
        assert_eq!(after, 0o744);
        assert_eq!(
            Snapshot::of_mode(after),
            Snapshot { owner: ALL, group: READ_ONLY, other: READ_ONLY }
        );
    }
}

#[test]
fn info_leaves_the_mode_as_it_was() {
    for before in [0u32, 0o640, 0o700, 0o7777, 0o100644, u32::MAX] {
        let after = Commands::Info { file: path() }.mode_after(before);
        assert_eq!(after, before);
        assert_eq!(Snapshot::of_mode(after), Snapshot::of_mode(before));
    }
}

#[test]
fn applying_an_operation_twice_is_applying_it_once() {
    let commands = [
        Commands::Safe { file: path() },
        Commands::Show { file: path() },
        Commands::All { file: path() },
        Commands::Info { file: path() },
    ];
    for command in commands.iter() {
        for before in [0u32, 0o640, 0o7777, 0o100644] {
            let once = command.mode_after(before);
            assert_eq!(command.mode_after(once), once);
        }
    }
}

#[test]
fn mutations_clear_the_special_bits() {
    for before in [0o4755u32, 0o2755, 0o1777, 0o7777] {
        assert_eq!(Commands::Safe { file: path() }.mode_after(before) & 0o7000, 0);
        assert_eq!(Commands::Show { file: path() }.mode_after(before) & 0o7000, 0);
        assert_eq!(Commands::All { file: path() }.mode_after(before) & 0o7000, 0);
    }
}
