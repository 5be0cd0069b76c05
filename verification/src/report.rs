//! The textual report of a mode: one section per user class, one row per
//! capability.

use vstd::prelude::*;
use vstd::string::*;
use crate::permissions::{snapshot_of, Capability, ClassFlags, Snapshot, UserClass};
use crate::style::{
    bold, bold_code, flag_code, glyph, lemma_wrapped_without_escape, no_escape,
    permission_colorize, reset_sequence, start_sequence, styled, to_check, wrapped,
};

verus! {

/// `String::push` of std: appends one character.
pub assume_specification[ String::push ](s: &mut String, c: char)
    ensures
        final(s)@ == old(s)@.push(c),
;

/// `n` blanks.
pub open spec fn spaces(n: nat) -> Seq<char> {
    Seq::new(n, |i: int| ' ')
}

/// The blanks that bring text of length `len` up to `width`.
pub open spec fn padding(len: nat, width: nat) -> nat {
    if len < width {
        (width - len) as nat
    } else {
        0
    }
}

/// `s` at the left of a field of at least `width` characters.
pub open spec fn left_aligned(s: Seq<char>, width: nat) -> Seq<char> {
    s + spaces(padding(s.len(), width))
}

/// `s` at the right of a field of at least `width` characters.
pub open spec fn right_aligned(s: Seq<char>, width: nat) -> Seq<char> {
    spaces(padding(s.len(), width)) + s
}

/// The name of a class, as its heading spells it.
pub open spec fn class_name(class: UserClass) -> Seq<char> {
    match class {
        UserClass::Owner => seq!['O', 'w', 'n', 'e', 'r'],
        UserClass::Group => seq!['G', 'r', 'o', 'u', 'p'],
        UserClass::Other => seq!['O', 't', 'h', 'e', 'r'],
    }
}

/// The heading of a class's section: its name and a colon.
pub open spec fn heading_text(class: UserClass) -> Seq<char> {
    class_name(class).push(':')
}

/// The label of a capability's row.
pub open spec fn label_text(cap: Capability) -> Seq<char> {
    match cap {
        Capability::Read => seq!['r', 'e', 'a', 'd'],
        Capability::Write => seq!['w', 'r', 'i', 't', 'e'],
        Capability::Execute => seq!['e', 'x', 'e', 'c'],
    }
}

/// One row: a tab, the label at the left of a field of five, a colon and a
/// blank, the flag's mark at the right of a field of six, and a line end.
///
/// `shown` is the label as the terminal gets it, with or without escape
/// sequences; the field is filled by the length of the plain `label`, so
/// that styling never moves a column.
pub open spec fn row_text(label: Seq<char>, shown: Seq<char>, flag: bool) -> Seq<char> {
    seq!['\t'] + shown + spaces(padding(label.len(), 5)) + seq![':', ' '] + right_aligned(
        seq![glyph(flag)],
        6,
    ) + seq!['\n']
}

/// One section: the heading on a line of its own, then the rows for read,
/// write and execute, in that order. `heading`, `read`, `write` and
/// `execute` are the pieces as the terminal gets them; each row's field is
/// filled by the length of its capability's plain label.
pub open spec fn section_text(
    heading: Seq<char>,
    read: Seq<char>,
    write: Seq<char>,
    execute: Seq<char>,
    flags: ClassFlags,
) -> Seq<char> {
    heading + seq!['\n'] + row_text(label_text(Capability::Read), read, flags.read) + row_text(
        label_text(Capability::Write),
        write,
        flags.write,
    ) + row_text(label_text(Capability::Execute), execute, flags.execute)
}

/// Which pieces of a section carry escape sequences.
pub struct Styling {
    pub heading: bool,
    pub read: bool,
    pub write: bool,
    pub execute: bool,
}

impl Styling {
    /// No piece is styled.
    pub open spec fn plain() -> Styling {
        Styling { heading: false, read: false, write: false, execute: false }
    }
}

/// The section of `class` with the given flags, its heading bold and each
/// label green or red, where `styling` says so.
pub open spec fn class_section(class: UserClass, flags: ClassFlags, styling: Styling) -> Seq<char> {
    section_text(
        styled(heading_text(class), bold_code(), styling.heading),
        styled(label_text(Capability::Read), flag_code(flags.read), styling.read),
        styled(label_text(Capability::Write), flag_code(flags.write), styling.write),
        styled(label_text(Capability::Execute), flag_code(flags.execute), styling.execute),
        flags,
    )
}

/// The report of a grid: the sections of owner, group and other, in that
/// order.
pub open spec fn report_text(
    snap: Snapshot,
    owner: Styling,
    group: Styling,
    other: Styling,
) -> Seq<char> {
    class_section(UserClass::Owner, snap.owner, owner)
        + class_section(UserClass::Group, snap.group, group)
        + class_section(UserClass::Other, snap.other, other)
}

/// `text` is the report of `snap`, with some of its pieces styled.
pub open spec fn is_report(text: Seq<char>, snap: Snapshot) -> bool {
    exists|owner: Styling, group: Styling, other: Styling|
        text == #[trigger] report_text(snap, owner, group, other)
}

/// Appends `n` blanks.
fn push_spaces(out: &mut String, n: usize)
    ensures
        final(out)@ == old(out)@ + spaces(n as nat),
{
    let mut i: usize = 0;
    assert(out@ =~= old(out)@ + spaces(0));
    while i < n
        invariant
            i <= n,
            out@ == old(out)@ + spaces(i as nat),
        decreases n - i,
    {
        out.push(' ');
        i = i + 1;
        assert(out@ =~= old(out)@ + spaces(i as nat));
    }
}

/// Formats one row from the plain label, the label as it is to be shown,
/// and the flag.
pub fn format_row(label: &str, shown: &str, flag: bool) -> (line: String)
    ensures
        line@ == row_text(label@, shown@, flag),
{
    let mut line = String::new();
    line.push('\t');
    line.append(shown);
    let len = label.unicode_len();
    if len < 5 {
        push_spaces(&mut line, 5 - len);
    }
    line.push(':');
    line.push(' ');
    push_spaces(&mut line, 5);
    line.push(to_check(flag));
    line.push('\n');
    assert(line@ =~= row_text(label@, shown@, flag));
    line
}

/// Formats one section from its heading and its three labels as they are to
/// be shown.
pub fn format_section(
    heading: &str,
    read: &str,
    write: &str,
    execute: &str,
    flags: ClassFlags,
) -> (text: String)
    ensures
        text@ == section_text(heading@, read@, write@, execute@, flags),
{
    let mut text = String::from_str(heading);
    text.push('\n');
    let read_row = format_row(Capability::Read.label(), read, flags.read);
    text.append(read_row.as_str());
    let write_row = format_row(Capability::Write.label(), write, flags.write);
    text.append(write_row.as_str());
    let execute_row = format_row(Capability::Execute.label(), execute, flags.execute);
    text.append(execute_row.as_str());
    assert(text@ =~= section_text(heading@, read@, write@, execute@, flags));
    text
}

impl UserClass {
    /// The name of the class.
    pub fn name(&self) -> (name: &'static str)
        ensures
            name@ == class_name(*self),
    {
        proof {
            reveal_strlit("Owner");
            reveal_strlit("Group");
            reveal_strlit("Other");
        }
        match self {
            UserClass::Owner => {
                assert("Owner"@ =~= class_name(UserClass::Owner));
                "Owner"
            },
            UserClass::Group => {
                assert("Group"@ =~= class_name(UserClass::Group));
                "Group"
            },
            UserClass::Other => {
                assert("Other"@ =~= class_name(UserClass::Other));
                "Other"
            },
        }
    }

    /// The heading of the class's section.
    pub fn heading(&self) -> (heading: String)
        ensures
            heading@ == heading_text(*self),
    {
        let mut heading = String::from_str(self.name());
        heading.push(':');
        heading
    }
}

impl Capability {
    /// The label of the capability's row.
    pub fn label(&self) -> (label: &'static str)
        ensures
            label@ == label_text(*self),
    {
        proof {
            reveal_strlit("read");
            reveal_strlit("write");
            reveal_strlit("exec");
        }
        match self {
            Capability::Read => {
                assert("read"@ =~= label_text(Capability::Read));
                "read"
            },
            Capability::Write => {
                assert("write"@ =~= label_text(Capability::Write));
                "write"
            },
            Capability::Execute => {
                assert("exec"@ =~= label_text(Capability::Execute));
                "exec"
            },
        }
    }
}

/// Headings and labels hold no escape character, so a styled one is the
/// piece itself between the start sequence and the reset sequence.
pub proof fn lemma_styled_pieces(class: UserClass, cap: Capability, code: Seq<char>)
    ensures
        no_escape(heading_text(class)),
        no_escape(label_text(cap)),
        wrapped(code, heading_text(class)) == start_sequence(code) + heading_text(class)
            + reset_sequence(),
        wrapped(code, label_text(cap)) == start_sequence(code) + label_text(cap)
            + reset_sequence(),
{
    lemma_wrapped_without_escape(code, heading_text(class));
    lemma_wrapped_without_escape(code, label_text(cap));
}

/// Styling a row's label puts the start sequence in front of the label and
/// the reset sequence behind it, and changes nothing else: the blanks that
/// fill the field, the colon and the mark stay where the plain row has them.
pub proof fn lemma_styling_keeps_row_layout(label: Seq<char>, code: Seq<char>, flag: bool)
    requires
        no_escape(label),
    ensures
        row_text(label, styled(label, code, false), flag) == seq!['\t'] + left_aligned(label, 5)
            + seq![':', ' '] + right_aligned(seq![glyph(flag)], 6) + seq!['\n'],
        row_text(label, styled(label, code, true), flag) == seq!['\t'] + start_sequence(code)
            + label + reset_sequence() + spaces(padding(label.len(), 5)) + seq![':', ' ']
            + right_aligned(seq![glyph(flag)], 6) + seq!['\n'],
{
    lemma_wrapped_without_escape(code, label);
    assert(row_text(label, label, flag) =~= seq!['\t'] + left_aligned(label, 5) + seq![':', ' ']
        + right_aligned(seq![glyph(flag)], 6) + seq!['\n']);
    assert(row_text(label, wrapped(code, label), flag) =~= seq!['\t'] + start_sequence(code)
        + label + reset_sequence() + spaces(padding(label.len(), 5)) + seq![':', ' ']
        + right_aligned(seq![glyph(flag)], 6) + seq!['\n']);
}

/// Renders the section of one class, styling its pieces as the terminal
/// allows.
pub fn render_section(class: UserClass, flags: ClassFlags) -> (text: String)
    ensures
        exists|styling: Styling| text@ == #[trigger] class_section(class, flags, styling),
{
    let heading = class.heading();
    let read = Capability::Read.label();
    let write = Capability::Write.label();
    let execute = Capability::Execute.label();
    let shown_heading = bold(heading.as_str());
    let shown_read = permission_colorize(read, flags.read);
    let shown_write = permission_colorize(write, flags.write);
    let shown_execute = permission_colorize(execute, flags.execute);
    let text = format_section(
        shown_heading.as_str(),
        shown_read.as_str(),
        shown_write.as_str(),
        shown_execute.as_str(),
        flags,
    );
    proof {
        let styling = Styling {
            heading: shown_heading@ != heading@,
            read: shown_read@ != read@,
            write: shown_write@ != write@,
            execute: shown_execute@ != execute@,
        };
        assert(text@ == class_section(class, flags, styling));
    }
    text
}

/// The permission bits of a path, ready to be reported.
pub struct WrappedPermissions {
    mode: u32,
}

impl View for WrappedPermissions {
    type V = u32;

    closed spec fn view(&self) -> u32 {
        self.mode
    }
}

impl WrappedPermissions {
    pub fn new(mode: u32) -> (perms: Self)
        ensures
            perms@ == mode,
    {
        Self { mode }
    }

    /// The mode that was wrapped.
    pub fn mode(&self) -> (mode: u32)
        ensures
            mode == self@,
    {
        self.mode
    }

    /// The grid of flags of the wrapped mode.
    pub fn snapshot(&self) -> (snap: Snapshot)
        ensures
            snap == snapshot_of(self@),
    {
        Snapshot::of_mode(self.mode)
    }

    /// The report of the wrapped mode: for owner, group and other in turn a
    /// heading and the rows for read, write and execute. Where the terminal
    /// takes styling, headings are bold and labels green or red.
    pub fn render(&self) -> (text: String)
        ensures
            is_report(text@, snapshot_of(self@)),
    {
        let snap = self.snapshot();
        let mut text = render_section(UserClass::Owner, snap.owner);
        let ghost owner = choose|styling: Styling|
            text@ == #[trigger] class_section(UserClass::Owner, snap.owner, styling);
        let group_text = render_section(UserClass::Group, snap.group);
        let ghost group = choose|styling: Styling|
            group_text@ == #[trigger] class_section(UserClass::Group, snap.group, styling);
        let other_text = render_section(UserClass::Other, snap.other);
        let ghost other = choose|styling: Styling|
            other_text@ == #[trigger] class_section(UserClass::Other, snap.other, styling);
        text.append(group_text.as_str());
        text.append(other_text.as_str());
        assert(text@ == report_text(snap, owner, group, other));
        text
    }
}

} // verus!
