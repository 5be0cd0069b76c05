//! Terminal styling of the report's pieces: which escape sequences may
//! surround a piece of text, and the glyph that stands for a flag.

use vstd::prelude::*;

verus! {

/// The character that starts every escape sequence.
pub open spec fn escape() -> char {
    '\u{1b}'
}

/// The sequence that switches all styling off.
pub open spec fn reset_sequence() -> Seq<char> {
    seq!['\u{1b}', '[', '0', 'm']
}

/// The parameter that selects bold.
pub open spec fn bold_code() -> Seq<char> {
    seq!['1']
}

/// The parameter that selects a green foreground.
pub open spec fn green_code() -> Seq<char> {
    seq!['3', '2']
}

/// The parameter that selects a red foreground.
pub open spec fn red_code() -> Seq<char> {
    seq!['3', '1']
}

/// The colour that marks a flag: green when set, red when not.
pub open spec fn flag_code(flag: bool) -> Seq<char> {
    if flag {
        green_code()
    } else {
        red_code()
    }
}

/// Whether `s` is free of the escape character.
pub open spec fn no_escape(s: Seq<char>) -> bool {
    forall|i: int| 0 <= i < s.len() ==> #[trigger] s[i] != escape()
}

/// The sequence that switches the style `code` on.
pub open spec fn start_sequence(code: Seq<char>) -> Seq<char> {
    seq!['\u{1b}', '['] + code + seq!['m']
}

/// `s` with `start` put in again behind every reset sequence that `s`
/// itself holds, so that a reset inside the text does not end the style
/// around it.
pub open spec fn reinstated(s: Seq<char>, start: Seq<char>) -> Seq<char>
    decreases s.len(),
{
    if s.len() < 4 {
        s
    } else if s.subrange(0, 4) == reset_sequence() {
        reset_sequence() + start + reinstated(s.subrange(4, s.len() as int), start)
    } else {
        seq![s[0]] + reinstated(s.subrange(1, s.len() as int), start)
    }
}

/// `s` in the style `code`: the start sequence, the text with the style
/// reinstated behind each reset it holds, and the reset sequence.
pub open spec fn wrapped(code: Seq<char>, s: Seq<char>) -> Seq<char> {
    start_sequence(code) + reinstated(s, start_sequence(code)) + reset_sequence()
}

/// `s` as it is written when styling is on, or off.
pub open spec fn styled(s: Seq<char>, code: Seq<char>, on: bool) -> Seq<char> {
    if on {
        wrapped(code, s)
    } else {
        s
    }
}

/// `out` is `s` as a terminal shows it in the style `code`: either left
/// plain, or wrapped in the escape sequences of that style.
pub open spec fn shows(out: Seq<char>, s: Seq<char>, code: Seq<char>) -> bool {
    out == s || out == wrapped(code, s)
}

/// The mark for a flag: a check mark when set, a cross when not.
pub open spec fn glyph(flag: bool) -> char {
    if flag {
        '\u{2713}'
    } else {
        '\u{2715}'
    }
}

/// Text without the escape character holds no reset sequence, so nothing is
/// reinstated in it.
pub proof fn lemma_reinstated_without_escape(s: Seq<char>, start: Seq<char>)
    requires
        no_escape(s),
    ensures
        reinstated(s, start) == s,
    decreases s.len(),
{
    if s.len() >= 4 {
        let rest = s.subrange(1, s.len() as int);
        assert(s.subrange(0, 4)[0] == s[0]);
        assert(reset_sequence()[0] == escape());
        assert forall|i: int| 0 <= i < rest.len() implies #[trigger] rest[i] != escape() by {
            assert(rest[i] == s[i + 1]);
        }
        lemma_reinstated_without_escape(rest, start);
        assert(seq![s[0]] + rest =~= s);
    }
}

/// Text without the escape character is styled by putting it between the
/// start sequence and the reset sequence.
pub proof fn lemma_wrapped_without_escape(code: Seq<char>, s: Seq<char>)
    requires
        no_escape(s),
    ensures
        wrapped(code, s) == start_sequence(code) + s + reset_sequence(),
{
    lemma_reinstated_without_escape(s, start_sequence(code));
}

/// Calls `colored::Colorize::green` on a `&str` and writes the result out
/// with `to_string`.
///
/// Trusted: the result is either the text itself (colouring is off, which
/// the environment, the terminal and an override decide anew for each
/// process) or `ESC [ 3 2 m`, the text, and the reset sequence; where the
/// text itself holds reset sequences, `ESC [ 3 2 m` stands again behind each
/// of them. This supposes that no other thread switches the override while
/// the call runs.
#[verifier::external_body]
fn green(s: &str) -> (out: String)
    ensures
        shows(out@, s@, green_code()),
{
    colored::Colorize::green(s).to_string()
}

/// Calls `colored::Colorize::red` on a `&str` and writes the result out with
/// `to_string`.
///
/// Trusted: as for `green`, with `ESC [ 3 1 m` in front.
#[verifier::external_body]
fn red(s: &str) -> (out: String)
    ensures
        shows(out@, s@, red_code()),
{
    colored::Colorize::red(s).to_string()
}

/// Calls `colored::Colorize::bold` on a `&str` and writes the result out
/// with `to_string`.
///
/// Trusted: as for `green`, with `ESC [ 1 m` in front.
#[verifier::external_body]
pub(crate) fn bold(s: &str) -> (out: String)
    ensures
        shows(out@, s@, bold_code()),
{
    colored::Colorize::bold(s).to_string()
}

/// A label in the colour of its flag: green when set, red when not.
pub fn permission_colorize(s: &str, boolean: bool) -> (out: String)
    ensures
        shows(out@, s@, flag_code(boolean)),
{
    if boolean {
        green(s)
    } else {
        red(s)
    }
}

/// The mark for a flag.
pub fn to_check(b: bool) -> (mark: char)
    ensures
        mark == glyph(b),
{
    if b {
        '\u{2713}'
    } else {
        '\u{2715}'
    }
}

} // verus!
