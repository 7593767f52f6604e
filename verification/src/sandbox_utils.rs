//! Command lines and strings in the forms that Windows takes.

use vstd::prelude::*;
use vstd::string::*;

use crate::host_path::HostPath;
use crate::text;

verus! {

// ---------------------------------------------------------------------------------------------
// Wide strings
// ---------------------------------------------------------------------------------------------

/// The UTF-16 units of a character: one, or a surrogate pair.
pub open spec fn units_of_char(c: char) -> Seq<u16> {
    let n = c as u32;
    if n < 0x10000 {
        seq![n as u16]
    } else {
        seq![
            (0xd800 + (n - 0x10000) / 0x400) as u16,
            (0xdc00 + (n - 0x10000) % 0x400) as u16,
        ]
    }
}

/// The UTF-16 units of a text.
pub open spec fn utf16(shown: Seq<char>) -> Seq<u16>
    decreases shown.len(),
{
    if shown.len() == 0 {
        Seq::empty()
    } else {
        utf16(shown.drop_last()) + units_of_char(shown.last())
    }
}

/// The UTF-16 units of `value` with a zero behind them.
pub fn to_wide_null(value: &str) -> (units: Vec<u16>)
    ensures
        units@ == utf16(value@).push(0),
{
    let chars = text::chars_of(value);
    let mut units: Vec<u16> = Vec::new();
    let mut i: usize = 0;
    while i < chars.len()
        invariant
            i <= chars@.len(),
            chars@ == value@,
            units@ == utf16(value@.take(i as int)),
        decreases chars@.len() - i,
    {
        let n: u32 = chars[i] as u32;
        let ghost before = units@;
        proof {
            assert(value@.take(i + 1).drop_last() =~= value@.take(i as int));
            assert(value@.take(i + 1).last() == value@[i as int]);
        }
        if n < 0x10000 {
            units.push(n as u16);
        } else {
            let offset: u32 = n - 0x10000;
            units.push((0xd800 + offset / 0x400) as u16);
            units.push((0xdc00 + offset % 0x400) as u16);
        }
        proof {
            assert(units@ =~= before + units_of_char(value@[i as int]));
        }
        i = i + 1;
    }
    proof {
        assert(value@.take(i as int) =~= value@);
    }
    units.push(0);
    units
}

// ---------------------------------------------------------------------------------------------
// Command lines
// ---------------------------------------------------------------------------------------------

pub open spec fn slashes(count: nat) -> Seq<char> {
    Seq::new(count, |i: int| '\\')
}

/// What follows the opening quote for the rest of an argument that `pending` backslashes precede:
/// backslashes are doubled before a quote, and a quote gets one of its own.
pub open spec fn quoted_rest(rest: Seq<char>, pending: nat) -> Seq<char>
    decreases rest.len(),
{
    if rest.len() == 0 {
        slashes(2 * pending).push('"')
    } else if rest[0] == '\\' {
        quoted_rest(rest.skip(1), pending + 1)
    } else if rest[0] == '"' {
        slashes(2 * pending + 1).push('"') + quoted_rest(rest.skip(1), 0)
    } else {
        slashes(pending).push(rest[0]) + quoted_rest(rest.skip(1), 0)
    }
}

/// A character that an argument has to be quoted for.
pub open spec fn needs_quotes(c: char) -> bool {
    text::is_whitespace(c) || c == '"'
}

/// An argument as it stands in a command line.
pub open spec fn quoted(arg: Seq<char>) -> Seq<char> {
    if arg.len() == 0 {
        seq!['"', '"']
    } else if exists|i: int| 0 <= i < arg.len() && needs_quotes(#[trigger] arg[i]) {
        seq!['"'] + quoted_rest(arg, 0)
    } else {
        arg
    }
}

fn push_slashes(shown: &mut String, count: usize, twice: bool)
    ensures
        final(shown)@ == old(shown)@ + slashes(
            if twice {
                2 * count as nat
            } else {
                count as nat
            },
        ),
{
    let ghost before = shown@;
    let mut i: usize = 0;
    proof {
        assert(before + slashes(0) =~= before);
    }
    while i < count
        invariant
            i <= count,
            shown@ == before + slashes(
                if twice {
                    2 * i as nat
                } else {
                    i as nat
                },
            ),
        decreases count - i,
    {
        shown.push('\\');
        if twice {
            shown.push('\\');
        }
        proof {
            let made = if twice {
                2 * (i + 1) as nat
            } else {
                (i + 1) as nat
            };
            assert(shown@ =~= before + slashes(made));
        }
        i = i + 1;
    }
}

pub fn quote_windows_arg(arg: &str) -> (shown: String)
    ensures
        shown@ == quoted(arg@),
{
    let chars = text::chars_of(arg);
    let count: usize = chars.len();
    if count == 0 {
        let mut empty: String = String::new();
        empty.push('"');
        empty.push('"');
        proof {
            assert(empty@ =~= seq!['"', '"']);
        }
        return empty;
    }
    let mut special = false;
    let mut k: usize = 0;
    while k < count && !special
        invariant
            k <= count,
            count == chars@.len(),
            chars@ == arg@,
            special ==> exists|i: int| 0 <= i < arg@.len() && needs_quotes(#[trigger] arg@[i]),
            !special ==> forall|i: int| 0 <= i < k ==> !needs_quotes(#[trigger] arg@[i]),
        decreases count - k,
            if special {
                0int
            } else {
                1int
            },
    {
        if text::char_is_whitespace(chars[k]) || chars[k] == '"' {
            proof {
                assert(needs_quotes(arg@[k as int]));
            }
            special = true;
        }
        k = k + 1;
    }
    if !special {
        return arg.to_owned();
    }
    let mut shown: String = String::new();
    shown.push('"');
    let mut backslashes: usize = 0;
    let mut i: usize = 0;
    proof {
        assert(arg@.skip(0) =~= arg@);
        assert(shown@ + quoted_rest(arg@.skip(0), 0) =~= quoted(arg@));
    }
    while i < count
        invariant
            i <= count,
            count == chars@.len(),
            chars@ == arg@,
            backslashes <= i,
            shown@ + quoted_rest(arg@.skip(i as int), backslashes as nat) == quoted(arg@),
        decreases count - i,
    {
        let c = chars[i];
        let ghost before = shown@;
        let ghost rest = arg@.skip(i as int);
        proof {
            assert(rest[0] == c);
            assert(rest.skip(1) =~= arg@.skip(i + 1));
        }
        if c == '\\' {
            backslashes = backslashes + 1;
        } else if c == '"' {
            push_slashes(&mut shown, backslashes, true);
            shown.push('\\');
            shown.push('"');
            proof {
                let pending = backslashes as nat;
                assert(slashes(2 * pending).push('\\') =~= slashes(2 * pending + 1));
                assert(shown@ =~= before + slashes(2 * pending + 1).push('"'));
                assert(shown@ + quoted_rest(arg@.skip(i + 1), 0) =~= before + quoted_rest(
                    rest,
                    pending,
                ));
            }
            backslashes = 0;
        } else {
            push_slashes(&mut shown, backslashes, false);
            shown.push(c);
            proof {
                let pending = backslashes as nat;
                assert(shown@ =~= before + slashes(pending).push(c));
                assert(shown@ + quoted_rest(arg@.skip(i + 1), 0) =~= before + quoted_rest(
                    rest,
                    pending,
                ));
            }
            backslashes = 0;
        }
        i = i + 1;
    }
    let ghost before = shown@;
    push_slashes(&mut shown, backslashes, true);
    shown.push('"');
    proof {
        assert(arg@.skip(i as int).len() == 0);
        assert(shown@ =~= before + slashes(2 * backslashes as nat).push('"'));
    }
    shown
}

/// The quoted forms of a program and its arguments.
pub open spec fn quoted_parts(program: Seq<char>, args: Seq<Seq<char>>) -> Seq<Seq<char>> {
    seq![quoted(program)] + args.map_values(|arg: Seq<char>| quoted(arg))
}

pub fn build_windows_command_line(program: &str, args: &Vec<String>) -> (line: String)
    ensures
        line@ == text::join(quoted_parts(program@, text::views(args@)), " "@),
{
    let mut parts: Vec<String> = Vec::new();
    parts.push(quote_windows_arg(program));
    let ghost all = quoted_parts(program@, text::views(args@));
    let mut i: usize = 0;
    proof {
        assert(text::views(parts@) =~= all.take(1));
    }
    while i < args.len()
        invariant
            i <= args@.len(),
            all == quoted_parts(program@, text::views(args@)),
            text::views(parts@) == all.take(i + 1),
        decreases args@.len() - i,
    {
        let ghost before = parts@;
        let quoted_arg = quote_windows_arg(args[i].as_str());
        parts.push(quoted_arg);
        proof {
            assert(text::views(parts@) =~= text::views(before).push(quoted_arg@));
            assert(text::views(args@)[i as int] == args@[i as int]@);
            assert(all[i + 1] == quoted(args@[i as int]@));
            assert(text::views(parts@) =~= all.take(i + 2));
        }
        i = i + 1;
    }
    proof {
        assert(all.take(i + 1) =~= all);
    }
    text::join_with(&parts, " ")
}

// ---------------------------------------------------------------------------------------------
// Paths
// ---------------------------------------------------------------------------------------------

/// A path text without the prefix of extended paths.
pub open spec fn plain_path(shown: Seq<char>) -> Seq<char> {
    match text::without_prefix(shown, "\\\\?\\UNC\\"@) {
        Some(rest) => "\\\\"@ + rest,
        None => match text::without_prefix(shown, "\\\\?\\"@) {
            Some(rest) => rest,
            None => shown,
        },
    }
}

pub fn win32_path_string(path: &HostPath) -> (shown: String)
    ensures
        shown@ == plain_path(path.shown@),
{
    let value = path.shown.as_str();
    match text::strip_prefix(value, "\\\\?\\UNC\\") {
        Some(rest) => {
            return text::cat2("\\\\", rest.as_str());
        },
        None => {},
    }
    match text::strip_prefix(value, "\\\\?\\") {
        Some(rest) => rest,
        None => path.shown.clone(),
    }
}

// ---------------------------------------------------------------------------------------------
// Laws
// ---------------------------------------------------------------------------------------------

/// The first argument of a command line and what follows it, by the rules of the Windows C runtime:
/// backslashes stand for themselves unless a quote follows; before a quote each pair gives one, and
/// an odd one makes the quote a plain character; other quotes switch quoting on and off; a space or
/// a tab outside of quotes ends the argument.
pub open spec fn first_argument(line: Seq<char>, pending: nat, open: bool) -> (Seq<char>, Seq<char>)
    decreases line.len(),
{
    if line.len() == 0 {
        (slashes(pending), line)
    } else if line[0] == '\\' {
        first_argument(line.skip(1), pending + 1, open)
    } else if line[0] == '"' {
        if pending % 2 == 0 {
            let (value, rest) = first_argument(line.skip(1), 0, !open);
            (slashes(pending / 2) + value, rest)
        } else {
            let (value, rest) = first_argument(line.skip(1), 0, open);
            (slashes(pending / 2).push('"') + value, rest)
        }
    } else if !open && (line[0] == ' ' || line[0] == '\t') {
        (slashes(pending), line)
    } else {
        let (value, rest) = first_argument(line.skip(1), 0, open);
        (slashes(pending).push(line[0]) + value, rest)
    }
}

/// The first `count` arguments of a command line whose arguments are one space apart.
pub open spec fn arguments_of(line: Seq<char>, count: nat) -> Seq<Seq<char>>
    decreases count,
{
    if count == 0 {
        Seq::empty()
    } else {
        let (value, rest) = first_argument(line, 0, false);
        seq![value] + arguments_of(rest.skip(1), (count - 1) as nat)
    }
}

/// Text behind an argument: nothing, or a space first.
pub open spec fn ends_argument(tail: Seq<char>) -> bool {
    tail.len() == 0 || tail[0] == ' '
}

proof fn lemma_slashes_read(count: nat, tail: Seq<char>, pending: nat, open: bool)
    ensures
        first_argument(slashes(count) + tail, pending, open) == first_argument(
            tail,
            pending + count,
            open,
        ),
    decreases count,
{
    let line = slashes(count) + tail;
    if count == 0 {
        assert(line =~= tail);
    } else {
        assert(line[0] == '\\');
        assert(line.skip(1) =~= slashes((count - 1) as nat) + tail);
        lemma_slashes_read((count - 1) as nat, tail, pending + 1, open);
    }
}

proof fn lemma_quoted_rest_read(rest: Seq<char>, pending: nat, tail: Seq<char>)
    requires
        ends_argument(tail),
    ensures
        first_argument(quoted_rest(rest, pending) + tail, 0, true) == (
            slashes(pending) + rest,
            tail,
        ),
    decreases rest.len(),
{
    let line = quoted_rest(rest, pending) + tail;
    if rest.len() == 0 {
        let behind = seq!['"'] + tail;
        assert(line =~= slashes(2 * pending) + behind);
        lemma_slashes_read(2 * pending, behind, 0, true);
        assert(behind[0] == '"');
        assert(behind.skip(1) =~= tail);
        assert((2 * pending) % 2 == 0 && (2 * pending) / 2 == pending);
        assert(first_argument(tail, 0, false) == (slashes(0), tail));
        assert(slashes(pending) + slashes(0) =~= slashes(pending) + rest);
    } else if rest[0] == '\\' {
        lemma_quoted_rest_read(rest.skip(1), pending + 1, tail);
        assert(slashes(pending + 1) + rest.skip(1) =~= slashes(pending) + rest);
    } else if rest[0] == '"' {
        let more = quoted_rest(rest.skip(1), 0) + tail;
        let behind = seq!['"'] + more;
        assert(line =~= slashes(2 * pending + 1) + behind);
        lemma_slashes_read(2 * pending + 1, behind, 0, true);
        assert(behind[0] == '"');
        assert(behind.skip(1) =~= more);
        assert((2 * pending + 1) % 2 == 1 && (2 * pending + 1) / 2 == pending);
        lemma_quoted_rest_read(rest.skip(1), 0, tail);
        assert(slashes(0) + rest.skip(1) =~= rest.skip(1));
        assert(slashes(pending).push('"') + rest.skip(1) =~= slashes(pending) + rest);
    } else {
        let more = quoted_rest(rest.skip(1), 0) + tail;
        let behind = seq![rest[0]] + more;
        assert(line =~= slashes(pending) + behind);
        lemma_slashes_read(pending, behind, 0, true);
        assert(behind[0] == rest[0]);
        assert(behind.skip(1) =~= more);
        lemma_quoted_rest_read(rest.skip(1), 0, tail);
        assert(slashes(0) + rest.skip(1) =~= rest.skip(1));
        assert(slashes(pending).push(rest[0]) + rest.skip(1) =~= slashes(pending) + rest);
    }
}

proof fn lemma_plain_read(arg: Seq<char>, pending: nat, tail: Seq<char>)
    requires
        forall|i: int| 0 <= i < arg.len() ==> !needs_quotes(#[trigger] arg[i]),
        ends_argument(tail),
    ensures
        first_argument(arg + tail, pending, false) == (slashes(pending) + arg, tail),
    decreases arg.len(),
{
    let line = arg + tail;
    if arg.len() == 0 {
        assert(line =~= tail);
        assert(slashes(pending) + arg =~= slashes(pending));
    } else {
        assert(line[0] == arg[0]);
        assert(line.skip(1) =~= arg.skip(1) + tail);
        assert(!needs_quotes(arg[0]));
        assert forall|i: int| 0 <= i < arg.skip(1).len() implies !needs_quotes(
            #[trigger] arg.skip(1)[i],
        ) by {
            assert(!needs_quotes(arg[i + 1]));
        }
        if arg[0] == '\\' {
            lemma_plain_read(arg.skip(1), pending + 1, tail);
            assert(slashes(pending + 1) + arg.skip(1) =~= slashes(pending) + arg);
        } else {
            lemma_plain_read(arg.skip(1), 0, tail);
            assert(slashes(0) + arg.skip(1) =~= arg.skip(1));
            assert(slashes(pending).push(arg[0]) + arg.skip(1) =~= slashes(pending) + arg);
        }
    }
}

/// A quoted argument is read back as the argument, whatever it holds, and reading it stops where
/// the next one begins.
pub proof fn quoted_arguments_read_back(arg: Seq<char>, tail: Seq<char>)
    requires
        ends_argument(tail),
    ensures
        first_argument(quoted(arg) + tail, 0, false) == (arg, tail),
{
    let line = quoted(arg) + tail;
    if arg.len() == 0 {
        let behind = seq!['"'] + tail;
        assert(line[0] == '"');
        assert(line.skip(1) =~= behind);
        assert(behind[0] == '"');
        assert(behind.skip(1) =~= tail);
        assert(first_argument(tail, 0, false) == (slashes(0), tail));
        assert(first_argument(behind, 0, true) == (slashes(0) + slashes(0), tail));
        assert(slashes(0) + (slashes(0) + slashes(0)) =~= arg);
    } else if exists|i: int| 0 <= i < arg.len() && needs_quotes(#[trigger] arg[i]) {
        let more = quoted_rest(arg, 0) + tail;
        assert(line[0] == '"');
        assert(line.skip(1) =~= more);
        lemma_quoted_rest_read(arg, 0, tail);
        assert(slashes(0) + (slashes(0) + arg) =~= arg);
    } else {
        lemma_plain_read(arg, 0, tail);
        assert(slashes(0) + arg =~= arg);
    }
}

proof fn lemma_join_front(parts: Seq<Seq<char>>, separator: Seq<char>)
    requires
        parts.len() >= 2,
    ensures
        text::join(parts, separator) == parts[0] + (separator + text::join(
            parts.skip(1),
            separator,
        )),
    decreases parts.len(),
{
    let rest = parts.skip(1);
    if parts.len() == 2 {
        assert(parts.drop_last() =~= seq![parts[0]]);
        assert(text::join(parts.drop_last(), separator) == parts[0]);
        assert(text::join(rest, separator) == parts[1]);
        assert(parts[0] + separator + parts[1] =~= parts[0] + (separator + parts[1]));
    } else {
        let shorter = parts.drop_last();
        lemma_join_front(shorter, separator);
        assert(shorter.skip(1) =~= rest.drop_last());
        assert(rest.last() == parts.last());
        let middle = text::join(rest.drop_last(), separator);
        assert(parts[0] + (separator + middle) + separator + parts.last() =~= parts[0] + (separator
            + (middle + separator + parts.last())));
    }
}

/// A command line is read back as the program and its arguments, whatever they hold.
pub proof fn command_lines_read_back(program: Seq<char>, args: Seq<Seq<char>>)
    ensures
        arguments_of(
            text::join(quoted_parts(program, args), " "@),
            (1 + args.len()) as nat,
        ) == seq![program] + args,
    decreases args.len(),
{
    reveal_strlit(" ");
    let parts = quoted_parts(program, args);
    let line = text::join(parts, " "@);
    if args.len() == 0 {
        assert(parts =~= seq![quoted(program)]);
        let nothing = Seq::<char>::empty();
        assert(line =~= quoted(program) + nothing);
        quoted_arguments_read_back(program, nothing);
        assert(arguments_of(nothing.skip(1), 0) =~= Seq::<Seq<char>>::empty());
        assert(seq![program] + Seq::<Seq<char>>::empty() =~= seq![program] + args);
    } else {
        let first = args[0];
        let others = args.skip(1);
        lemma_join_front(parts, " "@);
        assert(parts.skip(1) =~= quoted_parts(first, others));
        let rest = text::join(quoted_parts(first, others), " "@);
        let tail = " "@ + rest;
        assert(tail[0] == ' ');
        quoted_arguments_read_back(program, tail);
        assert(tail.skip(1) =~= rest);
        command_lines_read_back(first, others);
        assert(seq![first] + others =~= args);
    }
}

/// A character is written as its own number where that fits in sixteen bits, and otherwise as a pair
/// of surrogates that carry ten bits each, the higher ones first.
pub proof fn wide_units_carry_the_character(c: char)
    ensures
        ({
            let units = units_of_char(c);
            let n = c as u32;
            &&& n < 0x10000 ==> units.len() == 1 && units[0] == n
            &&& n >= 0x10000 ==> {
                &&& units.len() == 2
                &&& 0xd800 <= units[0] < 0xdc00
                &&& 0xdc00 <= units[1] < 0xe000
                &&& 0x10000 + 0x400 * (units[0] - 0xd800) + (units[1] - 0xdc00) == n
            }
        }),
{
}

/// A text is written character by character.
pub proof fn wide_texts_are_joined(left: Seq<char>, right: Seq<char>)
    ensures
        utf16(left + right) == utf16(left) + utf16(right),
        left.len() == 1 ==> utf16(left) == units_of_char(left[0]),
    decreases right.len(),
{
    if left.len() == 1 {
        assert(left.drop_last().len() == 0);
        assert(utf16(left.drop_last()) =~= Seq::empty());
        assert(utf16(left) =~= units_of_char(left[0]));
    }
    if right.len() == 0 {
        assert(left + right =~= left);
        assert(utf16(left) + utf16(right) =~= utf16(left));
    } else {
        wide_texts_are_joined(left, right.drop_last());
        assert((left + right).drop_last() =~= left + right.drop_last());
        assert(utf16(left + right) =~= utf16(left) + utf16(right));
    }
}

/// Only what holds white space or a quotation mark is quoted, and what is empty.
pub proof fn plain_arguments_stay_as_they_are(arg: Seq<char>)
    ensures
        quoted(arg) == arg <==> arg.len() > 0 && forall|i: int|
            0 <= i < arg.len() ==> !text::is_whitespace(#[trigger] arg[i]) && arg[i] != '"',
{
    let plain = forall|i: int|
        0 <= i < arg.len() ==> !text::is_whitespace(#[trigger] arg[i]) && arg[i] != '"';
    if arg.len() > 0 && plain {
        assert(forall|i: int| 0 <= i < arg.len() ==> !needs_quotes(#[trigger] arg[i]));
    }
    if arg.len() > 0 && !plain {
        let i = choose|i: int|
            0 <= i < arg.len() && !(!text::is_whitespace(#[trigger] arg[i]) && arg[i] != '"');
        assert(needs_quotes(arg[i]));
        lemma_quoting_lengthens(arg, 0);
        assert(quoted(arg).len() > arg.len());
    }
}

proof fn lemma_quoting_lengthens(rest: Seq<char>, pending: nat)
    ensures
        quoted_rest(rest, pending).len() >= rest.len() + pending + 1,
    decreases rest.len(),
{
    if rest.len() > 0 {
        if rest[0] == '\\' {
            lemma_quoting_lengthens(rest.skip(1), pending + 1);
        } else {
            lemma_quoting_lengthens(rest.skip(1), 0);
        }
    }
}

/// The long form of a path is shown in its short form: that of a share with two backslashes, that of
/// a drive without the mark. Every other path is shown as it is.
pub proof fn long_paths_are_shown_short(rest: Seq<char>)
    ensures
        plain_path("\\\\?\\UNC\\"@ + rest) == "\\\\"@ + rest,
        !text::begins(rest, "UNC\\"@) ==> plain_path("\\\\?\\"@ + rest) == rest,
        !text::begins(rest, "\\\\?\\"@) ==> plain_path(rest) == rest,
{
    reveal_strlit("\\\\?\\UNC\\");
    reveal_strlit("\\\\?\\");
    reveal_strlit("UNC\\");
    let share = "\\\\?\\UNC\\"@;
    let mark = "\\\\?\\"@;
    let unc = "UNC\\"@;
    assert(share =~= mark + unc);
    assert((share + rest).take(share.len() as int) =~= share);
    assert((share + rest).skip(share.len() as int) =~= rest);
    assert((mark + rest).take(mark.len() as int) =~= mark);
    assert((mark + rest).skip(mark.len() as int) =~= rest);
    if text::begins(mark + rest, share) {
        assert((mark + rest).take(share.len() as int).skip(mark.len() as int) =~= rest.take(
            unc.len() as int,
        ));
        assert(share.skip(mark.len() as int) =~= unc);
    }
    if text::begins(rest, share) {
        assert(rest.take(share.len() as int).take(mark.len() as int) =~= rest.take(
            mark.len() as int,
        ));
        assert(share.take(mark.len() as int) =~= mark);
    }
}

} // verus!
