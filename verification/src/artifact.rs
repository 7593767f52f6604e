//! Rules for names that Foxhole lets reach the file system.

use vstd::prelude::*;

use crate::text;

verus! {

/// The stems that Windows reserves for devices, in upper case.
pub open spec fn reserved_stem(stem: Seq<char>) -> bool {
    ||| stem == "CON"@
    ||| stem == "PRN"@
    ||| stem == "AUX"@
    ||| stem == "NUL"@
    ||| stem == "COM1"@
    ||| stem == "COM2"@
    ||| stem == "COM3"@
    ||| stem == "COM4"@
    ||| stem == "COM5"@
    ||| stem == "COM6"@
    ||| stem == "COM7"@
    ||| stem == "COM8"@
    ||| stem == "COM9"@
    ||| stem == "LPT1"@
    ||| stem == "LPT2"@
    ||| stem == "LPT3"@
    ||| stem == "LPT4"@
    ||| stem == "LPT5"@
    ||| stem == "LPT6"@
    ||| stem == "LPT7"@
    ||| stem == "LPT8"@
    ||| stem == "LPT9"@
}

/// A name whose part before the first dot is reserved, in whatever case.
pub open spec fn reserved_name(name: Seq<char>) -> bool {
    reserved_stem(text::upper(name.take(text::first_index(name, '.'))))
}

/// The characters that Windows forbids in a file name besides control characters.
pub open spec fn forbidden_in_name(c: char) -> bool {
    c == '<' || c == '>' || c == ':' || c == '"' || c == '/' || c == '\\' || c == '|' || c == '?' || c
        == '*'
}

/// A name that Windows takes as an ordinary file name: not empty, free of control and forbidden
/// characters, with no dot or space at its end, and not the name of a device.
pub open spec fn safe_windows_name(name: Seq<char>) -> bool {
    &&& name.len() > 0
    &&& forall|i: int|
        0 <= i < name.len() ==> !text::is_control(#[trigger] name[i]) && !forbidden_in_name(name[i])
    &&& name.last() != '.'
    &&& name.last() != ' '
    &&& !reserved_name(name)
}

/// Whether the part of `name` before its first dot is reserved.
pub fn is_reserved_name(name: &str) -> (yes: bool)
    ensures
        yes == reserved_name(name@),
{
    let chars = text::chars_of(name);
    proof {
        text::lemma_first_index(name@, '.');
    }
    let end: usize = match text::find_first(&chars, '.') {
        Some(dot) => dot,
        None => chars.len(),
    };
    let stem = text::string_of(&chars, 0, end);
    proof {
        assert(stem@ =~= name@.take(end as int));
    }
    let raised = text::to_upper(stem.as_str());
    let raised = raised.as_str();
    text::same_text(raised, "CON") || text::same_text(raised, "PRN") || text::same_text(raised, "AUX")
        || text::same_text(raised, "NUL") || text::same_text(raised, "COM1") || text::same_text(
        raised,
        "COM2",
    ) || text::same_text(raised, "COM3") || text::same_text(raised, "COM4") || text::same_text(
        raised,
        "COM5",
    ) || text::same_text(raised, "COM6") || text::same_text(raised, "COM7") || text::same_text(
        raised,
        "COM8",
    ) || text::same_text(raised, "COM9") || text::same_text(raised, "LPT1") || text::same_text(
        raised,
        "LPT2",
    ) || text::same_text(raised, "LPT3") || text::same_text(raised, "LPT4") || text::same_text(
        raised,
        "LPT5",
    ) || text::same_text(raised, "LPT6") || text::same_text(raised, "LPT7") || text::same_text(
        raised,
        "LPT8",
    ) || text::same_text(raised, "LPT9")
}

/// Whether Windows takes `name` as an ordinary file name.
pub fn is_safe_windows_name(name: &str) -> (yes: bool)
    ensures
        yes == safe_windows_name(name@),
{
    let chars = text::chars_of(name);
    if chars.len() == 0 {
        return false;
    }
    let mut i: usize = 0;
    while i < chars.len()
        invariant
            i <= chars@.len(),
            chars@ == name@,
            forall|j: int|
                0 <= j < i ==> !text::is_control(#[trigger] chars@[j]) && !forbidden_in_name(chars@[j]),
        decreases chars@.len() - i,
    {
        let c = chars[i];
        if text::char_is_control(c) || c == '<' || c == '>' || c == ':' || c == '"' || c == '/' || c
            == '\\' || c == '|' || c == '?' || c == '*' {
            proof {
                assert(text::is_control(name@[i as int]) || forbidden_in_name(name@[i as int]));
            }
            return false;
        }
        i = i + 1;
    }
    let last = chars[chars.len() - 1];
    last != '.' && last != ' ' && !is_reserved_name(name)
}

/// The letters of the device names.
proof fn lemma_device_words()
    ensures
        "CON"@ == seq!['C', 'O', 'N'],
        "PRN"@ == seq!['P', 'R', 'N'],
        "AUX"@ == seq!['A', 'U', 'X'],
        "NUL"@ == seq!['N', 'U', 'L'],
        "COM1"@ == seq!['C', 'O', 'M', '1'],
        "COM2"@ == seq!['C', 'O', 'M', '2'],
        "COM3"@ == seq!['C', 'O', 'M', '3'],
        "COM4"@ == seq!['C', 'O', 'M', '4'],
        "COM5"@ == seq!['C', 'O', 'M', '5'],
        "COM6"@ == seq!['C', 'O', 'M', '6'],
        "COM7"@ == seq!['C', 'O', 'M', '7'],
        "COM8"@ == seq!['C', 'O', 'M', '8'],
        "COM9"@ == seq!['C', 'O', 'M', '9'],
        "LPT1"@ == seq!['L', 'P', 'T', '1'],
        "LPT2"@ == seq!['L', 'P', 'T', '2'],
        "LPT3"@ == seq!['L', 'P', 'T', '3'],
        "LPT4"@ == seq!['L', 'P', 'T', '4'],
        "LPT5"@ == seq!['L', 'P', 'T', '5'],
        "LPT6"@ == seq!['L', 'P', 'T', '6'],
        "LPT7"@ == seq!['L', 'P', 'T', '7'],
        "LPT8"@ == seq!['L', 'P', 'T', '8'],
        "LPT9"@ == seq!['L', 'P', 'T', '9'],
{
    reveal_strlit("CON");
    reveal_strlit("PRN");
    reveal_strlit("AUX");
    reveal_strlit("NUL");
    reveal_strlit("COM1");
    reveal_strlit("COM2");
    reveal_strlit("COM3");
    reveal_strlit("COM4");
    reveal_strlit("COM5");
    reveal_strlit("COM6");
    reveal_strlit("COM7");
    reveal_strlit("COM8");
    reveal_strlit("COM9");
    reveal_strlit("LPT1");
    reveal_strlit("LPT2");
    reveal_strlit("LPT3");
    reveal_strlit("LPT4");
    reveal_strlit("LPT5");
    reveal_strlit("LPT6");
    reveal_strlit("LPT7");
    reveal_strlit("LPT8");
    reveal_strlit("LPT9");
}

/// A name is reserved exactly where the part before its first dot spells, in whatever letter case, a
/// device: CON, PRN, AUX or NUL, or COM or LPT with a digit from 1 to 9.
pub proof fn device_names_are_reserved(name: Seq<char>, stem: Seq<char>)
    requires
        stem == name.take(text::first_index(name, '.')),
    ensures
        reserved_name(name) <==> {
            let up = text::upper(stem);
            ||| up == seq!['C', 'O', 'N']
            ||| up == seq!['P', 'R', 'N']
            ||| up == seq!['A', 'U', 'X']
            ||| up == seq!['N', 'U', 'L']
            ||| up.len() == 4 && '1' <= up[3] <= '9' && (up.take(3) == seq!['C', 'O', 'M']
                || up.take(3) == seq!['L', 'P', 'T'])
        },
{
    lemma_device_words();
    let up = text::upper(stem);
    if up.len() == 4 && '1' <= up[3] <= '9' && up.take(3) == seq!['C', 'O', 'M'] {
        assert(up[0] == up.take(3)[0] && up[1] == up.take(3)[1] && up[2] == up.take(3)[2]);
        assert(up =~= seq!['C', 'O', 'M', up[3]]);
    }
    if up.len() == 4 && '1' <= up[3] <= '9' && up.take(3) == seq!['L', 'P', 'T'] {
        assert(up[0] == up.take(3)[0] && up[1] == up.take(3)[1] && up[2] == up.take(3)[2]);
        assert(up =~= seq!['L', 'P', 'T', up[3]]);
    }
    if reserved_name(name) && up.len() == 4 {
        assert(up.take(3) =~= seq!['C', 'O', 'M'] || up.take(3) =~= seq!['L', 'P', 'T']);
    }
}

/// A name is safe exactly where it is not empty, holds no control character and none of the nine
/// characters with a meaning in paths and patterns, ends in no dot or space, and is not reserved.
pub proof fn safe_names(name: Seq<char>)
    ensures
        safe_windows_name(name) <==> {
            &&& name.len() > 0
            &&& forall|i: int|
                0 <= i < name.len() ==> {
                    let c = #[trigger] name[i];
                    &&& 32 <= c as u32 && !(127 <= c as u32 <= 159)
                    &&& !seq!['<', '>', ':', '"', '/', '\\', '|', '?', '*'].contains(c)
                }
            &&& name[name.len() - 1] != '.'
            &&& name[name.len() - 1] != ' '
            &&& !reserved_name(name)
        },
{
    let bad = seq!['<', '>', ':', '"', '/', '\\', '|', '?', '*'];
    assert forall|c: char| #[trigger] bad.contains(c) <==> forbidden_in_name(c) by {
        if forbidden_in_name(c) {
            assert(bad[0] == '<' && bad[1] == '>' && bad[2] == ':' && bad[3] == '"' && bad[4] == '/'
                && bad[5] == '\\' && bad[6] == '|' && bad[7] == '?' && bad[8] == '*');
        }
    }
    if safe_windows_name(name) {
        assert forall|i: int| 0 <= i < name.len() implies ({
            let c = #[trigger] name[i];
            &&& 32 <= c as u32 && !(127 <= c as u32 <= 159)
            &&& !bad.contains(c)
        }) by {
            assert(!text::is_control(name[i]) && !forbidden_in_name(name[i]));
        }
    }
}

} // verus!
