//! Text primitives: character classes, comparison, splitting, joining and number formatting.
//!
//! Text is modelled as the sequence of its characters. The executable functions work on character
//! vectors and are stated over that model.

use vstd::prelude::*;
use vstd::string::*;

verus! {

/// `String::push` appends one character.
pub assume_specification[ String::push ](string: &mut String, c: char)
    ensures
        final(string)@ == old(string)@.push(c),
;

// ---------------------------------------------------------------------------------------------
// Character classes
// ---------------------------------------------------------------------------------------------

/// The characters with the Unicode `White_Space` property.
pub open spec fn is_whitespace(c: char) -> bool {
    let n = c as u32;
    ||| 0x9 <= n <= 0xd
    ||| n == 0x20
    ||| n == 0x85
    ||| n == 0xa0
    ||| n == 0x1680
    ||| 0x2000 <= n <= 0x200a
    ||| n == 0x2028
    ||| n == 0x2029
    ||| n == 0x202f
    ||| n == 0x205f
    ||| n == 0x3000
}

/// The characters of the Unicode general category `Cc`.
pub open spec fn is_control(c: char) -> bool {
    let n = c as u32;
    n <= 0x1f || 0x7f <= n <= 0x9f
}

pub open spec fn is_digit(c: char) -> bool {
    '0' <= c <= '9'
}

pub open spec fn is_hex_digit(c: char) -> bool {
    is_digit(c) || 'a' <= c <= 'f' || 'A' <= c <= 'F'
}

pub open spec fn is_ascii_letter(c: char) -> bool {
    'a' <= c <= 'z' || 'A' <= c <= 'Z'
}

pub open spec fn is_ascii_alphanumeric(c: char) -> bool {
    is_digit(c) || is_ascii_letter(c)
}

/// The lower-case form of an ASCII letter; any other character unchanged.
pub open spec fn ascii_lower(c: char) -> char {
    if 'A' <= c <= 'Z' {
        ((c as u32) + 32) as char
    } else {
        c
    }
}

/// The upper-case form of an ASCII letter; any other character unchanged.
pub open spec fn ascii_upper(c: char) -> char {
    if 'a' <= c <= 'z' {
        ((c as u32) - 32) as char
    } else {
        c
    }
}

/// Every ASCII letter of `text` in lower case.
pub open spec fn lower(text: Seq<char>) -> Seq<char> {
    text.map_values(|c: char| ascii_lower(c))
}

/// Every ASCII letter of `text` in upper case.
pub open spec fn upper(text: Seq<char>) -> Seq<char> {
    text.map_values(|c: char| ascii_upper(c))
}

/// Equality up to the case of ASCII letters.
pub open spec fn same_ignoring_case(left: Seq<char>, right: Seq<char>) -> bool {
    lower(left) == lower(right)
}

/// Nothing but white space, the empty text among it.
pub open spec fn blank(text: Seq<char>) -> bool {
    forall|i: int| 0 <= i < text.len() ==> is_whitespace(#[trigger] text[i])
}

pub open spec fn has_control(text: Seq<char>) -> bool {
    exists|i: int| 0 <= i < text.len() && is_control(#[trigger] text[i])
}

pub open spec fn all_hex(text: Seq<char>) -> bool {
    forall|i: int| 0 <= i < text.len() ==> is_hex_digit(#[trigger] text[i])
}

/// The length of the UTF-8 encoding of `text`.
pub open spec fn byte_len(text: Seq<char>) -> nat {
    vstd::utf8::encode_utf8(text).len()
}

/// `prefix` begins `text`.
pub open spec fn begins(text: Seq<char>, prefix: Seq<char>) -> bool {
    prefix.len() <= text.len() && text.take(prefix.len() as int) == prefix
}

/// `suffix` ends `text`.
pub open spec fn ends(text: Seq<char>, suffix: Seq<char>) -> bool {
    suffix.len() <= text.len() && text.skip(text.len() - suffix.len()) == suffix
}

/// The pieces of `text` between the occurrences of `separator`; one piece more than occurrences.
pub open spec fn split(text: Seq<char>, separator: char) -> Seq<Seq<char>>
    decreases text.len(),
{
    if text.len() == 0 {
        seq![Seq::empty()]
    } else {
        let before = split(text.drop_last(), separator);
        if text.last() == separator {
            before.push(Seq::empty())
        } else {
            before.drop_last().push(before.last().push(text.last()))
        }
    }
}

/// The views of a list of strings.
pub open spec fn views(list: Seq<String>) -> Seq<Seq<char>> {
    list.map_values(|item: String| item@)
}

/// The parts one after another with `separator` between neighbours.
pub open spec fn join(parts: Seq<Seq<char>>, separator: Seq<char>) -> Seq<char>
    decreases parts.len(),
{
    if parts.len() == 0 {
        Seq::empty()
    } else if parts.len() == 1 {
        parts[0]
    } else {
        join(parts.drop_last(), separator) + separator + parts.last()
    }
}

/// The index of the first `c` in `text`, or the length of `text`.
pub open spec fn first_index(text: Seq<char>, c: char) -> int
    decreases text.len(),
{
    if text.len() == 0 {
        0
    } else if text[0] == c {
        0
    } else {
        1 + first_index(text.skip(1), c)
    }
}

/// The index of the last `c` in `text`, or -1.
pub open spec fn last_index(text: Seq<char>, c: char) -> int
    decreases text.len(),
{
    if text.len() == 0 {
        -1
    } else if text.last() == c {
        text.len() - 1
    } else {
        last_index(text.drop_last(), c)
    }
}

/// The character that shows the decimal digit `digit`.
pub open spec fn digit_char(digit: nat) -> char {
    ((48 + digit) as u32) as char
}

/// The shortest decimal numeral of `n`.
pub open spec fn decimal(n: nat) -> Seq<char>
    decreases n,
{
    if n < 10 {
        seq![digit_char(n)]
    } else {
        decimal(n / 10).push(digit_char(n % 10))
    }
}

/// The decimal numeral of `n`, a minus sign before it where `n` is negative.
pub open spec fn signed_decimal(n: int) -> Seq<char> {
    if n < 0 {
        seq!['-'] + decimal((-n) as nat)
    } else {
        decimal(n as nat)
    }
}

/// The value that a run of decimal digits stands for.
pub open spec fn digits_value(digits: Seq<char>) -> nat
    decreases digits.len(),
{
    if digits.len() == 0 {
        0
    } else {
        digits_value(digits.drop_last()) * 10 + ((digits.last() as u32 - 48) as nat)
    }
}

pub open spec fn all_digits(text: Seq<char>) -> bool {
    forall|i: int| 0 <= i < text.len() ==> is_digit(#[trigger] text[i])
}

// ---------------------------------------------------------------------------------------------
// Executable functions
// ---------------------------------------------------------------------------------------------

pub fn chars_of(text: &str) -> (chars: Vec<char>)
    ensures
        chars@ == text@,
{
    let mut chars: Vec<char> = Vec::new();
    for c in it: text.chars()
        invariant
            it.seq() == text@,
            chars@ == text@.take(it.index()),
    {
        proof {
            assert(text@.take(it.index() + 1) == text@.take(it.index()).push(c));
        }
        chars.push(c);
    }
    proof {
        assert(text@.take(text@.len() as int) == text@);
    }
    chars
}

/// The string with the characters `chars[from..to]`.
pub fn string_of(chars: &Vec<char>, from: usize, to: usize) -> (text: String)
    requires
        from <= to <= chars@.len(),
    ensures
        text@ == chars@.subrange(from as int, to as int),
{
    let mut text: String = String::new();
    let mut i: usize = from;
    while i < to
        invariant
            from <= i <= to <= chars@.len(),
            text@ == chars@.subrange(from as int, i as int),
        decreases to - i,
    {
        proof {
            assert(chars@.subrange(from as int, i + 1) == chars@.subrange(from as int, i as int).push(chars@[i as int]));
        }
        text.push(chars[i]);
        i = i + 1;
    }
    text
}

pub fn same_text(left: &str, right: &str) -> (same: bool)
    ensures
        same == (left@ == right@),
{
    left.to_owned() == right.to_owned()
}

pub fn utf8_len(text: &str) -> (len: usize)
    ensures
        len == byte_len(text@),
{
    text.as_bytes().len()
}

pub fn char_is_whitespace(c: char) -> (yes: bool)
    ensures
        yes == is_whitespace(c),
{
    let n: u32 = c as u32;
    (0x9 <= n && n <= 0xd) || n == 0x20 || n == 0x85 || n == 0xa0 || n == 0x1680 || (0x2000 <= n && n
        <= 0x200a) || n == 0x2028 || n == 0x2029 || n == 0x202f || n == 0x205f || n == 0x3000
}

pub fn char_is_control(c: char) -> (yes: bool)
    ensures
        yes == is_control(c),
{
    let n: u32 = c as u32;
    n <= 0x1f || (0x7f <= n && n <= 0x9f)
}

pub fn char_is_digit(c: char) -> (yes: bool)
    ensures
        yes == is_digit(c),
{
    '0' <= c && c <= '9'
}

pub fn char_is_hex_digit(c: char) -> (yes: bool)
    ensures
        yes == is_hex_digit(c),
{
    ('0' <= c && c <= '9') || ('a' <= c && c <= 'f') || ('A' <= c && c <= 'F')
}

pub fn char_is_ascii_alphanumeric(c: char) -> (yes: bool)
    ensures
        yes == is_ascii_alphanumeric(c),
{
    ('0' <= c && c <= '9') || ('a' <= c && c <= 'z') || ('A' <= c && c <= 'Z')
}

pub fn char_lower(c: char) -> (lowered: char)
    ensures
        lowered == ascii_lower(c),
{
    if 'A' <= c && c <= 'Z' {
        (c as u8 + 32) as char
    } else {
        c
    }
}

pub fn char_upper(c: char) -> (raised: char)
    ensures
        raised == ascii_upper(c),
{
    if 'a' <= c && c <= 'z' {
        (c as u8 - 32) as char
    } else {
        c
    }
}

pub fn is_blank(text: &str) -> (yes: bool)
    ensures
        yes == blank(text@),
{
    let chars = chars_of(text);
    let mut i: usize = 0;
    while i < chars.len()
        invariant
            i <= chars@.len(),
            chars@ == text@,
            forall|j: int| 0 <= j < i ==> is_whitespace(#[trigger] chars@[j]),
        decreases chars@.len() - i,
    {
        if !char_is_whitespace(chars[i]) {
            return false;
        }
        i = i + 1;
    }
    true
}

pub fn contains_control(text: &str) -> (yes: bool)
    ensures
        yes == has_control(text@),
{
    let chars = chars_of(text);
    let mut i: usize = 0;
    while i < chars.len()
        invariant
            i <= chars@.len(),
            chars@ == text@,
            forall|j: int| 0 <= j < i ==> !is_control(#[trigger] chars@[j]),
        decreases chars@.len() - i,
    {
        if char_is_control(chars[i]) {
            return true;
        }
        i = i + 1;
    }
    false
}

pub fn is_all_hex(text: &str) -> (yes: bool)
    ensures
        yes == all_hex(text@),
{
    let chars = chars_of(text);
    let mut i: usize = 0;
    while i < chars.len()
        invariant
            i <= chars@.len(),
            chars@ == text@,
            forall|j: int| 0 <= j < i ==> is_hex_digit(#[trigger] chars@[j]),
        decreases chars@.len() - i,
    {
        if !char_is_hex_digit(chars[i]) {
            return false;
        }
        i = i + 1;
    }
    true
}

pub fn contains_char(text: &str, c: char) -> (yes: bool)
    ensures
        yes == text@.contains(c),
{
    let chars = chars_of(text);
    let mut i: usize = 0;
    while i < chars.len()
        invariant
            i <= chars@.len(),
            chars@ == text@,
            forall|j: int| 0 <= j < i ==> #[trigger] chars@[j] != c,
        decreases chars@.len() - i,
    {
        if chars[i] == c {
            proof {
                assert(text@[i as int] == c);
            }
            return true;
        }
        i = i + 1;
    }
    false
}

pub fn to_lower(text: &str) -> (lowered: String)
    ensures
        lowered@ == lower(text@),
{
    let chars = chars_of(text);
    let mut lowered: String = String::new();
    let mut i: usize = 0;
    while i < chars.len()
        invariant
            i <= chars@.len(),
            chars@ == text@,
            lowered@ == lower(chars@.take(i as int)),
        decreases chars@.len() - i,
    {
        proof {
            assert(lower(chars@.take(i + 1)) =~= lower(chars@.take(i as int)).push(ascii_lower(chars@[i as int])));
        }
        lowered.push(char_lower(chars[i]));
        i = i + 1;
    }
    proof {
        assert(chars@.take(i as int) == text@);
    }
    lowered
}

pub fn to_upper(text: &str) -> (raised: String)
    ensures
        raised@ == upper(text@),
{
    let chars = chars_of(text);
    let mut raised: String = String::new();
    let mut i: usize = 0;
    while i < chars.len()
        invariant
            i <= chars@.len(),
            chars@ == text@,
            raised@ == upper(chars@.take(i as int)),
        decreases chars@.len() - i,
    {
        proof {
            assert(upper(chars@.take(i + 1)) =~= upper(chars@.take(i as int)).push(ascii_upper(chars@[i as int])));
        }
        raised.push(char_upper(chars[i]));
        i = i + 1;
    }
    proof {
        assert(chars@.take(i as int) == text@);
    }
    raised
}

pub fn eq_ignoring_case(left: &str, right: &str) -> (same: bool)
    ensures
        same == same_ignoring_case(left@, right@),
{
    to_lower(left) == to_lower(right)
}

pub fn starts_with(text: &str, prefix: &str) -> (yes: bool)
    ensures
        yes == begins(text@, prefix@),
{
    let chars = chars_of(text);
    let wanted = chars_of(prefix);
    if wanted.len() > chars.len() {
        return false;
    }
    let mut i: usize = 0;
    while i < wanted.len()
        invariant
            i <= wanted@.len() <= chars@.len(),
            chars@ == text@,
            wanted@ == prefix@,
            forall|j: int| 0 <= j < i ==> #[trigger] chars@[j] == wanted@[j],
        decreases wanted@.len() - i,
    {
        if chars[i] != wanted[i] {
            proof {
                assert(text@.take(prefix@.len() as int)[i as int] != prefix@[i as int]);
            }
            return false;
        }
        i = i + 1;
    }
    proof {
        assert(text@.take(prefix@.len() as int) =~= prefix@);
    }
    true
}

pub fn ends_with(text: &str, suffix: &str) -> (yes: bool)
    ensures
        yes == ends(text@, suffix@),
{
    let chars = chars_of(text);
    let wanted = chars_of(suffix);
    if wanted.len() > chars.len() {
        return false;
    }
    let offset: usize = chars.len() - wanted.len();
    let mut i: usize = 0;
    while i < wanted.len()
        invariant
            i <= wanted@.len() <= chars@.len(),
            offset + wanted.len() == chars.len(),
            chars@ == text@,
            wanted@ == suffix@,
            forall|j: int| 0 <= j < i ==> #[trigger] wanted@[j] == chars@[offset + j],
        decreases wanted@.len() - i,
    {
        if chars[offset + i] != wanted[i] {
            proof {
                assert(text@.skip(text@.len() - suffix@.len())[i as int] != suffix@[i as int]);
            }
            return false;
        }
        i = i + 1;
    }
    proof {
        assert(text@.skip(text@.len() - suffix@.len()) =~= suffix@);
    }
    true
}

pub proof fn lemma_split_nonempty(text: Seq<char>, separator: char)
    ensures
        split(text, separator).len() >= 1,
    decreases text.len(),
{
    if text.len() > 0 {
        lemma_split_nonempty(text.drop_last(), separator);
    }
}

/// The pieces of `text` between the occurrences of `separator`.
pub fn split_on(text: &str, separator: char) -> (pieces: Vec<String>)
    ensures
        views(pieces@) == split(text@, separator),
{
    let chars = chars_of(text);
    let mut pieces: Vec<String> = Vec::new();
    let mut current: String = String::new();
    let mut i: usize = 0;
    proof {
        assert(views(pieces@).push(current@) =~= split(chars@.take(0), separator));
    }
    while i < chars.len()
        invariant
            i <= chars@.len(),
            chars@ == text@,
            views(pieces@).push(current@) == split(chars@.take(i as int), separator),
        decreases chars@.len() - i,
    {
        let ghost before = views(pieces@).push(current@);
        proof {
            assert(chars@.take(i + 1).drop_last() =~= chars@.take(i as int));
            assert(before.drop_last() =~= views(pieces@));
        }
        let c = chars[i];
        if c == separator {
            let piece = current;
            current = String::new();
            pieces.push(piece);
            proof {
                assert(views(pieces@) =~= before);
            }
        } else {
            current.push(c);
        }
        i = i + 1;
    }
    pieces.push(current);
    proof {
        assert(chars@.take(i as int) == text@);
        assert(views(pieces@) =~= split(text@, separator));
    }
    pieces
}

/// The parts one after another with `separator` between neighbours.
pub fn join_with(parts: &Vec<String>, separator: &str) -> (text: String)
    ensures
        text@ == join(views(parts@), separator@),
{
    let mut text: String = String::new();
    let mut i: usize = 0;
    while i < parts.len()
        invariant
            i <= parts@.len(),
            text@ == join(views(parts@).take(i as int), separator@),
        decreases parts@.len() - i,
    {
        proof {
            let next = views(parts@).take(i + 1);
            assert(next.drop_last() =~= views(parts@).take(i as int));
        }
        if i > 0 {
            text.append(separator);
        }
        text.append(parts[i].as_str());
        proof {
            assert(text@ =~= join(views(parts@).take(i + 1), separator@));
        }
        i = i + 1;
    }
    proof {
        assert(views(parts@).take(i as int) =~= views(parts@));
    }
    text
}

pub proof fn lemma_first_index(text: Seq<char>, c: char)
    ensures
        0 <= first_index(text, c) <= text.len(),
        first_index(text, c) < text.len() ==> text[first_index(text, c)] == c,
        forall|i: int| 0 <= i < first_index(text, c) ==> text[i] != c,
    decreases text.len(),
{
    if text.len() > 0 && text[0] != c {
        lemma_first_index(text.skip(1), c);
        assert forall|i: int| 0 <= i < first_index(text, c) implies text[i] != c by {
            if i > 0 {
                assert(text.skip(1)[i - 1] == text[i]);
            }
        }
    }
}

pub proof fn lemma_last_index(text: Seq<char>, c: char)
    ensures
        -1 <= last_index(text, c) < text.len(),
        last_index(text, c) >= 0 ==> text[last_index(text, c)] == c,
        forall|i: int| last_index(text, c) < i < text.len() ==> text[i] != c,
    decreases text.len(),
{
    if text.len() > 0 && text.last() != c {
        lemma_last_index(text.drop_last(), c);
        assert forall|i: int| last_index(text, c) < i < text.len() implies text[i] != c by {
            if i < text.len() - 1 {
                assert(text.drop_last()[i] == text[i]);
            }
        }
    }
}

/// The index of the last `c`, if there is one.
pub fn find_last(chars: &Vec<char>, c: char) -> (found: Option<usize>)
    ensures
        match found {
            Some(index) => index == last_index(chars@, c) && index < chars@.len(),
            None => last_index(chars@, c) == -1,
        },
{
    proof {
        lemma_last_index(chars@, c);
    }
    let mut i: usize = chars.len();
    while i > 0
        invariant
            i <= chars@.len(),
            -1 <= last_index(chars@, c) < chars@.len(),
            last_index(chars@, c) >= 0 ==> chars@[last_index(chars@, c)] == c,
            forall|j: int| last_index(chars@, c) < j < chars@.len() ==> chars@[j] != c,
            forall|j: int| i <= j < chars@.len() ==> chars@[j] != c,
        decreases i,
    {
        if chars[i - 1] == c {
            return Some(i - 1);
        }
        i = i - 1;
    }
    None
}

/// The index of the first `c`, if there is one.
pub fn find_first(chars: &Vec<char>, c: char) -> (found: Option<usize>)
    ensures
        match found {
            Some(index) => index == first_index(chars@, c) && index < chars@.len(),
            None => first_index(chars@, c) == chars@.len(),
        },
{
    proof {
        lemma_first_index(chars@, c);
    }
    let mut i: usize = 0;
    while i < chars.len()
        invariant
            i <= chars@.len(),
            0 <= first_index(chars@, c) <= chars@.len(),
            first_index(chars@, c) < chars@.len() ==> chars@[first_index(chars@, c)] == c,
            forall|j: int| 0 <= j < first_index(chars@, c) ==> chars@[j] != c,
            forall|j: int| 0 <= j < i ==> chars@[j] != c,
        decreases chars@.len() - i,
    {
        if chars[i] == c {
            return Some(i);
        }
        i = i + 1;
    }
    None
}

/// The decimal numeral of `n`.
pub fn decimal_text(n: u64) -> (text: String)
    ensures
        text@ == decimal(n as nat),
    decreases n,
{
    if n < 10 {
        let mut text: String = String::new();
        text.push((48u8 + n as u8) as char);
        proof {
            assert(text@ =~= decimal(n as nat));
        }
        text
    } else {
        let mut text = decimal_text(n / 10);
        text.push((48u8 + (n % 10) as u8) as char);
        text
    }
}

/// The decimal numeral of `n`, signed.
pub fn signed_decimal_text(n: i64) -> (text: String)
    requires
        n > i64::MIN,
    ensures
        text@ == signed_decimal(n as int),
{
    if n < 0 {
        let mut text: String = String::new();
        text.push('-');
        let digits = decimal_text((-n) as u64);
        text.append(digits.as_str());
        proof {
            assert(text@ =~= seq!['-'] + decimal((-n) as nat));
        }
        text
    } else {
        decimal_text(n as u64)
    }
}

pub fn cat2(a: &str, b: &str) -> (text: String)
    ensures
        text@ == a@ + b@,
{
    let mut text: String = a.to_owned();
    text.append(b);
    text
}

pub fn cat3(a: &str, b: &str, c: &str) -> (text: String)
    ensures
        text@ == a@ + b@ + c@,
{
    let mut text: String = a.to_owned();
    text.append(b);
    text.append(c);
    text
}

pub fn cat4(a: &str, b: &str, c: &str, d: &str) -> (text: String)
    ensures
        text@ == a@ + b@ + c@ + d@,
{
    let mut text: String = a.to_owned();
    text.append(b);
    text.append(c);
    text.append(d);
    text
}

pub fn cat5(a: &str, b: &str, c: &str, d: &str, e: &str) -> (text: String)
    ensures
        text@ == a@ + b@ + c@ + d@ + e@,
{
    let mut text: String = a.to_owned();
    text.append(b);
    text.append(c);
    text.append(d);
    text.append(e);
    text
}

/// A copy of a list of strings.
pub fn same_list(left: &Vec<String>, right: &Vec<String>) -> (same: bool)
    ensures
        same == (views(left@) == views(right@)),
{
    if left.len() != right.len() {
        proof {
            assert(views(left@).len() == left@.len());
            assert(views(right@).len() == right@.len());
        }
        return false;
    }
    let mut i: usize = 0;
    while i < left.len()
        invariant
            i <= left@.len(),
            left@.len() == right@.len(),
            forall|j: int| 0 <= j < i ==> left@[j]@ == right@[j]@,
        decreases left@.len() - i,
    {
        if !same_text(left[i].as_str(), right[i].as_str()) {
            proof {
                assert(views(left@)[i as int] != views(right@)[i as int]);
            }
            return false;
        }
        i = i + 1;
    }
    proof {
        assert(views(left@) =~= views(right@));
    }
    true
}

pub fn clone_list(list: &Vec<String>) -> (copy: Vec<String>)
    ensures
        copy@ == list@,
{
    let mut copy: Vec<String> = Vec::new();
    let mut i: usize = 0;
    while i < list.len()
        invariant
            i <= list@.len(),
            copy@ == list@.take(i as int),
        decreases list@.len() - i,
    {
        proof {
            assert(list@.take(i + 1) == list@.take(i as int).push(list@[i as int]));
        }
        copy.push(list[i].clone());
        i = i + 1;
    }
    proof {
        assert(list@.take(i as int) == list@);
    }
    copy
}

pub fn clone_option(text: &Option<String>) -> (copy: Option<String>)
    ensures
        copy == *text,
{
    match text {
        Some(inner) => Some(inner.clone()),
        None => None,
    }
}

/// What an optional string holds.
pub open spec fn view_option(text: Option<String>) -> Option<Seq<char>> {
    match text {
        Some(inner) => Some(inner@),
        None => None,
    }
}

pub fn same_option(left: &Option<String>, right: &Option<String>) -> (same: bool)
    ensures
        same == (view_option(*left) == view_option(*right)),
{
    match (left, right) {
        (Some(a), Some(b)) => same_text(a.as_str(), b.as_str()),
        (None, None) => true,
        _ => false,
    }
}

/// Leaving digits out at the end never raises the value.
pub proof fn lemma_digits_value_prefix(digits: Seq<char>, len: int)
    requires
        0 <= len <= digits.len(),
        all_digits(digits),
    ensures
        digits_value(digits.take(len)) <= digits_value(digits),
    decreases digits.len(),
{
    if len < digits.len() {
        let shorter = digits.drop_last();
        assert(all_digits(shorter)) by {
            assert forall|i: int| 0 <= i < shorter.len() implies is_digit(#[trigger] shorter[i]) by {
                assert(shorter[i] == digits[i]);
            }
        }
        lemma_digits_value_prefix(shorter, len);
        assert(shorter.take(len) =~= digits.take(len));
        assert(is_digit(digits[digits.len() - 1]));
    } else {
        assert(digits.take(len) =~= digits);
    }
}

/// The value of the digits `chars[from..]`, where there is at least one of them, nothing else
/// stands there and the value does not exceed `maximum`.
pub open spec fn number_within(digits: Seq<char>, maximum: nat) -> Option<nat> {
    if digits.len() > 0 && all_digits(digits) && digits_value(digits) <= maximum {
        Some(digits_value(digits))
    } else {
        None
    }
}

pub fn parse_number(chars: &Vec<char>, from: usize, maximum: u32) -> (number: Option<u32>)
    requires
        from <= chars@.len(),
    ensures
        match number {
            Some(n) => number_within(chars@.skip(from as int), maximum as nat) == Some(n as nat),
            None => number_within(chars@.skip(from as int), maximum as nat) is None,
        },
{
    let ghost digits = chars@.skip(from as int);
    if from == chars.len() {
        return None;
    }
    let mut value: u64 = 0;
    let mut i: usize = from;
    while i < chars.len()
        invariant
            from <= i <= chars@.len(),
            from < chars@.len(),
            digits == chars@.skip(from as int),
            all_digits(digits.take(i - from)),
            value == digits_value(digits.take(i - from)),
            value <= maximum,
        decreases chars@.len() - i,
    {
        let c = chars[i];
        let ghost k = i - from;
        proof {
            assert(digits[k] == c);
            assert(digits.take(k + 1).drop_last() =~= digits.take(k));
        }
        if !char_is_digit(c) {
            return None;
        }
        let digit: u64 = (c as u32 - 48) as u64;
        value = value * 10 + digit;
        proof {
            assert(all_digits(digits.take(k + 1))) by {
                assert forall|j: int| 0 <= j < k + 1 implies is_digit(#[trigger] digits.take(k + 1)[j]) by {
                    if j < k {
                        assert(digits.take(k)[j] == digits.take(k + 1)[j]);
                    }
                }
            }
        }
        if value > maximum as u64 {
            proof {
                if all_digits(digits) {
                    lemma_digits_value_prefix(digits, k + 1);
                }
            }
            return None;
        }
        i = i + 1;
    }
    proof {
        assert(digits.take(i - from) =~= digits);
    }
    Some(value as u32)
}

/// The text that `fmt::Debug` gives for a string: quoted, with escapes.
pub uninterp spec fn debug_form(text: Seq<char>) -> Seq<char>;

/// `fmt::Debug` for `str` depends on the text alone; its escapes are not spelled out here.
#[verifier::external_body]
pub(crate) fn debug_text(text: &str) -> (shown: String)
    ensures
        shown@ == debug_form(text@),
{
    format!("{:?}", text)
}

/// The text that `str::to_lowercase` gives, by the Unicode lower-case mappings.
pub uninterp spec fn unicode_lower(text: Seq<char>) -> Seq<char>;

/// `str::to_lowercase` depends on the text alone; the Unicode tables are not spelled out here.
#[verifier::external_body]
pub(crate) fn lowercase(text: &str) -> (lowered: String)
    ensures
        lowered@ == unicode_lower(text@),
{
    text.to_lowercase()
}

/// What follows `prefix`, where `text` begins with it.
pub open spec fn without_prefix(text: Seq<char>, prefix: Seq<char>) -> Option<Seq<char>> {
    if begins(text, prefix) {
        Some(text.skip(prefix.len() as int))
    } else {
        None
    }
}

pub fn strip_prefix(text: &str, prefix: &str) -> (rest: Option<String>)
    ensures
        match rest {
            Some(tail) => without_prefix(text@, prefix@) == Some(tail@),
            None => without_prefix(text@, prefix@) is None,
        },
{
    if starts_with(text, prefix) {
        let chars = chars_of(text);
        let count: usize = chars.len();
        let skipped: usize = chars_of(prefix).len();
        let tail = string_of(&chars, skipped, count);
        proof {
            assert(tail@ =~= text@.skip(prefix@.len() as int));
        }
        Some(tail)
    } else {
        None
    }
}

/// The text that `String::from_utf8_lossy` gives.
pub uninterp spec fn utf8_lossy(bytes: Seq<u8>) -> Seq<char>;

/// `String::from_utf8_lossy` depends on the bytes alone and decodes valid UTF-8 as it is. How
/// invalid sequences are replaced is not spelled out here.
#[verifier::external_body]
pub(crate) fn lossy_text(bytes: &[u8]) -> (shown: String)
    ensures
        shown@ == utf8_lossy(bytes@),
        vstd::utf8::valid_utf8(bytes@) ==> shown@ == vstd::utf8::decode_utf8(bytes@),
{
    String::from_utf8_lossy(bytes).into_owned()
}

/// A numeral of at least three digits, filled up with zeros.
pub open spec fn padded3(n: nat) -> Seq<char> {
    if n < 10 {
        "00"@ + decimal(n)
    } else if n < 100 {
        "0"@ + decimal(n)
    } else {
        decimal(n)
    }
}

pub fn padded3_text(n: u64) -> (text: String)
    ensures
        text@ == padded3(n as nat),
{
    let digits = decimal_text(n);
    if n < 10 {
        cat2("00", digits.as_str())
    } else if n < 100 {
        cat2("0", digits.as_str())
    } else {
        digits
    }
}

pub open spec fn is_brace(c: char) -> bool {
    c == '{' || c == '}'
}

/// `text` without the braces at its start.
pub open spec fn trim_left_braces(text: Seq<char>) -> Seq<char>
    decreases text.len(),
{
    if text.len() > 0 && is_brace(text[0]) {
        trim_left_braces(text.skip(1))
    } else {
        text
    }
}

/// `text` without the braces at its end.
pub open spec fn trim_right_braces(text: Seq<char>) -> Seq<char>
    decreases text.len(),
{
    if text.len() > 0 && is_brace(text.last()) {
        trim_right_braces(text.drop_last())
    } else {
        text
    }
}

/// `text` without the braces at both ends.
pub open spec fn trimmed_braces(text: Seq<char>) -> Seq<char> {
    trim_right_braces(trim_left_braces(text))
}

pub fn trim_braces(text: &str) -> (trimmed: String)
    ensures
        trimmed@ == trimmed_braces(text@),
{
    let chars = chars_of(text);
    let mut from: usize = 0;
    let count: usize = chars.len();
    proof {
        assert(chars@.skip(0) =~= text@);
    }
    while from < count && (chars[from] == '{' || chars[from] == '}')
        invariant
            from <= count == chars@.len(),
            trim_left_braces(text@) == trim_left_braces(chars@.skip(from as int)),
        decreases count - from,
    {
        proof {
            assert(chars@.skip(from as int).skip(1) =~= chars@.skip(from + 1));
        }
        from = from + 1;
    }
    let ghost left = chars@.skip(from as int);
    proof {
        assert(trim_left_braces(text@) == left);
        assert(chars@.subrange(from as int, count as int) =~= left);
    }
    let mut to: usize = count;
    while to > from && (chars[to - 1] == '{' || chars[to - 1] == '}')
        invariant
            from <= to <= count == chars@.len(),
            trim_right_braces(left) == trim_right_braces(chars@.subrange(from as int, to as int)),
        decreases to - from,
    {
        proof {
            assert(chars@.subrange(from as int, to as int).drop_last() =~= chars@.subrange(
                from as int,
                to - 1,
            ));
        }
        to = to - 1;
    }
    string_of(&chars, from, to)
}

/// Whether both are the same identifier up to letter case and enclosing braces.
pub open spec fn same_identifier(left: Seq<char>, right: Seq<char>) -> bool {
    same_ignoring_case(trimmed_braces(left), trimmed_braces(right))
}

pub fn eq_identifier(left: &str, right: &str) -> (same: bool)
    ensures
        same == same_identifier(left@, right@),
{
    let left = trim_braces(left);
    let right = trim_braces(right);
    eq_ignoring_case(left.as_str(), right.as_str())
}

proof fn lemma_take_count(list: Seq<Seq<char>>, k: int)
    requires
        0 <= k < list.len(),
    ensures
        list.take(k + 1).to_multiset() == list.take(k).to_multiset().insert(list[k]),
{
    assert(list.take(k + 1) =~= list.take(k).push(list[k]));
    list.take(k).to_multiset_ensures();
}

/// The multiset of a sequence contains that of its beginning.
proof fn lemma_take_subset(list: Seq<Seq<char>>, k: int, item: Seq<char>)
    requires
        0 <= k <= list.len(),
    ensures
        list.take(k).to_multiset().count(item) <= list.to_multiset().count(item),
    decreases list.len() - k,
{
    if k < list.len() {
        lemma_take_count(list, k);
        lemma_take_subset(list, k + 1, item);
    } else {
        assert(list.take(k) =~= list);
    }
}

/// Whether two lists hold the same texts the same number of times, in whatever order.
pub fn same_collection(left: &Vec<String>, right: &Vec<String>) -> (same: bool)
    ensures
        same == (views(left@).to_multiset() == views(right@).to_multiset()),
{
    let mut rest = clone_list(right);
    let mut i: usize = 0;
    let ghost l = views(left@);
    let ghost r = views(right@);
    proof {
        assert(views(rest@) =~= r);
        assert(l.take(0).to_multiset() =~= vstd::multiset::Multiset::empty()) by {
            assert(l.take(0) =~= Seq::<Seq<char>>::empty());
            Seq::<Seq<char>>::empty().to_multiset_ensures();
        }
        assert(l.take(0).to_multiset().add(views(rest@).to_multiset()) =~= r.to_multiset());
    }
    while i < left.len()
        invariant
            i <= left@.len(),
            l == views(left@),
            r == views(right@),
            l.take(i as int).to_multiset().add(views(rest@).to_multiset()) == r.to_multiset(),
        decreases left@.len() - i,
    {
        let wanted = left[i].as_str();
        let mut k: usize = 0;
        while k < rest.len() && !same_text(rest[k].as_str(), wanted)
            invariant
                k <= rest@.len(),
                forall|j: int| 0 <= j < k ==> #[trigger] views(rest@)[j] != wanted@,
            decreases rest@.len() - k,
        {
            k = k + 1;
        }
        proof {
            lemma_take_count(l, i as int);
        }
        if k == rest.len() {
            proof {
                let item = wanted@;
                assert(l[i as int] == item);
                views(rest@).to_multiset_ensures();
                if views(rest@).to_multiset().count(item) > 0 {
                    assert(views(rest@).contains(item));
                    let j = choose|j: int| 0 <= j < views(rest@).len() && views(rest@)[j] == item;
                    assert(false);
                }
                lemma_take_subset(l, i + 1, item);
                assert(r.to_multiset().count(item) == l.take(i as int).to_multiset().count(item));
                assert(l.to_multiset().count(item) > r.to_multiset().count(item));
            }
            return false;
        }
        let ghost before = rest@;
        rest.remove(k);
        proof {
            assert(views(rest@) =~= views(before).remove(k as int));
            views(before).to_multiset_ensures();
            assert(views(before).remove(k as int).to_multiset() =~= views(before).to_multiset().remove(
                views(before)[k as int],
            ));
            assert(l.take(i + 1).to_multiset().add(views(rest@).to_multiset()) =~= r.to_multiset());
        }
        i = i + 1;
    }
    proof {
        assert(l.take(i as int) =~= l);
        views(rest@).to_multiset_ensures();
        r.to_multiset_ensures();
        l.to_multiset_ensures();
        if rest@.len() == 0 {
            assert(views(rest@) =~= Seq::<Seq<char>>::empty());
            assert(views(rest@).to_multiset() =~= vstd::multiset::Multiset::empty());
            assert(l.to_multiset() =~= r.to_multiset());
        } else {
            let item = views(rest@)[0];
            assert(views(rest@).contains(item));
            assert(views(rest@).to_multiset().count(item) > 0);
            assert(l.to_multiset().count(item) < r.to_multiset().count(item));
        }
    }
    rest.len() == 0
}

/// Two characters are the same letter, or the same character.
pub open spec fn same_letter(a: char, b: char) -> bool {
    ||| a == b
    ||| 'a' <= a <= 'z' && a as int == b as int + 32
    ||| 'a' <= b <= 'z' && b as int == a as int + 32
}

/// Two texts are equal up to letter case exactly where they have the same length and the same letter
/// at every place.
pub proof fn letter_case_is_all_that_is_ignored(left: Seq<char>, right: Seq<char>)
    ensures
        same_ignoring_case(left, right) <==> left.len() == right.len() && (forall|i: int|
            0 <= i < left.len() ==> same_letter(#[trigger] left[i], right[i])),
{
    if same_ignoring_case(left, right) {
        assert(lower(left).len() == left.len() && lower(right).len() == right.len());
        assert forall|i: int| 0 <= i < left.len() implies same_letter(#[trigger] left[i], right[i]) by {
            assert(lower(left)[i] == ascii_lower(left[i]));
            assert(lower(right)[i] == ascii_lower(right[i]));
        }
    }
    if left.len() == right.len() && (forall|i: int|
        0 <= i < left.len() ==> same_letter(#[trigger] left[i], right[i])) {
        assert forall|i: int| 0 <= i < left.len() implies lower(left)[i] == lower(right)[i] by {
            assert(same_letter(left[i], right[i]));
        }
        assert(lower(left) =~= lower(right));
    }
}

/// `shown` is `word`, a word of lower-case letters, in whatever letter case.
pub open spec fn spells(shown: Seq<char>, word: Seq<char>) -> bool {
    &&& shown.len() == word.len()
    &&& forall|i: int|
        0 <= i < word.len() ==> (#[trigger] shown[i] == word[i] || shown[i] as int == word[i] as int
            - 32)
}

/// What is in lower case is spelled by exactly the texts whose lower-case form it is.
pub proof fn words_are_recognised_in_any_case(shown: Seq<char>, word: Seq<char>)
    requires
        forall|i: int| 0 <= i < word.len() ==> 'a' <= #[trigger] word[i] <= 'z',
    ensures
        lower(shown) == word <==> spells(shown, word),
        same_ignoring_case(shown, word) <==> spells(shown, word),
{
    assert(lower(word) =~= word) by {
        assert forall|i: int| 0 <= i < word.len() implies lower(word)[i] == word[i] by {
            assert('a' <= word[i] <= 'z');
        }
    }
    if lower(shown) == word {
        assert(lower(shown).len() == shown.len());
        assert forall|i: int| 0 <= i < word.len() implies (#[trigger] shown[i] == word[i]
            || shown[i] as int == word[i] as int - 32) by {
            assert(lower(shown)[i] == ascii_lower(shown[i]));
        }
    }
    if spells(shown, word) {
        assert forall|i: int| 0 <= i < word.len() implies lower(shown)[i] == word[i] by {
            assert('a' <= word[i] <= 'z');
            assert(shown[i] == word[i] || shown[i] as int == word[i] as int - 32);
        }
        assert(lower(shown) =~= word);
    }
}

/// Which characters count as digits, letters, control characters and white space.
pub proof fn character_classes(c: char)
    ensures
        is_digit(c) <==> 48 <= c as u32 <= 57,
        is_hex_digit(c) <==> 48 <= c as u32 <= 57 || 65 <= c as u32 <= 70 || 97 <= c as u32 <= 102,
        is_ascii_letter(c) <==> 65 <= c as u32 <= 90 || 97 <= c as u32 <= 122,
        is_ascii_alphanumeric(c) <==> is_digit(c) || is_ascii_letter(c),
        is_control(c) <==> c as u32 <= 31 || 127 <= c as u32 <= 159,
        c as u32 <= 127 ==> (is_whitespace(c) <==> c == ' ' || 9 <= c as u32 <= 13),
        is_whitespace(c) ==> !is_ascii_alphanumeric(c),
        ascii_lower(c) != c ==> ascii_upper(ascii_lower(c)) == c,
        ascii_upper(c) != c ==> ascii_lower(ascii_upper(c)) == c,
        ascii_lower(c) != c <==> 65 <= c as u32 <= 90,
        ascii_upper(c) != c <==> 97 <= c as u32 <= 122,
{
}

/// An upper-case form is some word exactly where the text is that word up to letter case.
pub proof fn raised_words(shown: Seq<char>, word: Seq<char>)
    requires
        forall|i: int| 0 <= i < word.len() ==> !('a' <= #[trigger] word[i] <= 'z'),
    ensures
        upper(shown) == word <==> shown.len() == word.len() && (forall|i: int|
            0 <= i < word.len() ==> same_letter(#[trigger] shown[i], word[i])),
{
    if upper(shown) == word {
        assert(upper(shown).len() == shown.len());
        assert forall|i: int| 0 <= i < word.len() implies same_letter(#[trigger] shown[i], word[i]) by {
            assert(upper(shown)[i] == ascii_upper(shown[i]));
        }
    }
    if shown.len() == word.len() && (forall|i: int|
        0 <= i < word.len() ==> same_letter(#[trigger] shown[i], word[i])) {
        assert forall|i: int| 0 <= i < word.len() implies upper(shown)[i] == word[i] by {
            assert(same_letter(shown[i], word[i]));
            assert(!('a' <= word[i] <= 'z'));
        }
        assert(upper(shown) =~= word);
    }
}

/// The pieces of a text hold no separator, and put together with it they are the text again.
pub proof fn pieces_make_up_the_text(shown: Seq<char>, separator: char)
    ensures
        split(shown, separator).len() > 0,
        join(split(shown, separator), seq![separator]) == shown,
        forall|k: int|
            0 <= k < split(shown, separator).len() ==> !(#[trigger] split(
                shown,
                separator,
            )[k]).contains(separator),
    decreases shown.len(),
{
    let pieces = split(shown, separator);
    if shown.len() == 0 {
        assert(shown =~= Seq::<char>::empty());
    } else {
        let before = split(shown.drop_last(), separator);
        pieces_make_up_the_text(shown.drop_last(), separator);
        assert(shown =~= shown.drop_last().push(shown.last()));
        if shown.last() == separator {
            assert(pieces.drop_last() =~= before);
            assert(join(pieces, seq![separator]) =~= join(before, seq![separator]) + seq![separator]);
            assert(join(pieces, seq![separator]) =~= shown);
            assert forall|k: int| 0 <= k < pieces.len() implies !(#[trigger] pieces[k]).contains(
                separator,
            ) by {
                if k < before.len() {
                    assert(pieces[k] == before[k]);
                }
            }
        } else {
            assert(pieces.drop_last() =~= before.drop_last());
            let last = before.last();
            assert(pieces.last() == last.push(shown.last()));
            if before.len() == 1 {
                assert(join(pieces, seq![separator]) == pieces[0]);
            } else {
                assert(join(pieces, seq![separator]) == join(before.drop_last(), seq![separator])
                    + seq![separator] + pieces.last());
            }
            assert(join(pieces, seq![separator]) =~= shown);
            assert forall|k: int| 0 <= k < pieces.len() implies !(#[trigger] pieces[k]).contains(
                separator,
            ) by {
                if k < before.len() - 1 {
                    assert(pieces[k] == before[k]);
                } else {
                    assert(!before[before.len() - 1].contains(separator));
                    if pieces[k].contains(separator) {
                        let i = choose|i: int| 0 <= i < pieces[k].len() && pieces[k][i] == separator;
                        assert(i < last.len());
                        assert(last[i] == separator);
                    }
                }
            }
        }
    }
}

/// Braces are trimmed from both ends of a text, and nothing else is.
pub proof fn braces_are_trimmed_from_both_ends(inner: Seq<char>)
    requires
        inner.len() > 0,
        inner[0] != '{' && inner[0] != '}',
        inner.last() != '{' && inner.last() != '}',
    ensures
        trimmed_braces(inner) == inner,
        trimmed_braces(seq!['{'] + inner + seq!['}']) == inner,
{
    let held = seq!['{'] + inner + seq!['}'];
    let rest = inner + seq!['}'];
    assert(held.skip(1) =~= rest);
    assert(rest[0] == inner[0]);
    assert(trim_left_braces(rest) == rest);
    assert(trim_left_braces(held) == rest);
    assert(rest.drop_last() =~= inner);
    assert(trim_right_braces(inner) == inner);
}

/// A negative number is shown by a minus sign before the numeral of its magnitude.
pub proof fn signed_numerals(n: nat)
    ensures
        signed_decimal(n as int) == decimal(n),
        n > 0 ==> signed_decimal(-(n as int)) == seq!['-'] + decimal(n),
{
}

} // verus!
