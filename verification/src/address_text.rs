//! What is shown of an address is read back as the same address.

use vstd::prelude::*;
use vstd::string::*;

use crate::backend;
use crate::backend::NetworkView;
use crate::net;
use crate::text;

verus! {

// ---------------------------------------------------------------------------------------------
// Splitting
// ---------------------------------------------------------------------------------------------

/// `c` does not occur in `shown`.
pub open spec fn free(shown: Seq<char>, c: char) -> bool {
    forall|i: int| 0 <= i < shown.len() ==> #[trigger] shown[i] != c
}

/// What has no separator in it goes to the last piece.
pub proof fn lemma_split_append(shown: Seq<char>, tail: Seq<char>, separator: char)
    requires
        free(tail, separator),
    ensures
        text::split(shown + tail, separator) == text::split(shown, separator).drop_last().push(
            text::split(shown, separator).last() + tail,
        ),
    decreases tail.len(),
{
    text::lemma_split_nonempty(shown, separator);
    if tail.len() == 0 {
        assert(shown + tail =~= shown);
        assert(text::split(shown, separator).last() + tail =~= text::split(shown, separator).last());
        assert(text::split(shown, separator).drop_last().push(text::split(shown, separator).last())
            =~= text::split(shown, separator));
    } else {
        let shorter = tail.drop_last();
        assert forall|i: int| 0 <= i < shorter.len() implies #[trigger] shorter[i] != separator by {
            assert(shorter[i] == tail[i]);
        }
        lemma_split_append(shown, shorter, separator);
        let whole = shown + tail;
        assert(whole.drop_last() =~= shown + shorter);
        assert(whole.last() == tail[tail.len() - 1]);
        let before = text::split(shown + shorter, separator);
        let first = text::split(shown, separator);
        assert(before.drop_last() =~= first.drop_last());
        assert(before.last() =~= first.last() + shorter);
        assert((first.last() + shorter).push(tail.last()) =~= first.last() + tail);
    }
}

proof fn lemma_split_free(shown: Seq<char>, separator: char)
    requires
        free(shown, separator),
    ensures
        text::split(shown, separator) == seq![shown],
{
    let empty = Seq::<char>::empty();
    lemma_split_append(empty, shown, separator);
    assert(empty + shown =~= shown);
    assert(text::split(empty, separator) =~= seq![empty]);
    assert(seq![empty].drop_last().push(empty + shown) =~= seq![shown]);
}

/// A separator between two texts keeps the pieces of the first and begins a new one.
proof fn lemma_split_at(first: Seq<char>, last: Seq<char>, separator: char)
    requires
        free(last, separator),
    ensures
        text::split(first.push(separator) + last, separator) == text::split(first, separator).push(last),
{
    let joined = first.push(separator);
    assert(joined.drop_last() =~= first);
    let pieces = text::split(first, separator).push(Seq::empty());
    assert(text::split(joined, separator) == pieces);
    lemma_split_append(joined, last, separator);
    assert(pieces.drop_last() =~= text::split(first, separator));
    assert(Seq::<char>::empty() + last =~= last);
}

/// Joined parts are split into the parts again.
pub proof fn lemma_split_join(parts: Seq<Seq<char>>, separator: char)
    requires
        parts.len() > 0,
        forall|i: int| 0 <= i < parts.len() ==> free(#[trigger] parts[i], separator),
    ensures
        text::split(text::join(parts, seq![separator]), separator) == parts,
    decreases parts.len(),
{
    if parts.len() == 1 {
        lemma_split_free(parts[0], separator);
        assert(parts =~= seq![parts[0]]);
    } else {
        let front = parts.drop_last();
        assert forall|i: int| 0 <= i < front.len() implies free(#[trigger] front[i], separator) by {
            assert(front[i] == parts[i]);
        }
        lemma_split_join(front, separator);
        let shown = text::join(front, seq![separator]);
        assert(free(parts[parts.len() - 1], separator));
        lemma_split_at(shown, parts.last(), separator);
        assert(shown + seq![separator] =~= shown.push(separator));
        assert(front.push(parts.last()) =~= parts);
    }
}

// ---------------------------------------------------------------------------------------------
// Numerals
// ---------------------------------------------------------------------------------------------

/// A decimal numeral has digits only, begins with zero for zero alone, and stands for its number.
pub proof fn lemma_decimal(n: nat)
    ensures
        text::decimal(n).len() > 0,
        text::all_digits(text::decimal(n)),
        text::digits_value(text::decimal(n)) == n,
        n > 0 ==> text::decimal(n)[0] != '0',
        n < 10 ==> text::decimal(n).len() == 1,
        n < 100 ==> text::decimal(n).len() <= 2,
        n < 1000 ==> text::decimal(n).len() <= 3,
    decreases n,
{
    if n < 10 {
        let digits = text::decimal(n);
        assert(digits.drop_last() =~= Seq::<char>::empty());
        assert(text::digits_value(digits.drop_last()) == 0);
    } else {
        lemma_decimal(n / 10);
        let shorter = text::decimal(n / 10);
        let digits = text::decimal(n);
        assert(digits.drop_last() =~= shorter);
        assert(digits[0] == shorter[0]);
        assert forall|i: int| 0 <= i < digits.len() implies text::is_digit(#[trigger] digits[i]) by {
            if i < shorter.len() {
                assert(digits[i] == shorter[i]);
            }
        }
    }
}

/// A decimal numeral is free of everything that is not a digit.
proof fn lemma_decimal_free(n: nat, c: char)
    requires
        !text::is_digit(c),
    ensures
        free(text::decimal(n), c),
{
    lemma_decimal(n);
}

proof fn lemma_octet(n: nat)
    requires
        n < 256,
    ensures
        net::octet_value(text::decimal(n)) == Some(n),
{
    lemma_decimal(n);
    if n >= 10 {
        assert(text::decimal(n)[0] != '0');
    }
}

/// The text of an IPv4 address is read back as the address.
pub proof fn shown_ipv4_addresses_read_back(bits: u32)
    ensures
        net::ipv4_value(net::ipv4_text(bits)) == Some(bits as nat),
{
    reveal_strlit(".");
    let a = text::decimal(net::octet(bits, 0));
    let b = text::decimal(net::octet(bits, 1));
    let c = text::decimal(net::octet(bits, 2));
    let d = text::decimal(net::octet(bits, 3));
    lemma_octet(net::octet(bits, 0));
    lemma_octet(net::octet(bits, 1));
    lemma_octet(net::octet(bits, 2));
    lemma_octet(net::octet(bits, 3));
    lemma_decimal_free(net::octet(bits, 0), '.');
    lemma_decimal_free(net::octet(bits, 1), '.');
    lemma_decimal_free(net::octet(bits, 2), '.');
    lemma_decimal_free(net::octet(bits, 3), '.');
    lemma_split_free(a, '.');
    lemma_split_at(a, b, '.');
    lemma_split_at(a.push('.') + b, c, '.');
    lemma_split_at((a.push('.') + b).push('.') + c, d, '.');
    assert(net::ipv4_text(bits) =~= ((a.push('.') + b).push('.') + c).push('.') + d);
    assert(text::split(net::ipv4_text(bits), '.') =~= seq![a, b, c, d]);
    assert(net::from_octets(
        net::octet(bits, 0),
        net::octet(bits, 1),
        net::octet(bits, 2),
        net::octet(bits, 3),
    ) == bits) by {
        lemma_octets_make_the_address(bits);
    }
}

proof fn lemma_octets_make_the_address(bits: u32)
    ensures
        net::from_octets(
            net::octet(bits, 0),
            net::octet(bits, 1),
            net::octet(bits, 2),
            net::octet(bits, 3),
        ) == bits,
{
    let high = bits as int / 0x1_0000;
    let middle = bits as int / 0x100;
    assert(bits as int / 0x100_0000 == high / 0x100);
    assert(high == middle / 0x100);
}

/// A hexadecimal numeral has hexadecimal digits only and stands for its number.
proof fn lemma_hexadecimal(n: nat)
    ensures
        net::hexadecimal(n).len() > 0,
        text::all_hex(net::hexadecimal(n)),
        net::hex_value(net::hexadecimal(n)) == n,
        n < 0x10 ==> net::hexadecimal(n).len() == 1,
        n < 0x100 ==> net::hexadecimal(n).len() <= 2,
        n < 0x1000 ==> net::hexadecimal(n).len() <= 3,
        n < 0x1_0000 ==> net::hexadecimal(n).len() <= 4,
    decreases n,
{
    let digits = net::hexadecimal(n);
    if n < 16 {
        assert(digits.drop_last() =~= Seq::<char>::empty());
        assert(net::hex_value(digits.drop_last()) == 0);
    } else {
        lemma_hexadecimal(n / 16);
        let shorter = net::hexadecimal(n / 16);
        assert(digits.drop_last() =~= shorter);
        assert forall|i: int| 0 <= i < digits.len() implies text::is_hex_digit(#[trigger] digits[i]) by {
            if i < shorter.len() {
                assert(digits[i] == shorter[i]);
            }
        }
    }
}

proof fn lemma_group(group: u16)
    ensures
        net::group_value(net::hexadecimal(group as nat)) == Some(group as nat),
        free(net::hexadecimal(group as nat), ':'),
        free(net::hexadecimal(group as nat), '.'),
        free(net::hexadecimal(group as nat), '/'),
        net::hexadecimal(group as nat).len() > 0,
{
    lemma_hexadecimal(group as nat);
}

// ---------------------------------------------------------------------------------------------
// Groups
// ---------------------------------------------------------------------------------------------

spec fn numerals(groups: Seq<u16>) -> Seq<Seq<char>> {
    groups.map_values(|group: u16| net::hexadecimal(group as nat))
}

proof fn lemma_groups_of(groups: Seq<u16>)
    ensures
        net::groups_of(numerals(groups)) == Some(groups),
    decreases groups.len(),
{
    if groups.len() > 0 {
        let front = groups.drop_last();
        lemma_groups_of(front);
        lemma_group(groups.last());
        assert(numerals(groups).drop_last() =~= numerals(front));
        assert(front.push(groups.last()) =~= groups);
    } else {
        assert(groups =~= Seq::<u16>::empty());
    }
}

/// No two colons side by side, and none at either end.
spec fn tight(shown: Seq<char>) -> bool {
    &&& forall|i: int|
        0 <= i && i + 1 < shown.len() ==> !(#[trigger] shown[i] == ':' && shown[i + 1] == ':')
    &&& shown.len() > 0 ==> shown[0] != ':' && shown[shown.len() - 1] != ':'
}

proof fn lemma_joined_tight(parts: Seq<Seq<char>>)
    requires
        forall|i: int| 0 <= i < parts.len() ==> free(#[trigger] parts[i], ':') && parts[i].len() > 0,
    ensures
        tight(text::join(parts, seq![':'])),
        parts.len() > 0 ==> text::join(parts, seq![':']).len() > 0,
    decreases parts.len(),
{
    if parts.len() == 1 {
        assert(free(parts[0], ':') && parts[0].len() > 0);
    } else if parts.len() > 1 {
        let front = parts.drop_last();
        assert forall|i: int| 0 <= i < front.len() implies free(#[trigger] front[i], ':')
            && front[i].len() > 0 by {
            assert(front[i] == parts[i]);
        }
        lemma_joined_tight(front);
        let head = text::join(front, seq![':']);
        let last = parts.last();
        assert(free(parts[parts.len() - 1], ':') && parts[parts.len() - 1].len() > 0);
        let shown = text::join(parts, seq![':']);
        assert(shown == head + seq![':'] + last);
        let k = head.len() as int;
        assert forall|i: int| 0 <= i && i + 1 < shown.len() implies !(#[trigger] shown[i] == ':'
            && shown[i + 1] == ':') by {
            if i + 1 < k {
                assert(shown[i] == head[i]);
                assert(shown[i + 1] == head[i + 1]);
            } else if i + 1 == k {
                assert(shown[i] == head[k - 1]);
            } else if i == k {
                assert(shown[i + 1] == last[0]);
            } else {
                assert(shown[i] == last[i - k - 1]);
            }
        }
        assert(shown[0] == head[0]);
        assert(shown[shown.len() - 1] == last[last.len() - 1]);
    }
}

/// What the groups of an address are shown as: tight, and free of dots and slashes.
proof fn lemma_groups_text(groups: Seq<u16>)
    ensures
        tight(net::groups_text(groups)),
        groups.len() > 0 ==> net::groups_text(groups).len() > 0,
        groups.len() == 0 ==> net::groups_text(groups).len() == 0,
        free(net::groups_text(groups), '.'),
        free(net::groups_text(groups), '/'),
{
    reveal_strlit(":");
    assert(":"@ =~= seq![':']);
    let parts = numerals(groups);
    assert forall|i: int| 0 <= i < parts.len() implies free(#[trigger] parts[i], ':')
        && parts[i].len() > 0 by {
        lemma_group(groups[i]);
    }
    lemma_joined_tight(parts);
    assert forall|i: int| 0 <= i < parts.len() implies free(#[trigger] parts[i], '.') by {
        lemma_group(groups[i]);
    }
    lemma_joined_free(parts, '.');
    assert forall|i: int| 0 <= i < parts.len() implies free(#[trigger] parts[i], '/') by {
        lemma_group(groups[i]);
    }
    lemma_joined_free(parts, '/');
}

proof fn lemma_joined_free(parts: Seq<Seq<char>>, c: char)
    requires
        c != ':',
        forall|i: int| 0 <= i < parts.len() ==> free(#[trigger] parts[i], c),
    ensures
        free(text::join(parts, seq![':']), c),
    decreases parts.len(),
{
    if parts.len() == 1 {
        assert(free(parts[0], c));
    } else if parts.len() > 1 {
        let front = parts.drop_last();
        assert forall|i: int| 0 <= i < front.len() implies free(#[trigger] front[i], c) by {
            assert(front[i] == parts[i]);
        }
        lemma_joined_free(front, c);
        let head = text::join(front, seq![':']);
        assert(free(parts[parts.len() - 1], c));
        lemma_free_concat(head, seq![':'], c);
        lemma_free_concat(head + seq![':'], parts.last(), c);
    }
}

proof fn lemma_free_concat(first: Seq<char>, second: Seq<char>, c: char)
    requires
        free(first, c),
        free(second, c),
    ensures
        free(first + second, c),
{
    let whole = first + second;
    assert forall|i: int| 0 <= i < whole.len() implies #[trigger] whole[i] != c by {
        if i < first.len() {
            assert(whole[i] == first[i]);
        } else {
            assert(whole[i] == second[i - first.len()]);
        }
    }
}

/// The groups that were shown are read back.
proof fn lemma_colon_groups(groups: Seq<u16>, tail: bool)
    ensures
        net::colon_groups(net::groups_text(groups), tail) == Some(groups),
{
    lemma_groups_text(groups);
    if groups.len() == 0 {
        assert(groups =~= Seq::<u16>::empty());
    } else {
        reveal_strlit(":");
        assert(":"@ =~= seq![':']);
        let parts = numerals(groups);
        assert forall|i: int| 0 <= i < parts.len() implies free(#[trigger] parts[i], ':') by {
            lemma_group(groups[i]);
        }
        lemma_split_join(parts, ':');
        lemma_groups_of(groups);
        lemma_group(groups[groups.len() - 1]);
        assert(parts.last() == net::hexadecimal(groups[groups.len() - 1] as nat));
        assert(!parts.last().contains('.'));
    }
}

// ---------------------------------------------------------------------------------------------
// IPv6 addresses
// ---------------------------------------------------------------------------------------------

/// The run that is left out lies within the groups that were looked at, and is zero.
proof fn lemma_zero_runs(segments: Seq<u16>, count: nat)
    requires
        count <= segments.len(),
    ensures
        ({
            let (start, longest, current) = net::zero_runs(segments, count);
            &&& start + longest <= count
            &&& current <= count
            &&& forall|i: int| start <= i < start + longest ==> #[trigger] segments[i] == 0
            &&& forall|i: int| count - current <= i < count ==> #[trigger] segments[i] == 0
        }),
    decreases count,
{
    if count > 0 {
        lemma_zero_runs(segments, (count - 1) as nat);
    }
}

/// The first pair of colons is the one between two tight texts.
proof fn lemma_gap_between(head: Seq<char>, tail: Seq<char>)
    requires
        tight(head),
    ensures
        net::gap_index(head + seq![':', ':'] + tail) == head.len(),
{
    let whole = head + seq![':', ':'] + tail;
    let k = head.len() as int;
    net::lemma_gap_index(whole);
    assert(whole[k] == ':');
    assert(whole[k + 1] == ':');
    let gap = net::gap_index(whole);
    if gap < k {
        assert(whole[gap] == ':' && whole[gap + 1] == ':');
        assert(whole[gap] == head[gap]);
        if gap + 1 < k {
            assert(whole[gap + 1] == head[gap + 1]);
        }
    } else if gap > k {
        assert(!(whole[k] == ':' && whole[k + 1] == ':'));
    }
}

proof fn lemma_no_gap(shown: Seq<char>)
    requires
        tight(shown),
    ensures
        net::gap_index(shown) == shown.len(),
{
    net::lemma_gap_index(shown);
}

proof fn lemma_shown_mapped(segments: Seq<u16>)
    requires
        segments.len() == 8,
        net::ipv4_mapped(segments),
    ensures
        net::ipv6_value(net::ipv6_text(segments)) == Some(segments),
{
    reveal_strlit("::ffff:");
    let bits = (segments[6] * 0x1_0000 + segments[7]) as u32;
    let dotted = net::ipv4_text(bits);
    let shown = net::ipv6_text(segments);
    assert(shown == "::ffff:"@ + dotted);
    shown_ipv4_addresses_read_back(bits);
    lemma_dotted(bits);
    let word = seq!['f', 'f', 'f', 'f'];
    let rest = word.push(':') + dotted;
    assert(shown =~= Seq::<char>::empty() + seq![':', ':'] + rest);
    lemma_gap_between(Seq::empty(), rest);
    assert(shown.take(0) =~= Seq::<char>::empty());
    assert(shown.skip(2) =~= rest);
    lemma_split_free(word, ':');
    lemma_split_at(word, dotted, ':');
    let pieces = text::split(rest, ':');
    assert(pieces =~= seq![word, dotted]);
    assert(pieces.drop_last() =~= seq![word]);
    lemma_word_group();
    let groups = net::colon_groups(rest, true);
    let found = seq![0xffffu16, segments[6], segments[7]];
    assert(groups == Some(found)) by {
        assert(net::groups_of(seq![word]) == Some(seq![0xffffu16]));
        assert(dotted.contains('.'));
        assert((bits as nat / 0x1_0000) as u16 == segments[6]);
        assert((bits as nat % 0x1_0000) as u16 == segments[7]);
        assert(seq![0xffffu16].push(segments[6]).push(segments[7]) =~= found);
    }
    assert(net::colon_groups(Seq::empty(), false) == Some(Seq::<u16>::empty()));
    let whole = Seq::<u16>::empty() + net::zero_groups(5) + found;
    assert(whole =~= segments) by {
        assert(segments.take(5) == net::zero_groups(5));
        assert forall|i: int| 0 <= i < 8 implies #[trigger] whole[i] == segments[i] by {
            if i < 5 {
                assert(segments[i] == segments.take(5)[i]);
                assert(whole[i] == net::zero_groups(5)[i]);
            } else {
                assert(whole[i] == found[i - 5]);
            }
        }
    }
}

proof fn lemma_word_group()
    ensures
        net::groups_of(seq![seq!['f', 'f', 'f', 'f']]) == Some(seq![0xffffu16]),
{
    let word = seq!['f', 'f', 'f', 'f'];
    reveal_with_fuel(net::hex_value, 5);
    let three = word.drop_last();
    let two = three.drop_last();
    let first = two.drop_last();
    assert(first.drop_last() =~= Seq::<char>::empty());
    assert(net::hex_value(first) == 15);
    assert(net::hex_value(two) == 255);
    assert(net::hex_value(three) == 4095);
    assert(net::hex_value(word) == 65535);
    let pieces = seq![word];
    assert(pieces.drop_last() =~= Seq::<Seq<char>>::empty());
    reveal_with_fuel(net::groups_of, 2);
    assert(Seq::<u16>::empty().push(0xffffu16) =~= seq![0xffffu16]);
}

/// A dotted address has a dot, and neither colons nor slashes.
proof fn lemma_dotted(bits: u32)
    ensures
        net::ipv4_text(bits).contains('.'),
        free(net::ipv4_text(bits), ':'),
        free(net::ipv4_text(bits), '/'),
{
    reveal_strlit(".");
    let a = text::decimal(net::octet(bits, 0));
    let b = text::decimal(net::octet(bits, 1));
    let c = text::decimal(net::octet(bits, 2));
    let d = text::decimal(net::octet(bits, 3));
    let shown = net::ipv4_text(bits);
    assert(shown[a.len() as int] == '.');
    lemma_dotted_free(bits, ':');
    lemma_dotted_free(bits, '/');
}

proof fn lemma_dotted_free(bits: u32, other: char)
    requires
        !text::is_digit(other),
        other != '.',
    ensures
        free(net::ipv4_text(bits), other),
{
    reveal_strlit(".");
    let a = text::decimal(net::octet(bits, 0));
    let b = text::decimal(net::octet(bits, 1));
    let c = text::decimal(net::octet(bits, 2));
    let d = text::decimal(net::octet(bits, 3));
    lemma_decimal_free(net::octet(bits, 0), other);
    lemma_decimal_free(net::octet(bits, 1), other);
    lemma_decimal_free(net::octet(bits, 2), other);
    lemma_decimal_free(net::octet(bits, 3), other);
    assert(free("."@, other));
    lemma_free_concat(a, "."@, other);
    lemma_free_concat(a + "."@, b, other);
    lemma_free_concat(a + "."@ + b, "."@, other);
    lemma_free_concat(a + "."@ + b + "."@, c, other);
    lemma_free_concat(a + "."@ + b + "."@ + c, "."@, other);
    lemma_free_concat(a + "."@ + b + "."@ + c + "."@, d, other);
}

/// The text of an IPv6 address is read back as the address.
pub proof fn shown_ipv6_addresses_read_back(segments: Seq<u16>)
    requires
        segments.len() == 8,
    ensures
        net::ipv6_value(net::ipv6_text(segments)) == Some(segments),
{
    let (start, longest, current) = net::zero_runs(segments, 8);
    let shown = net::ipv6_text(segments);
    if net::ipv4_mapped(segments) {
        lemma_shown_mapped(segments);
    } else if longest > 1 {
        lemma_zero_runs(segments, 8);
        let head = segments.take(start as int);
        let tail = segments.skip((start + longest) as int);
        reveal_strlit("::");
        assert("::"@ =~= seq![':', ':']);
        lemma_groups_text(head);
        lemma_gap_between(net::groups_text(head), net::groups_text(tail));
        let gap = net::groups_text(head).len() as int;
        assert(shown.take(gap) =~= net::groups_text(head));
        assert(shown.skip(gap + 2) =~= net::groups_text(tail));
        lemma_colon_groups(head, false);
        lemma_colon_groups(tail, true);
        let zeros = net::zero_groups((8 - head.len() - tail.len()) as nat);
        assert(head + zeros + tail =~= segments);
    } else {
        lemma_groups_text(segments);
        lemma_no_gap(shown);
        lemma_colon_groups(segments, true);
    }
}

// ---------------------------------------------------------------------------------------------
// Networks
// ---------------------------------------------------------------------------------------------

/// The text of an IPv6 address is not that of an IPv4 address.
proof fn lemma_not_dotted(segments: Seq<u16>)
    requires
        segments.len() == 8,
    ensures
        net::ipv4_value(net::ipv6_text(segments)) is None,
        free(net::ipv6_text(segments), '/'),
{
    let (start, longest, current) = net::zero_runs(segments, 8);
    let shown = net::ipv6_text(segments);
    if net::ipv4_mapped(segments) {
        reveal_strlit("::ffff:");
        reveal_strlit(".");
        let bits = (segments[6] * 0x1_0000 + segments[7]) as u32;
        lemma_dotted(bits);
        lemma_free_concat("::ffff:"@, net::ipv4_text(bits), '/');
        let a = "::ffff:"@ + text::decimal(net::octet(bits, 0));
        let b = text::decimal(net::octet(bits, 1));
        let c = text::decimal(net::octet(bits, 2));
        let d = text::decimal(net::octet(bits, 3));
        lemma_decimal_free(net::octet(bits, 0), '.');
        lemma_decimal_free(net::octet(bits, 1), '.');
        lemma_decimal_free(net::octet(bits, 2), '.');
        lemma_decimal_free(net::octet(bits, 3), '.');
        lemma_free_concat("::ffff:"@, text::decimal(net::octet(bits, 0)), '.');
        lemma_split_free(a, '.');
        lemma_split_at(a, b, '.');
        lemma_split_at(a.push('.') + b, c, '.');
        lemma_split_at((a.push('.') + b).push('.') + c, d, '.');
        assert(shown =~= ((a.push('.') + b).push('.') + c).push('.') + d);
        assert(text::split(shown, '.')[0] == a);
        assert(a.len() > 3);
    } else {
        let head = segments.take(start as int);
        let tail = segments.skip((start + longest) as int);
        reveal_strlit("::");
        lemma_groups_text(head);
        lemma_groups_text(tail);
        lemma_groups_text(segments);
        lemma_free_concat(net::groups_text(head), "::"@, '.');
        lemma_free_concat(net::groups_text(head) + "::"@, net::groups_text(tail), '.');
        lemma_free_concat(net::groups_text(head), "::"@, '/');
        lemma_free_concat(net::groups_text(head) + "::"@, net::groups_text(tail), '/');
        lemma_split_free(shown, '.');
    }
}

/// The last slash is the one before a numeral.
proof fn lemma_last_slash(address: Seq<char>, prefix: nat)
    ensures
        text::last_index(address + "/"@ + text::decimal(prefix), '/') == address.len(),
        backend::entry_address(address + "/"@ + text::decimal(prefix)) == address,
        backend::entry_prefix(address + "/"@ + text::decimal(prefix)) == Some(
            text::decimal(prefix),
        ),
{
    reveal_strlit("/");
    lemma_decimal_free(prefix, '/');
    let entry = address + "/"@ + text::decimal(prefix);
    lemma_last_index_before(address + "/"@, text::decimal(prefix), '/');
    assert((address + "/"@).last() == '/');
    assert(entry.take(address.len() as int) =~= address);
    assert(entry.skip((address.len() + 1) as int) =~= text::decimal(prefix));
}

proof fn lemma_last_index_before(first: Seq<char>, second: Seq<char>, c: char)
    requires
        free(second, c),
    ensures
        text::last_index(first + second, c) == text::last_index(first, c),
    decreases second.len(),
{
    if second.len() == 0 {
        assert(first + second =~= first);
    } else {
        let shorter = second.drop_last();
        assert forall|i: int| 0 <= i < shorter.len() implies #[trigger] shorter[i] != c by {
            assert(shorter[i] == second[i]);
        }
        lemma_last_index_before(first, shorter, c);
        let whole = first + second;
        assert(whole.drop_last() =~= first + shorter);
        assert(whole.last() == second[second.len() - 1]);
    }
}

/// The network that can stand in a list: an address of its family with a prefix that fits it.
pub open spec fn proper_network(network: NetworkView) -> bool {
    match network {
        NetworkView::V4(bits, prefix) => bits <= u32::MAX && prefix <= 32,
        NetworkView::V6(segments, prefix) => segments.len() == 8 && prefix <= 128,
    }
}

/// The text of an allowed network, as it is sent to the guest, is read back as the network.
pub proof fn shown_networks_read_back(network: NetworkView)
    requires
        proper_network(network),
    ensures
        backend::network_value(backend::network_text(network)) == Ok::<NetworkView, backend::Fault>(
            network,
        ),
{
    match network {
        NetworkView::V4(bits, prefix) => {
            shown_ipv4_addresses_read_back(bits as u32);
            lemma_last_slash(net::ipv4_text(bits as u32), prefix);
            lemma_prefix(prefix);
        },
        NetworkView::V6(segments, prefix) => {
            shown_ipv6_addresses_read_back(segments);
            lemma_not_dotted(segments);
            lemma_last_slash(net::ipv6_text(segments), prefix);
            lemma_prefix(prefix);
        },
    }
}

/// The text of an address without a prefix length.
pub open spec fn bare_text(network: NetworkView) -> Seq<char> {
    match network {
        NetworkView::V4(bits, _) => net::ipv4_text(bits as u32),
        NetworkView::V6(segments, _) => net::ipv6_text(segments),
    }
}

/// The longest prefix length that the family of a network has.
pub open spec fn full_prefix(network: NetworkView) -> nat {
    match network {
        NetworkView::V4(_, _) => 32,
        NetworkView::V6(_, _) => 128,
    }
}

/// The text of a bare address is read as the network of that address alone.
pub proof fn bare_addresses_read_with_the_full_prefix(network: NetworkView)
    requires
        proper_network(network),
    ensures
        backend::network_value(bare_text(network)) == Ok::<NetworkView, backend::Fault>(
            match network {
                NetworkView::V4(bits, _) => NetworkView::V4(bits, 32),
                NetworkView::V6(segments, _) => NetworkView::V6(segments, 128),
            },
        ),
{
    match network {
        NetworkView::V4(bits, _) => {
            shown_ipv4_addresses_read_back(bits as u32);
            lemma_dotted(bits as u32);
            lemma_no_index(net::ipv4_text(bits as u32), '/');
        },
        NetworkView::V6(segments, _) => {
            shown_ipv6_addresses_read_back(segments);
            lemma_not_dotted(segments);
            lemma_no_index(net::ipv6_text(segments), '/');
        },
    }
}

/// An address with a longer prefix length than its family has is refused.
pub proof fn longer_prefixes_are_refused(network: NetworkView, prefix: nat)
    requires
        proper_network(network),
        prefix > full_prefix(network),
    ensures
        backend::network_value(bare_text(network) + "/"@ + text::decimal(prefix)) matches Err(fault)
            && fault.stage == "request_validation"@,
{
    lemma_decimal(prefix);
    lemma_last_slash(bare_text(network), prefix);
    if prefix <= 255 {
        lemma_prefix(prefix);
    }
    match network {
        NetworkView::V4(bits, _) => {
            shown_ipv4_addresses_read_back(bits as u32);
        },
        NetworkView::V6(segments, _) => {
            shown_ipv6_addresses_read_back(segments);
            lemma_not_dotted(segments);
        },
    }
}

proof fn lemma_no_index(text: Seq<char>, c: char)
    requires
        free(text, c),
    ensures
        text::last_index(text, c) < 0,
    decreases text.len(),
{
    if text.len() > 0 {
        let shorter = text.drop_last();
        assert forall|i: int| 0 <= i < shorter.len() implies #[trigger] shorter[i] != c by {
            assert(shorter[i] == text[i]);
        }
        assert(text.last() == text[text.len() - 1]);
        lemma_no_index(shorter, c);
    }
}

proof fn lemma_prefix(prefix: nat)
    requires
        prefix <= 255,
    ensures
        net::u8_value(text::decimal(prefix)) == Some(prefix),
{
    lemma_decimal(prefix);
    assert(text::is_digit(text::decimal(prefix)[0]));
}

/// A number has one decimal numeral without leading zeros.
pub proof fn numerals_are_unique(digits: Seq<char>)
    requires
        digits.len() > 0,
        text::all_digits(digits),
        digits.len() > 1 ==> digits[0] != '0',
    ensures
        text::decimal(text::digits_value(digits)) == digits,
    decreases digits.len(),
{
    let last = digits.last();
    assert(text::is_digit(digits[digits.len() - 1]));
    let shorter = digits.drop_last();
    let value = text::digits_value(shorter);
    let digit = (last as u32 - 48) as nat;
    assert(text::digit_char(digit) == last);
    if digits.len() == 1 {
        assert(shorter =~= Seq::<char>::empty());
        assert(value == 0);
        assert(text::decimal(digit) =~= digits);
    } else {
        assert(text::all_digits(shorter)) by {
            assert forall|i: int| 0 <= i < shorter.len() implies text::is_digit(#[trigger] shorter[i]) by {
                assert(text::is_digit(digits[i]));
            }
        }
        assert(shorter[0] == digits[0]);
        numerals_are_unique(shorter);
        if value == 0 {
            assert(text::decimal(0) == shorter);
            assert(shorter[0] == text::digit_char(0));
        }
        let whole = value * 10 + digit;
        assert(whole / 10 == value && whole % 10 == digit);
        assert(text::decimal(whole) == text::decimal(value).push(last));
        assert(digits =~= shorter.push(last));
    }
}

proof fn lemma_octets_are_given_back(a: nat, b: nat, c: nat, d: nat)
    requires
        a <= 255,
        b <= 255,
        c <= 255,
        d <= 255,
    ensures
        ({
            let bits = net::from_octets(a, b, c, d);
            &&& bits <= u32::MAX
            &&& net::octet(bits as u32, 0) == a
            &&& net::octet(bits as u32, 1) == b
            &&& net::octet(bits as u32, 2) == c
            &&& net::octet(bits as u32, 3) == d
        }),
{
    let bits = net::from_octets(a, b, c, d);
    assert(bits / 0x100_0000 == a);
    assert(bits / 0x1_0000 == a * 0x100 + b);
    assert(bits / 0x100 == a * 0x1_0000 + b * 0x100 + c);
}

proof fn lemma_join_of_four(pieces: Seq<Seq<char>>)
    requires
        pieces.len() == 4,
    ensures
        text::join(pieces, seq!['.']) == pieces[0] + "."@ + pieces[1] + "."@ + pieces[2] + "."@
            + pieces[3],
{
    reveal_strlit(".");
    assert("."@ =~= seq!['.']);
    let three = pieces.drop_last();
    let two = three.drop_last();
    let one = two.drop_last();
    assert(text::join(one, seq!['.']) == pieces[0]);
    assert(text::join(two, seq!['.']) == text::join(one, seq!['.']) + seq!['.'] + pieces[1]);
    assert(text::join(three, seq!['.']) == text::join(two, seq!['.']) + seq!['.'] + pieces[2]);
}

/// No other text reads as an IPv4 address than the one that shows it.
pub proof fn ipv4_addresses_have_one_text(shown: Seq<char>)
    ensures
        net::ipv4_value(shown) matches Some(bits) ==> bits <= u32::MAX && net::ipv4_text(bits as u32)
            == shown,
{
    match net::ipv4_value(shown) {
        Some(bits) => {
            text::pieces_make_up_the_text(shown, '.');
            let pieces = text::split(shown, '.');
            let (p, q, r, s) = (pieces[0], pieces[1], pieces[2], pieces[3]);
            numerals_are_unique(p);
            numerals_are_unique(q);
            numerals_are_unique(r);
            numerals_are_unique(s);
            let a = net::octet_value(p)->0;
            let b = net::octet_value(q)->0;
            let c = net::octet_value(r)->0;
            let d = net::octet_value(s)->0;
            assert(a <= 255 && b <= 255 && c <= 255 && d <= 255);
            lemma_octets_are_given_back(a, b, c, d);
            lemma_join_of_four(pieces);
        },
        None => {},
    }
}

/// A numeral within a bound is taken for its number, and one beyond the bound is refused.
pub proof fn numerals_within_their_bound(n: nat, maximum: nat)
    ensures
        n <= maximum ==> text::number_within(text::decimal(n), maximum) == Some(n),
        n > maximum ==> text::number_within(text::decimal(n), maximum) is None,
        n <= 255 ==> net::u8_value(text::decimal(n)) == Some(n),
        n <= 255 ==> net::u8_value(seq!['+'] + text::decimal(n)) == Some(n),
        n <= 255 ==> net::octet_value(text::decimal(n)) == Some(n),
        n > 255 ==> net::octet_value(text::decimal(n)) is None && net::u8_value(text::decimal(n)) is None,
{
    lemma_decimal(n);
    if n <= 255 {
        lemma_octet(n);
    }
    let digits = text::decimal(n);
    assert(text::is_digit(digits[0]));
    assert((seq!['+'] + digits).skip(1) =~= digits);
}

/// Rule numbers are shown by three digits.
pub proof fn padded_numerals(n: nat)
    requires
        n < 1000,
    ensures
        text::padded3(n).len() == 3,
        text::all_digits(text::padded3(n)),
        text::digits_value(text::padded3(n)) == n,
{
    reveal_strlit("0");
    reveal_strlit("00");
    lemma_decimal(n);
    let digits = text::decimal(n);
    if n < 10 {
        let padded = "00"@ + digits;
        assert(padded.drop_last() =~= seq!['0', '0']);
        assert(seq!['0', '0'].drop_last() =~= seq!['0']);
        assert(seq!['0'].drop_last() =~= Seq::<char>::empty());
        reveal_with_fuel(text::digits_value, 4);
        assert(digits.drop_last() =~= Seq::<char>::empty());
        assert(text::digits_value(padded) == n);
    } else if n < 100 {
        let padded = "0"@ + digits;
        assert(digits == text::decimal(n / 10).push(text::digit_char(n % 10)));
        lemma_decimal(n / 10);
        assert(padded.drop_last() =~= "0"@ + text::decimal(n / 10));
        assert(padded.drop_last().drop_last() =~= seq!['0']);
        assert(seq!['0'].drop_last() =~= Seq::<char>::empty());
        reveal_with_fuel(text::digits_value, 4);
        assert(digits.drop_last() =~= text::decimal(n / 10));
        assert(text::decimal(n / 10).drop_last() =~= Seq::<char>::empty());
        assert(text::digits_value(padded) == n);
    } else {
        lemma_decimal(n / 10);
        lemma_decimal(n / 100);
        assert(digits == text::decimal(n / 10).push(text::digit_char(n % 10)));
    }
}

} // verus!
