//! Internet addresses: their text, their classes and the arithmetic of subnets.

use vstd::prelude::*;
use vstd::string::*;

use crate::text;

verus! {

/// An IPv4 address as the number that its four octets form, the first octet highest.
#[derive(Clone, Copy, Debug, PartialEq, Eq, Structural)]
pub struct Ipv4Addr {
    pub bits: u32,
}

/// An IPv6 address as its eight 16-bit groups, the first group highest.
#[derive(Clone, Copy, Debug, PartialEq, Eq)]
pub struct Ipv6Addr {
    pub segments: [u16; 8],
}

#[derive(Clone, Copy, Debug, PartialEq, Eq)]
pub enum IpAddr {
    V4(Ipv4Addr),
    V6(Ipv6Addr),
}

/// Octet `index` of the address `bits`, counted from the left.
pub open spec fn octet(bits: u32, index: int) -> nat {
    if index == 0 {
        (bits / 0x100_0000) as nat
    } else if index == 1 {
        ((bits / 0x1_0000) % 0x100) as nat
    } else if index == 2 {
        ((bits / 0x100) % 0x100) as nat
    } else {
        (bits % 0x100) as nat
    }
}

pub open spec fn from_octets(a: nat, b: nat, c: nat, d: nat) -> nat {
    a * 0x100_0000 + b * 0x1_0000 + c * 0x100 + d
}

/// The dotted decimal text of an address.
pub open spec fn ipv4_text(bits: u32) -> Seq<char> {
    text::decimal(octet(bits, 0)) + "."@ + text::decimal(octet(bits, 1)) + "."@ + text::decimal(
        octet(bits, 2),
    ) + "."@ + text::decimal(octet(bits, 3))
}

/// The decimal numeral of an octet: at most 255, no leading zero.
pub open spec fn octet_value(piece: Seq<char>) -> Option<nat> {
    if piece.len() <= 3 && (piece.len() > 1 ==> piece[0] != '0') {
        text::number_within(piece, 255)
    } else {
        None
    }
}

/// The address that a dotted decimal text denotes.
pub open spec fn ipv4_value(address: Seq<char>) -> Option<nat> {
    let pieces = text::split(address, '.');
    if pieces.len() == 4 {
        match (
            octet_value(pieces[0]),
            octet_value(pieces[1]),
            octet_value(pieces[2]),
            octet_value(pieces[3]),
        ) {
            (Some(a), Some(b), Some(c), Some(d)) => Some(from_octets(a, b, c, d)),
            _ => None,
        }
    } else {
        None
    }
}

/// 10.0.0.0/8, 172.16.0.0/12 and 192.168.0.0/16.
pub open spec fn private(bits: u32) -> bool {
    ||| octet(bits, 0) == 10
    ||| octet(bits, 0) == 172 && 16 <= octet(bits, 1) <= 31
    ||| octet(bits, 0) == 192 && octet(bits, 1) == 168
}

/// 192.0.2.0/24, 198.51.100.0/24 and 203.0.113.0/24.
pub open spec fn documentation(bits: u32) -> bool {
    ||| octet(bits, 0) == 192 && octet(bits, 1) == 0 && octet(bits, 2) == 2
    ||| octet(bits, 0) == 198 && octet(bits, 1) == 51 && octet(bits, 2) == 100
    ||| octet(bits, 0) == 203 && octet(bits, 1) == 0 && octet(bits, 2) == 113
}

pub open spec fn loopback(bits: u32) -> bool {
    octet(bits, 0) == 127
}

pub open spec fn link_local(bits: u32) -> bool {
    octet(bits, 0) == 169 && octet(bits, 1) == 254
}

pub open spec fn multicast(bits: u32) -> bool {
    224 <= octet(bits, 0) <= 239
}

/// The number of addresses that share the first `prefix` bits.
pub open spec fn block_size(prefix: u8) -> nat
    recommends
        prefix <= 32,
{
    vstd::arithmetic::power2::pow2((32 - prefix) as nat)
}

/// The lowest address of the subnet that `bits` lies in.
pub open spec fn subnet_start(bits: u32, prefix: u8) -> nat {
    (bits as nat - bits as nat % block_size(prefix)) as nat
}

/// The highest address of the subnet that `bits` lies in.
pub open spec fn subnet_end(bits: u32, prefix: u8) -> nat {
    (subnet_start(bits, prefix) + block_size(prefix) - 1) as nat
}

proof fn lemma_octets(a: u32, b: u32, c: u32, d: u32, bits: u32)
    by (bit_vector)
    requires
        a < 0x100,
        b < 0x100,
        c < 0x100,
        d < 0x100,
        bits == a * 0x100_0000 + b * 0x1_0000 + c * 0x100 + d,
    ensures
        bits / 0x100_0000 == a,
        (bits / 0x1_0000) % 0x100 == b,
        (bits / 0x100) % 0x100 == c,
        bits % 0x100 == d,
{
}

impl Ipv4Addr {
    pub fn new(a: u8, b: u8, c: u8, d: u8) -> (address: Ipv4Addr)
        ensures
            address.bits == from_octets(a as nat, b as nat, c as nat, d as nat),
            octet(address.bits, 0) == a,
            octet(address.bits, 1) == b,
            octet(address.bits, 2) == c,
            octet(address.bits, 3) == d,
    {
        let bits: u32 = a as u32 * 0x100_0000 + b as u32 * 0x1_0000 + c as u32 * 0x100 + d as u32;
        proof {
            lemma_octets(a as u32, b as u32, c as u32, d as u32, bits);
        }
        Ipv4Addr { bits }
    }

    /// Octet `index`, counted from the left.
    pub fn octet_at(&self, index: usize) -> (value: u8)
        requires
            index < 4,
        ensures
            value == octet(self.bits, index as int),
    {
        if index == 0 {
            (self.bits / 0x100_0000) as u8
        } else if index == 1 {
            ((self.bits / 0x1_0000) % 0x100) as u8
        } else if index == 2 {
            ((self.bits / 0x100) % 0x100) as u8
        } else {
            (self.bits % 0x100) as u8
        }
    }

    pub fn is_unspecified(&self) -> (yes: bool)
        ensures
            yes == (self.bits == 0),
    {
        self.bits == 0
    }

    pub fn is_broadcast(&self) -> (yes: bool)
        ensures
            yes == (self.bits == u32::MAX),
    {
        self.bits == u32::MAX
    }

    pub fn is_loopback(&self) -> (yes: bool)
        ensures
            yes == loopback(self.bits),
    {
        self.octet_at(0) == 127
    }

    pub fn is_link_local(&self) -> (yes: bool)
        ensures
            yes == link_local(self.bits),
    {
        self.octet_at(0) == 169 && self.octet_at(1) == 254
    }

    pub fn is_multicast(&self) -> (yes: bool)
        ensures
            yes == multicast(self.bits),
    {
        let first: u8 = self.octet_at(0);
        224 <= first && first <= 239
    }

    pub fn is_private(&self) -> (yes: bool)
        ensures
            yes == private(self.bits),
    {
        let first: u8 = self.octet_at(0);
        let second: u8 = self.octet_at(1);
        first == 10 || (first == 172 && 16 <= second && second <= 31) || (first == 192 && second == 168)
    }

    pub fn is_documentation(&self) -> (yes: bool)
        ensures
            yes == documentation(self.bits),
    {
        let first: u8 = self.octet_at(0);
        let second: u8 = self.octet_at(1);
        let third: u8 = self.octet_at(2);
        (first == 192 && second == 0 && third == 2) || (first == 198 && second == 51 && third == 100)
            || (first == 203 && second == 0 && third == 113)
    }

    pub fn to_string(&self) -> (shown: String)
        ensures
            shown@ == ipv4_text(self.bits),
    {
        let a = text::decimal_text(self.octet_at(0) as u64);
        let b = text::decimal_text(self.octet_at(1) as u64);
        let c = text::decimal_text(self.octet_at(2) as u64);
        let d = text::decimal_text(self.octet_at(3) as u64);
        let mut shown = text::cat5(a.as_str(), ".", b.as_str(), ".", c.as_str());
        shown.append(".");
        shown.append(d.as_str());
        shown
    }

    /// The address that a dotted decimal text denotes.
    pub fn parse(address: &str) -> (parsed: Option<Ipv4Addr>)
        ensures
            match parsed {
                Some(value) => ipv4_value(address@) == Some(value.bits as nat),
                None => ipv4_value(address@) is None,
            },
    {
        let pieces = text::split_on(address, '.');
        proof {
            assert(text::views(pieces@).len() == pieces@.len());
        }
        if pieces.len() != 4 {
            return None;
        }
        match (
            parse_octet(pieces[0].as_str()),
            parse_octet(pieces[1].as_str()),
            parse_octet(pieces[2].as_str()),
            parse_octet(pieces[3].as_str()),
        ) {
            (Some(a), Some(b), Some(c), Some(d)) => Some(Ipv4Addr::new(a, b, c, d)),
            _ => None,
        }
    }
}

fn parse_octet(piece: &str) -> (value: Option<u8>)
    ensures
        match value {
            Some(n) => octet_value(piece@) == Some(n as nat),
            None => octet_value(piece@) is None,
        },
{
    let chars = text::chars_of(piece);
    if chars.len() > 3 {
        return None;
    }
    if chars.len() > 1 && chars[0] == '0' {
        return None;
    }
    proof {
        assert(chars@.skip(0) =~= piece@);
    }
    match text::parse_number(&chars, 0, 255) {
        Some(n) => Some(n as u8),
        None => None,
    }
}

/// The value of an unsigned 8-bit numeral: an optional plus sign, then digits.
pub open spec fn u8_value(numeral: Seq<char>) -> Option<nat> {
    if numeral.len() > 0 && numeral[0] == '+' {
        text::number_within(numeral.skip(1), 255)
    } else {
        text::number_within(numeral, 255)
    }
}

pub fn parse_u8(numeral: &str) -> (value: Option<u8>)
    ensures
        match value {
            Some(n) => u8_value(numeral@) == Some(n as nat),
            None => u8_value(numeral@) is None,
        },
{
    let chars = text::chars_of(numeral);
    let from: usize = if chars.len() > 0 && chars[0] == '+' { 1 } else { 0 };
    proof {
        assert(chars@.skip(0) =~= numeral@);
    }
    match text::parse_number(&chars, from, 255) {
        Some(n) => Some(n as u8),
        None => None,
    }
}

// ---------------------------------------------------------------------------------------------
// IPv6 text
// ---------------------------------------------------------------------------------------------

pub open spec fn hex_digit_value(c: char) -> nat {
    if '0' <= c <= '9' {
        (c as u32 - 48) as nat
    } else if 'a' <= c <= 'f' {
        (c as u32 - 87) as nat
    } else {
        (c as u32 - 55) as nat
    }
}

pub open spec fn hex_value(digits: Seq<char>) -> nat
    decreases digits.len(),
{
    if digits.len() == 0 {
        0
    } else {
        hex_value(digits.drop_last()) * 16 + hex_digit_value(digits.last())
    }
}

/// One to four hexadecimal digits.
pub open spec fn group_value(piece: Seq<char>) -> Option<nat> {
    if 1 <= piece.len() <= 4 && text::all_hex(piece) {
        Some(hex_value(piece))
    } else {
        None
    }
}

/// The groups that `pieces` denote, where all of them are hexadecimal groups.
pub open spec fn groups_of(pieces: Seq<Seq<char>>) -> Option<Seq<u16>>
    decreases pieces.len(),
{
    if pieces.len() == 0 {
        Some(Seq::empty())
    } else {
        match (groups_of(pieces.drop_last()), group_value(pieces.last())) {
            (Some(groups), Some(value)) => Some(groups.push(value as u16)),
            _ => None,
        }
    }
}

/// The groups of a colon-separated text, none for the empty text. Where `tail` holds, the last
/// piece may be a dotted decimal IPv4 address, which stands for two groups.
pub open spec fn colon_groups(part: Seq<char>, tail: bool) -> Option<Seq<u16>> {
    let pieces = text::split(part, ':');
    if part.len() == 0 {
        Some(Seq::empty())
    } else if tail && pieces.last().contains('.') {
        match (groups_of(pieces.drop_last()), ipv4_value(pieces.last())) {
            (Some(groups), Some(bits)) => Some(
                groups.push((bits / 0x1_0000) as u16).push((bits % 0x1_0000) as u16),
            ),
            _ => None,
        }
    } else {
        groups_of(pieces)
    }
}

/// The index of the first pair of colons, or the length of `address`.
pub open spec fn gap_index(address: Seq<char>) -> int
    decreases address.len(),
{
    if address.len() < 2 {
        address.len() as int
    } else if address[0] == ':' && address[1] == ':' {
        0
    } else {
        1 + gap_index(address.skip(1))
    }
}

/// `count` zero groups.
pub open spec fn zero_groups(count: nat) -> Seq<u16> {
    Seq::new(count, |i: int| 0u16)
}

/// The eight groups that an IPv6 text denotes: all eight written out, or at most seven with a
/// pair of colons in place of the zero groups left out.
pub open spec fn ipv6_value(address: Seq<char>) -> Option<Seq<u16>> {
    let gap = gap_index(address);
    if gap == address.len() {
        match colon_groups(address, true) {
            Some(groups) if groups.len() == 8 => Some(groups),
            _ => None,
        }
    } else {
        match (colon_groups(address.take(gap), false), colon_groups(address.skip(gap + 2), true)) {
            (Some(head), Some(tail)) if head.len() + tail.len() <= 7 => Some(
                head + zero_groups((8 - head.len() - tail.len()) as nat) + tail,
            ),
            _ => None,
        }
    }
}

proof fn lemma_group_bounds(piece: Seq<char>)
    requires
        text::all_hex(piece),
    ensures
        piece.len() <= 1 ==> hex_value(piece) < 0x10,
        piece.len() <= 2 ==> hex_value(piece) < 0x100,
        piece.len() <= 3 ==> hex_value(piece) < 0x1000,
        piece.len() <= 4 ==> hex_value(piece) < 0x1_0000,
    decreases piece.len(),
{
    if piece.len() > 0 {
        let shorter = piece.drop_last();
        assert forall|i: int| 0 <= i < shorter.len() implies text::is_hex_digit(#[trigger] shorter[i]) by {
            assert(shorter[i] == piece[i]);
        }
        lemma_group_bounds(shorter);
        assert(text::is_hex_digit(piece[piece.len() - 1]));
    }
}

fn parse_group(piece: &str) -> (value: Option<u16>)
    ensures
        match value {
            Some(n) => group_value(piece@) == Some(n as nat),
            None => group_value(piece@) is None,
        },
{
    let chars = text::chars_of(piece);
    if chars.len() == 0 || chars.len() > 4 || !text::is_all_hex(piece) {
        return None;
    }
    let mut value: u32 = 0;
    let mut i: usize = 0;
    while i < chars.len()
        invariant
            i <= chars@.len() <= 4,
            chars@ == piece@,
            text::all_hex(piece@),
            value == hex_value(chars@.take(i as int)),
            value < 0x1_0000,
        decreases chars@.len() - i,
    {
        let c = chars[i];
        proof {
            assert(chars@.take(i + 1).drop_last() =~= chars@.take(i as int));
            assert(text::is_hex_digit(piece@[i as int]));
            assert(text::all_hex(chars@.take(i + 1))) by {
                assert forall|j: int| 0 <= j < i + 1 implies text::is_hex_digit(#[trigger] chars@.take(i + 1)[j]) by {
                    assert(chars@.take(i + 1)[j] == piece@[j]);
                }
            }
            lemma_group_bounds(chars@.take(i + 1));
        }
        let digit: u32 = if '0' <= c && c <= '9' {
            c as u32 - 48
        } else if 'a' <= c && c <= 'f' {
            c as u32 - 87
        } else {
            c as u32 - 55
        };
        value = value * 16 + digit;
        i = i + 1;
    }
    proof {
        assert(chars@.take(i as int) =~= piece@);
    }
    Some(value as u16)
}

/// The groups of the first `count` pieces.
fn parse_groups(pieces: &Vec<String>, count: usize) -> (groups: Option<Vec<u16>>)
    requires
        count <= pieces@.len(),
    ensures
        match groups {
            Some(list) => groups_of(text::views(pieces@).take(count as int)) == Some(list@),
            None => groups_of(text::views(pieces@).take(count as int)) is None,
        },
    decreases count,
{
    if count == 0 {
        proof {
            assert(text::views(pieces@).take(0).len() == 0);
        }
        return Some(Vec::new());
    }
    proof {
        assert(text::views(pieces@).take(count as int).drop_last() =~= text::views(pieces@).take(count - 1));
    }
    match (parse_groups(pieces, count - 1), parse_group(pieces[count - 1].as_str())) {
        (Some(mut list), Some(value)) => {
            list.push(value);
            Some(list)
        },
        _ => None,
    }
}

fn parse_colon_groups(part: &str, tail: bool) -> (groups: Option<Vec<u16>>)
    ensures
        match groups {
            Some(list) => colon_groups(part@, tail) == Some(list@),
            None => colon_groups(part@, tail) is None,
        },
{
    if part.is_empty() {
        return Some(Vec::new());
    }
    let pieces = text::split_on(part, ':');
    proof {
        text::lemma_split_nonempty(part@, ':');
        assert(text::views(pieces@).len() == pieces@.len());
        assert(text::views(pieces@).take(pieces@.len() as int) =~= text::views(pieces@));
        assert(text::views(pieces@).take(pieces@.len() - 1) =~= text::views(pieces@).drop_last());
    }
    let last: usize = pieces.len() - 1;
    if tail && text::contains_char(pieces[last].as_str(), '.') {
        match (parse_groups(&pieces, last), Ipv4Addr::parse(pieces[last].as_str())) {
            (Some(mut list), Some(address)) => {
                list.push((address.bits / 0x1_0000) as u16);
                list.push((address.bits % 0x1_0000) as u16);
                Some(list)
            },
            _ => None,
        }
    } else {
        parse_groups(&pieces, pieces.len())
    }
}

pub proof fn lemma_gap_index(address: Seq<char>)
    ensures
        0 <= gap_index(address) <= address.len(),
        gap_index(address) < address.len() ==> {
            &&& gap_index(address) + 2 <= address.len()
            &&& address[gap_index(address)] == ':'
            &&& address[gap_index(address) + 1] == ':'
        },
        forall|i: int|
            0 <= i < gap_index(address) && i + 1 < address.len() ==> !(#[trigger] address[i] == ':'
                && address[i + 1] == ':'),
    decreases address.len(),
{
    if address.len() >= 2 && !(address[0] == ':' && address[1] == ':') {
        lemma_gap_index(address.skip(1));
        assert forall|i: int| 0 <= i < gap_index(address) && i + 1 < address.len() implies !(
        #[trigger] address[i] == ':' && address[i + 1] == ':') by {
            if i > 0 {
                assert(address.skip(1)[i - 1] == address[i]);
                assert(address.skip(1)[i] == address[i + 1]);
            }
        }
    }
}

fn find_gap(chars: &Vec<char>) -> (gap: usize)
    ensures
        gap == gap_index(chars@),
        gap <= chars@.len(),
        gap < chars@.len() ==> gap + 2 <= chars@.len(),
{
    proof {
        lemma_gap_index(chars@);
    }
    let mut i: usize = 0;
    while i < chars.len()
        invariant
            i <= chars@.len(),
            i <= gap_index(chars@) <= chars@.len(),
            gap_index(chars@) < chars@.len() ==> {
                &&& gap_index(chars@) + 2 <= chars@.len()
                &&& chars@[gap_index(chars@)] == ':'
                &&& chars@[gap_index(chars@) + 1] == ':'
            },
            forall|j: int|
                0 <= j < gap_index(chars@) && j + 1 < chars@.len() ==> !(#[trigger] chars@[j] == ':'
                    && chars@[j + 1] == ':'),
        decreases chars@.len() - i,
    {
        if chars.len() - i >= 2 && chars[i] == ':' && chars[i + 1] == ':' {
            return i;
        }
        i = i + 1;
    }
    i
}

fn segments_of(groups: &Vec<u16>) -> (segments: [u16; 8])
    requires
        groups@.len() == 8,
    ensures
        segments@ == groups@,
{
    let segments: [u16; 8] = [
        groups[0],
        groups[1],
        groups[2],
        groups[3],
        groups[4],
        groups[5],
        groups[6],
        groups[7],
    ];
    proof {
        assert(segments@ =~= groups@);
    }
    segments
}

/// The start and the length of the first longest run of zero groups among the first `count`,
/// and the length of the run that ends there.
pub open spec fn zero_runs(segments: Seq<u16>, count: nat) -> (nat, nat, nat)
    decreases count,
{
    if count == 0 {
        (0, 0, 0)
    } else {
        let (start, longest, current) = zero_runs(segments, (count - 1) as nat);
        if segments[count - 1] != 0 {
            (start, longest, 0)
        } else if current + 1 > longest {
            ((count - 1 - current) as nat, current + 1, current + 1)
        } else {
            (start, longest, current + 1)
        }
    }
}

/// The lower-case hexadecimal digit of `digit`.
pub open spec fn hex_char(digit: nat) -> char {
    if digit < 10 {
        ((48 + digit) as u32) as char
    } else {
        ((87 + digit) as u32) as char
    }
}

/// The shortest lower-case hexadecimal numeral of `n`.
pub open spec fn hexadecimal(n: nat) -> Seq<char>
    decreases n,
{
    if n < 16 {
        seq![hex_char(n)]
    } else {
        hexadecimal(n / 16).push(hex_char(n % 16))
    }
}

/// The hexadecimal numerals of the groups with colons between them.
pub open spec fn groups_text(groups: Seq<u16>) -> Seq<char> {
    text::join(groups.map_values(|group: u16| hexadecimal(group as nat)), ":"@)
}

pub open spec fn ipv4_mapped(segments: Seq<u16>) -> bool {
    segments.take(5) == zero_groups(5) && segments[5] == 0xffff
}

/// The canonical text of an IPv6 address: the first longest run of two or more zero groups is
/// left out, and an IPv4-mapped address shows its IPv4 address in dotted decimal.
pub open spec fn ipv6_text(segments: Seq<u16>) -> Seq<char> {
    let (start, longest, _) = zero_runs(segments, 8);
    if ipv4_mapped(segments) {
        "::ffff:"@ + ipv4_text((segments[6] * 0x1_0000 + segments[7]) as u32)
    } else if longest > 1 {
        groups_text(segments.take(start as int)) + "::"@ + groups_text(segments.skip((start + longest) as int))
    } else {
        groups_text(segments)
    }
}

pub fn hexadecimal_text(n: u16) -> (shown: String)
    ensures
        shown@ == hexadecimal(n as nat),
    decreases n,
{
    let digit: u8 = (n % 16) as u8;
    let c: char = if digit < 10 { (48u8 + digit) as char } else { (87u8 + digit) as char };
    if n < 16 {
        let mut shown: String = String::new();
        shown.push(c);
        proof {
            assert(shown@ =~= hexadecimal(n as nat));
        }
        shown
    } else {
        let mut shown = hexadecimal_text(n / 16);
        shown.push(c);
        shown
    }
}

fn show_groups(segments: &[u16; 8], from: usize, to: usize) -> (shown: String)
    requires
        from <= to <= 8,
    ensures
        shown@ == groups_text(segments@.subrange(from as int, to as int)),
{
    let mut parts: Vec<String> = Vec::new();
    let mut i: usize = from;
    while i < to
        invariant
            from <= i <= to <= 8,
            text::views(parts@) == segments@.subrange(from as int, i as int).map_values(
                |group: u16| hexadecimal(group as nat),
            ),
        decreases to - i,
    {
        let ghost before = text::views(parts@);
        let part = hexadecimal_text(segments[i]);
        parts.push(part);
        proof {
            assert(text::views(parts@) =~= before.push(part@));
            assert(segments@.subrange(from as int, i + 1) =~= segments@.subrange(from as int, i as int).push(
                segments@[i as int],
            ));
            assert(text::views(parts@) =~= segments@.subrange(from as int, i + 1).map_values(
                |group: u16| hexadecimal(group as nat),
            ));
        }
        i = i + 1;
    }
    text::join_with(&parts, ":")
}

impl Ipv6Addr {
    pub fn new(a: u16, b: u16, c: u16, d: u16, e: u16, f: u16, g: u16, h: u16) -> (address: Ipv6Addr)
        ensures
            address.segments@ == seq![a, b, c, d, e, f, g, h],
    {
        let segments: [u16; 8] = [a, b, c, d, e, f, g, h];
        proof {
            assert(segments@ =~= seq![a, b, c, d, e, f, g, h]);
        }
        Ipv6Addr { segments }
    }

    /// The address that an IPv6 text denotes.
    pub fn parse(address: &str) -> (parsed: Option<Ipv6Addr>)
        ensures
            match parsed {
                Some(value) => ipv6_value(address@) == Some(value.segments@),
                None => ipv6_value(address@) is None,
            },
    {
        let chars = text::chars_of(address);
        let gap: usize = find_gap(&chars);
        if gap == chars.len() {
            match parse_colon_groups(address, true) {
                Some(groups) => {
                    if groups.len() == 8 {
                        Some(Ipv6Addr { segments: segments_of(&groups) })
                    } else {
                        None
                    }
                },
                None => None,
            }
        } else {
            let front = text::string_of(&chars, 0, gap);
            let back = text::string_of(&chars, gap + 2, chars.len());
            proof {
                assert(front@ =~= address@.take(gap as int));
                assert(back@ =~= address@.skip(gap + 2));
            }
            match (parse_colon_groups(front.as_str(), false), parse_colon_groups(back.as_str(), true)) {
                (Some(head), Some(tail)) => {
                    if head.len() > 7 || tail.len() > 7 - head.len() {
                        return None;
                    }
                    let mut groups = head;
                    let ghost front_groups = head@;
                    let zeros: usize = 8 - groups.len() - tail.len();
                    let mut i: usize = 0;
                    while i < zeros
                        invariant
                            i <= zeros,
                            groups@ == front_groups + zero_groups(i as nat),
                        decreases zeros - i,
                    {
                        groups.push(0);
                        i = i + 1;
                        proof {
                            assert(groups@ =~= front_groups + zero_groups(i as nat));
                        }
                    }
                    let mut j: usize = 0;
                    while j < tail.len()
                        invariant
                            j <= tail@.len(),
                            groups@ == front_groups + zero_groups(zeros as nat) + tail@.take(j as int),
                        decreases tail@.len() - j,
                    {
                        groups.push(tail[j]);
                        j = j + 1;
                        proof {
                            assert(groups@ =~= front_groups + zero_groups(zeros as nat) + tail@.take(j as int));
                        }
                    }
                    proof {
                        assert(tail@.take(j as int) =~= tail@);
                    }
                    Some(Ipv6Addr { segments: segments_of(&groups) })
                },
                _ => None,
            }
        }
    }

    pub fn to_string(&self) -> (shown: String)
        ensures
            shown@ == ipv6_text(self.segments@),
    {
        let s = &self.segments;
        let mapped = s[0] == 0 && s[1] == 0 && s[2] == 0 && s[3] == 0 && s[4] == 0 && s[5] == 0xffff;
        proof {
            if mapped {
                assert(self.segments@.take(5) =~= zero_groups(5));
            } else if self.segments@.take(5) == zero_groups(5) {
                assert(self.segments@.take(5)[0] == 0);
                assert(self.segments@.take(5)[1] == 0);
                assert(self.segments@.take(5)[2] == 0);
                assert(self.segments@.take(5)[3] == 0);
                assert(self.segments@.take(5)[4] == 0);
            }
        }
        if mapped {
            let address = Ipv4Addr { bits: s[6] as u32 * 0x1_0000 + s[7] as u32 };
            let shown = address.to_string();
            return text::cat2("::ffff:", shown.as_str());
        }
        let mut start: usize = 0;
        let mut longest: usize = 0;
        let mut current: usize = 0;
        let mut i: usize = 0;
        while i < 8
            invariant
                i <= 8,
                current <= i,
                start + longest <= i,
                zero_runs(s@, i as nat) == (start as nat, longest as nat, current as nat),
            decreases 8 - i,
        {
            if s[i] != 0 {
                current = 0;
            } else {
                current = current + 1;
                if current > longest {
                    start = i + 1 - current;
                    longest = current;
                }
            }
            i = i + 1;
        }
        if longest > 1 {
            let head = show_groups(s, 0, start);
            let tail = show_groups(s, start + longest, 8);
            proof {
                assert(self.segments@.subrange(0, start as int) =~= self.segments@.take(start as int));
                assert(self.segments@.subrange(start + longest, 8) =~= self.segments@.skip(start + longest));
            }
            text::cat3(head.as_str(), "::", tail.as_str())
        } else {
            proof {
                assert(self.segments@.subrange(0, 8) =~= self.segments@);
            }
            show_groups(s, 0, 8)
        }
    }
}

/// Whether `address` is the text of an IPv4 or of an IPv6 address.
pub open spec fn is_ip_text(address: Seq<char>) -> bool {
    ipv4_value(address) is Some || ipv6_value(address) is Some
}

impl IpAddr {
    pub fn parse(address: &str) -> (parsed: Option<IpAddr>)
        ensures
            match parsed {
                Some(IpAddr::V4(value)) => ipv4_value(address@) == Some(value.bits as nat),
                Some(IpAddr::V6(value)) => ipv4_value(address@) is None && ipv6_value(address@)
                    == Some(value.segments@),
                None => !is_ip_text(address@),
            },
    {
        match Ipv4Addr::parse(address) {
            Some(value) => Some(IpAddr::V4(value)),
            None => match Ipv6Addr::parse(address) {
                Some(value) => Some(IpAddr::V6(value)),
                None => None,
            },
        }
    }
}

/// The number of addresses that share the first `prefix` bits.
pub fn addresses_in_block(prefix: u8) -> (size: u64)
    requires
        prefix <= 32,
    ensures
        size == block_size(prefix),
        1 <= size <= 0x1_0000_0000,
{
    let mut size: u64 = 1;
    let mut bits: u8 = 0;
    proof {
        vstd::arithmetic::power2::lemma2_to64();
    }
    while bits < 32 - prefix
        invariant
            prefix <= 32,
            bits <= 32 - prefix,
            size == vstd::arithmetic::power2::pow2(bits as nat),
            1 <= size,
            size <= vstd::arithmetic::power2::pow2(32),
            vstd::arithmetic::power2::pow2(32) == 0x1_0000_0000,
        decreases 32 - prefix - bits,
    {
        proof {
            vstd::arithmetic::power2::lemma_pow2_unfold((bits + 1) as nat);
            if bits + 1 < 32 {
                vstd::arithmetic::power2::lemma_pow2_strictly_increases((bits + 1) as nat, 32);
            }
        }
        size = size * 2;
        bits = bits + 1;
    }
    size
}

/// The lowest and the highest address of a subnet are 32-bit numbers around `bits`.
pub proof fn lemma_subnet_bounds(bits: u32, prefix: u8)
    requires
        prefix <= 32,
    ensures
        block_size(prefix) >= 1,
        subnet_start(bits, prefix) <= bits <= subnet_end(bits, prefix),
        subnet_end(bits, prefix) <= u32::MAX,
        subnet_start(bits, prefix) % block_size(prefix) == 0,
{
    let size = block_size(prefix);
    let host = (32 - prefix) as nat;
    vstd::arithmetic::power2::lemma2_to64();
    vstd::arithmetic::power2::lemma_pow2_pos(host);
    let count = vstd::arithmetic::power2::pow2(prefix as nat);
    vstd::arithmetic::power2::lemma_pow2_adds(prefix as nat, host);
    assert(count * size == 0x1_0000_0000);
    let quotient = bits as int / size as int;
    vstd::arithmetic::div_mod::lemma_fundamental_div_mod(bits as int, size as int);
    vstd::arithmetic::div_mod::lemma_mod_bound(bits as int, size as int);
    assert(subnet_start(bits, prefix) == size * quotient);
    assert(quotient < count) by (nonlinear_arith)
        requires
            size * quotient <= bits,
            bits < 0x1_0000_0000,
            count * size == 0x1_0000_0000,
            size >= 1,
    ;
    assert(size * quotient + size <= count * size) by (nonlinear_arith)
        requires
            quotient + 1 <= count,
            size >= 1,
    ;
    vstd::arithmetic::div_mod::lemma_mod_multiples_basic(quotient, size as int);
    assert(size * quotient == quotient * size) by (nonlinear_arith);
}

/// The network address of the subnet.
pub fn network_address(address: Ipv4Addr, prefix: u8) -> (network: Ipv4Addr)
    requires
        prefix <= 32,
    ensures
        network.bits == subnet_start(address.bits, prefix),
{
    let size: u64 = addresses_in_block(prefix);
    proof {
        lemma_subnet_bounds(address.bits, prefix);
        vstd::arithmetic::div_mod::lemma_mod_decreases(address.bits as nat, size as nat);
    }
    let bits: u64 = address.bits as u64 - address.bits as u64 % size;
    Ipv4Addr { bits: bits as u32 }
}

/// The broadcast address of the subnet.
pub fn broadcast_address(address: Ipv4Addr, prefix: u8) -> (broadcast: Ipv4Addr)
    requires
        prefix <= 32,
    ensures
        broadcast.bits == subnet_end(address.bits, prefix),
{
    let size: u64 = addresses_in_block(prefix);
    proof {
        lemma_subnet_bounds(address.bits, prefix);
        vstd::arithmetic::div_mod::lemma_mod_decreases(address.bits as nat, size as nat);
    }
    let bits: u64 = address.bits as u64 - address.bits as u64 % size + (size - 1);
    Ipv4Addr { bits: bits as u32 }
}

/// Whether both are the same address, or both are missing.
pub fn same_optional(left: Option<Ipv4Addr>, right: Option<Ipv4Addr>) -> (same: bool)
    ensures
        same == (left == right),
{
    match (left, right) {
        (Some(a), Some(b)) => a == b,
        (None, None) => true,
        _ => false,
    }
}

/// Whether both lists hold the same addresses in the same order.
pub fn same_addresses(left: &Vec<Ipv4Addr>, right: &Vec<Ipv4Addr>) -> (same: bool)
    ensures
        same == (left@ == right@),
{
    if left.len() != right.len() {
        return false;
    }
    let mut i: usize = 0;
    while i < left.len()
        invariant
            i <= left@.len(),
            left@.len() == right@.len(),
            forall|j: int| 0 <= j < i ==> left@[j] == right@[j],
        decreases left@.len() - i,
    {
        if left[i] != right[i] {
            return false;
        }
        i = i + 1;
    }
    proof {
        assert(left@ =~= right@);
    }
    true
}

pub fn clone_addresses(list: &Vec<Ipv4Addr>) -> (copy: Vec<Ipv4Addr>)
    ensures
        copy@ == list@,
{
    let mut copy: Vec<Ipv4Addr> = Vec::new();
    let mut i: usize = 0;
    while i < list.len()
        invariant
            i <= list@.len(),
            copy@ == list@.take(i as int),
        decreases list@.len() - i,
    {
        copy.push(list[i]);
        i = i + 1;
        proof {
            assert(copy@ =~= list@.take(i as int));
        }
    }
    proof {
        assert(list@.take(i as int) =~= list@);
    }
    copy
}

/// Where the special addresses lie.
pub proof fn special_addresses(bits: u32)
    ensures
        loopback(bits) <==> 0x7f00_0000 <= bits <= 0x7fff_ffff,
        link_local(bits) <==> 0xa9fe_0000 <= bits <= 0xa9fe_ffff,
        multicast(bits) <==> 0xe000_0000 <= bits <= 0xefff_ffff,
        private(bits) <==> 0x0a00_0000 <= bits <= 0x0aff_ffff || 0xac10_0000 <= bits <= 0xac1f_ffff
            || 0xc0a8_0000 <= bits <= 0xc0a8_ffff,
        documentation(bits) <==> 0xc000_0200 <= bits <= 0xc000_02ff || 0xc633_6400 <= bits
            <= 0xc633_64ff || 0xcb00_7100 <= bits <= 0xcb00_71ff,
{
}

/// A subnet is the range of addresses that agree in their first bits: it has a power of two of them,
/// it starts at a multiple of their count, and the address itself lies in it.
pub proof fn subnets_are_aligned_ranges(bits: u32, prefix: u8)
    requires
        prefix <= 32,
    ensures
        ({
            let size = vstd::arithmetic::power2::pow2((32 - prefix) as nat);
            &&& subnet_start(bits, prefix) % size == 0
            &&& subnet_start(bits, prefix) <= bits < subnet_start(bits, prefix) + size
            &&& subnet_end(bits, prefix) == subnet_start(bits, prefix) + size - 1
        }),
{
    let size = vstd::arithmetic::power2::pow2((32 - prefix) as nat);
    vstd::arithmetic::power2::lemma_pow2_pos((32 - prefix) as nat);
    let whole = bits as int / size as int;
    vstd::arithmetic::div_mod::lemma_fundamental_div_mod(bits as int, size as int);
    vstd::arithmetic::mul::lemma_mul_is_commutative(size as int, whole);
    vstd::arithmetic::div_mod::lemma_mod_multiples_basic(whole, size as int);
}

} // verus!
