//! The IPv4 address space as a disposable guest may use it: the ranges kept from it, the rest, and
//! the aligned blocks that firewall rules name them by.

use vstd::arithmetic::power2::pow2;
use vstd::prelude::*;
use vstd::string::*;

use crate::address_text;
use crate::backend;
use crate::backend::{SandboxError, SandboxResult};
use crate::hyperv::guest_protocol;
use crate::net;
use crate::net::Ipv4Addr;
use crate::text;

verus! {

// ---------------------------------------------------------------------------------------------
// Subnets and addresses
// ---------------------------------------------------------------------------------------------

pub fn network_address(address: Ipv4Addr, prefix: u8) -> (network: Ipv4Addr)
    requires
        1 <= prefix <= 32,
    ensures
        network.bits == net::subnet_start(address.bits, prefix),
{
    net::network_address(address, prefix)
}

pub fn broadcast_address(address: Ipv4Addr, prefix: u8) -> (broadcast: Ipv4Addr)
    requires
        1 <= prefix <= 32,
    ensures
        broadcast.bits == net::subnet_end(address.bits, prefix),
{
    net::broadcast_address(address, prefix)
}

pub fn same_subnet(left: Ipv4Addr, right: Ipv4Addr, prefix: u8) -> (same: bool)
    requires
        1 <= prefix <= 32,
    ensures
        same == (net::subnet_start(left.bits, prefix) == net::subnet_start(right.bits, prefix)),
{
    network_address(left, prefix).bits == network_address(right, prefix).bits
}

pub open spec fn unicast_verdict(bits: u32, description: Seq<char>) -> Result<(), backend::Fault> {
    if guest_protocol::guest_unicast(bits) {
        Ok(())
    } else {
        Err(
            backend::fault(
                "hyperv_network"@,
                description
                    + " is unspecified, loopback, link-local, multicast, or broadcast"@,
            ),
        )
    }
}

pub fn validate_unicast(address: Ipv4Addr, description: &str) -> (verdict: SandboxResult<()>)
    ensures
        backend::outcome(verdict) == unicast_verdict(address.bits, description@),
{
    if guest_protocol::valid_guest_unicast(address) {
        Ok(())
    } else {
        let message = text::cat2(
            description,
            " is unspecified, loopback, link-local, multicast, or broadcast",
        );
        Err(SandboxError::new("hyperv_network", message.as_str()))
    }
}

// ---------------------------------------------------------------------------------------------
// Aligned blocks
// ---------------------------------------------------------------------------------------------

/// The addresses from `start` on that share all but their last `host_bits` bits.
#[derive(Clone, Copy, Debug, PartialEq, Eq, Structural)]
pub struct Block {
    pub start: u32,
    pub host_bits: u8,
}

impl Block {
    pub open spec fn size(self) -> nat {
        pow2(self.host_bits as nat)
    }

    pub open spec fn contains(self, address: int) -> bool {
        self.start <= address < self.start + self.size()
    }

    /// A block that a prefix can name: aligned to its size and within the address space.
    pub open spec fn aligned(self) -> bool {
        &&& self.host_bits <= 32
        &&& self.start as nat % self.size() == 0
        &&& self.start + self.size() <= 0x1_0000_0000
    }

    /// The first address and the prefix length with a slash between them.
    pub open spec fn spec_text(self) -> Seq<char> {
        net::ipv4_text(self.start) + "/"@ + text::decimal((32 - self.host_bits) as nat)
    }

    pub fn to_string(&self) -> (shown: String)
        requires
            self.host_bits <= 32,
        ensures
            shown@ == self.spec_text(),
    {
        let address = Ipv4Addr { bits: self.start }.to_string();
        let prefix = text::decimal_text((32 - self.host_bits) as u64);
        text::cat3(address.as_str(), "/", prefix.as_str())
    }
}

/// The most host bits, `limit` at most, with which a block at `start` is aligned and takes no more
/// than `remaining` addresses.
pub open spec fn widest(start: nat, remaining: nat, limit: nat) -> nat
    decreases limit,
{
    if limit == 0 || (start % pow2(limit) == 0 && pow2(limit) <= remaining) {
        limit
    } else {
        widest(start, remaining, (limit - 1) as nat)
    }
}

proof fn lemma_widest(start: nat, remaining: nat, limit: nat)
    requires
        remaining >= 1,
    ensures
        widest(start, remaining, limit) <= limit,
        start % pow2(widest(start, remaining, limit)) == 0,
        1 <= pow2(widest(start, remaining, limit)) <= remaining,
        forall|k: nat|
            widest(start, remaining, limit) < k <= limit ==> !(start % #[trigger] pow2(k) == 0 && pow2(k)
                <= remaining),
    decreases limit,
{
    vstd::arithmetic::power2::lemma2_to64();
    if limit > 0 && !(start % pow2(limit) == 0 && pow2(limit) <= remaining) {
        lemma_widest(start, remaining, (limit - 1) as nat);
    } else {
        vstd::arithmetic::power2::lemma_pow2_pos(limit);
    }
}

/// The blocks that make up the addresses from `start` to `end`, the widest possible one first.
pub open spec fn blocks(start: nat, end: nat) -> Seq<Block>
    decreases
            if start <= end {
                end + 1 - start
            } else {
                0
            },
{
    if start > end {
        Seq::empty()
    } else {
        let bits = widest(start, (end + 1 - start) as nat, 32);
        let first = Block { start: start as u32, host_bits: bits as u8 };
        proof {
            vstd::arithmetic::power2::lemma_pow2_pos(bits);
        }
        seq![first] + blocks(start + pow2(bits), end)
    }
}

/// Some block of `list` contains `address`.
pub open spec fn covers(list: Seq<Block>, address: int) -> bool {
    exists|i: int| 0 <= i < list.len() && (#[trigger] list[i]).contains(address)
}

pub open spec fn all_aligned(list: Seq<Block>) -> bool {
    forall|i: int| 0 <= i < list.len() ==> (#[trigger] list[i]).aligned()
}

/// Each block lies wholly before the next ones.
pub open spec fn ascending(list: Seq<Block>) -> bool {
    forall|i: int, j: int|
        0 <= i < j < list.len() ==> (#[trigger] list[i]).start + list[i].size() <= (
        #[trigger] list[j]).start
}

/// The blocks of a range cover exactly its addresses, are aligned, and do not overlap.
pub proof fn blocks_cover_exactly_the_range(start: nat, end: nat)
    requires
        end <= u32::MAX,
    ensures
        forall|address: int| #[trigger]
            covers(blocks(start, end), address) <==> start <= address <= end,
        all_aligned(blocks(start, end)),
        ascending(blocks(start, end)),
        forall|i: int|
            0 <= i < blocks(start, end).len() ==> start <= (#[trigger] blocks(start, end)[i]).start
                && blocks(start, end)[i].start + blocks(start, end)[i].size() <= end + 1,
    decreases
            if start <= end {
                end + 1 - start
            } else {
                0
            },
{
    let all = blocks(start, end);
    if start <= end {
        let remaining = (end + 1 - start) as nat;
        lemma_widest(start, remaining, 32);
        let bits = widest(start, remaining, 32);
        let first = Block { start: start as u32, host_bits: bits as u8 };
        let next = start + pow2(bits);
        let rest = blocks(next, end);
        blocks_cover_exactly_the_range(next, end);
        assert(all == seq![first] + rest);
        assert(first.size() == pow2(bits));
        assert forall|address: int| #[trigger] covers(all, address) <==> start <= address <= end by {
            if covers(all, address) {
                let i = choose|i: int| 0 <= i < all.len() && (#[trigger] all[i]).contains(address);
                if i > 0 {
                    assert(all[i] == rest[i - 1]);
                    assert(covers(rest, address));
                }
            }
            if start <= address <= end {
                if address < next {
                    assert(all[0].contains(address));
                } else {
                    assert(covers(rest, address));
                    let i = choose|i: int| 0 <= i < rest.len() && (#[trigger] rest[i]).contains(address);
                    assert(all[i + 1] == rest[i]);
                }
            }
        }
        assert forall|i: int| 0 <= i < all.len() implies (#[trigger] all[i]).aligned() by {
            if i > 0 {
                assert(all[i] == rest[i - 1]);
            }
        }
        assert forall|i: int| 0 <= i < all.len() implies start <= (#[trigger] all[i]).start
            && all[i].start + all[i].size() <= end + 1 by {
            if i > 0 {
                assert(all[i] == rest[i - 1]);
            }
        }
        assert forall|i: int, j: int| 0 <= i < j < all.len() implies (#[trigger] all[i]).start
            + all[i].size() <= (#[trigger] all[j]).start by {
            assert(all[j] == rest[j - 1]);
            if i > 0 {
                assert(all[i] == rest[i - 1]);
            }
        }
    } else {
        assert(all.len() == 0);
    }
}

/// A power of two divides a larger one.
proof fn lemma_pow2_divides(small: nat, large: nat, start: nat)
    requires
        small <= large,
        start % pow2(large) == 0,
    ensures
        start % pow2(small) == 0,
{
    let factor = pow2((large - small) as nat);
    vstd::arithmetic::power2::lemma_pow2_adds(small, (large - small) as nat);
    vstd::arithmetic::power2::lemma_pow2_pos(small);
    vstd::arithmetic::power2::lemma_pow2_pos(large);
    let quotient = start as int / pow2(large) as int;
    vstd::arithmetic::div_mod::lemma_fundamental_div_mod(start as int, pow2(large) as int);
    assert(start == (factor * quotient) * pow2(small)) by (nonlinear_arith)
        requires
            start == pow2(large) * quotient,
            pow2(large) == pow2(small) * factor,
    ;
    vstd::arithmetic::div_mod::lemma_mod_multiples_basic(factor * quotient, pow2(small) as int);
}

/// Where a start is aligned to more than the range is long, each block halves what is left.
proof fn lemma_few_blocks_at_the_end(start: nat, end: nat, bits: nat)
    requires
        end <= u32::MAX,
        start <= end + 1,
        bits <= 32,
        start % pow2(bits) == 0,
        end + 1 - start < pow2(bits),
    ensures
        blocks(start, end).len() <= bits,
    decreases bits,
{
    vstd::arithmetic::power2::lemma2_to64();
    if start <= end {
        let remaining = (end + 1 - start) as nat;
        lemma_widest(start, remaining, 32);
        let chosen = widest(start, remaining, 32);
        let next = start + pow2(chosen);
        assert(chosen < bits) by {
            if chosen >= bits {
                if chosen > bits {
                    vstd::arithmetic::power2::lemma_pow2_strictly_increases(bits, chosen);
                }
            }
        }
        // The next wider block is aligned, so it is too long.
        lemma_pow2_divides(chosen + 1, bits, start);
        assert(pow2(chosen + 1) > remaining);
        vstd::arithmetic::power2::lemma_pow2_unfold(chosen + 1);
        vstd::arithmetic::power2::lemma_pow2_pos(chosen);
        assert(next % pow2(chosen) == 0) by {
            lemma_pow2_divides(chosen, bits, start);
            vstd::arithmetic::div_mod::lemma_mod_add_multiples_vanish(start as int, pow2(chosen) as int);
        }
        assert(end + 1 - next < pow2(chosen));
        lemma_few_blocks_at_the_end(next, end, chosen);
        assert(blocks(start, end).len() == 1 + blocks(next, end).len());
    }
}

/// A range takes at most sixty-five blocks: their sizes first grow, then shrink.
pub proof fn lemma_block_count(start: nat, end: nat, bits: nat)
    requires
        end <= u32::MAX,
        start <= end + 1,
        bits <= 32,
        start % pow2(bits) == 0,
    ensures
        blocks(start, end).len() <= 65 - bits,
    decreases 33 - bits,
{
    vstd::arithmetic::power2::lemma2_to64();
    if start <= end {
        let remaining = (end + 1 - start) as nat;
        lemma_widest(start, remaining, 32);
        let chosen = widest(start, remaining, 32);
        let next = start + pow2(chosen);
        vstd::arithmetic::power2::lemma_pow2_pos(chosen);
        if remaining < pow2(bits) {
            lemma_few_blocks_at_the_end(start, end, bits);
        } else {
            assert(chosen >= bits);
            assert(blocks(start, end).len() == 1 + blocks(next, end).len());
            vstd::arithmetic::power2::lemma_pow2_unfold(chosen + 1);
            assert(next % pow2(chosen) == 0) by {
                vstd::arithmetic::div_mod::lemma_mod_add_multiples_vanish(
                    start as int,
                    pow2(chosen) as int,
                );
            }
            if chosen == 32 {
                assert(next > end);
            } else if start % pow2(chosen + 1) == 0 {
                assert(pow2(chosen + 1) > remaining);
                lemma_few_blocks_at_the_end(next, end, chosen);
            } else {
                lemma_odd_multiple(start, chosen);
                lemma_block_count(next, end, chosen + 1);
            }
        }
    }
}

/// An odd multiple of a power of two plus that power is a multiple of the next one.
proof fn lemma_odd_multiple(start: nat, bits: nat)
    requires
        start % pow2(bits) == 0,
        start % pow2(bits + 1) != 0,
    ensures
        (start + pow2(bits)) % pow2(bits + 1) == 0,
{
    let unit = pow2(bits) as int;
    vstd::arithmetic::power2::lemma_pow2_pos(bits);
    vstd::arithmetic::power2::lemma_pow2_unfold(bits + 1);
    let double = pow2(bits + 1) as int;
    assert(double == 2 * unit);
    let quotient = start as int / unit;
    vstd::arithmetic::div_mod::lemma_fundamental_div_mod(start as int, unit);
    if quotient % 2 == 0 {
        let half = quotient / 2;
        assert(start == half * double) by (nonlinear_arith)
            requires
                start == unit * quotient,
                quotient == 2 * half,
                double == 2 * unit,
        ;
        vstd::arithmetic::div_mod::lemma_mod_multiples_basic(half, double);
    } else {
        let half = (quotient + 1) / 2;
        assert(start + unit == half * double) by (nonlinear_arith)
            requires
                start == unit * quotient,
                quotient + 1 == 2 * half,
                double == 2 * unit,
        ;
        vstd::arithmetic::div_mod::lemma_mod_multiples_basic(half, double);
    }
}

/// The most host bits with which a block at `start` is aligned and fits.
fn widest_bits(start: u32, remaining: u64) -> (found: (u8, u64))
    requires
        1 <= remaining <= 0x1_0000_0000,
    ensures
        found.0 == widest(start as nat, remaining as nat, 32),
        found.0 <= 32,
        found.1 == pow2(found.0 as nat),
        1 <= found.1 <= remaining,
        start as nat % pow2(found.0 as nat) == 0,
{
    proof {
        vstd::arithmetic::power2::lemma2_to64();
        lemma_widest(start as nat, remaining as nat, 32);
    }
    let mut bits: u8 = 32;
    let mut size: u64 = 0x1_0000_0000;
    while bits > 0 && !(start as u64 % size == 0 && size <= remaining)
        invariant
            bits <= 32,
            size == pow2(bits as nat),
            1 <= size <= 0x1_0000_0000,
            widest(start as nat, remaining as nat, 32) == widest(
                start as nat,
                remaining as nat,
                bits as nat,
            ),
        decreases bits,
    {
        proof {
            vstd::arithmetic::power2::lemma_pow2_unfold(bits as nat);
            vstd::arithmetic::power2::lemma_pow2_pos((bits - 1) as nat);
        }
        size = size / 2;
        bits = bits - 1;
    }
    (bits, size)
}

/// The blocks that make up the addresses from `start` to `end`.
pub fn range_to_blocks(start: u32, end: u32) -> (list: Vec<Block>)
    requires
        start <= end,
    ensures
        list@ == blocks(start as nat, end as nat),
        list@.len() <= 65,
{
    proof {
        vstd::arithmetic::power2::lemma2_to64();
        lemma_block_count(start as nat, end as nat, 0);
    }
    let mut list: Vec<Block> = Vec::new();
    let mut cursor: u64 = start as u64;
    while cursor <= end as u64
        invariant
            start <= cursor <= 0x1_0000_0000,
            list@ + blocks(cursor as nat, end as nat) == blocks(start as nat, end as nat),
        decreases end + 1 - cursor,
    {
        let remaining: u64 = end as u64 + 1 - cursor;
        let (bits, size) = widest_bits(cursor as u32, remaining);
        let block = Block { start: cursor as u32, host_bits: bits };
        let ghost before = list@;
        list.push(block);
        proof {
            let rest = blocks((cursor + size) as nat, end as nat);
            assert(blocks(cursor as nat, end as nat) == seq![block] + rest);
            assert(list@ + rest =~= before + (seq![block] + rest));
        }
        cursor = cursor + size;
    }
    proof {
        assert(blocks(cursor as nat, end as nat).len() == 0);
        assert(list@ =~= blocks(start as nat, end as nat));
    }
    list
}

/// The texts of blocks.
pub open spec fn block_texts(list: Seq<Block>) -> Seq<Seq<char>> {
    list.map_values(|block: Block| block.spec_text())
}

/// The texts of aligned blocks.
pub fn texts_of(list: &Vec<Block>) -> (texts: Vec<String>)
    requires
        all_aligned(list@),
    ensures
        text::views(texts@) == block_texts(list@),
{
    let mut texts: Vec<String> = Vec::new();
    let mut i: usize = 0;
    while i < list.len()
        invariant
            i <= list@.len(),
            all_aligned(list@),
            text::views(texts@) == block_texts(list@).take(i as int),
        decreases list@.len() - i,
    {
        let ghost before = text::views(texts@);
        proof {
            assert(list@[i as int].aligned());
        }
        let shown = list[i].to_string();
        texts.push(shown);
        proof {
            assert(text::views(texts@) =~= before.push(shown@));
            assert(text::views(texts@) =~= block_texts(list@).take(i + 1));
        }
        i = i + 1;
    }
    proof {
        assert(block_texts(list@).take(i as int) =~= block_texts(list@));
    }
    texts
}

/// The blocks of a range, each as an address and a prefix length.
pub fn range_to_cidrs(start: u32, end: u32) -> (cidrs: Vec<String>)
    requires
        start <= end,
    ensures
        text::views(cidrs@) == block_texts(blocks(start as nat, end as nat)),
{
    let list = range_to_blocks(start, end);
    proof {
        blocks_cover_exactly_the_range(start as nat, end as nat);
    }
    texts_of(&list)
}

// ---------------------------------------------------------------------------------------------
// Forbidden and public addresses
// ---------------------------------------------------------------------------------------------

/// The ranges that no guest may reach: this network, private, shared, loopback, platform, link-local,
/// protocol, documentation, relay and benchmarking addresses, multicast and everything above.
#[verifier::opaque]
pub open spec fn forbidden() -> Seq<(nat, nat)> {
    seq![
        (net::from_octets(0, 0, 0, 0), net::from_octets(0, 255, 255, 255)),
        (net::from_octets(10, 0, 0, 0), net::from_octets(10, 255, 255, 255)),
        (net::from_octets(100, 64, 0, 0), net::from_octets(100, 127, 255, 255)),
        (net::from_octets(127, 0, 0, 0), net::from_octets(127, 255, 255, 255)),
        (net::from_octets(168, 63, 129, 16), net::from_octets(168, 63, 129, 16)),
        (net::from_octets(169, 254, 0, 0), net::from_octets(169, 254, 255, 255)),
        (net::from_octets(172, 16, 0, 0), net::from_octets(172, 31, 255, 255)),
        (net::from_octets(192, 0, 0, 0), net::from_octets(192, 0, 0, 255)),
        (net::from_octets(192, 0, 2, 0), net::from_octets(192, 0, 2, 255)),
        (net::from_octets(192, 88, 99, 0), net::from_octets(192, 88, 99, 255)),
        (net::from_octets(192, 168, 0, 0), net::from_octets(192, 168, 255, 255)),
        (net::from_octets(198, 18, 0, 0), net::from_octets(198, 19, 255, 255)),
        (net::from_octets(198, 51, 100, 0), net::from_octets(198, 51, 100, 255)),
        (net::from_octets(203, 0, 113, 0), net::from_octets(203, 0, 113, 255)),
        (net::from_octets(224, 0, 0, 0), net::from_octets(255, 255, 255, 255)),
    ]
}

/// The ranges ascend without touching the end of the address space before the last one.
proof fn lemma_forbidden_ascends()
    ensures
        forbidden().len() == 15,
        forall|i: int|
            0 <= i < 15 ==> (#[trigger] forbidden()[i]).0 <= forbidden()[i].1 && forbidden()[i].1
                <= u32::MAX,
        forall|i: int, j: int|
            0 <= i < j < 15 ==> (#[trigger] forbidden()[i]).1 < (#[trigger] forbidden()[j]).0,
        forbidden()[14].1 == u32::MAX,
{
    reveal(forbidden);
    let f = forbidden();
    assert(f[0].1 < f[1].0 && f[1].1 < f[2].0 && f[2].1 < f[3].0 && f[3].1 < f[4].0);
    assert(f[4].1 < f[5].0 && f[5].1 < f[6].0 && f[6].1 < f[7].0 && f[7].1 < f[8].0);
    assert(f[8].1 < f[9].0 && f[9].1 < f[10].0 && f[10].1 < f[11].0 && f[11].1 < f[12].0);
    assert(f[12].1 < f[13].0 && f[13].1 < f[14].0);
}

/// `address` lies in one of the forbidden ranges.
pub open spec fn is_forbidden(address: int) -> bool {
    exists|i: int|
        0 <= i < forbidden().len() && (#[trigger] forbidden()[i]).0 <= address <= forbidden()[i].1
}

/// The blocks of the forbidden ranges, from the first to the one before `count`.
pub open spec fn forbidden_blocks(count: nat) -> Seq<Block>
    decreases count,
{
    if count == 0 {
        Seq::empty()
    } else {
        forbidden_blocks((count - 1) as nat) + blocks(
            forbidden()[count - 1].0,
            forbidden()[count - 1].1,
        )
    }
}

/// The lowest address behind the first `count` forbidden ranges.
pub open spec fn behind(count: nat) -> nat {
    if count == 0 {
        0
    } else {
        forbidden()[count - 1].1 + 1
    }
}

/// The addresses between forbidden range `count - 1` and forbidden range `count`.
pub open spec fn gap_blocks(count: nat) -> Seq<Block> {
    if behind(count) < forbidden()[count as int].0 {
        blocks(behind(count), (forbidden()[count as int].0 - 1) as nat)
    } else {
        Seq::empty()
    }
}

/// The blocks of the gaps before the first `count` forbidden ranges.
pub open spec fn public_blocks(count: nat) -> Seq<Block>
    decreases count,
{
    if count == 0 {
        Seq::empty()
    } else {
        public_blocks((count - 1) as nat) + gap_blocks((count - 1) as nat)
    }
}

/// All blocks of forbidden addresses.
pub open spec fn all_forbidden_blocks() -> Seq<Block> {
    forbidden_blocks(15)
}

/// All blocks of public addresses. The last forbidden range ends the address space, so nothing
/// follows the last gap.
pub open spec fn all_public_blocks() -> Seq<Block> {
    public_blocks(15)
}

proof fn lemma_covers_concat(left: Seq<Block>, right: Seq<Block>, address: int)
    ensures
        covers(left + right, address) == (covers(left, address) || covers(right, address)),
{
    let both = left + right;
    if covers(both, address) {
        let i = choose|i: int| 0 <= i < both.len() && (#[trigger] both[i]).contains(address);
        if i < left.len() {
            assert(left[i].contains(address));
        } else {
            assert(right[i - left.len()].contains(address));
        }
    }
    if covers(left, address) {
        let i = choose|i: int| 0 <= i < left.len() && (#[trigger] left[i]).contains(address);
        assert(both[i].contains(address));
    }
    if covers(right, address) {
        let i = choose|i: int| 0 <= i < right.len() && (#[trigger] right[i]).contains(address);
        assert(both[i + left.len()].contains(address));
    }
}

proof fn lemma_aligned_concat(left: Seq<Block>, right: Seq<Block>)
    requires
        all_aligned(left),
        all_aligned(right),
    ensures
        all_aligned(left + right),
{
    let both = left + right;
    assert forall|i: int| 0 <= i < both.len() implies (#[trigger] both[i]).aligned() by {
        if i < left.len() {
            assert(left[i].aligned());
        } else {
            assert(right[i - left.len()].aligned());
        }
    }
}

/// The blocks lie from `low` on and end at `high` at the latest.
spec fn lies_between(list: Seq<Block>, low: int, high: int) -> bool {
    forall|i: int|
        0 <= i < list.len() ==> low <= (#[trigger] list[i]).start && list[i].start + list[i].size()
            <= high
}

proof fn lemma_ascending_concat(left: Seq<Block>, right: Seq<Block>, low: int, middle: int, high: int)
    requires
        ascending(left),
        ascending(right),
        lies_between(left, low, middle),
        lies_between(right, middle, high),
        low <= middle <= high,
    ensures
        ascending(left + right),
        lies_between(left + right, low, high),
{
    let both = left + right;
    assert forall|i: int| 0 <= i < both.len() implies low <= (#[trigger] both[i]).start
        && both[i].start + both[i].size() <= high by {
        if i < left.len() {
            assert(both[i] == left[i]);
        } else {
            assert(both[i] == right[i - left.len()]);
        }
    }
    assert forall|i: int, j: int| 0 <= i < j < both.len() implies (#[trigger] both[i]).start
        + both[i].size() <= (#[trigger] both[j]).start by {
        if j < left.len() {
            assert(both[i] == left[i] && both[j] == left[j]);
        } else if i < left.len() {
            assert(both[i] == left[i] && both[j] == right[j - left.len()]);
        } else {
            assert(both[i] == right[i - left.len()] && both[j] == right[j - left.len()]);
        }
    }
}

proof fn lemma_forbidden_order(count: nat)
    requires
        count <= 15,
    ensures
        ascending(forbidden_blocks(count)),
        lies_between(forbidden_blocks(count), 0, behind(count) as int),
    decreases count,
{
    if count > 0 {
        lemma_forbidden_ascends();
        let last = (count - 1) as nat;
        lemma_forbidden_order(last);
        let low = forbidden()[last as int].0;
        let high = forbidden()[last as int].1;
        if last > 0 {
            assert(forbidden()[last - 1].1 < forbidden()[last as int].0);
        }
        blocks_cover_exactly_the_range(low, high);
        assert(lies_between(blocks(low, high), behind(last) as int, behind(count) as int));
        lemma_ascending_concat(
            forbidden_blocks(last),
            blocks(low, high),
            0,
            behind(last) as int,
            behind(count) as int,
        );
    }
}

proof fn lemma_public_order(count: nat)
    requires
        count <= 15,
    ensures
        ascending(public_blocks(count)),
        lies_between(public_blocks(count), 0, behind(count) as int),
    decreases count,
{
    if count > 0 {
        lemma_forbidden_ascends();
        let last = (count - 1) as nat;
        lemma_public_order(last);
        let low = forbidden()[last as int].0;
        if last > 0 {
            assert(forbidden()[last - 1].1 < forbidden()[last as int].0);
        }
        if behind(last) < low {
            blocks_cover_exactly_the_range(behind(last), (low - 1) as nat);
        }
        assert(ascending(gap_blocks(last)));
        assert(lies_between(gap_blocks(last), behind(last) as int, behind(count) as int));
        lemma_ascending_concat(
            public_blocks(last),
            gap_blocks(last),
            0,
            behind(last) as int,
            behind(count) as int,
        );
    }
}

proof fn lemma_forbidden_blocks(count: nat)
    requires
        count <= 15,
    ensures
        all_aligned(forbidden_blocks(count)),
        forbidden_blocks(count).len() <= 65 * count,
        forall|address: int| #[trigger]
            covers(forbidden_blocks(count), address) <==> exists|i: int|
                0 <= i < count && (#[trigger] forbidden()[i]).0 <= address <= forbidden()[i].1,
    decreases count,
{
    if count > 0 {
        lemma_forbidden_ascends();
        lemma_forbidden_blocks((count - 1) as nat);
        let earlier = forbidden_blocks((count - 1) as nat);
        let low = forbidden()[count - 1].0;
        let high = forbidden()[count - 1].1;
        blocks_cover_exactly_the_range(low, high);
        vstd::arithmetic::power2::lemma2_to64();
        lemma_block_count(low, high, 0);
        lemma_aligned_concat(earlier, blocks(low, high));
        assert forall|address: int| #[trigger]
            covers(forbidden_blocks(count), address) <==> exists|i: int|
                0 <= i < count && (#[trigger] forbidden()[i]).0 <= address <= forbidden()[i].1 by {
            lemma_covers_concat(earlier, blocks(low, high), address);
            if covers(forbidden_blocks(count), address) && !covers(earlier, address) {
                assert(forbidden()[count - 1].0 <= address <= forbidden()[count - 1].1);
            }
        }
    }
}

proof fn lemma_public_blocks(count: nat)
    requires
        count <= 15,
    ensures
        all_aligned(public_blocks(count)),
        public_blocks(count).len() <= 65 * count,
        forall|address: int| #[trigger]
            covers(public_blocks(count), address) <==> 0 <= address < behind(count) && !exists|i: int|
                0 <= i < count && (#[trigger] forbidden()[i]).0 <= address <= forbidden()[i].1,
    decreases count,
{
    lemma_forbidden_ascends();
    if count > 0 {
        let last = (count - 1) as nat;
        lemma_public_blocks(last);
        let earlier = public_blocks(last);
        let gap = gap_blocks(last);
        let low = forbidden()[last as int].0;
        let high = forbidden()[last as int].1;
        if last > 0 {
            assert(forbidden()[last - 1].1 < forbidden()[last as int].0);
        }
        assert(behind(last) <= low);
        if behind(last) < low {
            blocks_cover_exactly_the_range(behind(last), (low - 1) as nat);
            vstd::arithmetic::power2::lemma2_to64();
            lemma_block_count(behind(last), (low - 1) as nat, 0);
        }
        assert(all_aligned(gap));
        lemma_aligned_concat(earlier, gap);
        assert forall|address: int| #[trigger]
            covers(public_blocks(count), address) <==> 0 <= address < behind(count) && !exists|i: int|
                0 <= i < count && (#[trigger] forbidden()[i]).0 <= address <= forbidden()[i].1 by {
            lemma_covers_concat(earlier, gap, address);
            let banned = exists|i: int|
                0 <= i < count && (#[trigger] forbidden()[i]).0 <= address <= forbidden()[i].1;
            let banned_earlier = exists|i: int|
                0 <= i < last && (#[trigger] forbidden()[i]).0 <= address <= forbidden()[i].1;
            assert(covers(gap, address) <==> behind(last) <= address < low);
            if behind(last) <= address < low {
                assert forall|i: int| 0 <= i < count implies !((#[trigger] forbidden()[i]).0 <= address
                    <= forbidden()[i].1) by {
                    if i < last {
                        if i < last - 1 {
                            assert(forbidden()[i].1 < forbidden()[last - 1].0);
                        }
                    }
                }
                assert(!banned);
            }
            if address < behind(last) && !banned_earlier {
                assert(!(forbidden()[last as int].0 <= address));
                assert(!banned) by {
                    if banned {
                        let i = choose|i: int|
                            0 <= i < count && (#[trigger] forbidden()[i]).0 <= address
                                <= forbidden()[i].1;
                        assert(i < last);
                    }
                }
            }
            if banned_earlier {
                let i = choose|i: int|
                    0 <= i < last && (#[trigger] forbidden()[i]).0 <= address <= forbidden()[i].1;
                assert(0 <= i < count);
                assert(banned);
            }
            if low <= address <= high {
                assert(forbidden()[last as int].0 <= address <= forbidden()[last as int].1);
                assert(banned);
            }
        }
    }
}

/// The forbidden blocks and the public blocks divide the address space between them: an address
/// lies in a forbidden block exactly where it is forbidden, and in a public block exactly where it
/// is not. All of them are aligned, and in each list every block lies wholly before the next ones.
pub proof fn blocks_divide_the_address_space(address: u32)
    ensures
        covers(all_forbidden_blocks(), address as int) <==> is_forbidden(address as int),
        covers(all_public_blocks(), address as int) <==> !is_forbidden(address as int),
        all_aligned(all_forbidden_blocks()),
        all_aligned(all_public_blocks()),
        ascending(all_forbidden_blocks()),
        ascending(all_public_blocks()),
        all_forbidden_blocks().len() <= 975,
        all_public_blocks().len() <= 975,
{
    lemma_forbidden_ascends();
    lemma_forbidden_blocks(15);
    lemma_public_blocks(15);
    lemma_forbidden_order(15);
    lemma_public_order(15);
    assert(behind(15) == 0x1_0000_0000);
    assert(covers(all_public_blocks(), address as int) <==> !is_forbidden(address as int));
    assert(covers(all_forbidden_blocks(), address as int) <==> is_forbidden(address as int));
}

/// The forbidden ranges as pairs of first and last address.
pub fn forbidden_ranges() -> (ranges: Vec<(Ipv4Addr, Ipv4Addr)>)
    ensures
        ranges@.len() == forbidden().len(),
        forall|i: int|
            0 <= i < ranges@.len() ==> (#[trigger] ranges@[i]).0.bits == forbidden()[i].0
                && ranges@[i].1.bits == forbidden()[i].1,
{
    proof {
        reveal(forbidden);
    }
    let mut ranges: Vec<(Ipv4Addr, Ipv4Addr)> = Vec::new();
    ranges.push((Ipv4Addr::new(0, 0, 0, 0), Ipv4Addr::new(0, 255, 255, 255)));
    ranges.push((Ipv4Addr::new(10, 0, 0, 0), Ipv4Addr::new(10, 255, 255, 255)));
    ranges.push((Ipv4Addr::new(100, 64, 0, 0), Ipv4Addr::new(100, 127, 255, 255)));
    ranges.push((Ipv4Addr::new(127, 0, 0, 0), Ipv4Addr::new(127, 255, 255, 255)));
    ranges.push((Ipv4Addr::new(168, 63, 129, 16), Ipv4Addr::new(168, 63, 129, 16)));
    ranges.push((Ipv4Addr::new(169, 254, 0, 0), Ipv4Addr::new(169, 254, 255, 255)));
    ranges.push((Ipv4Addr::new(172, 16, 0, 0), Ipv4Addr::new(172, 31, 255, 255)));
    ranges.push((Ipv4Addr::new(192, 0, 0, 0), Ipv4Addr::new(192, 0, 0, 255)));
    ranges.push((Ipv4Addr::new(192, 0, 2, 0), Ipv4Addr::new(192, 0, 2, 255)));
    ranges.push((Ipv4Addr::new(192, 88, 99, 0), Ipv4Addr::new(192, 88, 99, 255)));
    ranges.push((Ipv4Addr::new(192, 168, 0, 0), Ipv4Addr::new(192, 168, 255, 255)));
    ranges.push((Ipv4Addr::new(198, 18, 0, 0), Ipv4Addr::new(198, 19, 255, 255)));
    ranges.push((Ipv4Addr::new(198, 51, 100, 0), Ipv4Addr::new(198, 51, 100, 255)));
    ranges.push((Ipv4Addr::new(203, 0, 113, 0), Ipv4Addr::new(203, 0, 113, 255)));
    ranges.push((Ipv4Addr::new(224, 0, 0, 0), Ipv4Addr::new(255, 255, 255, 255)));
    ranges
}

/// Whether a guest may reach `address`.
pub fn is_public_ipv4(address: Ipv4Addr) -> (public: bool)
    ensures
        public == !is_forbidden(address.bits as int),
{
    let ranges = forbidden_ranges();
    let mut i: usize = 0;
    while i < ranges.len()
        invariant
            i <= ranges@.len(),
            ranges@.len() == forbidden().len(),
            forall|j: int|
                0 <= j < ranges@.len() ==> (#[trigger] ranges@[j]).0.bits == forbidden()[j].0
                    && ranges@[j].1.bits == forbidden()[j].1,
            forall|j: int|
                0 <= j < i ==> !((#[trigger] forbidden()[j]).0 <= address.bits <= forbidden()[j].1),
        decreases ranges@.len() - i,
    {
        let (low, high) = ranges[i];
        proof {
            assert(ranges@[i as int].0.bits == forbidden()[i as int].0);
        }
        if low.bits <= address.bits && address.bits <= high.bits {
            return false;
        }
        i = i + 1;
    }
    true
}

fn append_blocks(list: &mut Vec<Block>, more: &Vec<Block>)
    ensures
        final(list)@ == old(list)@ + more@,
{
    let ghost start = list@;
    let mut i: usize = 0;
    while i < more.len()
        invariant
            i <= more@.len(),
            list@ == start + more@.take(i as int),
        decreases more@.len() - i,
    {
        list.push(more[i]);
        i = i + 1;
        proof {
            assert(list@ =~= start + more@.take(i as int));
        }
    }
    proof {
        assert(more@.take(i as int) =~= more@);
    }
}

/// The blocks of all forbidden addresses.
pub fn forbidden_ipv4_blocks() -> (list: Vec<Block>)
    ensures
        list@ == all_forbidden_blocks(),
        all_aligned(list@),
        list@.len() <= 975,
{
    let ranges = forbidden_ranges();
    let mut list: Vec<Block> = Vec::new();
    let mut i: usize = 0;
    proof {
        lemma_forbidden_ascends();
        lemma_forbidden_blocks(15);
    }
    while i < ranges.len()
        invariant
            i <= ranges@.len(),
            ranges@.len() == 15,
            forbidden().len() == 15,
            forall|j: int| 0 <= j < 15 ==> (#[trigger] forbidden()[j]).0 <= forbidden()[j].1,
            forall|j: int|
                0 <= j < ranges@.len() ==> (#[trigger] ranges@[j]).0.bits == forbidden()[j].0
                    && ranges@[j].1.bits == forbidden()[j].1,
            list@ == forbidden_blocks(i as nat),
        decreases ranges@.len() - i,
    {
        let (low, high) = ranges[i];
        proof {
            assert(ranges@[i as int].0.bits == forbidden()[i as int].0);
            assert(forbidden()[i as int].0 <= forbidden()[i as int].1);
        }
        let more = range_to_blocks(low.bits, high.bits);
        append_blocks(&mut list, &more);
        i = i + 1;
    }
    list
}

/// The blocks of all public addresses.
pub fn public_ipv4_blocks() -> (list: Vec<Block>)
    ensures
        list@ == all_public_blocks(),
        all_aligned(list@),
        list@.len() <= 975,
{
    let ranges = forbidden_ranges();
    let mut list: Vec<Block> = Vec::new();
    let mut cursor: u64 = 0;
    let mut i: usize = 0;
    proof {
        lemma_forbidden_ascends();
        lemma_public_blocks(15);
    }
    while i < ranges.len()
        invariant
            i <= ranges@.len(),
            ranges@.len() == 15,
            forbidden().len() == 15,
            forall|j: int|
                0 <= j < ranges@.len() ==> (#[trigger] ranges@[j]).0.bits == forbidden()[j].0
                    && ranges@[j].1.bits == forbidden()[j].1,
            cursor == behind(i as nat),
            list@ == public_blocks(i as nat),
        decreases ranges@.len() - i,
    {
        let (low, high) = ranges[i];
        proof {
            assert(ranges@[i as int].0.bits == forbidden()[i as int].0);
        }
        if cursor < low.bits as u64 {
            let more = range_to_blocks(cursor as u32, low.bits - 1);
            append_blocks(&mut list, &more);
        } else {
            proof {
                assert(list@ + Seq::<Block>::empty() =~= list@);
            }
        }
        cursor = high.bits as u64 + 1;
        i = i + 1;
    }
    list
}

pub fn forbidden_ipv4_cidrs() -> (cidrs: Vec<String>)
    ensures
        text::views(cidrs@) == block_texts(all_forbidden_blocks()),
{
    let list = forbidden_ipv4_blocks();
    texts_of(&list)
}

pub fn public_ipv4_cidrs() -> (cidrs: Vec<String>)
    ensures
        text::views(cidrs@) == block_texts(all_public_blocks()),
{
    let list = public_ipv4_blocks();
    texts_of(&list)
}

/// No guest may reach, and every guest with the internet may reach all but: 0.0.0.0/8, 10.0.0.0/8,
/// 100.64.0.0/10, 127.0.0.0/8, 168.63.129.16, 169.254.0.0/16, 172.16.0.0/12, 192.0.0.0/24,
/// 192.0.2.0/24, 192.88.99.0/24, 192.168.0.0/16, 198.18.0.0/15, 198.51.100.0/24, 203.0.113.0/24 and
/// everything from 224.0.0.0 on.
pub proof fn forbidden_addresses(address: u32)
    ensures
        is_forbidden(address as int) <==> {
            ||| address / 0x100_0000 == 0
            ||| address / 0x100_0000 == 10
            ||| address / 0x40_0000 == 100 * 4 + 1
            ||| address / 0x100_0000 == 127
            ||| address == 0xa83f_8110
            ||| address / 0x1_0000 == 169 * 256 + 254
            ||| address / 0x10_0000 == 172 * 16 + 1
            ||| address / 0x100 == 192 * 65536
            ||| address / 0x100 == 192 * 65536 + 2
            ||| address / 0x100 == 192 * 65536 + 88 * 256 + 99
            ||| address / 0x1_0000 == 192 * 256 + 168
            ||| address / 0x2_0000 == 198 * 128 + 9
            ||| address / 0x100 == 198 * 65536 + 51 * 256 + 100
            ||| address / 0x100 == 203 * 65536 + 113
            ||| address / 0x100_0000 >= 224
        },
{
    reveal(forbidden);
    let f = forbidden();
    assert(f.len() == 15);
    let inside = |i: int| f[i].0 <= address <= f[i].1;
    assert(inside(0) <==> address / 0x100_0000 == 0);
    assert(inside(1) <==> address / 0x100_0000 == 10);
    assert(inside(2) <==> address / 0x40_0000 == 100 * 4 + 1);
    assert(inside(3) <==> address / 0x100_0000 == 127);
    assert(inside(4) <==> address == 0xa83f_8110);
    assert(inside(5) <==> address / 0x1_0000 == 169 * 256 + 254);
    assert(inside(6) <==> address / 0x10_0000 == 172 * 16 + 1);
    assert(inside(7) <==> address / 0x100 == 192 * 65536);
    assert(inside(8) <==> address / 0x100 == 192 * 65536 + 2);
    assert(inside(9) <==> address / 0x100 == 192 * 65536 + 88 * 256 + 99);
    assert(inside(10) <==> address / 0x1_0000 == 192 * 256 + 168);
    assert(inside(11) <==> address / 0x2_0000 == 198 * 128 + 9);
    assert(inside(12) <==> address / 0x100 == 198 * 65536 + 51 * 256 + 100);
    assert(inside(13) <==> address / 0x100 == 203 * 65536 + 113);
    assert(inside(14) <==> address / 0x100_0000 >= 224);
    if is_forbidden(address as int) {
        let i = choose|i: int| 0 <= i < f.len() && (#[trigger] f[i]).0 <= address <= f[i].1;
        assert(inside(i));
    }
}

/// The text of a block is read back as its first address and the length of its prefix, so it names
/// exactly the addresses of the block.
pub proof fn block_texts_name_their_addresses(block: Block)
    requires
        block.aligned(),
    ensures
        backend::network_value(block.spec_text()) == Ok::<backend::NetworkView, backend::Fault>(
            backend::NetworkView::V4(block.start as nat, (32 - block.host_bits) as nat),
        ),
        forall|address: int| #[trigger]
            block.contains(address) <==> block.start <= address < block.start + pow2(
                block.host_bits as nat,
            ),
{
    let network = backend::NetworkView::V4(block.start as nat, (32 - block.host_bits) as nat);
    address_text::shown_networks_read_back(network);
    assert(backend::network_text(network) == block.spec_text());
}

} // verus!
