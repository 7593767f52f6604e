//! SHA-256 digests and their hexadecimal text.

use sha2::Digest;
use vstd::prelude::*;
use vstd::string::*;

use crate::net;
use crate::text;

verus! {

#[verifier::external_type_specification]
#[verifier::external_body]
pub struct ExSha256(sha2::Sha256);

/// The bytes that SHA-256 gives for `message`.
pub uninterp spec fn sha256(message: Seq<u8>) -> Seq<u8>;

/// The bytes that a running SHA-256 computation has taken in so far.
pub uninterp spec fn absorbed(hasher: sha2::Sha256) -> Seq<u8>;

/// `Sha256::new` starts a computation that has taken in nothing.
#[verifier::external_body]
fn hasher_new() -> (hasher: sha2::Sha256)
    ensures
        absorbed(hasher) == Seq::<u8>::empty(),
{
    sha2::Sha256::new()
}

/// `Digest::update` for `Sha256` takes in `bytes` behind what was taken in before.
#[verifier::external_body]
fn hasher_update(hasher: &mut sha2::Sha256, bytes: &[u8])
    ensures
        absorbed(*final(hasher)) == absorbed(*old(hasher)) + bytes@,
{
    hasher.update(bytes)
}

/// `Digest::finalize` for `Sha256` gives the digest, always 32 bytes, of all that was taken in.
#[verifier::external_body]
fn hasher_finalize(hasher: sha2::Sha256) -> (digest: Vec<u8>)
    ensures
        digest@ == sha256(absorbed(hasher)),
        digest@.len() == 32,
{
    hasher.finalize().to_vec()
}

/// Two lower-case hexadecimal digits for each byte.
pub open spec fn hex_text(bytes: Seq<u8>) -> Seq<char> {
    Seq::new(
        2 * bytes.len(),
        |k: int|
            if k % 2 == 0 {
                net::hex_char((bytes[k / 2] / 16) as nat)
            } else {
                net::hex_char((bytes[k / 2] % 16) as nat)
            },
    )
}

fn hex_digit(digit: u8) -> (c: char)
    requires
        digit < 16,
    ensures
        c == net::hex_char(digit as nat),
{
    if digit < 10 {
        (48u8 + digit) as char
    } else {
        (87u8 + digit) as char
    }
}

pub fn hex_string(bytes: &Vec<u8>) -> (shown: String)
    ensures
        shown@ == hex_text(bytes@),
{
    let mut shown: String = String::new();
    let mut i: usize = 0;
    while i < bytes.len()
        invariant
            i <= bytes@.len(),
            shown@ == hex_text(bytes@).take(2 * i),
        decreases bytes@.len() - i,
    {
        let byte: u8 = bytes[i];
        let ghost before = shown@;
        shown.push(hex_digit(byte / 16));
        shown.push(hex_digit(byte % 16));
        proof {
            let all = hex_text(bytes@);
            assert((2 * i + 1) / 2 == i as int);
            assert(shown@ =~= all.take(2 * (i + 1)));
        }
        i = i + 1;
    }
    proof {
        assert(hex_text(bytes@).take(2 * i) =~= hex_text(bytes@));
    }
    shown
}

/// The hexadecimal digest of `message`.
pub open spec fn sha256_text(message: Seq<u8>) -> Seq<char> {
    hex_text(sha256(message))
}

/// A digest of 32 bytes is shown as 64 hexadecimal digits.
pub proof fn lemma_hex_text(bytes: Seq<u8>)
    ensures
        hex_text(bytes).len() == 2 * bytes.len(),
        text::all_hex(hex_text(bytes)),
{
    assert forall|k: int| 0 <= k < hex_text(bytes).len() implies text::is_hex_digit(
        #[trigger] hex_text(bytes)[k],
    ) by {
        assert(0 <= k / 2 < bytes.len());
        assert(bytes[k / 2] / 16 < 16);
        assert(bytes[k / 2] % 16 < 16);
    }
}

/// The hexadecimal digest of bytes at hand.
pub fn sha256_bytes(bytes: &[u8]) -> (shown: String)
    ensures
        shown@ == sha256_text(bytes@),
        shown@.len() == 64,
        text::all_hex(shown@),
{
    let mut hasher = hasher_new();
    hasher_update(&mut hasher, bytes);
    let digest = hasher_finalize(hasher);
    proof {
        assert(Seq::<u8>::empty() + bytes@ =~= bytes@);
        lemma_hex_text(digest@);
    }
    hex_string(&digest)
}

/// A digest over a stream, with the count of its bytes.
pub struct StreamDigest {
    pub hasher: sha2::Sha256,
    pub copied: u64,
}

impl StreamDigest {
    /// The bytes taken in so far.
    pub open spec fn content(&self) -> Seq<u8> {
        absorbed(self.hasher)
    }

    /// The count is that of the bytes taken in, cut to 64 bits.
    pub open spec fn well_formed(&self) -> bool {
        self.copied == if self.content().len() <= u64::MAX {
            self.content().len()
        } else {
            u64::MAX as nat
        }
    }

    pub fn new() -> (stream: StreamDigest)
        ensures
            stream.well_formed(),
            stream.content() == Seq::<u8>::empty(),
    {
        StreamDigest { hasher: hasher_new(), copied: 0 }
    }

    /// Takes in the next bytes of the stream.
    pub fn absorb(&mut self, chunk: &[u8])
        requires
            old(self).well_formed(),
        ensures
            final(self).well_formed(),
            final(self).content() == old(self).content() + chunk@,
    {
        hasher_update(&mut self.hasher, chunk);
        self.copied = self.copied.saturating_add(chunk.len() as u64);
    }

    /// The hexadecimal digest of the whole stream.
    pub fn finish(self) -> (shown: String)
        ensures
            shown@ == sha256_text(self.content()),
            shown@.len() == 64,
            text::all_hex(shown@),
    {
        let digest = hasher_finalize(self.hasher);
        proof {
            lemma_hex_text(digest@);
        }
        hex_string(&digest)
    }

    /// The hexadecimal digest, where the stream had the expected length.
    pub fn finish_exactly(self, expected_len: u64) -> (shown: Option<String>)
        requires
            self.well_formed(),
        ensures
            match shown {
                Some(digest) => self.copied == expected_len && digest@ == sha256_text(self.content())
                    && digest@.len() == 64 && text::all_hex(digest@),
                None => self.copied != expected_len,
            },
    {
        if self.copied != expected_len {
            None
        } else {
            Some(self.finish())
        }
    }
}

/// The value of a hexadecimal digit.
pub open spec fn hex_value(c: char) -> int {
    if '0' <= c <= '9' {
        c as u32 - 48
    } else {
        c as u32 - 87
    }
}

/// A digest is shown by two lower-case digits for each byte, the higher one first, from which the bytes
/// can be read again.
pub proof fn digests_are_shown_byte_by_byte(bytes: Seq<u8>, i: int)
    requires
        0 <= i < bytes.len(),
    ensures
        hex_text(bytes).len() == 2 * bytes.len(),
        16 * hex_value(hex_text(bytes)[2 * i]) + hex_value(hex_text(bytes)[2 * i + 1]) == bytes[i],
        0 <= hex_value(hex_text(bytes)[2 * i]) < 16,
        0 <= hex_value(hex_text(bytes)[2 * i + 1]) < 16,
        ({
            let c = hex_text(bytes)[2 * i];
            '0' <= c <= '9' || 'a' <= c <= 'f'
        }),
        ({
            let c = hex_text(bytes)[2 * i + 1];
            '0' <= c <= '9' || 'a' <= c <= 'f'
        }),
{
    assert((2 * i) / 2 == i && (2 * i) % 2 == 0);
    assert((2 * i + 1) / 2 == i && (2 * i + 1) % 2 == 1);
}

} // verus!
