//! The length prefix of text and byte strings: seven bits to a byte, lowest
//! group first, the high bit set on every byte but the last.

use super::error::Fault;
use vstd::prelude::*;

verus! {

/// The most groups a reader accepts.
pub const MAX_GROUPS: u32 = 5;

/// One more than the largest length that five groups can spell.
pub const LENGTH_LIMIT: u64 = 0x8_0000_0000;

/// The prefix that announces `n` bytes: as few groups as hold `n`.
pub open spec fn length_prefix(n: nat) -> Seq<u8>
    decreases n,
{
    if n < 128 {
        seq![n as u8]
    } else {
        seq![(n % 128 + 128) as u8] + length_prefix(n / 128)
    }
}

/// What a reader makes of the groups at the head of `b`, `k` groups having
/// gone before: the number they spell and the bytes after them.
///
/// The source running dry is an I/O fault; a fifth group that asks for a
/// sixth is an illegal length, whether or not a sixth is there.
pub open spec fn parse_groups(b: Seq<u8>, k: nat) -> Result<(nat, Seq<u8>), Fault>
    decreases MAX_GROUPS - k,
{
    if b.len() == 0 {
        Err(Fault::IOError)
    } else if b[0] < 128 {
        Ok((b[0] as nat, b.skip(1)))
    } else if k + 1 >= MAX_GROUPS {
        Err(Fault::IllegalStringLength)
    } else {
        match parse_groups(b.skip(1), k + 1) {
            Ok((high, rest)) => Ok(((b[0] - 128 + 128 * high) as nat, rest)),
            Err(fault) => Err(fault),
        }
    }
}

/// The length that the prefix at the head of `b` announces, and the bytes
/// after the prefix.
pub open spec fn parse_length(b: Seq<u8>) -> Result<(nat, Seq<u8>), Fault> {
    parse_groups(b, 0)
}

/// A byte string on the wire: its length prefix, then the bytes.
pub open spec fn blob(bytes: Seq<u8>) -> Seq<u8> {
    length_prefix(bytes.len()) + bytes
}

/// The byte string at the head of `b`, and what follows it. A prefix that
/// announces more bytes than are left is an I/O fault.
pub open spec fn parse_blob(b: Seq<u8>) -> Result<(Seq<u8>, Seq<u8>), Fault> {
    match parse_length(b) {
        Err(fault) => Err(fault),
        Ok((n, rest)) => if rest.len() < n {
            Err(Fault::IOError)
        } else {
            Ok((rest.take(n as int), rest.skip(n as int)))
        },
    }
}

/// `128` to the power `k`.
pub open spec fn scale(k: nat) -> nat
    decreases k,
{
    if k == 0 {
        1
    } else {
        128 * scale((k - 1) as nat)
    }
}

/// No power of 128 is zero.
pub proof fn lemma_scale_positive(k: nat)
    ensures
        scale(k) >= 1,
        k >= 1 ==> scale(k) >= 128,
    decreases k,
{
    if k >= 1 {
        lemma_scale_positive((k - 1) as nat);
    }
}

/// The first five powers of 128.
pub proof fn lemma_scale_values()
    ensures
        scale(0) == 1,
        scale(1) == 0x80,
        scale(2) == 0x4000,
        scale(3) == 0x20_0000,
        scale(4) == 0x1000_0000,
        scale(5) == LENGTH_LIMIT,
{
    reveal_with_fuel(scale, 6);
}

/// A prefix written for a length that `MAX_GROUPS - k` groups can hold reads
/// back as that length, whatever follows it.
pub proof fn lemma_groups_read_back(n: nat, k: nat, rest: Seq<u8>)
    requires
        k < MAX_GROUPS,
        n < scale((MAX_GROUPS - k) as nat),
    ensures
        parse_groups(length_prefix(n) + rest, k) == Ok::<(nat, Seq<u8>), Fault>((n, rest)),
    decreases n,
{
    let b = length_prefix(n) + rest;
    if n < 128 {
        assert(b[0] == n);
        assert(b.skip(1) =~= rest);
    } else {
        assert(b[0] == n % 128 + 128);
        assert(b.skip(1) =~= length_prefix(n / 128) + rest);
        assert(k + 1 < MAX_GROUPS) by {
            reveal_with_fuel(scale, 2);
        }
        lemma_groups_read_back(n / 128, k + 1, rest);
    }
}

/// Every length below [`LENGTH_LIMIT`] survives being written and read.
pub proof fn lemma_length_reads_back(n: nat, rest: Seq<u8>)
    requires
        n < LENGTH_LIMIT,
    ensures
        parse_length(length_prefix(n) + rest) == Ok::<(nat, Seq<u8>), Fault>((n, rest)),
{
    lemma_scale_values();
    lemma_groups_read_back(n, 0, rest);
}

/// A byte string shorter than [`LENGTH_LIMIT`] survives being written and
/// read.
pub proof fn lemma_blob_reads_back(bytes: Seq<u8>, rest: Seq<u8>)
    requires
        bytes.len() < LENGTH_LIMIT,
    ensures
        parse_blob(blob(bytes) + rest) == Ok::<(Seq<u8>, Seq<u8>), Fault>((bytes, rest)),
{
    lemma_length_reads_back(bytes.len(), bytes + rest);
    assert(blob(bytes) + rest =~= length_prefix(bytes.len()) + (bytes + rest));
    assert((bytes + rest).take(bytes.len() as int) =~= bytes);
    assert((bytes + rest).skip(bytes.len() as int) =~= rest);
}

/// A length that needs a sixth group is written with one, and no reader
/// takes it.
pub proof fn lemma_long_prefix_refused(n: nat, rest: Seq<u8>)
    requires
        n >= LENGTH_LIMIT,
    ensures
        parse_length(length_prefix(n) + rest) == Err::<(nat, Seq<u8>), Fault>(
            Fault::IllegalStringLength,
        ),
{
    lemma_scale_values();
    lemma_long_groups_refused(n, 0, rest);
}

/// The same, from group `k` on.
pub proof fn lemma_long_groups_refused(n: nat, k: nat, rest: Seq<u8>)
    requires
        k < MAX_GROUPS,
        n >= scale((MAX_GROUPS - k) as nat),
    ensures
        parse_groups(length_prefix(n) + rest, k) == Err::<(nat, Seq<u8>), Fault>(
            Fault::IllegalStringLength,
        ),
    decreases MAX_GROUPS - k,
{
    let b = length_prefix(n) + rest;
    lemma_scale_positive((MAX_GROUPS - k) as nat);
    assert(n >= 128);
    assert(b[0] == n % 128 + 128);
    assert(b.skip(1) =~= length_prefix(n / 128) + rest);
    if k + 1 < MAX_GROUPS {
        lemma_long_groups_refused(n / 128, k + 1, rest);
    }
}

} // verus!
