//! Peer identities.
//!
//! A validator is known by the 32 bytes of its public key. The service looks peers up by those
//! bytes alone, read as two big-endian integers.
use solana_pubkey::Pubkey;
use vstd::prelude::*;

verus! {

/// The public key of a peer: its first and its last 16 bytes, each as a big-endian integer.
pub type PeerId = (u128, u128);

/// Number of bytes in each half of a [`PeerId`].
pub const HALF_BYTES: usize = 16;

/// `Pubkey` of `solana_pubkey`, carried as an opaque value.
#[verifier::external_type_specification]
#[verifier::external_body]
pub struct ExPubkey(Pubkey);

/// The bytes that a public key holds.
pub uninterp spec fn pubkey_bytes(key: Pubkey) -> Seq<u8>;

/// `Pubkey::to_bytes` hands out the 32 bytes that the key is made of, in order.
pub assume_specification[ Pubkey::to_bytes ](key: &Pubkey) -> (bytes: [u8; 32])
    ensures
        bytes@ == pubkey_bytes(*key),
;

/// The number that `bytes` spell in base 256, most significant byte first.
pub open spec fn be_value(bytes: Seq<u8>) -> nat
    decreases bytes.len(),
{
    if bytes.len() == 0 {
        0
    } else {
        be_value(bytes.drop_last()) * 256 + bytes.last() as nat
    }
}

/// The identity of the peer whose public key has these bytes.
pub open spec fn peer_id_of(bytes: Seq<u8>) -> PeerId {
    (
        be_value(bytes.subrange(0, HALF_BYTES as int)) as u128,
        be_value(bytes.subrange(HALF_BYTES as int, 2 * HALF_BYTES)) as u128,
    )
}

/// How many numbers `n` bytes can spell.
spec fn byte_range(n: nat) -> nat
    decreases n,
{
    if n == 0 {
        1
    } else {
        byte_range((n - 1) as nat) * 256
    }
}

proof fn lemma_be_value_in_range(bytes: Seq<u8>)
    ensures
        be_value(bytes) < byte_range(bytes.len()),
    decreases bytes.len(),
{
    if bytes.len() > 0 {
        lemma_be_value_in_range(bytes.drop_last());
    }
}

proof fn lemma_byte_range_half(n: nat)
    requires
        n <= HALF_BYTES,
    ensures
        byte_range(n) <= 0x1_0000_0000_0000_0000_0000_0000_0000_0000int,
{
    reveal_with_fuel(byte_range, 17);
}

proof fn lemma_be_value_injective(a: Seq<u8>, b: Seq<u8>)
    requires
        a.len() == b.len(),
        be_value(a) == be_value(b),
    ensures
        a == b,
    decreases a.len(),
{
    if a.len() > 0 {
        lemma_be_value_injective(a.drop_last(), b.drop_last());
        assert(a =~= a.drop_last().push(a.last()));
        assert(b =~= b.drop_last().push(b.last()));
    } else {
        assert(a =~= b);
    }
}

/// Different public keys have different identities, and equal ones the same.
pub proof fn peer_ids_tell_keys_apart(a: Seq<u8>, b: Seq<u8>)
    requires
        a.len() == 2 * HALF_BYTES,
        b.len() == 2 * HALF_BYTES,
    ensures
        peer_id_of(a) == peer_id_of(b) <==> a == b,
{
    let half = HALF_BYTES as int;
    if peer_id_of(a) == peer_id_of(b) {
        lemma_byte_range_half(HALF_BYTES as nat);
        lemma_be_value_in_range(a.subrange(0, half));
        lemma_be_value_in_range(b.subrange(0, half));
        lemma_be_value_in_range(a.subrange(half, 2 * half));
        lemma_be_value_in_range(b.subrange(half, 2 * half));
        lemma_be_value_injective(a.subrange(0, half), b.subrange(0, half));
        lemma_be_value_injective(a.subrange(half, 2 * half), b.subrange(half, 2 * half));
        assert(a =~= a.subrange(0, half) + a.subrange(half, 2 * half));
        assert(b =~= b.subrange(0, half) + b.subrange(half, 2 * half));
    }
}

proof fn lemma_be_value_weighs_bytes(bytes: Seq<u8>, at: int)
    requires
        0 <= at < bytes.len(),
        bytes[at] < u8::MAX,
    ensures
        be_value(bytes.update(at, (bytes[at] + 1) as u8)) == be_value(bytes) + byte_range(
            (bytes.len() - 1 - at) as nat,
        ),
    decreases bytes.len(),
{
    let raised = bytes.update(at, (bytes[at] + 1) as u8);
    let last = bytes.len() - 1;
    if at == last {
        assert(raised.drop_last() =~= bytes.drop_last());
    } else {
        let rest = bytes.drop_last();
        lemma_be_value_weighs_bytes(rest, at);
        assert(raised.drop_last() =~= rest.update(at, (rest[at] + 1) as u8));
    }
}

proof fn lemma_byte_range_is_power(n: nat)
    ensures
        byte_range(n) == vstd::arithmetic::power::pow(256, n),
    decreases n,
{
    reveal(vstd::arithmetic::power::pow);
    if n > 0 {
        lemma_byte_range_is_power((n - 1) as nat);
        vstd::arithmetic::mul::lemma_mul_is_commutative(
            256,
            vstd::arithmetic::power::pow(256, (n - 1) as nat),
        );
    }
}

proof fn lemma_zeros_have_no_value(zeros: Seq<u8>)
    requires
        forall|i: int| 0 <= i < zeros.len() ==> zeros[i] == 0,
    ensures
        be_value(zeros) == 0,
    decreases zeros.len(),
{
    if zeros.len() > 0 {
        lemma_zeros_have_no_value(zeros.drop_last());
    }
}

/// The key that is all zeros has the identity zero.
pub proof fn identities_start_at_zero(zeros: Seq<u8>)
    requires
        zeros.len() == 2 * HALF_BYTES,
        forall|i: int| 0 <= i < zeros.len() ==> zeros[i] == 0,
    ensures
        peer_id_of(zeros) == (0u128, 0u128),
{
    lemma_zeros_have_no_value(zeros.subrange(0, HALF_BYTES as int));
    lemma_zeros_have_no_value(zeros.subrange(HALF_BYTES as int, 2 * HALF_BYTES));
}

/// A byte of the first 16 that is one higher makes the first half higher by its place value in
/// base 256, the first byte weighing most, and leaves the second half alone; a byte of the last 16
/// does the same to the second half.
pub proof fn identities_weigh_bytes_by_place(bytes: Seq<u8>, at: int)
    requires
        bytes.len() == 2 * HALF_BYTES,
        0 <= at < bytes.len(),
        bytes[at] < u8::MAX,
    ensures
        ({
            let id = peer_id_of(bytes);
            let raised = peer_id_of(bytes.update(at, (bytes[at] + 1) as u8));
            &&& at < 16 ==> raised.0 == id.0 + vstd::arithmetic::power::pow(256, (15 - at) as nat)
                && raised.1 == id.1
            &&& at >= 16 ==> raised.1 == id.1 + vstd::arithmetic::power::pow(
                256,
                (31 - at) as nat,
            ) && raised.0 == id.0
        }),
{
    let half = HALF_BYTES as int;
    let raised = bytes.update(at, (bytes[at] + 1) as u8);
    let (first, second) = (bytes.subrange(0, half), bytes.subrange(half, 2 * half));
    let (raised_first, raised_second) = (
        raised.subrange(0, half),
        raised.subrange(half, 2 * half),
    );
    lemma_byte_range_half(HALF_BYTES as nat);
    lemma_be_value_in_range(first);
    lemma_be_value_in_range(second);
    lemma_be_value_in_range(raised_first);
    lemma_be_value_in_range(raised_second);
    if at < half {
        lemma_be_value_weighs_bytes(first, at);
        lemma_byte_range_is_power((15 - at) as nat);
        assert(raised_first =~= first.update(at, (first[at] + 1) as u8));
        assert(raised_second =~= second);
    } else {
        lemma_be_value_weighs_bytes(second, at - half);
        lemma_byte_range_is_power((31 - at) as nat);
        assert(raised_second =~= second.update(at - half, (second[at - half] + 1) as u8));
        assert(raised_first =~= first);
    }
}

/// Reads the 16 bytes from `start` on as a big-endian integer.
fn read_half(bytes: &[u8; 32], start: usize) -> (value: u128)
    requires
        start <= HALF_BYTES,
    ensures
        value == be_value(bytes@.subrange(start as int, start + HALF_BYTES)),
{
    let mut value: u128 = 0;
    let mut read: usize = 0;
    while read < HALF_BYTES
        invariant
            start <= HALF_BYTES,
            read <= HALF_BYTES,
            value == be_value(bytes@.subrange(start as int, start + read)),
        decreases HALF_BYTES - read,
    {
        proof {
            let prefix = bytes@.subrange(start as int, start + read);
            let next = bytes@.subrange(start as int, start + read + 1);
            assert(next.drop_last() =~= prefix);
            lemma_be_value_in_range(next);
            lemma_byte_range_half(next.len());
        }
        value = value * 256 + bytes[start + read] as u128;
        read = read + 1;
    }
    value
}

/// The identity of the peer whose public key has these bytes.
pub fn peer_id_from_bytes(bytes: &[u8; 32]) -> (id: PeerId)
    ensures
        id == peer_id_of(bytes@),
{
    (read_half(bytes, 0), read_half(bytes, HALF_BYTES))
}

/// The identity of the peer with this public key.
pub fn peer_id(key: &Pubkey) -> (id: PeerId)
    ensures
        id == peer_id_of(pubkey_bytes(*key)),
        pubkey_bytes(*key).len() == 2 * HALF_BYTES,
{
    let bytes = key.to_bytes();
    peer_id_from_bytes(&bytes)
}

} // verus!
