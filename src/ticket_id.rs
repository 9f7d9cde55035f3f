use vstd::prelude::*;
use vstd::utf8::encode_utf8;
use sha2::Digest;
use rand::Rng;

verus! {

/// Number of random bytes mixed into each ticket identifier.
pub const ENTROPY_LEN: usize = 32;

/// The SHA-256 digest of a byte sequence.
pub uninterp spec fn sha256_of(data: Seq<u8>) -> Seq<u8>;

/// Lowercase hexadecimal digit for a value below 16.
pub open spec fn hex_digit(n: u8) -> char {
    if n < 10 {
        ((48 + n) as u8) as char
    } else {
        ((87 + n) as u8) as char
    }
}

/// Lowercase hexadecimal text of a byte sequence, high nibble first.
pub open spec fn hex_lower(b: Seq<u8>) -> Seq<char>
    decreases b.len(),
{
    if b.len() == 0 {
        Seq::empty()
    } else {
        hex_lower(b.drop_last()) + seq![hex_digit(b.last() / 16), hex_digit(b.last() % 16)]
    }
}

/// Identifier of a ticket bought by `caller` with the random bytes `entropy`:
/// the hex text of the SHA-256 digest of the caller's UTF-8 bytes followed by
/// the random bytes.
pub open spec fn ticket_id_of(caller: Seq<char>, entropy: Seq<u8>) -> Seq<char> {
    hex_lower(sha256_of(encode_utf8(caller) + entropy))
}

/// Relies on `sha2::Sha256::digest`: the 32-byte SHA-256 digest of `data`.
#[verifier::external_body]
fn sha256(data: &[u8]) -> (r: Vec<u8>)
    ensures
        r@ == sha256_of(data@),
        r@.len() == 32,
{
    sha2::Sha256::digest(data).to_vec()
}

/// Relies on `hex::encode`: two lowercase hex digits per byte, high nibble first.
#[verifier::external_body]
fn hex_encode(data: &[u8]) -> (r: String)
    ensures
        r@ == hex_lower(data@),
{
    hex::encode(data)
}

/// Relies on `rand::random::<u8>`: an arbitrary byte from the thread-local generator.
#[verifier::external_body]
fn random_byte() -> (r: u8) {
    rand::random::<u8>()
}

/// Relies on `rand::Rng::gen_range` over `thread_rng()`: a value in `0..n`;
/// it panics on an empty range, which `requires` rules out.
#[verifier::external_body]
pub(crate) fn random_index(n: usize) -> (r: usize)
    requires
        n > 0,
    ensures
        r < n,
{
    rand::thread_rng().gen_range(0..n)
}

/// Draws the random bytes that go into a new ticket identifier.
pub fn draw_entropy() -> (r: Vec<u8>)
    ensures
        r@.len() == ENTROPY_LEN,
{
    let mut r: Vec<u8> = Vec::new();
    let mut i: usize = 0;
    while i < ENTROPY_LEN
        invariant
            i <= ENTROPY_LEN,
            r@.len() == i,
        decreases ENTROPY_LEN - i,
    {
        r.push(random_byte());
        i = i + 1;
    }
    r
}

/// Identifier of the ticket that `caller` buys with the random bytes `entropy`.
pub fn ticket_id(caller: &str, entropy: &[u8]) -> (r: String)
    ensures
        r@ == ticket_id_of(caller@, entropy@),
{
    let mut data: Vec<u8> = Vec::new();
    let bytes = caller.as_bytes();
    let mut i: usize = 0;
    while i < bytes.len()
        invariant
            i <= bytes@.len(),
            bytes@ == encode_utf8(caller@),
            data@ == bytes@.subrange(0, i as int),
        decreases bytes@.len() - i,
    {
        data.push(bytes[i]);
        i = i + 1;
    }
    let mut j: usize = 0;
    while j < entropy.len()
        invariant
            j <= entropy@.len(),
            data@ == bytes@ + entropy@.subrange(0, j as int),
        decreases entropy@.len() - j,
    {
        data.push(entropy[j]);
        j = j + 1;
    }
    assert(data@ =~= encode_utf8(caller@) + entropy@);
    let digest = sha256(data.as_slice());
    hex_encode(digest.as_slice())
}

} // verus!
