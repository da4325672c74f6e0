use vstd::prelude::*;

verus! {

/// The SHA-256 digest of `b`, as eight 32-bit words.
pub uninterp spec fn sha256_of(b: Seq<u8>) -> Seq<u32>;

/// Relies on sha::sha256::ops::digest: the SHA-256 digest of the bytes, as
/// eight words.
#[verifier::external_body]
fn sha256_words(b: &Vec<u8>) -> (r: Vec<u32>)
    ensures
        r@ == sha256_of(b@),
        r@.len() == 8,
{
    sha::sha256::ops::digest(b.as_slice()).to_vec()
}

/// The lower-case hexadecimal digit for `d`.
pub open spec fn hex_digit(d: u8) -> char {
    if d < 10 {
        ('0' as u8 + d) as char
    } else {
        ('a' as u8 + (d - 10)) as char
    }
}

/// Lower-case hexadecimal text of `b`: two digits per byte, high half first.
pub open spec fn hex_of(b: Seq<u8>) -> Seq<char>
    decreases b.len(),
{
    if b.len() == 0 {
        Seq::empty()
    } else {
        hex_of(b.drop_last()) + seq![hex_digit(b.last() / 16), hex_digit(b.last() % 16)]
    }
}

/// Relies on hex::encode: two lower-case hexadecimal digits for each byte, in order.
#[verifier::external_body]
fn to_hex(b: &Vec<u8>) -> (r: String)
    ensures
        r@ == hex_of(b@),
{
    hex::encode(b)
}

/// The four bytes of `x`, most significant first.
pub open spec fn be_bytes(x: u32) -> Seq<u8> {
    seq![(x / 0x1000000) as u8, (x / 0x10000 % 0x100) as u8, (x / 0x100 % 0x100) as u8, (x % 0x100) as u8]
}

/// The bytes of the words, each word most significant byte first.
pub open spec fn bytes_of_words(ws: Seq<u32>) -> Seq<u8>
    decreases ws.len(),
{
    if ws.len() == 0 {
        Seq::empty()
    } else {
        bytes_of_words(ws.drop_last()) + be_bytes(ws.last())
    }
}

/// The four bytes of `x`, most significant first.
pub fn to_u8s(x: u32) -> (r: [u8; 4])
    ensures
        r@ == be_bytes(x),
{
    let b1: u8 = ((x >> 24) & 0xff) as u8;
    let b2: u8 = ((x >> 16) & 0xff) as u8;
    let b3: u8 = ((x >> 8) & 0xff) as u8;
    let b4: u8 = (x & 0xff) as u8;
    assert((x >> 24) & 0xff == x / 0x1000000) by (bit_vector);
    assert((x >> 16) & 0xff == x / 0x10000 % 0x100) by (bit_vector);
    assert((x >> 8) & 0xff == x / 0x100 % 0x100) by (bit_vector);
    assert(x & 0xff == x % 0x100) by (bit_vector);
    let r = [b1, b2, b3, b4];
    assert(r@ =~= be_bytes(x));
    r
}

proof fn lemma_bytes_len(ws: Seq<u32>)
    ensures
        bytes_of_words(ws).len() == 4 * ws.len(),
    decreases ws.len(),
{
    if ws.len() > 0 {
        lemma_bytes_len(ws.drop_last());
    }
}

proof fn lemma_hex_len(b: Seq<u8>)
    ensures
        hex_of(b).len() == 2 * b.len(),
    decreases b.len(),
{
    if b.len() > 0 {
        lemma_hex_len(b.drop_last());
    }
}

/// Hexadecimal text of digest words, each word most significant byte first.
pub fn anchor_of_digest(words: &Vec<u32>) -> (r: String)
    ensures
        r@ == hex_of(bytes_of_words(words@)),
        r@.len() == 8 * words@.len(),
{
    let mut out: Vec<u8> = Vec::new();
    let mut i: usize = 0;
    while i < words.len()
        invariant
            0 <= i <= words@.len(),
            out@ == bytes_of_words(words@.take(i as int)),
        decreases words@.len() - i,
    {
        let quad = to_u8s(words[i]);
        out.push(quad[0]);
        out.push(quad[1]);
        out.push(quad[2]);
        out.push(quad[3]);
        assert(words@.take(i + 1).drop_last() =~= words@.take(i as int));
        assert(out@ =~= bytes_of_words(words@.take(i + 1)));
        i += 1;
    }
    assert(words@.take(words@.len() as int) =~= words@);
    proof {
        lemma_bytes_len(words@);
        lemma_hex_len(out@);
    }
    to_hex(&out)
}

/// The content anchor of archive bytes: the hexadecimal text of their SHA-256
/// digest, 64 characters long.
pub fn calc_sha(bytes: &Vec<u8>) -> (r: String)
    ensures
        r@ == hex_of(bytes_of_words(sha256_of(bytes@))),
        r@.len() == 64,
{
    let words = sha256_words(bytes);
    anchor_of_digest(&words)
}

} // verus!
