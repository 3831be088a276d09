//! SHA-256 digest and lowercase hex encoding, used for the runtime configuration hash.

use vstd::prelude::*;

verus! {

// ─── hex encoding ───────────────────────────────────────────────────────────────

/// Lowercase hex digit for `d` in `0..16`.
pub open spec fn hex_digit(d: int) -> char {
    if d < 10 {
        (('0' as u32) + d) as char
    } else {
        (('a' as u32) + d - 10) as char
    }
}

/// Lowercase hex form of `bytes`, two digits per byte, high nibble first.
pub open spec fn hex_string(bytes: Seq<u8>) -> Seq<char>
    decreases bytes.len(),
{
    if bytes.len() == 0 {
        Seq::empty()
    } else {
        let b = bytes.last();
        hex_string(bytes.drop_last()) + seq![hex_digit((b / 16) as int), hex_digit((b % 16) as int)]
    }
}

fn hex_digit_str(d: u8) -> (s: &'static str)
    requires
        d < 16,
    ensures
        s@ == seq![hex_digit(d as int)],
{
    let digits = "0123456789abcdef";
    proof {
        reveal_strlit("0123456789abcdef");
        assert(digits@[d as int] == hex_digit(d as int));
    }
    let s = digits.substring_char(d as usize, d as usize + 1);
    assert(s@ =~= seq![hex_digit(d as int)]);
    s
}

/// Encodes bytes as a lowercase hex string.
pub fn hex_encode(bytes: &[u8]) -> (s: String)
    ensures
        s@ == hex_string(bytes@),
{
    let n = bytes.len();
    let mut out = String::new();
    let mut i: usize = 0;
    while i < n
        invariant
            n == bytes@.len(),
            i <= n,
            out@ == hex_string(bytes@.take(i as int)),
        decreases n - i,
    {
        let b = bytes[i];
        out.append(hex_digit_str(b / 16));
        out.append(hex_digit_str(b % 16));
        proof {
            assert(bytes@.take(i + 1).drop_last() =~= bytes@.take(i as int));
            assert(out@ =~= hex_string(bytes@.take(i + 1)));
        }
        i = i + 1;
    }
    assert(bytes@.take(n as int) =~= bytes@);
    out
}

} // verus!

verus! {

// ─── SHA-256 ────────────────────────────────────────────────────────────────────

/// The SHA-256 round constants.
pub open spec fn round_constants() -> Seq<u32> {
    seq![
        0x428a2f98, 0x71374491, 0xb5c0fbcf, 0xe9b5dba5,
        0x3956c25b, 0x59f111f1, 0x923f82a4, 0xab1c5ed5,
        0xd807aa98, 0x12835b01, 0x243185be, 0x550c7dc3,
        0x72be5d74, 0x80deb1fe, 0x9bdc06a7, 0xc19bf174,
        0xe49b69c1, 0xefbe4786, 0x0fc19dc6, 0x240ca1cc,
        0x2de92c6f, 0x4a7484aa, 0x5cb0a9dc, 0x76f988da,
        0x983e5152, 0xa831c66d, 0xb00327c8, 0xbf597fc7,
        0xc6e00bf3, 0xd5a79147, 0x06ca6351, 0x14292967,
        0x27b70a85, 0x2e1b2138, 0x4d2c6dfc, 0x53380d13,
        0x650a7354, 0x766a0abb, 0x81c2c92e, 0x92722c85,
        0xa2bfe8a1, 0xa81a664b, 0xc24b8b70, 0xc76c51a3,
        0xd192e819, 0xd6990624, 0xf40e3585, 0x106aa070,
        0x19a4c116, 0x1e376c08, 0x2748774c, 0x34b0bcb5,
        0x391c0cb3, 0x4ed8aa4a, 0x5b9cca4f, 0x682e6ff3,
        0x748f82ee, 0x78a5636f, 0x84c87814, 0x8cc70208,
        0x90befffa, 0xa4506ceb, 0xbef9a3f7, 0xc67178f2,
    ]
}

/// The eight working words of the hash state.
#[derive(Clone, Copy)]
pub struct ShaWords {
    pub a: u32,
    pub b: u32,
    pub c: u32,
    pub d: u32,
    pub e: u32,
    pub f: u32,
    pub g: u32,
    pub h: u32,
}

/// The initial hash value.
pub open spec fn initial_hash() -> ShaWords {
    ShaWords {
        a: 0x6a09e667,
        b: 0xbb67ae85,
        c: 0x3c6ef372,
        d: 0xa54ff53a,
        e: 0x510e527f,
        f: 0x9b05688c,
        g: 0x1f83d9ab,
        h: 0x5be0cd19,
    }
}

/// Rotation of `x` right by `n` bits, `0 < n < 32`.
pub open spec fn rotr(x: u32, n: u32) -> u32 {
    (x >> n) | (x << ((32 - n) as u32))
}

pub open spec fn big_sigma0(x: u32) -> u32 {
    rotr(x, 2) ^ rotr(x, 13) ^ rotr(x, 22)
}

pub open spec fn big_sigma1(x: u32) -> u32 {
    rotr(x, 6) ^ rotr(x, 11) ^ rotr(x, 25)
}

pub open spec fn small_sigma0(x: u32) -> u32 {
    rotr(x, 7) ^ rotr(x, 18) ^ (x >> 3)
}

pub open spec fn small_sigma1(x: u32) -> u32 {
    rotr(x, 17) ^ rotr(x, 19) ^ (x >> 10)
}

pub open spec fn choose_bits(e: u32, f: u32, g: u32) -> u32 {
    (e & f) ^ (!e & g)
}

pub open spec fn majority(a: u32, b: u32, c: u32) -> u32 {
    (a & b) ^ (a & c) ^ (b & c)
}

/// Big-endian word `i` of `block`.
pub open spec fn block_word(block: Seq<u8>, i: int) -> u32 {
    ((block[4 * i] as u32) << 24u32) | ((block[4 * i + 1] as u32) << 16u32) | ((block[4 * i
        + 2] as u32) << 8u32) | (block[4 * i + 3] as u32)
}

/// Word `t` of the message schedule of a 64-byte block.
pub open spec fn schedule_word(block: Seq<u8>, t: nat) -> u32
    decreases t,
{
    if t < 16 {
        block_word(block, t as int)
    } else {
        schedule_word(block, (t - 16) as nat).wrapping_add(
            small_sigma0(schedule_word(block, (t - 15) as nat)),
        ).wrapping_add(schedule_word(block, (t - 7) as nat)).wrapping_add(
            small_sigma1(schedule_word(block, (t - 2) as nat)),
        )
    }
}

/// One compression round with round constant `k` and schedule word `w`.
pub open spec fn sha_round(s: ShaWords, k: u32, w: u32) -> ShaWords {
    let t1 = s.h.wrapping_add(big_sigma1(s.e)).wrapping_add(choose_bits(s.e, s.f, s.g)).wrapping_add(
        k,
    ).wrapping_add(w);
    let t2 = big_sigma0(s.a).wrapping_add(majority(s.a, s.b, s.c));
    ShaWords {
        a: t1.wrapping_add(t2),
        b: s.a,
        c: s.b,
        d: s.c,
        e: s.d.wrapping_add(t1),
        f: s.e,
        g: s.f,
        h: s.g,
    }
}

/// The working words after the first `t` rounds over `block`.
pub open spec fn sha_rounds(s: ShaWords, block: Seq<u8>, t: nat) -> ShaWords
    decreases t,
{
    if t == 0 {
        s
    } else {
        sha_round(
            sha_rounds(s, block, (t - 1) as nat),
            round_constants()[t - 1],
            schedule_word(block, (t - 1) as nat),
        )
    }
}

/// Word-wise sum of two states.
pub open spec fn add_words(x: ShaWords, y: ShaWords) -> ShaWords {
    ShaWords {
        a: x.a.wrapping_add(y.a),
        b: x.b.wrapping_add(y.b),
        c: x.c.wrapping_add(y.c),
        d: x.d.wrapping_add(y.d),
        e: x.e.wrapping_add(y.e),
        f: x.f.wrapping_add(y.f),
        g: x.g.wrapping_add(y.g),
        h: x.h.wrapping_add(y.h),
    }
}

/// The hash value after one 64-byte block.
pub open spec fn compress(h: ShaWords, block: Seq<u8>) -> ShaWords {
    add_words(h, sha_rounds(h, block, 64))
}

/// The hash value after the first `n` blocks of the padded message `m`.
pub open spec fn hash_blocks(m: Seq<u8>, n: nat) -> ShaWords
    decreases n,
{
    if n == 0 {
        initial_hash()
    } else {
        compress(hash_blocks(m, (n - 1) as nat), m.subrange(64 * (n - 1), 64 * n as int))
    }
}

/// Number of zero bytes between the 0x80 marker and the length field: the least
/// count that brings the length to 56 modulo 64.
pub open spec fn zero_pad_len(n: nat) -> nat {
    ((119 - n % 64) % 64) as nat
}

/// Big-endian bytes of a 64-bit value.
pub open spec fn u64_be_bytes(x: u64) -> Seq<u8> {
    seq![
        (x >> 56u64) as u8,
        (x >> 48u64) as u8,
        (x >> 40u64) as u8,
        (x >> 32u64) as u8,
        (x >> 24u64) as u8,
        (x >> 16u64) as u8,
        (x >> 8u64) as u8,
        x as u8,
    ]
}

/// The padded message: the data, 0x80, zero bytes, and the bit length as a 64-bit
/// big-endian value (modulo 2^64).
pub open spec fn sha256_padded(data: Seq<u8>) -> Seq<u8> {
    data + seq![0x80u8] + Seq::new(zero_pad_len(data.len()), |i: int| 0u8) + u64_be_bytes(
        (data.len() as u64).wrapping_mul(8),
    )
}

/// Big-endian bytes of a 32-bit word.
pub open spec fn u32_be_bytes(x: u32) -> Seq<u8> {
    seq![(x >> 24u32) as u8, (x >> 16u32) as u8, (x >> 8u32) as u8, x as u8]
}

/// The 32-byte digest of a hash value.
pub open spec fn digest_bytes(s: ShaWords) -> Seq<u8> {
    u32_be_bytes(s.a) + u32_be_bytes(s.b) + u32_be_bytes(s.c) + u32_be_bytes(s.d) + u32_be_bytes(
        s.e,
    ) + u32_be_bytes(s.f) + u32_be_bytes(s.g) + u32_be_bytes(s.h)
}

/// The SHA-256 digest of `data`.
pub open spec fn sha256_spec(data: Seq<u8>) -> Seq<u8> {
    let m = sha256_padded(data);
    digest_bytes(hash_blocks(m, m.len() / 64))
}

proof fn lemma_padded_len(n: nat)
    ensures
        (n + 1 + zero_pad_len(n) + 8) % 64 == 0,
        zero_pad_len(n) < 64,
{
}

fn rotr_exec(x: u32, n: u32) -> (r: u32)
    requires
        0 < n < 32,
    ensures
        r == rotr(x, n),
{
    (x >> n) | (x << (32 - n))
}

fn round_constants_vec() -> (k: Vec<u32>)
    ensures
        k@ == round_constants(),
{
    let k: Vec<u32> = vec![
        0x428a2f98, 0x71374491, 0xb5c0fbcf, 0xe9b5dba5,
        0x3956c25b, 0x59f111f1, 0x923f82a4, 0xab1c5ed5,
        0xd807aa98, 0x12835b01, 0x243185be, 0x550c7dc3,
        0x72be5d74, 0x80deb1fe, 0x9bdc06a7, 0xc19bf174,
        0xe49b69c1, 0xefbe4786, 0x0fc19dc6, 0x240ca1cc,
        0x2de92c6f, 0x4a7484aa, 0x5cb0a9dc, 0x76f988da,
        0x983e5152, 0xa831c66d, 0xb00327c8, 0xbf597fc7,
        0xc6e00bf3, 0xd5a79147, 0x06ca6351, 0x14292967,
        0x27b70a85, 0x2e1b2138, 0x4d2c6dfc, 0x53380d13,
        0x650a7354, 0x766a0abb, 0x81c2c92e, 0x92722c85,
        0xa2bfe8a1, 0xa81a664b, 0xc24b8b70, 0xc76c51a3,
        0xd192e819, 0xd6990624, 0xf40e3585, 0x106aa070,
        0x19a4c116, 0x1e376c08, 0x2748774c, 0x34b0bcb5,
        0x391c0cb3, 0x4ed8aa4a, 0x5b9cca4f, 0x682e6ff3,
        0x748f82ee, 0x78a5636f, 0x84c87814, 0x8cc70208,
        0x90befffa, 0xa4506ceb, 0xbef9a3f7, 0xc67178f2,
    ];
    assert(k@ =~= round_constants());
    k
}

/// The padded message as a vector.
fn pad_message(data: &[u8]) -> (msg: Vec<u8>)
    requires
        data@.len() + 128 <= usize::MAX,
    ensures
        msg@ == sha256_padded(data@),
        msg@.len() % 64 == 0,
{
    let n = data.len();
    let mut msg: Vec<u8> = Vec::new();
    let mut i: usize = 0;
    while i < n
        invariant
            n == data@.len(),
            i <= n,
            msg@ == data@.take(i as int),
        decreases n - i,
    {
        msg.push(data[i]);
        i = i + 1;
        assert(msg@ =~= data@.take(i as int));
    }
    assert(data@.take(n as int) =~= data@);
    msg.push(0x80);
    let zeros: usize = (119 - n % 64) % 64;
    let mut z: usize = 0;
    while z < zeros
        invariant
            n == data@.len(),
            n + 128 <= usize::MAX,
            zeros == zero_pad_len(n as nat),
            z <= zeros,
            msg@ == data@ + seq![0x80u8] + Seq::new(z as nat, |j: int| 0u8),
        decreases zeros - z,
    {
        msg.push(0);
        z = z + 1;
        assert(msg@ =~= data@ + seq![0x80u8] + Seq::new(z as nat, |j: int| 0u8));
    }
    let bit_len: u64 = (n as u64).wrapping_mul(8);
    msg.push((bit_len >> 56u64) as u8);
    msg.push((bit_len >> 48u64) as u8);
    msg.push((bit_len >> 40u64) as u8);
    msg.push((bit_len >> 32u64) as u8);
    msg.push((bit_len >> 24u64) as u8);
    msg.push((bit_len >> 16u64) as u8);
    msg.push((bit_len >> 8u64) as u8);
    msg.push(bit_len as u8);
    assert(msg@ =~= sha256_padded(data@));
    proof {
        lemma_padded_len(n as nat);
    }
    msg
}

/// The message schedule of the block at `off`.
fn message_schedule(msg: &Vec<u8>, off: usize) -> (w: Vec<u32>)
    requires
        off + 64 <= msg@.len(),
    ensures
        w@.len() == 64,
        forall|t: int|
            0 <= t < 64 ==> #[trigger] w@[t] == schedule_word(
                msg@.subrange(off as int, off + 64),
                t as nat,
            ),
{
    let ghost block = msg@.subrange(off as int, off + 64);
    let len = msg.len();
    let mut w: Vec<u32> = Vec::new();
    let mut i: usize = 0;
    while i < 16
        invariant
            len == msg@.len(),
            off + 64 <= len,
            block == msg@.subrange(off as int, off + 64),
            i <= 16,
            w@.len() == i,
            forall|t: int| 0 <= t < i ==> #[trigger] w@[t] == schedule_word(block, t as nat),
        decreases 16 - i,
    {
        let p = off + 4 * i;
        let word: u32 = ((msg[p] as u32) << 24u32) | ((msg[p + 1] as u32) << 16u32) | ((msg[p
            + 2] as u32) << 8u32) | (msg[p + 3] as u32);
        assert(word == block_word(block, i as int));
        w.push(word);
        i = i + 1;
    }
    while i < 64
        invariant
            16 <= i <= 64,
            w@.len() == i,
            forall|t: int| 0 <= t < i ==> #[trigger] w@[t] == schedule_word(block, t as nat),
        decreases 64 - i,
    {
        let x15 = w[i - 15];
        let x2 = w[i - 2];
        let s0 = rotr_exec(x15, 7) ^ rotr_exec(x15, 18) ^ (x15 >> 3u32);
        let s1 = rotr_exec(x2, 17) ^ rotr_exec(x2, 19) ^ (x2 >> 10u32);
        let word = w[i - 16].wrapping_add(s0).wrapping_add(w[i - 7]).wrapping_add(s1);
        assert(word == schedule_word(block, i as nat));
        w.push(word);
        i = i + 1;
    }
    w
}

/// Compresses the block at `off` into the hash value `h`.
fn compress_block(h: ShaWords, msg: &Vec<u8>, off: usize, k: &Vec<u32>) -> (r: ShaWords)
    requires
        off + 64 <= msg@.len(),
        k@ == round_constants(),
    ensures
        r == compress(h, msg@.subrange(off as int, off + 64)),
{
    let ghost block = msg@.subrange(off as int, off + 64);
    let w = message_schedule(msg, off);
    let mut s = h;
    let mut i: usize = 0;
    while i < 64
        invariant
            k@ == round_constants(),
            w@.len() == 64,
            forall|t: int| 0 <= t < 64 ==> #[trigger] w@[t] == schedule_word(block, t as nat),
            i <= 64,
            s == sha_rounds(h, block, i as nat),
        decreases 64 - i,
    {
        let s1 = rotr_exec(s.e, 6) ^ rotr_exec(s.e, 11) ^ rotr_exec(s.e, 25);
        let ch = (s.e & s.f) ^ ((!s.e) & s.g);
        let temp1 = s.h.wrapping_add(s1).wrapping_add(ch).wrapping_add(k[i]).wrapping_add(w[i]);
        let s0 = rotr_exec(s.a, 2) ^ rotr_exec(s.a, 13) ^ rotr_exec(s.a, 22);
        let maj = (s.a & s.b) ^ (s.a & s.c) ^ (s.b & s.c);
        let temp2 = s0.wrapping_add(maj);
        s = ShaWords {
            a: temp1.wrapping_add(temp2),
            b: s.a,
            c: s.b,
            d: s.c,
            e: s.d.wrapping_add(temp1),
            f: s.e,
            g: s.f,
            h: s.g,
        };
        i = i + 1;
    }
    ShaWords {
        a: h.a.wrapping_add(s.a),
        b: h.b.wrapping_add(s.b),
        c: h.c.wrapping_add(s.c),
        d: h.d.wrapping_add(s.d),
        e: h.e.wrapping_add(s.e),
        f: h.f.wrapping_add(s.f),
        g: h.g.wrapping_add(s.g),
        h: h.h.wrapping_add(s.h),
    }
}

/// Writes the big-endian bytes of `x` at index `4 * i` of `out`.
fn put_word(out: &mut [u8; 32], i: usize, x: u32)
    requires
        i < 8,
    ensures
        final(out)@ == old(out)@.update(4 * i, (x >> 24u32) as u8).update(
            4 * i + 1,
            (x >> 16u32) as u8,
        ).update(4 * i + 2, (x >> 8u32) as u8).update(4 * i + 3, x as u8),
{
    out[4 * i] = (x >> 24u32) as u8;
    out[4 * i + 1] = (x >> 16u32) as u8;
    out[4 * i + 2] = (x >> 8u32) as u8;
    out[4 * i + 3] = x as u8;
}

/// SHA-256 digest of `data`.
pub fn sha256(data: &[u8]) -> (digest: [u8; 32])
    requires
        data@.len() + 128 <= usize::MAX,
    ensures
        digest@ == sha256_spec(data@),
{
    let msg = pad_message(data);
    let k = round_constants_vec();
    let len = msg.len();
    let n_blocks = len / 64;
    let mut h = ShaWords {
        a: 0x6a09e667,
        b: 0xbb67ae85,
        c: 0x3c6ef372,
        d: 0xa54ff53a,
        e: 0x510e527f,
        f: 0x9b05688c,
        g: 0x1f83d9ab,
        h: 0x5be0cd19,
    };
    let mut blk: usize = 0;
    while blk < n_blocks
        invariant
            k@ == round_constants(),
            len == msg@.len(),
            n_blocks == len / 64,
            blk <= n_blocks,
            h == hash_blocks(msg@, blk as nat),
        decreases n_blocks - blk,
    {
        assert(64 * blk + 64 <= len) by (nonlinear_arith)
            requires
                blk < n_blocks,
                n_blocks == len / 64,
        ;
        h = compress_block(h, &msg, 64 * blk, &k);
        blk = blk + 1;
    }
    let mut out = [0u8; 32];
    put_word(&mut out, 0, h.a);
    put_word(&mut out, 1, h.b);
    put_word(&mut out, 2, h.c);
    put_word(&mut out, 3, h.d);
    put_word(&mut out, 4, h.e);
    put_word(&mut out, 5, h.f);
    put_word(&mut out, 6, h.g);
    put_word(&mut out, 7, h.h);
    assert(out@ =~= digest_bytes(h));
    out
}

} // verus!
