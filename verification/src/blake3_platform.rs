//! Selection of the BLAKE3 compression back end, and the little-endian conversions between
//! message bytes and 32-bit words.
//!
//! The back ends and SIMD degrees are those of x86 and x86-64 targets. On other targets BLAKE3 has
//! only the portable back end, with a maximum SIMD degree of 1 (2 for `MAX_SIMD_DEGREE_OR_2`);
//! this library describes the x86 configuration on every target.
use vstd::prelude::*;

verus! {

pub const MAX_SIMD_DEGREE: usize = 16;

/// `MAX_SIMD_DEGREE`, but at least 2.
pub const MAX_SIMD_DEGREE_OR_2: usize = 16;

/// An implementation of the BLAKE3 compression function.
#[derive(Clone, Copy, Debug, PartialEq, Eq, Structural)]
pub enum Platform {
    Portable,
    SSE2,
    SSE41,
    AVX2,
    AVX512,
}

/// Number of inputs each back end hashes in parallel.
pub open spec fn spec_simd_degree(p: Platform) -> nat {
    match p {
        Platform::Portable => 1,
        Platform::SSE2 => 4,
        Platform::SSE41 => 4,
        Platform::AVX2 => 8,
        Platform::AVX512 => 16,
    }
}

/// The back end `detect` picks for the given detection results.
pub open spec fn detected_platform(avx512: bool, avx2: bool, sse41: bool, sse2: bool) -> Platform {
    if avx512 {
        Platform::AVX512
    } else if avx2 {
        Platform::AVX2
    } else if sse41 {
        Platform::SSE41
    } else if sse2 {
        Platform::SSE2
    } else {
        Platform::Portable
    }
}

/// Whether the CPU can run back end `p`, given which instruction set extensions were detected.
pub open spec fn supported(p: Platform, avx512: bool, avx2: bool, sse41: bool, sse2: bool) -> bool {
    match p {
        Platform::Portable => true,
        Platform::SSE2 => sse2,
        Platform::SSE41 => sse41,
        Platform::AVX2 => avx2,
        Platform::AVX512 => avx512,
    }
}

/// The order of preference among the back ends, from the portable one up to AVX-512.
pub open spec fn preference(p: Platform) -> nat {
    match p {
        Platform::Portable => 0,
        Platform::SSE2 => 1,
        Platform::SSE41 => 2,
        Platform::AVX2 => 3,
        Platform::AVX512 => 4,
    }
}

impl Platform {
    /// Picks the widest back end that the CPU supports, given which instruction set extensions
    /// were detected.
    pub fn detect(
        avx512_detected: bool,
        avx2_detected: bool,
        sse41_detected: bool,
        sse2_detected: bool,
    ) -> (res: Self)
        ensures
            res == (if avx512_detected {
                Platform::AVX512
            } else if avx2_detected {
                Platform::AVX2
            } else if sse41_detected {
                Platform::SSE41
            } else if sse2_detected {
                Platform::SSE2
            } else {
                Platform::Portable
            }),
            res == detected_platform(avx512_detected, avx2_detected, sse41_detected, sse2_detected),
    {
        if avx512_detected {
            return Platform::AVX512;
        }
        if avx2_detected {
            return Platform::AVX2;
        }
        if sse41_detected {
            return Platform::SSE41;
        }
        if sse2_detected {
            return Platform::SSE2;
        }
        Platform::Portable
    }

    /// Number of inputs this back end hashes in parallel.
    pub fn simd_degree(&self) -> (res: usize)
        ensures
            res == spec_simd_degree(*self),
            1 <= res <= MAX_SIMD_DEGREE,
    {
        let degree = match self {
            Platform::Portable => 1,
            Platform::SSE2 => 4,
            Platform::SSE41 => 4,
            Platform::AVX2 => 8,
            Platform::AVX512 => 16,
        };
        degree
    }

    /// The portable back end, available everywhere.
    pub fn portable() -> (res: Self)
        ensures
            res == Platform::Portable,
    {
        Self::Portable
    }

    /// The SSE2 back end, if the CPU supports it.
    pub fn sse2(sse2_detected: bool) -> (res: Option<Self>)
        ensures
            res == (if sse2_detected { Some(Platform::SSE2) } else { None }),
    {
        if sse2_detected {
            Some(Self::SSE2)
        } else {
            None
        }
    }

    /// The SSE4.1 back end, if the CPU supports it.
    pub fn sse41(sse41_detected: bool) -> (res: Option<Self>)
        ensures
            res == (if sse41_detected { Some(Platform::SSE41) } else { None }),
    {
        if sse41_detected {
            Some(Self::SSE41)
        } else {
            None
        }
    }

    /// The AVX2 back end, if the CPU supports it.
    pub fn avx2(avx2_detected: bool) -> (res: Option<Self>)
        ensures
            res == (if avx2_detected { Some(Platform::AVX2) } else { None }),
    {
        if avx2_detected {
            Some(Self::AVX2)
        } else {
            None
        }
    }

    /// The AVX-512 back end, if the CPU supports it.
    pub fn avx512(avx512_detected: bool) -> (res: Option<Self>)
        ensures
            res == (if avx512_detected { Some(Platform::AVX512) } else { None }),
    {
        if avx512_detected {
            Some(Self::AVX512)
        } else {
            None
        }
    }
}

/// The little-endian word made of four bytes.
pub open spec fn le_word(b0: u8, b1: u8, b2: u8, b3: u8) -> nat {
    (b0 + 0x100 * b1 + 0x1_0000 * b2 + 0x100_0000 * b3) as nat
}

/// Byte `k` (from the least significant end) of a word.
pub open spec fn word_byte(w: u32, k: nat) -> u8 {
    ((w as nat / pow2_8(k)) % 0x100) as u8
}

/// `2^(8 * k)` for the byte positions of a word.
pub open spec fn pow2_8(k: nat) -> nat {
    if k == 0 {
        1
    } else if k == 1 {
        0x100
    } else if k == 2 {
        0x1_0000
    } else {
        0x100_0000
    }
}

/// The words of `bytes`, read four little-endian bytes at a time.
pub open spec fn words_of_bytes(bytes: Seq<u8>) -> Seq<u32> {
    Seq::new(
        bytes.len() / 4,
        |i: int| le_word(bytes[4 * i], bytes[4 * i + 1], bytes[4 * i + 2], bytes[4 * i + 3]) as u32,
    )
}

/// The bytes of `words`, each written as four little-endian bytes.
pub open spec fn bytes_of_words(words: Seq<u32>) -> Seq<u8> {
    Seq::new(words.len() * 4, |j: int| word_byte(words[j / 4], (j % 4) as nat))
}

fn word_from_le_bytes(bytes: &[u8], offset: usize) -> (res: u32)
    requires
        offset + 4 <= bytes@.len(),
    ensures
        res == le_word(
            bytes@[offset as int],
            bytes@[offset + 1],
            bytes@[offset + 2],
            bytes@[offset + 3],
        ),
{
    let b0 = bytes[offset];
    let b1 = bytes[offset + 1];
    let b2 = bytes[offset + 2];
    let b3 = bytes[offset + 3];
    assert((b0 as u32) | ((b1 as u32) << 8u32) | ((b2 as u32) << 16u32) | ((b3 as u32) << 24u32)
        == b0 + 0x100 * b1 + 0x1_0000 * b2 + 0x100_0000 * b3) by (bit_vector);
    (b0 as u32) | ((b1 as u32) << 8u32) | ((b2 as u32) << 16u32) | ((b3 as u32) << 24u32)
}

proof fn lemma_word_bytes(w: u32)
    ensures
        word_byte(w, 0) == (w & 0xff) as u8,
        word_byte(w, 1) == ((w >> 8u32) & 0xff) as u8,
        word_byte(w, 2) == ((w >> 16u32) & 0xff) as u8,
        word_byte(w, 3) == ((w >> 24u32) & 0xff) as u8,
        le_word(word_byte(w, 0), word_byte(w, 1), word_byte(w, 2), word_byte(w, 3)) == w,
{
    assert(
        (w & 0xff == w % 0x100)
        && ((w >> 8u32) & 0xff == (w / 0x100) % 0x100)
        && ((w >> 16u32) & 0xff == (w / 0x1_0000) % 0x100)
        && ((w >> 24u32) & 0xff == (w / 0x100_0000) % 0x100)
    ) by (bit_vector);
    assert((w % 0x100) + 0x100 * ((w / 0x100) % 0x100) + 0x1_0000 * ((w / 0x1_0000) % 0x100)
        + 0x100_0000 * ((w / 0x100_0000) % 0x100) == w) by (bit_vector);
}

proof fn lemma_le_word_bytes(b0: u8, b1: u8, b2: u8, b3: u8)
    ensures
        word_byte(le_word(b0, b1, b2, b3) as u32, 0) == b0,
        word_byte(le_word(b0, b1, b2, b3) as u32, 1) == b1,
        word_byte(le_word(b0, b1, b2, b3) as u32, 2) == b2,
        word_byte(le_word(b0, b1, b2, b3) as u32, 3) == b3,
{
    let w = (b0 as u32) | ((b1 as u32) << 8u32) | ((b2 as u32) << 16u32) | ((b3 as u32) << 24u32);
    assert(w == b0 + 0x100 * b1 + 0x1_0000 * b2 + 0x100_0000 * b3) by (bit_vector)
        requires
            w == (b0 as u32) | ((b1 as u32) << 8u32) | ((b2 as u32) << 16u32) | ((b3 as u32)
                << 24u32),
    ;
    assert(w % 0x100 == b0 && (w / 0x100) % 0x100 == b1 && (w / 0x1_0000) % 0x100 == b2 && (w
        / 0x100_0000) % 0x100 == b3) by (bit_vector)
        requires
            w == (b0 as u32) | ((b1 as u32) << 8u32) | ((b2 as u32) << 16u32) | ((b3 as u32)
                << 24u32),
    ;
}

fn words_from_le_bytes(bytes: &[u8], out: &mut [u32])
    requires
        bytes@.len() == 4 * old(out)@.len(),
    ensures
        final(out)@ == words_of_bytes(bytes@),
{
    let n = out.len();
    let blen = bytes.len();
    let mut i: usize = 0;
    while i < n
        invariant
            n == old(out)@.len(),
            blen == bytes@.len(),
            out@.len() == n,
            bytes@.len() == 4 * n,
            i <= n,
            forall|k: int|
                0 <= k < i ==> out@[k] == #[trigger] words_of_bytes(bytes@)[k],
        decreases n - i,
    {
        let w = word_from_le_bytes(bytes, 4 * i);
        out[i] = w;
        i += 1;
    }
    assert(out@ =~= words_of_bytes(bytes@));
}

fn le_bytes_from_words(words: &[u32], out: &mut [u8])
    requires
        old(out)@.len() == 4 * words@.len(),
    ensures
        final(out)@ == bytes_of_words(words@),
{
    let n = words.len();
    let olen = out.len();
    let mut i: usize = 0;
    while i < n
        invariant
            n == words@.len(),
            olen == out@.len(),
            out@.len() == 4 * n,
            i <= n,
            forall|j: int| 0 <= j < 4 * i ==> out@[j] == #[trigger] bytes_of_words(words@)[j],
        decreases n - i,
    {
        let w = words[i];
        proof {
            lemma_word_bytes(w);
        }
        out[4 * i] = (w & 0xff) as u8;
        out[4 * i + 1] = ((w >> 8u32) & 0xff) as u8;
        out[4 * i + 2] = ((w >> 16u32) & 0xff) as u8;
        out[4 * i + 3] = ((w >> 24u32) & 0xff) as u8;
        i += 1;
    }
    assert(out@ =~= bytes_of_words(words@));
}

/// The eight little-endian words of a 32-byte block.
pub fn words_from_le_bytes_32(bytes: &[u8; 32]) -> (res: [u32; 8])
    ensures
        res@ == words_of_bytes(bytes@),
{
    let mut out = [0u32; 8];
    words_from_le_bytes(bytes, &mut out);
    out
}

/// The sixteen little-endian words of a 64-byte block.
pub fn words_from_le_bytes_64(bytes: &[u8; 64]) -> (res: [u32; 16])
    ensures
        res@ == words_of_bytes(bytes@),
{
    let mut out = [0u32; 16];
    words_from_le_bytes(bytes, &mut out);
    out
}

/// The 32 bytes of eight words, each written little-endian.
pub fn le_bytes_from_words_32(words: &[u32; 8]) -> (res: [u8; 32])
    ensures
        res@ == bytes_of_words(words@),
{
    let mut out = [0u8; 32];
    le_bytes_from_words(words, &mut out);
    out
}

/// The 64 bytes of sixteen words, each written little-endian.
pub fn le_bytes_from_words_64(words: &[u32; 16]) -> (res: [u8; 64])
    ensures
        res@ == bytes_of_words(words@),
{
    let mut out = [0u8; 64];
    le_bytes_from_words(words, &mut out);
    out
}

/// Reading words from bytes and writing them back gives the same bytes, and writing words as
/// bytes and reading them back gives the same words.
pub proof fn law_le_round_trip(bytes: Seq<u8>, words: Seq<u32>)
    requires
        bytes.len() % 4 == 0,
    ensures
        bytes_of_words(words_of_bytes(bytes)) == bytes,
        words_of_bytes(bytes_of_words(words)) == words,
{
    let ws = words_of_bytes(bytes);
    assert forall|j: int| 0 <= j < bytes.len() implies #[trigger] bytes_of_words(ws)[j]
        == bytes[j] by {
        let i = j / 4;
        lemma_le_word_bytes(bytes[4 * i], bytes[4 * i + 1], bytes[4 * i + 2], bytes[4 * i + 3]);
    }
    assert(bytes_of_words(ws) =~= bytes);
    let bs = bytes_of_words(words);
    assert forall|i: int| 0 <= i < words.len() implies #[trigger] words_of_bytes(bs)[i]
        == words[i] by {
        lemma_word_bytes(words[i]);
        assert(bs[4 * i] == word_byte(words[i], 0));
        assert(bs[4 * i + 1] == word_byte(words[i], 1));
        assert(bs[4 * i + 2] == word_byte(words[i], 2));
        assert(bs[4 * i + 3] == word_byte(words[i], 3));
    }
    assert(words_of_bytes(bs) =~= words);
}

/// Words are read least significant byte first: the first byte of each group of four is a word's
/// lowest byte and the last its highest, and writing a word puts its lowest byte first.
pub proof fn law_le_byte_order(bytes: Seq<u8>, words: Seq<u32>, i: int)
    requires
        0 <= i < bytes.len() / 4,
        0 <= i < words.len(),
    ensures
        words_of_bytes(bytes)[i] % 0x100 == bytes[4 * i],
        words_of_bytes(bytes)[i] / 0x100_0000 == bytes[4 * i + 3],
        bytes_of_words(words)[4 * i] == words[i] % 0x100,
        bytes_of_words(words)[4 * i + 3] == words[i] / 0x100_0000,
{
    let (b0, b1, b2, b3) = (bytes[4 * i], bytes[4 * i + 1], bytes[4 * i + 2], bytes[4 * i + 3]);
    assert(4 * i + 3 < bytes.len()) by (nonlinear_arith)
        requires
            0 <= i < bytes.len() / 4,
    ;
    let w = le_word(b0, b1, b2, b3);
    assert(w < 0x1_0000_0000);
    vstd::arithmetic::div_mod::lemma_fundamental_div_mod_converse(
        w as int,
        0x100,
        b1 + 0x100 * b2 + 0x1_0000 * b3,
        b0 as int,
    );
    vstd::arithmetic::div_mod::lemma_fundamental_div_mod_converse(
        w as int,
        0x100_0000,
        b3 as int,
        b0 + 0x100 * b1 + 0x1_0000 * b2,
    );
    assert(words_of_bytes(bytes)[i] == w as u32);
    assert((4 * i) / 4 == i && (4 * i) % 4 == 0 && (4 * i + 3) / 4 == i && (4 * i + 3) % 4 == 3);
    assert(bytes_of_words(words)[4 * i] == word_byte(words[i], 0));
    assert(bytes_of_words(words)[4 * i + 3] == word_byte(words[i], 3));
}

/// The back ends hash one input at a time (portable), or as many 32-bit lanes as their vector
/// registers hold: SSE2 and SSE4.1 four, AVX2 twice that, AVX-512 twice again, the maximum.
pub proof fn law_simd_degree_follows_register_width()
    ensures
        spec_simd_degree(Platform::Portable) == 1,
        spec_simd_degree(Platform::SSE2) == 128nat / 32nat,
        spec_simd_degree(Platform::SSE41) == spec_simd_degree(Platform::SSE2),
        spec_simd_degree(Platform::AVX2) == 2 * spec_simd_degree(Platform::SSE41),
        spec_simd_degree(Platform::AVX512) == 2 * spec_simd_degree(Platform::AVX2),
        spec_simd_degree(Platform::AVX512) == MAX_SIMD_DEGREE,
{
}

/// Detection picks a back end the CPU supports, and no supported back end is preferred over it; a
/// preferred back end also hashes at least as many inputs at once.
pub proof fn law_detect_picks_best_supported(avx512: bool, avx2: bool, sse41: bool, sse2: bool)
    ensures
        supported(detected_platform(avx512, avx2, sse41, sse2), avx512, avx2, sse41, sse2),
        forall|p: Platform|
            supported(p, avx512, avx2, sse41, sse2) ==> preference(p) <= preference(
                detected_platform(avx512, avx2, sse41, sse2),
            ),
        forall|p: Platform, q: Platform|
            preference(p) <= preference(q) ==> spec_simd_degree(p) <= spec_simd_degree(q),
{
}

} // verus!
