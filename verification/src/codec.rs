//! Storage format of embedding vectors: each 32-bit component, given by its
//! bit pattern, is written as four little-endian bytes.

use vstd::prelude::*;

verus! {

/// Byte `j` (0 to 3, least significant first) of the word `w`.
pub open spec fn le_byte(w: u32, j: int) -> u8 {
    if j == 0 {
        (w & 0xff) as u8
    } else if j == 1 {
        ((w >> 8u32) & 0xff) as u8
    } else if j == 2 {
        ((w >> 16u32) & 0xff) as u8
    } else {
        ((w >> 24u32) & 0xff) as u8
    }
}

/// The word whose little-endian bytes are `b0`, `b1`, `b2`, `b3`.
pub open spec fn le_word(b0: u8, b1: u8, b2: u8, b3: u8) -> u32 {
    (b0 as u32) | ((b1 as u32) << 8u32) | ((b2 as u32) << 16u32) | ((b3 as u32) << 24u32)
}

/// The bytes that store the words `ws`.
pub open spec fn words_to_le_bytes(ws: Seq<u32>) -> Seq<u8> {
    Seq::new(4 * ws.len(), |k: int| le_byte(ws[k / 4], k % 4))
}

/// The words stored in `bs`, or `None` where the length of `bs` is not a
/// multiple of four.
pub open spec fn le_bytes_to_words(bs: Seq<u8>) -> Option<Seq<u32>> {
    if bs.len() % 4 != 0 {
        None
    } else {
        Some(
            Seq::new(
                bs.len() / 4,
                |i: int| le_word(bs[4 * i], bs[4 * i + 1], bs[4 * i + 2], bs[4 * i + 3]),
            ),
        )
    }
}

/// Writes the components of an embedding, given as bit patterns, for
/// storage.
pub fn embedding_to_bytes(bits: &[u32]) -> (r: Vec<u8>)
    ensures
        r@ == words_to_le_bytes(bits@),
        r@.len() == 4 * bits@.len(),
        forall|i: int|
            0 <= i < bits@.len() ==> {
                &&& r@[4 * i] == (#[trigger] bits@[i] & 0xff) as u8
                &&& r@[4 * i + 1] == ((bits@[i] >> 8u32) & 0xff) as u8
                &&& r@[4 * i + 2] == ((bits@[i] >> 16u32) & 0xff) as u8
                &&& r@[4 * i + 3] == ((bits@[i] >> 24u32) & 0xff) as u8
            },
{
    let mut out: Vec<u8> = Vec::new();
    let mut i: usize = 0;
    while i < bits.len()
        invariant
            i <= bits@.len(),
            out@.len() == 4 * i,
            forall|k: int| 0 <= k < 4 * i ==> #[trigger] out@[k] == le_byte(bits@[k / 4], k % 4),
        decreases bits@.len() - i,
    {
        let w: u32 = bits[i];
        out.push((w & 0xff) as u8);
        out.push(((w >> 8u32) & 0xff) as u8);
        out.push(((w >> 16u32) & 0xff) as u8);
        out.push(((w >> 24u32) & 0xff) as u8);
        assert forall|k: int| 0 <= k < 4 * (i + 1) implies #[trigger] out@[k] == le_byte(
            bits@[k / 4],
            k % 4,
        ) by {
            if k >= 4 * i {
                assert(k / 4 == i);
            }
        }
        i += 1;
    }
    assert(out@ =~= words_to_le_bytes(bits@));
    proof {
        lemma_stored_layout(bits@);
    }
    out
}

/// Reads the components of a stored embedding back as bit patterns; `None`
/// where the length is not a multiple of four.
pub fn embedding_from_bytes(bytes: &[u8]) -> (r: Option<Vec<u32>>)
    ensures
        match r {
            Some(v) => le_bytes_to_words(bytes@) == Some(v@),
            None => le_bytes_to_words(bytes@) is None,
        },
        r is None <==> bytes@.len() % 4 != 0,
        r matches Some(v) ==> v@.len() == bytes@.len() / 4,
        r matches Some(v) ==> forall|i: int|
            0 <= i < v@.len() ==> #[trigger] v@[i] == (bytes@[4 * i] as u32) | ((bytes@[4 * i
                + 1] as u32) << 8u32) | ((bytes@[4 * i + 2] as u32) << 16u32) | ((bytes@[4 * i
                + 3] as u32) << 24u32),
{
    let n: usize = bytes.len();
    if n % 4 != 0 {
        return None;
    }
    let count: usize = n / 4;
    let mut out: Vec<u32> = Vec::new();
    let mut i: usize = 0;
    while i < count
        invariant
            n == bytes@.len(),
            n % 4 == 0,
            count == n / 4,
            i <= count,
            out@.len() == i,
            forall|j: int|
                0 <= j < i ==> #[trigger] out@[j] == le_word(
                    bytes@[4 * j],
                    bytes@[4 * j + 1],
                    bytes@[4 * j + 2],
                    bytes@[4 * j + 3],
                ),
        decreases count - i,
    {
        let base: usize = 4 * i;
        let w: u32 = (bytes[base] as u32) | ((bytes[base + 1] as u32) << 8u32) | ((bytes[base + 2] as u32)
            << 16u32) | ((bytes[base + 3] as u32) << 24u32);
        out.push(w);
        i += 1;
    }
    let ghost expected = le_bytes_to_words(bytes@);
    assert(out@ =~= expected.unwrap());
    proof {
        lemma_read_layout(bytes@);
    }
    Some(out)
}

/// The stored form holds component `i` in bytes `4 * i` to `4 * i + 3`,
/// least significant byte first, whatever the number of components.
pub proof fn lemma_stored_layout(ws: Seq<u32>)
    ensures
        words_to_le_bytes(ws).len() == 4 * ws.len(),
        forall|i: int|
            0 <= i < ws.len() ==> {
                &&& words_to_le_bytes(ws)[4 * i] == (#[trigger] ws[i] & 0xff) as u8
                &&& words_to_le_bytes(ws)[4 * i + 1] == ((ws[i] >> 8u32) & 0xff) as u8
                &&& words_to_le_bytes(ws)[4 * i + 2] == ((ws[i] >> 16u32) & 0xff) as u8
                &&& words_to_le_bytes(ws)[4 * i + 3] == ((ws[i] >> 24u32) & 0xff) as u8
            },
{
    assert forall|i: int| 0 <= i < ws.len() implies {
        &&& words_to_le_bytes(ws)[4 * i] == (#[trigger] ws[i] & 0xff) as u8
        &&& words_to_le_bytes(ws)[4 * i + 1] == ((ws[i] >> 8u32) & 0xff) as u8
        &&& words_to_le_bytes(ws)[4 * i + 2] == ((ws[i] >> 16u32) & 0xff) as u8
        &&& words_to_le_bytes(ws)[4 * i + 3] == ((ws[i] >> 24u32) & 0xff) as u8
    } by {
        assert((4 * i) / 4 == i && (4 * i) % 4 == 0);
        assert((4 * i + 1) / 4 == i && (4 * i + 1) % 4 == 1);
        assert((4 * i + 2) / 4 == i && (4 * i + 2) % 4 == 2);
        assert((4 * i + 3) / 4 == i && (4 * i + 3) % 4 == 3);
    }
}

/// Reading takes component `i` from bytes `4 * i` to `4 * i + 3`, least
/// significant byte first, and refuses a length that is not a multiple of
/// four.
pub proof fn lemma_read_layout(bs: Seq<u8>)
    ensures
        le_bytes_to_words(bs) is None <==> bs.len() % 4 != 0,
        le_bytes_to_words(bs) matches Some(ws) ==> ws.len() == bs.len() / 4,
        le_bytes_to_words(bs) matches Some(ws) ==> forall|i: int|
            0 <= i < ws.len() ==> #[trigger] ws[i] == (bs[4 * i] as u32) | ((bs[4 * i + 1] as u32)
                << 8u32) | ((bs[4 * i + 2] as u32) << 16u32) | ((bs[4 * i + 3] as u32) << 24u32),
{
}

proof fn lemma_word_of_bytes(w: u32)
    ensures
        le_word(le_byte(w, 0), le_byte(w, 1), le_byte(w, 2), le_byte(w, 3)) == w,
{
    assert((((w & 0xff) as u8) as u32) | ((((w >> 8u32) & 0xff) as u8) as u32) << 8u32 | ((((w
        >> 16u32) & 0xff) as u8) as u32) << 16u32 | ((((w >> 24u32) & 0xff) as u8) as u32) << 24u32
        == w) by (bit_vector);
}

proof fn lemma_bytes_of_word(b0: u8, b1: u8, b2: u8, b3: u8)
    ensures
        le_byte(le_word(b0, b1, b2, b3), 0) == b0,
        le_byte(le_word(b0, b1, b2, b3), 1) == b1,
        le_byte(le_word(b0, b1, b2, b3), 2) == b2,
        le_byte(le_word(b0, b1, b2, b3), 3) == b3,
{
    let w: u32 = le_word(b0, b1, b2, b3);
    assert(w == (b0 as u32) | ((b1 as u32) << 8u32) | ((b2 as u32) << 16u32) | ((b3 as u32)
        << 24u32));
    assert(((((b0 as u32) | ((b1 as u32) << 8u32) | ((b2 as u32) << 16u32) | ((b3 as u32)
        << 24u32)) & 0xff) as u8) == b0) by (bit_vector);
    assert((((((b0 as u32) | ((b1 as u32) << 8u32) | ((b2 as u32) << 16u32) | ((b3 as u32)
        << 24u32)) >> 8u32) & 0xff) as u8) == b1) by (bit_vector);
    assert((((((b0 as u32) | ((b1 as u32) << 8u32) | ((b2 as u32) << 16u32) | ((b3 as u32)
        << 24u32)) >> 16u32) & 0xff) as u8) == b2) by (bit_vector);
    assert((((((b0 as u32) | ((b1 as u32) << 8u32) | ((b2 as u32) << 16u32) | ((b3 as u32)
        << 24u32)) >> 24u32) & 0xff) as u8) == b3) by (bit_vector);
}

/// Reading back what was written gives the same components.
pub proof fn lemma_read_after_write(ws: Seq<u32>)
    ensures
        le_bytes_to_words(words_to_le_bytes(ws)) == Some(ws),
{
    let bs = words_to_le_bytes(ws);
    assert(bs.len() % 4 == 0);
    let back = le_bytes_to_words(bs).unwrap();
    assert forall|i: int| 0 <= i < ws.len() implies back[i] == ws[i] by {
        assert((4 * i) / 4 == i && (4 * i) % 4 == 0);
        assert((4 * i + 1) / 4 == i && (4 * i + 1) % 4 == 1);
        assert((4 * i + 2) / 4 == i && (4 * i + 2) % 4 == 2);
        assert((4 * i + 3) / 4 == i && (4 * i + 3) % 4 == 3);
        lemma_word_of_bytes(ws[i]);
    }
    assert(back =~= ws);
}

/// Writing what was read gives the same bytes.
pub proof fn lemma_write_after_read(bs: Seq<u8>)
    ensures
        le_bytes_to_words(bs) matches Some(ws) ==> words_to_le_bytes(ws) == bs,
{
    if let Some(ws) = le_bytes_to_words(bs) {
        let again = words_to_le_bytes(ws);
        assert forall|k: int| 0 <= k < bs.len() implies again[k] == bs[k] by {
            let i: int = k / 4;
            let j: int = k % 4;
            assert(4 * i + j == k);
            lemma_bytes_of_word(bs[4 * i], bs[4 * i + 1], bs[4 * i + 2], bs[4 * i + 3]);
        }
        assert(again =~= bs);
    }
}

} // verus!
