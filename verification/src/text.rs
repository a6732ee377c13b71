//! Preparing texts for the embedding model: truncation at a character
//! boundary and division of a batch into model-sized chunks.

use vstd::prelude::*;
use vstd::string::StringSliceAdditionalSpecFns;
use vstd::utf8::{decode_utf8, is_char_boundary, valid_utf8};

use crate::embeddings::{BATCH_SIZE, MAX_TEXT_LENGTH};

verus! {

broadcast use vstd::utf8::group_utf8_lib;

/// The largest character boundary of `bytes` that is not beyond `limit`
/// (zero is always one).
pub open spec fn char_floor(bytes: Seq<u8>, limit: int) -> int
    decreases limit,
{
    if limit <= 0 {
        0
    } else if is_char_boundary(bytes, limit) {
        limit
    } else {
        char_floor(bytes, limit - 1)
    }
}

/// The number of bytes of a text of bytes `bytes` kept when it is limited to
/// `max` bytes: all of it if it fits, else the longest prefix that ends on a
/// character boundary.
pub open spec fn kept_len(bytes: Seq<u8>, max: int) -> int {
    if bytes.len() > max {
        char_floor(bytes, max)
    } else {
        bytes.len() as int
    }
}

/// The kept prefix ends on a character boundary, and no longer prefix
/// within the limit does.
pub proof fn lemma_char_floor(bytes: Seq<u8>, limit: int)
    requires
        valid_utf8(bytes),
        limit <= bytes.len(),
    ensures
        0 <= char_floor(bytes, limit),
        char_floor(bytes, limit) <= limit || limit < 0,
        is_char_boundary(bytes, char_floor(bytes, limit)),
        forall|k: int| char_floor(bytes, limit) < k <= limit ==> !is_char_boundary(bytes, k),
    decreases limit,
{
    if limit > 0 && !is_char_boundary(bytes, limit) {
        lemma_char_floor(bytes, limit - 1);
    }
}

/// Limits `text` to at most `max` bytes without splitting a character: a
/// text that fits is returned whole, a longer one is cut at the last
/// character boundary not beyond `max`.
pub fn truncate_at_char_boundary(text: &str, max: usize) -> (r: &str)
    ensures
        r.spec_bytes() == text.spec_bytes().subrange(0, kept_len(text.spec_bytes(), max as int)),
        text.spec_bytes().len() <= max ==> r@ == text@,
        r@ == text@.subrange(0, r@.len() as int),
        r.spec_bytes().len() <= max || r.spec_bytes().len() == text.spec_bytes().len(),
        r.spec_bytes() == text.spec_bytes().subrange(0, r.spec_bytes().len() as int),
        is_char_boundary(text.spec_bytes(), r.spec_bytes().len() as int),
        forall|k: int|
            r.spec_bytes().len() < k <= max && k <= text.spec_bytes().len() ==> !is_char_boundary(
                text.spec_bytes(),
                k,
            ),
{
    proof {
        lemma_kept_len(text.spec_bytes(), max as int);
    }
    let ghost bytes = text.spec_bytes();
    proof {
        assert(valid_utf8(bytes));
    }
    let len: usize = text.as_bytes().len();
    if len <= max {
        return text;
    }
    let mut end: usize = max;
    while !text.is_char_boundary(end) && end > 0
        invariant
            bytes == text.spec_bytes(),
            valid_utf8(bytes),
            end <= max < bytes.len(),
            char_floor(bytes, end as int) == char_floor(bytes, max as int),
        decreases end,
    {
        end -= 1;
    }
    proof {
        lemma_char_floor(bytes, max as int);
        assert(char_floor(bytes, end as int) == end);
    }
    let (head, _tail) = text.split_at(end);
    proof {
        let hb = bytes.subrange(0, end as int);
        assert(head.spec_bytes() =~= hb);
        assert(head@ == decode_utf8(hb));
        assert(text@ == decode_utf8(bytes));
        assert(decode_utf8(bytes) =~= decode_utf8(hb) + decode_utf8(
            bytes.subrange(end as int, bytes.len() as int),
        ));
        assert(head@ =~= text@.subrange(0, head@.len() as int));
    }
    head
}


/// A text of at most `max` bytes is kept whole; a longer one keeps the
/// longest prefix of at most `max` bytes that ends on a character boundary:
/// the kept length is a boundary, and no boundary lies beyond it within the
/// limit.
pub proof fn lemma_kept_len(bytes: Seq<u8>, max: int)
    requires
        valid_utf8(bytes),
        max >= 0,
    ensures
        bytes.len() <= max ==> kept_len(bytes, max) == bytes.len(),
        0 <= kept_len(bytes, max) <= bytes.len(),
        bytes.len() > max ==> kept_len(bytes, max) <= max,
        is_char_boundary(bytes, kept_len(bytes, max)),
        forall|k: int|
            kept_len(bytes, max) < k <= max && k <= bytes.len() ==> !is_char_boundary(bytes, k),
{
    if bytes.len() > max {
        lemma_char_floor(bytes, max);
    } else {
        assert(is_char_boundary(bytes, bytes.len() as int));
    }
}

/// `kept` is `text` limited to `MAX_TEXT_LENGTH` bytes at a character boundary.
pub open spec fn is_model_input(kept: &str, text: &str) -> bool {
    kept.spec_bytes() == text.spec_bytes().subrange(
        0,
        kept_len(text.spec_bytes(), MAX_TEXT_LENGTH as int),
    )
}

/// The number of texts in batch `i` when `n` texts are split into batches
/// of `BATCH_SIZE`.
pub open spec fn batch_len(n: int, i: int) -> int {
    if n - BATCH_SIZE * i >= BATCH_SIZE {
        BATCH_SIZE as int
    } else {
        n - BATCH_SIZE * i
    }
}

/// Splits `texts` into consecutive batches of `BATCH_SIZE` (the last one
/// may be shorter) and limits each text to `MAX_TEXT_LENGTH` bytes at a
/// character boundary, in the order the model is to see them. No texts give
/// no batches.
pub fn plan_embedding_batches<'a>(texts: &[&'a str]) -> (r: Vec<Vec<&'a str>>)
    ensures
        BATCH_SIZE * r@.len() >= texts@.len(),
        r@.len() > 0 ==> BATCH_SIZE * (r@.len() - 1) < texts@.len(),
        forall|i: int| 0 <= i < r@.len() ==> #[trigger] r@[i]@.len() == batch_len(texts@.len() as int, i),
        forall|i: int, j: int|
            0 <= i < r@.len() && 0 <= j < r@[i]@.len() ==> is_model_input(
                #[trigger] r@[i]@[j],
                texts@[BATCH_SIZE * i + j],
            ),
        r@.len() == 0 <==> texts@.len() == 0,
        forall|i: int| 0 <= i < r@.len() - 1 ==> #[trigger] r@[i]@.len() == BATCH_SIZE,
        r@.len() > 0 ==> 0 < r@.last()@.len() <= BATCH_SIZE,
        r@.len() > 0 ==> BATCH_SIZE * (r@.len() - 1) + r@.last()@.len() == texts@.len(),
{
    let n: usize = texts.len();
    let mut batches: Vec<Vec<&'a str>> = Vec::new();
    let mut start: usize = 0;
    while start < n
        invariant
            n == texts@.len(),
            start <= n,
            start == n || start == BATCH_SIZE * batches@.len(),
            start <= BATCH_SIZE * batches@.len(),
            batches@.len() > 0 ==> BATCH_SIZE * (batches@.len() - 1) < start,
            forall|i: int| 0 <= i < batches@.len() ==> #[trigger] batches@[i]@.len() == batch_len(n as int, i),
            forall|i: int, j: int|
                0 <= i < batches@.len() && 0 <= j < batches@[i]@.len() ==> is_model_input(
                    #[trigger] batches@[i]@[j],
                    texts@[BATCH_SIZE * i + j],
                ),
        decreases n - start,
    {
        let take: usize = if n - start < BATCH_SIZE {
            n - start
        } else {
            BATCH_SIZE
        };
        let mut batch: Vec<&'a str> = Vec::new();
        let mut k: usize = 0;
        while k < take
            invariant
                n == texts@.len(),
                start + take <= n,
                k <= take,
                batch@.len() == k,
                forall|j: int| 0 <= j < k ==> is_model_input(#[trigger] batch@[j], texts@[start + j]),
            decreases take - k,
        {
            let kept = truncate_at_char_boundary(texts[start + k], MAX_TEXT_LENGTH);
            batch.push(kept);
            k += 1;
        }
        let ghost old_len = batches@.len();
        batches.push(batch);
        proof {
            assert(start == BATCH_SIZE * old_len);
            assert forall|i: int, j: int|
                0 <= i < batches@.len() && 0 <= j < batches@[i]@.len() implies is_model_input(
                #[trigger] batches@[i]@[j],
                texts@[BATCH_SIZE * i + j],
            ) by {
                if i == old_len {
                    assert(batches@[i] == batch);
                }
            }
        }
        start = start + take;
    }
    proof {
        assert forall|i: int| 0 <= i < batches@.len() - 1 implies #[trigger] batches@[i]@.len()
            == BATCH_SIZE by {
            assert(batches@[i]@.len() == batch_len(n as int, i));
        }
        if batches@.len() > 0 {
            let last: int = batches@.len() - 1;
            assert(batches@[last]@.len() == batch_len(n as int, last));
        }
    }
    batches
}

} // verus!
