//! A keystroke buffer that wipes its memory.

use vstd::prelude::*;
use vstd::utf8::*;
use crate::text::{decoded_or_empty, utf8_str};

verus! {

/// The last `max` bytes of `bytes` (all of them when there are no more).
pub open spec fn keep_last(bytes: Seq<u8>, max: nat) -> Seq<u8> {
    if bytes.len() > max {
        bytes.skip(bytes.len() - max)
    } else {
        bytes
    }
}

/// Calls `zeroize::Zeroize::zeroize` on a byte vector. Claimed, as the
/// crate's source shows: every element and the spare capacity are overwritten
/// with zeros and the vector is then cleared, so it ends empty. That the
/// memory was overwritten is not something a contract over the vector's
/// contents can say.
#[verifier::external_body]
fn zeroize_bytes(data: &mut Vec<u8>)
    ensures
        final(data)@ == Seq::<u8>::empty(),
    opens_invariants none
    no_unwind
{
    zeroize::Zeroize::zeroize(data)
}

/// Appends `src[from..to]` to `dst`.
fn append_range(dst: &mut Vec<u8>, src: &[u8], from: usize, to: usize)
    requires
        from <= to <= src@.len(),
    ensures
        final(dst)@ == old(dst)@ + src@.subrange(from as int, to as int),
{
    let ghost start = dst@;
    let mut i: usize = from;
    while i < to
        invariant
            from <= i <= to,
            to <= src@.len(),
            dst@ == start + src@.subrange(from as int, i as int),
        decreases to - i,
    {
        dst.push(src[i]);
        i = i + 1;
        assert(dst@ =~= start + src@.subrange(from as int, i as int));
    }
}

/// A text buffer that overwrites its memory when cleared and when dropped.
/// Used for all keystroke data so that it does not linger in memory.
pub struct SecureBuffer {
    data: Vec<u8>,
    max_len: usize,
}

impl SecureBuffer {
    #[verifier::type_invariant]
    spec fn within_capacity(self) -> bool {
        self.data@.len() <= self.max_len
    }

    /// The buffered bytes, oldest first.
    pub closed spec fn bytes(&self) -> Seq<u8> {
        self.data@
    }

    /// The most bytes the buffer keeps.
    pub closed spec fn max_bytes(&self) -> nat {
        self.max_len as nat
    }

    /// An empty buffer that keeps at most `max_len` bytes.
    pub fn new(max_len: usize) -> (b: Self)
        ensures
            b.bytes() == Seq::<u8>::empty(),
            b.max_bytes() == max_len,
    {
        SecureBuffer { data: Vec::with_capacity(max_len), max_len }
    }

    /// Appends the UTF-8 bytes of `s`, then drops bytes from the front until
    /// at most the capacity is left. The kept bytes are copied into a fresh
    /// vector and the old one is wiped, so that no unwiped copy is left
    /// behind by a reallocation.
    pub fn push_str(&mut self, s: &str)
        ensures
            final(self).bytes() == keep_last(old(self).bytes() + encode_utf8(s@), old(self).max_bytes()),
            final(self).max_bytes() == old(self).max_bytes(),
    {
        proof {
            use_type_invariant(&*self);
        }
        let bytes = s.as_bytes();
        let max: usize = self.max_len;
        let old_len: usize = self.data.len();
        let add: usize = bytes.len();
        let ghost joined = self.data@ + bytes@;
        let mut fresh: Vec<u8>;
        if add >= max {
            fresh = Vec::with_capacity(max);
            append_range(&mut fresh, bytes, add - max, add);
            proof {
                assert(fresh@ =~= keep_last(joined, max as nat));
            }
        } else {
            let from_old: usize = if old_len > max - add { old_len - (max - add) } else { 0 };
            fresh = Vec::with_capacity(old_len - from_old + add);
            append_range(&mut fresh, self.data.as_slice(), from_old, old_len);
            append_range(&mut fresh, bytes, 0, add);
            proof {
                assert(bytes@.subrange(0, add as int) =~= bytes@);
                assert(fresh@ =~= keep_last(joined, max as nat));
            }
        }
        zeroize_bytes(&mut self.data);
        self.data = fresh;
    }

    /// The buffered text, or the empty text when the bytes are not valid
    /// UTF-8 (trimming may have cut a multi-byte character in two).
    pub fn as_str(&self) -> (r: &str)
        ensures
            r@ == decoded_or_empty(self.bytes()),
    {
        match utf8_str(self.data.as_slice()) {
            Some(s) => s,
            None => {
                let e = "";
                proof {
                    reveal_strlit("");
                }
                e
            },
        }
    }

    /// Wipes and empties the buffer.
    pub fn clear(&mut self)
        ensures
            final(self).bytes() == Seq::<u8>::empty(),
            final(self).max_bytes() == old(self).max_bytes(),
    {
        zeroize_bytes(&mut self.data);
    }

    pub fn is_empty(&self) -> (r: bool)
        ensures
            r == (self.bytes().len() == 0),
    {
        self.data.len() == 0
    }

    /// The number of buffered bytes, never more than the capacity.
    pub fn len(&self) -> (r: usize)
        ensures
            r == self.bytes().len(),
            r <= self.max_bytes(),
    {
        proof {
            use_type_invariant(self);
        }
        self.data.len()
    }
}

impl Clone for SecureBuffer {
    fn clone(&self) -> (r: Self)
        ensures
            r.bytes() == self.bytes(),
            r.max_bytes() == self.max_bytes(),
    {
        proof {
            use_type_invariant(self);
        }
        let mut data: Vec<u8> = Vec::new();
        let mut i: usize = 0;
        while i < self.data.len()
            invariant
                i <= self.data@.len(),
                data@ == self.data@.take(i as int),
            decreases self.data@.len() - i,
        {
            data.push(self.data[i]);
            i = i + 1;
            assert(data@ =~= self.data@.take(i as int));
        }
        assert(self.data@.take(i as int) =~= self.data@);
        SecureBuffer { data, max_len: self.max_len }
    }
}

impl Drop for SecureBuffer {
    fn drop(&mut self)
        opens_invariants none
        no_unwind
    {
        zeroize_bytes(&mut self.data);
    }
}

/// The buffer never holds more than its capacity.
pub proof fn lemma_push_stays_within_capacity(bytes: Seq<u8>, text: Seq<char>, max: nat)
    requires
        bytes.len() <= max,
    ensures
        keep_last(bytes + encode_utf8(text), max).len() <= max,
{
}

/// What is pushed into an empty buffer, when it fits, is what the buffer reads
/// back as text.
pub proof fn lemma_fresh_push_reads_back(text: Seq<char>, max: nat)
    requires
        encode_utf8(text).len() <= max,
    ensures
        decoded_or_empty(keep_last(Seq::<u8>::empty() + encode_utf8(text), max)) == text,
{
    assert(Seq::<u8>::empty() + encode_utf8(text) =~= encode_utf8(text));
    encode_utf8_valid_utf8(text);
    encode_utf8_decode_utf8(text);
}

/// The UTF-8 encoding of joined texts is the join of their encodings.
pub proof fn lemma_encode_utf8_concat(a: Seq<char>, b: Seq<char>)
    ensures
        encode_utf8(a + b) == encode_utf8(a) + encode_utf8(b),
    decreases a.len(),
{
    if a.len() == 0 {
        assert(a + b =~= b);
        assert(encode_utf8(a) =~= Seq::<u8>::empty());
        assert(encode_utf8(a) + encode_utf8(b) =~= encode_utf8(b));
    } else {
        lemma_encode_utf8_concat(a.drop_first(), b);
        assert((a + b).drop_first() =~= a.drop_first() + b);
        assert((a + b)[0] == a[0]);
        assert(encode_scalar(a[0] as u32) + (encode_utf8(a.drop_first()) + encode_utf8(b)) =~= (
        encode_scalar(a[0] as u32) + encode_utf8(a.drop_first())) + encode_utf8(b));
    }
}

/// Text appended to a buffer is read back after what was there, as long as
/// nothing had to be trimmed and the earlier bytes were valid UTF-8.
pub proof fn lemma_push_appends_text(bytes: Seq<u8>, text: Seq<char>, max: nat)
    requires
        valid_utf8(bytes),
        bytes.len() + encode_utf8(text).len() <= max,
    ensures
        decoded_or_empty(keep_last(bytes + encode_utf8(text), max)) == decode_utf8(bytes) + text,
{
    let prior = decode_utf8(bytes);
    decode_utf8_encode_utf8(bytes);
    lemma_encode_utf8_concat(prior, text);
    encode_utf8_valid_utf8(prior + text);
    encode_utf8_decode_utf8(prior + text);
}

} // verus!
