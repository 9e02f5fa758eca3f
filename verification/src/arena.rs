//! Context storage: a bump arena of length-prefixed key/value pairs, owned
//! by one thread, and the handle that says where the context of an error
//! lives.

use vstd::prelude::*;
use vstd::bytes::{
    lemma_auto_spec_u32_to_from_le_bytes, spec_u32_from_le_bytes, spec_u32_to_le_bytes,
    u32_from_le_bytes, u32_to_le_bytes,
};
use vstd::slice::slice_subrange;
use vstd::utf8::{
    decode_utf8, encode_utf8, encode_utf8_decode_utf8, encode_utf8_valid_utf8, valid_utf8,
};
use smallvec::SmallVec;

verus! {

/// The keys and values of a list of pairs, as texts.
pub open spec fn pairs_view(pairs: Seq<(String, String)>) -> Seq<(Seq<char>, Seq<char>)> {
    Seq::new(pairs.len(), |i: int| (pairs[i].0@, pairs[i].1@))
}

/// The keys and values of a list of borrowed pairs, as texts.
pub open spec fn borrowed_pairs_view(pairs: Seq<(&str, &str)>) -> Seq<(Seq<char>, Seq<char>)> {
    Seq::new(pairs.len(), |i: int| (pairs[i].0@, pairs[i].1@))
}

/// One text as it is stored: the length of its UTF-8 form as four
/// little-endian bytes (the low 32 bits of the length), then the UTF-8
/// form itself.
pub open spec fn encode_text(s: Seq<char>) -> Seq<u8> {
    spec_u32_to_le_bytes(encode_utf8(s).len() as u32) + encode_utf8(s)
}

/// Pairs as they are stored: for each pair in turn the key, then the value.
pub open spec fn encode_pairs(pairs: Seq<(Seq<char>, Seq<char>)>) -> Seq<u8>
    decreases pairs.len(),
{
    if pairs.len() == 0 {
        Seq::empty()
    } else {
        encode_text(pairs[0].0) + encode_text(pairs[0].1) + encode_pairs(pairs.drop_first())
    }
}

/// Whether the length prefix can hold the length of the text.
pub open spec fn fits_prefix(s: Seq<char>) -> bool {
    encode_utf8(s).len() <= u32::MAX
}

/// Whether every key and value of the pairs fits its length prefix.
pub open spec fn all_fit(pairs: Seq<(Seq<char>, Seq<char>)>) -> bool {
    forall|i: int|
        0 <= i < pairs.len() ==> fits_prefix(#[trigger] pairs[i].0) && fits_prefix(pairs[i].1)
}

/// What `String::from_utf8_lossy` makes of bytes that are not valid UTF-8.
pub uninterp spec fn utf8_lossy(bytes: Seq<u8>) -> Seq<char>;

/// The text that stored bytes are read back as: valid UTF-8 decodes to
/// the text it encodes, anything else goes through the lossy conversion.
pub open spec fn lossy_text(bytes: Seq<u8>) -> Seq<char> {
    if valid_utf8(bytes) {
        decode_utf8(bytes)
    } else {
        utf8_lossy(bytes)
    }
}

/// Reads one stored text at `pos`: the text and the position behind it, or
/// `None` where the length prefix or the text would reach past the end of
/// the bytes.
pub open spec fn decode_text(bytes: Seq<u8>, pos: int) -> Option<(Seq<char>, int)> {
    if pos < 0 || pos + 4 > bytes.len() {
        None
    } else {
        let n = spec_u32_from_le_bytes(bytes.subrange(pos, pos + 4)) as int;
        if pos + 4 + n > bytes.len() {
            None
        } else {
            Some((lossy_text(bytes.subrange(pos + 4, pos + 4 + n)), pos + 4 + n))
        }
    }
}

/// Reads up to `count` stored pairs from `pos` on. Reading stops at the
/// first key or value that would reach past the end of the bytes, with
/// the pairs read so far.
pub open spec fn decode_pairs(bytes: Seq<u8>, pos: int, count: nat) -> Seq<(Seq<char>, Seq<char>)>
    decreases count,
{
    if count == 0 {
        Seq::empty()
    } else {
        match decode_text(bytes, pos) {
            None => Seq::empty(),
            Some((key, after_key)) => match decode_text(bytes, after_key) {
                None => Seq::empty(),
                Some((value, after_value)) => seq![(key, value)] + decode_pairs(
                    bytes,
                    after_value,
                    (count - 1) as nat,
                ),
            },
        }
    }
}

/// `String::from_utf8_lossy`, as an owned text: valid UTF-8 comes back as
/// the text it encodes; of other bytes only that the same bytes give the
/// same text.
#[verifier::external_body]
fn string_from_utf8_lossy(bytes: &[u8]) -> (s: String)
    ensures
        valid_utf8(bytes@) ==> s@ == decode_utf8(bytes@),
        !valid_utf8(bytes@) ==> s@ == utf8_lossy(bytes@),
{
    String::from_utf8_lossy(bytes).into_owned()
}

fn append_bytes(buffer: &mut Vec<u8>, bytes: &[u8])
    ensures
        final(buffer)@ == old(buffer)@ + bytes@,
{
    buffer.extend_from_slice(bytes);
}

fn append_text(buffer: &mut Vec<u8>, s: &str)
    ensures
        final(buffer)@ == old(buffer)@ + encode_text(s@),
{
    let bytes = s.as_bytes();
    let prefix = u32_to_le_bytes(#[verifier::truncate] (bytes.len() as u32));
    append_bytes(buffer, prefix.as_slice());
    append_bytes(buffer, bytes);
}

/// A bump arena for context pairs, owned by one thread.
///
/// Pairs are only ever appended; what was written stays in place until
/// the arena is cleared.
#[derive(Debug)]
pub struct ContextArena {
    buffer: Vec<u8>,
    thread_id: usize,
}

impl ContextArena {
    /// The bytes written so far.
    pub closed spec fn bytes(&self) -> Seq<u8> {
        self.buffer@
    }

    /// The identifier of the thread that owns the arena.
    pub closed spec fn owner(&self) -> usize {
        self.thread_id
    }

    /// An empty arena for the thread with the given identifier.
    pub fn new(thread_id: usize) -> (res: Self)
        ensures
            res.bytes() == Seq::<u8>::empty(),
            res.owner() == thread_id,
    {
        ContextArena { buffer: Vec::with_capacity(8192), thread_id }
    }

    /// The identifier of the owning thread.
    pub fn thread_id(&self) -> (res: usize)
        ensures
            res == self.owner(),
    {
        self.thread_id
    }

    /// The number of bytes written so far.
    pub fn len(&self) -> (res: usize)
        ensures
            res == self.bytes().len(),
    {
        self.buffer.len()
    }

    /// Whether nothing is stored.
    pub fn is_empty(&self) -> (res: bool)
        ensures
            res == (self.bytes().len() == 0),
    {
        self.buffer.len() == 0
    }

    /// Empties the arena. Handles issued before no longer find their pairs.
    pub fn clear(&mut self)
        ensures
            final(self).bytes() == Seq::<u8>::empty(),
            final(self).owner() == old(self).owner(),
    {
        self.buffer.clear();
    }

    /// Appends the pairs and returns where they start and how many they
    /// are.
    pub fn push_pairs(&mut self, pairs: &[(String, String)]) -> (res: (usize, usize))
        ensures
            final(self).bytes() == old(self).bytes() + encode_pairs(pairs_view(pairs@)),
            final(self).owner() == old(self).owner(),
            res.0 == old(self).bytes().len(),
            res.1 == pairs@.len(),
    {
        let offset = self.buffer.len();
        let ghost all = pairs_view(pairs@);
        let mut i: usize = 0;
        while i < pairs.len()
            invariant
                i <= pairs@.len(),
                all == pairs_view(pairs@),
                self.thread_id == old(self).thread_id,
                self.buffer@ == old(self).buffer@ + encode_pairs(all.take(i as int)),
            decreases pairs@.len() - i,
        {
            let pair = &pairs[i];
            append_text(&mut self.buffer, pair.0.as_str());
            append_text(&mut self.buffer, pair.1.as_str());
            proof {
                lemma_encode_pairs_push(all.take(i as int), all[i as int]);
                assert(all.take(i as int + 1) =~= all.take(i as int).push(all[i as int]));
            }
            i += 1;
        }
        assert(all.take(i as int) =~= all);
        (offset, pairs.len())
    }

    fn read_text(&self, pos: usize) -> (res: Option<(String, usize)>)
        ensures
            match res {
                None => decode_text(self.bytes(), pos as int) is None,
                Some((text, after)) => decode_text(self.bytes(), pos as int) == Some(
                    (text@, after as int),
                ),
            },
    {
        let total = self.buffer.len();
        if pos > total || total - pos < 4 {
            return None;
        }
        let n = u32_from_le_bytes(slice_subrange(self.buffer.as_slice(), pos, pos + 4)) as usize;
        let start = pos + 4;
        if total - start < n {
            return None;
        }
        let text = string_from_utf8_lossy(slice_subrange(self.buffer.as_slice(), start, start + n));
        Some((text, start + n))
    }

    /// Reads up to `len` pairs starting at `offset`. Where the arena ends
    /// before all of them are read, the result holds those read so far.
    pub fn get_pairs(&self, offset: usize, len: usize) -> (res: Vec<(String, String)>)
        ensures
            pairs_view(res@) == decode_pairs(self.bytes(), offset as int, len as nat),
    {
        let mut pairs: Vec<(String, String)> = Vec::new();
        let mut pos = offset;
        let mut i: usize = 0;
        let mut open = true;
        while open && i < len
            invariant
                i <= len,
                decode_pairs(self.bytes(), offset as int, len as nat) == pairs_view(pairs@)
                    + if open {
                    decode_pairs(self.bytes(), pos as int, (len - i) as nat)
                } else {
                    Seq::empty()
                },
            decreases len - i + if open { 1int } else { 0int },
        {
            match self.read_text(pos) {
                None => {
                    open = false;
                },
                Some((key, after_key)) => match self.read_text(after_key) {
                    None => {
                        open = false;
                    },
                    Some((value, after_value)) => {
                        pairs.push((key, value));
                        pos = after_value;
                        i += 1;
                    },
                },
            }
        }
        pairs
    }
}

/// Appending a pair to a list appends its stored form.
pub proof fn lemma_encode_pairs_push(pairs: Seq<(Seq<char>, Seq<char>)>, pair: (Seq<char>, Seq<char>))
    ensures
        encode_pairs(pairs.push(pair)) == encode_pairs(pairs) + encode_text(pair.0) + encode_text(
            pair.1,
        ),
    decreases pairs.len(),
{
    if pairs.len() == 0 {
        let single = pairs.push(pair);
        assert(encode_pairs(single) == encode_text(pair.0) + encode_text(pair.1) + encode_pairs(
            single.drop_first(),
        ));
    } else {
        let longer = pairs.push(pair);
        assert(longer.drop_first() =~= pairs.drop_first().push(pair));
        lemma_encode_pairs_push(pairs.drop_first(), pair);
    }
}

/// The owned pairs of a heap handle: a `smallvec::SmallVec` that keeps a
/// single pair inline. What it holds is known through
/// [`context_vec_pairs`] alone.
#[derive(Debug)]
#[verifier::external_body]
pub struct ContextVec {
    items: SmallVec<[(String, String); 1]>,
}

/// The keys and values that a small vector of pairs holds, in order.
pub uninterp spec fn context_vec_pairs(v: ContextVec) -> Seq<(Seq<char>, Seq<char>)>;

/// `SmallVec::from_vec`: the small vector holds the pairs of the vector, in
/// order.
#[verifier::external_body]
fn context_vec_from_vec(pairs: Vec<(String, String)>) -> (v: ContextVec)
    ensures
        context_vec_pairs(v) == pairs_view(pairs@),
{
    ContextVec { items: SmallVec::from_vec(pairs) }
}

/// `SmallVec::as_slice`: the slice holds the pairs of the small vector, in
/// order.
#[verifier::external_body]
fn context_vec_as_slice(v: &ContextVec) -> (s: &[(String, String)])
    ensures
        pairs_view(s@) == context_vec_pairs(*v),
{
    v.items.as_slice()
}

/// A vector with a copy of each pair of the slice, in order.
fn copy_pairs(slice: &[(String, String)]) -> (res: Vec<(String, String)>)
    ensures
        pairs_view(res@) == pairs_view(slice@),
{
    let mut out: Vec<(String, String)> = Vec::new();
    let mut i: usize = 0;
    while i < slice.len()
        invariant
            i <= slice@.len(),
            pairs_view(out@) =~= pairs_view(slice@).take(i as int),
        decreases slice@.len() - i,
    {
        let pair = &slice[i];
        out.push((pair.0.clone(), pair.1.clone()));
        assert(pairs_view(slice@).take(i as int + 1) =~= pairs_view(slice@).take(i as int).push(
            (pair.0@, pair.1@),
        ));
        i += 1;
    }
    out
}

/// Where the context of an error lives.
#[derive(Debug)]
pub enum ContextHandle {
    /// The pairs are stored in the arena of the thread `thread_id`.
    Arena {
        /// Where the pairs start in the arena.
        offset: usize,
        /// The number of pairs.
        len: usize,
        /// The thread whose arena holds the pairs.
        thread_id: usize,
    },
    /// The pairs are owned by the handle and can be read on any thread.
    Heap(Box<ContextVec>),
    /// No context.
    Empty,
}

impl Clone for ContextHandle {
    /// The copy points at the same place, or owns the same pairs.
    fn clone(&self) -> (res: Self)
        ensures
            res.count() == self.count(),
            forall|arena: ContextArena| #[trigger] res.resolved(arena) == self.resolved(arena),
    {
        match self {
            ContextHandle::Arena { offset, len, thread_id } => ContextHandle::Arena {
                offset: *offset,
                len: *len,
                thread_id: *thread_id,
            },
            ContextHandle::Heap(v) => {
                let pairs = copy_pairs(context_vec_as_slice(v));
                ContextHandle::Heap(Box::new(context_vec_from_vec(pairs)))
            },
            ContextHandle::Empty => ContextHandle::Empty,
        }
    }
}

impl Default for ContextHandle {
    fn default() -> (res: Self)
        ensures
            res is Empty,
    {
        ContextHandle::Empty
    }
}

impl ContextHandle {
    /// The number of pairs that the handle records.
    pub open spec fn count(self) -> nat {
        match self {
            ContextHandle::Arena { len, .. } => len as nat,
            ContextHandle::Heap(v) => context_vec_pairs(*v).len(),
            ContextHandle::Empty => 0,
        }
    }

    /// The pairs that the handle yields when it is read through `arena`,
    /// the arena of the reading thread: nothing for the empty handle, the
    /// owned pairs of a heap handle, and for an arena handle what the arena
    /// holds at its place, or nothing where the arena belongs to another
    /// thread than the handle.
    pub open spec fn resolved(self, arena: ContextArena) -> Seq<(Seq<char>, Seq<char>)> {
        match self {
            ContextHandle::Arena { offset, len, thread_id } => if thread_id == arena.owner() {
                decode_pairs(arena.bytes(), offset as int, len as nat)
            } else {
                Seq::empty()
            },
            ContextHandle::Heap(v) => context_vec_pairs(*v),
            ContextHandle::Empty => Seq::empty(),
        }
    }

    /// What committing `pairs` to an arena makes of the arena and returns:
    /// no pair gives the empty handle and a single pair a heap handle, both
    /// without touching the arena; more pairs are appended to the arena
    /// and the handle points at them.
    pub open spec fn is_commit_of(
        self,
        pairs: Seq<(Seq<char>, Seq<char>)>,
        before: ContextArena,
        after: ContextArena,
    ) -> bool {
        &&& after.owner() == before.owner()
        &&& if pairs.len() == 0 {
            &&& self is Empty
            &&& after.bytes() == before.bytes()
        } else if pairs.len() == 1 {
            &&& self is Heap
            &&& self.resolved(after) == pairs
            &&& after.bytes() == before.bytes()
        } else {
            &&& self matches ContextHandle::Arena { offset, len, thread_id }
            &&& offset == before.bytes().len()
            &&& len == pairs.len()
            &&& thread_id == before.owner()
            &&& after.bytes() == before.bytes() + encode_pairs(pairs)
        }
    }

    /// The number of pairs that the handle records.
    pub fn len(&self) -> (res: usize)
        ensures
            res == self.count(),
    {
        match self {
            ContextHandle::Arena { len, .. } => *len,
            ContextHandle::Heap(v) => context_vec_as_slice(v).len(),
            ContextHandle::Empty => 0,
        }
    }

    /// Whether the handle records no pair.
    pub fn is_empty(&self) -> (res: bool)
        ensures
            res == (self.count() == 0),
    {
        self.len() == 0
    }

    /// Reads the pairs of the handle through the arena of the reading
    /// thread.
    pub fn resolve(&self, arena: &ContextArena) -> (res: Vec<(String, String)>)
        ensures
            pairs_view(res@) == self.resolved(*arena),
    {
        match self {
            ContextHandle::Arena { offset, len, thread_id } => {
                if *thread_id == arena.thread_id() {
                    arena.get_pairs(*offset, *len)
                } else {
                    Vec::new()
                }
            },
            ContextHandle::Heap(v) => copy_pairs(context_vec_as_slice(v)),
            ContextHandle::Empty => Vec::new(),
        }
    }

    /// A handle that owns `pairs`: the empty handle for no pair, else a
    /// heap handle, which reads the same on every thread.
    pub fn from_pairs(pairs: Vec<(String, String)>) -> (res: Self)
        ensures
            pairs@.len() == 0 ==> res is Empty,
            pairs@.len() > 0 ==> res is Heap,
            forall|arena: ContextArena| #[trigger] res.resolved(arena) == pairs_view(pairs@),
            res.count() == pairs@.len(),
    {
        if pairs.len() == 0 {
            ContextHandle::Empty
        } else {
            ContextHandle::Heap(Box::new(context_vec_from_vec(pairs)))
        }
    }

    /// Stores `pairs` and returns the handle to them: no pair gives the
    /// empty handle, a single pair is kept on the heap, and more pairs go
    /// to the arena. Pairs that fit their length prefixes are read back
    /// through the same arena as they were given.
    pub fn commit(arena: &mut ContextArena, pairs: Vec<(String, String)>) -> (res: Self)
        ensures
            res.is_commit_of(pairs_view(pairs@), *old(arena), *final(arena)),
            all_fit(pairs_view(pairs@)) ==> res.resolved(*final(arena)) == pairs_view(pairs@),
    {
        if pairs.len() == 0 {
            ContextHandle::Empty
        } else if pairs.len() == 1 {
            ContextHandle::Heap(Box::new(context_vec_from_vec(pairs)))
        } else {
            commit_to_arena(arena, pairs.as_slice())
        }
    }
}

/// Appends the pairs to the arena and returns the arena handle to them.
/// Pairs that fit their length prefixes are read back through the same
/// arena as they were given.
pub fn commit_to_arena(arena: &mut ContextArena, pairs: &[(String, String)]) -> (res: ContextHandle)
    ensures
        res matches ContextHandle::Arena { offset, len, thread_id } && offset == old(
            arena,
        ).bytes().len() && len == pairs@.len() && thread_id == old(arena).owner(),
        final(arena).owner() == old(arena).owner(),
        final(arena).bytes() == old(arena).bytes() + encode_pairs(pairs_view(pairs@)),
        all_fit(pairs_view(pairs@)) ==> res.resolved(*final(arena)) == pairs_view(pairs@),
{
    let thread_id = arena.thread_id();
    let (offset, len) = arena.push_pairs(pairs);
    proof {
        if all_fit(pairs_view(pairs@)) {
            lemma_decode_stored(old(arena).bytes(), pairs_view(pairs@), Seq::empty());
        }
    }
    ContextHandle::Arena { offset, len, thread_id }
}

/// A stored text is read back as it was given, whatever stands before and
/// after it, as long as its length fits the prefix.
pub proof fn lemma_decode_text_stored(before: Seq<u8>, s: Seq<char>, after: Seq<u8>)
    requires
        fits_prefix(s),
    ensures
        encode_text(s).len() == 4 + encode_utf8(s).len(),
        decode_text(before + encode_text(s) + after, before.len() as int) == Some(
            (s, before.len() as int + encode_text(s).len()),
        ),
{
    lemma_auto_spec_u32_to_from_le_bytes();
    encode_utf8_valid_utf8(s);
    encode_utf8_decode_utf8(s);
    let body = encode_utf8(s);
    let n = body.len() as u32;
    let prefix = spec_u32_to_le_bytes(n);
    let bytes = before + encode_text(s) + after;
    let pos = before.len() as int;
    assert(bytes.subrange(pos, pos + 4) =~= prefix);
    assert(bytes.subrange(pos + 4, pos + 4 + n) =~= body);
}

/// Stored pairs are read back as they were given, whatever stands before
/// and after them, as long as every key and value fits its length prefix.
pub proof fn lemma_decode_stored(
    before: Seq<u8>,
    pairs: Seq<(Seq<char>, Seq<char>)>,
    after: Seq<u8>,
)
    requires
        all_fit(pairs),
    ensures
        decode_pairs(before + encode_pairs(pairs) + after, before.len() as int, pairs.len())
            == pairs,
    decreases pairs.len(),
{
    let bytes = before + encode_pairs(pairs) + after;
    if pairs.len() > 0 {
        let key = pairs[0].0;
        let value = pairs[0].1;
        let rest = pairs.drop_first();
        assert forall|i: int| 0 <= i < rest.len() implies fits_prefix(#[trigger] rest[i].0)
            && fits_prefix(rest[i].1) by {
        }
        let mid = before + encode_text(key);
        let far = mid + encode_text(value);
        lemma_decode_text_stored(before, key, encode_text(value) + encode_pairs(rest) + after);
        assert(bytes =~= before + encode_text(key) + (encode_text(value) + encode_pairs(rest)
            + after));
        lemma_decode_text_stored(mid, value, encode_pairs(rest) + after);
        assert(bytes =~= mid + encode_text(value) + (encode_pairs(rest) + after));
        lemma_decode_stored(far, rest, after);
        assert(bytes =~= far + encode_pairs(rest) + after);
    }
}

/// What was read in full is not changed by anything that is appended
/// later: the arena only grows at its end.
pub proof fn lemma_decode_stable(bytes: Seq<u8>, more: Seq<u8>, pos: int, count: nat)
    requires
        decode_pairs(bytes, pos, count).len() == count,
    ensures
        decode_pairs(bytes + more, pos, count) == decode_pairs(bytes, pos, count),
    decreases count,
{
    if count > 0 {
        let longer = bytes + more;
        let (key, after_key) = decode_text(bytes, pos)->0;
        assert(bytes.subrange(pos, pos + 4) =~= longer.subrange(pos, pos + 4));
        assert(bytes.subrange(pos + 4, after_key) =~= longer.subrange(pos + 4, after_key));
        let (value, after_value) = decode_text(bytes, after_key)->0;
        assert(bytes.subrange(after_key, after_key + 4) =~= longer.subrange(
            after_key,
            after_key + 4,
        ));
        assert(bytes.subrange(after_key + 4, after_value) =~= longer.subrange(
            after_key + 4,
            after_value,
        ));
        lemma_decode_stable(bytes, more, after_value, (count - 1) as nat);
    }
}

/// Reading yields at most as many pairs as were asked for.
pub proof fn lemma_decode_at_most_count(bytes: Seq<u8>, pos: int, count: nat)
    ensures
        decode_pairs(bytes, pos, count).len() <= count,
    decreases count,
{
    if count > 0 {
        match decode_text(bytes, pos) {
            None => {},
            Some((key, after_key)) => match decode_text(bytes, after_key) {
                None => {},
                Some((value, after_value)) => {
                    lemma_decode_at_most_count(bytes, after_value, (count - 1) as nat);
                },
            },
        }
    }
}

/// A cleared arena yields nothing, whatever place is read.
pub proof fn lemma_decode_from_cleared(pos: int, count: nat)
    ensures
        decode_pairs(Seq::<u8>::empty(), pos, count) == Seq::<(Seq<char>, Seq<char>)>::empty(),
{
}

/// An arena handle read through the arena of another thread yields
/// nothing, whatever that arena holds.
pub proof fn lemma_foreign_arena_reads_nothing(handle: ContextHandle, arena: ContextArena)
    requires
        handle is Arena,
        handle->thread_id != arena.owner(),
    ensures
        handle.resolved(arena) == Seq::<(Seq<char>, Seq<char>)>::empty(),
{
}

} // verus!
