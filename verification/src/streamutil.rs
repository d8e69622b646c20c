//! From the pieces of a streamed body to one buffer, all or nothing.

use vstd::prelude::*;

verus! {

/// What a stream yields at one step: the next bytes, or the failure that ends
/// it.
#[derive(Debug, PartialEq, Eq)]
pub enum StreamItem {
    Chunk(Vec<u8>),
    Failure(String),
}

/// A stream broke off. `chunks_read` chunks had arrived before it did, and
/// `message` is what the transport said.
#[derive(Debug, PartialEq, Eq)]
pub struct StreamReadError {
    pub chunks_read: usize,
    pub message: String,
}

impl StreamItem {
    pub open spec fn is_failure(self) -> bool {
        self is Failure
    }

    /// The bytes that the item brings; a failure brings none.
    pub open spec fn bytes(self) -> Seq<u8> {
        match self {
            StreamItem::Chunk(b) => b@,
            StreamItem::Failure(_) => Seq::empty(),
        }
    }
}

/// No item is a failure.
pub open spec fn all_chunks(items: Seq<StreamItem>) -> bool {
    forall|i: int| 0 <= i < items.len() ==> !(#[trigger] items[i]).is_failure()
}

/// The bytes of all items, in the order of the items.
pub open spec fn concat(items: Seq<StreamItem>) -> Seq<u8>
    decreases items.len(),
{
    if items.len() == 0 {
        Seq::empty()
    } else {
        concat(items.drop_last()) + items.last().bytes()
    }
}

/// The stream broke off at item `at`, which is its first failure, with
/// `message`.
pub open spec fn broke_at(items: Seq<StreamItem>, at: int, message: String) -> bool {
    &&& 0 <= at < items.len()
    &&& all_chunks(items.take(at))
    &&& items[at] == StreamItem::Failure(message)
}

/// Gathers a whole stream into one buffer. Where every item is a chunk, the
/// buffer holds the chunks' bytes in order. Where one is a failure, there is
/// no buffer: the error tells how many chunks had come, and why no more.
pub fn write_stream_to_vec_u8(items: Vec<StreamItem>) -> (result: Result<Vec<u8>, StreamReadError>)
    ensures
        match result {
            Ok(buffer) => all_chunks(items@) && buffer@ == concat(items@),
            Err(e) => broke_at(items@, e.chunks_read as int, e.message),
        },
{
    let mut bytes: Vec<u8> = Vec::new();
    let mut i: usize = 0;
    assert(items@.take(0) =~= Seq::empty());
    while i < items.len()
        invariant
            i <= items.len(),
            all_chunks(items@.take(i as int)),
            bytes@ == concat(items@.take(i as int)),
        decreases items.len() - i,
    {
        let ghost before = items@.take(i as int);
        let ghost after = items@.take(i as int + 1);
        proof {
            assert(after.drop_last() =~= before);
            assert(after.last() == items@[i as int]);
        }
        match &items[i] {
            StreamItem::Chunk(new_bytes) => {
                bytes.extend_from_slice(new_bytes.as_slice());
                proof {
                    assert(bytes@ =~= concat(before) + new_bytes@);
                    assert forall|j: int| 0 <= j < after.len() implies !(#[trigger] after[j]).is_failure() by {
                        if j < i {
                            assert(after[j] == before[j]);
                        }
                    }
                }
            },
            StreamItem::Failure(message) => {
                return Err(StreamReadError { chunks_read: i, message: message.clone() });
            },
        }
        i += 1;
    }
    assert(items@.take(i as int) =~= items@);
    Ok(bytes)
}

/// The bytes of two runs of items, one after the other, are the bytes of the
/// first followed by the bytes of the second.
pub proof fn lemma_concat_append(first: Seq<StreamItem>, second: Seq<StreamItem>)
    ensures
        concat(first + second) == concat(first) + concat(second),
    decreases second.len(),
{
    if second.len() == 0 {
        assert(first + second =~= first);
        assert(concat(first) + concat(second) =~= concat(first));
    } else {
        lemma_concat_append(first, second.drop_last());
        assert((first + second).drop_last() =~= first + second.drop_last());
        assert((first + second).last() == second.last());
        assert(concat(first + second) =~= concat(first) + concat(second));
    }
}

/// A stream is whole or broken, never both, and a broken one is broken at
/// one place with one message: so what comes of a stream is settled by its
/// items.
pub proof fn lemma_whole_or_broken(items: Seq<StreamItem>)
    ensures
        all_chunks(items) <==> !exists|at: int, message: String| broke_at(items, at, message),
        forall|a: int, m: String, b: int, n: String|
            broke_at(items, a, m) && broke_at(items, b, n) ==> a == b && m == n,
{
    if !all_chunks(items) {
        let k = choose|k: int| 0 <= k < items.len() && items[k].is_failure();
        lemma_first_failure(items, 0, k);
        let at = first_failure(items, 0);
        let message = items[at]->Failure_0;
        assert forall|i: int| 0 <= i < at implies !(#[trigger] items.take(at)[i]).is_failure() by {
            assert(items.take(at)[i] == items[i]);
        }
        assert(broke_at(items, at, message));
    }
    assert forall|at: int, message: String| broke_at(items, at, message) implies !all_chunks(
        items,
    ) by {
        assert(items[at].is_failure());
    }
    assert forall|a: int, m: String, b: int, n: String|
        broke_at(items, a, m) && broke_at(items, b, n) implies a == b && m == n by {
        if a < b {
            assert(items.take(b)[a] == items[a]);
        } else if b < a {
            assert(items.take(a)[b] == items[b]);
        }
    }
}

proof fn lemma_first_failure(items: Seq<StreamItem>, from: int, k: int)
    requires
        0 <= from <= k < items.len(),
        items[k].is_failure(),
    ensures
        from <= first_failure(items, from) <= k,
        items[first_failure(items, from)].is_failure(),
        forall|i: int| from <= i < first_failure(items, from) ==> !(#[trigger] items[i]).is_failure(),
    decreases k - from,
{
    if !items[from].is_failure() {
        lemma_first_failure(items, from + 1, k);
    }
}

/// The place of the first failure at or after `from`, in a stream that has
/// one there.
spec fn first_failure(items: Seq<StreamItem>, from: int) -> int
    decreases items.len() - from,
{
    if from < 0 || from >= items.len() || items[from].is_failure() {
        from
    } else {
        first_failure(items, from + 1)
    }
}

/// Decides one step while a stream goes to a file: the bytes to write next,
/// or the error that ends the writing. `chunks_written` is the number of
/// chunks that went before; what was written stays written.
pub fn write_stream_to_file(item: StreamItem, chunks_written: usize) -> (step: Result<
    Vec<u8>,
    StreamReadError,
>)
    ensures
        step == (match item {
            StreamItem::Chunk(bytes) => Ok(bytes),
            StreamItem::Failure(message) => Err(
                StreamReadError { chunks_read: chunks_written, message },
            ),
        }),
{
    match item {
        StreamItem::Chunk(bytes) => Ok(bytes),
        StreamItem::Failure(message) => Err(StreamReadError { chunks_read: chunks_written, message }),
    }
}

} // verus!
