//! Content identifiers of objects: a hash tree over chunks of a fixed size,
//! fed with the bytes of the object in whatever pieces they arrive.

use unixfs_v1::file::adder::{Chunker, FileAdder};
use vstd::prelude::*;
use vstd::slice::slice_subrange;

use crate::error::Error;
use crate::provider::response::Cid;

verus! {

/// `unixfs_v1::file::adder::FileAdder`, the builder of the hash tree of a
/// file, carried as it is: nothing of its inside is claimed but what the
/// names below stand for.
#[verifier::external_type_specification]
#[verifier::external_body]
pub struct ExFileAdder(FileAdder);

/// The bytes that a tree builder has accepted so far, in their order.
pub uninterp spec fn adder_content(adder: FileAdder) -> Seq<u8>;

/// The chunk size that a tree builder was made with.
pub uninterp spec fn adder_chunk_size(adder: FileAdder) -> nat;

/// The identifier of the last block that a tree builder puts out when the
/// bytes accepted so far end on a chunk boundary.
pub uninterp spec fn pushed_block_cid(content: Seq<u8>, chunk_size: nat) -> Seq<u8>;

/// The identifier of the last block that a tree builder puts out when it is
/// finished, if it puts one out.
pub uninterp spec fn finished_block_cid(content: Seq<u8>, chunk_size: nat) -> Option<Seq<u8>>;

/// How many of `input` bytes a tree builder accepts in one push: as many as
/// the chunk in the making still has room for.
pub open spec fn accepted_len(content: nat, chunk_size: nat, input: nat) -> nat {
    let room = (chunk_size - content % chunk_size) as nat;
    if input <= room {
        input
    } else {
        room
    }
}

/// `FileAdder::builder().with_chunker(Chunker::Size(chunk_size)).build()`:
/// a tree builder that has accepted nothing yet. The chunker divides by the
/// chunk size, so zero is left out.
#[verifier::external_body]
fn adder_new(chunk_size: usize) -> (adder: FileAdder)
    requires
        chunk_size > 0,
    ensures
        adder_content(adder) == Seq::<u8>::empty(),
        adder_chunk_size(adder) == chunk_size,
{
    FileAdder::builder().with_chunker(Chunker::Size(chunk_size)).build()
}

/// `FileAdder::push`: the builder accepts the bytes that fit into the chunk
/// in the making and says how many those were. It puts out blocks exactly
/// when that chunk became full; the result then holds the identifier of the
/// last of them, in its binary form.
#[verifier::external_body]
fn adder_push(adder: &mut FileAdder, input: &[u8]) -> (pushed: (Option<Vec<u8>>, usize))
    requires
        adder_chunk_size(*old(adder)) > 0,
    ensures
        adder_chunk_size(*final(adder)) == adder_chunk_size(*old(adder)),
        pushed.1 == accepted_len(
            adder_content(*old(adder)).len(),
            adder_chunk_size(*old(adder)),
            input@.len(),
        ),
        adder_content(*final(adder)) == adder_content(*old(adder)) + input@.take(pushed.1 as int),
        pushed.0 is Some <==> pushed.1 > 0 && adder_content(*final(adder)).len()
            % adder_chunk_size(*old(adder)) == 0,
        pushed.0 matches Some(cid) ==> cid@ == pushed_block_cid(
            adder_content(*final(adder)),
            adder_chunk_size(*old(adder)),
        ),
{
    let (blocks, written) = adder.push(input);
    match blocks.last() {
        Some((cid, _)) => (Some(cid.to_bytes()), written),
        None => (None, written),
    }
}

/// `FileAdder::finish`: the identifier of the last block that the builder
/// puts out at the end, in its binary form, or nothing where it puts out no
/// block.
#[verifier::external_body]
fn adder_finish(adder: FileAdder) -> (last: Option<Vec<u8>>)
    ensures
        match finished_block_cid(adder_content(adder), adder_chunk_size(adder)) {
            Some(cid) => last matches Some(v) && v@ == cid,
            None => last is None,
        },
{
    match adder.finish().last() {
        Some((cid, _)) => Some(cid.to_bytes()),
        None => None,
    }
}

/// The length of the longest prefix that ends on a chunk boundary.
pub open spec fn whole_chunks_len(len: nat, chunk_size: nat) -> nat {
    (len / chunk_size) * chunk_size
}

/// The binary form of the identifier of a content: that of the block that
/// finishing puts out last, else that of the block that the last full chunk
/// put out.
pub open spec fn root_block_cid(content: Seq<u8>, chunk_size: nat) -> Option<Seq<u8>> {
    match finished_block_cid(content, chunk_size) {
        Some(cid) => Some(cid),
        None => if content.len() >= chunk_size {
            Some(
                pushed_block_cid(
                    content.take(whole_chunks_len(content.len(), chunk_size) as int),
                    chunk_size,
                ),
            )
        } else {
            None
        },
    }
}

/// The content identifier of an object: none for an object without bytes.
pub open spec fn object_cid(content: Seq<u8>, chunk_size: nat) -> Option<Seq<u8>> {
    if content.len() == 0 {
        None
    } else {
        match root_block_cid(content, chunk_size) {
            Some(bytes) => Cid::read(bytes),
            None => None,
        }
    }
}

/// Pieces of bytes laid end to end.
pub open spec fn concat_all(reads: Seq<Seq<u8>>) -> Seq<u8>
    decreases reads.len(),
{
    if reads.len() == 0 {
        Seq::empty()
    } else {
        concat_all(reads.drop_last()) + reads.last()
    }
}

/// Computes the content identifier of an object from its bytes, piece by
/// piece.
pub struct CidBuilder {
    adder: FileAdder,
    last_block: Option<Vec<u8>>,
    size: u64,
}

impl CidBuilder {
    /// The bytes fed so far.
    pub closed spec fn content(&self) -> Seq<u8> {
        adder_content(self.adder)
    }

    /// The chunk size.
    pub closed spec fn chunk_size(&self) -> nat {
        adder_chunk_size(self.adder)
    }

    /// The builder keeps count of the bytes and remembers the block of the
    /// last full chunk.
    pub closed spec fn wf(&self) -> bool {
        &&& self.chunk_size() > 0
        &&& self.size == self.content().len()
        &&& match self.last_block {
            Some(cid) => self.content().len() >= self.chunk_size() && cid@ == pushed_block_cid(
                self.content().take(
                    whole_chunks_len(self.content().len(), self.chunk_size()) as int,
                ),
                self.chunk_size(),
            ),
            None => self.content().len() < self.chunk_size(),
        }
    }

    /// A builder that has been fed nothing.
    pub fn new(chunk_size: usize) -> (builder: CidBuilder)
        requires
            chunk_size > 0,
        ensures
            builder.wf(),
            builder.content() == Seq::<u8>::empty(),
            builder.chunk_size() == chunk_size,
    {
        CidBuilder { adder: adder_new(chunk_size), last_block: None, size: 0 }
    }

    /// The number of bytes fed so far.
    pub fn size(&self) -> (size: u64)
        requires
            self.wf(),
        ensures
            size == self.content().len(),
    {
        self.size
    }

    /// Feeds the next bytes of the object.
    pub fn update(&mut self, bytes: &[u8])
        requires
            old(self).wf(),
            old(self).content().len() + bytes@.len() <= u64::MAX,
        ensures
            final(self).wf(),
            final(self).chunk_size() == old(self).chunk_size(),
            final(self).content() == old(self).content() + bytes@,
    {
        let mut offset: usize = 0;
        assert(bytes@.take(0) == Seq::<u8>::empty());
        assert(self.content() + Seq::<u8>::empty() == self.content());
        while offset < bytes.len()
            invariant
                offset <= bytes@.len(),
                self.wf(),
                self.chunk_size() == old(self).chunk_size(),
                self.content() == old(self).content() + bytes@.take(offset as int),
                old(self).content().len() + bytes@.len() <= u64::MAX,
            decreases bytes.len() - offset,
        {
            let rest = slice_subrange(bytes, offset, bytes.len());
            let ghost before = self.content();
            let ghost chunk = self.chunk_size();
            let (block, written) = adder_push(&mut self.adder, rest);
            proof {
                let after = self.content();
                let len = before.len();
                assert(rest@.take(written as int) == bytes@.subrange(
                    offset as int,
                    offset + written,
                ));
                assert(bytes@.take(offset as int) + bytes@.subrange(offset as int, offset + written)
                    == bytes@.take(offset + written));
                assert(after == old(self).content() + bytes@.take(offset + written));
                assert(len % chunk < chunk) by (nonlinear_arith)
                    requires
                        chunk > 0,
                ;
                assert(1 <= written <= chunk - len % chunk);
                lemma_chunks(len, chunk, written as nat);
                if block is None {
                    assert(whole_chunks_len(after.len(), chunk) == whole_chunks_len(len, chunk));
                    assert(after.take(whole_chunks_len(len, chunk) as int) == before.take(
                        whole_chunks_len(len, chunk) as int,
                    ));
                } else {
                    assert(whole_chunks_len(after.len(), chunk) == after.len());
                    assert(after.take(after.len() as int) == after);
                }
            }
            match block {
                Some(cid) => {
                    self.last_block = Some(cid);
                },
                None => {},
            }
            self.size = self.size + written as u64;
            offset = offset + written;
        }
        assert(bytes@.take(offset as int) == bytes@);
    }

    /// Ends the object and gives its content identifier. An object without
    /// bytes has none.
    pub fn finish(self) -> (cid: Result<Cid, Error>)
        requires
            self.wf(),
        ensures
            self.content().len() == 0 ==> cid == Err::<Cid, Error>(Error::EmptyObject),
            self.content().len() > 0 ==> match object_cid(self.content(), self.chunk_size()) {
                Some(bytes) => cid matches Ok(c) && c@ == bytes && c.wf(),
                None => cid == Err::<Cid, Error>(Error::InvalidCid),
            },
    {
        if self.size == 0 {
            return Err(Error::EmptyObject);
        }
        let CidBuilder { adder, last_block, size } = self;
        let root = match adder_finish(adder) {
            Some(cid) => Some(cid),
            None => last_block,
        };
        match root {
            Some(bytes) => Cid::from_bytes(bytes.as_slice()),
            None => Err(Error::InvalidCid),
        }
    }
}

proof fn lemma_chunks(len: nat, chunk: nat, written: nat)
    requires
        chunk > 0,
        1 <= written <= chunk - len % chunk,
    ensures
        (len + written) % chunk == 0 <==> written == chunk - len % chunk,
        (len + written) % chunk != 0 ==> whole_chunks_len(len + written, chunk) == whole_chunks_len(
            len,
            chunk,
        ),
        (len + written) % chunk == 0 ==> whole_chunks_len(len + written, chunk) == len + written,
        whole_chunks_len(len, chunk) <= len,
        len + written >= chunk <==> len >= chunk || (len + written) % chunk == 0,
{
    let q = len / chunk;
    let r = len % chunk;
    vstd::arithmetic::div_mod::lemma_fundamental_div_mod(len as int, chunk as int);
    assert(len == chunk * q + r);
    assert(0 <= r < chunk) by {
        vstd::arithmetic::div_mod::lemma_mod_bound(len as int, chunk as int);
    }
    if written == chunk - r {
        assert(len + written == chunk * (q + 1)) by (nonlinear_arith)
            requires
                len == chunk * q + r,
                written == chunk - r,
        ;
        vstd::arithmetic::div_mod::lemma_fundamental_div_mod_converse(
            (len + written) as int,
            chunk as int,
            (q + 1) as int,
            0,
        );
        assert((q + 1) * chunk == len + written) by (nonlinear_arith)
            requires
                len + written == chunk * (q + 1),
        ;
    } else {
        vstd::arithmetic::div_mod::lemma_fundamental_div_mod_converse(
            (len + written) as int,
            chunk as int,
            q as int,
            (r + written) as int,
        );
    }
    assert(q * chunk <= len) by (nonlinear_arith)
        requires
            len == chunk * q + r,
            r >= 0,
    ;
    if q == 0 {
        assert(chunk * q == 0) by (nonlinear_arith)
            requires
                q == 0,
        ;
        assert(len < chunk);
    } else {
        assert(len >= chunk) by (nonlinear_arith)
            requires
                len == chunk * q + r,
                q >= 1,
                r >= 0,
        ;
    }
}

/// What `generate_cid` asks of the pieces: their bytes can be counted.
pub open spec fn countable(reads: Seq<Seq<u8>>) -> bool {
    concat_all(reads).len() <= u64::MAX
}

proof fn lemma_concat_prefix(reads: Seq<Seq<u8>>, k: int)
    requires
        0 <= k <= reads.len(),
    ensures
        concat_all(reads.take(k)).len() <= concat_all(reads).len(),
    decreases reads.len(),
{
    if k < reads.len() {
        lemma_concat_prefix(reads.drop_last(), k);
        assert(reads.drop_last().take(k) == reads.take(k));
    } else {
        assert(reads.take(k) == reads);
    }
}

/// Computes the content identifier of an object that arrives in pieces,
/// together with its size. Only the bytes count, not how they were cut into
/// pieces.
pub fn generate_cid(reads: &Vec<Vec<u8>>, chunk_size: usize) -> (object: Result<(Cid, u64), Error>)
    requires
        chunk_size > 0,
        countable(reads.deep_view()),
    ensures
        concat_all(reads.deep_view()).len() == 0 ==> object == Err::<(Cid, u64), Error>(
            Error::EmptyObject,
        ),
        concat_all(reads.deep_view()).len() > 0 ==> match object_cid(
            concat_all(reads.deep_view()),
            chunk_size as nat,
        ) {
            Some(bytes) => object matches Ok((c, size)) && c@ == bytes && c.wf() && size
                == concat_all(reads.deep_view()).len(),
            None => object == Err::<(Cid, u64), Error>(Error::InvalidCid),
        },
{
    let mut builder = CidBuilder::new(chunk_size);
    let mut i: usize = 0;
    let ghost all = reads.deep_view();
    assert(all.take(0) =~= Seq::empty());
    while i < reads.len()
        invariant
            i <= reads.len(),
            all == reads.deep_view(),
            countable(all),
            builder.wf(),
            builder.chunk_size() == chunk_size,
            builder.content() == concat_all(all.take(i as int)),
        decreases reads.len() - i,
    {
        proof {
            assert(all[i as int] == reads@[i as int]@);
            assert(all.take(i + 1).drop_last() == all.take(i as int));
            assert(all.take(i + 1).last() == all[i as int]);
            lemma_concat_prefix(all, i + 1);
        }
        builder.update(reads[i].as_slice());
        i += 1;
    }
    assert(all.take(i as int) == all);
    let size = builder.size();
    match builder.finish() {
        Ok(cid) => Ok((cid, size)),
        Err(e) => Err(e),
    }
}

/// The identifier of an object does not depend on how its bytes were read:
/// many small reads give what a single read of all the bytes gives, and
/// two computations over the same bytes agree.
pub proof fn lemma_cid_is_independent_of_read_pattern(
    first: Seq<Seq<u8>>,
    second: Seq<Seq<u8>>,
    chunk_size: nat,
)
    requires
        concat_all(first) == concat_all(second),
    ensures
        object_cid(concat_all(first), chunk_size) == object_cid(concat_all(second), chunk_size),
        object_cid(concat_all(first), chunk_size) == object_cid(
            concat_all(seq![concat_all(first)]),
            chunk_size,
        ),
{
    let whole = seq![concat_all(first)];
    assert(whole.drop_last() =~= Seq::<Seq<u8>>::empty());
    assert(concat_all(whole.drop_last()) == Seq::<u8>::empty());
    assert(concat_all(whole) =~= concat_all(first));
}

} // verus!
