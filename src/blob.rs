//! Block planning for uploads through capability URLs: block size, block
//! ids, and the order in which staged blocks are committed.

use vstd::prelude::*;

use crate::error::Error;
use crate::text::{hex32, hex32_chars, string_of_chars};

verus! {

/// The smallest block of an upload, in bytes.
pub const MIN_BLOCK_SIZE: u64 = 10 * 1024 * 1024;

/// The most blocks that the storage service takes in one blob.
pub const MAX_BLOCKS: u64 = 50_000;

/// The block size of an upload of `size` bytes: at least the smallest block,
/// larger where needed to stay within the storage service's block count.
pub open spec fn block_size_for(size: u64) -> u64 {
    let by_count = blocks_needed(size as nat, MAX_BLOCKS as nat);
    if by_count > MIN_BLOCK_SIZE {
        by_count as u64
    } else {
        MIN_BLOCK_SIZE
    }
}

/// The number of blocks of `block_size` bytes that hold `size` bytes.
pub open spec fn blocks_needed(size: nat, block_size: nat) -> nat
    recommends
        block_size > 0,
{
    ((size + block_size - 1) / block_size as int) as nat
}

/// The block size of an upload of `size` bytes.
pub fn block_size(size: u64) -> (r: u64)
    ensures
        r == block_size_for(size),
        r >= MIN_BLOCK_SIZE,
{
    let by_count = block_count(size, MAX_BLOCKS);
    if by_count > MIN_BLOCK_SIZE {
        by_count
    } else {
        MIN_BLOCK_SIZE
    }
}

/// The number of blocks of `block_size` bytes that hold `size` bytes.
pub fn block_count(size: u64, block_size: u64) -> (r: u64)
    requires
        block_size > 0,
    ensures
        r as nat == blocks_needed(size as nat, block_size as nat),
{
    let whole = size / block_size;
    if size % block_size == 0 {
        proof {
            assert(((size + block_size - 1) / block_size as int) == whole) by (nonlinear_arith)
                requires
                    size % block_size == 0,
                    whole == size / block_size,
                    block_size > 0,
            ;
        }
        whole
    } else {
        proof {
            assert(((size + block_size - 1) / block_size as int) == whole + 1) by (nonlinear_arith)
                requires
                    size % block_size != 0,
                    whole == size / block_size,
                    block_size > 0,
            ;
            assert(whole < u64::MAX) by (nonlinear_arith)
                requires
                    size % block_size != 0,
                    whole == size / block_size,
                    block_size > 0,
                    size <= u64::MAX,
            ;
        }
        whole + 1
    }
}

/// The identifier of the block at `index`: 32 lowercase hexadecimal digits.
pub fn block_id(index: u64) -> (r: String)
    ensures
        r@ == hex32(index as u128),
{
    let digits = hex32_chars(index as u128);
    string_of_chars(&digits)
}

/// What an upload does after reading the next part of the file.
pub enum UploadStep {
    /// Stage the bytes just read as an uncommitted block with this id.
    PutBlock(String),
    /// The file is read: commit these blocks, in this order, as the blob.
    Commit(Vec<String>),
}

/// The ids of the first `n` blocks, in order.
pub open spec fn block_ids(n: nat) -> Seq<Seq<char>> {
    Seq::new(n, |i: int| hex32(i as u128))
}

/// An upload of a file as a sequence of blocks followed by the commit of
/// their list. It is told how many bytes each read brought and answers
/// with the storage operation to perform.
pub struct BlockUpload {
    block_size: u64,
    staged: Vec<String>,
    committed: bool,
}

/// The view of an upload: its block size, the ids staged so far, and
/// whether the list was committed.
pub struct BlockUploadView {
    pub block_size: u64,
    pub staged: Seq<Seq<char>>,
    pub committed: bool,
}

impl BlockUpload {
    /// The staged ids are the consecutive block ids, from the first.
    #[verifier::type_invariant]
    spec fn ids_consecutive(&self) -> bool {
        self.staged@.map_values(|s: String| s@) == block_ids(self.staged@.len())
    }
}

impl View for BlockUpload {
    type V = BlockUploadView;

    closed spec fn view(&self) -> BlockUploadView {
        BlockUploadView {
            block_size: self.block_size,
            staged: self.staged@.map_values(|s: String| s@),
            committed: self.committed,
        }
    }
}

impl BlockUpload {
    /// An upload of a file of `size` bytes; fails where the block size does
    /// not fit in memory's address range.
    pub fn new(size: u64) -> (r: Result<BlockUpload, Error>)
        ensures
            block_size_for(size) <= usize::MAX ==> (r matches Ok(u) && u@ == BlockUploadView {
                block_size: block_size_for(size),
                staged: Seq::empty(),
                committed: false,
            }),
            block_size_for(size) > usize::MAX ==> (r matches Err(Error::TryFromIntError(_))),
    {
        let bs = block_size(size);
        if bs as u128 > usize::MAX as u128 {
            return Err(Error::TryFromIntError("block size exceeds the address range".to_owned()));
        }
        let staged: Vec<String> = Vec::new();
        assert(staged@.map_values(|s: String| s@) =~= block_ids(0));
        let u = BlockUpload { block_size: bs, staged, committed: false };
        assert(u@.staged =~= Seq::<Seq<char>>::empty());
        Ok(u)
    }

    /// The most bytes to read for the next block.
    pub fn block_size(&self) -> (r: u64)
        ensures
            r == self@.block_size,
    {
        self.block_size
    }

    /// Take the number of bytes that the last read brought: a non-empty read
    /// is staged as the next block, under the next id; an empty read ends
    /// the file, and the staged ids are committed in the order staged.
    pub fn on_read(&mut self, read: u64) -> (r: UploadStep)
        requires
            !old(self)@.committed,
        ensures
            final(self)@.block_size == old(self)@.block_size,
            old(self)@.staged == block_ids(old(self)@.staged.len()),
            read > 0 ==> {
                &&& r matches UploadStep::PutBlock(id)
                &&& id@ == hex32(old(self)@.staged.len() as u128)
                &&& final(self)@.staged == old(self)@.staged.push(id@)
                &&& final(self)@.staged == block_ids(old(self)@.staged.len() + 1)
                &&& !final(self)@.committed
            },
            read == 0 ==> {
                &&& r matches UploadStep::Commit(ids)
                &&& ids@.map_values(|s: String| s@) == old(self)@.staged
                &&& final(self)@.staged == old(self)@.staged
                &&& final(self)@.committed
            },
    {
        proof {
            use_type_invariant(&*self);
        }
        if read > 0 {
            let id = block_id(self.staged.len() as u64);
            let mut staged: Vec<String> = Vec::new();
            proof {
                assert(staged@.map_values(|s: String| s@) =~= block_ids(0));
            }
            std::mem::swap(&mut self.staged, &mut staged);
            staged.push(id.clone());
            proof {
                assert(staged@.map_values(|s: String| s@) =~= old(self)@.staged.push(id@));
                assert(staged@.map_values(|s: String| s@) =~= block_ids(
                    old(self)@.staged.len() + 1,
                ));
            }
            std::mem::swap(&mut self.staged, &mut staged);
            UploadStep::PutBlock(id)
        } else {
            self.committed = true;
            UploadStep::Commit(self.staged.clone())
        }
    }
}

/// A file cut into blocks as an upload reads it: each block the next
/// `block_size` bytes, the last one shorter where the size is not a multiple.
pub open spec fn cut(data: Seq<u8>, block_size: nat) -> Seq<Seq<u8>>
    decreases data.len(),
{
    if data.len() == 0 || block_size == 0 {
        Seq::empty()
    } else if data.len() <= block_size {
        seq![data]
    } else {
        seq![data.take(block_size as int)] + cut(data.skip(block_size as int), block_size)
    }
}

/// The blob that committing `blocks` in order makes: their bytes, joined.
pub open spec fn join(blocks: Seq<Seq<u8>>) -> Seq<u8>
    decreases blocks.len(),
{
    if blocks.len() == 0 {
        Seq::empty()
    } else {
        blocks[0] + join(blocks.drop_first())
    }
}

/// A file uploaded block by block and committed in staging order, then
/// downloaded back, is byte for byte the file: joining the blocks that the
/// upload cuts gives back its bytes. It takes as many blocks as
/// `blocks_needed` counts, none of them empty or over the block size.
pub proof fn lemma_upload_round_trip(data: Seq<u8>, block_size: nat)
    requires
        block_size > 0,
    ensures
        join(cut(data, block_size)) == data,
        cut(data, block_size).len() == blocks_needed(data.len(), block_size),
        forall|i: int|
            0 <= i < cut(data, block_size).len() ==> 0 < (#[trigger] cut(data, block_size)[i]).len()
                <= block_size,
    decreases data.len(),
{
    let blocks = cut(data, block_size);
    if data.len() == 0 {
        assert(blocks_needed(0, block_size) == 0) by (nonlinear_arith)
            requires
                block_size > 0,
        ;
    } else if data.len() <= block_size {
        assert(blocks.drop_first() =~= Seq::<Seq<u8>>::empty());
        assert(join(blocks.drop_first()) == Seq::<u8>::empty());
        assert(data + Seq::<u8>::empty() =~= data);
        assert(join(blocks) == blocks[0] + join(blocks.drop_first()));
        assert(blocks_needed(data.len(), block_size) == 1) by (nonlinear_arith)
            requires
                block_size > 0,
                0 < data.len() <= block_size,
        ;
    } else {
        let rest = data.skip(block_size as int);
        lemma_upload_round_trip(rest, block_size);
        assert(blocks.drop_first() =~= cut(rest, block_size));
        assert(data.take(block_size as int) + rest =~= data);
        assert(join(blocks) == blocks[0] + join(blocks.drop_first()));
        let n = data.len();
        assert(blocks_needed(n, block_size) == blocks_needed((n - block_size) as nat, block_size)
            + 1) by (nonlinear_arith)
            requires
                block_size > 0,
                n > block_size,
        ;
        assert forall|i: int|
            0 <= i < blocks.len() implies 0 < (#[trigger] blocks[i]).len() <= block_size by {
            if i > 0 {
                assert(blocks[i] == cut(rest, block_size)[i - 1]);
            }
        }
    }
}

/// Whatever the file size, the upload stays within the storage service's
/// block limit, and its blocks are at least the smallest block size.
pub proof fn lemma_block_count_within_limit(size: u64)
    ensures
        block_size_for(size) >= MIN_BLOCK_SIZE,
        blocks_needed(size as nat, block_size_for(size) as nat) <= MAX_BLOCKS,
{
    let bs = block_size_for(size) as int;
    let c = blocks_needed(size as nat, MAX_BLOCKS as nat) as int;
    let n = size as int;
    let m = MAX_BLOCKS as int;
    assert(c * m >= n) by (nonlinear_arith)
        requires
            c == (n + m - 1) / m,
            m > 0,
            n >= 0,
    ;
    assert(bs >= c);
    assert(bs * m >= n) by (nonlinear_arith)
        requires
            bs >= c,
            c * m >= n,
            m > 0,
    ;
    assert((n + bs - 1) / bs <= m) by (nonlinear_arith)
        requires
            bs * m >= n,
            bs > 0,
            n >= 0,
            m > 0,
    ;
}

} // verus!
