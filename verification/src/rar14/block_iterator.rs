//! The lazy sequence of the blocks of a RAR14 archive.
use crate::error::Error;
use crate::error::RarResult;
use crate::rar14::blocks::Block;
use crate::read::Reader;
use crate::size::full_size;
use crate::size::within;
use crate::size::BlockSize;
use vstd::prelude::*;

verus! {

/// Iterator over the blocks of a RAR14 file.
///
/// Holds a [`Reader`] and yields blocks until the end of the file is
/// reached. An error ends the iteration: once a size is wrong, nothing that
/// follows can be located.
#[derive(Debug)]
pub struct BlockIterator {
    reader: Reader,
    file_size: u64,
    next_offset: u64,
    has_read_main_block: bool,
    finished: bool,
}

impl BlockIterator {
    /// The bytes of the file.
    pub closed spec fn bytes(&self) -> Seq<u8> {
        self.reader.bytes()
    }

    /// Size of the file.
    pub closed spec fn file_size(&self) -> u64 {
        self.file_size
    }

    /// Offset of the block that is read next.
    pub closed spec fn next_offset(&self) -> u64 {
        self.next_offset
    }

    /// No block will be yielded any more.
    pub closed spec fn finished(&self) -> bool {
        self.finished
    }

    /// The main block, which is the first block of the archive, was read.
    pub closed spec fn main_read(&self) -> bool {
        self.has_read_main_block
    }

    /// An upper bound on the number of items that are still to come.
    pub open spec fn budget(&self) -> int {
        if self.finished() {
            0
        } else if self.next_offset() < self.file_size() {
            self.file_size() - self.next_offset() + 1
        } else {
            1
        }
    }

    /// One step of the iteration, from the state `pre` to the state `post`
    /// with `item` yielded.
    ///
    /// Nothing is yielded, and nothing changes, once the iteration has
    /// finished or the next block would start at the end of the file. Else
    /// the block at the next offset is decoded. A block that cannot be
    /// decoded, that declares no header, or whose header and data do not lie
    /// within the file, is yielded as an error and finishes the iteration.
    /// Any other block is yielded, and the next block starts where its data
    /// ends.
    ///
    /// The definition is opaque: reveal it to reason about a step.
    #[verifier::opaque]
    pub open spec fn step(pre: Self, post: Self, item: Option<RarResult<Block>>) -> bool {
        let s = pre.bytes();
        let p = pre.next_offset() as int;
        &&& post.bytes() == s
        &&& post.file_size() == pre.file_size()
        &&& if pre.finished() || pre.next_offset() == pre.file_size() {
            item is None && post == pre
        } else {
            match Block::failure_at(s, p, pre.file_size(), !pre.main_read()) {
                Some(error) => item == Some(Err::<Block, Error>(error)) && post.finished(),
                None => item matches Some(Ok(block)) && block.decodes(s, p, !pre.main_read()) && within(
                    &block,
                    pre.file_size(),
                ) && post.next_offset() == p + full_size(&block) && post.finished()
                    == false && post.main_read(),
            }
        }
    }

    /// Create a [`BlockIterator`] starting at `offset`.
    ///
    /// `offset` must be the offset in the file right after the RAR14 signature.
    pub fn new(reader: Reader, offset: u64) -> (res: RarResult<Self>)
        ensures
            res matches Ok(iter) && iter.bytes() == reader.bytes() && iter.file_size()
                == reader.bytes().len() && iter.next_offset() == offset && !iter.finished() && !iter.main_read(),
    {
        let file_size = reader.len();
        Ok(Self { reader, file_size, next_offset: offset, has_read_main_block: false, finished: false })
    }

    /// Read the block at the next offset and check that it lies within the file.
    fn read_block(&mut self) -> (res: RarResult<Block>)
        requires
            !old(self).finished(),
            old(self).next_offset() != old(self).file_size(),
        ensures
            Self::step(*old(self), *final(self), Some(res)),
    {
        reveal(BlockIterator::step);
        let ghost s = self.reader.bytes();
        let ghost p = self.next_offset as int;
        self.reader.seek(self.next_offset);
        let block = match Block::read(&mut self.reader, !self.has_read_main_block) {
            Ok(block) => block,
            Err(e) => {
                self.finished = true;
                return Err(e);
            },
        };
        proof {
            block.lemma_sizes(s, p, !self.has_read_main_block);
        }
        if !block.is_within(self.file_size) {
            self.finished = true;
            return Err(Error::CorruptHeader);
        }
        self.next_offset = block.offset() + block.size();
        self.has_read_main_block = true;
        Ok(block)
    }

    /// The next block, or nothing when the iteration is over.
    pub fn next(&mut self) -> (item: Option<RarResult<Block>>)
        ensures
            Self::step(*old(self), *final(self), item),
            item is None ==> *final(self) == *old(self),
    {
        reveal(BlockIterator::step);
        if self.finished {
            return None;
        }
        if self.next_offset == self.file_size {
            return None;
        }
        Some(self.read_block())
    }

    /// The iteration passes through `states` and yields `items`: each item
    /// is what the step from one state to the next yields.
    pub open spec fn yields(states: Seq<Self>, items: Seq<RarResult<Block>>) -> bool {
        &&& states.len() == items.len() + 1
        &&& forall|i: int|
            0 <= i < items.len() ==> Self::step(#[trigger] states[i], states[i + 1], Some(items[i]))
    }

    /// All the items that are still to come, in order: the iteration is run
    /// to its end, which it reaches after no more steps than its budget.
    pub fn collect(&mut self) -> (items: Vec<RarResult<Block>>)
        ensures
            exists|states: Seq<Self>| #[trigger]
                Self::yields(states, items@) && states[0] == *old(self) && states.last()
                    == *final(self),
            Self::step(*final(self), *final(self), None),
            items.len() <= old(self).budget(),
    {
        let mut items: Vec<RarResult<Block>> = Vec::new();
        let ghost mut states: Seq<Self> = seq![*self];
        loop
            invariant
                Self::yields(states, items@),
                states[0] == *old(self),
                states.last() == *self,
                items.len() + self.budget() <= old(self).budget(),
            ensures
                Self::yields(states, items@),
                states[0] == *old(self),
                states.last() == *self,
                Self::step(*self, *self, None),
                items.len() <= old(self).budget(),
            decreases self.budget(),
        {
            let ghost before = *self;
            match self.next() {
                None => {
                    break ;
                },
                Some(item) => {
                    proof {
                        Self::lemma_progress(before, *self, Some(item));
                        Self::lemma_yields_more(states, items@, *self, item);
                        states = states.push(*self);
                    }
                    items.push(item);
                },
            }
        }
        items
    }

    /// An iteration that yields items goes on by one more step.
    proof fn lemma_yields_more(
        states: Seq<Self>,
        items: Seq<RarResult<Block>>,
        next: Self,
        item: RarResult<Block>,
    )
        requires
            Self::yields(states, items),
            Self::step(states.last(), next, Some(item)),
        ensures
            Self::yields(states.push(next), items.push(item)),
    {
        let longer = states.push(next);
        let more = items.push(item);
        assert forall|i: int| 0 <= i < more.len() implies Self::step(
            #[trigger] longer[i],
            longer[i + 1],
            Some(more[i]),
        ) by {
            if i < items.len() {
                assert(Self::step(states[i], states[i + 1], Some(items[i])));
            }
        }
    }

    /// Every step that yields an item brings the iteration closer to its
    /// end: the sequence of blocks is finite.
    pub proof fn lemma_progress(pre: Self, post: Self, item: Option<RarResult<Block>>)
        requires
            Self::step(pre, post, item),
        ensures
            item is Some ==> post.budget() < pre.budget(),
            item is None ==> post.budget() == pre.budget(),
            item matches Some(Err(_)) ==> post.finished(),
    {
        reveal(BlockIterator::step);
    }

    /// Consecutive blocks are contiguous: where two steps in a row yield a
    /// block each, the second block starts where the data of the first ends.
    pub proof fn lemma_contiguous(
        start: Self,
        middle: Self,
        end: Self,
        first: Block,
        second: Block,
    )
        requires
            Self::step(start, middle, Some(Ok(first))),
            Self::step(middle, end, Some(Ok(second))),
        ensures
            first.spec_offset() + full_size(&first) == second.spec_offset(),
            first.spec_offset() == start.next_offset(),
    {
        reveal(BlockIterator::step);
        first.lemma_sizes(start.bytes(), start.next_offset() as int, !start.main_read());
        second.lemma_sizes(middle.bytes(), middle.next_offset() as int, !middle.main_read());
    }

    /// An error is the last item: after a step that yields one, every
    /// further step yields nothing.
    pub proof fn lemma_error_is_final(
        pre: Self,
        failed: Self,
        post: Self,
        error: Error,
        item: Option<RarResult<Block>>,
    )
        requires
            Self::step(pre, failed, Some(Err(error))),
            Self::step(failed, post, item),
        ensures
            item is None,
            post.finished(),
    {
        reveal(BlockIterator::step);
    }
}

} // verus!
