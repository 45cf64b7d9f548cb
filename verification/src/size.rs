use vstd::prelude::*;

verus! {

/// Full size of a block: header and data together.
pub open spec fn full_size<B: BlockSize>(block: &B) -> int {
    block.spec_header_size() + block.spec_data_size()
}

/// The block has a header, and header and data lie within a file of
/// `file_size` bytes.
pub open spec fn within<B: BlockSize>(block: &B, file_size: u64) -> bool {
    &&& block.spec_header_size() > 0
    &&& block.spec_offset() + full_size(block) <= file_size
}

/// Offset and size of a block in the file.
pub trait BlockSize: Sized {
    /// Offset of the block from the start of the file.
    spec fn spec_offset(&self) -> u64;

    /// Size of the block's header.
    spec fn spec_header_size(&self) -> u64;

    /// Size of the data that follows the header.
    spec fn spec_data_size(&self) -> u64;

    /// Offset of the block from the start of the file.
    fn offset(&self) -> (offset: u64)
        ensures
            offset == self.spec_offset(),
    ;

    /// Size of the block's header from [`Self::offset`].
    fn header_size(&self) -> (size: u64)
        ensures
            size == self.spec_header_size(),
    ;

    /// Size of the data contained within the block from [`Self::offset`] + [`Self::header_size`].
    fn data_size(&self) -> (size: u64)
        ensures
            size == self.spec_data_size(),
    ;

    /// Full size of the block from [`Self::offset`].
    fn size(&self) -> (size: u64)
        requires
            self.spec_header_size() + self.spec_data_size() <= u64::MAX,
        ensures
            size == self.spec_header_size() + self.spec_data_size(),
    {
        self.header_size() + self.data_size()
    }

    /// Whether the block has a header and lies within a file of `file_size` bytes.
    fn is_within(&self, file_size: u64) -> (fits: bool)
        ensures
            fits == (self.spec_header_size() > 0 && self.spec_offset() + self.spec_header_size()
                + self.spec_data_size() <= file_size),
    {
        let offset = self.offset();
        let header_size = self.header_size();
        let data_size = self.data_size();
        header_size > 0 && offset <= file_size && header_size <= file_size - offset && data_size
            <= file_size - offset - header_size
    }
}

} // verus!
