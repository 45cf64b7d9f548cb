use vstd::prelude::*;

verus! {

/// The three generations of the archive format.
#[derive(Debug, Clone, Copy, PartialEq, Eq, Structural)]
pub enum Format {
    /// RAR 1.4
    Rar14,
    /// RAR 1.5 to 4
    Rar15,
    /// RAR 5+
    Rar50,
}

impl Format {
    /// Number of bytes of the marker that opens an archive of this format.
    pub open spec fn spec_signature_size(&self) -> u64 {
        match self {
            Format::Rar14 => 4,
            Format::Rar15 => 7,
            Format::Rar50 => 8,
        }
    }

    /// Byte size of the marker that opens an archive of this format.
    pub fn signature_size(&self) -> (size: u64)
        ensures
            size == self.spec_signature_size(),
    {
        match self {
            Format::Rar14 => 4,
            Format::Rar15 => 7,
            Format::Rar50 => 8,
        }
    }
}

} // verus!
