//! The markers that open an archive, and the search for them.
use crate::error::RarResult;
use crate::read::Reader;
use vstd::prelude::*;

verus! {

/// File signatures or "magic numbers" of the RAR family of file formats.
#[derive(Debug, Clone, Copy, PartialEq, Eq, Structural)]
pub enum Signature {
    /// RAR archive compressed by RAR 1.4x
    Rar14,
    /// RAR archive compressed by RAR 1.5 to 4.x
    Rar15,
    /// RAR archive compressed by RAR 5+
    Rar50,
}

/// The maximum size of the SFX binary embedded before the archive signature, including
/// the signature size.
///
/// If the end of the signature exceeds this offset then this is not a valid RAR archive.
pub const MAX_SFX_SIZE: u64 = 0x200000;

/// The bytes `pattern` stand in `haystack` at offset `at`.
pub open spec fn occurs_at(haystack: Seq<u8>, pattern: Seq<u8>, at: int) -> bool {
    &&& 0 <= at
    &&& at + pattern.len() <= haystack.len()
    &&& haystack.subrange(at, at + pattern.len()) == pattern
}

/// Searches `haystack` for the given patterns through
/// `aho_corasick::AhoCorasick::new` and `AhoCorasick::find`. The automaton
/// is built with the default, standard match semantics, under which the
/// search reports a match as soon as it has seen one: the match returned is
/// an occurrence of one of the patterns, and no occurrence of any pattern
/// ends before it does. Where more than one occurrence ends there, nothing
/// is said of which is returned. Nothing is returned exactly when no
/// pattern occurs. The few, short patterns admitted cannot exhaust the
/// limits of the automaton, so building it does not fail.
#[verifier::external_body]
fn find_earliest(patterns: &Vec<Vec<u8>>, haystack: &[u8]) -> (res: Option<(usize, usize)>)
    requires
        0 < patterns.len() <= 8,
        forall|i: int| 0 <= i < patterns.len() ==> 0 < (#[trigger] patterns[i]).len() <= 16,
    ensures
        match res {
            Some((index, start)) => index < patterns.len() && occurs_at(
                haystack@,
                patterns[index as int]@,
                start as int,
            ) && forall|j: int, at: int|
                0 <= j < patterns.len() && #[trigger] occurs_at(haystack@, patterns[j]@, at)
                    ==> start + patterns[index as int].len() <= at + patterns[j].len(),
            None => forall|j: int, at: int|
                0 <= j < patterns.len() ==> !#[trigger] occurs_at(haystack@, patterns[j]@, at),
        },
{
    let searcher = aho_corasick::AhoCorasick::new(patterns).unwrap();
    match searcher.find(haystack) {
        Some(found) => Some((found.pattern().as_usize(), found.start())),
        None => None,
    }
}

impl Signature {
    /// The marker that opens an archive of this format.
    pub open spec fn marker(&self) -> Seq<u8> {
        match self {
            Signature::Rar14 => seq![0x52u8, 0x45, 0x7e, 0x5e],
            Signature::Rar15 => seq![0x52u8, 0x61, 0x72, 0x21, 0x1a, 0x07, 0x00],
            Signature::Rar50 => seq![0x52u8, 0x61, 0x72, 0x21, 0x1a, 0x07, 0x01, 0x00],
        }
    }

    /// Byte size of the signature.
    pub fn size(&self) -> (size: u64)
        ensures
            size == self.marker().len(),
    {
        match self {
            Signature::Rar14 => 4,
            Signature::Rar15 => 7,
            Signature::Rar50 => 8,
        }
    }

    /// The byte signature corresponding to the format.
    pub fn signature(&self) -> (bytes: Vec<u8>)
        ensures
            bytes@ == self.marker(),
    {
        let bytes = match self {
            Signature::Rar14 => vec![0x52u8, 0x45, 0x7e, 0x5e],
            Signature::Rar15 => vec![0x52u8, 0x61, 0x72, 0x21, 0x1a, 0x07, 0x00],
            Signature::Rar50 => vec![0x52u8, 0x61, 0x72, 0x21, 0x1a, 0x07, 0x01, 0x00],
        };
        assert(bytes@ =~= self.marker());
        bytes
    }

    /// Whether `bytes` start with the marker of this format.
    fn opens(&self, bytes: &[u8]) -> (found: bool)
        ensures
            found == occurs_at(bytes@, self.marker(), 0),
    {
        let marker = self.signature();
        if bytes.len() < marker.len() {
            return false;
        }
        let mut i: usize = 0;
        while i < marker.len()
            invariant
                i <= marker.len() <= bytes.len(),
                marker@ == self.marker(),
                forall|j: int| 0 <= j < i ==> bytes@[j] == marker@[j],
            decreases marker.len() - i,
        {
            if bytes[i] != marker[i] {
                assert(bytes@.subrange(0, marker.len() as int)[i as int] != marker@[i as int]);
                return false;
            }
            i = i + 1;
        }
        assert(bytes@.subrange(0, marker.len() as int) =~= marker@);
        true
    }

    /// The format whose marker stands at the start of `bytes`, if one does.
    pub open spec fn at_start(bytes: Seq<u8>) -> Option<Signature> {
        if occurs_at(bytes, Signature::Rar14.marker(), 0) {
            Some(Signature::Rar14)
        } else if occurs_at(bytes, Signature::Rar15.marker(), 0) {
            Some(Signature::Rar15)
        } else if occurs_at(bytes, Signature::Rar50.marker(), 0) {
            Some(Signature::Rar50)
        } else {
            None
        }
    }

    /// Parse the RAR signature from the start of a byte slice.
    pub fn from_bytes(bytes: &[u8]) -> (found: Option<Self>)
        ensures
            found == Self::at_start(bytes@),
    {
        if Signature::Rar14.opens(bytes) {
            Some(Signature::Rar14)
        } else if Signature::Rar15.opens(bytes) {
            Some(Signature::Rar15)
        } else if Signature::Rar50.opens(bytes) {
            Some(Signature::Rar50)
        } else {
            None
        }
    }

    /// `found` is the first marker in `window`: the marker of a format at an
    /// offset such that no marker of any format stands before that offset,
    /// and no other stands at it; or nothing where `window` holds no marker.
    pub open spec fn is_first_marker(window: Seq<u8>, found: Option<(Signature, u64)>) -> bool {
        match found {
            Some((format, offset)) => {
                &&& occurs_at(window, format.marker(), offset as int)
                &&& forall|other: Signature, at: int| #[trigger]
                    occurs_at(window, other.marker(), at) ==> offset <= at && (at == offset
                        ==> other == format)
            },
            None => forall|other: Signature, at: int|
                !#[trigger] occurs_at(window, other.marker(), at),
        }
    }

    /// A match for one of the three markers, by its number in the list of
    /// patterns, turned into the format and the offset that it stands for.
    pub fn from_match(found: Option<(usize, usize)>) -> (res: Option<(Signature, u64)>)
        requires
            found matches Some((index, _)) ==> index < 3,
        ensures
            res == match found {
                Some((index, start)) => Some(
                    (
                        if index == 0 {
                            Signature::Rar14
                        } else if index == 1 {
                            Signature::Rar15
                        } else {
                            Signature::Rar50
                        },
                        start as u64,
                    ),
                ),
                None => None,
            },
    {
        match found {
            Some((index, start)) => {
                let format = if index == 0 {
                    Signature::Rar14
                } else if index == 1 {
                    Signature::Rar15
                } else {
                    Signature::Rar50
                };
                Some((format, start as u64))
            },
            None => None,
        }
    }

    /// Search for a RAR signature in the stream up to [`MAX_SFX_SIZE`] and return the
    /// format version and the offset of the signature, counted from the cursor.
    ///
    /// The first block of the archive starts at `offset + format.size()`.
    ///
    /// The RAR signature generally starts at offset 0 in a normal .rar archive, but RAR files
    /// can also be constructed as a [*SFX*](https://en.wikipedia.org/wiki/Self-extracting_archive)
    /// (self-extracting archive) which embed the binary needed to extract the archive before the
    /// archive itself. This binary may have a size up to [`MAX_SFX_SIZE`] minus the
    /// size of the signature.
    ///
    /// The cursor is not moved.
    pub fn search_stream(reader: &mut Reader) -> (res: RarResult<Option<(Self, u64)>>)
        ensures
            *final(reader) == *old(reader),
            res matches Ok(found) && Self::is_first_marker(old(reader).ahead(MAX_SFX_SIZE), found),
    {
        let window = reader.peek(MAX_SFX_SIZE);
        let patterns = vec![
            Signature::Rar14.signature(),
            Signature::Rar15.signature(),
            Signature::Rar50.signature(),
        ];
        let found = find_earliest(&patterns, window);
        proof {
            let w = window@;
            assert forall|format: Signature| true implies #[trigger] format.marker() == patterns[(
            if format == Signature::Rar14 {
                0int
            } else if format == Signature::Rar15 {
                1int
            } else {
                2int
            })]@ by {}
            match found {
                Some((index, start)) => {
                    let format = if index == 0 {
                        Signature::Rar14
                    } else if index == 1 {
                        Signature::Rar15
                    } else {
                        Signature::Rar50
                    };
                    assert(patterns[index as int]@ == format.marker());
                    assert forall|other: Signature, at: int| #[trigger]
                        occurs_at(w, other.marker(), at) implies start <= at && (at == start
                        ==> other == format) by {
                        let j = if other == Signature::Rar14 {
                            0int
                        } else if other == Signature::Rar15 {
                            1int
                        } else {
                            2int
                        };
                        assert(occurs_at(w, patterns[j]@, at));
                        Self::lemma_no_marker_within(w, format, start as int, other, at);
                    }
                },
                None => {
                    assert forall|other: Signature, at: int| !#[trigger] occurs_at(
                        w,
                        other.marker(),
                        at,
                    ) by {
                        let j = if other == Signature::Rar14 {
                            0int
                        } else if other == Signature::Rar15 {
                            1int
                        } else {
                            2int
                        };
                        assert(!occurs_at(w, patterns[j]@, at));
                    }
                },
            }
        }
        Ok(Self::from_match(found))
    }

    /// Every marker starts with the byte `R`, and no marker holds that byte
    /// anywhere else: so no marker starts within another, and of two
    /// markers the one that ends first also starts first. Two markers that
    /// start at the same offset are the same.
    pub proof fn lemma_no_marker_within(
        window: Seq<u8>,
        first: Signature,
        start: int,
        other: Signature,
        at: int,
    )
        requires
            occurs_at(window, first.marker(), start),
            occurs_at(window, other.marker(), at),
            start + first.marker().len() <= at + other.marker().len(),
        ensures
            start <= at,
            at == start ==> other == first,
    {
        let a = first.marker();
        let b = other.marker();
        let seen_a = window.subrange(start, start + a.len());
        let seen_b = window.subrange(at, at + b.len());
        assert(a[0] == 0x52 && b[0] == 0x52);
        assert(forall|k: int| 1 <= k < b.len() ==> #[trigger] b[k] != 0x52);
        if at < start {
            let d = start - at;
            assert(seen_a[0] == window[start]);
            assert(seen_b[d] == window[at + d]);
            assert(b[d] != 0x52);
        }
        if at == start {
            assert(seen_a[1] == window[start + 1] && seen_b[1] == window[at + 1]);
            if a.len() >= 7 && b.len() >= 7 {
                assert(seen_a[6] == window[start + 6] && seen_b[6] == window[at + 6]);
            }
        }
    }
}

} // verus!
