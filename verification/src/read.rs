//! The byte source that every decoder reads from, and the primitive readers.
//!
//! All integers are little-endian. A read that runs past the end of the data
//! fails with [`Error::UnexpectedEof`] and leaves the cursor at the end.
use crate::error::Error;
use crate::text::is_decoded;
use crate::text::string_from_utf8;
use vstd::prelude::*;
use vstd::slice::slice_subrange;
use vstd::slice::slice_to_vec;

verus! {

/// A seekable, readable byte source held in memory.
///
/// The cursor may be moved anywhere, also past the end of the data; reading
/// there fails.
#[derive(Debug)]
pub struct Reader {
    data: Vec<u8>,
    position: u64,
}

impl Reader {
    /// The bytes of the source. They never change.
    pub closed spec fn bytes(&self) -> Seq<u8> {
        self.data@
    }

    /// The offset of the cursor from the start of the source.
    pub closed spec fn pos(&self) -> int {
        self.position as int
    }

    /// The source was left untouched and the cursor moved from `pre` by `n` bytes.
    pub open spec fn advanced(&self, pre: &Reader, n: int) -> bool {
        &&& self.bytes() == pre.bytes()
        &&& self.pos() == pre.pos() + n
    }

    /// The source was left untouched and the cursor stands at offset `end`.
    pub open spec fn stands_at(&self, pre: &Reader, end: int) -> bool {
        &&& self.bytes() == pre.bytes()
        &&& self.pos() == end
    }

    /// The state after a read from `pre` ran past the end of the data.
    pub open spec fn exhausted(&self, pre: &Reader) -> bool {
        &&& self.bytes() == pre.bytes()
        &&& self.pos() == pre.bytes().len()
    }

    /// The cursor is a 64-bit offset.
    pub proof fn lemma_pos_range(&self)
        ensures
            0 <= self.pos() <= u64::MAX,
    {
    }

    /// Wrap `data` with the cursor at offset 0.
    pub fn new(data: Vec<u8>) -> (reader: Reader)
        ensures
            reader.bytes() == data@,
            reader.pos() == 0,
    {
        Reader { data, position: 0 }
    }

    /// Offset of the cursor from the start of the source.
    pub fn stream_position(&self) -> (position: u64)
        ensures
            position == self.pos(),
    {
        self.position
    }

    /// Move the cursor to the absolute offset `position`.
    pub fn seek(&mut self, position: u64)
        ensures
            final(self).stands_at(old(self), position as int),
    {
        self.position = position;
    }

    /// Total number of bytes in the source.
    pub fn len(&self) -> (len: u64)
        ensures
            len == self.bytes().len(),
            self.bytes().len() <= usize::MAX,
    {
        self.data.len() as u64
    }

    /// Number of bytes between the cursor and the end of the source.
    pub fn remaining(&self) -> (left: u64)
        ensures
            left == if self.pos() <= self.bytes().len() {
                self.bytes().len() - self.pos()
            } else {
                0
            },
    {
        let len = self.data.len() as u64;
        if self.position <= len {
            len - self.position
        } else {
            0
        }
    }

    /// The bytes from the cursor on, at most `limit` of them; none where the
    /// cursor stands past the end.
    pub open spec fn ahead(&self, limit: u64) -> Seq<u8> {
        if self.pos() >= self.bytes().len() {
            Seq::empty()
        } else if self.pos() + limit >= self.bytes().len() {
            self.bytes().subrange(self.pos(), self.bytes().len() as int)
        } else {
            self.bytes().subrange(self.pos(), self.pos() + limit)
        }
    }

    /// Look at the bytes from the cursor on, at most `limit` of them,
    /// without moving the cursor.
    pub fn peek(&self, limit: u64) -> (window: &[u8])
        ensures
            window@ == self.ahead(limit),
    {
        let len = self.data.len();
        if self.position >= len as u64 {
            return slice_subrange(self.data.as_slice(), 0, 0);
        }
        let start = self.position as usize;
        let end = if limit >= (len - start) as u64 {
            len
        } else {
            start + limit as usize
        };
        slice_subrange(self.data.as_slice(), start, end)
    }

    /// Move the cursor to the end of the data, as a failed read does.
    fn exhaust(&mut self)
        ensures
            final(self).exhausted(old(self)),
    {
        self.position = self.data.len() as u64;
    }
}

/// Whether `size` bytes can be read at offset `p` of a source holding `s`.
/// Reading nothing succeeds wherever the cursor stands.
pub open spec fn in_bounds(s: Seq<u8>, p: int, size: int) -> bool {
    size <= 0 || p + size <= s.len()
}

/// The `size` bytes at offset `p` of `s`.
pub open spec fn window(s: Seq<u8>, p: int, size: int) -> Seq<u8> {
    Seq::new(size as nat, |i: int| s[p + i])
}

/// Reserve the next `size` bytes: on success the cursor has moved past them
/// and the offset where they start, as an index into the data, is returned.
fn take(r: &mut Reader, size: usize) -> (res: Result<usize, Error>)
    ensures
        match res {
            Ok(start) => in_bounds(old(r).bytes(), old(r).pos(), size as int) && start + size
                <= old(r).bytes().len() && start + size <= usize::MAX && (size > 0 ==> start
                == old(r).pos()) && final(r).advanced(old(r), size as int),
            Err(e) => e == Error::UnexpectedEof && !in_bounds(
                old(r).bytes(),
                old(r).pos(),
                size as int,
            ) && final(r).exhausted(old(r)),
        },
{
    if size == 0 {
        return Ok(0);
    }
    let len = r.data.len();
    if r.position > len as u64 || len - (r.position as usize) < size {
        r.exhaust();
        return Err(Error::UnexpectedEof);
    }
    let start = r.position as usize;
    r.position = r.position + size as u64;
    Ok(start)
}

/// The little-endian 16-bit integer stored at offset `p` of `s`.
pub open spec fn le_u16(s: Seq<u8>, p: int) -> u16 {
    (s[p] as int + 0x100 * (s[p + 1] as int)) as u16
}

/// The little-endian 32-bit integer stored at offset `p` of `s`.
pub open spec fn le_u32(s: Seq<u8>, p: int) -> u32 {
    (le_u16(s, p) as int + 0x1_0000 * (le_u16(s, p + 2) as int)) as u32
}

/// The little-endian 64-bit integer stored at offset `p` of `s`.
pub open spec fn le_u64(s: Seq<u8>, p: int) -> u64 {
    (le_u32(s, p) as int + 0x1_0000_0000 * (le_u32(s, p + 4) as int)) as u64
}

/// What a decoder whose encoding occupies `size` bytes leaves behind: on
/// success the bytes were there and the cursor has moved past them; it fails
/// only for want of bytes, with the cursor left at the end.
pub open spec fn read_outcome<T>(pre: Reader, post: Reader, res: Result<T, Error>, size: int) -> bool {
    match res {
        Ok(_) => in_bounds(pre.bytes(), pre.pos(), size) && post.advanced(&pre, size),
        Err(e) => e == Error::UnexpectedEof && !in_bounds(pre.bytes(), pre.pos(), size)
            && post.exhausted(&pre),
    }
}

/// What a decoder leaves behind that needs `size` bytes and then may find
/// them `malformed`: it fails for want of bytes with the cursor left at the
/// end; else it fails on malformed bytes with the cursor past them, with
/// [`Error::CorruptHeader`]; else it succeeds with the cursor past them.
pub open spec fn read_checked<T>(
    pre: Reader,
    post: Reader,
    res: Result<T, Error>,
    size: int,
    malformed: bool,
) -> bool {
    if !in_bounds(pre.bytes(), pre.pos(), size) {
        res == Err::<T, Error>(Error::UnexpectedEof) && post.exhausted(&pre)
    } else if malformed {
        res == Err::<T, Error>(Error::CorruptHeader) && post.advanced(&pre, size)
    } else {
        res is Ok && post.advanced(&pre, size)
    }
}

/// Read one byte.
pub fn read_u8(r: &mut Reader) -> (res: Result<u8, Error>)
    ensures
        match res {
            Ok(v) => in_bounds(old(r).bytes(), old(r).pos(), 1) && v == old(r).bytes()[old(r).pos()]
                && final(r).advanced(old(r), 1),
            Err(e) => e == Error::UnexpectedEof && !in_bounds(old(r).bytes(), old(r).pos(), 1)
                && final(r).exhausted(old(r)),
        },
{
    let start = take(r, 1)?;
    Ok(r.data[start])
}

/// Read a little-endian 16-bit integer.
pub fn read_u16(r: &mut Reader) -> (res: Result<u16, Error>)
    ensures
        match res {
            Ok(v) => in_bounds(old(r).bytes(), old(r).pos(), 2) && v == le_u16(
                old(r).bytes(),
                old(r).pos(),
            ) && final(r).advanced(old(r), 2),
            Err(e) => e == Error::UnexpectedEof && !in_bounds(old(r).bytes(), old(r).pos(), 2)
                && final(r).exhausted(old(r)),
        },
{
    let start = take(r, 2)?;
    let b0 = r.data[start];
    let b1 = r.data[start + 1];
    assert((b0 as u16) | ((b1 as u16) << 8) == b0 as u16 + 0x100 * (b1 as u16)) by (bit_vector);
    Ok((b0 as u16) | ((b1 as u16) << 8))
}

/// Read a little-endian 32-bit integer.
pub fn read_u32(r: &mut Reader) -> (res: Result<u32, Error>)
    ensures
        match res {
            Ok(v) => in_bounds(old(r).bytes(), old(r).pos(), 4) && v == le_u32(
                old(r).bytes(),
                old(r).pos(),
            ) && final(r).advanced(old(r), 4),
            Err(e) => e == Error::UnexpectedEof && !in_bounds(old(r).bytes(), old(r).pos(), 4)
                && final(r).exhausted(old(r)),
        },
{
    let start = take(r, 4)?;
    let b0 = r.data[start];
    let b1 = r.data[start + 1];
    let b2 = r.data[start + 2];
    let b3 = r.data[start + 3];
    assert((b0 as u32) | ((b1 as u32) << 8) | ((b2 as u32) << 16) | ((b3 as u32) << 24) == (b0 as u32
        + 0x100 * (b1 as u32)) + 0x1_0000 * (b2 as u32 + 0x100 * (b3 as u32))) by (bit_vector);
    Ok((b0 as u32) | ((b1 as u32) << 8) | ((b2 as u32) << 16) | ((b3 as u32) << 24))
}

/// Read a little-endian 64-bit integer.
pub fn read_u64(r: &mut Reader) -> (res: Result<u64, Error>)
    ensures
        match res {
            Ok(v) => in_bounds(old(r).bytes(), old(r).pos(), 8) && v == le_u64(
                old(r).bytes(),
                old(r).pos(),
            ) && final(r).advanced(old(r), 8),
            Err(e) => e == Error::UnexpectedEof && !in_bounds(old(r).bytes(), old(r).pos(), 8)
                && final(r).exhausted(old(r)),
        },
{
    if r.remaining() < 8 {
        r.exhaust();
        return Err(Error::UnexpectedEof);
    }
    let low = read_u32(r)?;
    let high = read_u32(r)?;
    Ok(join_u32(low, high))
}

/// The 64-bit integer whose lower half is `low` and whose upper half is `high`.
pub fn join_u32(low: u32, high: u32) -> (joined: u64)
    ensures
        joined == low + 0x1_0000_0000 * high,
{
    assert((low as u64) | ((high as u64) << 32) == low as u64 + 0x1_0000_0000 * (high as u64))
        by (bit_vector);
    (low as u64) | ((high as u64) << 32)
}

/// Read `N` bytes into an array.
pub fn read_const_bytes<const N: usize>(r: &mut Reader) -> (res: Result<[u8; N], Error>)
    ensures
        match res {
            Ok(v) => in_bounds(old(r).bytes(), old(r).pos(), N as int) && v@ == window(
                old(r).bytes(),
                old(r).pos(),
                N as int,
            ) && final(r).advanced(old(r), N as int),
            Err(e) => e == Error::UnexpectedEof && !in_bounds(
                old(r).bytes(),
                old(r).pos(),
                N as int,
            ) && final(r).exhausted(old(r)),
        },
{
    let start = take(r, N)?;
    let mut buf = [0u8;N];
    let mut i: usize = 0;
    while i < N
        invariant
            i <= N,
            start + N <= r.data@.len(),
            start + N <= usize::MAX,
            N > 0 ==> start == old(r).pos(),
            r.data@ == old(r).bytes(),
            forall|j: int| 0 <= j < i ==> buf@[j] == r.data@[start + j],
        decreases N - i,
    {
        buf[i] = r.data[start + i];
        i = i + 1;
    }
    assert(buf@ =~= window(old(r).bytes(), old(r).pos(), N as int));
    Ok(buf)
}

/// Read `size` bytes into a vector of their own.
pub fn read_vec(r: &mut Reader, size: usize) -> (res: Result<Vec<u8>, Error>)
    ensures
        match res {
            Ok(v) => in_bounds(old(r).bytes(), old(r).pos(), size as int) && v@ == window(
                old(r).bytes(),
                old(r).pos(),
                size as int,
            ) && final(r).advanced(old(r), size as int),
            Err(e) => e == Error::UnexpectedEof && !in_bounds(
                old(r).bytes(),
                old(r).pos(),
                size as int,
            ) && final(r).exhausted(old(r)),
        },
{
    let start = take(r, size)?;
    let v = slice_to_vec(slice_subrange(r.data.as_slice(), start, start + size));
    assert(v@ =~= window(old(r).bytes(), old(r).pos(), size as int));
    Ok(v)
}

/// Read `size` bytes and decode them as UTF-8; bytes that are not well-formed
/// UTF-8 are returned as they are.
pub fn read_string(r: &mut Reader, size: usize) -> (res: Result<Result<String, Vec<u8>>, Error>)
    ensures
        match res {
            Ok(decoded) => in_bounds(old(r).bytes(), old(r).pos(), size as int) && is_decoded(
                window(old(r).bytes(), old(r).pos(), size as int),
                decoded,
            ) && final(r).advanced(old(r), size as int),
            Err(e) => e == Error::UnexpectedEof && !in_bounds(
                old(r).bytes(),
                old(r).pos(),
                size as int,
            ) && final(r).exhausted(old(r)),
        },
{
    let raw = read_vec(r, size)?;
    Ok(string_from_utf8(raw))
}

/// Read `size` bytes into a vector of their own, for a size that was itself
/// read from the source and may exceed what memory can hold.
pub fn read_vec_u64(r: &mut Reader, size: u64) -> (res: Result<Vec<u8>, Error>)
    ensures
        match res {
            Ok(v) => in_bounds(old(r).bytes(), old(r).pos(), size as int) && v@ == window(
                old(r).bytes(),
                old(r).pos(),
                size as int,
            ) && final(r).advanced(old(r), size as int),
            Err(e) => e == Error::UnexpectedEof && !in_bounds(
                old(r).bytes(),
                old(r).pos(),
                size as int,
            ) && final(r).exhausted(old(r)),
        },
{
    if size > r.data.len() as u64 {
        r.exhaust();
        return Err(Error::UnexpectedEof);
    }
    read_vec(r, size as usize)
}

/// How a decoder ends that may fail in more than one way: complete, with
/// the cursor at offset `end`, or failed with an error and the cursor
/// wherever it stopped.
pub ghost enum Outcome {
    Complete { end: int },
    Failed { error: Error, cursor: int },
}

impl Outcome {
    /// The outcome of a decoder that needs `size` bytes at offset `p` of `s`
    /// and fails only for want of them.
    pub open spec fn of_size(s: Seq<u8>, p: int, size: int) -> Outcome {
        if in_bounds(s, p, size) {
            Outcome::Complete { end: p + size }
        } else {
            Outcome::Failed { error: Error::UnexpectedEof, cursor: s.len() as int }
        }
    }

    /// The result `res` and the state `post` of the source are those of a
    /// decoder that started in state `pre` and ended in this way.
    pub open spec fn describes<T>(self, pre: Reader, post: Reader, res: Result<T, Error>) -> bool {
        match self {
            Outcome::Complete { end } => res is Ok && post.stands_at(&pre, end),
            Outcome::Failed { error, cursor } => res == Err::<T, Error>(error) && post.stands_at(
                &pre,
                cursor,
            ),
        }
    }
}

/// Largest number of bytes that a variable-length integer occupies.
pub const MAX_VINT_SIZE: usize = 10;

/// The value of the `i`-th 7-bit group of a variable-length integer: 128 to the power `i`.
pub open spec fn vint_weight(i: int) -> int {
    if i <= 0 {
        1
    } else if i == 1 {
        0x80
    } else if i == 2 {
        0x4000
    } else if i == 3 {
        0x20_0000
    } else if i == 4 {
        0x1000_0000
    } else if i == 5 {
        0x8_0000_0000
    } else if i == 6 {
        0x400_0000_0000
    } else if i == 7 {
        0x2_0000_0000_0000
    } else if i == 8 {
        0x100_0000_0000_0000
    } else {
        0x8000_0000_0000_0000
    }
}

/// Number of bytes, counted from the `i`-th, that the variable-length integer
/// at offset `p` of `s` occupies: it ends with the first byte whose high bit
/// is clear, and after ten bytes at the latest.
pub open spec fn vint_len_from(s: Seq<u8>, p: int, i: nat) -> nat
    decreases 10 - i,
{
    if i >= 10 {
        10
    } else if s[p + i] < 0x80 {
        i + 1
    } else {
        vint_len_from(s, p, i + 1)
    }
}

/// Number of bytes that the variable-length integer at offset `p` of `s` occupies.
pub open spec fn vint_len(s: Seq<u8>, p: int) -> nat {
    vint_len_from(s, p, 0)
}

/// Sum of the first `n` 7-bit groups of the integer at offset `p` of `s`,
/// least significant group first.
pub open spec fn vint_sum(s: Seq<u8>, p: int, n: int) -> int
    decreases n,
{
    if n <= 0 {
        0
    } else {
        vint_sum(s, p, n - 1) + (s[p + n - 1] % 0x80) * vint_weight(n - 1)
    }
}

/// The variable-length integer at offset `p` of `s`: the sum of its groups,
/// cut to 64 bits where a tenth byte carries more than its lowest bit.
pub open spec fn vint_value(s: Seq<u8>, p: int) -> u64 {
    (vint_sum(s, p, vint_len(s, p) as int) % 0x1_0000_0000_0000_0000) as u64
}

/// A variable-length integer occupies between one and ten bytes.
pub proof fn lemma_vint_len_bounds(s: Seq<u8>, p: int, i: nat)
    requires
        i <= 10,
    ensures
        i < vint_len_from(s, p, i) <= 10 || (i == 10 && vint_len_from(s, p, i) == 10),
    decreases 10 - i,
{
    if i < 10 && s[p + i] >= 0x80 {
        lemma_vint_len_bounds(s, p, i + 1);
    }
}

proof fn lemma_vint_accumulate(acc: u64, x: u8, i: u8)
    by (bit_vector)
    requires
        i < 10,
        i == 0 ==> acc == 0,
        i == 1 ==> acc < 0x80,
        i == 2 ==> acc < 0x4000,
        i == 3 ==> acc < 0x20_0000,
        i == 4 ==> acc < 0x1000_0000,
        i == 5 ==> acc < 0x8_0000_0000,
        i == 6 ==> acc < 0x400_0000_0000,
        i == 7 ==> acc < 0x2_0000_0000_0000,
        i == 8 ==> acc < 0x100_0000_0000_0000,
        i == 9 ==> acc < 0x8000_0000_0000_0000,
    ensures
        i == 0 ==> acc | (((x & 0x7f) as u64) << ((i * 7) as u64)) == (x % 0x80) as u64,
        i == 1 ==> acc | (((x & 0x7f) as u64) << ((i * 7) as u64)) == acc + (x % 0x80) as u64 * 0x80,
        i == 2 ==> acc | (((x & 0x7f) as u64) << ((i * 7) as u64)) == acc + (x % 0x80) as u64
            * 0x4000,
        i == 3 ==> acc | (((x & 0x7f) as u64) << ((i * 7) as u64)) == acc + (x % 0x80) as u64
            * 0x20_0000,
        i == 4 ==> acc | (((x & 0x7f) as u64) << ((i * 7) as u64)) == acc + (x % 0x80) as u64
            * 0x1000_0000,
        i == 5 ==> acc | (((x & 0x7f) as u64) << ((i * 7) as u64)) == acc + (x % 0x80) as u64
            * 0x8_0000_0000,
        i == 6 ==> acc | (((x & 0x7f) as u64) << ((i * 7) as u64)) == acc + (x % 0x80) as u64
            * 0x400_0000_0000,
        i == 7 ==> acc | (((x & 0x7f) as u64) << ((i * 7) as u64)) == acc + (x % 0x80) as u64
            * 0x2_0000_0000_0000,
        i == 8 ==> acc | (((x & 0x7f) as u64) << ((i * 7) as u64)) == acc + (x % 0x80) as u64
            * 0x100_0000_0000_0000,
        i == 9 ==> acc | (((x & 0x7f) as u64) << ((i * 7) as u64)) == acc + (x % 2) as u64
            * 0x8000_0000_0000_0000,
        (x & 0x80 == 0) == (x < 0x80),
{
}

/// The shortest encoding of `value` as a variable-length integer: its 7-bit
/// groups from the lowest up, each but the last with the high bit set.
pub open spec fn vint_encoding(value: nat) -> Seq<u8>
    decreases value,
{
    if value < 0x80 {
        seq![value as u8]
    } else {
        seq![(0x80 + value % 0x80) as u8] + vint_encoding(value / 0x80)
    }
}

/// Where the encoding of `value` stands in `s` from the `i`-th byte of the
/// integer at offset `p` on, and `value` at that place still fits in 64
/// bits, the integer ends with the encoding and its groups from the `i`-th
/// on sum up to `value` at that place.
proof fn lemma_vint_groups(s: Seq<u8>, p: int, i: int, value: nat)
    requires
        0 <= i <= 9,
        value * vint_weight(i) < 0x1_0000_0000_0000_0000,
        forall|k: int|
            0 <= k < vint_encoding(value).len() ==> s[p + i + k] == #[trigger] vint_encoding(
                value,
            )[k],
    ensures
        vint_len_from(s, p, i as nat) == i + vint_encoding(value).len(),
        vint_sum(s, p, i + vint_encoding(value).len() as int) == vint_sum(s, p, i) + value
            * vint_weight(i),
    decreases value,
{
    let code = vint_encoding(value);
    let weight = vint_weight(i);
    assert(s[p + i + 0] == code[0]);
    assert(vint_sum(s, p, i + 1) == vint_sum(s, p, i) + (s[p + i] % 0x80) * weight);
    if value >= 0x80 {
        let rest = value / 0x80;
        assert(weight >= 1);
        if i == 9 {
            assert(value * weight >= 0x80 * 0x8000_0000_0000_0000) by (nonlinear_arith)
                requires
                    value >= 0x80,
                    weight == 0x8000_0000_0000_0000,
            ;
        }
        assert(vint_weight(i + 1) == 0x80 * weight);
        assert(rest * (0x80 * weight) <= value * weight) by (nonlinear_arith)
            requires
                rest * 0x80 <= value,
                weight >= 1,
        ;
        assert forall|k: int| 0 <= k < vint_encoding(rest).len() implies s[p + (i + 1) + k]
            == #[trigger] vint_encoding(rest)[k] by {
            assert(code[k + 1] == vint_encoding(rest)[k]);
            assert(s[p + i + (k + 1)] == code[k + 1]);
        }
        lemma_vint_groups(s, p, i + 1, rest);
        assert(code.len() == 1 + vint_encoding(rest).len());
        assert(s[p + i] % 0x80 == value % 0x80);
        assert((value % 0x80) * weight + rest * (0x80 * weight) == value * weight)
            by (nonlinear_arith)
            requires
                value == 0x80 * rest + value % 0x80,
        ;
    }
}

/// Decoding undoes encoding: where the shortest encoding of a 64-bit
/// `value` stands at offset `p` of `s`, the variable-length integer at that
/// offset is `value`, and it occupies as many bytes as the encoding has.
pub proof fn lemma_vint_round_trip(s: Seq<u8>, p: int, value: u64)
    requires
        window(s, p, vint_encoding(value as nat).len() as int) == vint_encoding(value as nat),
    ensures
        vint_len(s, p) == vint_encoding(value as nat).len(),
        vint_value(s, p) == value,
        1 <= vint_encoding(value as nat).len() <= 10,
{
    let code = vint_encoding(value as nat);
    assert forall|k: int| 0 <= k < code.len() implies s[p + 0 + k] == #[trigger] code[k] by {
        assert(window(s, p, code.len() as int)[k] == s[p + k]);
    }
    lemma_vint_groups(s, p, 0, value as nat);
    lemma_vint_len_bounds(s, p, 0);
    assert(vint_sum(s, p, 0) == 0);
}

/// Read a variable-size integer and return the integer and its size in bytes.
///
/// The lower 7 bits of every byte contain integer data, least significant
/// group first, and the highest bit acts as a continuation flag. At most ten
/// bytes are read; where all ten carry the flag the value gathered so far is
/// returned with a size of ten.
pub fn read_vint(r: &mut Reader) -> (res: Result<(u64, u8), Error>)
    ensures
        match res {
            Ok((value, size)) => in_bounds(
                old(r).bytes(),
                old(r).pos(),
                vint_len(old(r).bytes(), old(r).pos()) as int,
            ) && value == vint_value(old(r).bytes(), old(r).pos()) && size == vint_len(
                old(r).bytes(),
                old(r).pos(),
            ) && final(r).advanced(old(r), size as int),
            Err(e) => e == Error::UnexpectedEof && !in_bounds(
                old(r).bytes(),
                old(r).pos(),
                vint_len(old(r).bytes(), old(r).pos()) as int,
            ) && final(r).exhausted(old(r)),
        },
{
    let ghost s = r.bytes();
    let ghost p = r.pos();
    let mut vint: u64 = 0;
    let mut i: u8 = 0;
    while i < 10
        invariant
            i <= 10,
            r.advanced(old(r), i as int),
            s == old(r).bytes(),
            p == old(r).pos(),
            i > 0 ==> in_bounds(s, p, i as int),
            vint_len(s, p) == vint_len_from(s, p, i as nat),
            i < 10 ==> vint == vint_sum(s, p, i as int) && vint < vint_weight(i as int),
            i == 10 ==> vint == vint_sum(s, p, 10) % 0x1_0000_0000_0000_0000,
        decreases 10 - i,
    {
        proof {
            lemma_vint_len_bounds(s, p, i as nat);
        }
        let byte = read_u8(r)?;
        proof {
            lemma_vint_accumulate(vint, byte, i);
            assert(byte == s[p + i]);
            assert(vint_sum(s, p, i + 1) == vint_sum(s, p, i as int) + (s[p + i] % 0x80)
                * vint_weight(i as int));
            if i == 9 {
                lemma_vint_truncate(vint_sum(s, p, 9), (byte % 0x80) as int);
            }
        }
        vint = vint | (((byte & 0x7f) as u64) << ((i * 7) as u64));
        if (byte & 0x80) == 0 {
            return Ok((vint, i + 1));
        }
        i = i + 1;
    }
    Ok((vint, 10))
}

/// Adding a tenth group keeps, within 64 bits, only the lowest bit of that group.
proof fn lemma_vint_truncate(low: int, group: int)
    requires
        0 <= low < 0x8000_0000_0000_0000,
        0 <= group < 0x80,
    ensures
        (low + group * 0x8000_0000_0000_0000) % 0x1_0000_0000_0000_0000 == low + (group % 2)
            * 0x8000_0000_0000_0000,
{
    let half = group / 2;
    assert(group == 2 * half + group % 2);
    assert(low + group * 0x8000_0000_0000_0000 == half * 0x1_0000_0000_0000_0000 + (low + (group
        % 2) * 0x8000_0000_0000_0000)) by (nonlinear_arith)
        requires
            group == 2 * half + group % 2,
    ;
    vstd::arithmetic::div_mod::lemma_fundamental_div_mod_converse(
        low + group * 0x8000_0000_0000_0000,
        0x1_0000_0000_0000_0000,
        half,
        low + (group % 2) * 0x8000_0000_0000_0000,
    );
}

/// Offset of the first byte after the variable-length integer at offset `p`.
pub open spec fn vint_end(s: Seq<u8>, p: int) -> int {
    p + vint_len(s, p)
}

/// The lowest 8 bits of `x`.
pub open spec fn low_byte(x: u64) -> u8 {
    (x % 0x100) as u8
}

/// The lowest 16 bits of `x`.
pub open spec fn low_word(x: u64) -> u16 {
    (x % 0x1_0000) as u16
}

/// Cut `x` to its lowest 8 bits.
pub fn truncate_u8(x: u64) -> (low: u8)
    ensures
        low == low_byte(x),
{
    assert(x & 0xff == x % 0x100) by (bit_vector);
    (x & 0xff) as u8
}

/// Cut `x` to its lowest 16 bits.
pub fn truncate_u16(x: u64) -> (low: u16)
    ensures
        low == low_word(x),
{
    assert(x & 0xffff == x % 0x1_0000) by (bit_vector);
    (x & 0xffff) as u16
}

/// Number of bytes of a variable-length integer that is stored at offset
/// `p` only where it is `present`.
pub open spec fn optional_vint_len(s: Seq<u8>, p: int, present: bool) -> nat {
    if present {
        vint_len(s, p)
    } else {
        0
    }
}

/// The variable-length integer stored at offset `p`, where it is `present`.
pub open spec fn optional_vint(s: Seq<u8>, p: int, present: bool) -> Option<u64> {
    if present {
        Some(vint_value(s, p))
    } else {
        None
    }
}

/// Read a variable-length integer where it is `present`.
pub fn read_optional_vint(r: &mut Reader, present: bool) -> (res: Result<Option<u64>, Error>)
    ensures
        read_outcome(
            *old(r),
            *final(r),
            res,
            optional_vint_len(old(r).bytes(), old(r).pos(), present) as int,
        ),
        res matches Ok(v) ==> v == optional_vint(old(r).bytes(), old(r).pos(), present),
{
    proof {
        lemma_vint_len_bounds(r.bytes(), r.pos(), 0);
    }
    if present {
        let (value, _) = read_vint(r)?;
        Ok(Some(value))
    } else {
        Ok(None)
    }
}

/// Read a variable-length integer and drop its size.
pub fn read_vint_value(r: &mut Reader) -> (res: Result<u64, Error>)
    ensures
        read_outcome(*old(r), *final(r), res, vint_len(old(r).bytes(), old(r).pos()) as int),
        res matches Ok(v) ==> v == vint_value(old(r).bytes(), old(r).pos()),
        0 < vint_len(old(r).bytes(), old(r).pos()) <= 10,
{
    proof {
        lemma_vint_len_bounds(r.bytes(), r.pos(), 0);
    }
    let (value, _) = read_vint(r)?;
    Ok(value)
}

/// Read all the bytes that are left, from the cursor to the end.
pub fn read_to_end(r: &mut Reader) -> (rest: Vec<u8>)
    ensures
        final(r).bytes() == old(r).bytes(),
        old(r).pos() <= old(r).bytes().len() ==> rest@ == window(
            old(r).bytes(),
            old(r).pos(),
            old(r).bytes().len() - old(r).pos(),
        ) && final(r).pos() == old(r).bytes().len(),
        old(r).pos() > old(r).bytes().len() ==> rest@.len() == 0 && final(r).pos() == old(r).pos(),
{
    let left = r.remaining();
    match read_vec_u64(r, left) {
        Ok(rest) => rest,
        Err(_) => Vec::new(),
    }
}

/// The little-endian integer made of the `n` bytes at offset `p` of `s`.
pub open spec fn le_uint(s: Seq<u8>, p: int, n: int) -> int
    decreases n,
{
    if n <= 0 {
        0
    } else {
        s[p] as int + 0x100 * le_uint(s, p + 1, n - 1)
    }
}

/// A little-endian integer of `n` bytes is below 256 to the power `n`.
pub proof fn lemma_le_uint_bound(s: Seq<u8>, p: int, n: int)
    requires
        0 <= n <= 8,
    ensures
        0 <= le_uint(s, p, n),
        n == 0 ==> le_uint(s, p, n) == 0,
        n == 1 ==> le_uint(s, p, n) < 0x100,
        n == 2 ==> le_uint(s, p, n) < 0x1_0000,
        n == 3 ==> le_uint(s, p, n) < 0x100_0000,
        n == 4 ==> le_uint(s, p, n) < 0x1_0000_0000,
        n == 5 ==> le_uint(s, p, n) < 0x100_0000_0000,
        n == 6 ==> le_uint(s, p, n) < 0x1_0000_0000_0000,
        n == 7 ==> le_uint(s, p, n) < 0x100_0000_0000_0000,
        n == 8 ==> le_uint(s, p, n) < 0x1_0000_0000_0000_0000,
    decreases n,
{
    if n > 0 {
        lemma_le_uint_bound(s, p + 1, n - 1);
    }
}

/// Read a little-endian integer of `size` bytes, at most eight.
pub fn read_vint_sized(r: &mut Reader, size: u8) -> (res: Result<u64, Error>)
    requires
        size <= 8,
    ensures
        match res {
            Ok(v) => in_bounds(old(r).bytes(), old(r).pos(), size as int) && v == le_uint(
                old(r).bytes(),
                old(r).pos(),
                size as int,
            ) && final(r).advanced(old(r), size as int),
            Err(e) => e == Error::UnexpectedEof && !in_bounds(
                old(r).bytes(),
                old(r).pos(),
                size as int,
            ) && final(r).exhausted(old(r)),
        },
{
    let start = take(r, size as usize)?;
    let ghost s = r.bytes();
    let mut num: u64 = 0;
    let mut i: u8 = size;
    while i > 0
        invariant
            i <= size <= 8,
            s == r.data@,
            start + size <= s.len(),
            start + size <= usize::MAX,
            num == le_uint(s, start + i, size - i),
        decreases i,
    {
        i = i - 1;
        let byte = r.data[start + i as usize];
        proof {
            lemma_le_uint_bound(s, start + i + 1, size - i - 1);
            lemma_shift_in_byte(num, byte);
        }
        num = (num << 8) | (byte as u64);
    }
    Ok(num)
}

proof fn lemma_shift_in_byte(high: u64, byte: u8)
    by (bit_vector)
    requires
        high < 0x100_0000_0000_0000,
    ensures
        (high << 8) | (byte as u64) == byte as u64 + 0x100 * high,
{
}

} // verus!
