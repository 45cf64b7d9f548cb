//! Decoder for the file names of RAR15 archives that carry Unicode.
//!
//! Such a name holds two sections separated by the first 0 byte. The first
//! is the name in its original narrow encoding. The second is a program for
//! a small decoding machine that turns the narrow name into Unicode without
//! conversion tables:
//!
//! - one "high byte", used to widen narrow characters;
//! - then, repeated to the end of the field, one byte that packs four 2-bit
//!   instructions, highest bits first, followed by the operands of those
//!   instructions.
//!
//! Each instruction emits characters:
//!
//! | Code | Operands | Emits |
//! | ---- | -------- | ----- |
//! | 0 | one byte | the byte |
//! | 1 | one byte | the byte, with the high byte above it |
//! | 2 | two bytes | the 16-bit code point they form, low byte first |
//! | 3 | a length `L`, without its top bit | `L + 2` bytes of the narrow name, at the position of the output |
//! | 3 | a length `L` with its top bit set, and a correction | `(L & 0x7f) + 2` bytes of the narrow name, each with the correction added and the high byte above it |
//!
//! A name that cannot be decoded is handed back as the bytes it came in.
use crate::text::char_from_u32;
use crate::text::is_decoded;
use crate::text::string_from_chars;
use crate::text::string_from_utf8;
use crate::text::widen;
use vstd::prelude::*;
use vstd::slice::slice_subrange;
use vstd::slice::slice_to_vec;
use vstd::utf8::is_scalar;

verus! {

/// The instruction in the given slot, 0 to 3, of an instruction byte: the
/// slots are two bits wide and the first one holds the highest bits.
pub open spec fn instruction_at(packed: u8, slot: int) -> int {
    if slot == 0 {
        packed as int / 64
    } else if slot == 1 {
        (packed as int / 16) % 4
    } else if slot == 2 {
        (packed as int / 4) % 4
    } else {
        packed as int % 4
    }
}

/// The 16-bit code point with the given low and high bytes.
pub open spec fn code_point(low: u8, high: u8) -> u32 {
    (low as int + 0x100 * (high as int)) as u32
}

/// The code point of a narrow character after correction: the correction is
/// added within 8 bits and the high byte is put above the sum.
pub open spec fn corrected(narrow: u8, correction: u8, high: u8) -> u32 {
    (((narrow as int + correction as int) % 0x100) + 0x100 * (high as int)) as u32
}

/// The output after `count` bytes of the narrow name, from the position of
/// the output on, were appended as they are; nothing where the name is too
/// short for that.
pub open spec fn copy_plain(name: Seq<u8>, out: Seq<char>, count: int) -> Option<Seq<char>> {
    if out.len() + count <= name.len() {
        Some(out + widen(name.subrange(out.len() as int, out.len() + count)))
    } else {
        None
    }
}

/// The output after `count` bytes of the narrow name, from the position of
/// the output on, were appended with the correction applied; nothing where
/// the name is too short or a corrected value is no character.
pub open spec fn copy_corrected(
    name: Seq<u8>,
    out: Seq<char>,
    count: int,
    correction: u8,
    high: u8,
) -> Option<Seq<char>> {
    if out.len() + count <= name.len() && (forall|k: int|
        0 <= k < count ==> is_scalar(#[trigger] corrected(name[out.len() + k], correction, high))) {
        Some(
            out + Seq::new(
                count as nat,
                |k: int| corrected(name[out.len() + k], correction, high) as char,
            ),
        )
    } else {
        None
    }
}

/// Effect of one instruction whose first operand is at `pc`, which lies
/// within the program: the number of further operand bytes that it consumed,
/// and the output after it; nothing where the instruction fails.
pub open spec fn execute(
    name: Seq<u8>,
    program: Seq<u8>,
    instruction: int,
    pc: int,
    out: Seq<char>,
) -> Option<(nat, Seq<char>)> {
    let high = program[0];
    let operand = program[pc];
    if instruction == 0 {
        Some((0nat, out.push(operand as char)))
    } else if instruction == 1 {
        if is_scalar(code_point(operand, high)) {
            Some((0nat, out.push(code_point(operand, high) as char)))
        } else {
            None
        }
    } else if instruction == 2 {
        if pc + 1 < program.len() && is_scalar(code_point(operand, program[pc + 1])) {
            Some((1nat, out.push(code_point(operand, program[pc + 1]) as char)))
        } else {
            None
        }
    } else if operand >= 0x80 {
        if pc + 1 < program.len() {
            match copy_corrected(name, out, operand - 0x80 + 2, program[pc + 1], high) {
                Some(copied) => Some((1nat, copied)),
                None => None,
            }
        } else {
            None
        }
    } else {
        match copy_plain(name, out, operand + 2) {
            Some(copied) => Some((0nat, copied)),
            None => None,
        }
    }
}

/// The output of the machine when it goes on from the state given: `pc` is
/// the next byte of the program, `packed` the current instruction byte and
/// `slot` the next slot in it, 4 when a new instruction byte is due. The
/// machine stops when the program has no byte left.
pub open spec fn run(
    name: Seq<u8>,
    program: Seq<u8>,
    pc: int,
    slot: int,
    packed: u8,
    out: Seq<char>,
) -> Option<Seq<char>>
    decreases program.len() - pc,
{
    if pc >= program.len() {
        Some(out)
    } else if slot >= 4 {
        run(name, program, pc + 1, 0, program[pc], out)
    } else {
        match execute(name, program, instruction_at(packed, slot), pc, out) {
            Some((more, next)) => run(name, program, pc + 1 + more, slot + 1, packed, next),
            None => None,
        }
    }
}

/// The characters that the program decodes the narrow name to; nothing
/// where the program fails. The program starts with its high byte, so an
/// empty program fails.
pub open spec fn decode_program(name: Seq<u8>, program: Seq<u8>) -> Option<Seq<char>> {
    if program.len() == 0 {
        None
    } else {
        run(name, program, 1, 4, 0, Seq::empty())
    }
}

/// The first 0 byte of `raw` is at index `at`.
pub open spec fn first_zero_at(raw: Seq<u8>, at: int) -> bool {
    &&& 0 <= at < raw.len()
    &&& raw[at] == 0
    &&& forall|j: int| 0 <= j < at ==> raw[j] != 0
}

/// `decoded` is what the name field `raw` decodes to.
///
/// Without a 0 byte the field is plain text. With nothing after the 0 byte
/// it is plain text before that byte. Else the bytes after the first 0 byte
/// are a program that decodes the bytes before it; where the program fails
/// the field is handed back unchanged.
pub open spec fn is_decoded_name(raw: Seq<u8>, decoded: Result<String, Vec<u8>>) -> bool {
    &&& (forall|j: int| 0 <= j < raw.len() ==> raw[j] != 0) ==> is_decoded(raw, decoded)
    &&& forall|at: int| #[trigger]
        first_zero_at(raw, at) ==> if at + 1 == raw.len() {
            is_decoded(raw.subrange(0, at), decoded)
        } else {
            match decode_program(raw.subrange(0, at), raw.subrange(at + 1, raw.len() as int)) {
                Some(chars) => decoded matches Ok(text) && text@ == chars,
                None => decoded matches Err(kept) && kept@ == raw,
            }
        }
}

proof fn lemma_instruction_at(packed: u8)
    by (bit_vector)
    ensures
        (packed >> 6) & 0x3 == packed / 64,
        (packed >> 4) & 0x3 == (packed / 16) % 4,
        (packed >> 2) & 0x3 == (packed / 4) % 4,
        packed & 0x3 == packed % 4,
{
}

proof fn lemma_code_point(low: u8, high: u8, sum: u32)
    ensures
        (low as u32) | ((high as u32) << 8) == low as u32 + 0x100 * (high as u32),
        (sum & 0xff) | ((high as u32) << 8) == (sum % 0x100) + 0x100 * (high as u32),
        (low & 0x80 != 0) == (low >= 0x80),
        low & 0x7f == low % 0x80,
{
    let wide_low = low as u32;
    let wide_high = high as u32;
    assert(wide_low | (wide_high << 8) == wide_low + 0x100 * wide_high) by (bit_vector)
        requires
            wide_low < 0x100,
            wide_high < 0x100,
    ;
    assert((sum & 0xff) | (wide_high << 8) == (sum % 0x100) + 0x100 * wide_high) by (bit_vector)
        requires
            wide_high < 0x100,
    ;
    assert((low & 0x80 != 0) == (low >= 0x80) && low & 0x7f == low % 0x80) by (bit_vector);
}

/// Decode the file name that the given field holds, narrow name and
/// decoding program together: see the module documentation.
pub fn decode_file_name(file_name: Vec<u8>) -> (res: Result<String, Vec<u8>>)
    ensures
        is_decoded_name(file_name@, res),
{
    let mut at: usize = 0;
    while at < file_name.len() && file_name[at] != 0
        invariant
            at <= file_name.len(),
            forall|j: int| 0 <= j < at ==> file_name@[j] != 0,
        decreases file_name.len() - at,
    {
        at = at + 1;
    }
    if at == file_name.len() {
        // No 0 byte: the name is plain text.
        return string_from_utf8(file_name);
    }
    assert(first_zero_at(file_name@, at as int));
    assert(forall|other: int| first_zero_at(file_name@, other) ==> other == at);
    if file_name.len() == at + 1 {
        // Nothing after the 0 byte.
        let plain = slice_to_vec(slice_subrange(file_name.as_slice(), 0, at));
        return string_from_utf8(plain);
    }
    match decode_rar_encoded_string(&file_name, at) {
        Some(text) => Ok(text),
        None => Err(file_name),
    }
}

/// Append `count` bytes of the narrow name, which is `file_name` up to
/// `split_off_index`, from the position of the output on. Tells whether the
/// name was long enough; else the output is worthless.
#[verifier::loop_isolation(false)]
fn copy_name_chunk(
    file_name: &Vec<u8>,
    split_off_index: usize,
    out_name: &mut Vec<char>,
    count: u8,
) -> (copied: bool)
    requires
        split_off_index < file_name.len(),
    ensures
        match copy_plain(
            file_name@.subrange(0, split_off_index as int),
            old(out_name)@,
            count as int,
        ) {
            Some(chars) => copied && final(out_name)@ == chars,
            None => !copied,
        },
{
    let ghost name = file_name@.subrange(0, split_off_index as int);
    let ghost before = out_name@;
    let mut done: u8 = 0;
    while done < count
        invariant
            done <= count,
            split_off_index < file_name.len(),
            name == file_name@.subrange(0, split_off_index as int),
            done > 0 ==> before.len() + done <= name.len(),
            out_name@ == before + Seq::new(done as nat, |k: int| name[before.len() + k] as char),
        decreases count - done,
    {
        let position = out_name.len();
        if position >= split_off_index {
            return false;
        }
        let narrow = file_name[position];
        out_name.push(narrow as char);
        assert(out_name@ =~= before + Seq::new(
            (done + 1) as nat,
            |k: int| name[before.len() + k] as char,
        ));
        done = done + 1;
    }
    if count == 0 {
        // Nothing to copy: the name is long enough where the output fits in it.
        assert(out_name@ =~= before);
        if out_name.len() <= split_off_index {
            assert(before + widen(name.subrange(before.len() as int, before.len() as int))
                =~= before);
            return true;
        }
        return false;
    }
    assert(Seq::new(count as nat, |k: int| name[before.len() + k] as char) =~= widen(
        name.subrange(before.len() as int, before.len() + count),
    ));
    true
}

/// Append `count` bytes of the narrow name, which is `file_name` up to
/// `split_off_index`, from the position of the output on, each with the
/// correction added and the high byte put above it. Tells whether the name
/// was long enough and every value a character; else the output is worthless.
#[verifier::loop_isolation(false)]
fn copy_corrected_chunk(
    file_name: &Vec<u8>,
    split_off_index: usize,
    out_name: &mut Vec<char>,
    count: u8,
    correction: u8,
    high_byte: u8,
) -> (copied: bool)
    requires
        split_off_index < file_name.len(),
    ensures
        match copy_corrected(
            file_name@.subrange(0, split_off_index as int),
            old(out_name)@,
            count as int,
            correction,
            high_byte,
        ) {
            Some(chars) => copied && final(out_name)@ == chars,
            None => !copied,
        },
{
    let ghost name = file_name@.subrange(0, split_off_index as int);
    let ghost before = out_name@;
    let mut done: u8 = 0;
    while done < count
        invariant
            done <= count,
            split_off_index < file_name.len(),
            name == file_name@.subrange(0, split_off_index as int),
            done > 0 ==> before.len() + done <= name.len(),
            forall|k: int|
                0 <= k < done ==> is_scalar(
                    #[trigger] corrected(name[before.len() + k], correction, high_byte),
                ),
            out_name@ == before + Seq::new(
                done as nat,
                |k: int| corrected(name[before.len() + k], correction, high_byte) as char,
            ),
        decreases count - done,
    {
        let position = out_name.len();
        if position >= split_off_index {
            return false;
        }
        let narrow = file_name[position];
        assert(narrow == name[before.len() + done]);
        let sum = narrow as u32 + correction as u32;
        proof {
            lemma_code_point(0, high_byte, sum);
        }
        let value = (sum & 0xff) | ((high_byte as u32) << 8);
        assert(value == corrected(name[before.len() + done], correction, high_byte));
        match char_from_u32(value) {
            Some(c) => {
                proof {
                    vstd::utf8::char_u32_cast(c, value);
                }
                out_name.push(c)
            },
            None => {
                return false;
            },
        }
        assert(out_name@ =~= before + Seq::new(
            (done + 1) as nat,
            |k: int| corrected(name[before.len() + k], correction, high_byte) as char,
        ));
        done = done + 1;
    }
    if count == 0 {
        assert(out_name@ =~= before);
        return out_name.len() <= split_off_index;
    }
    true
}

/// Execute one instruction of the program that follows the 0 byte at
/// `split_off_index`; its first operand is the byte `pc` of the program. On
/// success the output has grown and the number of further operand bytes that
/// the instruction consumed is returned.
fn execute_instruction(
    file_name: &Vec<u8>,
    split_off_index: usize,
    instruction: u8,
    pc: usize,
    out_name: &mut Vec<char>,
) -> (res: Option<usize>)
    requires
        split_off_index + 1 < file_name.len(),
        1 <= pc < file_name.len() - split_off_index - 1,
        instruction < 4,
    ensures
        match execute(
            file_name@.subrange(0, split_off_index as int),
            file_name@.subrange(split_off_index + 1, file_name.len() as int),
            instruction as int,
            pc as int,
            old(out_name)@,
        ) {
            Some((more, next)) => res == Some(more as usize) && final(out_name)@ == next,
            None => res is None,
        },
{
    let ghost program = file_name@.subrange(split_off_index + 1, file_name.len() as int);
    let base = split_off_index + 1;
    let length = file_name.len() - base;
    let high_byte = file_name[base];
    let operand = file_name[base + pc];
    assert(high_byte == program[0]);
    assert(operand == program[pc as int]);
    proof {
        lemma_code_point(operand, high_byte, 0);
    }
    if instruction == 0 {
        out_name.push(operand as char);
        Some(0)
    } else if instruction == 1 {
        let value = (operand as u32) | ((high_byte as u32) << 8);
        match char_from_u32(value) {
            Some(c) => {
                proof {
                    vstd::utf8::char_u32_cast(c, value);
                }
                out_name.push(c);
                Some(0)
            },
            None => None,
        }
    } else if instruction == 2 {
        if pc + 1 >= length {
            return None;
        }
        let second = file_name[base + pc + 1];
        assert(second == program[pc + 1]);
        proof {
            lemma_code_point(operand, second, 0);
        }
        let value = (operand as u32) | ((second as u32) << 8);
        match char_from_u32(value) {
            Some(c) => {
                proof {
                    vstd::utf8::char_u32_cast(c, value);
                }
                out_name.push(c);
                Some(1)
            },
            None => None,
        }
    } else if operand & 0x80 != 0 {
        if pc + 1 >= length {
            return None;
        }
        let correction = file_name[base + pc + 1];
        assert(correction == program[pc + 1]);
        let count = (operand & 0x7f) + 2;
        if copy_corrected_chunk(
            file_name,
            split_off_index,
            out_name,
            count,
            correction,
            high_byte,
        ) {
            Some(1)
        } else {
            None
        }
    } else {
        if copy_name_chunk(file_name, split_off_index, out_name, operand + 2) {
            Some(0)
        } else {
            None
        }
    }
}

/// Run the decoding program that follows the 0 byte at `split_off_index`
/// on the narrow name that precedes it.
pub fn decode_rar_encoded_string(file_name: &Vec<u8>, split_off_index: usize) -> (res: Option<
    String,
>)
    requires
        split_off_index < file_name.len(),
    ensures
        match decode_program(
            file_name@.subrange(0, split_off_index as int),
            file_name@.subrange(split_off_index + 1, file_name.len() as int),
        ) {
            Some(chars) => res matches Some(text) && text@ == chars,
            None => res is None,
        },
{
    let ghost name = file_name@.subrange(0, split_off_index as int);
    let ghost program = file_name@.subrange(split_off_index + 1, file_name.len() as int);
    let base = split_off_index + 1;
    let length = file_name.len() - base;
    if length == 0 {
        return None;
    }
    let mut out_name: Vec<char> = Vec::new();
    let mut pc: usize = 1;
    let mut slot: u8 = 4;
    let mut packed: u8 = 0;
    while pc < length
        invariant
            1 <= pc <= length,
            slot <= 4,
            split_off_index + 1 < file_name.len(),
            base == split_off_index + 1,
            base + length == file_name.len(),
            name == file_name@.subrange(0, split_off_index as int),
            program == file_name@.subrange(split_off_index + 1, file_name.len() as int),
            decode_program(name, program) == run(
                name,
                program,
                pc as int,
                slot as int,
                packed,
                out_name@,
            ),
        decreases length - pc,
    {
        if slot >= 4 {
            packed = file_name[base + pc];
            assert(packed == program[pc as int]);
            pc = pc + 1;
            slot = 0;
        } else {
            proof {
                lemma_instruction_at(packed);
            }
            let instruction = if slot == 0 {
                (packed >> 6) & 0x3
            } else if slot == 1 {
                (packed >> 4) & 0x3
            } else if slot == 2 {
                (packed >> 2) & 0x3
            } else {
                packed & 0x3
            };
            assert(instruction == instruction_at(packed, slot as int));
            match execute_instruction(file_name, split_off_index, instruction, pc, &mut out_name) {
                Some(more) => {
                    pc = pc + 1 + more;
                },
                None => {
                    return None;
                },
            }
            slot = slot + 1;
        }
    }
    Some(string_from_chars(out_name))
}

} // verus!
