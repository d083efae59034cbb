//! The memory bus: one flat image of bytes, read little-endian at an offset
//! from an instruction pointer and written at absolute addresses.
//!
//! The bus knows nothing of instructions. Every access names the bytes it
//! touches; an access that would leave the image is excluded by the
//! precondition of the accessor, so no accessor ever wraps or clamps.

use vstd::prelude::*;

verus! {

/// The two's-complement reading of a byte.
pub open spec fn signed8(b: u8) -> int {
    if b < 0x80 {
        b as int
    } else {
        b - 0x100
    }
}

/// The two's-complement reading of a 32-bit word.
pub open spec fn signed32(v: u32) -> int {
    if v < 0x8000_0000 {
        v as int
    } else {
        v - 0x1_0000_0000
    }
}

/// The word that four bytes stand for when the least significant comes first.
pub open spec fn le_u32(b0: u8, b1: u8, b2: u8, b3: u8) -> int {
    b0 + b1 * 0x100 + b2 * 0x1_0000 + b3 * 0x100_0000
}

/// Byte `i` of a word, counted from the least significant one.
pub open spec fn le_byte(v: u32, i: int) -> u8 {
    if i == 0 {
        (v % 0x100) as u8
    } else if i == 1 {
        ((v / 0x100) % 0x100) as u8
    } else if i == 2 {
        ((v / 0x1_0000) % 0x100) as u8
    } else {
        ((v / 0x100_0000) % 0x100) as u8
    }
}

/// Whether the `width` bytes that start at `addr` all lie inside `mem`.
pub open spec fn in_image(mem: Seq<u8>, addr: int, width: int) -> bool {
    0 <= addr && addr + width <= mem.len()
}

/// The byte of `mem` at `addr`.
pub open spec fn read_u8(mem: Seq<u8>, addr: int) -> u8 {
    mem[addr]
}

/// The byte of `mem` at `addr`, read as a signed number.
pub open spec fn read_i8(mem: Seq<u8>, addr: int) -> i8 {
    signed8(mem[addr]) as i8
}

/// The little-endian word held by the four bytes of `mem` from `addr` on.
pub open spec fn read_u32(mem: Seq<u8>, addr: int) -> u32 {
    le_u32(mem[addr], mem[addr + 1], mem[addr + 2], mem[addr + 3]) as u32
}

/// The little-endian word of `mem` at `addr`, read as a signed number.
pub open spec fn read_i32(mem: Seq<u8>, addr: int) -> i32 {
    signed32(read_u32(mem, addr)) as i32
}

/// `mem` after the four bytes from `addr` on have taken the little-endian
/// bytes of `value`.
pub open spec fn write_u32(mem: Seq<u8>, addr: int, value: u32) -> Seq<u8> {
    mem.update(addr, le_byte(value, 0)).update(addr + 1, le_byte(value, 1)).update(
        addr + 2,
        le_byte(value, 2),
    ).update(addr + 3, le_byte(value, 3))
}

/// The four little-endian bytes of a word put together again give the word.
pub proof fn lemma_le_bytes_of_word(v: u32)
    ensures
        le_u32(le_byte(v, 0), le_byte(v, 1), le_byte(v, 2), le_byte(v, 3)) == v,
{
}

/// A word written at an address inside the image is the word read back from
/// that address, and no byte outside the four written ones changes.
pub proof fn lemma_write_then_read(mem: Seq<u8>, addr: int, value: u32)
    requires
        in_image(mem, addr, 4),
    ensures
        read_u32(write_u32(mem, addr, value), addr) == value,
        write_u32(mem, addr, value).len() == mem.len(),
        forall|a: int|
            0 <= a < mem.len() && !(addr <= a < addr + 4) ==> write_u32(mem, addr, value)[a]
                == #[trigger] mem[a],
{
    lemma_le_bytes_of_word(value);
}

/// A memory of `size` zero bytes with `program` laid over it from `offset`
/// on; what of `program` would lie past the end of the memory is left out.
pub open spec fn image_with(program: Seq<u8>, offset: int, size: nat) -> Seq<u8> {
    Seq::new(
        size,
        |a: int|
            if offset <= a < offset + program.len() {
                program[a - offset]
            } else {
                0u8
            },
    )
}

/// Builds the memory image of a machine: `size` bytes, all zero but for the
/// bytes of `program`, which stand from `offset` on. A program that does not
/// fit is cut off at the end of the memory.
pub fn load_image(program: &Vec<u8>, offset: usize, size: usize) -> (memory: Vec<u8>)
    ensures
        memory@ == image_with(program@, offset as int, size as nat),
{
    let mut memory: Vec<u8> = Vec::new();
    let mut address: usize = 0;
    while address < size
        invariant
            address <= size,
            memory@ == image_with(program@, offset as int, address as nat),
        decreases size - address,
    {
        let byte = if offset <= address && address - offset < program.len() {
            program[address - offset]
        } else {
            0
        };
        memory.push(byte);
        address += 1;
        assert(memory@ =~= image_with(program@, offset as int, address as nat));
    }
    memory
}

/// The flat address space of the machine.
pub struct Bus {
    memory: Vec<u8>,
}

impl View for Bus {
    type V = Seq<u8>;

    /// The bytes of the image, by address.
    closed spec fn view(&self) -> Seq<u8> {
        self.memory@
    }
}

impl Bus {
    /// A bus over `memory`; address `a` holds `memory[a]`.
    pub fn new(memory: Vec<u8>) -> (bus: Self)
        ensures
            bus@ == memory@,
    {
        Self { memory }
    }

    /// Every address of the image is an address of the host.
    pub proof fn lemma_len_bounded(&self)
        ensures
            self@.len() <= usize::MAX,
    {
        assert(self.memory@.len() == self.memory.len());
    }

    /// The size of the image in bytes.
    pub fn len(&self) -> (n: usize)
        ensures
            n == self@.len(),
    {
        self.memory.len()
    }

    /// The byte at `eip + index`.
    pub fn get_code8(&self, eip: usize, index: usize) -> (byte: u8)
        requires
            in_image(self@, eip + index, 1),
        ensures
            byte == read_u8(self@, eip + index),
    {
        assert(self.memory@.len() == self.memory.len());
        self.memory[eip + index]
    }

    /// The byte at `eip + index`, read as a two's-complement number.
    pub fn get_sign_code8(&self, eip: usize, index: usize) -> (value: i8)
        requires
            in_image(self@, eip + index, 1),
        ensures
            value == read_i8(self@, eip + index),
            value == signed8(self@[eip + index]),
    {
        let byte = self.get_code8(eip, index);
        assert(byte as i8 == signed8(byte)) by (bit_vector);
        #[verifier::truncate]
        (byte as i8)
    }

    /// The word whose four bytes start at `eip + index`, least significant
    /// byte first.
    pub fn get_code32(&self, eip: usize, index: usize) -> (word: u32)
        requires
            in_image(self@, eip + index, 4),
        ensures
            word == read_u32(self@, eip + index),
            word == le_u32(
                self@[eip + index],
                self@[eip + index + 1],
                self@[eip + index + 2],
                self@[eip + index + 3],
            ),
    {
        assert(self.memory@.len() == self.memory.len());
        let at = eip + index;
        let b0 = self.memory[at];
        let b1 = self.memory[at + 1];
        let b2 = self.memory[at + 2];
        let b3 = self.memory[at + 3];
        assert((b3 as u32) << 24 | (b2 as u32) << 16 | (b1 as u32) << 8 | (b0 as u32) == b0 + b1
            * 0x100 + b2 * 0x1_0000 + b3 * 0x100_0000) by (bit_vector);
        (b3 as u32) << 24 | (b2 as u32) << 16 | (b1 as u32) << 8 | (b0 as u32)
    }

    /// The word at `eip + index`, read as a two's-complement number.
    pub fn get_sign_code32(&self, eip: usize, index: usize) -> (value: i32)
        requires
            in_image(self@, eip + index, 4),
        ensures
            value == read_i32(self@, eip + index),
            value == signed32(read_u32(self@, eip + index)),
    {
        let word = self.get_code32(eip, index);
        assert(word as i32 == signed32(word)) by (bit_vector);
        #[verifier::truncate]
        (word as i32)
    }

    /// Stores `value` at `address`; every other byte keeps its value.
    pub fn set_memory8(&mut self, address: u32, value: u8)
        requires
            in_image(old(self)@, address as int, 1),
        ensures
            final(self)@ == old(self)@.update(address as int, value),
    {
        self.put(address as usize, value);
    }

    /// Stores `value` at the address `at`.
    fn put(&mut self, at: usize, value: u8)
        requires
            in_image(old(self)@, at as int, 1),
        ensures
            final(self)@ == old(self)@.update(at as int, value),
    {
        self.memory.set(at, value);
    }

    /// Stores the four bytes of `value` from `addres` on, least significant
    /// byte first; every other byte keeps its value.
    pub fn set_memory32(&mut self, addres: u32, value: u32)
        requires
            in_image(old(self)@, addres as int, 4),
        ensures
            final(self)@ == write_u32(old(self)@, addres as int, value),
            read_u32(final(self)@, addres as int) == value,
    {
        assert(self.memory@.len() == self.memory.len());
        let ghost before = self@;
        let base = addres as usize;
        let mut i: usize = 0;
        while i < 4
            invariant
                0 <= i <= 4,
                in_image(before, addres as int, 4),
                base == addres,
                before.len() <= usize::MAX,
                self@.len() == before.len(),
                forall|a: int|
                    0 <= a < before.len() ==> #[trigger] self@[a] == if addres <= a < addres + i {
                        le_byte(value, a - addres)
                    } else {
                        before[a]
                    },
            decreases 4 - i,
        {
            let byte = #[verifier::truncate]
            ((value >> (i * 8) & 0xFF) as u8);
            assert(byte == le_byte(value, i as int)) by {
                assert(i < 4 ==> ((value >> (i * 8) & 0xFF) as u8 == if i == 0 {
                    (value % 0x100) as u8
                } else if i == 1 {
                    ((value / 0x100) % 0x100) as u8
                } else if i == 2 {
                    ((value / 0x1_0000) % 0x100) as u8
                } else {
                    ((value / 0x100_0000) % 0x100) as u8
                })) by (bit_vector);
            }
            self.put(base + i, byte);
            i += 1;
        }
        assert(self@ =~= write_u32(before, addres as int, value));
        proof {
            lemma_write_then_read(before, addres as int, value);
        }
    }
}

} // verus!
