//! The addressing-mode descriptor that follows an opcode, and its decoder.
//!
//! A descriptor starts with one byte whose bits `7:6` give the mode, bits
//! `5:3` a register or an opcode extension, and bits `2:0` a base register or
//! a special encoding. Depending on these an auxiliary byte and a
//! displacement of one or four bytes follow.

use crate::bus::{in_image, read_i8, read_u32, read_u8, Bus};
use vstd::prelude::*;

verus! {

/// Mode of a descriptor whose operand is a memory cell without displacement.
pub const MODE_MEMORY: u8 = 0;

/// Mode of a descriptor whose operand is a memory cell at an 8-bit offset
/// from a base register.
pub const MODE_MEMORY_DISP8: u8 = 1;

/// Mode of a descriptor whose operand is a memory cell at a 32-bit offset
/// from a base register.
pub const MODE_MEMORY_DISP32: u8 = 2;

/// Mode of a descriptor whose operand is a register.
pub const MODE_REGISTER: u8 = 3;

/// The `rm` value that announces an auxiliary scale-index-base byte.
pub const RM_SIB: u8 = 4;

/// The `rm` value that, in mode [`MODE_MEMORY`], announces a bare 32-bit
/// address with no base register.
pub const RM_DIRECT: u8 = 5;

/// The two readings of the middle field of a descriptor. Which one applies
/// is decided by the instruction that owns the descriptor.
#[derive(Clone, Copy, Debug, PartialEq, Eq, Structural)]
pub enum OpReg {
    /// The field extends the opcode.
    Opecode(u8),
    /// The field names a register.
    RegIndex(u8),
}

/// The displacement of a descriptor, tagged with its width.
#[derive(Clone, Copy, Debug, PartialEq, Eq, Structural)]
pub enum DispKind {
    /// A signed offset of one byte.
    Disp8(i8),
    /// A value of four bytes.
    Disp32(u32),
}

/// A decoded addressing-mode descriptor.
#[derive(Clone, Copy, Debug, PartialEq, Eq, Structural)]
pub struct Modrm {
    /// The mode, bits `7:6` of the first byte.
    pub m: u8,
    /// The register or opcode extension, bits `5:3` of the first byte.
    pub opreg: u8,
    /// The base register or special encoding, bits `2:0` of the first byte.
    pub rm: u8,
    /// The auxiliary byte, where the encoding has one.
    pub sib: Option<u8>,
    /// The displacement.
    pub disp: DispKind,
}

/// Bits `7:6` of a descriptor byte.
pub open spec fn mode_of(code: u8) -> u8 {
    code / 0x40
}

/// Bits `5:3` of a descriptor byte.
pub open spec fn opreg_of(code: u8) -> u8 {
    (code / 8) % 8
}

/// Bits `2:0` of a descriptor byte.
pub open spec fn rm_of(code: u8) -> u8 {
    code % 8
}

/// Whether an auxiliary byte follows the first byte: in every mode but the
/// register one, when `rm` is [`RM_SIB`].
pub open spec fn has_sib(m: u8, rm: u8) -> bool {
    m != MODE_REGISTER && rm == RM_SIB
}

/// Whether the displacement is four bytes wide: for a bare address and in
/// mode [`MODE_MEMORY_DISP32`]. Every other descriptor carries one signed
/// byte, the register mode included.
pub open spec fn has_disp32(m: u8, rm: u8) -> bool {
    (m == MODE_MEMORY && rm == RM_DIRECT) || m == MODE_MEMORY_DISP32
}

/// The number of bytes that a descriptor with the given mode and `rm` takes.
pub open spec fn encoded_len(m: u8, rm: u8) -> int {
    1 + (if has_sib(m, rm) {
        1int
    } else {
        0int
    }) + (if has_disp32(m, rm) {
        4int
    } else {
        1int
    })
}

/// The descriptor that the bytes of `mem` from `at` on encode, with the
/// number of bytes it takes; `None` where it would run past the end of `mem`.
pub open spec fn decode(mem: Seq<u8>, at: int) -> Option<(Modrm, int)> {
    let code = read_u8(mem, at);
    let m = mode_of(code);
    let rm = rm_of(code);
    let disp_at = at + 1 + (if has_sib(m, rm) {
        1int
    } else {
        0int
    });
    if !in_image(mem, at, 1) || !in_image(mem, at, encoded_len(m, rm)) {
        None
    } else {
        Some(
            (
                Modrm {
                    m,
                    opreg: opreg_of(code),
                    rm,
                    sib: if has_sib(m, rm) {
                        Some(read_u8(mem, at + 1))
                    } else {
                        None
                    },
                    disp: if has_disp32(m, rm) {
                        DispKind::Disp32(read_u32(mem, disp_at))
                    } else {
                        DispKind::Disp8(read_i8(mem, disp_at))
                    },
                },
                encoded_len(m, rm),
            ),
        )
    }
}

/// The absolute address of the memory cell that a descriptor designates,
/// for the one form that the machine resolves: the bare 32-bit address,
/// which is the displacement itself. The forms with a base register or an
/// auxiliary byte, and the register mode, which designates no memory cell,
/// have no address here.
pub open spec fn effective_address(modrm: Modrm) -> Option<u32> {
    match modrm.disp {
        DispKind::Disp32(address) if modrm.m == MODE_MEMORY && modrm.rm == RM_DIRECT => Some(
            address,
        ),
        _ => None,
    }
}

impl Modrm {
    /// Whether the fields are those of some encoded descriptor: each of the
    /// three bit fields within its width, the auxiliary byte present exactly
    /// where the encoding has one, and the displacement of the width that
    /// mode and `rm` call for.
    pub open spec fn wf(&self) -> bool {
        &&& self.m < 4
        &&& self.opreg < 8
        &&& self.rm < 8
        &&& self.sib is Some <==> has_sib(self.m, self.rm)
        &&& self.disp is Disp32 <==> has_disp32(self.m, self.rm)
    }

    /// The number of bytes that the descriptor takes in memory.
    pub open spec fn len(&self) -> int {
        encoded_len(self.m, self.rm)
    }

    /// Decodes the descriptor whose first byte is at `eip`.
    ///
    /// Returns the descriptor and the number of bytes it takes, by which the
    /// caller advances the instruction pointer; `None` if the descriptor
    /// would run past the end of the image.
    pub fn parse(bus: &Bus, eip: usize) -> (decoded: Option<(Modrm, usize)>)
        ensures
            match decoded {
                Some((modrm, consumed)) => {
                    &&& decode(bus@, eip as int) == Some((modrm, consumed as int))
                    &&& modrm.wf()
                    &&& consumed == modrm.len()
                    &&& in_image(bus@, eip as int, consumed as int)
                },
                None => decode(bus@, eip as int) is None,
            },
    {
        let size = bus.len();
        if eip >= size {
            return None;
        }
        let room = size - eip;
        let code = bus.get_code8(eip, 0);
        let m = (code & 0xC0) >> 6;
        let opreg = (code & 0x38) >> 3;
        let rm = code & 0x07;
        assert((code & 0xC0) >> 6 == code / 0x40 && (code & 0x38) >> 3 == (code / 8) % 8 && code
            & 0x07 == code % 8) by (bit_vector);
        let mut consumed: usize = 1;
        let sib = if m != MODE_REGISTER && rm == RM_SIB {
            if room < 2 {
                return None;
            }
            let sib = bus.get_code8(eip, consumed);
            consumed += 1;
            Some(sib)
        } else {
            None
        };
        let disp = if (m == MODE_MEMORY && rm == RM_DIRECT) || m == MODE_MEMORY_DISP32 {
            if room - consumed < 4 {
                return None;
            }
            let disp32 = bus.get_code32(eip, consumed);
            consumed += 4;
            DispKind::Disp32(disp32)
        } else {
            if room - consumed < 1 {
                return None;
            }
            let disp8 = bus.get_sign_code8(eip, consumed);
            consumed += 1;
            DispKind::Disp8(disp8)
        };
        Some((Modrm { m, opreg, rm, sib, disp }, consumed))
    }
}

} // verus!
