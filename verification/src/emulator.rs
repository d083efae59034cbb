//! The CPU core: register file, flags, instruction pointer and the bus it
//! owns; the instruction handlers; and the fetch-decode-execute loop.
//!
//! Every operation that can fail returns the [`Fault`] and leaves the
//! machine as it found it, so a fault never shows a half-executed
//! instruction.

use crate::bus::{in_image, read_i32, read_i8, read_u32, read_u8, write_u32, Bus};
use crate::machine;
use crate::machine::{
    carried_out, initial_state, jump_target, Fault, MachineState, Register, RunState,
    OP_MOV_R32_IMM32, OP_MOV_RM32_IMM32, OP_NEAR_JUMP, OP_SHORT_JUMP, REGISTER_NUM,
};
use crate::modrm::{effective_address, DispKind, Modrm, MODE_MEMORY, MODE_REGISTER, RM_DIRECT};
use vstd::prelude::*;

verus! {

/// The size of the memory image that the machine is usually given: 1 MiB.
pub const MEMORY_SIZE: usize = 1024 * 1024;

/// The CPU core together with the memory it runs on.
pub struct Emulator {
    registers: [u32; 8],
    eflags: u32,
    eip: usize,
    bus: Bus,
}

impl View for Emulator {
    type V = MachineState;

    /// The state of the machine.
    closed spec fn view(&self) -> MachineState {
        MachineState {
            registers: self.registers@,
            eflags: self.eflags,
            eip: self.eip,
            memory: self.bus@,
        }
    }
}

impl Emulator {
    /// A machine about to execute the instruction at `eip`, with `esp` in
    /// the stack pointer, every other register and the flags zero, and
    /// `memory` as its memory image.
    pub fn new(eip: usize, esp: u32, memory: Vec<u8>) -> (emu: Self)
        ensures
            emu@ == initial_state(eip, esp, memory@),
            emu@.wf(),
    {
        let mut regs: [u32; 8] = [0, 0, 0, 0, 0, 0, 0, 0];
        regs[Register::ESP.index()] = esp;
        let emu = Emulator { registers: regs, eflags: 0, eip, bus: Bus::new(memory) };
        proof {
            emu.lemma_wf();
            assert(emu@.registers =~= initial_state(eip, esp, memory@).registers);
        }
        emu
    }

    /// Every machine is in a well-formed state.
    pub proof fn lemma_wf(&self)
        ensures
            self@.wf(),
    {
        self.bus.lemma_len_bounded();
    }

    /// The instruction pointer.
    pub fn eip(&self) -> (eip: usize)
        ensures
            eip == self@.eip,
    {
        self.eip
    }

    /// The flags.
    pub fn eflags(&self) -> (eflags: u32)
        ensures
            eflags == self@.eflags,
    {
        self.eflags
    }

    /// The value of a register.
    pub fn register(&self, register: Register) -> (value: u32)
        ensures
            self@.wf(),
            value == self@.registers[register.spec_index()],
    {
        proof {
            self.lemma_wf();
        }
        self.registers[register.index()]
    }

    /// The memory bus of the machine.
    pub fn bus(&self) -> (bus: &Bus)
        ensures
            bus@ == self@.memory,
    {
        &self.bus
    }

    /// Whether the `width` bytes at `index` from the instruction pointer lie
    /// inside the memory image.
    fn has_code(&self, index: usize, width: usize) -> (inside: bool)
        ensures
            inside == in_image(self@.memory, self@.eip + index, width as int),
    {
        let size = self.bus.len();
        self.eip <= size && index <= size - self.eip && width <= size - self.eip - index
    }

    /// The byte at `index` from the instruction pointer.
    pub fn get_code8(&self, index: usize) -> (code: Result<u8, Fault>)
        ensures
            code == if in_image(self@.memory, self@.eip + index, 1) {
                Ok::<u8, Fault>(read_u8(self@.memory, self@.eip + index))
            } else {
                Err(Fault::OutOfBounds { eip: self@.eip })
            },
    {
        if self.has_code(index, 1) {
            Ok(self.bus.get_code8(self.eip, index))
        } else {
            Err(Fault::OutOfBounds { eip: self.eip })
        }
    }

    /// The byte at `index` from the instruction pointer, read as a signed
    /// number.
    pub fn get_sign_code8(&self, index: usize) -> (code: Result<i8, Fault>)
        ensures
            code == if in_image(self@.memory, self@.eip + index, 1) {
                Ok::<i8, Fault>(read_i8(self@.memory, self@.eip + index))
            } else {
                Err(Fault::OutOfBounds { eip: self@.eip })
            },
    {
        if self.has_code(index, 1) {
            Ok(self.bus.get_sign_code8(self.eip, index))
        } else {
            Err(Fault::OutOfBounds { eip: self.eip })
        }
    }

    /// The little-endian word at `index` from the instruction pointer.
    pub fn get_code32(&self, index: usize) -> (code: Result<u32, Fault>)
        ensures
            code == if in_image(self@.memory, self@.eip + index, 4) {
                Ok::<u32, Fault>(read_u32(self@.memory, self@.eip + index))
            } else {
                Err(Fault::OutOfBounds { eip: self@.eip })
            },
    {
        if self.has_code(index, 4) {
            Ok(self.bus.get_code32(self.eip, index))
        } else {
            Err(Fault::OutOfBounds { eip: self.eip })
        }
    }

    /// The little-endian word at `index` from the instruction pointer, read
    /// as a signed number.
    pub fn get_sign_code32(&self, index: usize) -> (code: Result<i32, Fault>)
        ensures
            code == if in_image(self@.memory, self@.eip + index, 4) {
                Ok::<i32, Fault>(read_i32(self@.memory, self@.eip + index))
            } else {
                Err(Fault::OutOfBounds { eip: self@.eip })
            },
    {
        if self.has_code(index, 4) {
            Ok(self.bus.get_sign_code32(self.eip, index))
        } else {
            Err(Fault::OutOfBounds { eip: self.eip })
        }
    }

    /// Stores `value` at `address`. Outside the memory image nothing is
    /// stored.
    pub fn set_memory8(&mut self, address: u32, value: u8) -> (result: Result<(), Fault>)
        ensures
            carried_out(
                if in_image(old(self)@.memory, address as int, 1) {
                    Ok(
                        (MachineState {
                            memory: old(self)@.memory.update(address as int, value),
                            ..old(self)@
                        }),
                    )
                } else {
                    Err(Fault::OutOfBounds { eip: old(self)@.eip })
                },
                old(self)@,
                final(self)@,
                result,
            ),
    {
        if (address as usize) < self.bus.len() {
            self.bus.set_memory8(address, value);
            Ok(())
        } else {
            Err(Fault::OutOfBounds { eip: self.eip })
        }
    }

    /// Stores the four bytes of `value` from `addres` on, least significant
    /// byte first. If one of the four lies outside the memory image nothing
    /// is stored.
    pub fn set_memory32(&mut self, addres: u32, value: u32) -> (result: Result<(), Fault>)
        ensures
            carried_out(
                if in_image(old(self)@.memory, addres as int, 4) {
                    Ok(
                        (MachineState {
                            memory: write_u32(old(self)@.memory, addres as int, value),
                            ..old(self)@
                        }),
                    )
                } else {
                    Err(Fault::OutOfBounds { eip: old(self)@.eip })
                },
                old(self)@,
                final(self)@,
                result,
            ),
    {
        let size = self.bus.len();
        if size >= 4 && (addres as usize) <= size - 4 {
            self.bus.set_memory32(addres, value);
            Ok(())
        } else {
            Err(Fault::OutOfBounds { eip: self.eip })
        }
    }

    /// Puts `value` in the register that the `rm` field of `modrm` names.
    pub fn set_register32(&mut self, modrm: &Modrm, value: u32)
        requires
            modrm.rm < REGISTER_NUM,
        ensures
            final(self)@ == old(self)@.with_register(modrm.rm as int, value),
    {
        self.registers[modrm.rm as usize] = value;
        assert(self@.registers =~= old(self)@.registers.update(modrm.rm as int, value));
    }

    /// Puts `value` in the operand that `modrm` designates. Only a register
    /// operand can be written; a memory operand is a fault.
    pub fn set_rm32(&mut self, modrm: &Modrm, value: u32) -> (result: Result<(), Fault>)
        requires
            modrm.m == MODE_REGISTER ==> modrm.rm < REGISTER_NUM,
        ensures
            carried_out(
                if modrm.m == MODE_REGISTER {
                    Ok(old(self)@.with_register(modrm.rm as int, value))
                } else {
                    Err(
                        Fault::UnimplementedAddressing {
                            eip: old(self)@.eip,
                            m: modrm.m,
                            rm: modrm.rm,
                        },
                    )
                },
                old(self)@,
                final(self)@,
                result,
            ),
    {
        if modrm.m == MODE_REGISTER {
            self.set_register32(modrm, value);
            Ok(())
        } else {
            Err(Fault::UnimplementedAddressing { eip: self.eip, m: modrm.m, rm: modrm.rm })
        }
    }

    /// The absolute address of the memory cell that `modrm` designates.
    /// Only the bare 32-bit address is resolved; every other form is a
    /// fault.
    pub fn calc_memory_address(&self, modrm: &Modrm) -> (address: Result<u32, Fault>)
        ensures
            address == match effective_address(*modrm) {
                Some(resolved) => Ok::<u32, Fault>(resolved),
                None => Err(
                    Fault::UnimplementedAddressing { eip: self@.eip, m: modrm.m, rm: modrm.rm },
                ),
            },
    {
        let unimplemented = Fault::UnimplementedAddressing {
            eip: self.eip,
            m: modrm.m,
            rm: modrm.rm,
        };
        if modrm.m == MODE_MEMORY && modrm.rm == RM_DIRECT {
            match modrm.disp {
                DispKind::Disp32(disp32) => Ok(disp32),
                DispKind::Disp8(_) => Err(unimplemented),
            }
        } else {
            Err(unimplemented)
        }
    }

    /// Executes a move of an immediate to a register.
    ///
    /// The opcode at the instruction pointer names the register: `0xB8` the
    /// first, `0xBF` the last. The register takes the word that follows the
    /// opcode and the instruction pointer moves on by 5; every other
    /// register, the flags and the memory stay as they are.
    pub fn mov_r32_imm32(&mut self) -> (result: Result<(), Fault>)
        ensures
            carried_out(machine::mov_r32_imm32(old(self)@), old(self)@, final(self)@, result),
            result is Ok ==> {
                let slot = old(self)@.memory[old(self)@.eip as int] - OP_MOV_R32_IMM32;
                &&& 0 <= slot < REGISTER_NUM
                &&& final(self)@.registers[slot] == read_u32(
                    old(self)@.memory,
                    old(self)@.eip + 1,
                )
                &&& final(self)@.eip == old(self)@.eip + 5
                &&& forall|other: int|
                    0 <= other < REGISTER_NUM && other != slot ==> final(self)@.registers[other]
                        == old(self)@.registers[other]
            },
    {
        proof {
            self.lemma_wf();
        }
        let code = self.get_code8(0)?;
        if code < OP_MOV_R32_IMM32 || code > OP_MOV_R32_IMM32 + 7 {
            return Err(Fault::UnimplementedOpcode { eip: self.eip, opcode: code });
        }
        let reg = code - OP_MOV_R32_IMM32;
        let imm = self.get_code32(1)?;
        self.registers[reg as usize] = imm;
        self.eip += 5;
        assert(self@.registers =~= old(self)@.registers.update(reg as int, imm));
        Ok(())
    }

    /// Executes a move of an immediate to a register or memory operand.
    ///
    /// A descriptor follows the opcode and the immediate follows the
    /// descriptor. With a descriptor in register mode the register takes the
    /// immediate and the instruction pointer moves on by the length of
    /// opcode, descriptor and immediate together. A descriptor of a memory
    /// operand is a fault.
    pub fn mov_rm32_imm32(&mut self) -> (result: Result<(), Fault>)
        ensures
            carried_out(machine::mov_rm32_imm32(old(self)@), old(self)@, final(self)@, result),
    {
        proof {
            self.lemma_wf();
        }
        let out_of_bounds = Fault::OutOfBounds { eip: self.eip };
        if self.eip >= self.bus.len() {
            return Err(out_of_bounds);
        }
        let (modrm, consumed) = match Modrm::parse(&self.bus, self.eip + 1) {
            Some(decoded) => decoded,
            None => {
                return Err(out_of_bounds);
            },
        };
        let value = self.get_code32(1 + consumed)?;
        self.set_rm32(&modrm, value)?;
        self.eip += 1 + consumed + 4;
        Ok(())
    }

    /// Where a jump of `length` encoded bytes at the instruction pointer
    /// leads when its displacement is `diff`, if that is an address of the
    /// memory image. The sum is taken in signed arithmetic wide enough for
    /// every instruction pointer and displacement, so it never wraps.
    fn jump_to(&self, diff: i32, length: u8) -> (target: Option<usize>)
        ensures
            target == if in_image(
                self@.memory,
                jump_target(self@.eip, diff as int, length as int),
                1,
            ) {
                Some(jump_target(self@.eip, diff as int, length as int) as usize)
            } else {
                None
            },
    {
        let size = self.bus.len();
        let target: i128 = self.eip as i128 + diff as i128 + length as i128;
        if 0 <= target && target < size as i128 {
            Some(target as usize)
        } else {
            None
        }
    }

    /// Executes a jump by a signed 8-bit displacement.
    ///
    /// The instruction pointer becomes its old value, plus the displacement
    /// that follows the opcode, plus 2; nothing else changes. A target
    /// outside the memory image is a fault.
    pub fn short_jump(&mut self) -> (result: Result<(), Fault>)
        ensures
            carried_out(machine::short_jump(old(self)@), old(self)@, final(self)@, result),
            result is Ok ==> final(self)@.eip == old(self)@.eip + read_i8(
                old(self)@.memory,
                old(self)@.eip + 1,
            ) + 2,
    {
        proof {
            self.lemma_wf();
        }
        let diff = self.get_sign_code8(1)?;
        match self.jump_to(diff as i32, 2) {
            Some(target) => {
                self.eip = target;
                Ok(())
            },
            None => Err(Fault::JumpOutOfRange { eip: self.eip, displacement: diff as i32 }),
        }
    }

    /// Executes a jump by a signed 32-bit displacement.
    ///
    /// The instruction pointer becomes its old value, plus the displacement
    /// that follows the opcode, plus 5; nothing else changes. A target
    /// outside the memory image is a fault.
    pub fn near_jump(&mut self) -> (result: Result<(), Fault>)
        ensures
            carried_out(machine::near_jump(old(self)@), old(self)@, final(self)@, result),
            result is Ok ==> final(self)@.eip == old(self)@.eip + read_i32(
                old(self)@.memory,
                old(self)@.eip + 1,
            ) + 5,
    {
        proof {
            self.lemma_wf();
        }
        let diff = self.get_sign_code32(1)?;
        match self.jump_to(diff, 5) {
            Some(target) => {
                self.eip = target;
                Ok(())
            },
            None => Err(Fault::JumpOutOfRange { eip: self.eip, displacement: diff }),
        }
    }

    /// Executes the instruction at the instruction pointer.
    pub fn step(&mut self) -> (result: Result<(), Fault>)
        ensures
            carried_out(machine::step(old(self)@), old(self)@, final(self)@, result),
    {
        let code = self.get_code8(0)?;
        if OP_MOV_R32_IMM32 <= code && code <= OP_MOV_R32_IMM32 + 7 {
            self.mov_r32_imm32()
        } else if code == OP_MOV_RM32_IMM32 {
            self.mov_rm32_imm32()
        } else if code == OP_NEAR_JUMP {
            self.near_jump()
        } else if code == OP_SHORT_JUMP {
            self.short_jump()
        } else {
            Err(Fault::UnimplementedOpcode { eip: self.eip, opcode: code })
        }
    }

    /// Executes instructions until the machine halts, an instruction faults,
    /// or `max_steps` instructions have been executed.
    ///
    /// The machine halts when an instruction has set the instruction pointer
    /// to 0, or when the instruction pointer stands outside the memory
    /// image. After a fault the machine is in the state before the faulting
    /// instruction. `Ok(RunState::Running)` says that the steps are used up
    /// and the machine has more to execute; a further call takes up where
    /// this one stopped.
    pub fn run(&mut self, max_steps: u64) -> (result: Result<RunState, Fault>)
        ensures
            (final(self)@, result) == machine::run(old(self)@, max_steps as nat),
    {
        let mut left = max_steps;
        loop
            invariant
                machine::run(old(self)@, max_steps as nat) == machine::run(self@, left as nat),
            decreases left,
        {
            if self.eip >= self.bus.len() {
                return Ok(RunState::Halted);
            }
            if left == 0 {
                return Ok(RunState::Running);
            }
            self.step()?;
            if self.eip == 0 {
                return Ok(RunState::Halted);
            }
            left -= 1;
        }
    }
}

} // verus!
