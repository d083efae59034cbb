//! The machine as a mathematical object: its state, what one instruction
//! does to it, and what a run of a bounded number of instructions does.
//!
//! The executable emulator is specified against the functions of this
//! module; the laws at the end of the file are proved of them.

use crate::bus::{in_image, read_i32, read_i8, read_u32};
use crate::modrm::{decode, MODE_REGISTER};
use vstd::prelude::*;

verus! {

/// The number of general registers.
pub const REGISTER_NUM: usize = 8;

/// The general registers, in the order of their 3-bit encoding.
#[derive(Clone, Copy, Debug, PartialEq, Eq, Structural)]
pub enum Register {
    EAX,
    ECX,
    EDX,
    EBX,
    ESP,
    EBP,
    ESI,
    EDI,
}

impl Register {
    /// The slot of the register in the register file.
    pub open spec fn spec_index(self) -> int {
        match self {
            Register::EAX => 0,
            Register::ECX => 1,
            Register::EDX => 2,
            Register::EBX => 3,
            Register::ESP => 4,
            Register::EBP => 5,
            Register::ESI => 6,
            Register::EDI => 7,
        }
    }

    /// The slot of the register in the register file.
    pub fn index(self) -> (slot: usize)
        ensures
            slot == self.spec_index(),
            slot < REGISTER_NUM,
    {
        match self {
            Register::EAX => 0,
            Register::ECX => 1,
            Register::EDX => 2,
            Register::EBX => 3,
            Register::ESP => 4,
            Register::EBP => 5,
            Register::ESI => 6,
            Register::EDI => 7,
        }
    }
}

/// Why an instruction could not be executed. Each fault names the
/// instruction pointer at which the machine stood; the machine is left as it
/// was before the instruction.
#[derive(Clone, Copy, Debug, PartialEq, Eq, Structural)]
pub enum Fault {
    /// The instruction, or an access it asked for, reaches outside the
    /// memory image.
    OutOfBounds { eip: usize },
    /// The byte at the instruction pointer selects no instruction.
    UnimplementedOpcode { eip: usize, opcode: u8 },
    /// The descriptor of the instruction, of mode `m` and base `rm`, asks for
    /// an addressing form that the machine does not have.
    UnimplementedAddressing { eip: usize, m: u8, rm: u8 },
    /// The jump, by `displacement` from the end of its own encoding, leads
    /// outside the memory image.
    JumpOutOfRange { eip: usize, displacement: i32 },
}

/// Whether the machine has more to execute.
#[derive(Clone, Copy, Debug, PartialEq, Eq, Structural)]
pub enum RunState {
    /// The instruction pointer stands on an instruction yet to be executed.
    Running,
    /// An instruction has set the instruction pointer to 0, or the
    /// instruction pointer has left the memory image.
    Halted,
}

/// The state of the machine.
pub struct MachineState {
    /// The register file, by slot.
    pub registers: Seq<u32>,
    /// The flags; no instruction reads or writes them.
    pub eflags: u32,
    /// The address of the next byte to fetch.
    pub eip: usize,
    /// The memory image, by address.
    pub memory: Seq<u8>,
}

impl MachineState {
    /// Whether the state is one that a machine can be in: it has all its
    /// registers, and every address of its memory is a machine address.
    pub open spec fn wf(self) -> bool {
        &&& self.registers.len() == REGISTER_NUM
        &&& self.memory.len() <= usize::MAX
    }

    /// The state with `value` in register slot `slot`.
    pub open spec fn with_register(self, slot: int, value: u32) -> MachineState {
        MachineState { registers: self.registers.update(slot, value), ..self }
    }

    /// The state with the instruction pointer at `eip`.
    pub open spec fn with_eip(self, eip: int) -> MachineState {
        MachineState { eip: eip as usize, ..self }
    }
}

/// The state at the start of a run: every register zero but the stack
/// pointer, the flags zero.
pub open spec fn initial_state(eip: usize, esp: u32, memory: Seq<u8>) -> MachineState {
    MachineState {
        registers: Seq::new(REGISTER_NUM as nat, |i: int| 0u32).update(
            Register::ESP.spec_index(),
            esp,
        ),
        eflags: 0,
        eip,
        memory,
    }
}

/// The lowest opcode of the move of an immediate to a register; the seven
/// that follow it select the other registers.
pub const OP_MOV_R32_IMM32: u8 = 0xB8;

/// The opcode of the move of an immediate to a register or memory operand.
pub const OP_MOV_RM32_IMM32: u8 = 0xC7;

/// The opcode of the jump by a 32-bit displacement.
pub const OP_NEAR_JUMP: u8 = 0xE9;

/// The opcode of the jump by an 8-bit displacement.
pub const OP_SHORT_JUMP: u8 = 0xEB;

/// Move of an immediate to a register: opcodes `0xB8` to `0xBF`, the
/// register slot being the opcode less `0xB8`, then the immediate in four
/// bytes. The register takes the immediate and the instruction pointer
/// moves on by 5.
pub open spec fn mov_r32_imm32(s: MachineState) -> Result<MachineState, Fault> {
    let opcode = s.memory[s.eip as int];
    if !in_image(s.memory, s.eip as int, 1) {
        Err(Fault::OutOfBounds { eip: s.eip })
    } else if !(OP_MOV_R32_IMM32 <= opcode <= OP_MOV_R32_IMM32 + 7) {
        Err(Fault::UnimplementedOpcode { eip: s.eip, opcode })
    } else if !in_image(s.memory, s.eip + 1, 4) {
        Err(Fault::OutOfBounds { eip: s.eip })
    } else {
        Ok(
            s.with_register(opcode - OP_MOV_R32_IMM32, read_u32(s.memory, s.eip + 1)).with_eip(
                s.eip + 5,
            ),
        )
    }
}

/// Move of an immediate to a register or memory operand: the opcode, a
/// descriptor, then the immediate in four bytes. With a descriptor in
/// register mode the register `rm` takes the immediate and the instruction
/// pointer moves on by the length of the whole encoding. The memory forms
/// are not implemented.
pub open spec fn mov_rm32_imm32(s: MachineState) -> Result<MachineState, Fault> {
    match decode(s.memory, s.eip + 1) {
        None => Err(Fault::OutOfBounds { eip: s.eip }),
        Some((modrm, consumed)) => {
            if !in_image(s.memory, s.eip + 1 + consumed, 4) {
                Err(Fault::OutOfBounds { eip: s.eip })
            } else if modrm.m != MODE_REGISTER {
                Err(Fault::UnimplementedAddressing { eip: s.eip, m: modrm.m, rm: modrm.rm })
            } else {
                Ok(
                    s.with_register(
                        modrm.rm as int,
                        read_u32(s.memory, s.eip + 1 + consumed),
                    ).with_eip(s.eip + 1 + consumed + 4),
                )
            }
        },
    }
}

/// Where a jump of `length` encoded bytes at `eip` leads when its
/// displacement is `displacement`: the displacement counts from the
/// instruction that follows the jump.
pub open spec fn jump_target(eip: usize, displacement: int, length: int) -> int {
    eip + displacement + length
}

/// Jump by the signed 32-bit displacement that follows the opcode. The
/// encoding is 5 bytes long. A target outside the memory image is a fault.
pub open spec fn near_jump(s: MachineState) -> Result<MachineState, Fault> {
    let displacement = read_i32(s.memory, s.eip + 1);
    let target = jump_target(s.eip, displacement as int, 5);
    if !in_image(s.memory, s.eip + 1, 4) {
        Err(Fault::OutOfBounds { eip: s.eip })
    } else if !in_image(s.memory, target, 1) {
        Err(Fault::JumpOutOfRange { eip: s.eip, displacement })
    } else {
        Ok(s.with_eip(target))
    }
}

/// Jump by the signed 8-bit displacement that follows the opcode. The
/// encoding is 2 bytes long. A target outside the memory image is a fault.
pub open spec fn short_jump(s: MachineState) -> Result<MachineState, Fault> {
    let displacement = read_i8(s.memory, s.eip + 1);
    let target = jump_target(s.eip, displacement as int, 2);
    if !in_image(s.memory, s.eip + 1, 1) {
        Err(Fault::OutOfBounds { eip: s.eip })
    } else if !in_image(s.memory, target, 1) {
        Err(Fault::JumpOutOfRange { eip: s.eip, displacement: displacement as i32 })
    } else {
        Ok(s.with_eip(target))
    }
}

/// What executing the instruction at the instruction pointer gives: the
/// next state, or the fault that stops the machine.
pub open spec fn step(s: MachineState) -> Result<MachineState, Fault> {
    let opcode = s.memory[s.eip as int];
    if !in_image(s.memory, s.eip as int, 1) {
        Err(Fault::OutOfBounds { eip: s.eip })
    } else if OP_MOV_R32_IMM32 <= opcode <= OP_MOV_R32_IMM32 + 7 {
        mov_r32_imm32(s)
    } else if opcode == OP_MOV_RM32_IMM32 {
        mov_rm32_imm32(s)
    } else if opcode == OP_NEAR_JUMP {
        near_jump(s)
    } else if opcode == OP_SHORT_JUMP {
        short_jump(s)
    } else {
        Err(Fault::UnimplementedOpcode { eip: s.eip, opcode })
    }
}

/// Whether the instruction pointer of `s` stands inside the memory image,
/// so that there is an instruction to fetch.
pub open spec fn can_fetch(s: MachineState) -> bool {
    s.eip < s.memory.len()
}

/// What a run of at most `steps` instructions gives: the state in which it
/// ends and how it ended.
///
/// The run is over once the instruction pointer stands outside the memory
/// image, or an instruction has set it to 0: the machine is halted. A fault
/// ends the run in the state before the faulting instruction. A run that
/// has used up its steps with more to execute leaves the machine running.
pub open spec fn run(s: MachineState, steps: nat) -> (MachineState, Result<RunState, Fault>)
    decreases steps,
{
    if !can_fetch(s) {
        (s, Ok(RunState::Halted))
    } else if steps == 0 {
        (s, Ok(RunState::Running))
    } else {
        match step(s) {
            Err(fault) => (s, Err(fault)),
            Ok(next) => if next.eip == 0 {
                (next, Ok(RunState::Halted))
            } else {
                run(next, (steps - 1) as nat)
            },
        }
    }
}

/// Whether a call that returned `result` and took the machine from `pre` to
/// `post` did what `expected` says: on success the machine is in the
/// expected state, on a fault the fault is the expected one and the machine
/// is where it was.
pub open spec fn carried_out(
    expected: Result<MachineState, Fault>,
    pre: MachineState,
    post: MachineState,
    result: Result<(), Fault>,
) -> bool {
    match expected {
        Ok(next) => result is Ok && post == next,
        Err(fault) => result == Err::<(), Fault>(fault) && post == pre,
    }
}

/// Whether `opcode` selects an instruction of the machine.
pub open spec fn is_implemented(opcode: u8) -> bool {
    ||| OP_MOV_R32_IMM32 <= opcode <= OP_MOV_R32_IMM32 + 7
    ||| opcode == OP_MOV_RM32_IMM32
    ||| opcode == OP_NEAR_JUMP
    ||| opcode == OP_SHORT_JUMP
}

/// A move of the immediate `v` to the register in slot `r` puts `v` in that
/// register, moves the instruction pointer on by exactly 5, and leaves
/// every other register, the flags and the memory as they were.
pub proof fn lemma_mov_r32_imm32(s: MachineState, r: int, v: u32)
    requires
        s.wf(),
        0 <= r < REGISTER_NUM,
        in_image(s.memory, s.eip as int, 5),
        s.memory[s.eip as int] == OP_MOV_R32_IMM32 + r,
        read_u32(s.memory, s.eip + 1) == v,
    ensures
        step(s) is Ok,
        step(s)->Ok_0.registers[r] == v,
        step(s)->Ok_0.eip == s.eip + 5,
        step(s)->Ok_0.registers.len() == REGISTER_NUM,
        forall|other: int|
            0 <= other < REGISTER_NUM && other != r ==> step(s)->Ok_0.registers[other]
                == s.registers[other],
        step(s)->Ok_0.eflags == s.eflags,
        step(s)->Ok_0.memory == s.memory,
{
}

/// A short jump at position `p` with displacement `d` sets the instruction
/// pointer to `p + d + 2`, taken as a sum of signed numbers, and changes
/// nothing else, whenever that sum is an address of the memory image. When
/// it is not, the jump is a fault.
pub proof fn lemma_short_jump(s: MachineState, d: i8)
    requires
        s.wf(),
        in_image(s.memory, s.eip as int, 2),
        s.memory[s.eip as int] == OP_SHORT_JUMP,
        read_i8(s.memory, s.eip + 1) == d,
    ensures
        in_image(s.memory, s.eip + d + 2, 1) ==> step(s) is Ok && step(s)->Ok_0.eip == s.eip + d
            + 2 && step(s)->Ok_0 == s.with_eip(s.eip + d + 2),
        !in_image(s.memory, s.eip + d + 2, 1) ==> step(s) == Err::<MachineState, Fault>(
            Fault::JumpOutOfRange { eip: s.eip, displacement: d as i32 },
        ),
{
}

/// A near jump at position `p` with displacement `d` sets the instruction
/// pointer to `p + d + 5`, taken as a sum of signed numbers, and changes
/// nothing else, whenever that sum is an address of the memory image. When
/// it is not, the jump is a fault.
pub proof fn lemma_near_jump(s: MachineState, d: i32)
    requires
        s.wf(),
        in_image(s.memory, s.eip as int, 5),
        s.memory[s.eip as int] == OP_NEAR_JUMP,
        read_i32(s.memory, s.eip + 1) == d,
    ensures
        in_image(s.memory, s.eip + d + 5, 1) ==> step(s) is Ok && step(s)->Ok_0.eip == s.eip + d
            + 5 && step(s)->Ok_0 == s.with_eip(s.eip + d + 5),
        !in_image(s.memory, s.eip + d + 5, 1) ==> step(s) == Err::<MachineState, Fault>(
            Fault::JumpOutOfRange { eip: s.eip, displacement: d },
        ),
{
}

/// No instruction writes the memory or the flags, and every instruction
/// leaves the machine in a well-formed state whose instruction pointer is
/// an address of the memory image or the address just past its end.
pub proof fn lemma_step_frame(s: MachineState)
    requires
        s.wf(),
        step(s) is Ok,
    ensures
        step(s)->Ok_0.wf(),
        step(s)->Ok_0.memory == s.memory,
        step(s)->Ok_0.eflags == s.eflags,
        step(s)->Ok_0.eip <= s.memory.len(),
{
}

/// A byte that selects no instruction stops the machine where it stands:
/// the run ends with the fault that names the byte and its address, and no
/// register, flag or byte of memory has changed.
pub proof fn lemma_unimplemented_opcode_stops(s: MachineState, steps: nat)
    requires
        can_fetch(s),
        !is_implemented(s.memory[s.eip as int]),
        steps > 0,
    ensures
        step(s) == Err::<MachineState, Fault>(
            Fault::UnimplementedOpcode { eip: s.eip, opcode: s.memory[s.eip as int] },
        ),
        run(s, steps) == (
            s,
            Err::<RunState, Fault>(
                Fault::UnimplementedOpcode { eip: s.eip, opcode: s.memory[s.eip as int] },
            ),
        ),
{
}

/// A short jump onto itself, anywhere but at address 0, never ends: however
/// many steps a run is given, it uses them all and leaves the machine
/// running in the state it started from.
pub proof fn lemma_self_jump_keeps_running(s: MachineState, steps: nat)
    requires
        s.wf(),
        s.eip != 0,
        in_image(s.memory, s.eip as int, 2),
        s.memory[s.eip as int] == OP_SHORT_JUMP,
        read_i8(s.memory, s.eip + 1) == -2,
    ensures
        run(s, steps) == (s, Ok::<RunState, Fault>(RunState::Running)),
    decreases steps,
{
    if steps > 0 {
        lemma_short_jump(s, -2i8);
        assert(step(s)->Ok_0 == s);
        lemma_self_jump_keeps_running(s, (steps - 1) as nat);
    }
}

/// A run is a function of the state it starts from and of its bound: from
/// equal registers, flags, instruction pointer and memory, two runs of the
/// same bound end alike, in equal states.
pub proof fn lemma_run_deterministic(a: MachineState, b: MachineState, steps: nat)
    requires
        a.registers =~= b.registers,
        a.eflags == b.eflags,
        a.eip == b.eip,
        a.memory =~= b.memory,
    ensures
        run(a, steps) == run(b, steps),
{
}

/// How a run can end. It ends in a well-formed state with the memory and
/// the flags it started with. If it reports a halt, the instruction pointer
/// is 0 or outside the memory image. If it reports that the machine is
/// running, the instruction pointer is inside the memory image. If it
/// reports a fault, the instruction at the instruction pointer is the one
/// that faults.
pub proof fn lemma_run_outcome(s: MachineState, steps: nat)
    requires
        s.wf(),
    ensures
        run(s, steps).0.wf(),
        run(s, steps).0.memory == s.memory,
        run(s, steps).0.eflags == s.eflags,
        run(s, steps).1 == Ok::<RunState, Fault>(RunState::Halted) ==> run(s, steps).0.eip == 0
            || !can_fetch(run(s, steps).0),
        run(s, steps).1 == Ok::<RunState, Fault>(RunState::Running) ==> can_fetch(
            run(s, steps).0,
        ),
        run(s, steps).1 is Err ==> can_fetch(run(s, steps).0) && step(run(s, steps).0) == Err::<
            MachineState,
            Fault,
        >(run(s, steps).1->Err_0),
    decreases steps,
{
    if can_fetch(s) && steps > 0 {
        if let Ok(next) = step(s) {
            lemma_step_frame(s);
            if next.eip != 0 {
                lemma_run_outcome(next, (steps - 1) as nat);
            }
        }
    }
}

/// The bound only cuts a run short. A run that ended in a halt or a fault
/// ends in the same way and the same state under every larger bound.
pub proof fn lemma_run_more_steps(s: MachineState, steps: nat, more: nat)
    requires
        run(s, steps).1 != Ok::<RunState, Fault>(RunState::Running),
        steps <= more,
    ensures
        run(s, more) == run(s, steps),
    decreases steps,
{
    if can_fetch(s) && steps > 0 {
        if let Ok(next) = step(s) {
            if next.eip != 0 {
                lemma_run_more_steps(next, (steps - 1) as nat, (more - 1) as nat);
            }
        }
    }
}

/// A run can be taken up where it stopped: a run of `first + second` steps
/// is a run of `first` steps and, if that left the machine running, a run
/// of `second` steps from the state it reached.
pub proof fn lemma_run_resumes(s: MachineState, first: nat, second: nat)
    ensures
        run(s, first + second) == if run(s, first).1 == Ok::<RunState, Fault>(RunState::Running) {
            run(run(s, first).0, second)
        } else {
            run(s, first)
        },
    decreases first,
{
    if can_fetch(s) && first > 0 {
        if let Ok(next) = step(s) {
            if next.eip != 0 {
                lemma_run_resumes(next, (first - 1) as nat, second);
            }
        }
    }
}

} // verus!
