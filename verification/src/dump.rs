//! The register dump: each register and the instruction pointer as a line
//! of text, the value in upper-case hexadecimal of at least eight digits.

use crate::emulator::Emulator;
use crate::machine::{run, MachineState, Register};
use vstd::prelude::*;
use vstd::string::{StrSliceExecFns, StringExecFns};

verus! {

/// The character of one hexadecimal digit.
pub open spec fn hex_digit(n: nat) -> char {
    "0123456789ABCDEF"@[n as int]
}

/// The hexadecimal digits of `value`, most significant first, with no
/// leading zero but for the number 0 itself.
pub open spec fn hex_digits(value: nat) -> Seq<char>
    decreases value,
{
    if value < 16 {
        seq![hex_digit(value)]
    } else {
        hex_digits(value / 16).push(hex_digit(value % 16))
    }
}

/// `digits` behind as many zeros as bring it to `width` characters; as it is
/// where it has that many.
pub open spec fn zero_padded(digits: Seq<char>, width: nat) -> Seq<char> {
    if digits.len() >= width {
        digits
    } else {
        Seq::new((width - digits.len()) as nat, |i: int| '0') + digits
    }
}

/// `value` in hexadecimal, in eight digits or as many more as it needs.
pub open spec fn hex8(value: nat) -> Seq<char> {
    zero_padded(hex_digits(value), 8)
}

/// One line of the dump: the name, an equals sign between two spaces, the
/// value.
pub open spec fn dump_line(name: Seq<char>, value: nat) -> Seq<char> {
    name + " = "@ + hex8(value)
}

/// The lines of the dump of a state: the eight registers in the order of
/// their slots, then the instruction pointer.
pub open spec fn register_dump(s: MachineState) -> Seq<Seq<char>> {
    seq![
        dump_line("EAX"@, s.registers[0] as nat),
        dump_line("ECX"@, s.registers[1] as nat),
        dump_line("EDX"@, s.registers[2] as nat),
        dump_line("EBX"@, s.registers[3] as nat),
        dump_line("ESP"@, s.registers[4] as nat),
        dump_line("EBP"@, s.registers[5] as nat),
        dump_line("ESI"@, s.registers[6] as nat),
        dump_line("EDI"@, s.registers[7] as nat),
        dump_line("EIP"@, s.eip as nat),
    ]
}

/// A value below 16^8 has exactly eight digits after padding.
pub proof fn lemma_hex8_of_word(value: u32)
    ensures
        hex8(value as nat).len() == 8,
{
    let v = value as nat;
    reveal_with_fuel(hex_digits, 9);
    assert(hex_digits(v).len() <= 8);
}

/// Two runs of the same bound from equal registers, flags, instruction
/// pointer and memory end with the same dump, character for character.
pub proof fn lemma_same_run_same_dump(a: MachineState, b: MachineState, steps: nat)
    requires
        a.registers =~= b.registers,
        a.eflags == b.eflags,
        a.eip == b.eip,
        a.memory =~= b.memory,
    ensures
        run(a, steps) == run(b, steps),
        register_dump(run(a, steps).0) == register_dump(run(b, steps).0),
{
}

/// The text of one hexadecimal digit.
fn digit_text(n: u8) -> (text: &'static str)
    requires
        n < 16,
    ensures
        text@ == seq![hex_digit(n as nat)],
{
    let digits = "0123456789ABCDEF";
    proof {
        reveal_strlit("0123456789ABCDEF");
    }
    let text = digits.substring_ascii(n as usize, n as usize + 1);
    assert(text@ =~= seq![hex_digit(n as nat)]);
    text
}

/// The digits that `low` holds least significant first, most significant
/// first.
spec fn digits_from(low: Seq<u8>) -> Seq<char> {
    Seq::new(low.len(), |i: int| hex_digit(low[low.len() - 1 - i] as nat))
}

/// `value` in upper-case hexadecimal, in eight digits or as many more as it
/// needs.
pub fn format_hex8(value: u64) -> (text: String)
    ensures
        text@ == hex8(value as nat),
{
    let mut low: Vec<u8> = Vec::new();
    low.push((value % 16) as u8);
    let mut rest = value / 16;
    assert(digits_from(low@) =~= seq![hex_digit((value % 16) as nat)]);
    while rest > 0
        invariant
            low@.len() >= 1,
            forall|i: int| 0 <= i < low@.len() ==> low@[i] < 16,
            hex_digits(value as nat) == if rest > 0 {
                hex_digits(rest as nat) + digits_from(low@)
            } else {
                digits_from(low@)
            },
        decreases rest,
    {
        let ghost before = low@;
        let digit = (rest % 16) as u8;
        low.push(digit);
        assert(digits_from(low@) =~= seq![hex_digit(digit as nat)] + digits_from(before));
        assert(hex_digits(rest as nat) =~= if rest / 16 > 0 {
            hex_digits((rest / 16) as nat) + seq![hex_digit(digit as nat)]
        } else {
            seq![hex_digit(digit as nat)]
        });
        rest = rest / 16;
    }
    let mut text = String::from_str("");
    proof {
        reveal_strlit("");
        reveal_strlit("0");
    }
    let ghost padding = if low@.len() >= 8 {
        0
    } else {
        8 - low@.len()
    };
    let mut width = low.len();
    while width < 8
        invariant
            low@.len() <= width <= low@.len() + padding,
            padding == if low@.len() >= 8 {
                0
            } else {
                8 - low@.len()
            },
            "0"@ == seq!['0'],
            text@ == Seq::new((width - low@.len()) as nat, |i: int| '0'),
        decreases 8 - width,
    {
        text.append("0");
        width += 1;
        assert(text@ =~= Seq::new((width - low@.len()) as nat, |i: int| '0'));
    }
    let ghost zeros = text@;
    let mut i = low.len();
    while i > 0
        invariant
            i <= low@.len(),
            forall|j: int| 0 <= j < low@.len() ==> low@[j] < 16,
            text@ == zeros + digits_from(low@).subrange(0, low@.len() - i),
        decreases i,
    {
        i -= 1;
        text.append(digit_text(low[i]));
        assert(text@ =~= zeros + digits_from(low@).subrange(0, low@.len() - i));
    }
    assert(text@ =~= zero_padded(digits_from(low@), 8));
    text
}

/// One line of the dump.
fn format_line(name: &str, value: u64) -> (line: String)
    ensures
        line@ == dump_line(name@, value as nat),
{
    let mut line = String::from_str(name);
    line.append(" = ");
    let digits = format_hex8(value);
    line.append(digits.as_str());
    line
}

impl Emulator {
    /// The dump of the machine: one line for each register, in the order of
    /// their slots, and one for the instruction pointer, each of the form
    /// `EAX = 0000002A`.
    pub fn dump_register(&self) -> (lines: Vec<String>)
        ensures
            lines@.len() == 9,
            forall|i: int| 0 <= i < 9 ==> (#[trigger] lines@[i])@ == register_dump(self@)[i],
    {
        let mut lines: Vec<String> = Vec::new();
        lines.push(format_line("EAX", self.register(Register::EAX) as u64));
        lines.push(format_line("ECX", self.register(Register::ECX) as u64));
        lines.push(format_line("EDX", self.register(Register::EDX) as u64));
        lines.push(format_line("EBX", self.register(Register::EBX) as u64));
        lines.push(format_line("ESP", self.register(Register::ESP) as u64));
        lines.push(format_line("EBP", self.register(Register::EBP) as u64));
        lines.push(format_line("ESI", self.register(Register::ESI) as u64));
        lines.push(format_line("EDI", self.register(Register::EDI) as u64));
        lines.push(format_line("EIP", self.eip() as u64));
        lines
    }
}

} // verus!
