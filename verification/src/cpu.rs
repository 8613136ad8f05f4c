//! The processor core: registers, status flags and instruction execution.
//!
//! Execution is specified against a small-step model: [`spec_step`] maps a
//! register file and a memory image to the machine state after one
//! fetch/decode/execute cycle, together with the event that step reported.
//! The executable `exec` is proved to implement `spec_step` exactly, and
//! the run loops are proved to iterate it.
//!
//! Two behaviours of this engine are deliberate choices, recorded here
//! once: the Zero and Negative flags are recomputed from the register that
//! an instruction actually modified (for every instruction documented to
//! affect them), and the Overflow flag is never computed — add-with-carry
//! maintains Carry, Zero and Negative only.

use vstd::prelude::*;

use crate::bits::Bit;
use crate::bits::bits_to_i8;
use crate::bits::lemma_u8_bit_ops;
use crate::bits::i8_of_u8;
use crate::bits::i8_to_bits;
use crate::bits::u8_clear_bit;
use crate::bits::u8_get_bit;
use crate::bits::u8_of_i8;
use crate::bits::u8_set_bit;
use crate::mem::MEM;
use crate::mem::MEM_SIZE;
use crate::mem::spec_set;
use crate::mem::writable;

verus! {

/// Bit position of the Carry flag in the status register.
pub const FLAG_CARRY: u8 = 0;

/// Bit position of the Zero flag.
pub const FLAG_ZERO: u8 = 1;

/// Bit position of the Interrupt-Disable flag.
pub const FLAG_INTERRUPT: u8 = 2;

/// Bit position of the Decimal flag (unused by this engine's arithmetic).
pub const FLAG_DECIMAL: u8 = 3;

/// Bit position of the Break flag.
pub const FLAG_BREAK: u8 = 4;

/// Bit position of the Overflow flag (never computed by this engine).
pub const FLAG_OVERFLOW: u8 = 6;

/// Bit position of the Negative flag.
pub const FLAG_NEGATIVE: u8 = 7;

/// The processor register file.
#[derive(Clone, Copy, PartialEq, Eq, Structural, Debug)]
pub struct CPU {
    /// Program counter: address of the next instruction byte.
    pub pc: u16,
    /// Stack pointer: index into the stack page at 0x0100. Pushes write
    /// then decrement; pulls increment then read.
    pub sp: u8,
    /// Status register, one flag per bit: Carry, Zero, Interrupt-Disable,
    /// Decimal, Break, unused (always 1), Overflow, Negative.
    pub sr: u8,
    /// Accumulator, a signed 8-bit register.
    pub a: i8,
    /// Index register X.
    pub x: i8,
    /// Index register Y.
    pub y: i8,
}

/// What a single instruction step reported.
#[derive(Clone, Copy, PartialEq, Eq, Structural, Debug)]
pub enum StepEvent {
    /// The instruction executed without incident.
    Done,
    /// An unrecognized opcode was fetched from `addr`; execution continues
    /// past it.
    BadOpcode { addr: u16, opcode: u8 },
    /// An unprivileged store into a protected region was refused; the byte
    /// at `addr` is unchanged.
    WriteRejected { addr: u16, value: u8 },
    /// The diagnostic exit instruction was executed; the driver should
    /// stop the machine.
    Exit,
    /// The diagnostic print instruction read `value`; the driver may
    /// display it.
    Print { value: u8 },
}

// ---------------------------------------------------------------------------
// The small-step model
// ---------------------------------------------------------------------------

/// Machine state and event after one instruction step.
pub struct Step {
    /// The register file after the step.
    pub cpu: CPU,
    /// The memory contents after the step.
    pub mem: Seq<u8>,
    /// What the step reported.
    pub ev: StepEvent,
}

/// Machine state after a number of instruction steps.
pub struct Run {
    /// The register file after the steps.
    pub cpu: CPU,
    /// The memory contents after the steps.
    pub mem: Seq<u8>,
    /// Whether an exit instruction stopped the machine.
    pub exited: bool,
}

/// The byte stored at `addr`.
pub open spec fn fetch(m: Seq<u8>, addr: u16) -> u8 {
    m[addr as int]
}

/// A 16-bit address assembled little-endian from two bytes.
pub open spec fn word(lo: u8, hi: u8) -> u16 {
    (lo + hi * 0x100) as u16
}

/// The program counter after consuming one byte: advances by one, wrapping
/// at the top of the address space.
pub open spec fn pc_inc(pc: u16) -> u16 {
    if pc == 0xFFFF {
        0
    } else {
        (pc + 1) as u16
    }
}

/// The stack pointer after a push: decrements with 8-bit wraparound.
pub open spec fn sp_dec(sp: u8) -> u8 {
    if sp == 0 {
        0xFF
    } else {
        (sp - 1) as u8
    }
}

/// The stack pointer before a pull's read: increments with 8-bit
/// wraparound.
pub open spec fn sp_inc(sp: u8) -> u8 {
    if sp == 0xFF {
        0
    } else {
        (sp + 1) as u8
    }
}

/// A signed register incremented by one with 8-bit wraparound.
pub open spec fn reg_inc(v: i8) -> i8 {
    if v == 127 {
        -128i8
    } else {
        (v + 1) as i8
    }
}

/// A signed register decremented by one with 8-bit wraparound.
pub open spec fn reg_dec(v: i8) -> i8 {
    if v == -128 {
        127i8
    } else {
        (v - 1) as i8
    }
}

/// The status register with flag bit `n` forced to `on`.
pub open spec fn flag_assign(sr: u8, n: u8, on: bool) -> u8 {
    if on {
        u8_set_bit(sr, n)
    } else {
        u8_clear_bit(sr, n)
    }
}

/// True iff flag bit `n` of the status register is set.
pub open spec fn flag_get(sr: u8, n: u8) -> bool {
    u8_get_bit(sr, n)
}

/// The status register after an instruction that recomputes Zero and
/// Negative from the value `v` of the register it modified: Zero iff
/// `v == 0`, Negative iff the sign bit of `v` is set.
pub open spec fn spec_zn(sr: u8, v: i8) -> u8 {
    flag_assign(flag_assign(sr, FLAG_ZERO, v == 0), FLAG_NEGATIVE, v < 0)
}

/// The low byte of a mathematical integer.
pub open spec fn low_byte(x: int) -> u8 {
    (x % 0x100) as u8
}

/// Add-with-carry: accumulator and operand are widened to 16 bits through
/// their unsigned bit patterns and added; Carry is set iff bit 8 of the
/// sum is set; the sum is truncated back into the accumulator; Zero and
/// Negative are recomputed from the new accumulator value.
pub open spec fn spec_adc(c: CPU, val: u8) -> CPU {
    let sum = u8_of_i8(c.a) + val;
    let a2 = i8_of_u8(low_byte(sum));
    CPU { a: a2, sr: spec_zn(flag_assign(c.sr, FLAG_CARRY, sum >= 0x100), a2), ..c }
}

/// Arithmetic shift left of the accumulator: Carry receives the old sign
/// bit, the accumulator shifts left one position with bit 0 forced to
/// zero, and Zero/Negative are recomputed from the result.
pub open spec fn spec_asl(c: CPU) -> CPU {
    let p = u8_of_i8(c.a);
    let a2 = i8_of_u8(low_byte(2 * p));
    CPU { a: a2, sr: spec_zn(flag_assign(c.sr, FLAG_CARRY, u8_get_bit(p, 7)), a2), ..c }
}

/// A push: the byte is written at 0x0100 + SP as a privileged write, then
/// SP decrements with wraparound.
pub open spec fn spec_push(c: CPU, m: Seq<u8>, val: u8) -> (CPU, Seq<u8>) {
    (CPU { sp: sp_dec(c.sp), ..c }, m.update(0x100 + c.sp as int, val))
}

/// A pull: SP increments with wraparound, then the byte at 0x0100 + SP is
/// read.
pub open spec fn spec_pull(c: CPU, m: Seq<u8>) -> (CPU, u8) {
    let sp2 = sp_inc(c.sp);
    (CPU { sp: sp2, ..c }, fetch(m, (0x100 + sp2) as u16))
}

/// The power-on/reset state: PC is loaded little-endian from the reset
/// vector at 0xFFFC/0xFFFD, SP becomes 0xFD, the status register keeps
/// only its always-one bit, and the data registers clear.
pub open spec fn spec_reset(m: Seq<u8>) -> CPU {
    CPU {
        pc: word(fetch(m, 0xFFFC), fetch(m, 0xFFFD)),
        sp: 0xFD,
        sr: 0x20,
        a: 0,
        x: 0,
        y: 0,
    }
}

/// A vectored interrupt: push the PC high byte, the PC low byte and the
/// status register (three privileged pushes), optionally set the Break
/// flag, then load PC little-endian from the vector pair at `vector`.
pub open spec fn spec_vectored(c: CPU, m: Seq<u8>, vector: u16, set_break: bool) -> (CPU, Seq<u8>) {
    let hi = (c.pc / 0x100) as u8;
    let lo = (c.pc % 0x100) as u8;
    let (c1, m1) = spec_push(c, m, hi);
    let (c2, m2) = spec_push(c1, m1, lo);
    let (c3, m3) = spec_push(c2, m2, c.sr);
    let c4 = if set_break {
        CPU { sr: u8_set_bit(c3.sr, FLAG_BREAK), ..c3 }
    } else {
        c3
    };
    (CPU { pc: word(fetch(m3, vector), fetch(m3, pc_inc(vector))), ..c4 }, m3)
}

/// The four recognized interrupt requests.
pub enum IntKind {
    /// Software interrupt: vectors through 0xFFFE/0xFFFF and sets Break.
    Brk,
    /// Hardware interrupt request: vectors through 0xFFFE/0xFFFF.
    Irq,
    /// Non-maskable interrupt: vectors through 0xFFFA/0xFFFB.
    Nmi,
    /// Reset: no stack traffic; reloads PC from 0xFFFC/0xFFFD and restores
    /// the power-on register state.
    Reset,
}

/// Which interrupt a request name denotes, if any.
pub open spec fn int_kind_of(name: Seq<char>) -> Option<IntKind> {
    if name == "BRK"@ {
        Some(IntKind::Brk)
    } else if name == "IRQ"@ {
        Some(IntKind::Irq)
    } else if name == "NMI"@ {
        Some(IntKind::Nmi)
    } else if name == "RESET"@ {
        Some(IntKind::Reset)
    } else {
        None
    }
}

/// The machine state after dispatching an interrupt of the given kind.
pub open spec fn spec_interrupt(c: CPU, m: Seq<u8>, kind: IntKind) -> (CPU, Seq<u8>) {
    match kind {
        IntKind::Brk => spec_vectored(c, m, 0xFFFE, true),
        IntKind::Irq => spec_vectored(c, m, 0xFFFE, false),
        IntKind::Nmi => spec_vectored(c, m, 0xFFFA, false),
        IntKind::Reset => (spec_reset(m), m),
    }
}

/// One fetch/decode/execute cycle of the machine, as a mathematical
/// function: fetch the opcode at PC, advance PC, dispatch. Operand bytes
/// are consumed by the same advancing fetch, so multi-byte instructions
/// advance PC accordingly. An unrecognized opcode changes no state beyond
/// the advanced PC and is reported; the machine never halts on it.
pub open spec fn spec_step(c: CPU, m: Seq<u8>) -> Step {
    let op = fetch(m, c.pc);
    let c1 = CPU { pc: pc_inc(c.pc), ..c };
    match op {
        0x00u8 => {  // BRK
            let (c2, m2) = spec_vectored(c1, m, 0xFFFE, true);
            Step { cpu: c2, mem: m2, ev: StepEvent::Done }
        },
        0x02u8 => {  // EXIT (diagnostic)
            Step { cpu: c1, mem: m, ev: StepEvent::Exit }
        },
        0x03u8 => {  // PRINT (diagnostic)
            let lo = fetch(m, c1.pc);
            let c2 = CPU { pc: pc_inc(c1.pc), ..c1 };
            let hi = fetch(m, c2.pc);
            let c3 = CPU { pc: pc_inc(c2.pc), ..c2 };
            Step { cpu: c3, mem: m, ev: StepEvent::Print { value: fetch(m, word(lo, hi)) } }
        },
        0x08u8 => {  // PHP
            let (c2, m2) = spec_push(c1, m, c1.sr);
            Step { cpu: c2, mem: m2, ev: StepEvent::Done }
        },
        0x0Au8 => {  // ASL A
            Step { cpu: spec_asl(c1), mem: m, ev: StepEvent::Done }
        },
        0x18u8 => {  // CLC
            Step { cpu: CPU { sr: u8_clear_bit(c1.sr, FLAG_CARRY), ..c1 }, mem: m, ev: StepEvent::Done }
        },
        0x28u8 => {  // PLP
            let (c2, v) = spec_pull(c1, m);
            Step { cpu: CPU { sr: v, ..c2 }, mem: m, ev: StepEvent::Done }
        },
        0x38u8 => {  // SEC
            Step { cpu: CPU { sr: u8_set_bit(c1.sr, FLAG_CARRY), ..c1 }, mem: m, ev: StepEvent::Done }
        },
        0x48u8 => {  // PHA
            let (c2, m2) = spec_push(c1, m, u8_of_i8(c1.a));
            Step { cpu: c2, mem: m2, ev: StepEvent::Done }
        },
        0x4Cu8 => {  // JMP absolute
            let lo = fetch(m, c1.pc);
            let c2 = CPU { pc: pc_inc(c1.pc), ..c1 };
            let hi = fetch(m, c2.pc);
            let c3 = CPU { pc: pc_inc(c2.pc), ..c2 };
            Step { cpu: CPU { pc: word(lo, hi), ..c3 }, mem: m, ev: StepEvent::Done }
        },
        0x58u8 => {  // CLI
            Step {
                cpu: CPU { sr: u8_clear_bit(c1.sr, FLAG_INTERRUPT), ..c1 },
                mem: m,
                ev: StepEvent::Done,
            }
        },
        0x65u8 => {  // ADC zero page
            let zp = fetch(m, c1.pc);
            let c2 = CPU { pc: pc_inc(c1.pc), ..c1 };
            Step { cpu: spec_adc(c2, fetch(m, zp as u16)), mem: m, ev: StepEvent::Done }
        },
        0x68u8 => {  // PLA
            let (c2, v) = spec_pull(c1, m);
            Step { cpu: CPU { a: i8_of_u8(v), ..c2 }, mem: m, ev: StepEvent::Done }
        },
        0x69u8 => {  // ADC immediate
            let val = fetch(m, c1.pc);
            let c2 = CPU { pc: pc_inc(c1.pc), ..c1 };
            Step { cpu: spec_adc(c2, val), mem: m, ev: StepEvent::Done }
        },
        0x6Cu8 => {  // JMP indirect
            let pl = fetch(m, c1.pc);
            let c2 = CPU { pc: pc_inc(c1.pc), ..c1 };
            let ph = fetch(m, c2.pc);
            let c3 = CPU { pc: word(pl, ph), ..c2 };
            let lo = fetch(m, c3.pc);
            let c4 = CPU { pc: pc_inc(c3.pc), ..c3 };
            let hi = fetch(m, c4.pc);
            let c5 = CPU { pc: pc_inc(c4.pc), ..c4 };
            Step { cpu: CPU { pc: word(lo, hi), ..c5 }, mem: m, ev: StepEvent::Done }
        },
        0x6Du8 => {  // ADC absolute
            let lo = fetch(m, c1.pc);
            let c2 = CPU { pc: pc_inc(c1.pc), ..c1 };
            let hi = fetch(m, c2.pc);
            let c3 = CPU { pc: pc_inc(c2.pc), ..c2 };
            Step { cpu: spec_adc(c3, fetch(m, word(lo, hi))), mem: m, ev: StepEvent::Done }
        },
        0x78u8 => {  // SEI
            Step {
                cpu: CPU { sr: u8_set_bit(c1.sr, FLAG_INTERRUPT), ..c1 },
                mem: m,
                ev: StepEvent::Done,
            }
        },
        0x84u8 => {  // STY zero page
            let addr = fetch(m, c1.pc) as u16;
            let c2 = CPU { pc: pc_inc(c1.pc), ..c1 };
            spec_store(c2, m, addr, u8_of_i8(c1.y))
        },
        0x85u8 => {  // STA zero page
            let addr = fetch(m, c1.pc) as u16;
            let c2 = CPU { pc: pc_inc(c1.pc), ..c1 };
            spec_store(c2, m, addr, u8_of_i8(c1.a))
        },
        0x86u8 => {  // STX zero page
            let addr = fetch(m, c1.pc) as u16;
            let c2 = CPU { pc: pc_inc(c1.pc), ..c1 };
            spec_store(c2, m, addr, u8_of_i8(c1.x))
        },
        0x88u8 => {  // DEY
            let y2 = reg_dec(c1.y);
            Step { cpu: CPU { y: y2, sr: spec_zn(c1.sr, y2), ..c1 }, mem: m, ev: StepEvent::Done }
        },
        0x8Au8 => {  // TXA
            Step {
                cpu: CPU { a: c1.x, sr: spec_zn(c1.sr, c1.x), ..c1 },
                mem: m,
                ev: StepEvent::Done,
            }
        },
        0x8Du8 => {  // STA absolute
            let lo = fetch(m, c1.pc);
            let c2 = CPU { pc: pc_inc(c1.pc), ..c1 };
            let hi = fetch(m, c2.pc);
            let c3 = CPU { pc: pc_inc(c2.pc), ..c2 };
            spec_store(c3, m, word(lo, hi), u8_of_i8(c1.a))
        },
        0x98u8 => {  // TYA
            Step {
                cpu: CPU { a: c1.y, sr: spec_zn(c1.sr, c1.y), ..c1 },
                mem: m,
                ev: StepEvent::Done,
            }
        },
        0x9Au8 => {  // TXS (through the stack path: pushes X)
            let (c2, m2) = spec_push(c1, m, u8_of_i8(c1.x));
            Step { cpu: c2, mem: m2, ev: StepEvent::Done }
        },
        0xA8u8 => {  // TAY
            Step {
                cpu: CPU { y: c1.a, sr: spec_zn(c1.sr, c1.a), ..c1 },
                mem: m,
                ev: StepEvent::Done,
            }
        },
        0xA9u8 => {  // LDA immediate (no flag update in this engine)
            let val = fetch(m, c1.pc);
            let c2 = CPU { pc: pc_inc(c1.pc), ..c1 };
            Step { cpu: CPU { a: i8_of_u8(val), ..c2 }, mem: m, ev: StepEvent::Done }
        },
        0xAAu8 => {  // TAX
            Step {
                cpu: CPU { x: c1.a, sr: spec_zn(c1.sr, c1.a), ..c1 },
                mem: m,
                ev: StepEvent::Done,
            }
        },
        0xB8u8 => {  // CLV
            Step {
                cpu: CPU { sr: u8_clear_bit(c1.sr, FLAG_OVERFLOW), ..c1 },
                mem: m,
                ev: StepEvent::Done,
            }
        },
        0xBAu8 => {  // TSX (through the stack path: pulls into X)
            let (c2, v) = spec_pull(c1, m);
            let x2 = i8_of_u8(v);
            Step { cpu: CPU { x: x2, sr: spec_zn(c2.sr, x2), ..c2 }, mem: m, ev: StepEvent::Done }
        },
        0xC8u8 => {  // INY
            let y2 = reg_inc(c1.y);
            Step { cpu: CPU { y: y2, sr: spec_zn(c1.sr, y2), ..c1 }, mem: m, ev: StepEvent::Done }
        },
        0xCAu8 => {  // DEX
            let x2 = reg_dec(c1.x);
            Step { cpu: CPU { x: x2, sr: spec_zn(c1.sr, x2), ..c1 }, mem: m, ev: StepEvent::Done }
        },
        0xD8u8 => {  // CLD
            Step {
                cpu: CPU { sr: u8_clear_bit(c1.sr, FLAG_DECIMAL), ..c1 },
                mem: m,
                ev: StepEvent::Done,
            }
        },
        0xE8u8 => {  // INX
            let x2 = reg_inc(c1.x);
            Step { cpu: CPU { x: x2, sr: spec_zn(c1.sr, x2), ..c1 }, mem: m, ev: StepEvent::Done }
        },
        0xEAu8 => {  // NOP
            Step { cpu: c1, mem: m, ev: StepEvent::Done }
        },
        0xF8u8 => {  // SED
            Step {
                cpu: CPU { sr: u8_set_bit(c1.sr, FLAG_DECIMAL), ..c1 },
                mem: m,
                ev: StepEvent::Done,
            }
        },
        _ => {
            Step { cpu: c1, mem: m, ev: StepEvent::BadOpcode { addr: c.pc, opcode: op } }
        },
    }
}

/// An unprivileged store of `val` at `addr`: the write lands when the
/// region protection allows it, and is reported and discarded otherwise.
pub open spec fn spec_store(c: CPU, m: Seq<u8>, addr: u16, val: u8) -> Step {
    Step {
        cpu: c,
        mem: spec_set(m, addr, val, false),
        ev: if writable(addr, false) {
            StepEvent::Done
        } else {
            StepEvent::WriteRejected { addr, value: val }
        },
    }
}

/// The machine state after `n` instruction steps, stopping permanently
/// once an exit instruction is executed.
pub open spec fn spec_run(c: CPU, m: Seq<u8>, n: nat) -> Run
    decreases n,
{
    if n == 0 {
        Run { cpu: c, mem: m, exited: false }
    } else {
        let prev = spec_run(c, m, (n - 1) as nat);
        if prev.exited {
            prev
        } else {
            let s = spec_step(prev.cpu, prev.mem);
            Run { cpu: s.cpu, mem: s.mem, exited: s.ev is Exit }
        }
    }
}

/// Once a run has exited, further steps change nothing.
pub proof fn lemma_run_exit_sticky(c: CPU, m: Seq<u8>, i: nat, j: nat)
    requires
        i <= j,
        spec_run(c, m, i).exited,
    ensures
        spec_run(c, m, j) == spec_run(c, m, i),
    decreases j - i,
{
    if j > i {
        lemma_run_exit_sticky(c, m, i, (j - 1) as nat);
    }
}

/// Whether a run state stops the unbounded run loop: the machine exited,
/// or the program counter reached the top of the address space.
pub open spec fn halted(r: Run) -> bool {
    r.exited || r.cpu.pc >= 0xFFFF
}

/// What the unbounded run loop guarantees: the final state is the run
/// state after `n` steps, no earlier state already satisfied the halting
/// condition, and the run either halted or exhausted the loop's step
/// budget of `u64::MAX` iterations (the termination measure the verifier
/// demands; no practical program reaches it).
pub open spec fn fexec_post(c0: CPU, m0: Seq<u8>, c1: CPU, m1: Seq<u8>, n: nat) -> bool {
    let r = spec_run(c0, m0, n);
    &&& c1 == r.cpu
    &&& m1 == r.mem
    &&& halted(r) || n == u64::MAX
    &&& forall|k: nat| k < n ==> !halted(#[trigger] spec_run(c0, m0, k))
}

// ---------------------------------------------------------------------------
// The executable processor
// ---------------------------------------------------------------------------

/// String equality by character-wise comparison.
fn str_eq(a: &str, b: &str) -> (r: bool)
    ensures
        r == (a@ == b@),
{
    let na = a.unicode_len();
    let nb = b.unicode_len();
    if na != nb {
        return false;
    }
    let mut i: usize = 0;
    while i < na
        invariant
            i <= na,
            na == a@.len(),
            nb == b@.len(),
            na == nb,
            forall|k: int| 0 <= k < i ==> a@[k] == b@[k],
        decreases na - i,
    {
        if a.get_char(i) != b.get_char(i) {
            return false;
        }
        i += 1;
    }
    proof {
        assert(a@ =~= b@);
    }
    true
}

impl CPU {
    /// Loads PC little-endian from the reset vector at 0xFFFC/0xFFFD and
    /// restores the power-on register state: SP = 0xFD, SR = 0x20 (only
    /// the always-one bit), A = X = Y = 0.
    pub fn reset(&mut self, mem: &mut MEM)
        requires
            old(mem).wf(),
        ensures
            final(mem).wf(),
            final(mem)@ == old(mem)@,
            *final(self) == spec_reset(old(mem)@),
    {
        let lo = mem.get(0xFFFC);
        let hi = mem.get(0xFFFD);
        self.pc = lo as u16 + (hi as u16) * 0x100;
        self.sp = 0xFD;
        self.sr = 0x20;
        self.a = 0;
        self.x = 0;
        self.y = 0;
    }

    /// Constructs a processor and performs the implicit reset against the
    /// given memory.
    pub fn new(mem: &mut MEM) -> (cpu: CPU)
        requires
            old(mem).wf(),
        ensures
            final(mem).wf(),
            final(mem)@ == old(mem)@,
            cpu == spec_reset(old(mem)@),
    {
        let mut newcpu = CPU { pc: 0, sp: 0, sr: 0, a: 0, x: 0, y: 0 };
        newcpu.reset(mem);
        newcpu
    }

    /// Pushes a byte: writes at 0x0100 + SP as a privileged write, then
    /// decrements SP with 8-bit wraparound.
    pub fn push(&mut self, mem: &mut MEM, val: u8)
        requires
            old(mem).wf(),
        ensures
            final(mem).wf(),
            ({
                let r = spec_push(*old(self), old(mem)@, val);
                *final(self) == r.0 && final(mem)@ == r.1
            }),
    {
        let addr: u16 = self.sp as u16 + 0x100;
        mem.set(addr, val, true);
        self.sp = self.sp.wrapping_sub(1);
    }

    /// Pulls a byte: increments SP with 8-bit wraparound, then reads at
    /// 0x0100 + SP.
    pub fn pull(&mut self, mem: &mut MEM) -> (val: u8)
        requires
            old(mem).wf(),
        ensures
            final(mem).wf(),
            final(mem)@ == old(mem)@,
            ({
                let r = spec_pull(*old(self), old(mem)@);
                *final(self) == r.0 && val == r.1
            }),
    {
        self.sp = self.sp.wrapping_add(1);
        let addr: u16 = self.sp as u16 + 0x100;
        mem.get(addr)
    }

    /// Fetches the byte at PC and advances PC by one.
    fn get_next(&mut self, mem: &mut MEM) -> (val: u8)
        requires
            old(mem).wf(),
        ensures
            final(mem).wf(),
            final(mem)@ == old(mem)@,
            val == fetch(old(mem)@, old(self).pc),
            *final(self) == (CPU { pc: pc_inc(old(self).pc), ..*old(self) }),
    {
        let data = mem.get(self.pc);
        self.pc = self.pc.wrapping_add(1);
        data
    }

    /// Recomputes the Zero and Negative flags from the value of the
    /// register an instruction modified.
    fn update_zn(&mut self, v: i8)
        ensures
            *final(self) == (CPU { sr: spec_zn(old(self).sr, v), ..*old(self) }),
    {
        let sr1 = if v == 0 {
            self.sr.set_bit(FLAG_ZERO)
        } else {
            self.sr.unset_bit(FLAG_ZERO)
        };
        let sr2 = if v < 0 {
            sr1.set_bit(FLAG_NEGATIVE)
        } else {
            sr1.unset_bit(FLAG_NEGATIVE)
        };
        self.sr = sr2;
    }

    /// Add-with-carry of an operand byte into the accumulator.
    fn adc(&mut self, val: u8)
        ensures
            *final(self) == spec_adc(*old(self), val),
    {
        let acc = i8_to_bits(self.a);
        let sum: u16 = acc as u16 + val as u16;
        let carry = sum >= 0x100;
        self.sr = if carry {
            self.sr.set_bit(FLAG_CARRY)
        } else {
            self.sr.unset_bit(FLAG_CARRY)
        };
        let a2 = bits_to_i8((sum % 0x100) as u8);
        self.a = a2;
        self.update_zn(a2);
    }

    /// Arithmetic shift left of the accumulator.
    fn asl_acc(&mut self)
        ensures
            *final(self) == spec_asl(*old(self)),
    {
        let p = i8_to_bits(self.a);
        let carry = p.get_bit(7);
        self.sr = if carry {
            self.sr.set_bit(FLAG_CARRY)
        } else {
            self.sr.unset_bit(FLAG_CARRY)
        };
        let a2 = bits_to_i8(((p as u16 * 2) % 0x100) as u8);
        self.a = a2;
        self.update_zn(a2);
    }

    /// Pushes PC (high byte, then low byte) and the status register, then
    /// loads PC little-endian from the vector pair at `vector`; BRK
    /// additionally sets the Break flag before vectoring.
    fn vectored(&mut self, mem: &mut MEM, vector: u16, set_break: bool)
        requires
            old(mem).wf(),
            vector < 0xFFFF,
        ensures
            final(mem).wf(),
            ({
                let r = spec_vectored(*old(self), old(mem)@, vector, set_break);
                *final(self) == r.0 && final(mem)@ == r.1
            }),
    {
        let hi = (self.pc / 0x100) as u8;
        let lo = (self.pc % 0x100) as u8;
        let sr0 = self.sr;
        self.push(mem, hi);
        self.push(mem, lo);
        self.push(mem, sr0);
        if set_break {
            self.sr = self.sr.set_bit(FLAG_BREAK);
        }
        let vl = mem.get(vector);
        let vh = mem.get(vector + 1);
        self.pc = vl as u16 + (vh as u16) * 0x100;
    }

    /// Dispatches an interrupt named "BRK", "IRQ", "NMI" or "RESET". Any
    /// other name is a caller error: it is reported by returning `false`
    /// and changes no state.
    pub fn interrupt(&mut self, mem: &mut MEM, interrupttype: &str) -> (known: bool)
        requires
            old(mem).wf(),
        ensures
            final(mem).wf(),
            known == (int_kind_of(interrupttype@) is Some),
            int_kind_of(interrupttype@) matches Some(k) ==> ({
                let r = spec_interrupt(*old(self), old(mem)@, k);
                *final(self) == r.0 && final(mem)@ == r.1
            }),
            int_kind_of(interrupttype@) is None ==> *final(self) == *old(self) && final(mem)@
                == old(mem)@,
    {
        if str_eq(interrupttype, "BRK") {
            self.vectored(mem, 0xFFFE, true);
            true
        } else if str_eq(interrupttype, "IRQ") {
            self.vectored(mem, 0xFFFE, false);
            true
        } else if str_eq(interrupttype, "NMI") {
            self.vectored(mem, 0xFFFA, false);
            true
        } else if str_eq(interrupttype, "RESET") {
            self.reset(mem);
            true
        } else {
            false
        }
    }

    /// Executes one instruction: fetches the opcode at PC, advances PC,
    /// dispatches, and applies the instruction's register, memory and
    /// flag effects. Returns what the step reported; the machine never
    /// halts on an unrecognized opcode or a refused store.
    pub fn exec(&mut self, mem: &mut MEM) -> (ev: StepEvent)
        requires
            old(mem).wf(),
        ensures
            final(mem).wf(),
            ({
                let s = spec_step(*old(self), old(mem)@);
                *final(self) == s.cpu && final(mem)@ == s.mem && ev == s.ev
            }),
    {
        let loc = self.pc;
        let inst = self.get_next(mem);
        match inst {
            0x00 => {  // BRK
                self.vectored(mem, 0xFFFE, true);
                StepEvent::Done
            },
            0x02 => {  // EXIT (diagnostic)
                StepEvent::Exit
            },
            0x03 => {  // PRINT (diagnostic)
                let lo = self.get_next(mem);
                let hi = self.get_next(mem);
                let value = mem.get(lo as u16 + (hi as u16) * 0x100);
                StepEvent::Print { value }
            },
            0x08 => {  // PHP
                let v = self.sr;
                self.push(mem, v);
                StepEvent::Done
            },
            0x0A => {  // ASL A
                self.asl_acc();
                StepEvent::Done
            },
            0x18 => {  // CLC
                self.sr = self.sr.unset_bit(FLAG_CARRY);
                StepEvent::Done
            },
            0x28 => {  // PLP
                self.sr = self.pull(mem);
                StepEvent::Done
            },
            0x38 => {  // SEC
                self.sr = self.sr.set_bit(FLAG_CARRY);
                StepEvent::Done
            },
            0x48 => {  // PHA
                let v = i8_to_bits(self.a);
                self.push(mem, v);
                StepEvent::Done
            },
            0x4C => {  // JMP absolute
                let lo = self.get_next(mem);
                let hi = self.get_next(mem);
                self.pc = lo as u16 + (hi as u16) * 0x100;
                StepEvent::Done
            },
            0x58 => {  // CLI
                self.sr = self.sr.unset_bit(FLAG_INTERRUPT);
                StepEvent::Done
            },
            0x65 => {  // ADC zero page
                let zp = self.get_next(mem);
                let val = mem.get(zp as u16);
                self.adc(val);
                StepEvent::Done
            },
            0x68 => {  // PLA
                let v = self.pull(mem);
                self.a = bits_to_i8(v);
                StepEvent::Done
            },
            0x69 => {  // ADC immediate
                let val = self.get_next(mem);
                self.adc(val);
                StepEvent::Done
            },
            0x6C => {  // JMP indirect: the target is read from the two
                // bytes at the pointer taken from the instruction stream
                let pl = self.get_next(mem);
                let ph = self.get_next(mem);
                self.pc = pl as u16 + (ph as u16) * 0x100;
                let lo = self.get_next(mem);
                let hi = self.get_next(mem);
                self.pc = lo as u16 + (hi as u16) * 0x100;
                StepEvent::Done
            },
            0x6D => {  // ADC absolute
                let lo = self.get_next(mem);
                let hi = self.get_next(mem);
                let val = mem.get(lo as u16 + (hi as u16) * 0x100);
                self.adc(val);
                StepEvent::Done
            },
            0x78 => {  // SEI
                self.sr = self.sr.set_bit(FLAG_INTERRUPT);
                StepEvent::Done
            },
            0x84 => {  // STY zero page
                let addr = self.get_next(mem) as u16;
                let v = i8_to_bits(self.y);
                self.store(mem, addr, v)
            },
            0x85 => {  // STA zero page
                let addr = self.get_next(mem) as u16;
                let v = i8_to_bits(self.a);
                self.store(mem, addr, v)
            },
            0x86 => {  // STX zero page
                let addr = self.get_next(mem) as u16;
                let v = i8_to_bits(self.x);
                self.store(mem, addr, v)
            },
            0x88 => {  // DEY
                let y2 = self.y.wrapping_sub(1);
                self.y = y2;
                self.update_zn(y2);
                StepEvent::Done
            },
            0x8A => {  // TXA
                let v = self.x;
                self.a = v;
                self.update_zn(v);
                StepEvent::Done
            },
            0x8D => {  // STA absolute
                let lo = self.get_next(mem);
                let hi = self.get_next(mem);
                let v = i8_to_bits(self.a);
                self.store(mem, lo as u16 + (hi as u16) * 0x100, v)
            },
            0x98 => {  // TYA
                let v = self.y;
                self.a = v;
                self.update_zn(v);
                StepEvent::Done
            },
            0x9A => {  // TXS (through the stack path: pushes X)
                let v = i8_to_bits(self.x);
                self.push(mem, v);
                StepEvent::Done
            },
            0xA8 => {  // TAY
                let v = self.a;
                self.y = v;
                self.update_zn(v);
                StepEvent::Done
            },
            0xA9 => {  // LDA immediate (no flag update in this engine)
                let val = self.get_next(mem);
                self.a = bits_to_i8(val);
                StepEvent::Done
            },
            0xAA => {  // TAX
                let v = self.a;
                self.x = v;
                self.update_zn(v);
                StepEvent::Done
            },
            0xB8 => {  // CLV
                self.sr = self.sr.unset_bit(FLAG_OVERFLOW);
                StepEvent::Done
            },
            0xBA => {  // TSX (through the stack path: pulls into X)
                let v = self.pull(mem);
                let x2 = bits_to_i8(v);
                self.x = x2;
                self.update_zn(x2);
                StepEvent::Done
            },
            0xC8 => {  // INY
                let y2 = self.y.wrapping_add(1);
                self.y = y2;
                self.update_zn(y2);
                StepEvent::Done
            },
            0xCA => {  // DEX
                let x2 = self.x.wrapping_sub(1);
                self.x = x2;
                self.update_zn(x2);
                StepEvent::Done
            },
            0xD8 => {  // CLD
                self.sr = self.sr.unset_bit(FLAG_DECIMAL);
                StepEvent::Done
            },
            0xE8 => {  // INX
                let x2 = self.x.wrapping_add(1);
                self.x = x2;
                self.update_zn(x2);
                StepEvent::Done
            },
            0xEA => {  // NOP
                StepEvent::Done
            },
            0xF8 => {  // SED
                self.sr = self.sr.set_bit(FLAG_DECIMAL);
                StepEvent::Done
            },
            _ => {  // unrecognized: report and continue at the advanced PC
                StepEvent::BadOpcode { addr: loc, opcode: inst }
            },
        }
    }

    /// Performs an unprivileged store for the store instructions,
    /// reporting a refused write as an event.
    fn store(&mut self, mem: &mut MEM, addr: u16, val: u8) -> (ev: StepEvent)
        requires
            old(mem).wf(),
        ensures
            final(mem).wf(),
            *final(self) == *old(self),
            ({
                let s = spec_store(*old(self), old(mem)@, addr, val);
                final(mem)@ == s.mem && ev == s.ev
            }),
    {
        let accepted = mem.set(addr, val, false);
        if accepted {
            StepEvent::Done
        } else {
            StepEvent::WriteRejected { addr, value: val }
        }
    }

    /// Executes exactly `cycles` instructions, stopping early only when
    /// the diagnostic exit instruction is executed.
    #[verifier::loop_isolation(false)]
    #[verifier::rlimit(60)]
    pub fn lexec(&mut self, mem: &mut MEM, cycles: u32)
        requires
            old(mem).wf(),
        ensures
            final(mem).wf(),
            ({
                let r = spec_run(*old(self), old(mem)@, cycles as nat);
                *final(self) == r.cpu && final(mem)@ == r.mem
            }),
    {
        let ghost c0 = *self;
        let ghost m0 = mem@;
        let mut i: u32 = 0;
        while i < cycles
            invariant
                i <= cycles,
                mem.wf(),
                ({
                    let r = spec_run(c0, m0, i as nat);
                    *self == r.cpu && mem@ == r.mem && !r.exited
                }),
            decreases cycles - i,
        {
            let ev = self.exec(mem);
            i += 1;
            if let StepEvent::Exit = ev {
                proof {
                    lemma_run_exit_sticky(c0, m0, i as nat, cycles as nat);
                }
                return;
            }
        }
    }

    /// Runs until the program counter reaches the top of the address
    /// space (0xFFFF) or the diagnostic exit instruction is executed.
    /// No instruction is executed once either condition holds.
    #[verifier::loop_isolation(false)]
    #[verifier::rlimit(60)]
    pub fn fexec(&mut self, mem: &mut MEM)
        requires
            old(mem).wf(),
        ensures
            final(mem).wf(),
            exists|n: nat| fexec_post(*old(self), old(mem)@, *final(self), final(mem)@, n),
    {
        let ghost c0 = *self;
        let ghost m0 = mem@;
        let mut fuel: u64 = u64::MAX;
        while self.pc < 0xFFFF && fuel > 0
            invariant
                mem.wf(),
                ({
                    let r = spec_run(c0, m0, (u64::MAX - fuel) as nat);
                    &&& *self == r.cpu
                    &&& mem@ == r.mem
                    &&& !r.exited
                    &&& forall|k: nat|
                        k < u64::MAX - fuel ==> !halted(#[trigger] spec_run(c0, m0, k))
                }),
            decreases fuel,
        {
            let ev = self.exec(mem);
            fuel = fuel - 1;
            if let StepEvent::Exit = ev {
                proof {
                    assert(fexec_post(c0, m0, *self, mem@, (u64::MAX - fuel) as nat));
                }
                return;
            }
        }
        proof {
            assert(fexec_post(c0, m0, *self, mem@, (u64::MAX - fuel) as nat));
        }
    }
}

// ---------------------------------------------------------------------------
// Laws
// ---------------------------------------------------------------------------

/// Recomputing Zero and Negative from a register value leaves the flags
/// reflecting that value exactly — Zero is set iff the value is zero,
/// Negative iff its sign bit is set — and every other flag, Carry among
/// them, keeps its previous reading.
pub proof fn lemma_zn_flags(sr: u8, v: i8)
    ensures
        flag_get(spec_zn(sr, v), FLAG_ZERO) == (v == 0),
        flag_get(spec_zn(sr, v), FLAG_NEGATIVE) == (v < 0),
        flag_get(spec_zn(sr, v), FLAG_CARRY) == flag_get(sr, FLAG_CARRY),
        flag_get(spec_zn(sr, v), FLAG_INTERRUPT) == flag_get(sr, FLAG_INTERRUPT),
        flag_get(spec_zn(sr, v), FLAG_DECIMAL) == flag_get(sr, FLAG_DECIMAL),
        flag_get(spec_zn(sr, v), FLAG_BREAK) == flag_get(sr, FLAG_BREAK),
        flag_get(spec_zn(sr, v), FLAG_OVERFLOW) == flag_get(sr, FLAG_OVERFLOW),
{
    let s1 = flag_assign(sr, FLAG_ZERO, v == 0);
    lemma_u8_bit_ops(sr, FLAG_ZERO, FLAG_CARRY);
    lemma_u8_bit_ops(sr, FLAG_ZERO, FLAG_INTERRUPT);
    lemma_u8_bit_ops(sr, FLAG_ZERO, FLAG_DECIMAL);
    lemma_u8_bit_ops(sr, FLAG_ZERO, FLAG_BREAK);
    lemma_u8_bit_ops(sr, FLAG_ZERO, FLAG_OVERFLOW);
    lemma_u8_bit_ops(s1, FLAG_NEGATIVE, FLAG_ZERO);
    lemma_u8_bit_ops(s1, FLAG_NEGATIVE, FLAG_CARRY);
    lemma_u8_bit_ops(s1, FLAG_NEGATIVE, FLAG_INTERRUPT);
    lemma_u8_bit_ops(s1, FLAG_NEGATIVE, FLAG_DECIMAL);
    lemma_u8_bit_ops(s1, FLAG_NEGATIVE, FLAG_BREAK);
    lemma_u8_bit_ops(s1, FLAG_NEGATIVE, FLAG_OVERFLOW);
}

/// A store-accumulator instruction with a zero-page operand writes
/// exactly the accumulator's bit pattern at that zero-page address and
/// changes no other byte of memory; zero-page stores are never refused.
pub proof fn lemma_sta_zero_page(c: CPU, m: Seq<u8>, addr: u8)
    requires
        m.len() == MEM_SIZE,
        fetch(m, c.pc) == 0x85,
        fetch(m, pc_inc(c.pc)) == addr,
    ensures
        spec_step(c, m).mem[addr as int] == u8_of_i8(c.a),
        forall|j: int| 0 <= j < MEM_SIZE && j != addr ==> spec_step(c, m).mem[j] == m[j],
        spec_step(c, m).ev == StepEvent::Done,
{
}

/// A push immediately followed by a pull returns the pushed byte and
/// restores the stack pointer (and the whole register file) to its value
/// before the push.
pub proof fn lemma_stack_round_trip(c: CPU, m: Seq<u8>, val: u8)
    requires
        m.len() == MEM_SIZE,
    ensures
        ({
            let (c1, m1) = spec_push(c, m, val);
            let (c2, r) = spec_pull(c1, m1);
            r == val && c2 == c
        }),
{
}

} // verus!
