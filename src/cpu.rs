use crate::dram::{initial_dram, DramState, DRAM};
use crate::error::EmuError;
use crate::bytes::low_bytes;
use crate::dram::lemma_store_then_load;
use crate::instr::{decode_spec, encode, lemma_decode_encode, lemma_decode_wf, sext, Instr};
use crate::irom::{IromState, IROM};

use vstd::prelude::*;

verus! {

/// Machine status.
pub const MSTATUS: u32 = 0x300;

/// Machine exception PC: where `ecall` came from, where `eret` returns to.
pub const MEPC: u32 = 0x341;

/// Machine trap cause.
pub const MCAUSE: u32 = 0x342;

/// Machine trap value. This core keeps the trap-handler base address here
/// (where RISC-V would use `mtvec`): `ecall` jumps to it, as the trap images
/// that run on the core expect.
pub const MTVAL: u32 = 0x343;

/// `mcause` of an environment call from M-mode.
pub const CAUSE_ECALL_M: u32 = 0xb;

/// `x` modulo 2^32.
pub open spec fn wrap(x: int) -> u32 {
    (x % 0x1_0000_0000) as u32
}

/// `a + b` modulo 2^32.
fn add_signed(a: u32, b: i32) -> (r: u32)
    ensures
        r == wrap(a + b),
{
    a.wrapping_add_signed(b)
}

/// `a + b` modulo 2^32.
fn add_wrap(a: u32, b: u32) -> (r: u32)
    ensures
        r == wrap(a + b),
{
    a.wrapping_add(b)
}

/// `a - b` modulo 2^32.
fn sub_wrap(a: u32, b: u32) -> (r: u32)
    ensures
        r == wrap(a - b),
{
    a.wrapping_sub(b)
}

/// What the write-back stage of a pipeline drives for one retired
/// instruction. All fields are zero when the instruction failed.
#[derive(Clone, Copy, Debug, PartialEq, Eq, Structural)]
pub struct WBStatus {
    /// 1: an instruction retired.
    pub wb_have_inst: u32,
    /// The address of that instruction.
    pub wb_pc: u32,
    /// Its destination register, or 0.
    pub wb_rd: u32,
    /// The value it writes, or 0.
    pub wb_val: u32,
    /// 1 iff it writes a register other than `x0`.
    pub wb_ena: u32,
    /// 1: the instruction executed.
    pub inst_valid: u32,
}

/// The record of an instruction at `pc` that writes `val` to `rd`; `rd == 0`
/// and `val == 0` for one that writes no register.
pub open spec fn retired(pc: u32, rd: u32, val: u32) -> WBStatus {
    WBStatus {
        wb_have_inst: 1,
        wb_pc: pc,
        wb_rd: rd,
        wb_val: val,
        wb_ena: if rd == 0 {
            0
        } else {
            1
        },
        inst_valid: 1,
    }
}

/// The all-zero record that stands for a failed instruction.
pub open spec fn failed_status() -> WBStatus {
    WBStatus { wb_have_inst: 0, wb_pc: 0, wb_rd: 0, wb_val: 0, wb_ena: 0, inst_valid: 0 }
}

impl Default for WBStatus {
    fn default() -> (r: WBStatus)
        ensures
            r == failed_status(),
    {
        WBStatus { wb_have_inst: 0, wb_pc: 0, wb_rd: 0, wb_val: 0, wb_ena: 0, inst_valid: 0 }
    }
}

/// The architectural state of a [`CPU`].
pub struct CpuState {
    pub regs: Seq<u32>,
    pub pc: u32,
    pub mstatus: u32,
    pub mepc: u32,
    pub mcause: u32,
    pub mtval: u32,
    pub irom: IromState,
    pub dram: DramState,
    /// The value that the last instruction sent to the LED port, if any.
    pub led: Option<u32>,
}

/// A byte read from memory, sign-extended.
pub open spec fn sext_byte(v: u32) -> u32 {
    sext(v & 0xff, 8) as u32
}

/// A halfword read from memory, sign-extended.
pub open spec fn sext_half(v: u32) -> u32 {
    sext(v & 0xffff, 16) as u32
}

impl CpuState {
    /// Register `r`.
    pub open spec fn x(self, r: u32) -> u32 {
        self.regs[r as int]
    }

    /// The CSR at `addr`; only the four that the core keeps can be read.
    pub open spec fn csr(self, addr: u32) -> Result<u32, EmuError> {
        if addr == MSTATUS {
            Ok(self.mstatus)
        } else if addr == MEPC {
            Ok(self.mepc)
        } else if addr == MCAUSE {
            Ok(self.mcause)
        } else if addr == MTVAL {
            Ok(self.mtval)
        } else {
            Err(EmuError::BadCsr(addr))
        }
    }

    /// The state with the CSR at `addr` set to `v` (unchanged if the core
    /// does not keep that CSR).
    pub open spec fn set_csr(self, addr: u32, v: u32) -> CpuState {
        if addr == MSTATUS {
            CpuState { mstatus: v, ..self }
        } else if addr == MEPC {
            CpuState { mepc: v, ..self }
        } else if addr == MCAUSE {
            CpuState { mcause: v, ..self }
        } else if addr == MTVAL {
            CpuState { mtval: v, ..self }
        } else {
            self
        }
    }

    /// The state with register `rd` set to `v`; a write to `x0` is dropped.
    pub open spec fn write_reg(self, rd: u32, v: u32) -> CpuState {
        if rd == 0 {
            self
        } else {
            CpuState { regs: self.regs.update(rd as int, v), ..self }
        }
    }

    /// The state with the program counter set to `target`.
    pub open spec fn jump(self, target: u32) -> CpuState {
        CpuState { pc: target, ..self }
    }

    /// Retires the instruction at `cur`, which writes `val` to `rd`.
    pub open spec fn retire(self, cur: u32, rd: u32, val: u32) -> (CpuState, Result<
        WBStatus,
        EmuError,
    >) {
        (self.write_reg(rd, val), Ok(retired(cur, rd, val)))
    }

    /// Retires the instruction at `cur`, which writes no register.
    pub open spec fn retire_quiet(self, cur: u32) -> (CpuState, Result<WBStatus, EmuError>) {
        (self, Ok(retired(cur, 0, 0)))
    }

    /// A branch at `cur` to `cur + off`, taken if `taken`.
    pub open spec fn branch(self, cur: u32, taken: bool, off: i32) -> (CpuState, Result<
        WBStatus,
        EmuError,
    >) {
        if taken {
            self.jump(wrap(cur + off)).retire_quiet(cur)
        } else {
            self.retire_quiet(cur)
        }
    }

    /// The effective address `x[base] + off`.
    pub open spec fn ea(self, base: u32, off: i32) -> u32 {
        wrap(self.x(base) + off)
    }

    /// A load at `cur` that read `r`, writing `ext` of the value to `rd`.
    pub open spec fn finish_load(
        self,
        cur: u32,
        rd: u32,
        r: Result<u32, EmuError>,
        ext: spec_fn(u32) -> u32,
    ) -> (CpuState, Result<WBStatus, EmuError>) {
        match r {
            Ok(v) => self.retire(cur, rd, ext(v)),
            Err(e) => (self, Err(e)),
        }
    }

    /// A store at `cur` of the low `size` bits of `x[src]` to `addr`.
    pub open spec fn store(self, cur: u32, addr: u32, src: u32, size: u32) -> (CpuState, Result<
        WBStatus,
        EmuError,
    >) {
        match self.dram.store(addr, self.x(src), size) {
            Ok((m, led)) => CpuState { dram: m, led, ..self }.retire_quiet(cur),
            Err(e) => (self, Err(e)),
        }
    }

    /// A CSR instruction at `cur`: reads the CSR at `addr` into `rd` and
    /// writes `new(old value)` back.
    pub open spec fn csr_rmw(self, cur: u32, rd: u32, addr: u32, new: spec_fn(u32) -> u32) -> (
        CpuState,
        Result<WBStatus, EmuError>,
    ) {
        match self.csr(addr) {
            Ok(t) => self.set_csr(addr, new(t)).retire(cur, rd, t),
            Err(e) => (self, Err(e)),
        }
    }

    /// The effect of `i`, executed from this state (whose program counter
    /// has already stepped past `i`), and what it returns.
    pub open spec fn apply(self, i: Instr) -> (CpuState, Result<WBStatus, EmuError>) {
        let cur = wrap(self.pc - 4);
        match i {
            Instr::LUI(rd, imm) => self.retire(cur, rd, imm),
            Instr::AUIPC(rd, imm) => self.retire(cur, rd, wrap(cur + imm)),
            Instr::JAL(rd, off) => self.jump(wrap(cur + off)).retire(cur, rd, self.pc),
            Instr::JALR(rd, off, base) => self.jump(self.ea(base, off) & 0xffff_fffe).retire(
                cur,
                rd,
                self.pc,
            ),
            Instr::BEQ(a, b, off) => self.branch(cur, self.x(a) == self.x(b), off),
            Instr::BNE(a, b, off) => self.branch(cur, self.x(a) != self.x(b), off),
            Instr::BLT(a, b, off) => self.branch(cur, (self.x(a) as i32) < (self.x(b) as i32), off),
            Instr::BGE(a, b, off) => self.branch(
                cur,
                (self.x(a) as i32) >= (self.x(b) as i32),
                off,
            ),
            Instr::BLTU(a, b, off) => self.branch(cur, self.x(a) < self.x(b), off),
            Instr::BGEU(a, b, off) => self.branch(cur, self.x(a) >= self.x(b), off),
            Instr::LB(rd, off, base) => self.finish_load(
                cur,
                rd,
                self.dram.load(self.ea(base, off), 8),
                |v: u32| sext_byte(v),
            ),
            Instr::LH(rd, off, base) => self.finish_load(
                cur,
                rd,
                self.dram.load(self.ea(base, off), 16),
                |v: u32| sext_half(v),
            ),
            Instr::LW(rd, off, base) => self.finish_load(
                cur,
                rd,
                self.dram.load(self.ea(base, off), 32),
                |v: u32| v,
            ),
            Instr::LBU(rd, off, base) => self.finish_load(
                cur,
                rd,
                self.dram.load(self.ea(base, off), 8),
                |v: u32| v & 0xff,
            ),
            Instr::LHU(rd, off, base) => self.finish_load(
                cur,
                rd,
                self.dram.load(self.ea(base, off), 16),
                |v: u32| v & 0xffff,
            ),
            Instr::SB(src, off, base) => self.store(cur, self.ea(base, off), src, 8),
            Instr::SH(src, off, base) => self.store(cur, self.ea(base, off), src, 16),
            Instr::SW(src, off, base) => self.store(cur, self.ea(base, off), src, 32),
            Instr::ADDI(rd, a, imm) => self.retire(cur, rd, wrap(self.x(a) + imm)),
            Instr::ANDI(rd, a, imm) => self.retire(cur, rd, self.x(a) & (imm as u32)),
            Instr::ORI(rd, a, imm) => self.retire(cur, rd, self.x(a) | (imm as u32)),
            Instr::XORI(rd, a, imm) => self.retire(cur, rd, self.x(a) ^ (imm as u32)),
            Instr::SLTI(rd, a, imm) => self.retire(
                cur,
                rd,
                if (self.x(a) as i32) < imm {
                    1
                } else {
                    0
                },
            ),
            Instr::SLTIU(rd, a, imm) => self.retire(
                cur,
                rd,
                if self.x(a) < (imm as u32) {
                    1
                } else {
                    0
                },
            ),
            Instr::SLLI(rd, a, sh) => self.retire(cur, rd, self.x(a) << ((sh as u32) & 0x1f)),
            Instr::SRLI(rd, a, sh) => self.retire(cur, rd, self.x(a) >> ((sh as u32) & 0x1f)),
            Instr::SRAI(rd, a, sh) => self.retire(
                cur,
                rd,
                ((self.x(a) as i32) >> ((sh as u32) & 0x1f)) as u32,
            ),
            Instr::ADD(rd, a, b) => self.retire(cur, rd, wrap(self.x(a) + self.x(b))),
            Instr::SUB(rd, a, b) => self.retire(cur, rd, wrap(self.x(a) - self.x(b))),
            Instr::SLL(rd, a, b) => self.retire(cur, rd, self.x(a) << (self.x(b) & 0x1f)),
            Instr::SRL(rd, a, b) => self.retire(cur, rd, self.x(a) >> (self.x(b) & 0x1f)),
            Instr::SRA(rd, a, b) => self.retire(
                cur,
                rd,
                ((self.x(a) as i32) >> (self.x(b) & 0x1f)) as u32,
            ),
            Instr::SLT(rd, a, b) => self.retire(
                cur,
                rd,
                if (self.x(a) as i32) < (self.x(b) as i32) {
                    1
                } else {
                    0
                },
            ),
            Instr::SLTU(rd, a, b) => self.retire(
                cur,
                rd,
                if self.x(a) < self.x(b) {
                    1
                } else {
                    0
                },
            ),
            Instr::XOR(rd, a, b) => self.retire(cur, rd, self.x(a) ^ self.x(b)),
            Instr::OR(rd, a, b) => self.retire(cur, rd, self.x(a) | self.x(b)),
            Instr::AND(rd, a, b) => self.retire(cur, rd, self.x(a) & self.x(b)),
            Instr::ECALL => CpuState {
                mepc: cur,
                mcause: CAUSE_ECALL_M,
                pc: self.mtval,
                ..self
            }.retire_quiet(cur),
            Instr::ERET => (self.jump(self.mepc), Err(EmuError::EretStop)),
            Instr::CSRRW(rd, addr, a) => self.csr_rmw(cur, rd, addr, |t: u32| self.x(a)),
            Instr::CSRRS(rd, addr, a) => self.csr_rmw(cur, rd, addr, |t: u32| t | self.x(a)),
            Instr::CSRRC(rd, addr, a) => self.csr_rmw(cur, rd, addr, |t: u32| t & !self.x(a)),
            Instr::CSRRWI(rd, addr, z) => self.csr_rmw(cur, rd, addr, |t: u32| z),
            Instr::CSRRSI(rd, addr, z) => self.csr_rmw(cur, rd, addr, |t: u32| t | z),
            Instr::CSRRCI(rd, addr, z) => self.csr_rmw(cur, rd, addr, |t: u32| t & !z),
        }
    }

    /// The state at the start of every instruction: `x0` cleared, no LED
    /// output yet.
    pub open spec fn begin(self) -> CpuState {
        CpuState { regs: self.regs.update(0, 0), led: None, ..self }
    }

    /// Executing the word `w`: decode it, then apply it. Returns the state
    /// after, and the write-back record or the error.
    pub open spec fn step(self, w: u32) -> (CpuState, Result<WBStatus, EmuError>) {
        match decode_spec(w) {
            Ok(i) => self.begin().apply(i),
            Err(e) => (self.begin(), Err(e)),
        }
    }
}

/// The simulated core: registers, program counter, the CSRs it keeps, and
/// its instruction and data memories.
#[allow(clippy::upper_case_acronyms)]
pub struct CPU {
    regs: Vec<u32>,
    pc: u32,
    mstatus: u32,
    mepc: u32,
    mcause: u32,
    mtval: u32,
    irom: IROM,
    dram: DRAM,
    led: Option<u32>,
}

impl View for CPU {
    type V = CpuState;

    closed spec fn view(&self) -> CpuState {
        CpuState {
            regs: self.regs@,
            pc: self.pc,
            mstatus: self.mstatus,
            mepc: self.mepc,
            mcause: self.mcause,
            mtval: self.mtval,
            irom: self.irom@,
            dram: self.dram@,
            led: self.led,
        }
    }
}

impl CPU {
    /// The register file has its 32 entries.
    pub open spec fn wf(&self) -> bool {
        self@.regs.len() == 32
    }

    /// A core about to run the user image from `user_base`: all registers
    /// zero but `sp`, which points just past the stack; `mtval` holds the
    /// trap-handler base `kernel_base`; the data memory holds a stack of
    /// `stack_size` bytes at `stack_base` and a copy of the user image.
    pub fn new(
        user: &[u8],
        user_base: u32,
        kernel: &[u8],
        kernel_base: u32,
        stack_base: u32,
        stack_size: u32,
    ) -> (r: CPU)
        requires
            stack_size <= u32::MAX - 3,
        ensures
            r.wf(),
            r@ == (CpuState {
                regs: Seq::new(
                    32,
                    |i: int|
                        if i == 2 {
                            wrap(stack_base + stack_size)
                        } else {
                            0u32
                        },
                ),
                pc: user_base,
                mstatus: 0,
                mepc: 0,
                mcause: 0,
                mtval: kernel_base,
                irom: IromState { user: user@, user_base, kernel: kernel@, kernel_base },
                dram: initial_dram(user@, user_base, stack_base, stack_size),
                led: None,
            }),
    {
        let mut regs: Vec<u32> = vec![0u32; 32];
        regs.set(2, add_wrap(stack_base, stack_size));
        let cpu = CPU {
            regs,
            pc: user_base,
            mstatus: 0,
            mepc: 0,
            mcause: 0,
            mtval: kernel_base,
            irom: IROM::new(user, user_base, kernel, kernel_base),
            dram: DRAM::new(user, user_base, stack_base, stack_size),
            led: None,
        };
        assert(cpu@.regs =~= Seq::new(
            32,
            |i: int|
                if i == 2 {
                    wrap(stack_base + stack_size)
                } else {
                    0u32
                },
        ));
        cpu
    }

    /// The instruction word at the program counter.
    pub fn fetch(&self) -> (r: Result<u32, EmuError>)
        ensures
            r == self@.irom.fetch(self@.pc),
    {
        self.irom.fetch(self.pc)
    }

    /// Advances the program counter by one instruction, 4 bytes.
    pub fn pc_step(&mut self)
        ensures
            final(self)@ == old(self)@.jump(wrap(old(self)@.pc + 4)),
    {
        self.pc = self.pc.wrapping_add(4);
    }

    /// Executes the instruction word `inst`, which sits just before the
    /// program counter (the caller has already stepped past it). Returns
    /// the write-back record, or why the instruction failed.
    pub fn execute(&mut self, inst: u32) -> (r: Result<WBStatus, EmuError>)
        requires
            old(self).wf(),
        ensures
            final(self).wf(),
            (final(self)@, r) == old(self)@.step(inst),
            final(self)@.irom == old(self)@.irom,
    {
        self.regs.set(0, 0);
        self.led = None;
        let cur = sub_wrap(self.pc, 4);
        let instr = match Instr::decode(inst) {
            Ok(i) => i,
            Err(e) => return Err(e),
        };
        let (rd, val): (u32, u32) = match instr {
            Instr::LUI(rd, imm) => {
                self.write_reg(rd, imm);
                (rd, imm)
            },
            Instr::AUIPC(rd, imm) => {
                let v = add_wrap(cur, imm);
                self.write_reg(rd, v);
                (rd, v)
            },
            Instr::JAL(rd, off) => {
                let v = self.pc;
                self.pc = add_signed(cur, off);
                self.write_reg(rd, v);
                (rd, v)
            },
            Instr::JALR(rd, off, base) => {
                let v = self.pc;
                self.pc = add_signed(self.reg(base), off) & 0xffff_fffe;
                self.write_reg(rd, v);
                (rd, v)
            },
            Instr::BEQ(a, b, off) => {
                if self.reg(a) == self.reg(b) {
                    self.pc = add_signed(cur, off);
                }
                (0, 0)
            },
            Instr::BNE(a, b, off) => {
                if self.reg(a) != self.reg(b) {
                    self.pc = add_signed(cur, off);
                }
                (0, 0)
            },
            Instr::BLT(a, b, off) => {
                if (self.reg(a) as i32) < (self.reg(b) as i32) {
                    self.pc = add_signed(cur, off);
                }
                (0, 0)
            },
            Instr::BGE(a, b, off) => {
                if (self.reg(a) as i32) >= (self.reg(b) as i32) {
                    self.pc = add_signed(cur, off);
                }
                (0, 0)
            },
            Instr::BLTU(a, b, off) => {
                if self.reg(a) < self.reg(b) {
                    self.pc = add_signed(cur, off);
                }
                (0, 0)
            },
            Instr::BGEU(a, b, off) => {
                if self.reg(a) >= self.reg(b) {
                    self.pc = add_signed(cur, off);
                }
                (0, 0)
            },
            Instr::LB(rd, off, base) => {
                let v = match self.load(add_signed(self.reg(base), off), 8) {
                    Ok(v) => v,
                    Err(e) => return Err(e),
                };
                let x = #[verifier::truncate] ((#[verifier::truncate] (v as i8)) as i32 as u32);
                assert(x == sext_byte(v)) by (bit_vector)
                    requires
                        x == ((v as i8) as i32) as u32,
                ;
                self.write_reg(rd, x);
                (rd, x)
            },
            Instr::LH(rd, off, base) => {
                let v = match self.load(add_signed(self.reg(base), off), 16) {
                    Ok(v) => v,
                    Err(e) => return Err(e),
                };
                let x = #[verifier::truncate] ((#[verifier::truncate] (v as i16)) as i32 as u32);
                assert(x == sext_half(v)) by (bit_vector)
                    requires
                        x == ((v as i16) as i32) as u32,
                ;
                self.write_reg(rd, x);
                (rd, x)
            },
            Instr::LW(rd, off, base) => {
                let v = match self.load(add_signed(self.reg(base), off), 32) {
                    Ok(v) => v,
                    Err(e) => return Err(e),
                };
                self.write_reg(rd, v);
                (rd, v)
            },
            Instr::LBU(rd, off, base) => {
                let v = match self.load(add_signed(self.reg(base), off), 8) {
                    Ok(v) => v,
                    Err(e) => return Err(e),
                };
                let x = v & 0xff;
                self.write_reg(rd, x);
                (rd, x)
            },
            Instr::LHU(rd, off, base) => {
                let v = match self.load(add_signed(self.reg(base), off), 16) {
                    Ok(v) => v,
                    Err(e) => return Err(e),
                };
                let x = v & 0xffff;
                self.write_reg(rd, x);
                (rd, x)
            },
            Instr::SB(src, off, base) => {
                let ea = add_signed(self.reg(base), off);
                match self.store(ea, self.reg(src), 8) {
                    Ok(()) => (0, 0),
                    Err(e) => return Err(e),
                }
            },
            Instr::SH(src, off, base) => {
                let ea = add_signed(self.reg(base), off);
                match self.store(ea, self.reg(src), 16) {
                    Ok(()) => (0, 0),
                    Err(e) => return Err(e),
                }
            },
            Instr::SW(src, off, base) => {
                let ea = add_signed(self.reg(base), off);
                match self.store(ea, self.reg(src), 32) {
                    Ok(()) => (0, 0),
                    Err(e) => return Err(e),
                }
            },
            Instr::ADDI(rd, a, imm) => {
                let v = add_signed(self.reg(a), imm);
                self.write_reg(rd, v);
                (rd, v)
            },
            Instr::ANDI(rd, a, imm) => {
                let v = self.reg(a) & (imm as u32);
                self.write_reg(rd, v);
                (rd, v)
            },
            Instr::ORI(rd, a, imm) => {
                let v = self.reg(a) | (imm as u32);
                self.write_reg(rd, v);
                (rd, v)
            },
            Instr::XORI(rd, a, imm) => {
                let v = self.reg(a) ^ (imm as u32);
                self.write_reg(rd, v);
                (rd, v)
            },
            Instr::SLTI(rd, a, imm) => {
                let v: u32 = if (self.reg(a) as i32) < imm {
                    1
                } else {
                    0
                };
                self.write_reg(rd, v);
                (rd, v)
            },
            Instr::SLTIU(rd, a, imm) => {
                let v: u32 = if self.reg(a) < (imm as u32) {
                    1
                } else {
                    0
                };
                self.write_reg(rd, v);
                (rd, v)
            },
            Instr::SLLI(rd, a, sh) => {
                let s = (sh as u32) & 0x1f;
                assert(s < 32) by (bit_vector)
                    requires
                        s == (sh as u32) & 0x1f,
                ;
                let v = self.reg(a) << s;
                self.write_reg(rd, v);
                (rd, v)
            },
            Instr::SRLI(rd, a, sh) => {
                let s = (sh as u32) & 0x1f;
                assert(s < 32) by (bit_vector)
                    requires
                        s == (sh as u32) & 0x1f,
                ;
                let v = self.reg(a) >> s;
                self.write_reg(rd, v);
                (rd, v)
            },
            Instr::SRAI(rd, a, sh) => {
                let s = (sh as u32) & 0x1f;
                assert(s < 32) by (bit_vector)
                    requires
                        s == (sh as u32) & 0x1f,
                ;
                let v = ((self.reg(a) as i32) >> s) as u32;
                self.write_reg(rd, v);
                (rd, v)
            },
            Instr::ADD(rd, a, b) => {
                let v = add_wrap(self.reg(a), self.reg(b));
                self.write_reg(rd, v);
                (rd, v)
            },
            Instr::SUB(rd, a, b) => {
                let v = sub_wrap(self.reg(a), self.reg(b));
                self.write_reg(rd, v);
                (rd, v)
            },
            Instr::SLL(rd, a, b) => {
                let y = self.reg(b);
                let s = y & 0x1f;
                assert(s < 32) by (bit_vector)
                    requires
                        s == y & 0x1f,
                ;
                let v = self.reg(a) << s;
                self.write_reg(rd, v);
                (rd, v)
            },
            Instr::SRL(rd, a, b) => {
                let y = self.reg(b);
                let s = y & 0x1f;
                assert(s < 32) by (bit_vector)
                    requires
                        s == y & 0x1f,
                ;
                let v = self.reg(a) >> s;
                self.write_reg(rd, v);
                (rd, v)
            },
            Instr::SRA(rd, a, b) => {
                let y = self.reg(b);
                let s = y & 0x1f;
                assert(s < 32) by (bit_vector)
                    requires
                        s == y & 0x1f,
                ;
                let v = ((self.reg(a) as i32) >> s) as u32;
                self.write_reg(rd, v);
                (rd, v)
            },
            Instr::SLT(rd, a, b) => {
                let v: u32 = if (self.reg(a) as i32) < (self.reg(b) as i32) {
                    1
                } else {
                    0
                };
                self.write_reg(rd, v);
                (rd, v)
            },
            Instr::SLTU(rd, a, b) => {
                let v: u32 = if self.reg(a) < self.reg(b) {
                    1
                } else {
                    0
                };
                self.write_reg(rd, v);
                (rd, v)
            },
            Instr::XOR(rd, a, b) => {
                let v = self.reg(a) ^ self.reg(b);
                self.write_reg(rd, v);
                (rd, v)
            },
            Instr::OR(rd, a, b) => {
                let v = self.reg(a) | self.reg(b);
                self.write_reg(rd, v);
                (rd, v)
            },
            Instr::AND(rd, a, b) => {
                let v = self.reg(a) & self.reg(b);
                self.write_reg(rd, v);
                (rd, v)
            },
            Instr::ECALL => {
                self.mepc = cur;
                self.pc = self.mtval;
                self.mcause = CAUSE_ECALL_M;
                (0, 0)
            },
            Instr::ERET => {
                self.pc = self.mepc;
                return Err(EmuError::EretStop);
            },
            Instr::CSRRW(rd, addr, a) => {
                let t = match self.load_csr(addr) {
                    Ok(t) => t,
                    Err(e) => return Err(e),
                };
                let x = self.reg(a);
                if let Err(e) = self.store_csr(addr, x) {
                    return Err(e);
                }
                self.write_reg(rd, t);
                (rd, t)
            },
            Instr::CSRRS(rd, addr, a) => {
                let t = match self.load_csr(addr) {
                    Ok(t) => t,
                    Err(e) => return Err(e),
                };
                let x = self.reg(a);
                if let Err(e) = self.store_csr(addr, t | x) {
                    return Err(e);
                }
                self.write_reg(rd, t);
                (rd, t)
            },
            Instr::CSRRC(rd, addr, a) => {
                let t = match self.load_csr(addr) {
                    Ok(t) => t,
                    Err(e) => return Err(e),
                };
                let x = self.reg(a);
                if let Err(e) = self.store_csr(addr, t & !x) {
                    return Err(e);
                }
                self.write_reg(rd, t);
                (rd, t)
            },
            Instr::CSRRWI(rd, addr, z) => {
                let t = match self.load_csr(addr) {
                    Ok(t) => t,
                    Err(e) => return Err(e),
                };
                if let Err(e) = self.store_csr(addr, z) {
                    return Err(e);
                }
                self.write_reg(rd, t);
                (rd, t)
            },
            Instr::CSRRSI(rd, addr, z) => {
                let t = match self.load_csr(addr) {
                    Ok(t) => t,
                    Err(e) => return Err(e),
                };
                if let Err(e) = self.store_csr(addr, t | z) {
                    return Err(e);
                }
                self.write_reg(rd, t);
                (rd, t)
            },
            Instr::CSRRCI(rd, addr, z) => {
                let t = match self.load_csr(addr) {
                    Ok(t) => t,
                    Err(e) => return Err(e),
                };
                if let Err(e) = self.store_csr(addr, t & !z) {
                    return Err(e);
                }
                self.write_reg(rd, t);
                (rd, t)
            },
        };
        let ena: u32 = if rd == 0 {
            0
        } else {
            1
        };
        Ok(WBStatus { wb_have_inst: 1, wb_pc: cur, wb_rd: rd, wb_val: val, wb_ena: ena, inst_valid: 1 })
    }

    /// Executes `inst` as [`CPU::execute`] does and returns its write-back
    /// record, or the all-zero record if it failed.
    pub fn execute_record(&mut self, inst: u32) -> (r: WBStatus)
        requires
            old(self).wf(),
        ensures
            final(self).wf(),
            final(self)@ == old(self)@.step(inst).0,
            r == (match old(self)@.step(inst).1 {
                Ok(wb) => wb,
                Err(_) => failed_status(),
            }),
    {
        match self.execute(inst) {
            Ok(wb) => wb,
            Err(_) => WBStatus::default(),
        }
    }

    /// Register `r`.
    pub fn reg(&self, r: u32) -> (v: u32)
        requires
            self.wf(),
            r < 32,
        ensures
            v == self@.x(r),
    {
        self.regs[r as usize]
    }

    /// The program counter.
    pub fn pc(&self) -> (r: u32)
        ensures
            r == self@.pc,
    {
        self.pc
    }

    /// The value that the last executed instruction sent to the LED port.
    pub fn led(&self) -> (r: Option<u32>)
        ensures
            r == self@.led,
    {
        self.led
    }

    fn write_reg(&mut self, rd: u32, v: u32)
        requires
            old(self).wf(),
            rd < 32,
        ensures
            final(self).wf(),
            final(self)@ == old(self)@.write_reg(rd, v),
    {
        if rd != 0 {
            self.regs.set(rd as usize, v);
        }
    }

    /// Loads `size` bits from the data memory.
    fn load(&self, addr: u32, size: u32) -> (r: Result<u32, EmuError>)
        ensures
            r == self@.dram.load(addr, size),
    {
        self.dram.load(addr, size)
    }

    /// Stores the low `size` bits of `value` to the data memory, noting a
    /// value sent to the LED port.
    fn store(&mut self, addr: u32, value: u32, size: u32) -> (r: Result<(), EmuError>)
        ensures
            match old(self)@.dram.store(addr, value, size) {
                Ok((m, led)) => r is Ok && final(self)@ == (CpuState { dram: m, led, ..old(self)@ }),
                Err(e) => r == Err::<(), EmuError>(e) && final(self)@ == old(self)@,
            },
    {
        match self.dram.store(addr, value, size) {
            Ok(led) => {
                self.led = led;
                Ok(())
            },
            Err(e) => Err(e),
        }
    }

    /// Writes `value` to the CSR at `addr`.
    fn store_csr(&mut self, addr: u32, value: u32) -> (r: Result<(), EmuError>)
        ensures
            old(self)@.csr(addr) is Ok ==> r is Ok && final(self)@ == old(self)@.set_csr(
                addr,
                value,
            ),
            old(self)@.csr(addr) is Err ==> r == Err::<(), EmuError>(EmuError::BadCsr(addr))
                && final(self)@ == old(self)@,
    {
        match addr {
            MSTATUS => self.mstatus = value,
            MEPC => self.mepc = value,
            MCAUSE => self.mcause = value,
            MTVAL => self.mtval = value,
            _ => return Err(EmuError::BadCsr(addr)),
        }
        Ok(())
    }

    /// Reads the CSR at `addr`.
    pub fn load_csr(&self, addr: u32) -> (r: Result<u32, EmuError>)
        ensures
            r == self@.csr(addr),
    {
        match addr {
            MSTATUS => Ok(self.mstatus),
            MEPC => Ok(self.mepc),
            MCAUSE => Ok(self.mcause),
            MTVAL => Ok(self.mtval),
            _ => Err(EmuError::BadCsr(addr)),
        }
    }
}

// ---------------------------------------------------------------------------
// Laws of execution
// ---------------------------------------------------------------------------

/// `x0` reads zero after every instruction, whether it retired or failed.
pub proof fn lemma_step_keeps_x0_zero(s: CpuState, w: u32)
    requires
        s.regs.len() == 32,
    ensures
        s.step(w).0.regs.len() == 32,
        s.step(w).0.regs[0] == 0,
{
    lemma_decode_wf(w);
}

/// An instruction that fails for any reason but the `eret` stop leaves no
/// partial update: the state is the one it started from, with `x0` cleared.
/// `eret` only moves the program counter to `mepc`.
pub proof fn lemma_failed_step_changes_nothing(s: CpuState, w: u32)
    requires
        s.step(w).1 is Err,
    ensures
        s.step(w).1 != Err::<WBStatus, EmuError>(EmuError::EretStop) ==> s.step(w).0 == s.begin(),
        s.step(w).1 == Err::<WBStatus, EmuError>(EmuError::EretStop) ==> s.step(w).0 == s.begin().jump(
            s.mepc,
        ),
{
}

/// Stores, branches and `ecall` write no register: their record names no
/// destination and does not enable a write.
pub proof fn lemma_quiet_instructions_write_nothing_back(s: CpuState, w: u32)
    requires
        decode_spec(w) is Ok,
        !decode_spec(w)->Ok_0.writes_rd(),
        s.step(w).1 is Ok,
    ensures
        s.step(w).1->Ok_0.wb_rd == 0,
        s.step(w).1->Ok_0.wb_ena == 0,
{
}

/// An instruction that writes a register but names `x0` as its destination
/// does not enable the write, whatever value it computed.
pub proof fn lemma_x0_destination_disables_write(s: CpuState, w: u32)
    requires
        decode_spec(w) is Ok,
        decode_spec(w)->Ok_0.writes_rd(),
        decode_spec(w)->Ok_0.dest() == 0,
        s.step(w).1 is Ok,
    ensures
        s.step(w).1->Ok_0.wb_rd == 0,
        s.step(w).1->Ok_0.wb_ena == 0,
{
}

/// `auipc rd, 0` at address `p` (the program counter having already stepped
/// to `p + 4`) sets `rd` to `p`.
pub proof fn lemma_auipc_zero_yields_pc(s: CpuState, p: u32, rd: u32)
    requires
        s.regs.len() == 32,
        0 < rd < 32,
        s.pc == wrap(p + 4),
    ensures
        s.step(encode(Instr::AUIPC(rd, 0))).0.x(rd) == p,
        s.step(encode(Instr::AUIPC(rd, 0))).1 == Ok::<WBStatus, EmuError>(retired(p, rd, p)),
{
    assert(0u32 & 0xfff == 0) by (bit_vector);
    let i = Instr::AUIPC(rd, 0);
    lemma_decode_encode(i);
    assert(decode_spec(encode(i)) == Ok::<Instr, EmuError>(i));
    let b = s.begin();
    assert(b.pc == s.pc);
    let cur = wrap(b.pc - 4);
    assert(cur == p);
    assert(wrap(cur + 0u32) == p);
    assert(s.step(encode(i)) == b.apply(i));
    assert(b.apply(i) == b.retire(cur, rd, wrap(cur + 0u32)));
}

/// The store instruction of `size` bits (`sb`, `sh` or `sw`).
pub open spec fn store_instr(size: u32, src: u32, off: i32, base: u32) -> Instr {
    if size == 8 {
        Instr::SB(src, off, base)
    } else if size == 16 {
        Instr::SH(src, off, base)
    } else {
        Instr::SW(src, off, base)
    }
}

/// The sign-extending load instruction of `size` bits (`lb`, `lh` or `lw`).
pub open spec fn load_instr(size: u32, rd: u32, off: i32, base: u32) -> Instr {
    if size == 8 {
        Instr::LB(rd, off, base)
    } else if size == 16 {
        Instr::LH(rd, off, base)
    } else {
        Instr::LW(rd, off, base)
    }
}

/// A store of `x[src]` into memory (not to the LED port) followed by a load
/// of the same width from the same `off(base)` reproduces the low bits of
/// the stored value in `rd`.
pub proof fn lemma_store_then_load_reproduces_low_bits(
    s: CpuState,
    size: u32,
    src: u32,
    rd: u32,
    off: i32,
    base: u32,
)
    requires
        s.regs.len() == 32,
        size == 8 || size == 16 || size == 32,
        src < 32,
        base < 32,
        0 < rd < 32,
        -0x800 <= off < 0x800,
        s.step(encode(store_instr(size, src, off, base))).1 is Ok,
        s.step(encode(store_instr(size, src, off, base))).0.led is None,
    ensures
        ({
            let t = s.step(encode(store_instr(size, src, off, base))).0;
            let u = t.step(encode(load_instr(size, rd, off, base)));
            &&& u.1 is Ok
            &&& low_bytes(u.0.x(rd), (size / 8) as nat) == low_bytes(
                s.begin().x(src),
                (size / 8) as nat,
            )
        }),
{
    let st = store_instr(size, src, off, base);
    let ld = load_instr(size, rd, off, base);
    lemma_decode_encode(st);
    lemma_decode_encode(ld);
    let b = s.begin();
    let ea = b.ea(base, off);
    let v = b.x(src);
    lemma_store_then_load(b.dram, ea, v, size);
    let t = s.step(encode(st)).0;
    assert(t.begin().ea(base, off) == ea);
    let r = t.begin().dram.load(ea, size);
    assert(r == Ok::<u32, EmuError>(low_bytes(v, (size / 8) as nat)));
    let lv = low_bytes(v, (size / 8) as nat);
    if size == 8 {
        assert(sext_byte(lv) & 0xff == v & 0xff) by (bit_vector)
            requires
                lv == v & 0xff,
        ;
    } else if size == 16 {
        assert(sext_half(lv) & 0xffff == v & 0xffff) by (bit_vector)
            requires
                lv == v & 0xffff,
        ;
    }
}

} // verus!
