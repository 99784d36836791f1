use crate::error::EmuError;
use vstd::prelude::*;

verus! {

/// A general-purpose register index, `0..=31`.
pub type Reg = u32;

/// A CSR address, `0..=0xfff`.
#[allow(clippy::upper_case_acronyms)]
pub type CSR = u32;

/// A decoded RV32I or Zicsr instruction.
///
/// Loads, stores and `jalr` carry `(register, offset, base)`; branches carry
/// `(rs1, rs2, offset)`; register-immediate forms `(rd, rs1, imm)`;
/// register-register forms `(rd, rs1, rs2)`; CSR forms `(rd, csr, rs1)` or
/// `(rd, csr, zimm)`. Every immediate is already sign-extended, and the
/// immediate of `lui` and `auipc` already sits in the upper 20 bits.
#[allow(clippy::upper_case_acronyms)]
#[derive(Clone, Copy, Debug, PartialEq, Eq, Structural)]
pub enum Instr {
    LUI(Reg, u32),
    AUIPC(Reg, u32),
    JAL(Reg, i32),
    BEQ(Reg, Reg, i32),
    BNE(Reg, Reg, i32),
    BLT(Reg, Reg, i32),
    BGE(Reg, Reg, i32),
    BLTU(Reg, Reg, i32),
    BGEU(Reg, Reg, i32),
    SB(Reg, i32, Reg),
    SH(Reg, i32, Reg),
    SW(Reg, i32, Reg),
    ADDI(Reg, Reg, i32),
    ANDI(Reg, Reg, i32),
    ORI(Reg, Reg, i32),
    XORI(Reg, Reg, i32),
    SLLI(Reg, Reg, i32),
    SRLI(Reg, Reg, i32),
    SRAI(Reg, Reg, i32),
    SLTI(Reg, Reg, i32),
    SLTIU(Reg, Reg, i32),
    LB(Reg, i32, Reg),
    LH(Reg, i32, Reg),
    LW(Reg, i32, Reg),
    LBU(Reg, i32, Reg),
    LHU(Reg, i32, Reg),
    JALR(Reg, i32, Reg),
    ADD(Reg, Reg, Reg),
    SUB(Reg, Reg, Reg),
    SLL(Reg, Reg, Reg),
    SLT(Reg, Reg, Reg),
    SLTU(Reg, Reg, Reg),
    XOR(Reg, Reg, Reg),
    SRL(Reg, Reg, Reg),
    SRA(Reg, Reg, Reg),
    OR(Reg, Reg, Reg),
    AND(Reg, Reg, Reg),
    ECALL,
    ERET,
    CSRRW(Reg, CSR, Reg),
    CSRRS(Reg, CSR, Reg),
    CSRRC(Reg, CSR, Reg),
    CSRRWI(Reg, CSR, u32),
    CSRRSI(Reg, CSR, u32),
    CSRRCI(Reg, CSR, u32),
}

impl Instr {
    /// Every field is in the range its encoding can hold: register indices
    /// below 32, CSR addresses below `0x1000`, immediates of the width of
    /// their format (branch and jump offsets even, upper immediates with
    /// their low 12 bits clear).
    pub open spec fn wf(self) -> bool {
        match self {
            Instr::LUI(rd, imm) | Instr::AUIPC(rd, imm) => rd < 32 && imm & 0xfff == 0,
            Instr::JAL(rd, off) => rd < 32 && -0x10_0000 <= off < 0x10_0000 && off & 1 == 0,
            Instr::BEQ(a, b, off)
            | Instr::BNE(a, b, off)
            | Instr::BLT(a, b, off)
            | Instr::BGE(a, b, off)
            | Instr::BLTU(a, b, off)
            | Instr::BGEU(a, b, off) => a < 32 && b < 32 && -0x1000 <= off < 0x1000 && off & 1 == 0,
            Instr::SB(a, off, b)
            | Instr::SH(a, off, b)
            | Instr::SW(a, off, b)
            | Instr::LB(a, off, b)
            | Instr::LH(a, off, b)
            | Instr::LW(a, off, b)
            | Instr::LBU(a, off, b)
            | Instr::LHU(a, off, b)
            | Instr::JALR(a, off, b) => a < 32 && b < 32 && -0x800 <= off < 0x800,
            Instr::ADDI(a, b, imm)
            | Instr::ANDI(a, b, imm)
            | Instr::ORI(a, b, imm)
            | Instr::XORI(a, b, imm)
            | Instr::SLTI(a, b, imm)
            | Instr::SLTIU(a, b, imm) => a < 32 && b < 32 && -0x800 <= imm < 0x800,
            Instr::SLLI(a, b, sh) | Instr::SRLI(a, b, sh) | Instr::SRAI(a, b, sh) => a < 32 && b
                < 32 && 0 <= sh < 32,
            Instr::ADD(a, b, c)
            | Instr::SUB(a, b, c)
            | Instr::SLL(a, b, c)
            | Instr::SLT(a, b, c)
            | Instr::SLTU(a, b, c)
            | Instr::XOR(a, b, c)
            | Instr::SRL(a, b, c)
            | Instr::SRA(a, b, c)
            | Instr::OR(a, b, c)
            | Instr::AND(a, b, c) => a < 32 && b < 32 && c < 32,
            Instr::ECALL | Instr::ERET => true,
            Instr::CSRRW(rd, csr, x)
            | Instr::CSRRS(rd, csr, x)
            | Instr::CSRRC(rd, csr, x)
            | Instr::CSRRWI(rd, csr, x)
            | Instr::CSRRSI(rd, csr, x)
            | Instr::CSRRCI(rd, csr, x) => rd < 32 && csr < 0x1000 && x < 32,
        }
    }

    /// Every register index it names is below 32.
    pub open spec fn regs_in_range(self) -> bool {
        match self {
            Instr::LUI(rd, _) | Instr::AUIPC(rd, _) | Instr::JAL(rd, _) => rd < 32,
            Instr::BEQ(a, b, _)
            | Instr::BNE(a, b, _)
            | Instr::BLT(a, b, _)
            | Instr::BGE(a, b, _)
            | Instr::BLTU(a, b, _)
            | Instr::BGEU(a, b, _)
            | Instr::SB(a, _, b)
            | Instr::SH(a, _, b)
            | Instr::SW(a, _, b)
            | Instr::LB(a, _, b)
            | Instr::LH(a, _, b)
            | Instr::LW(a, _, b)
            | Instr::LBU(a, _, b)
            | Instr::LHU(a, _, b)
            | Instr::JALR(a, _, b)
            | Instr::ADDI(a, b, _)
            | Instr::ANDI(a, b, _)
            | Instr::ORI(a, b, _)
            | Instr::XORI(a, b, _)
            | Instr::SLTI(a, b, _)
            | Instr::SLTIU(a, b, _)
            | Instr::SLLI(a, b, _)
            | Instr::SRLI(a, b, _)
            | Instr::SRAI(a, b, _) => a < 32 && b < 32,
            Instr::ADD(a, b, c)
            | Instr::SUB(a, b, c)
            | Instr::SLL(a, b, c)
            | Instr::SLT(a, b, c)
            | Instr::SLTU(a, b, c)
            | Instr::XOR(a, b, c)
            | Instr::SRL(a, b, c)
            | Instr::SRA(a, b, c)
            | Instr::OR(a, b, c)
            | Instr::AND(a, b, c) => a < 32 && b < 32 && c < 32,
            Instr::ECALL | Instr::ERET => true,
            Instr::CSRRW(rd, _, a) | Instr::CSRRS(rd, _, a) | Instr::CSRRC(rd, _, a) => rd < 32
                && a < 32,
            Instr::CSRRWI(rd, _, _) | Instr::CSRRSI(rd, _, _) | Instr::CSRRCI(rd, _, _) => rd < 32,
        }
    }

    /// The instruction architecturally writes a destination register: all
    /// but the stores, the branches, `ecall` and the `eret` family.
    pub open spec fn writes_rd(self) -> bool {
        !(self is SB || self is SH || self is SW || self is BEQ || self is BNE || self is BLT
            || self is BGE || self is BLTU || self is BGEU || self is ECALL || self is ERET)
    }

    /// The destination register of an instruction that writes one.
    pub open spec fn dest(self) -> u32 {
        match self {
            Instr::LUI(rd, _)
            | Instr::AUIPC(rd, _)
            | Instr::JAL(rd, _)
            | Instr::LB(rd, _, _)
            | Instr::LH(rd, _, _)
            | Instr::LW(rd, _, _)
            | Instr::LBU(rd, _, _)
            | Instr::LHU(rd, _, _)
            | Instr::JALR(rd, _, _)
            | Instr::ADDI(rd, _, _)
            | Instr::ANDI(rd, _, _)
            | Instr::ORI(rd, _, _)
            | Instr::XORI(rd, _, _)
            | Instr::SLLI(rd, _, _)
            | Instr::SRLI(rd, _, _)
            | Instr::SRAI(rd, _, _)
            | Instr::SLTI(rd, _, _)
            | Instr::SLTIU(rd, _, _)
            | Instr::ADD(rd, _, _)
            | Instr::SUB(rd, _, _)
            | Instr::SLL(rd, _, _)
            | Instr::SLT(rd, _, _)
            | Instr::SLTU(rd, _, _)
            | Instr::XOR(rd, _, _)
            | Instr::SRL(rd, _, _)
            | Instr::SRA(rd, _, _)
            | Instr::OR(rd, _, _)
            | Instr::AND(rd, _, _)
            | Instr::CSRRW(rd, _, _)
            | Instr::CSRRS(rd, _, _)
            | Instr::CSRRC(rd, _, _)
            | Instr::CSRRWI(rd, _, _)
            | Instr::CSRRSI(rd, _, _)
            | Instr::CSRRCI(rd, _, _) => rd,
            _ => 0,
        }
    }
}

// ---------------------------------------------------------------------------
// Fixed fields of an instruction word
// ---------------------------------------------------------------------------

/// `word[6:0]`
pub open spec fn opcode_of(w: u32) -> u32 {
    w & 0x7f
}

/// `word[11:7]`
pub open spec fn rd_of(w: u32) -> u32 {
    (w >> 7) & 0x1f
}

/// `word[14:12]`
pub open spec fn funct3_of(w: u32) -> u32 {
    (w >> 12) & 0x7
}

/// `word[19:15]`
pub open spec fn rs1_of(w: u32) -> u32 {
    (w >> 15) & 0x1f
}

/// `word[24:20]`
pub open spec fn rs2_of(w: u32) -> u32 {
    (w >> 20) & 0x1f
}

/// `word[31:25]`
pub open spec fn funct7_of(w: u32) -> u32 {
    w >> 25
}

/// `word[31:20]`, the CSR address of a Zicsr instruction.
pub open spec fn csr_of(w: u32) -> u32 {
    w >> 20
}

/// The low `width` bits of `x` (`1 <= width <= 31`, `x < 2^width`) read as a
/// two's-complement number.
pub open spec fn sext(x: u32, width: u32) -> i32 {
    if (x >> ((width - 1) as u32)) & 1 == 0 {
        x as i32
    } else {
        (x | (0xffff_ffffu32 << width)) as i32
    }
}

/// I-type immediate: `sext(word[31:20], 12)`.
pub open spec fn imm_i(w: u32) -> i32 {
    sext(w >> 20, 12)
}

/// S-type immediate: `sext({word[31:25], word[11:7]}, 12)`.
pub open spec fn imm_s(w: u32) -> i32 {
    sext(((w >> 25) << 5) | ((w >> 7) & 0x1f), 12)
}

/// B-type immediate: `sext({word[31], word[7], word[30:25], word[11:8], 0}, 13)`.
pub open spec fn imm_b(w: u32) -> i32 {
    sext(
        ((w >> 31) << 12) | (((w >> 7) & 0x1) << 11) | (((w >> 25) & 0x3f) << 5) | (((w >> 8)
            & 0xf) << 1),
        13,
    )
}

/// U-type immediate: `word[31:12] << 12`.
pub open spec fn imm_u(w: u32) -> u32 {
    (w >> 12) << 12
}

/// J-type immediate: `sext({word[31], word[19:12], word[20], word[30:21], 0}, 21)`.
pub open spec fn imm_j(w: u32) -> i32 {
    sext(
        ((w >> 31) << 20) | (((w >> 12) & 0xff) << 12) | (((w >> 20) & 0x1) << 11) | (((w >> 21)
            & 0x3ff) << 1),
        21,
    )
}

// ---------------------------------------------------------------------------
// The dispatch table
// ---------------------------------------------------------------------------

/// What the word `w` decodes to: the instruction its opcode, `funct3` and
/// `funct7` select, or `Decode(w)` where the table has no entry.
pub open spec fn decode_spec(w: u32) -> Result<Instr, EmuError> {
    let rd = rd_of(w);
    let rs1 = rs1_of(w);
    let rs2 = rs2_of(w);
    let f3 = funct3_of(w);
    let f7 = funct7_of(w);
    let bad = Err(EmuError::Decode(w));
    if opcode_of(w) == 0x03 {
        let imm = imm_i(w);
        if f3 == 0 {
            Ok(Instr::LB(rd, imm, rs1))
        } else if f3 == 1 {
            Ok(Instr::LH(rd, imm, rs1))
        } else if f3 == 2 {
            Ok(Instr::LW(rd, imm, rs1))
        } else if f3 == 4 {
            Ok(Instr::LBU(rd, imm, rs1))
        } else if f3 == 5 {
            Ok(Instr::LHU(rd, imm, rs1))
        } else {
            bad
        }
    } else if opcode_of(w) == 0x13 {
        let imm = imm_i(w);
        let shamt = rs2 as i32;
        if f3 == 0 {
            Ok(Instr::ADDI(rd, rs1, imm))
        } else if f3 == 1 {
            if f7 == 0 {
                Ok(Instr::SLLI(rd, rs1, shamt))
            } else {
                bad
            }
        } else if f3 == 2 {
            Ok(Instr::SLTI(rd, rs1, imm))
        } else if f3 == 3 {
            Ok(Instr::SLTIU(rd, rs1, imm))
        } else if f3 == 4 {
            Ok(Instr::XORI(rd, rs1, imm))
        } else if f3 == 5 {
            if f7 == 0 {
                Ok(Instr::SRLI(rd, rs1, shamt))
            } else if f7 == 0x20 {
                Ok(Instr::SRAI(rd, rs1, shamt))
            } else {
                bad
            }
        } else if f3 == 6 {
            Ok(Instr::ORI(rd, rs1, imm))
        } else {
            Ok(Instr::ANDI(rd, rs1, imm))
        }
    } else if opcode_of(w) == 0x17 {
        Ok(Instr::AUIPC(rd, imm_u(w)))
    } else if opcode_of(w) == 0x23 {
        let imm = imm_s(w);
        if f3 == 0 {
            Ok(Instr::SB(rs2, imm, rs1))
        } else if f3 == 1 {
            Ok(Instr::SH(rs2, imm, rs1))
        } else if f3 == 2 {
            Ok(Instr::SW(rs2, imm, rs1))
        } else {
            bad
        }
    } else if opcode_of(w) == 0x33 {
        if f7 == 0 {
            if f3 == 0 {
                Ok(Instr::ADD(rd, rs1, rs2))
            } else if f3 == 1 {
                Ok(Instr::SLL(rd, rs1, rs2))
            } else if f3 == 2 {
                Ok(Instr::SLT(rd, rs1, rs2))
            } else if f3 == 3 {
                Ok(Instr::SLTU(rd, rs1, rs2))
            } else if f3 == 4 {
                Ok(Instr::XOR(rd, rs1, rs2))
            } else if f3 == 5 {
                Ok(Instr::SRL(rd, rs1, rs2))
            } else if f3 == 6 {
                Ok(Instr::OR(rd, rs1, rs2))
            } else {
                Ok(Instr::AND(rd, rs1, rs2))
            }
        } else if f7 == 0x20 && f3 == 0 {
            Ok(Instr::SUB(rd, rs1, rs2))
        } else if f7 == 0x20 && f3 == 5 {
            Ok(Instr::SRA(rd, rs1, rs2))
        } else {
            bad
        }
    } else if opcode_of(w) == 0x37 {
        Ok(Instr::LUI(rd, imm_u(w)))
    } else if opcode_of(w) == 0x63 {
        let rs1 = rs1_of(w);
        let imm = imm_b(w);
        if f3 == 0 {
            Ok(Instr::BEQ(rs1, rs2, imm))
        } else if f3 == 1 {
            Ok(Instr::BNE(rs1, rs2, imm))
        } else if f3 == 4 {
            Ok(Instr::BLT(rs1, rs2, imm))
        } else if f3 == 5 {
            Ok(Instr::BGE(rs1, rs2, imm))
        } else if f3 == 6 {
            Ok(Instr::BLTU(rs1, rs2, imm))
        } else if f3 == 7 {
            Ok(Instr::BGEU(rs1, rs2, imm))
        } else {
            bad
        }
    } else if opcode_of(w) == 0x67 {
        Ok(Instr::JALR(rd, imm_i(w), rs1))
    } else if opcode_of(w) == 0x6f {
        Ok(Instr::JAL(rd, imm_j(w)))
    } else if opcode_of(w) == 0x73 {
        let csr = csr_of(w);
        if f3 == 0 {
            if rs2 == 0 {
                Ok(Instr::ECALL)
            } else if rs2 == 2 {
                Ok(Instr::ERET)
            } else {
                bad
            }
        } else if f3 == 1 {
            Ok(Instr::CSRRW(rd, csr, rs1))
        } else if f3 == 2 {
            Ok(Instr::CSRRS(rd, csr, rs1))
        } else if f3 == 3 {
            Ok(Instr::CSRRC(rd, csr, rs1))
        } else if f3 == 5 {
            Ok(Instr::CSRRWI(rd, csr, rs1))
        } else if f3 == 6 {
            Ok(Instr::CSRRSI(rd, csr, rs1))
        } else if f3 == 7 {
            Ok(Instr::CSRRCI(rd, csr, rs1))
        } else {
            bad
        }
    } else {
        bad
    }
}

// ---------------------------------------------------------------------------
// Encodings
// ---------------------------------------------------------------------------

/// An R-type word (also the shift-immediate forms, with the shift amount in
/// the `rs2` slot).
pub open spec fn enc_r(op: u32, f3: u32, f7: u32, rd: u32, rs1: u32, rs2: u32) -> u32 {
    (f7 << 25) | (rs2 << 20) | (rs1 << 15) | (f3 << 12) | (rd << 7) | op
}

/// An I-type word.
pub open spec fn enc_i(op: u32, f3: u32, rd: u32, rs1: u32, imm: i32) -> u32 {
    (((imm as u32) & 0xfff) << 20) | (rs1 << 15) | (f3 << 12) | (rd << 7) | op
}

/// An S-type word.
pub open spec fn enc_s(op: u32, f3: u32, rs1: u32, rs2: u32, imm: i32) -> u32 {
    ((((imm as u32) >> 5) & 0x7f) << 25) | (rs2 << 20) | (rs1 << 15) | (f3 << 12) | (((imm as u32)
        & 0x1f) << 7) | op
}

/// A B-type word.
pub open spec fn enc_b(op: u32, f3: u32, rs1: u32, rs2: u32, imm: i32) -> u32 {
    let u = imm as u32;
    (((u >> 12) & 1) << 31) | (((u >> 5) & 0x3f) << 25) | (rs2 << 20) | (rs1 << 15) | (f3 << 12)
        | (((u >> 1) & 0xf) << 8) | (((u >> 11) & 1) << 7) | op
}

/// A U-type word; `imm` has its low 12 bits clear.
pub open spec fn enc_u(op: u32, rd: u32, imm: u32) -> u32 {
    imm | (rd << 7) | op
}

/// A J-type word.
pub open spec fn enc_j(op: u32, rd: u32, imm: i32) -> u32 {
    let u = imm as u32;
    (((u >> 20) & 1) << 31) | (((u >> 1) & 0x3ff) << 21) | (((u >> 11) & 1) << 20) | (((u >> 12)
        & 0xff) << 12) | (rd << 7) | op
}

/// A Zicsr word: CSR address in the immediate slot, register or `zimm` in
/// the `rs1` slot.
pub open spec fn enc_csr(f3: u32, rd: u32, csr: u32, src: u32) -> u32 {
    (csr << 20) | (src << 15) | (f3 << 12) | (rd << 7) | 0x73
}

/// The word of `i`: the standard RV32I / Zicsr encoding, with `mret` for the
/// `eret` family.
pub open spec fn encode(i: Instr) -> u32 {
    match i {
        Instr::LUI(rd, imm) => enc_u(0x37, rd, imm),
        Instr::AUIPC(rd, imm) => enc_u(0x17, rd, imm),
        Instr::JAL(rd, off) => enc_j(0x6f, rd, off),
        Instr::BEQ(a, b, off) => enc_b(0x63, 0, a, b, off),
        Instr::BNE(a, b, off) => enc_b(0x63, 1, a, b, off),
        Instr::BLT(a, b, off) => enc_b(0x63, 4, a, b, off),
        Instr::BGE(a, b, off) => enc_b(0x63, 5, a, b, off),
        Instr::BLTU(a, b, off) => enc_b(0x63, 6, a, b, off),
        Instr::BGEU(a, b, off) => enc_b(0x63, 7, a, b, off),
        Instr::SB(src, off, base) => enc_s(0x23, 0, base, src, off),
        Instr::SH(src, off, base) => enc_s(0x23, 1, base, src, off),
        Instr::SW(src, off, base) => enc_s(0x23, 2, base, src, off),
        Instr::ADDI(rd, a, imm) => enc_i(0x13, 0, rd, a, imm),
        Instr::SLTI(rd, a, imm) => enc_i(0x13, 2, rd, a, imm),
        Instr::SLTIU(rd, a, imm) => enc_i(0x13, 3, rd, a, imm),
        Instr::XORI(rd, a, imm) => enc_i(0x13, 4, rd, a, imm),
        Instr::ORI(rd, a, imm) => enc_i(0x13, 6, rd, a, imm),
        Instr::ANDI(rd, a, imm) => enc_i(0x13, 7, rd, a, imm),
        Instr::SLLI(rd, a, sh) => enc_r(0x13, 1, 0, rd, a, sh as u32),
        Instr::SRLI(rd, a, sh) => enc_r(0x13, 5, 0, rd, a, sh as u32),
        Instr::SRAI(rd, a, sh) => enc_r(0x13, 5, 0x20, rd, a, sh as u32),
        Instr::LB(rd, off, base) => enc_i(0x03, 0, rd, base, off),
        Instr::LH(rd, off, base) => enc_i(0x03, 1, rd, base, off),
        Instr::LW(rd, off, base) => enc_i(0x03, 2, rd, base, off),
        Instr::LBU(rd, off, base) => enc_i(0x03, 4, rd, base, off),
        Instr::LHU(rd, off, base) => enc_i(0x03, 5, rd, base, off),
        Instr::JALR(rd, off, base) => enc_i(0x67, 0, rd, base, off),
        Instr::ADD(rd, a, b) => enc_r(0x33, 0, 0, rd, a, b),
        Instr::SUB(rd, a, b) => enc_r(0x33, 0, 0x20, rd, a, b),
        Instr::SLL(rd, a, b) => enc_r(0x33, 1, 0, rd, a, b),
        Instr::SLT(rd, a, b) => enc_r(0x33, 2, 0, rd, a, b),
        Instr::SLTU(rd, a, b) => enc_r(0x33, 3, 0, rd, a, b),
        Instr::XOR(rd, a, b) => enc_r(0x33, 4, 0, rd, a, b),
        Instr::SRL(rd, a, b) => enc_r(0x33, 5, 0, rd, a, b),
        Instr::SRA(rd, a, b) => enc_r(0x33, 5, 0x20, rd, a, b),
        Instr::OR(rd, a, b) => enc_r(0x33, 6, 0, rd, a, b),
        Instr::AND(rd, a, b) => enc_r(0x33, 7, 0, rd, a, b),
        Instr::ECALL => 0x0000_0073,
        Instr::ERET => 0x3020_0073,
        Instr::CSRRW(rd, csr, a) => enc_csr(1, rd, csr, a),
        Instr::CSRRS(rd, csr, a) => enc_csr(2, rd, csr, a),
        Instr::CSRRC(rd, csr, a) => enc_csr(3, rd, csr, a),
        Instr::CSRRWI(rd, csr, z) => enc_csr(5, rd, csr, z),
        Instr::CSRRSI(rd, csr, z) => enc_csr(6, rd, csr, z),
        Instr::CSRRCI(rd, csr, z) => enc_csr(7, rd, csr, z),
    }
}

proof fn lemma_enc_r(op: u32, f3: u32, f7: u32, rd: u32, rs1: u32, rs2: u32)
    requires
        op < 0x80,
        f3 < 8,
        f7 < 0x80,
        rd < 32,
        rs1 < 32,
        rs2 < 32,
    ensures
        opcode_of(enc_r(op, f3, f7, rd, rs1, rs2)) == op,
        funct3_of(enc_r(op, f3, f7, rd, rs1, rs2)) == f3,
        funct7_of(enc_r(op, f3, f7, rd, rs1, rs2)) == f7,
        rd_of(enc_r(op, f3, f7, rd, rs1, rs2)) == rd,
        rs1_of(enc_r(op, f3, f7, rd, rs1, rs2)) == rs1,
        rs2_of(enc_r(op, f3, f7, rd, rs1, rs2)) == rs2,
{
    let w = enc_r(op, f3, f7, rd, rs1, rs2);
    assert(opcode_of(w) == op && funct3_of(w) == f3 && funct7_of(w) == f7) by (bit_vector)
        requires
            w == enc_r(op, f3, f7, rd, rs1, rs2),
            op < 0x80,
            f3 < 8,
            f7 < 0x80,
            rd < 32,
            rs1 < 32,
            rs2 < 32,
    ;
    assert(rd_of(w) == rd && rs1_of(w) == rs1 && rs2_of(w) == rs2) by (bit_vector)
        requires
            w == enc_r(op, f3, f7, rd, rs1, rs2),
            op < 0x80,
            f3 < 8,
            f7 < 0x80,
            rd < 32,
            rs1 < 32,
            rs2 < 32,
    ;
}

proof fn lemma_enc_i(op: u32, f3: u32, rd: u32, rs1: u32, imm: i32)
    requires
        op < 0x80,
        f3 < 8,
        rd < 32,
        rs1 < 32,
        -0x800 <= imm < 0x800,
    ensures
        opcode_of(enc_i(op, f3, rd, rs1, imm)) == op,
        funct3_of(enc_i(op, f3, rd, rs1, imm)) == f3,
        rd_of(enc_i(op, f3, rd, rs1, imm)) == rd,
        rs1_of(enc_i(op, f3, rd, rs1, imm)) == rs1,
        imm_i(enc_i(op, f3, rd, rs1, imm)) == imm,
{
    let w = enc_i(op, f3, rd, rs1, imm);
    assert(opcode_of(w) == op && funct3_of(w) == f3 && rd_of(w) == rd && rs1_of(w) == rs1)
        by (bit_vector)
        requires
            w == enc_i(op, f3, rd, rs1, imm),
            op < 0x80,
            f3 < 8,
            rd < 32,
            rs1 < 32,
    ;
    assert(imm_i(w) == imm) by (bit_vector)
        requires
            w == enc_i(op, f3, rd, rs1, imm),
            op < 0x80,
            f3 < 8,
            rd < 32,
            rs1 < 32,
            -0x800 <= imm < 0x800,
    ;
}

proof fn lemma_enc_s(op: u32, f3: u32, rs1: u32, rs2: u32, imm: i32)
    requires
        op < 0x80,
        f3 < 8,
        rs1 < 32,
        rs2 < 32,
        -0x800 <= imm < 0x800,
    ensures
        opcode_of(enc_s(op, f3, rs1, rs2, imm)) == op,
        funct3_of(enc_s(op, f3, rs1, rs2, imm)) == f3,
        rs1_of(enc_s(op, f3, rs1, rs2, imm)) == rs1,
        rs2_of(enc_s(op, f3, rs1, rs2, imm)) == rs2,
        imm_s(enc_s(op, f3, rs1, rs2, imm)) == imm,
{
    let w = enc_s(op, f3, rs1, rs2, imm);
    assert(opcode_of(w) == op && funct3_of(w) == f3 && rs1_of(w) == rs1 && rs2_of(w) == rs2)
        by (bit_vector)
        requires
            w == enc_s(op, f3, rs1, rs2, imm),
            op < 0x80,
            f3 < 8,
            rs1 < 32,
            rs2 < 32,
    ;
    assert(imm_s(w) == imm) by (bit_vector)
        requires
            w == enc_s(op, f3, rs1, rs2, imm),
            op < 0x80,
            f3 < 8,
            rs1 < 32,
            rs2 < 32,
            -0x800 <= imm < 0x800,
    ;
}

proof fn lemma_enc_b(op: u32, f3: u32, rs1: u32, rs2: u32, imm: i32)
    requires
        op < 0x80,
        f3 < 8,
        rs1 < 32,
        rs2 < 32,
        -0x1000 <= imm < 0x1000,
        imm & 1 == 0,
    ensures
        opcode_of(enc_b(op, f3, rs1, rs2, imm)) == op,
        funct3_of(enc_b(op, f3, rs1, rs2, imm)) == f3,
        rs1_of(enc_b(op, f3, rs1, rs2, imm)) == rs1,
        rs2_of(enc_b(op, f3, rs1, rs2, imm)) == rs2,
        imm_b(enc_b(op, f3, rs1, rs2, imm)) == imm,
{
    let w = enc_b(op, f3, rs1, rs2, imm);
    assert(opcode_of(w) == op && funct3_of(w) == f3 && rs1_of(w) == rs1 && rs2_of(w) == rs2)
        by (bit_vector)
        requires
            w == enc_b(op, f3, rs1, rs2, imm),
            op < 0x80,
            f3 < 8,
            rs1 < 32,
            rs2 < 32,
    ;
    assert(imm_b(w) == imm) by (bit_vector)
        requires
            w == enc_b(op, f3, rs1, rs2, imm),
            op < 0x80,
            f3 < 8,
            rs1 < 32,
            rs2 < 32,
            -0x1000 <= imm < 0x1000,
            imm & 1 == 0,
    ;
}

proof fn lemma_enc_u(op: u32, rd: u32, imm: u32)
    requires
        op < 0x80,
        rd < 32,
        imm & 0xfff == 0,
    ensures
        opcode_of(enc_u(op, rd, imm)) == op,
        rd_of(enc_u(op, rd, imm)) == rd,
        imm_u(enc_u(op, rd, imm)) == imm,
{
    let w = enc_u(op, rd, imm);
    assert(opcode_of(w) == op && rd_of(w) == rd && imm_u(w) == imm) by (bit_vector)
        requires
            w == enc_u(op, rd, imm),
            op < 0x80,
            rd < 32,
            imm & 0xfff == 0,
    ;
}

proof fn lemma_enc_j(op: u32, rd: u32, imm: i32)
    requires
        op < 0x80,
        rd < 32,
        -0x10_0000 <= imm < 0x10_0000,
        imm & 1 == 0,
    ensures
        opcode_of(enc_j(op, rd, imm)) == op,
        rd_of(enc_j(op, rd, imm)) == rd,
        imm_j(enc_j(op, rd, imm)) == imm,
{
    let w = enc_j(op, rd, imm);
    assert(opcode_of(w) == op && rd_of(w) == rd) by (bit_vector)
        requires
            w == enc_j(op, rd, imm),
            op < 0x80,
            rd < 32,
    ;
    assert(imm_j(w) == imm) by (bit_vector)
        requires
            w == enc_j(op, rd, imm),
            op < 0x80,
            rd < 32,
            -0x10_0000 <= imm < 0x10_0000,
            imm & 1 == 0,
    ;
}

proof fn lemma_enc_csr(f3: u32, rd: u32, csr: u32, src: u32)
    requires
        f3 < 8,
        rd < 32,
        csr < 0x1000,
        src < 32,
    ensures
        opcode_of(enc_csr(f3, rd, csr, src)) == 0x73,
        funct3_of(enc_csr(f3, rd, csr, src)) == f3,
        rd_of(enc_csr(f3, rd, csr, src)) == rd,
        rs1_of(enc_csr(f3, rd, csr, src)) == src,
        csr_of(enc_csr(f3, rd, csr, src)) == csr,
{
    let w = enc_csr(f3, rd, csr, src);
    assert(opcode_of(w) == 0x73 && funct3_of(w) == f3 && rd_of(w) == rd && rs1_of(w) == src
        && csr_of(w) == csr) by (bit_vector)
        requires
            w == enc_csr(f3, rd, csr, src),
            f3 < 8,
            rd < 32,
            csr < 0x1000,
            src < 32,
    ;
}

/// Round trip: the word of any instruction whose fields are in range decodes
/// back to that instruction, whatever its encoding family.
pub proof fn lemma_decode_encode(i: Instr)
    requires
        i.wf(),
    ensures
        decode_spec(encode(i)) == Ok::<Instr, EmuError>(i),
{
    match i {
        Instr::LUI(rd, imm) => lemma_enc_u(0x37, rd, imm),
        Instr::AUIPC(rd, imm) => lemma_enc_u(0x17, rd, imm),
        Instr::JAL(rd, off) => lemma_enc_j(0x6f, rd, off),
        Instr::BEQ(a, b, off) => lemma_enc_b(0x63, 0, a, b, off),
        Instr::BNE(a, b, off) => lemma_enc_b(0x63, 1, a, b, off),
        Instr::BLT(a, b, off) => lemma_enc_b(0x63, 4, a, b, off),
        Instr::BGE(a, b, off) => lemma_enc_b(0x63, 5, a, b, off),
        Instr::BLTU(a, b, off) => lemma_enc_b(0x63, 6, a, b, off),
        Instr::BGEU(a, b, off) => lemma_enc_b(0x63, 7, a, b, off),
        Instr::SB(src, off, base) => lemma_enc_s(0x23, 0, base, src, off),
        Instr::SH(src, off, base) => lemma_enc_s(0x23, 1, base, src, off),
        Instr::SW(src, off, base) => lemma_enc_s(0x23, 2, base, src, off),
        Instr::ADDI(rd, a, imm) => lemma_enc_i(0x13, 0, rd, a, imm),
        Instr::SLTI(rd, a, imm) => lemma_enc_i(0x13, 2, rd, a, imm),
        Instr::SLTIU(rd, a, imm) => lemma_enc_i(0x13, 3, rd, a, imm),
        Instr::XORI(rd, a, imm) => lemma_enc_i(0x13, 4, rd, a, imm),
        Instr::ORI(rd, a, imm) => lemma_enc_i(0x13, 6, rd, a, imm),
        Instr::ANDI(rd, a, imm) => lemma_enc_i(0x13, 7, rd, a, imm),
        Instr::SLLI(rd, a, sh) => lemma_enc_r(0x13, 1, 0, rd, a, sh as u32),
        Instr::SRLI(rd, a, sh) => lemma_enc_r(0x13, 5, 0, rd, a, sh as u32),
        Instr::SRAI(rd, a, sh) => lemma_enc_r(0x13, 5, 0x20, rd, a, sh as u32),
        Instr::LB(rd, off, base) => lemma_enc_i(0x03, 0, rd, base, off),
        Instr::LH(rd, off, base) => lemma_enc_i(0x03, 1, rd, base, off),
        Instr::LW(rd, off, base) => lemma_enc_i(0x03, 2, rd, base, off),
        Instr::LBU(rd, off, base) => lemma_enc_i(0x03, 4, rd, base, off),
        Instr::LHU(rd, off, base) => lemma_enc_i(0x03, 5, rd, base, off),
        Instr::JALR(rd, off, base) => lemma_enc_i(0x67, 0, rd, base, off),
        Instr::ADD(rd, a, b) => lemma_enc_r(0x33, 0, 0, rd, a, b),
        Instr::SUB(rd, a, b) => lemma_enc_r(0x33, 0, 0x20, rd, a, b),
        Instr::SLL(rd, a, b) => lemma_enc_r(0x33, 1, 0, rd, a, b),
        Instr::SLT(rd, a, b) => lemma_enc_r(0x33, 2, 0, rd, a, b),
        Instr::SLTU(rd, a, b) => lemma_enc_r(0x33, 3, 0, rd, a, b),
        Instr::XOR(rd, a, b) => lemma_enc_r(0x33, 4, 0, rd, a, b),
        Instr::SRL(rd, a, b) => lemma_enc_r(0x33, 5, 0, rd, a, b),
        Instr::SRA(rd, a, b) => lemma_enc_r(0x33, 5, 0x20, rd, a, b),
        Instr::OR(rd, a, b) => lemma_enc_r(0x33, 6, 0, rd, a, b),
        Instr::AND(rd, a, b) => lemma_enc_r(0x33, 7, 0, rd, a, b),
        Instr::ECALL => {
            let w: u32 = 0x0000_0073;
            assert(opcode_of(w) == 0x73 && funct3_of(w) == 0 && rs2_of(w) == 0) by (bit_vector)
                requires
                    w == 0x0000_0073,
            ;
        },
        Instr::ERET => {
            let w: u32 = 0x3020_0073;
            assert(opcode_of(w) == 0x73 && funct3_of(w) == 0 && rs2_of(w) == 2) by (bit_vector)
                requires
                    w == 0x3020_0073,
            ;
        },
        Instr::CSRRW(rd, csr, a) => lemma_enc_csr(1, rd, csr, a),
        Instr::CSRRS(rd, csr, a) => lemma_enc_csr(2, rd, csr, a),
        Instr::CSRRC(rd, csr, a) => lemma_enc_csr(3, rd, csr, a),
        Instr::CSRRWI(rd, csr, z) => lemma_enc_csr(5, rd, csr, z),
        Instr::CSRRSI(rd, csr, z) => lemma_enc_csr(6, rd, csr, z),
        Instr::CSRRCI(rd, csr, z) => lemma_enc_csr(7, rd, csr, z),
    }
}

// ---------------------------------------------------------------------------
// The decoder
// ---------------------------------------------------------------------------

proof fn lemma_imm_i(w: u32)
    ensures
        ((w & 0xfff0_0000) as i32) >> 20 == imm_i(w),
{
    assert(((w & 0xfff0_0000) as i32) >> 20 == sext(w >> 20, 12)) by (bit_vector);
}

proof fn lemma_imm_s(w: u32)
    ensures
        ((((w & 0xfe00_0000) as i32 >> 20) as u32) | ((w >> 7) & 0x1f)) as i32 == imm_s(w),
{
    assert(((((w & 0xfe00_0000) as i32 >> 20) as u32) | ((w >> 7) & 0x1f)) as i32 == sext(
        ((w >> 25) << 5) | ((w >> 7) & 0x1f),
        12,
    )) by (bit_vector);
}

proof fn lemma_imm_b(w: u32)
    ensures
        ((((w & 0x8000_0000) as i32 >> 19) as u32) | ((w & 0x80) << 4) | ((w >> 20) & 0x7e0) | ((w
            >> 7) & 0x1e)) as i32 == imm_b(w),
{
    assert(((((w & 0x8000_0000) as i32 >> 19) as u32) | ((w & 0x80) << 4) | ((w >> 20) & 0x7e0)
        | ((w >> 7) & 0x1e)) as i32 == sext(
        ((w >> 31) << 12) | (((w >> 7) & 0x1) << 11) | (((w >> 25) & 0x3f) << 5) | (((w >> 8)
            & 0xf) << 1),
        13,
    )) by (bit_vector);
}

proof fn lemma_imm_j(w: u32)
    ensures
        ((((w & 0x8000_0000) as i32 >> 11) as u32) | (w & 0xff000) | ((w >> 9) & 0x800) | ((w
            >> 20) & 0x7fe)) as i32 == imm_j(w),
{
    assert(((((w & 0x8000_0000) as i32 >> 11) as u32) | (w & 0xff000) | ((w >> 9) & 0x800) | ((w
        >> 20) & 0x7fe)) as i32 == sext(
        ((w >> 31) << 20) | (((w >> 12) & 0xff) << 12) | (((w >> 20) & 0x1) << 11) | (((w >> 21)
            & 0x3ff) << 1),
        21,
    )) by (bit_vector);
}

/// Whatever a word decodes to has its fields in range.
pub proof fn lemma_decode_wf(w: u32)
    ensures
        decode_spec(w) is Ok ==> decode_spec(w)->Ok_0.wf(),
{
    assert(rd_of(w) < 32 && rs1_of(w) < 32 && rs2_of(w) < 32 && csr_of(w) < 0x1000)
        by (bit_vector);
    assert(-0x800 <= imm_i(w) < 0x800 && -0x800 <= imm_s(w) < 0x800) by (bit_vector);
    assert(-0x1000 <= imm_b(w) < 0x1000 && imm_b(w) & 1 == 0) by (bit_vector);
    assert(-0x10_0000 <= imm_j(w) < 0x10_0000 && imm_j(w) & 1 == 0) by (bit_vector);
    assert(imm_u(w) & 0xfff == 0) by (bit_vector);
}

impl Instr {
    /// Decodes one instruction word.
    pub fn decode(value: u32) -> (r: Result<Instr, EmuError>)
        ensures
            r == decode_spec(value),
            r is Ok ==> r->Ok_0.wf(),
    {
        proof {
            lemma_decode_wf(value);
        }
        let opcode = value & 0x7f;
        let rd = (value & 0x0000_0f80) >> 7;
        let rs1 = (value & 0x000f_8000) >> 15;
        let rs2 = (value & 0x01f0_0000) >> 20;
        let funct3 = (value & 0x0000_7000) >> 12;
        let funct7 = (value & 0xfe00_0000) >> 25;
        assert(rd == rd_of(value) && rs1 == rs1_of(value) && rs2 == rs2_of(value) && funct3
            == funct3_of(value) && funct7 == funct7_of(value)) by (bit_vector)
            requires
                rd == (value & 0x0000_0f80) >> 7,
                rs1 == (value & 0x000f_8000) >> 15,
                rs2 == (value & 0x01f0_0000) >> 20,
                funct3 == (value & 0x0000_7000) >> 12,
                funct7 == (value & 0xfe00_0000) >> 25,
        ;
        assert(funct3 < 8) by (bit_vector)
            requires
                funct3 == (value & 0x0000_7000) >> 12,
        ;
        let bad = Err(EmuError::Decode(value));
        match opcode {
            0x03 => {
                let offset = ((value & 0xfff0_0000) as i32) >> 20;
                proof {
                    lemma_imm_i(value);
                }
                match funct3 {
                    0x0 => Ok(Instr::LB(rd, offset, rs1)),
                    0x1 => Ok(Instr::LH(rd, offset, rs1)),
                    0x2 => Ok(Instr::LW(rd, offset, rs1)),
                    0x4 => Ok(Instr::LBU(rd, offset, rs1)),
                    0x5 => Ok(Instr::LHU(rd, offset, rs1)),
                    _ => bad,
                }
            },
            0x13 => {
                let imm = ((value & 0xfff0_0000) as i32) >> 20;
                proof {
                    lemma_imm_i(value);
                }
                let shamt = rs2 as i32;
                match funct3 {
                    0x0 => Ok(Instr::ADDI(rd, rs1, imm)),
                    0x1 => if funct7 == 0 {
                        Ok(Instr::SLLI(rd, rs1, shamt))
                    } else {
                        bad
                    },
                    0x2 => Ok(Instr::SLTI(rd, rs1, imm)),
                    0x3 => Ok(Instr::SLTIU(rd, rs1, imm)),
                    0x4 => Ok(Instr::XORI(rd, rs1, imm)),
                    0x5 => match funct7 {
                        0x00 => Ok(Instr::SRLI(rd, rs1, shamt)),
                        0x20 => Ok(Instr::SRAI(rd, rs1, shamt)),
                        _ => bad,
                    },
                    0x6 => Ok(Instr::ORI(rd, rs1, imm)),
                    _ => Ok(Instr::ANDI(rd, rs1, imm)),
                }
            },
            0x17 => {
                assert(value & 0xffff_f000 == imm_u(value)) by (bit_vector);
                Ok(Instr::AUIPC(rd, value & 0xffff_f000))
            },
            0x37 => {
                assert(value & 0xffff_f000 == imm_u(value)) by (bit_vector);
                Ok(Instr::LUI(rd, value & 0xffff_f000))
            },
            0x23 => {
                let offset = ((((value & 0xfe00_0000) as i32 >> 20) as u32) | ((value >> 7)
                    & 0x1f)) as i32;
                proof {
                    lemma_imm_s(value);
                }
                match funct3 {
                    0x0 => Ok(Instr::SB(rs2, offset, rs1)),
                    0x1 => Ok(Instr::SH(rs2, offset, rs1)),
                    0x2 => Ok(Instr::SW(rs2, offset, rs1)),
                    _ => bad,
                }
            },
            0x33 => match (funct3, funct7) {
                (0x0, 0x00) => Ok(Instr::ADD(rd, rs1, rs2)),
                (0x0, 0x20) => Ok(Instr::SUB(rd, rs1, rs2)),
                (0x1, 0x00) => Ok(Instr::SLL(rd, rs1, rs2)),
                (0x2, 0x00) => Ok(Instr::SLT(rd, rs1, rs2)),
                (0x3, 0x00) => Ok(Instr::SLTU(rd, rs1, rs2)),
                (0x4, 0x00) => Ok(Instr::XOR(rd, rs1, rs2)),
                (0x5, 0x00) => Ok(Instr::SRL(rd, rs1, rs2)),
                (0x5, 0x20) => Ok(Instr::SRA(rd, rs1, rs2)),
                (0x6, 0x00) => Ok(Instr::OR(rd, rs1, rs2)),
                (0x7, 0x00) => Ok(Instr::AND(rd, rs1, rs2)),
                _ => bad,
            },
            0x63 => {
                let offset = ((((value & 0x8000_0000) as i32 >> 19) as u32) | ((value & 0x80)
                    << 4) | ((value >> 20) & 0x7e0) | ((value >> 7) & 0x1e)) as i32;
                proof {
                    lemma_imm_b(value);
                }
                match funct3 {
                    0x0 => Ok(Instr::BEQ(rs1, rs2, offset)),
                    0x1 => Ok(Instr::BNE(rs1, rs2, offset)),
                    0x4 => Ok(Instr::BLT(rs1, rs2, offset)),
                    0x5 => Ok(Instr::BGE(rs1, rs2, offset)),
                    0x6 => Ok(Instr::BLTU(rs1, rs2, offset)),
                    0x7 => Ok(Instr::BGEU(rs1, rs2, offset)),
                    _ => bad,
                }
            },
            0x67 => {
                let offset = ((value & 0xfff0_0000) as i32) >> 20;
                proof {
                    lemma_imm_i(value);
                }
                Ok(Instr::JALR(rd, offset, rs1))
            },
            0x6f => {
                let offset = ((((value & 0x8000_0000) as i32 >> 11) as u32) | (value & 0xff000)
                    | ((value >> 9) & 0x800) | ((value >> 20) & 0x7fe)) as i32;
                proof {
                    lemma_imm_j(value);
                }
                Ok(Instr::JAL(rd, offset))
            },
            0x73 => {
                let csr = (value & 0xfff0_0000) >> 20;
                assert(csr == csr_of(value)) by (bit_vector)
                    requires
                        csr == (value & 0xfff0_0000) >> 20,
                ;
                match funct3 {
                    0x0 => match rs2 {
                        0x0 => Ok(Instr::ECALL),
                        0x2 => Ok(Instr::ERET),
                        _ => bad,
                    },
                    0x1 => Ok(Instr::CSRRW(rd, csr, rs1)),
                    0x2 => Ok(Instr::CSRRS(rd, csr, rs1)),
                    0x3 => Ok(Instr::CSRRC(rd, csr, rs1)),
                    0x5 => Ok(Instr::CSRRWI(rd, csr, rs1)),
                    0x6 => Ok(Instr::CSRRSI(rd, csr, rs1)),
                    0x7 => Ok(Instr::CSRRCI(rd, csr, rs1)),
                    _ => bad,
                }
            },
            _ => bad,
        }
    }
}

impl TryFrom<u32> for Instr {
    type Error = EmuError;

    fn try_from(value: u32) -> (r: Result<Instr, EmuError>)
        ensures
            r == decode_spec(value),
    {
        Instr::decode(value)
    }
}

impl vstd::std_specs::convert::TryFromSpecImpl<u32> for Instr {
    open spec fn obeys_try_from_spec() -> bool {
        true
    }

    open spec fn try_from_spec(v: u32) -> Result<Instr, EmuError> {
        decode_spec(v)
    }
}

} // verus!
