use crate::cpu::{CpuState, CPU, MCAUSE, MEPC, MSTATUS};
use crate::instr::Instr;
use vstd::prelude::*;
use vstd::string::*;

verus! {

// ---------------------------------------------------------------------------
// Hexadecimal text
// ---------------------------------------------------------------------------

/// The lower-case hexadecimal digit of `d < 16`.
pub open spec fn hex_char(d: nat) -> char {
    seq!['0', '1', '2', '3', '4', '5', '6', '7', '8', '9', 'a', 'b', 'c', 'd', 'e', 'f'][d as int]
}

/// The hexadecimal digits of `v`, most significant first, without leading
/// zeros (`0` for zero).
pub open spec fn hex_digits(v: nat) -> Seq<char>
    decreases v,
{
    if v < 16 {
        seq![hex_char(v)]
    } else {
        hex_digits(v / 16).push(hex_char(v % 16))
    }
}

/// `v` written as `0x` and its hexadecimal digits.
pub open spec fn hex_text(v: u32) -> Seq<char> {
    seq!['0', 'x'] + hex_digits(v as nat)
}

fn hex_digit(d: u32) -> (r: &'static str)
    requires
        d < 16,
    ensures
        r@ == seq![hex_char(d as nat)],
{
    proof {
        reveal_strlit("0");
        reveal_strlit("1");
        reveal_strlit("2");
        reveal_strlit("3");
        reveal_strlit("4");
        reveal_strlit("5");
        reveal_strlit("6");
        reveal_strlit("7");
        reveal_strlit("8");
        reveal_strlit("9");
        reveal_strlit("a");
        reveal_strlit("b");
        reveal_strlit("c");
        reveal_strlit("d");
        reveal_strlit("e");
        reveal_strlit("f");
    }
    let r = match d {
        0 => "0",
        1 => "1",
        2 => "2",
        3 => "3",
        4 => "4",
        5 => "5",
        6 => "6",
        7 => "7",
        8 => "8",
        9 => "9",
        10 => "a",
        11 => "b",
        12 => "c",
        13 => "d",
        14 => "e",
        _ => "f",
    };
    assert(r@ =~= seq![hex_char(d as nat)]);
    r
}

fn push_hex_digits(s: &mut String, v: u32)
    ensures
        final(s)@ == old(s)@ + hex_digits(v as nat),
    decreases v,
{
    if v >= 16 {
        push_hex_digits(s, v / 16);
    }
    s.append(hex_digit(v % 16));
    assert(final(s)@ =~= old(s)@ + hex_digits(v as nat));
}

/// `v` as `0x` and lower-case hexadecimal digits, as `{:#x}` prints it.
pub fn hex(v: u32) -> (r: String)
    ensures
        r@ == hex_text(v),
{
    let mut s = String::from_str("0x");
    proof {
        reveal_strlit("0x");
    }
    push_hex_digits(&mut s, v);
    assert(s@ =~= hex_text(v));
    s
}

// ---------------------------------------------------------------------------
// Register and CSR names
// ---------------------------------------------------------------------------

/// The ABI name of register `r < 32`, padded with spaces to four
/// characters so that names line up in dumps.
pub open spec fn abi_name_spec(r: u32) -> Seq<char> {
    if r == 0 {
        "zero"@
    } else if r == 1 {
        " ra "@
    } else if r == 2 {
        " sp "@
    } else if r == 3 {
        " gp "@
    } else if r == 4 {
        " tp "@
    } else if r == 5 {
        " t0 "@
    } else if r == 6 {
        " t1 "@
    } else if r == 7 {
        " t2 "@
    } else if r == 8 {
        " s0 "@
    } else if r == 9 {
        " s1 "@
    } else if r == 10 {
        " a0 "@
    } else if r == 11 {
        " a1 "@
    } else if r == 12 {
        " a2 "@
    } else if r == 13 {
        " a3 "@
    } else if r == 14 {
        " a4 "@
    } else if r == 15 {
        " a5 "@
    } else if r == 16 {
        " a6 "@
    } else if r == 17 {
        " a7 "@
    } else if r == 18 {
        " s2 "@
    } else if r == 19 {
        " s3 "@
    } else if r == 20 {
        " s4 "@
    } else if r == 21 {
        " s5 "@
    } else if r == 22 {
        " s6 "@
    } else if r == 23 {
        " s7 "@
    } else if r == 24 {
        " s8 "@
    } else if r == 25 {
        " s9 "@
    } else if r == 26 {
        " s10"@
    } else if r == 27 {
        " s11"@
    } else if r == 28 {
        " t3 "@
    } else if r == 29 {
        " t4 "@
    } else if r == 30 {
        " t5 "@
    } else {
        " t6 "@
    }
}

/// The ABI name of register `r`.
pub fn abi_name(r: u32) -> (s: &'static str)
    requires
        r < 32,
    ensures
        s@ == abi_name_spec(r),
{
    match r {
        0 => "zero",
        1 => " ra ",
        2 => " sp ",
        3 => " gp ",
        4 => " tp ",
        5 => " t0 ",
        6 => " t1 ",
        7 => " t2 ",
        8 => " s0 ",
        9 => " s1 ",
        10 => " a0 ",
        11 => " a1 ",
        12 => " a2 ",
        13 => " a3 ",
        14 => " a4 ",
        15 => " a5 ",
        16 => " a6 ",
        17 => " a7 ",
        18 => " s2 ",
        19 => " s3 ",
        20 => " s4 ",
        21 => " s5 ",
        22 => " s6 ",
        23 => " s7 ",
        24 => " s8 ",
        25 => " s9 ",
        26 => " s10",
        27 => " s11",
        28 => " t3 ",
        29 => " t4 ",
        30 => " t5 ",
        _ => " t6 ",
    }
}

/// The name of the CSR at `csr`: its own for the trap CSRs `mstatus`,
/// `mepc` and `mcause`, `csr_` and its hexadecimal address for any other.
pub open spec fn csr_name_spec(csr: u32) -> Seq<char> {
    if csr == MSTATUS {
        "mstatus"@
    } else if csr == MEPC {
        "mepc"@
    } else if csr == MCAUSE {
        "mcause"@
    } else {
        "csr_"@ + hex_text(csr)
    }
}

/// The name of the CSR at `csr`.
pub fn csr_abi(csr: u32) -> (r: String)
    ensures
        r@ == csr_name_spec(csr),
{
    match csr {
        MSTATUS => String::from_str("mstatus"),
        MEPC => String::from_str("mepc"),
        MCAUSE => String::from_str("mcause"),
        _ => String::from_str("csr_").concat(hex(csr).as_str()),
    }
}

// ---------------------------------------------------------------------------
// Disassembly
// ---------------------------------------------------------------------------

/// `m rd, 0x..`
pub open spec fn fmt_reg_hex(m: Seq<char>, a: u32, v: u32) -> Seq<char> {
    m + " "@ + abi_name_spec(a) + ", "@ + hex_text(v)
}

/// `m a, b, 0x..`
pub open spec fn fmt_reg_reg_hex(m: Seq<char>, a: u32, b: u32, v: u32) -> Seq<char> {
    m + " "@ + abi_name_spec(a) + ", "@ + abi_name_spec(b) + ", "@ + hex_text(v)
}

/// `m a, 0x..(base)`
pub open spec fn fmt_offset(m: Seq<char>, a: u32, v: u32, base: u32) -> Seq<char> {
    m + " "@ + abi_name_spec(a) + ", "@ + hex_text(v) + "("@ + abi_name_spec(base) + ")"@
}

/// `m a, b, c`
pub open spec fn fmt_three_regs(m: Seq<char>, a: u32, b: u32, c: u32) -> Seq<char> {
    m + " "@ + abi_name_spec(a) + ", "@ + abi_name_spec(b) + ", "@ + abi_name_spec(c)
}

/// `m rd, csr, rs1`
pub open spec fn fmt_csr_reg(m: Seq<char>, rd: u32, csr: u32, a: u32) -> Seq<char> {
    m + " "@ + abi_name_spec(rd) + ", "@ + csr_name_spec(csr) + ", "@ + abi_name_spec(a)
}

/// `m rd, csr, 0x..`
pub open spec fn fmt_csr_hex(m: Seq<char>, rd: u32, csr: u32, z: u32) -> Seq<char> {
    m + " "@ + abi_name_spec(rd) + ", "@ + csr_name_spec(csr) + ", "@ + hex_text(z)
}

fn reg_hex(m: &str, a: u32, v: u32) -> (r: String)
    requires
        a < 32,
    ensures
        r@ == fmt_reg_hex(m@, a, v),
{
    String::from_str(m).concat(" ").concat(abi_name(a)).concat(", ").concat(hex(v).as_str())
}

fn reg_reg_hex(m: &str, a: u32, b: u32, v: u32) -> (r: String)
    requires
        a < 32,
        b < 32,
    ensures
        r@ == fmt_reg_reg_hex(m@, a, b, v),
{
    String::from_str(m).concat(" ").concat(abi_name(a)).concat(", ").concat(abi_name(b)).concat(
        ", ",
    ).concat(hex(v).as_str())
}

fn offset(m: &str, a: u32, v: u32, base: u32) -> (r: String)
    requires
        a < 32,
        base < 32,
    ensures
        r@ == fmt_offset(m@, a, v, base),
{
    String::from_str(m).concat(" ").concat(abi_name(a)).concat(", ").concat(hex(v).as_str()).concat(
        "(",
    ).concat(abi_name(base)).concat(")")
}

fn three_regs(m: &str, a: u32, b: u32, c: u32) -> (r: String)
    requires
        a < 32,
        b < 32,
        c < 32,
    ensures
        r@ == fmt_three_regs(m@, a, b, c),
{
    String::from_str(m).concat(" ").concat(abi_name(a)).concat(", ").concat(abi_name(b)).concat(
        ", ",
    ).concat(abi_name(c))
}

fn csr_reg(m: &str, rd: u32, csr: u32, a: u32) -> (r: String)
    requires
        rd < 32,
        a < 32,
    ensures
        r@ == fmt_csr_reg(m@, rd, csr, a),
{
    String::from_str(m).concat(" ").concat(abi_name(rd)).concat(", ").concat(
        csr_abi(csr).as_str(),
    ).concat(", ").concat(abi_name(a))
}

fn csr_hex(m: &str, rd: u32, csr: u32, z: u32) -> (r: String)
    requires
        rd < 32,
    ensures
        r@ == fmt_csr_hex(m@, rd, csr, z),
{
    String::from_str(m).concat(" ").concat(abi_name(rd)).concat(", ").concat(
        csr_abi(csr).as_str(),
    ).concat(", ").concat(hex(z).as_str())
}

impl Instr {
    /// The assembly text of the instruction: mnemonic, then operands with
    /// registers by ABI name and immediates in hexadecimal (negative ones as
    /// their 32-bit two's complement). `lui` shows its upper 20 bits,
    /// `auipc` its whole immediate.
    pub open spec fn disasm_spec(self) -> Seq<char> {
        match self {
            Instr::LUI(rd, imm) => fmt_reg_hex("lui"@, rd, imm >> 12),
            Instr::AUIPC(rd, imm) => fmt_reg_hex("auipc"@, rd, imm),
            Instr::JAL(rd, off) => fmt_reg_hex("jal"@, rd, off as u32),
            Instr::BEQ(a, b, off) => fmt_reg_reg_hex("beq"@, a, b, off as u32),
            Instr::BNE(a, b, off) => fmt_reg_reg_hex("bne"@, a, b, off as u32),
            Instr::BLT(a, b, off) => fmt_reg_reg_hex("blt"@, a, b, off as u32),
            Instr::BGE(a, b, off) => fmt_reg_reg_hex("bge"@, a, b, off as u32),
            Instr::BLTU(a, b, off) => fmt_reg_reg_hex("bltu"@, a, b, off as u32),
            Instr::BGEU(a, b, off) => fmt_reg_reg_hex("bgeu"@, a, b, off as u32),
            Instr::SB(a, off, base) => fmt_offset("sb"@, a, off as u32, base),
            Instr::SH(a, off, base) => fmt_offset("sh"@, a, off as u32, base),
            Instr::SW(a, off, base) => fmt_offset("sw"@, a, off as u32, base),
            Instr::ADDI(rd, a, imm) => fmt_reg_reg_hex("addi"@, rd, a, imm as u32),
            Instr::ANDI(rd, a, imm) => fmt_reg_reg_hex("andi"@, rd, a, imm as u32),
            Instr::ORI(rd, a, imm) => fmt_reg_reg_hex("ori"@, rd, a, imm as u32),
            Instr::XORI(rd, a, imm) => fmt_reg_reg_hex("xori"@, rd, a, imm as u32),
            Instr::SLLI(rd, a, imm) => fmt_reg_reg_hex("slli"@, rd, a, imm as u32),
            Instr::SRLI(rd, a, imm) => fmt_reg_reg_hex("srli"@, rd, a, imm as u32),
            Instr::SRAI(rd, a, imm) => fmt_reg_reg_hex("srai"@, rd, a, imm as u32),
            Instr::SLTI(rd, a, imm) => fmt_reg_reg_hex("slti"@, rd, a, imm as u32),
            Instr::SLTIU(rd, a, imm) => fmt_reg_reg_hex("sltiu"@, rd, a, imm as u32),
            Instr::LB(rd, off, base) => fmt_offset("lb"@, rd, off as u32, base),
            Instr::LH(rd, off, base) => fmt_offset("lh"@, rd, off as u32, base),
            Instr::LW(rd, off, base) => fmt_offset("lw"@, rd, off as u32, base),
            Instr::LBU(rd, off, base) => fmt_offset("lbu"@, rd, off as u32, base),
            Instr::LHU(rd, off, base) => fmt_offset("lhu"@, rd, off as u32, base),
            Instr::JALR(rd, off, base) => fmt_offset("jalr"@, rd, off as u32, base),
            Instr::ADD(rd, a, b) => fmt_three_regs("add"@, rd, a, b),
            Instr::SUB(rd, a, b) => fmt_three_regs("sub"@, rd, a, b),
            Instr::SLL(rd, a, b) => fmt_three_regs("sll"@, rd, a, b),
            Instr::SLT(rd, a, b) => fmt_three_regs("slt"@, rd, a, b),
            Instr::SLTU(rd, a, b) => fmt_three_regs("sltu"@, rd, a, b),
            Instr::XOR(rd, a, b) => fmt_three_regs("xor"@, rd, a, b),
            Instr::SRL(rd, a, b) => fmt_three_regs("srl"@, rd, a, b),
            Instr::SRA(rd, a, b) => fmt_three_regs("sra"@, rd, a, b),
            Instr::OR(rd, a, b) => fmt_three_regs("or"@, rd, a, b),
            Instr::AND(rd, a, b) => fmt_three_regs("and"@, rd, a, b),
            Instr::ECALL => "ecall"@,
            Instr::ERET => "eret"@,
            Instr::CSRRW(rd, csr, a) => fmt_csr_reg("csrrw"@, rd, csr, a),
            Instr::CSRRS(rd, csr, a) => fmt_csr_reg("csrrs"@, rd, csr, a),
            Instr::CSRRC(rd, csr, a) => fmt_csr_reg("csrrc"@, rd, csr, a),
            Instr::CSRRWI(rd, csr, z) => fmt_csr_hex("csrrwi"@, rd, csr, z),
            Instr::CSRRSI(rd, csr, z) => fmt_csr_hex("csrrsi"@, rd, csr, z),
            Instr::CSRRCI(rd, csr, z) => fmt_csr_hex("csrrci"@, rd, csr, z),
        }
    }

    /// The assembly text of the instruction.
    pub fn disasm(&self) -> (r: String)
        requires
            self.regs_in_range(),
        ensures
            r@ == self.disasm_spec(),
    {
        match *self {
            Instr::LUI(rd, imm) => reg_hex("lui", rd, imm >> 12),
            Instr::AUIPC(rd, imm) => reg_hex("auipc", rd, imm),
            Instr::JAL(rd, off) => reg_hex("jal", rd, off as u32),
            Instr::BEQ(a, b, off) => reg_reg_hex("beq", a, b, off as u32),
            Instr::BNE(a, b, off) => reg_reg_hex("bne", a, b, off as u32),
            Instr::BLT(a, b, off) => reg_reg_hex("blt", a, b, off as u32),
            Instr::BGE(a, b, off) => reg_reg_hex("bge", a, b, off as u32),
            Instr::BLTU(a, b, off) => reg_reg_hex("bltu", a, b, off as u32),
            Instr::BGEU(a, b, off) => reg_reg_hex("bgeu", a, b, off as u32),
            Instr::SB(a, off, base) => offset("sb", a, off as u32, base),
            Instr::SH(a, off, base) => offset("sh", a, off as u32, base),
            Instr::SW(a, off, base) => offset("sw", a, off as u32, base),
            Instr::ADDI(rd, a, imm) => reg_reg_hex("addi", rd, a, imm as u32),
            Instr::ANDI(rd, a, imm) => reg_reg_hex("andi", rd, a, imm as u32),
            Instr::ORI(rd, a, imm) => reg_reg_hex("ori", rd, a, imm as u32),
            Instr::XORI(rd, a, imm) => reg_reg_hex("xori", rd, a, imm as u32),
            Instr::SLLI(rd, a, imm) => reg_reg_hex("slli", rd, a, imm as u32),
            Instr::SRLI(rd, a, imm) => reg_reg_hex("srli", rd, a, imm as u32),
            Instr::SRAI(rd, a, imm) => reg_reg_hex("srai", rd, a, imm as u32),
            Instr::SLTI(rd, a, imm) => reg_reg_hex("slti", rd, a, imm as u32),
            Instr::SLTIU(rd, a, imm) => reg_reg_hex("sltiu", rd, a, imm as u32),
            Instr::LB(rd, off, base) => offset("lb", rd, off as u32, base),
            Instr::LH(rd, off, base) => offset("lh", rd, off as u32, base),
            Instr::LW(rd, off, base) => offset("lw", rd, off as u32, base),
            Instr::LBU(rd, off, base) => offset("lbu", rd, off as u32, base),
            Instr::LHU(rd, off, base) => offset("lhu", rd, off as u32, base),
            Instr::JALR(rd, off, base) => offset("jalr", rd, off as u32, base),
            Instr::ADD(rd, a, b) => three_regs("add", rd, a, b),
            Instr::SUB(rd, a, b) => three_regs("sub", rd, a, b),
            Instr::SLL(rd, a, b) => three_regs("sll", rd, a, b),
            Instr::SLT(rd, a, b) => three_regs("slt", rd, a, b),
            Instr::SLTU(rd, a, b) => three_regs("sltu", rd, a, b),
            Instr::XOR(rd, a, b) => three_regs("xor", rd, a, b),
            Instr::SRL(rd, a, b) => three_regs("srl", rd, a, b),
            Instr::SRA(rd, a, b) => three_regs("sra", rd, a, b),
            Instr::OR(rd, a, b) => three_regs("or", rd, a, b),
            Instr::AND(rd, a, b) => three_regs("and", rd, a, b),
            Instr::ECALL => String::from_str("ecall"),
            Instr::ERET => String::from_str("eret"),
            Instr::CSRRW(rd, csr, a) => csr_reg("csrrw", rd, csr, a),
            Instr::CSRRS(rd, csr, a) => csr_reg("csrrs", rd, csr, a),
            Instr::CSRRC(rd, csr, a) => csr_reg("csrrc", rd, csr, a),
            Instr::CSRRWI(rd, csr, z) => csr_hex("csrrwi", rd, csr, z),
            Instr::CSRRSI(rd, csr, z) => csr_hex("csrrsi", rd, csr, z),
            Instr::CSRRCI(rd, csr, z) => csr_hex("csrrci", rd, csr, z),
        }
    }
}

// ---------------------------------------------------------------------------
// State dumps
// ---------------------------------------------------------------------------

/// `i < 100` as two decimal digits.
pub open spec fn dec2(i: u32) -> Seq<char> {
    seq![hex_char((i / 10) as nat), hex_char((i % 10) as nat)]
}

/// `xNN(name)=0x..` for register `i`.
pub open spec fn reg_entry(s: CpuState, i: u32) -> Seq<char> {
    "x"@ + dec2(i) + "("@ + abi_name_spec(i) + ")="@ + hex_text(s.x(i))
}

/// The first `n` lines of the register dump, four registers to a line, each
/// line led by a line break.
pub open spec fn reg_lines(s: CpuState, n: nat) -> Seq<char>
    decreases n,
{
    if n == 0 {
        Seq::empty()
    } else {
        let b = (4 * (n - 1)) as u32;
        reg_lines(s, (n - 1) as nat) + "\n"@ + reg_entry(s, b) + " "@ + reg_entry(s, (b + 1) as u32)
            + " "@ + reg_entry(s, (b + 2) as u32) + " "@ + reg_entry(s, (b + 3) as u32)
    }
}

/// All 32 registers in eight lines, then the program counter.
pub open spec fn register_dump(s: CpuState) -> Seq<char> {
    reg_lines(s, 8) + "\npc = "@ + hex_text(s.pc)
}

/// The CSRs that hold the trap state, on one line.
pub open spec fn csr_dump(s: CpuState) -> Seq<char> {
    "mstatus="@ + hex_text(s.mstatus) + "\tmepc="@ + hex_text(s.mepc) + "\tmcause="@ + hex_text(
        s.mcause,
    )
}

fn dec_digits(i: u32) -> (r: String)
    requires
        i < 100,
    ensures
        r@ == dec2(i),
{
    String::from_str(hex_digit(i / 10)).concat(hex_digit(i % 10))
}

impl CPU {
    fn reg_entry(&self, i: u32) -> (r: String)
        requires
            self.wf(),
            i < 32,
        ensures
            r@ == reg_entry(self@, i),
    {
        String::from_str("x").concat(dec_digits(i).as_str()).concat("(").concat(abi_name(i)).concat(
            ")=",
        ).concat(hex(self.reg(i)).as_str())
    }

    /// All registers, four to a line, then the program counter.
    pub fn dump_registers(&self) -> (r: String)
        requires
            self.wf(),
        ensures
            r@ == register_dump(self@),
    {
        let mut out = String::new();
        let mut row: u32 = 0;
        while row < 8
            invariant
                self.wf(),
                row <= 8,
                out@ == reg_lines(self@, row as nat),
            decreases 8 - row,
        {
            let b = 4 * row;
            out.append("\n");
            out.append(self.reg_entry(b).as_str());
            out.append(" ");
            out.append(self.reg_entry(b + 1).as_str());
            out.append(" ");
            out.append(self.reg_entry(b + 2).as_str());
            out.append(" ");
            out.append(self.reg_entry(b + 3).as_str());
            row = row + 1;
        }
        out.append("\npc = ");
        out.append(hex(self.pc()).as_str());
        out
    }

    /// `mstatus`, `mepc` and `mcause`.
    pub fn dump_csrs(&self) -> (r: String)
        ensures
            r@ == csr_dump(self@),
    {
        String::from_str("mstatus=").concat(hex(self.csr_word(MSTATUS)).as_str()).concat(
            "\tmepc=",
        ).concat(hex(self.csr_word(MEPC)).as_str()).concat("\tmcause=").concat(
            hex(self.csr_word(MCAUSE)).as_str(),
        )
    }

    /// The CSR dump, a line break, then the register dump.
    pub fn dump(&self) -> (r: String)
        requires
            self.wf(),
        ensures
            r@ == csr_dump(self@) + "\n"@ + register_dump(self@),
    {
        self.dump_csrs().concat("\n").concat(self.dump_registers().as_str())
    }

    fn csr_word(&self, addr: u32) -> (v: u32)
        requires
            addr == MSTATUS || addr == MEPC || addr == MCAUSE,
        ensures
            Ok::<u32, crate::error::EmuError>(v) == self@.csr(addr),
    {
        match self.load_csr(addr) {
            Ok(v) => v,
            Err(_) => 0,
        }
    }
}

} // verus!
