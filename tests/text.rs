use rvemu_hitsz::disasm::{abi_name, csr_abi, hex};
use rvemu_hitsz::{Instr, CPU};

#[test]
fn hex_matches_std_formatting() {
    for v in [0u32, 1, 9, 10, 15, 16, 0xff, 0x100, 0xdead_beef, 0x8000_0000, u32::MAX] {
        assert_eq!(hex(v), format!("{:#x}", v));
    }
}

#[test]
fn register_names() {
    let names = [
        "zero", " ra ", " sp ", " gp ", " tp ", " t0 ", " t1 ", " t2 ", " s0 ", " s1 ", " a0 ",
        " a1 ", " a2 ", " a3 ", " a4 ", " a5 ", " a6 ", " a7 ", " s2 ", " s3 ", " s4 ", " s5 ",
        " s6 ", " s7 ", " s8 ", " s9 ", " s10", " s11", " t3 ", " t4 ", " t5 ", " t6 ",
    ];
    for (i, n) in names.iter().enumerate() {
        assert_eq!(abi_name(i as u32), *n);
    }
}

#[test]
fn csr_names() {
    assert_eq!(csr_abi(0x300), "mstatus");
    assert_eq!(csr_abi(0x341), "mepc");
    assert_eq!(csr_abi(0x342), "mcause");
    assert_eq!(csr_abi(0x343), "csr_0x343");
    assert_eq!(csr_abi(0x305), "csr_0x305");
}

#[test]
fn disassembly_text() {
    let cases: [(u32, &str); 14] = [
        (0x0050_0513, "addi  a0 , zero, 0x5"),
        (0xfff0_0513, "addi  a0 , zero, 0xffffffff"),
        (0x1234_52b7, "lui  t0 , 0x12345"),
        (0x0100_00ef, "jal  ra , 0x10"),
        (0x0262_8063, "beq  t0 ,  t1 , 0x20"),
        (0x00a1_2023, "sw  a0 , 0x0( sp )"),
        (0xfea1_2e23, "sw  a0 , 0xfffffffc( sp )"),
        (0x0001_2583, "lw  a1 , 0x0( sp )"),
        (0x0000_0073, "ecall"),
        (0x3020_0073, "eret"),
        (0x40b5_0533, "sub  a0 ,  a0 ,  a1 "),
        (0x3412_92f3, "csrrw  t0 , mepc,  t0 "),
        (0x3432_92f3, "csrrw  t0 , csr_0x343,  t0 "),
        (0x3000_e073, "csrrsi zero, mstatus, 0x1"),
    ];
    for (w, text) in cases {
        assert_eq!(Instr::decode(w).unwrap().disasm(), text);
    }
}

#[test]
fn disassembly_of_instruction_with_wide_fields() {
    // immediates and CSR addresses beyond what an encoding holds still print
    assert_eq!(Instr::ADDI(1, 2, 0x1_0000).disasm(), "addi  ra ,  sp , 0x10000");
    assert_eq!(Instr::CSRRWI(0, 0x1_0000, 40).disasm(), "csrrwi zero, csr_0x10000, 0x28");
}

#[test]
fn state_dumps() {
    let cpu = CPU::new(&[], 0x40, &[], 0x1c09_0000, 0x1000, 0x100);
    assert_eq!(cpu.dump_csrs(), "mstatus=0x0\tmepc=0x0\tmcause=0x0");
    let regs = cpu.dump_registers();
    let lines: Vec<&str> = regs.lines().collect();
    assert_eq!(lines.len(), 10);
    assert_eq!(lines[0], "");
    assert_eq!(lines[1], "x00(zero)=0x0 x01( ra )=0x0 x02( sp )=0x1100 x03( gp )=0x0");
    assert_eq!(lines[7], "x24( s8 )=0x0 x25( s9 )=0x0 x26( s10)=0x0 x27( s11)=0x0");
    assert_eq!(lines[8], "x28( t3 )=0x0 x29( t4 )=0x0 x30( t5 )=0x0 x31( t6 )=0x0");
    assert_eq!(lines[9], "pc = 0x40");
    assert_eq!(cpu.dump(), format!("{}\n{}", cpu.dump_csrs(), regs));
}
