use rvemu_hitsz::cpu::{MCAUSE, MEPC, MSTATUS, MTVAL};
use rvemu_hitsz::dram::DIG_ADDR;
use rvemu_hitsz::{EmuError, WBStatus, CPU};

const KERNEL_BASE: u32 = 0x1c09_0000;
const STACK_BASE: u32 = 0x8000_0000;
const STACK_SIZE: u32 = 0x1000;

const ZERO: u32 = 0;
const RA: u32 = 1;
const SP: u32 = 2;
const T0: u32 = 5;
const T1: u32 = 6;
const A0: u32 = 10;
const A1: u32 = 11;

fn cpu_at(pc: u32) -> CPU {
    CPU::new(&[], pc, &[], KERNEL_BASE, STACK_BASE, STACK_SIZE)
}

/// One cycle as the driver runs it: step past the word, then execute it.
fn run(cpu: &mut CPU, word: u32) -> Result<WBStatus, EmuError> {
    cpu.pc_step();
    cpu.execute(word)
}

fn addi(rd: u32, rs1: u32, imm: i32) -> u32 {
    (((imm as u32) & 0xfff) << 20) | (rs1 << 15) | (rd << 7) | 0x13
}

fn lui(rd: u32, imm: u32) -> u32 {
    (imm << 12) | (rd << 7) | 0x37
}

fn sw(rs2: u32, off: i32, rs1: u32) -> u32 {
    store(2, rs2, off, rs1)
}

fn store(f3: u32, rs2: u32, off: i32, rs1: u32) -> u32 {
    let u = off as u32;
    (((u >> 5) & 0x7f) << 25) | (rs2 << 20) | (rs1 << 15) | (f3 << 12) | ((u & 0x1f) << 7) | 0x23
}

fn load(f3: u32, rd: u32, off: i32, rs1: u32) -> u32 {
    (((off as u32) & 0xfff) << 20) | (rs1 << 15) | (f3 << 12) | (rd << 7) | 0x03
}

fn r_op(f7: u32, f3: u32, rd: u32, rs1: u32, rs2: u32) -> u32 {
    (f7 << 25) | (rs2 << 20) | (rs1 << 15) | (f3 << 12) | (rd << 7) | 0x33
}

fn csr_op(f3: u32, rd: u32, csr: u32, src: u32) -> u32 {
    (csr << 20) | (src << 15) | (f3 << 12) | (rd << 7) | 0x73
}

/// Sets `rd` to `v` with `lui` and `addi`.
fn set(cpu: &mut CPU, rd: u32, v: u32) {
    let lo = ((v & 0xfff) as i32) << 20 >> 20;
    let hi = v.wrapping_sub(lo as u32) >> 12;
    run(cpu, lui(rd, hi)).unwrap();
    run(cpu, addi(rd, rd, lo)).unwrap();
    assert_eq!(cpu.reg(rd), v);
}

fn status(pc: u32, rd: u32, val: u32, ena: u32) -> WBStatus {
    WBStatus { wb_have_inst: 1, wb_pc: pc, wb_rd: rd, wb_val: val, wb_ena: ena, inst_valid: 1 }
}

#[test]
fn new_cpu_state() {
    let cpu = CPU::new(&[0x13, 0, 0, 0], 0x400, &[], KERNEL_BASE, STACK_BASE, STACK_SIZE);
    assert_eq!(cpu.pc(), 0x400);
    assert_eq!(cpu.reg(SP), STACK_BASE + STACK_SIZE);
    for r in 0..32 {
        if r != SP {
            assert_eq!(cpu.reg(r), 0);
        }
    }
    assert_eq!(cpu.load_csr(MTVAL), Ok(KERNEL_BASE));
    assert_eq!(cpu.load_csr(MSTATUS), Ok(0));
    assert_eq!(cpu.load_csr(MEPC), Ok(0));
    assert_eq!(cpu.load_csr(MCAUSE), Ok(0));
    assert_eq!(cpu.load_csr(0x305), Err(EmuError::BadCsr(0x305)));
    assert_eq!(cpu.fetch(), Ok(0x13));
    assert_eq!(cpu.led(), None);
}

#[test]
fn fetch_and_step_walk_the_user_image() {
    let user = [0x13, 0x05, 0x50, 0x00, 0xb7, 0x52, 0x34, 0x12];
    let mut cpu = CPU::new(&user, 0, &[], KERNEL_BASE, STACK_BASE, STACK_SIZE);
    assert_eq!(cpu.fetch(), Ok(0x0050_0513));
    cpu.pc_step();
    assert_eq!(cpu.pc(), 4);
    assert_eq!(cpu.fetch(), Ok(0x1234_52b7));
    cpu.pc_step();
    assert_eq!(cpu.fetch(), Err(EmuError::BadMemoryAccess(8)));
}

#[test]
fn addi_scenario() {
    let mut cpu = cpu_at(0);
    let wb = run(&mut cpu, 0x0050_0513).unwrap();
    assert_eq!(cpu.reg(A0), 5);
    assert_eq!(cpu.pc(), 4);
    assert_eq!(wb, status(0, 10, 5, 1));
}

#[test]
fn lui_scenario() {
    let mut cpu = cpu_at(4);
    let wb = run(&mut cpu, 0x1234_52b7).unwrap();
    assert_eq!(cpu.reg(T0), 0x1234_5000);
    assert_eq!(cpu.pc(), 8);
    assert_eq!(wb, status(4, T0, 0x1234_5000, 1));
}

#[test]
fn jal_scenario() {
    let mut cpu = cpu_at(0x100);
    let wb = run(&mut cpu, 0x0100_00ef).unwrap();
    assert_eq!(cpu.pc(), 0x110);
    assert_eq!(cpu.reg(RA), 0x104);
    assert_eq!(wb, status(0x100, RA, 0x104, 1));
}

#[test]
fn beq_scenario() {
    let mut cpu = cpu_at(0x1f8);
    run(&mut cpu, addi(T0, ZERO, 7)).unwrap();
    run(&mut cpu, addi(T1, ZERO, 7)).unwrap();
    assert_eq!(cpu.pc(), 0x200);
    // beq t0, t1, 0x20
    let wb = run(&mut cpu, 0x0262_8063).unwrap();
    assert_eq!(cpu.pc(), 0x220);
    assert_eq!(wb, status(0x200, 0, 0, 0));
}

#[test]
fn sw_lw_scenario() {
    let mut cpu = cpu_at(0);
    set(&mut cpu, A0, 0xdead_beef);
    run(&mut cpu, addi(SP, SP, -16)).unwrap();
    let wb = run(&mut cpu, sw(A0, 0, SP)).unwrap();
    assert_eq!((wb.wb_rd, wb.wb_ena), (0, 0));
    let wb = run(&mut cpu, load(2, A1, 0, SP)).unwrap();
    assert_eq!(cpu.reg(A1), 0xdead_beef);
    assert_eq!((wb.wb_rd, wb.wb_val, wb.wb_ena), (A1, 0xdead_beef, 1));
}

#[test]
fn ecall_scenario() {
    let mut cpu = cpu_at(0x80);
    assert_eq!(cpu.load_csr(MTVAL), Ok(0x1c09_0000));
    let wb = run(&mut cpu, 0x0000_0073).unwrap();
    assert_eq!(cpu.pc(), 0x1c09_0000);
    assert_eq!(cpu.load_csr(MEPC), Ok(0x80));
    assert_eq!(cpu.load_csr(MCAUSE), Ok(0xb));
    assert_eq!(wb, status(0x80, 0, 0, 0));
}

#[test]
fn eret_jumps_to_mepc_and_stops() {
    let mut cpu = cpu_at(0x80);
    run(&mut cpu, 0x0000_0073).unwrap();
    let wb = run(&mut cpu, 0x3020_0073);
    assert_eq!(wb, Err(EmuError::EretStop));
    assert_eq!(cpu.pc(), 0x80);
    let mut cpu = cpu_at(0x80);
    assert_eq!(cpu.execute_record(0x3020_0073), WBStatus::default());
}

#[test]
fn auipc_zero_gives_own_pc() {
    for &(pc, rd) in &[(0u32, 1u32), (0x1234u32, 10), (0xffff_fffc, 31)] {
        let mut cpu = cpu_at(pc);
        let wb = run(&mut cpu, (rd << 7) | 0x17).unwrap();
        assert_eq!(cpu.reg(rd), pc);
        assert_eq!(wb, status(pc, rd, pc, 1));
    }
    let mut cpu = cpu_at(0x1000);
    run(&mut cpu, (0x12345 << 12) | (A0 << 7) | 0x17).unwrap();
    assert_eq!(cpu.reg(A0), 0x1234_6000);
}

#[test]
fn x0_stays_zero_and_write_is_disabled() {
    let mut cpu = cpu_at(0);
    let wb = run(&mut cpu, addi(ZERO, ZERO, 5)).unwrap();
    assert_eq!(wb, status(0, 0, 5, 0));
    assert_eq!(cpu.reg(ZERO), 0);
    let wb = run(&mut cpu, lui(ZERO, 0xabcde)).unwrap();
    assert_eq!((wb.wb_rd, wb.wb_val, wb.wb_ena), (0, 0xabcd_e000, 0));
    assert_eq!(cpu.reg(ZERO), 0);
    // jal x0 still jumps
    let wb = run(&mut cpu, 0x0100_006f).unwrap();
    assert_eq!((wb.wb_rd, wb.wb_ena), (0, 0));
    assert_eq!(cpu.pc(), 0x18);
    assert_eq!(cpu.reg(ZERO), 0);
}

#[test]
fn quiet_instructions_report_no_write() {
    let mut cpu = cpu_at(0);
    run(&mut cpu, addi(SP, SP, -16)).unwrap();
    run(&mut cpu, addi(T0, ZERO, 3)).unwrap();
    let quiet = [
        store(0, T0, 0, SP),
        store(1, T0, 2, SP),
        store(2, T0, 4, SP),
        0x0062_8063, // beq t0, t1 (not taken)
        0x0062_9063, // bne t0, t1 (taken, +0)
        0x0000_0073, // ecall
    ];
    for w in quiet {
        let wb = run(&mut cpu, w).unwrap();
        assert_eq!((wb.wb_rd, wb.wb_val, wb.wb_ena), (0, 0, 0), "word {:#010x}", w);
        assert_eq!((wb.wb_have_inst, wb.inst_valid), (1, 1));
    }
}

#[test]
fn branches_compare_signed_and_unsigned() {
    // t0 = -1, t1 = 1
    let branch = |f3: u32| (6 << 20) | (5 << 15) | (f3 << 12) | (8 << 8) | 0x63; // +16
    let expect = [(0u32, false), (1, true), (4, true), (5, false), (6, false), (7, true)];
    for (f3, taken) in expect {
        let mut cpu = cpu_at(0);
        run(&mut cpu, addi(T0, ZERO, -1)).unwrap();
        run(&mut cpu, addi(T1, ZERO, 1)).unwrap();
        run(&mut cpu, branch(f3)).unwrap();
        assert_eq!(cpu.pc(), if taken { 8 + 16 } else { 12 }, "funct3 {}", f3);
    }
}

#[test]
fn backward_branch_wraps_from_zero() {
    let mut cpu = cpu_at(0);
    // beq x0, x0, -4
    run(&mut cpu, 0xfe00_0ee3).unwrap();
    assert_eq!(cpu.pc(), 0xffff_fffc);
}

#[test]
fn jalr_clears_low_bit() {
    let mut cpu = cpu_at(0x40);
    run(&mut cpu, addi(T0, ZERO, 0x123)).unwrap();
    // jalr ra, 2(t0)
    let wb = run(&mut cpu, (2 << 20) | (T0 << 15) | (RA << 7) | 0x67).unwrap();
    assert_eq!(cpu.pc(), 0x124);
    assert_eq!(cpu.reg(RA), 0x48);
    assert_eq!(wb, status(0x44, RA, 0x48, 1));
}

#[test]
fn alu_register_immediate() {
    let mut cpu = cpu_at(0);
    run(&mut cpu, addi(T0, ZERO, -8)).unwrap();
    assert_eq!(cpu.reg(T0), 0xffff_fff8);
    let f3_imm = |f3: u32, imm: i32| (((imm as u32) & 0xfff) << 20) | (T0 << 15) | (f3 << 12) | (A0 << 7) | 0x13;
    run(&mut cpu, f3_imm(2, 1)).unwrap(); // slti: -8 < 1
    assert_eq!(cpu.reg(A0), 1);
    run(&mut cpu, f3_imm(3, 1)).unwrap(); // sltiu: 0xfffffff8 < 1 is false
    assert_eq!(cpu.reg(A0), 0);
    run(&mut cpu, f3_imm(3, -1)).unwrap(); // sltiu against 0xffffffff
    assert_eq!(cpu.reg(A0), 1);
    run(&mut cpu, f3_imm(4, 0x0ff)).unwrap(); // xori
    assert_eq!(cpu.reg(A0), 0xffff_ff07);
    run(&mut cpu, f3_imm(6, 0x3)).unwrap(); // ori
    assert_eq!(cpu.reg(A0), 0xffff_fffb);
    run(&mut cpu, f3_imm(7, 0x7f0)).unwrap(); // andi
    assert_eq!(cpu.reg(A0), 0x7f0);
    run(&mut cpu, f3_imm(7, -16)).unwrap(); // andi with a sign-extended mask
    assert_eq!(cpu.reg(A0), 0xffff_fff0);
    run(&mut cpu, f3_imm(1, 4)).unwrap(); // slli 4
    assert_eq!(cpu.reg(A0), 0xffff_ff80);
    run(&mut cpu, f3_imm(5, 4)).unwrap(); // srli 4
    assert_eq!(cpu.reg(A0), 0x0fff_ffff);
    run(&mut cpu, f3_imm(5, 0x404)).unwrap(); // srai 4
    assert_eq!(cpu.reg(A0), 0xffff_ffff);
}

#[test]
fn alu_register_register() {
    let mut cpu = cpu_at(0);
    set(&mut cpu, T0, 0x8000_0001);
    run(&mut cpu, addi(T1, ZERO, 33)).unwrap();
    let op = |f7: u32, f3: u32| r_op(f7, f3, A0, T0, T1);
    let expect = [
        (0x00, 0, 0x8000_0022u32), // add
        (0x20, 0, 0x7fff_ffe0),    // sub
        (0x00, 1, 0x0000_0002),    // sll by 33 & 31 = 1
        (0x00, 2, 1),              // slt: negative < 33
        (0x00, 3, 0),              // sltu
        (0x00, 4, 0x8000_0020),    // xor
        (0x00, 5, 0x4000_0000),    // srl by 1
        (0x20, 5, 0xc000_0000),    // sra by 1
        (0x00, 6, 0x8000_0021),    // or
        (0x00, 7, 0x0000_0001),    // and
    ];
    for (f7, f3, v) in expect {
        let wb = run(&mut cpu, op(f7, f3)).unwrap();
        assert_eq!(cpu.reg(A0), v, "funct7 {:#x} funct3 {}", f7, f3);
        assert_eq!((wb.wb_rd, wb.wb_val, wb.wb_ena), (A0, v, 1));
    }
}

#[test]
fn add_wraps_around() {
    let mut cpu = cpu_at(0);
    run(&mut cpu, addi(T0, ZERO, -1)).unwrap();
    run(&mut cpu, addi(T1, ZERO, 2)).unwrap();
    run(&mut cpu, r_op(0, 0, A0, T0, T1)).unwrap();
    assert_eq!(cpu.reg(A0), 1);
    run(&mut cpu, r_op(0x20, 0, A0, ZERO, T1)).unwrap();
    assert_eq!(cpu.reg(A0), 0xffff_fffe);
}

#[test]
fn sub_word_loads_extend() {
    let mut cpu = cpu_at(0);
    run(&mut cpu, addi(SP, SP, -16)).unwrap();
    set(&mut cpu, T0, 0x1234_8281);
    run(&mut cpu, sw(T0, 0, SP)).unwrap();
    let expect = [(0u32, 0xffff_ff81u32), (1, 0xffff_8281), (2, 0x1234_8281), (4, 0x81), (5, 0x8281)];
    for (f3, v) in expect {
        run(&mut cpu, load(f3, A0, 0, SP)).unwrap();
        assert_eq!(cpu.reg(A0), v, "funct3 {}", f3);
    }
    run(&mut cpu, load(0, A0, 3, SP)).unwrap();
    assert_eq!(cpu.reg(A0), 0x12);
}

#[test]
fn byte_and_half_stores_round_trip_low_bits() {
    let mut cpu = cpu_at(0);
    run(&mut cpu, addi(SP, SP, -16)).unwrap();
    set(&mut cpu, T0, 0xcafe_f00d);
    run(&mut cpu, store(0, T0, 5, SP)).unwrap();
    run(&mut cpu, load(0, A0, 5, SP)).unwrap();
    assert_eq!(cpu.reg(A0) & 0xff, 0x0d);
    run(&mut cpu, store(1, T0, 9, SP)).unwrap();
    run(&mut cpu, load(1, A0, 9, SP)).unwrap();
    assert_eq!(cpu.reg(A0) & 0xffff, 0xf00d);
    assert_eq!(cpu.reg(A0), 0xffff_f00d);
    // neighbours untouched
    run(&mut cpu, load(2, A1, 4, SP)).unwrap();
    assert_eq!(cpu.reg(A1), 0x0000_0d00);
}

#[test]
fn loads_from_the_data_segment_and_ports() {
    let user = [0x13, 0, 0, 0, 0x78, 0x56, 0x34, 0x12];
    let mut cpu = CPU::new(&user, 0, &[], KERNEL_BASE, STACK_BASE, STACK_SIZE);
    run(&mut cpu, load(2, A0, 4, ZERO)).unwrap();
    assert_eq!(cpu.reg(A0), 0x1234_5678);
    // the switch port at 0xfffff000 + 0x70
    run(&mut cpu, lui(T0, 0xfffff)).unwrap();
    run(&mut cpu, load(2, A0, 0x70, T0)).unwrap();
    assert_eq!(cpu.reg(A0), 0x00a0_0000);
    run(&mut cpu, load(4, A0, 0x70, T0)).unwrap();
    assert_eq!(cpu.reg(A0), 0);
}

#[test]
fn store_to_led_port_is_reported() {
    let mut cpu = cpu_at(0);
    run(&mut cpu, addi(T0, ZERO, 0x5a)).unwrap();
    assert_eq!(DIG_ADDR, 0xffff_f000);
    run(&mut cpu, lui(T1, 0xfffff)).unwrap();
    let wb = run(&mut cpu, sw(T0, 0, T1)).unwrap();
    assert_eq!(cpu.led(), Some(0x5a));
    assert_eq!(wb, status(8, 0, 0, 0));
    run(&mut cpu, addi(T0, ZERO, 1)).unwrap();
    assert_eq!(cpu.led(), None);
}

#[test]
fn memory_errors_fail_the_instruction() {
    let mut cpu = cpu_at(0);
    run(&mut cpu, addi(A0, ZERO, 9)).unwrap();
    // lw a0, 0(zero): address 0 holds no data
    assert_eq!(run(&mut cpu, load(2, A0, 0, ZERO)), Err(EmuError::BadMemoryAccess(0)));
    assert_eq!(cpu.reg(A0), 9);
    // sw at sp, just past the stack
    let sp = cpu.reg(SP);
    assert_eq!(run(&mut cpu, sw(A0, 0, SP)), Err(EmuError::BadMemoryAccess(sp)));
    // a word that starts inside the stack but crosses its end
    assert_eq!(run(&mut cpu, sw(A0, -2, SP)), Err(EmuError::BadMemoryAccess(sp - 2)));
    assert_eq!(cpu.execute_record(sw(A0, 0, SP)), WBStatus::default());
}

#[test]
fn decode_error_fails_the_instruction() {
    let mut cpu = cpu_at(0);
    assert_eq!(run(&mut cpu, 0xffff_ffff), Err(EmuError::Decode(0xffff_ffff)));
    assert_eq!(cpu.pc(), 4);
    assert_eq!(cpu.execute_record(0), WBStatus::default());
}

#[test]
fn csr_instructions() {
    let mut cpu = cpu_at(0);
    run(&mut cpu, addi(T0, ZERO, 0x0f)).unwrap();
    // csrrw a0, mstatus, t0
    let wb = run(&mut cpu, csr_op(1, A0, MSTATUS, T0)).unwrap();
    assert_eq!((cpu.reg(A0), cpu.load_csr(MSTATUS)), (0, Ok(0x0f)));
    assert_eq!(wb, status(4, A0, 0, 1));
    run(&mut cpu, addi(T0, ZERO, 0x30)).unwrap();
    // csrrs a0, mstatus, t0
    run(&mut cpu, csr_op(2, A0, MSTATUS, T0)).unwrap();
    assert_eq!((cpu.reg(A0), cpu.load_csr(MSTATUS)), (0x0f, Ok(0x3f)));
    // csrrc a0, mstatus, t0
    run(&mut cpu, csr_op(3, A0, MSTATUS, T0)).unwrap();
    assert_eq!((cpu.reg(A0), cpu.load_csr(MSTATUS)), (0x3f, Ok(0x0f)));
    // csrrwi a0, mepc, 0x1f
    run(&mut cpu, csr_op(5, A0, MEPC, 0x1f)).unwrap();
    assert_eq!((cpu.reg(A0), cpu.load_csr(MEPC)), (0, Ok(0x1f)));
    // csrrsi a0, mcause, 5
    run(&mut cpu, csr_op(6, A0, MCAUSE, 5)).unwrap();
    assert_eq!((cpu.reg(A0), cpu.load_csr(MCAUSE)), (0, Ok(5)));
    // csrrci a0, mepc, 3
    run(&mut cpu, csr_op(7, A0, MEPC, 3)).unwrap();
    assert_eq!((cpu.reg(A0), cpu.load_csr(MEPC)), (0x1f, Ok(0x1c)));
    // csrrw zero, mtval, t0 writes the CSR and disables the register write
    let wb = run(&mut cpu, csr_op(1, ZERO, MTVAL, T0)).unwrap();
    assert_eq!(cpu.load_csr(MTVAL), Ok(0x30));
    assert_eq!((wb.wb_rd, wb.wb_val, wb.wb_ena), (0, KERNEL_BASE, 0));
}

#[test]
fn unknown_csr_fails_without_change() {
    let mut cpu = cpu_at(0);
    run(&mut cpu, addi(A0, ZERO, 7)).unwrap();
    assert_eq!(run(&mut cpu, csr_op(1, A0, 0x305, T0)), Err(EmuError::BadCsr(0x305)));
    assert_eq!(run(&mut cpu, csr_op(6, A0, 0xc00, 1)), Err(EmuError::BadCsr(0xc00)));
    assert_eq!(cpu.reg(A0), 7);
    assert_eq!(cpu.load_csr(MSTATUS), Ok(0));
}

#[test]
fn trap_round_trip_through_kernel_image() {
    // user: ecall; kernel: csrr t0, mepc; addi t0, t0, 4; csrw mepc, t0; mret
    let user = 0x0000_0073u32.to_le_bytes();
    let mut kernel = Vec::new();
    for w in [csr_op(2, T0, MEPC, ZERO), addi(T0, T0, 4), csr_op(1, ZERO, MEPC, T0), 0x3020_0073] {
        kernel.extend_from_slice(&w.to_le_bytes());
    }
    let mut cpu = CPU::new(&user, 0, &kernel, KERNEL_BASE, STACK_BASE, STACK_SIZE);
    let mut steps = 0;
    let end = loop {
        let w = cpu.fetch().unwrap();
        match run(&mut cpu, w) {
            Ok(_) => steps += 1,
            Err(e) => break e,
        }
    };
    assert_eq!(end, EmuError::EretStop);
    assert_eq!(steps, 4);
    assert_eq!(cpu.pc(), 4);
}
