use fc2::cpu::operator::{decode_operator, AddrMode};
use fc2::cpu::{Interrupt, CPU};
use fc2::nes::Nes;
use fc2::util::combine_high_low;

/// A cartridge with one 16 KiB program bank and one character bank, whose
/// reset vector points at 0x8000.
fn test_image() -> Vec<u8> {
    let mut buffer = vec![0u8; 0x10 + 0x4000 + 0x2000];
    buffer[0] = b'N';
    buffer[1] = b'E';
    buffer[2] = b'S';
    buffer[3] = 0x1A;
    buffer[4] = 1;
    buffer[5] = 1;
    buffer[0x10 + 3] = 0xEA;
    buffer[0x10 + 0x3FFC] = 0x00;
    buffer[0x10 + 0x3FFD] = 0x80;
    buffer
}

/// An opcode of the given addressing mode, the first in opcode order.
fn pick_operator_with_addr_mode(like_mode: AddrMode) -> u8 {
    let mut code: u16 = 0;
    while code < 256 {
        let op = decode_operator(code as u8);
        if op.addr_mode == like_mode {
            return code as u8;
        }
        code += 1;
    }
    panic!("no opcode with this mode")
}

fn prepare_cpu_for_addr_mode_test(addr_mode: AddrMode) -> CPU {
    let nes = Nes::new(&test_image());
    let mut cpu = CPU::new(&nes);
    cpu.prepare_operators();
    cpu.init(&nes);
    cpu.interrupt(Interrupt::Reset);
    let code = pick_operator_with_addr_mode(addr_mode);
    cpu.bus.cpu_bus.prg_rom1[0] = code;
    cpu
}

fn insert_num_into_b1_b2(cpu: &mut CPU) {
    cpu.bus.cpu_bus.prg_rom1[1] = 0x45;
    cpu.bus.cpu_bus.prg_rom1[2] = 0x67;
}

fn set_next_reg_addr(cpu: &mut CPU, reg_addr: &mut u16) {
    if let Some(op) = cpu.read_ope() {
        *reg_addr = cpu.ex_addr_mode(&op.addr_mode);
    }
}

fn fetch_next_lh_register(cpu: &mut CPU) -> (u8, u8) {
    let pc = cpu.get_pc();
    cpu.inc_pc(1);
    let (l_data, h_data) = cpu.fetch_lh_register();
    cpu.set_pc(pc);
    (l_data, h_data)
}

#[test]
fn acc_not_specify_addressing_register() {
    let mut cpu = prepare_cpu_for_addr_mode_test(AddrMode::Acc);
    insert_num_into_b1_b2(&mut cpu);

    let mut addr = u16::MAX;
    set_next_reg_addr(&mut cpu, &mut addr);

    let (l_data, h_data) = fetch_next_lh_register(&mut cpu);

    assert_eq!(addr, 0);
    assert_ne!(addr, l_data as u16);
    assert_ne!(addr, h_data as u16);
}

#[test]
fn impl_not_specify_addressing_register() {
    let mut cpu = prepare_cpu_for_addr_mode_test(AddrMode::Impl);
    insert_num_into_b1_b2(&mut cpu);

    let mut addr = u16::MAX;
    set_next_reg_addr(&mut cpu, &mut addr);

    assert_eq!(addr, 0);
}

#[test]
fn imm_specify_immediate_register_as_addressing_register() {
    let mut cpu = prepare_cpu_for_addr_mode_test(AddrMode::Imm);
    insert_num_into_b1_b2(&mut cpu);

    let l_data = cpu.fetch_next_register();

    let mut addr = u16::MAX;
    set_next_reg_addr(&mut cpu, &mut addr);

    assert_eq!(addr, l_data as u16);
}

#[test]
fn abs_specify_b1_b2_register_as_absolute_address() {
    let mut cpu = prepare_cpu_for_addr_mode_test(AddrMode::Abs);
    insert_num_into_b1_b2(&mut cpu);

    let (l_data, h_data) = fetch_next_lh_register(&mut cpu);
    let data = combine_high_low(l_data, h_data);

    let mut addr = u16::MAX;
    set_next_reg_addr(&mut cpu, &mut addr);

    assert_eq!(addr, data);
}

#[test]
fn abs_x_specify_b1_b2_register_as_indexed_absolute_address() {
    let mut cpu = prepare_cpu_for_addr_mode_test(AddrMode::AbsX);
    insert_num_into_b1_b2(&mut cpu);

    let (l_data, h_data) = fetch_next_lh_register(&mut cpu);
    cpu.set_x(0x9B);
    let x = cpu.get_x() as u16;
    let m = combine_high_low(l_data, h_data);
    let data = m.wrapping_add(x);

    let mut addr = u16::MAX;
    set_next_reg_addr(&mut cpu, &mut addr);

    assert_eq!(addr, data);
}

#[test]
fn abs_y_specify_b1_b2_register_as_indexed_absolute_address() {
    let mut cpu = prepare_cpu_for_addr_mode_test(AddrMode::AbsY);
    insert_num_into_b1_b2(&mut cpu);

    let (l_data, h_data) = fetch_next_lh_register(&mut cpu);
    cpu.set_y(0xC4);
    let y = cpu.get_y() as u16;
    let data = combine_high_low(l_data, h_data);
    let data = data.wrapping_add(y);

    let mut addr = u16::MAX;
    set_next_reg_addr(&mut cpu, &mut addr);

    assert_eq!(addr, data);
}

#[test]
fn zp_specify_zero_page_address() {
    let mut cpu = prepare_cpu_for_addr_mode_test(AddrMode::Zp);
    insert_num_into_b1_b2(&mut cpu);

    let data = cpu.fetch_next_register() as u16;

    let mut addr = u16::MAX;
    set_next_reg_addr(&mut cpu, &mut addr);

    assert_eq!(addr, data);
}

#[test]
fn rel_specify_relation_address() {
    let mut cpu = prepare_cpu_for_addr_mode_test(AddrMode::Rel);
    insert_num_into_b1_b2(&mut cpu);

    let l_data = cpu.get_pc() + 2;
    let h_data = cpu.fetch_next_register() as u16;
    let data = if h_data < 0x80 {
        (l_data + h_data) as u16
    } else {
        (l_data + h_data - 256) as u16
    };

    let mut addr = u16::MAX;
    set_next_reg_addr(&mut cpu, &mut addr);

    assert_eq!(addr, data);
}

#[test]
fn ind_x_specify_indexed_indirect_address() {
    let mut cpu = prepare_cpu_for_addr_mode_test(AddrMode::IndX);
    insert_num_into_b1_b2(&mut cpu);
    cpu.set_x(0x12);

    let mut l_data = cpu.fetch_next_register();
    let h_data = cpu.get_x();
    l_data = l_data.wrapping_add(h_data);
    cpu.bus_set(h_data as u16, 0x34);
    cpu.bus_set((h_data + 1) as u16, 0x56);

    let (l_data, h_data) = cpu.bus.cpu_bus.lh_addr(l_data as u16);
    let data = combine_high_low(l_data, h_data);

    let mut addr = u16::MAX;
    set_next_reg_addr(&mut cpu, &mut addr);

    assert_eq!(addr, data);
}

#[test]
fn ind_y_specify_indexed_indirect_address() {
    let mut cpu = prepare_cpu_for_addr_mode_test(AddrMode::IndY);
    insert_num_into_b1_b2(&mut cpu);
    cpu.set_y(0x17);

    let addr = cpu.fetch_next_register() as u16;
    cpu.bus_set(addr, 0x9A);
    cpu.bus_set(addr + 1, 0x03);

    let (l_data, h_data) = cpu.bus.cpu_bus.lh_addr(addr);
    let y = cpu.get_y() as u16;
    let data = combine_high_low(l_data, h_data);
    let data = data.wrapping_add(y);

    let mut addr = u16::MAX;
    set_next_reg_addr(&mut cpu, &mut addr);

    assert_eq!(addr, data);
    assert_eq!(addr, 0x039A + 0x17);
}

#[test]
fn ind_specify_indexed_indirect_address() {
    let mut cpu = prepare_cpu_for_addr_mode_test(AddrMode::Ind);
    insert_num_into_b1_b2(&mut cpu);
    cpu.bus.cpu_bus.prg_rom1[2] = 0x02;

    let (l_data, h_data) = fetch_next_lh_register(&mut cpu);
    let addr = combine_high_low(l_data, h_data);

    cpu.bus_set(addr, 0xEF);
    cpu.bus_set(addr + 1, 0xBE);

    let (l_data, h_data) = cpu.bus.cpu_bus.lh_ignore_overflowing_addr(addr);
    let data = combine_high_low(l_data, h_data);

    let mut addr = u16::MAX;
    set_next_reg_addr(&mut cpu, &mut addr);

    assert_eq!(addr, data);
    assert_eq!(addr, 0xBEEF);
}
