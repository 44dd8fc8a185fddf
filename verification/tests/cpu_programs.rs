use fc2::bus::cpu_map::PpuRegister;
use fc2::bus::ppu::register::WriteTwiceRegister as BusWriteTwiceRegister;
use fc2::bus::Mapper;
use fc2::cpu::register::P;
use fc2::cpu::{Interrupt, CPU};
use fc2::emulator::texture::TextureBuffer;
use fc2::nes::Nes;
use fc2::ppu::register::WriteTwiceRegister;

fn image_with_program(program: &[u8]) -> Vec<u8> {
    let mut buffer = vec![0u8; 0x10 + 0x4000 + 0x2000];
    buffer[0] = b'N';
    buffer[1] = b'E';
    buffer[2] = b'S';
    buffer[3] = 0x1A;
    buffer[4] = 1;
    buffer[5] = 1;
    for (i, b) in program.iter().enumerate() {
        buffer[0x10 + i] = *b;
    }
    buffer[0x10 + 0x3FFC] = 0x00;
    buffer[0x10 + 0x3FFD] = 0x80;
    buffer
}

fn cpu_running(program: &[u8]) -> CPU {
    let nes = Nes::new(&image_with_program(program));
    let mut cpu = CPU::new(&nes);
    cpu.prepare_operators();
    cpu.init(&nes);
    cpu.interrupt(Interrupt::Reset);
    cpu
}

#[test]
fn reset_loads_the_vector() {
    let cpu = cpu_running(&[]);
    assert_eq!(cpu.get_pc(), 0x8000);
    assert_eq!(cpu.get_x(), 0x00);
    assert_eq!(cpu.get_y(), 0x80);
}

#[test]
fn a_small_rom_is_mirrored_at_0xc000() {
    let mut cpu = cpu_running(&[0xA9, 0x42]);
    assert_eq!(cpu.bus.addr(0x8000), 0xA9);
    assert_eq!(cpu.bus.addr(0xC000), 0xA9);
    assert_eq!(cpu.bus.addr(0xC001), 0x42);
}

#[test]
fn adc_adds_with_carry_and_signed_overflow() {
    // LDA #$50; ADC #$50
    let mut cpu = cpu_running(&[0xA9, 0x50, 0x69, 0x50]);
    cpu.ex_ope();
    cpu.ex_ope();
    assert_eq!(cpu.get_a(), 0xA0);
    assert!(!cpu.get_carry());
    assert!(cpu.get_overflow());
    assert!(cpu.get_negative());
    assert!(!cpu.get_zero());
    assert_eq!(cpu.get_pc(), 0x8004);
}

#[test]
fn adc_carries_out_past_255() {
    // SEC; LDA #$FF; ADC #$01
    let mut cpu = cpu_running(&[0x38, 0xA9, 0xFF, 0x69, 0x01]);
    cpu.ex_ope();
    cpu.ex_ope();
    cpu.ex_ope();
    assert_eq!(cpu.get_a(), 0x01);
    assert!(cpu.get_carry());
    assert!(!cpu.get_overflow());
}

#[test]
fn sbc_subtracts_with_borrow() {
    // SEC; LDA #$50; SBC #$F0
    let mut cpu = cpu_running(&[0x38, 0xA9, 0x50, 0xE9, 0xF0]);
    cpu.ex_ope();
    cpu.ex_ope();
    cpu.ex_ope();
    assert_eq!(cpu.get_a(), 0x60);
    assert!(!cpu.get_carry());
    assert!(!cpu.get_overflow());
}

#[test]
fn sbc_overflow_flag_follows_the_accumulator_sign() {
    // SEC; LDA #$80; SBC #$01
    let mut cpu = cpu_running(&[0x38, 0xA9, 0x80, 0xE9, 0x01]);
    cpu.ex_ope();
    cpu.ex_ope();
    cpu.ex_ope();
    assert_eq!(cpu.get_a(), 0x7F);
    assert!(cpu.get_carry());
    assert!(cpu.get_overflow());
}

#[test]
fn cmp_sets_carry_zero_and_negative() {
    // LDA #$10; CMP #$10; CMP #$20
    let mut cpu = cpu_running(&[0xA9, 0x10, 0xC9, 0x10, 0xC9, 0x20]);
    cpu.ex_ope();
    cpu.ex_ope();
    assert!(cpu.get_carry());
    assert!(cpu.get_zero());
    cpu.ex_ope();
    assert!(!cpu.get_carry());
    assert!(!cpu.get_zero());
    assert!(cpu.get_negative());
}

#[test]
fn shifts_and_rotates_on_the_accumulator() {
    // LDA #$81; ASL A; ROL A; LSR A; ROR A
    let mut cpu = cpu_running(&[0xA9, 0x81, 0x0A, 0x2A, 0x4A, 0x6A]);
    cpu.ex_ope();
    cpu.ex_ope();
    assert_eq!(cpu.get_a(), 0x02);
    assert!(cpu.get_carry());
    cpu.ex_ope();
    assert_eq!(cpu.get_a(), 0x05);
    assert!(!cpu.get_carry());
    cpu.ex_ope();
    assert_eq!(cpu.get_a(), 0x02);
    assert!(cpu.get_carry());
    cpu.ex_ope();
    assert_eq!(cpu.get_a(), 0x81);
    assert!(!cpu.get_carry());
}

#[test]
fn store_then_load_gives_the_byte_back() {
    // LDA #$5A; STA $0300; LDX $0300
    let mut cpu = cpu_running(&[0xA9, 0x5A, 0x8D, 0x00, 0x03, 0xAE, 0x00, 0x03]);
    cpu.ex_ope();
    cpu.ex_ope();
    cpu.ex_ope();
    assert_eq!(cpu.get_x(), 0x5A);
    assert_eq!(cpu.bus.addr(0x0300), 0x5A);
}

#[test]
fn inc_wraps_and_sets_overflow() {
    // LDA #$FF; STA $10; INC $10
    let mut cpu = cpu_running(&[0xA9, 0xFF, 0x85, 0x10, 0xE6, 0x10]);
    cpu.ex_ope();
    cpu.ex_ope();
    cpu.ex_ope();
    assert_eq!(cpu.bus.addr(0x0010), 0x00);
    assert!(cpu.get_zero());
    assert!(cpu.get_overflow());
}

#[test]
fn push_then_pull_gives_the_byte_back() {
    // LDA #$77; PHA; LDA #$00; PLA
    let mut cpu = cpu_running(&[0xA9, 0x77, 0x48, 0xA9, 0x00, 0x68]);
    let s = cpu.get_s();
    cpu.ex_ope();
    cpu.ex_ope();
    assert_eq!(cpu.get_s(), s.wrapping_sub(1));
    cpu.ex_ope();
    assert_eq!(cpu.get_a(), 0x00);
    cpu.ex_ope();
    assert_eq!(cpu.get_a(), 0x77);
    assert_eq!(cpu.get_s(), s);
}

#[test]
fn jsr_then_rts_returns_after_the_call() {
    let mut program = vec![0u8; 0x20];
    // JSR $8010
    program[0] = 0x20;
    program[1] = 0x10;
    program[2] = 0x80;
    // RTS
    program[0x10] = 0x60;
    let mut cpu = cpu_running(&program);
    let s = cpu.get_s();
    cpu.ex_ope();
    assert_eq!(cpu.get_pc(), 0x8010);
    cpu.ex_ope();
    assert_eq!(cpu.get_pc(), 0x8003);
    assert_eq!(cpu.get_s(), s);
}

#[test]
fn branch_taken_costs_a_cycle() {
    // LDA #$00; BEQ +2
    let mut cpu = cpu_running(&[0xA9, 0x00, 0xF0, 0x02]);
    cpu.ex_ope();
    cpu.clear_cycle();
    cpu.ex_ope();
    assert_eq!(cpu.get_pc(), 0x8006);
    assert_eq!(cpu.cycle, 3);
}

#[test]
fn brk_with_interrupt_flag_clear_does_nothing() {
    // CLI; BRK
    let mut cpu = cpu_running(&[0x58, 0x00]);
    cpu.ex_ope();
    let s = cpu.get_s();
    cpu.ex_ope();
    assert_eq!(cpu.get_pc(), 0x8002);
    assert_eq!(cpu.get_s(), s);
}

#[test]
fn unknown_opcode_moves_on_by_itself_plus_one() {
    let nes = Nes::new(&image_with_program(&[]));
    let mut cpu = CPU::new(&nes);
    cpu.set_pc(0x0010);
    cpu.ex_ope();
    assert_eq!(cpu.get_pc(), 0x0021);
    assert_eq!(cpu.cycle, 1);
}

#[test]
fn nmi_pushes_and_jumps_to_the_vector() {
    let mut program = vec![0u8; 0x4000];
    program[0x3FFA] = 0x34;
    program[0x3FFB] = 0x92;
    let mut cpu = cpu_running(&program);
    let s = cpu.get_s();
    cpu.interrupt(Interrupt::Nmi);
    assert_eq!(cpu.get_pc(), 0x9234);
    assert_eq!(cpu.get_s(), s.wrapping_sub(3));
    assert!(cpu.get_interrupt());
}

#[test]
fn status_register_reads_back_what_was_written() {
    let mut p = P::new();
    p.set(0xC3);
    assert_eq!(p.get(), 0xC3);
    assert!(p.get_carry());
    assert!(p.get_negative());
    assert!(p.get_zero());
    assert!(p.get_overflow());
}

#[test]
fn write_twice_register_starts_at_zero() {
    let mut r = WriteTwiceRegister::default();
    assert_eq!(r.addr(), 0);
}

#[test]
fn bus_write_twice_register_second_write_decides() {
    let mut r = BusWriteTwiceRegister::new();
    r.set(0x12);
    r.set(0x34);
    assert_eq!(r.addr(), 0x3400);
}

#[test]
fn ppu_address_register_takes_high_then_low() {
    let mut regs = PpuRegister::new();
    regs.set(0x2006, 0x21);
    regs.set(0x2006, 0x08);
    assert_eq!(regs.internal_registers.current_vram, 0x2108);
}

#[test]
fn insert_color_paints_three_bytes() {
    let mut t: TextureBuffer<32, 240> = TextureBuffer::new();
    t.insert_color(1, 2, 1);
    let offset = 2 * 32 * 24 + 3;
    assert_eq!(t.buffer[offset], 0x00);
    assert_eq!(t.buffer[offset + 1], 0x3D);
    assert_eq!(t.buffer[offset + 2], 0xA6);
    assert_eq!(t.buffer[offset + 3], 0x00);
}
