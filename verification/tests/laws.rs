use fc2::apu::{ChannelController, FrameCounter, PhaseChange, Pulse, Sweep};
use fc2::bus::ppu::register::WriteTwiceRegister as BusWriteTwiceRegister;
use fc2::bus::cpu_map::PpuRegister;
use fc2::bus::Mapper;
use fc2::cpu::register::P;
use fc2::cpu::{Interrupt, CPU};
use fc2::nes::Nes;
use fc2::ppu::mapper::PpuMap;

fn image_with_program(program: &[u8]) -> Vec<u8> {
    let mut buffer = vec![0u8; 0x10 + 0x4000 + 0x2000];
    buffer[0] = b'N';
    buffer[1] = b'E';
    buffer[2] = b'S';
    buffer[3] = 0x1A;
    buffer[4] = 1;
    buffer[5] = 1;
    for (i, b) in program.iter().enumerate() {
        buffer[0x10 + i] = *b;
    }
    buffer[0x10 + 0x3FFC] = 0x00;
    buffer[0x10 + 0x3FFD] = 0x80;
    buffer
}

fn cpu_running(program: &[u8]) -> CPU {
    let nes = Nes::new(&image_with_program(program));
    let mut cpu = CPU::new(&nes);
    cpu.prepare_operators();
    cpu.init(&nes);
    cpu.interrupt(Interrupt::Reset);
    cpu
}

#[test]
fn nmi_then_rti_comes_back() {
    let mut program = vec![0u8; 0x4000];
    // handler at 0x8010: RTI
    program[0x10] = 0x40;
    program[0x3FFA] = 0x10;
    program[0x3FFB] = 0x80;
    let mut cpu = cpu_running(&program);
    cpu.set_pc(0x8005);
    cpu.set_p(0xC1);
    let s = cpu.get_s();
    cpu.interrupt(Interrupt::Nmi);
    assert_eq!(cpu.get_pc(), 0x8010);
    cpu.ex_ope();
    assert_eq!(cpu.get_pc(), 0x8005);
    assert_eq!(cpu.get_s(), s);
    assert!(cpu.get_carry());
    assert!(cpu.get_negative());
    assert!(cpu.get_overflow());
    assert!(!cpu.get_zero());
    assert!(cpu.get_interrupt());
}

#[test]
fn status_load_then_read_copies_bit_four_into_bit_five() {
    let mut p = P::new();
    p.set(0x10);
    assert_eq!(p.get(), 0x30);
    p.set(0x20);
    assert_eq!(p.get(), 0x00);
}

#[test]
fn sweep_reads_back_what_was_written() {
    let mut sweep = Sweep::new();
    sweep.set(0xB5);
    assert_eq!(sweep.addr(), 0xB5);
    sweep.set(0x00);
    assert_eq!(sweep.addr(), 0x00);
}

#[test]
fn channel_enable_reads_back_its_low_five_bits() {
    let mut c = ChannelController::new();
    c.set(0xFF);
    assert_eq!(c.addr(), 0x1F);
    c.set(0x05);
    assert_eq!(c.addr(), 0x05);
}

#[test]
fn pulse_registers_read_back() {
    let mut pulse = Pulse::new();
    pulse.set(0, 0x7A);
    assert_eq!(pulse.addr(0), 0x7A);
    pulse.set(2, 0x34);
    assert_eq!(pulse.addr(2), 0x34);
    pulse.set(3, 0x0D);
    // the timer's high bits read back; the length counter index is masked
    // with its own unshifted bits and reads as zero here
    assert_eq!(pulse.addr(3), 0x05);
}

#[test]
fn cpu_memory_reads_back_a_write() {
    let mut cpu = cpu_running(&[]);
    cpu.bus_set(0x0123, 0x5A);
    assert_eq!(cpu.bus.addr(0x0123), 0x5A);
    cpu.bus_set(0x6001, 0x77);
    assert_eq!(cpu.bus.addr(0x6001), 0x77);
}

#[test]
fn ppu_memory_reads_back_a_write() {
    let nes = Nes::new(&image_with_program(&[]));
    let mut map = PpuMap::new(&nes);
    map.set(0x1234, 0x99);
    assert_eq!(map.addr(0x1234), 0x99);
    map.set(0x3F11, 0x21);
    assert_eq!(map.addr(0x3F11), 0x21);
}

#[test]
fn ppu_control_reads_back_what_was_written() {
    let mut regs = PpuRegister::new();
    regs.set(0x2000, 0xA5);
    assert_eq!(regs.addr(0x2000), 0xA5);
    regs.set(0x2001, 0x1E);
    assert_eq!(regs.addr(0x2001), 0x1E);
}

#[test]
fn nametable_partner_reads_a_write() {
    let mut image = image_with_program(&[]);
    let horizontal = Nes::new(&image);
    let mut map = PpuMap::new(&horizontal);
    map.set(0x2005, 0x42);
    assert_eq!(map.addr(0x2405), 0x42);
    assert_eq!(map.addr(0x2805), 0x00);
    image[6] = 0x01;
    let vertical = Nes::new(&image);
    let mut map = PpuMap::new(&vertical);
    map.set(0x2405, 0x24);
    assert_eq!(map.addr(0x2C05), 0x24);
    assert_eq!(map.addr(0x2005), 0x00);
}

#[test]
fn palette_entry_four_reads_the_backdrop() {
    let nes = Nes::new(&image_with_program(&[]));
    let mut map = PpuMap::new(&nes);
    map.set(0x3F00, 0x0F);
    map.set(0x3F04, 0x21);
    assert_eq!(map.addr(0x3F04), 0x0F);
    assert_eq!(map.addr(0x3F14), 0x21);
}

#[test]
fn ind_x_pointer_at_ff_takes_its_high_byte_from_0x0100() {
    // LDA ($FF,X) with X = 0 after reset
    let mut cpu = cpu_running(&[0xA1, 0xFF]);
    assert_eq!(cpu.get_x(), 0x00);
    cpu.bus_set(0x00FF, 0x34);
    cpu.bus_set(0x0100, 0x12);
    cpu.bus_set(0x0000, 0x99);
    let op = cpu.read_ope().unwrap();
    assert_eq!(cpu.ex_addr_mode(&op.addr_mode), 0x1234);
    assert_eq!(cpu.get_pc(), 0x8002);
}

#[test]
fn ind_y_pointer_at_ff_takes_its_high_byte_from_0x0100() {
    // LDA ($FF),Y with Y = 0x80 after reset
    let mut cpu = cpu_running(&[0xB1, 0xFF]);
    assert_eq!(cpu.get_y(), 0x80);
    cpu.bus_set(0x00FF, 0x34);
    cpu.bus_set(0x0100, 0x12);
    cpu.bus_set(0x0000, 0x99);
    let op = cpu.read_ope().unwrap();
    assert_eq!(cpu.ex_addr_mode(&op.addr_mode), 0x12B4);
    assert_eq!(cpu.get_pc(), 0x8002);
}

#[test]
fn pad_reads_give_the_polled_bits_lowest_first() {
    let mut cpu = cpu_running(&[]);
    cpu.bus.controller_polling_data = 0x02A5;
    cpu.bus_set(0x4016, 1);
    let bits: Vec<u8> = (0..10).map(|_| cpu.bus.addr(0x4016)).collect();
    assert_eq!(bits, vec![1, 0, 1, 0, 0, 1, 0, 1, 0, 0]);
    let second: Vec<u8> = (0..3).map(|_| cpu.bus.addr(0x4017)).collect();
    assert_eq!(second, vec![0, 1, 0]);
}

#[test]
fn write_twice_runs_keep_the_last_pair() {
    let mut w = BusWriteTwiceRegister::new();
    w.set(0x12);
    assert_eq!(w.addr, 0x0012);
    w.set(0x34);
    assert_eq!(w.addr(), 0x3400);
    w.set(0x56);
    assert_eq!(w.addr, 0x3456);
    w.set(0x78);
    assert_eq!(w.addr(), 0x7800);
}

#[test]
fn two_scroll_writes_give_the_scroll_pair() {
    let mut regs = PpuRegister::new();
    regs.set(0x2005, 0x7D);
    regs.set(0x2005, 0xC3);
    let t = regs.internal_registers.temporary_vram;
    let x = ((t & 0x1F) << 3) | regs.internal_registers.x_scroll as u16;
    let y = (((t & 0x300) >> 8) << 6) | (((t & 0xE0) >> 5) << 3) | ((t & 0x7000) >> 12);
    assert_eq!(x, 0x7D);
    assert_eq!(y, 0xC3);
    assert!(!regs.internal_registers.latch_flag);
}

#[test]
fn sweep_with_a_wide_shift_moves_the_timer() {
    let mut sweep = Sweep::new();
    sweep.is_enable = true;
    sweep.shift_count = 9;
    let mut timer: u16 = 0x600;
    sweep.update(&mut timer);
    assert_eq!(timer, 0x603);
}

#[test]
fn pulse_audio_tick_steps_the_envelope() {
    let mut pulse = Pulse::new();
    pulse.timer = 0x100;
    pulse.length_counter = 1;
    pulse.is_constant_volume = true;
    pulse.constant_volume_and_devider_period = 9;
    let frame_counter = FrameCounter::new();
    let mut enabled = true;
    let mut clock: u16 = 58;
    assert!(pulse.audio_tick(&frame_counter, &mut enabled, &mut clock) == PhaseChange::Keep);
    assert_eq!(clock, 59);
    assert!(pulse.audio_tick(&frame_counter, &mut enabled, &mut clock) == PhaseChange::Recompute);
    assert_eq!(clock, 0);
    assert_eq!(pulse.envelope_and_liner_counter, 1);
    assert_eq!(pulse.current_volume, 9);
    // four more envelope steps end the length counter's run
    for _ in 0..4 {
        clock = 59;
        pulse.audio_tick(&frame_counter, &mut enabled, &mut clock);
    }
    assert_eq!(pulse.envelope_and_liner_counter, 0);
    assert_eq!(pulse.length_counter, 0);
    assert!(enabled);
    clock = 59;
    assert!(pulse.audio_tick(&frame_counter, &mut enabled, &mut clock) == PhaseChange::Silence);
    assert_eq!(pulse.current_volume, 0);
}

#[test]
fn silent_pulse_tick_leaves_full_counters_alone() {
    let mut pulse = Pulse::new();
    pulse.envelope_and_liner_counter = 255;
    let frame_counter = FrameCounter::new();
    let mut enabled = false;
    let mut clock: u16 = 0xFFFF;
    assert!(pulse.audio_tick(&frame_counter, &mut enabled, &mut clock) == PhaseChange::Silence);
    assert_eq!(clock, 0xFFFF);
    assert_eq!(pulse.envelope_and_liner_counter, 255);
    assert_eq!(pulse.current_volume, 0);
    assert!(!enabled);
}

#[test]
fn fresh_sweep_reads_zero_and_keeps_the_timer() {
    let mut sweep = Sweep::new();
    assert_eq!(sweep.addr(), 0);
    let mut timer: u16 = 0x345;
    sweep.update(&mut timer);
    assert_eq!(timer, 0x345);
}
