use fc2::bus::Mapper;
use fc2::emulator::configure::{
    PPU_DRAW_LINE_CYCLE, TILE_COUNTS_ON_WIDTH, TOTAL_LINE, VBLANK_LINE, VISIBLE_LINES,
    WINDOW_HEIGHT, WINDOW_WIDTH,
};
use fc2::emulator::texture::TextureBuffer;
use rustc_hash::FxHashMap;
use fc2::emulator::{Emulator, Key, KeyAction, KeyEvent};
use fc2::nes::Nes;

type Machine = Emulator<
    TILE_COUNTS_ON_WIDTH,
    WINDOW_HEIGHT,
    WINDOW_WIDTH,
    PPU_DRAW_LINE_CYCLE,
    VBLANK_LINE,
    TOTAL_LINE,
    VISIBLE_LINES,
    7457,
>;

fn cartridge() -> Vec<u8> {
    let mut buffer = vec![0u8; 0x10 + 0x4000 + 0x2000];
    buffer[0] = b'N';
    buffer[1] = b'E';
    buffer[2] = b'S';
    buffer[3] = 0x1A;
    buffer[4] = 1;
    buffer[5] = 1;
    buffer[0x10] = 0xEA;
    buffer[0x10 + 0x3FFC] = 0x00;
    buffer[0x10 + 0x3FFD] = 0x80;
    buffer
}

fn machine() -> Box<Machine> {
    let nes = Nes::new(&cartridge());
    let mut emulator = Box::new(Machine::new(&nes));
    emulator.cpu.init(&nes);
    emulator
}

#[test]
fn new_emulator_starts_clean() {
    let emulator = machine();
    assert_eq!(emulator.ppu_cycle, 0);
    assert_eq!(emulator.apu_cycle, 0);
    assert_eq!(emulator.drawing_line, 0);
    assert_eq!(emulator.pad_data, 0);
    assert!(emulator.texture_buffer.buffer.iter().all(|b| *b == 0));
    assert_eq!(emulator.texture_buffer.colors[1], [0x00, 0x3D, 0xA6]);
}

#[test]
fn startup_pushes_and_resets() {
    let mut emulator = machine();
    let s = emulator.cpu.get_s();
    emulator.startup();
    assert_eq!(emulator.cpu.get_pc(), 0x8000);
    assert_eq!(emulator.cpu.get_s(), s.wrapping_sub(2));
}

#[test]
fn keys_set_and_clear_pad_bits() {
    let mut emulator = machine();
    assert_eq!(emulator.handle_keyboard(KeyEvent::KeyDown(Key::X)), KeyAction::Continue);
    assert_eq!(emulator.pad_data, 0x0001);
    assert_eq!(emulator.handle_keyboard(KeyEvent::KeyDown(Key::N)), KeyAction::Continue);
    assert_eq!(emulator.pad_data, 0x0201);
    assert_eq!(emulator.handle_keyboard(KeyEvent::KeyUp(Key::X)), KeyAction::Continue);
    assert_eq!(emulator.pad_data, 0x0200);
    assert_eq!(emulator.handle_keyboard(KeyEvent::KeyDown(Key::Other)), KeyAction::Continue);
    assert_eq!(emulator.pad_data, 0x0200);
}

#[test]
fn control_keys_answer_the_window() {
    let mut emulator = machine();
    emulator.pad_data = 0x10;
    assert_eq!(emulator.handle_keyboard(KeyEvent::Quit), KeyAction::Quit);
    assert_eq!(emulator.handle_keyboard(KeyEvent::KeyDown(Key::Escape)), KeyAction::Quit);
    assert_eq!(emulator.handle_keyboard(KeyEvent::KeyDown(Key::F1)), KeyAction::Save);
    assert_eq!(emulator.handle_keyboard(KeyEvent::KeyDown(Key::F2)), KeyAction::Load);
    assert_eq!(emulator.pad_data, 0x10);
}

#[test]
fn poll_pad_hands_keys_to_the_port() {
    let mut emulator = machine();
    emulator.handle_keyboard(KeyEvent::KeyDown(Key::Right));
    emulator.handle_keyboard(KeyEvent::KeyDown(Key::L));
    emulator.poll_pad();
    assert_eq!(emulator.cpu.bus.controller_polling_data, 0x8080);
}

#[test]
fn apu_clock_keeps_the_remainder() {
    let mut emulator = machine();
    emulator.apu_cycle = 7450;
    emulator.cpu.cycle = 10;
    assert_eq!(emulator.apu_update(), 1);
    assert_eq!(emulator.apu_cycle, 3);
    emulator.cpu.cycle = 2;
    assert_eq!(emulator.apu_update(), 0);
    assert_eq!(emulator.apu_cycle, 5);
}

#[test]
fn ppu_clock_below_a_line_only_counts() {
    let mut emulator = machine();
    emulator.cpu.cycle = 7;
    assert!(!emulator.ppu_update());
    assert_eq!(emulator.ppu_cycle, 21);
    assert_eq!(emulator.drawing_line, 0);
}

#[test]
fn ppu_clock_past_a_line_advances_it() {
    let mut emulator = machine();
    emulator.ppu_cycle = 340;
    emulator.cpu.cycle = 1;
    assert!(!emulator.ppu_update());
    assert_eq!(emulator.ppu_cycle, 2);
    assert_eq!(emulator.drawing_line, 1);
}

#[test]
fn last_line_ends_the_frame() {
    let mut emulator = machine();
    emulator.drawing_line = TOTAL_LINE;
    emulator.ppu_cycle = 340;
    emulator.cpu.cycle = 1;
    assert!(emulator.ppu_update());
    assert_eq!(emulator.drawing_line, 0);
}

#[test]
fn set_sprites_stops_after_the_first_nametable_byte() {
    let mut emulator = machine();
    let mut chars = vec![0u8; 0x2002];
    chars[0] = 5;
    chars[0x1FFF] = 6;
    chars[0x2000] = 9;
    chars[0x2001] = 7;
    emulator.set_sprites(&chars);
    assert_eq!(emulator.cpu.bus.ppu.map.addr(0x0000), 5);
    assert_eq!(emulator.cpu.bus.ppu.map.addr(0x1FFF), 6);
    assert_eq!(emulator.cpu.bus.ppu.map.addr(0x2000), 9);
    assert_eq!(emulator.cpu.bus.ppu.map.addr(0x2001), 0);
}

#[test]
fn set_sprites_takes_a_short_rom_whole() {
    let mut emulator = machine();
    emulator.set_sprites(&vec![1, 2, 3]);
    assert_eq!(emulator.cpu.bus.ppu.map.addr(0x0000), 1);
    assert_eq!(emulator.cpu.bus.ppu.map.addr(0x0002), 3);
    assert_eq!(emulator.cpu.bus.ppu.map.addr(0x0003), 0);
}

#[test]
fn sprite_sheet_paints_the_pattern_index() {
    let mut emulator = machine();
    let mut chars = vec![0u8; 0x2000];
    // tile 0, row 0: leftmost dot has both planes set, the next only the low one
    chars[0] = 0b1100_0000;
    chars[8] = 0b1000_0000;
    // tile 1, row 2: rightmost dot has only the high plane set
    chars[0x10 + 2 + 8] = 0b0000_0001;
    emulator.set_sprites(&chars);
    emulator.render_all_sprites(2);
    let colors = emulator.texture_buffer.colors;
    let at = |x: usize, y: usize| {
        let o = y * (TILE_COUNTS_ON_WIDTH as usize * 24) + x * 3;
        [
            emulator.texture_buffer.buffer[o],
            emulator.texture_buffer.buffer[o + 1],
            emulator.texture_buffer.buffer[o + 2],
        ]
    };
    assert_eq!(at(0, 0), colors[3]);
    assert_eq!(at(1, 0), colors[1]);
    assert_eq!(at(2, 0), colors[0]);
    assert_eq!(at(15, 2), colors[2]);
    assert_eq!(at(14, 2), colors[0]);
}

#[test]
fn color_table_row_is_painted_by_x() {
    let mut buffer: Box<TextureBuffer<TILE_COUNTS_ON_WIDTH, VISIBLE_LINES>> =
        Box::new(TextureBuffer::new());
    let mut table: FxHashMap<u8, usize> = FxHashMap::default();
    table.insert(3, 5);
    table.insert(3, 6);
    table.insert(255, 1);
    buffer.insert_colors(table, 2);
    let row = 2 * TILE_COUNTS_ON_WIDTH as usize * 24;
    assert_eq!(buffer.buffer[row + 9..row + 12], buffer.colors[6]);
    assert_eq!(buffer.buffer[row + 765..row + 768], buffer.colors[1]);
    assert_eq!(buffer.buffer[row..row + 9], [0u8; 9]);
}

#[test]
fn fresh_line_can_be_drawn_until_a_palette_entry_leaves_the_colours() {
    let mut emulator = machine();
    assert!(emulator.line_is_drawable());
    assert!(emulator.cpu.bus.ppu.map.palette_in_range());
    emulator.cpu.bus.ppu.map.set(0x3F11, 0x40);
    assert!(!emulator.cpu.bus.ppu.map.palette_in_range());
    assert!(!emulator.line_is_drawable());
}

#[test]
fn line_past_the_picture_cannot_be_drawn() {
    let mut emulator = machine();
    emulator.drawing_line = 256;
    assert!(!emulator.line_is_drawable());
}
