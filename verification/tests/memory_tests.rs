use rustyboy::memory::Memory;

fn blank() -> Memory {
    Memory::new(&Vec::new(), &Vec::new())
}

#[test]
fn test_read_word() {
    let mut memory = blank();
    memory.write_byte(0x2000, 0xBA);
    memory.write_byte(0x2001, 0xDC);
    assert_eq!(memory.read_word(0x2000), 0xDCBA);
}

#[test]
fn test_write_word() {
    let mut memory = blank();
    memory.write_word(0x6FF0, 0xDCBA);
    assert_eq!(memory.memory[0x6FF0], 0xBA);
    assert_eq!(memory.memory[0x6FF1], 0xDC);
}

#[test]
fn test_lcd_control_update() {
    let mut memory = blank();
    memory.write_byte(0xFF40, 0x82);
    assert_eq!(memory.vram.lcd_control.display, true);
    assert_eq!(memory.vram.lcd_control.window_map, false);
    assert_eq!(memory.vram.lcd_control.sprites, true);
}

#[test]
fn images_are_copied_and_padded() {
    let memory = Memory::new(&vec![1, 2, 3], &vec![9, 8]);
    assert_eq!(memory.bios.len(), 0x100);
    assert_eq!(&memory.bios[0..4], &[1, 2, 3, 0]);
    assert_eq!(memory.memory.len(), 0x10000);
    assert_eq!(&memory.memory[0..3], &[9, 8, 0]);
    assert!(memory.rom.iter().all(|&b| b == 1));
    assert!(!memory.bios_flag);
}

#[test]
fn bios_shadows_low_addresses() {
    let mut memory = Memory::new(&vec![0xAA; 0x100], &vec![0x55; 0x200]);
    assert_eq!(memory.read_byte(0x0010), 0x55);
    memory.bios_flag = true;
    assert_eq!(memory.read_byte(0x0010), 0xAA);
    assert_eq!(memory.read_byte(0x0100), 0x55);
}

#[test]
fn vram_region_goes_to_video_unit() {
    let mut memory = blank();
    memory.write_byte(0x8123, 0x77);
    assert_eq!(memory.vram.read_byte(0x0123), 0x77);
    assert_eq!(memory.read_byte(0x8123), 0x77);
}

#[test]
fn joypad_write_sets_button_bits() {
    let mut memory = blank();
    memory.write_byte(0xFF00, 0x20);
    assert_eq!(memory.read_byte(0xFF00), 0x2F);
    assert!(memory.input_status());
    memory.write_byte(0xFF00, 0x10);
    assert!(!memory.input_status());
}

#[test]
fn serial_bytes_are_collected() {
    let mut memory = blank();
    memory.write_byte(0xFF01, b'o');
    memory.write_byte(0xFF01, b'k');
    assert_eq!(memory.serial, b"ok".to_vec());
    assert_eq!(memory.read_byte(0xFF01), b'k');
}

#[test]
fn lcd_registers() {
    let mut memory = blank();
    memory.write_byte(0xFF42, 3);
    memory.write_byte(0xFF43, 4);
    memory.write_byte(0xFF4A, 5);
    memory.write_byte(0xFF4B, 6);
    memory.write_byte(0xFF45, 7);
    assert_eq!(memory.vram.scroll_y, 3);
    assert_eq!(memory.vram.scroll_x, 4);
    assert_eq!(memory.vram.window_y, 5);
    assert_eq!(memory.vram.window_x, 6);
    assert_eq!(memory.vram.lcd_stat, 7);
    assert_eq!(memory.read_byte(0xFF43), 4);
    memory.vram.scan_row = 9;
    assert_eq!(memory.read_byte(0xFF44), 9);
    memory.write_byte(0xFF44, 0x33);
    assert_eq!(memory.vram.scan_row, 0);
    assert_eq!(memory.read_byte(0xFF44), 0);
}

#[test]
fn setup_gives_boot_values() {
    let mut memory = blank();
    memory.memory_setup();
    assert_eq!(memory.read_byte(0xFF26), 0xF1);
    assert_eq!(memory.read_byte(0xFF47), 0xFC);
    assert_eq!(memory.read_byte(0xFF00), 0xFF);
    assert!(memory.vram.lcd_control.display);
    assert!(memory.vram.lcd_control.background);
    assert!(memory.vram.lcd_control.bg_set);
    assert!(!memory.vram.lcd_control.bg_map);
}

#[test]
fn write_then_read_elsewhere_unchanged() {
    let mut memory = blank();
    memory.write_byte(0xC000, 1);
    memory.write_byte(0xC001, 2);
    assert_eq!(memory.read_byte(0xC000), 1);
    assert_eq!(memory.read_word(0xC000), 0x0201);
}
