use chip8::display::IOHandler;

#[test]
fn draw_maps_cells_to_colors() {
    let mut gfx = [0u8; 2048];
    gfx[0] = 1;
    gfx[2047] = 1;
    let buffer = IOHandler::draw(&gfx);
    assert_eq!(buffer.len(), 2048);
    assert_eq!(buffer[0], 0xFFFFFF);
    assert_eq!(buffer[1], 0);
    assert_eq!(buffer[2047], 0xFFFFFF);
}

#[test]
fn draw_sprite_paints_set_bits_white_with_wrap() {
    let mut buffer = vec![0x123456u32; 2048];
    IOHandler::draw_sprite(&mut buffer, 62, 31, &[0b1010_0000, 0b0000_0001]);
    assert_eq!(buffer[31 * 64 + 62], 0xFFFFFF);
    assert_eq!(buffer[31 * 64 + 63], 0x123456);
    assert_eq!(buffer[31 * 64], 0xFFFFFF);
    assert_eq!(buffer[5], 0xFFFFFF);
    assert_eq!(buffer[4], 0x123456);
    assert_eq!(buffer.iter().filter(|&&c| c == 0xFFFFFF).count(), 3);
}

#[test]
fn draw_sprite_wraps_large_coordinates() {
    let mut buffer = vec![0u32; 2048];
    IOHandler::draw_sprite(&mut buffer, 64 * 3 + 1, 32 * 5 + 2, &[0x80]);
    assert_eq!(buffer[2 * 64 + 1], 0xFFFFFF);
}
