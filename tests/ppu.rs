use gb_emulator::ppu::{shade_color, PPU};

#[test]
fn test_compose_pixels() {
    assert_eq!(PPU::compose_pixels(0x3C, 0x7E), 0b0010111111111000);
    assert_eq!(PPU::compose_pixels(0x42, 0x42), 0b0011000000001100);
    assert_eq!(PPU::compose_pixels(0x7E, 0x5E), 0b0011011111111100);
}

#[test]
fn test_draw_pixels() {
    let palettte = 0b11100100;
    let mut ppu = PPU::new();
    ppu.draw_pixels(0, 0b0010111111111000, 0, 8, palettte, None);

    let expected = [0b00, 0b10, 0b11, 0b11, 0b11, 0b11, 0b10, 0b00];
    for (i, id) in expected.iter().enumerate() {
        assert_eq!(ppu.frame_pixel(i), shade_color(*id));
    }

    let mut ppu = PPU::new();
    ppu.draw_pixels(0, 0b0010111111111000, 0, 2, palettte, None);

    let expected = [0b00, 0b10];
    for (i, id) in expected.iter().enumerate() {
        assert_eq!(ppu.frame_pixel(i), shade_color(*id));
    }

    let mut ppu = PPU::new();
    ppu.draw_pixels(0, 0b0010111111111000, 2, 2, palettte, None);

    let expected = [0b11, 0b11];
    for (i, id) in expected.iter().enumerate() {
        assert_eq!(ppu.frame_pixel(i), shade_color(*id));
    }
}

#[test]
fn sprite_pixels_skip_color_zero() {
    let mut ppu = PPU::new();
    ppu.draw_pixels(0, 0b1100000000000011, 0, 8, 0b11100100, None);
    ppu.draw_pixels(0, 0b0101010101010100, 0, 8, 0b11100100, Some(false));
    assert_eq!(ppu.frame_pixel(0), shade_color(1));
    assert_eq!(ppu.frame_pixel(7), shade_color(3));
}

#[test]
fn sprite_behind_background_only_over_color_zero() {
    let mut ppu = PPU::new();
    ppu.bgp = 0b11100100;
    ppu.draw_pixels(0, 0b1100000000000000, 0, 8, 0b11100100, None);
    ppu.draw_pixels(0, 0b0101010101010101, 0, 8, 0b11100100, Some(true));
    assert_eq!(ppu.frame_pixel(0), shade_color(3));
    assert_eq!(ppu.frame_pixel(1), shade_color(1));
}

#[test]
fn palette_lookup() {
    let ppu = PPU::new();
    assert_eq!(ppu.get_color_from_palette(0b11100100, 0), 0);
    assert_eq!(ppu.get_color_from_palette(0b11100100, 3), 3);
    assert_eq!(ppu.get_color_from_palette(0b00011011, 0), 3);
    assert_eq!(shade_color(0), [0xFF, 0xFF, 0xFF, 0xFF]);
    assert_eq!(shade_color(3), [0x00, 0x00, 0x00, 0xFF]);
}

#[test]
fn frame_reaches_vblank_and_wraps() {
    let mut interrupt_flag: u8 = 0;
    let mut ppu = PPU::new();
    ppu.write_byte(0xFF40, 0x80, &mut interrupt_flag);
    let mut total: usize = 0;
    while ppu.read_byte(0xFF44) != 144 {
        ppu.tick(4, &mut interrupt_flag);
        total += 4;
    }
    assert_eq!(total, 144 * 456);
    assert_eq!(interrupt_flag & 0x01, 0x01);
    assert_eq!(ppu.read_byte(0xFF41) & 0x03, 1);
    while ppu.read_byte(0xFF44) != 0 {
        ppu.tick(4, &mut interrupt_flag);
        total += 4;
    }
    assert_eq!(total, 70224);
    assert_eq!(ppu.read_byte(0xFF41) & 0x03, 2);
}

#[test]
fn lcd_off_freezes() {
    let mut interrupt_flag: u8 = 0;
    let mut ppu = PPU::new();
    ppu.tick(10_000, &mut interrupt_flag);
    assert_eq!(ppu.read_byte(0xFF44), 0);
    assert_eq!(interrupt_flag, 0);
}

#[test]
fn ly_compare_raises_lcd_interrupt() {
    let mut interrupt_flag: u8 = 0;
    let mut ppu = PPU::new();
    ppu.write_byte(0xFF45, 5, &mut interrupt_flag);
    ppu.write_byte(0xFF41, 0x40, &mut interrupt_flag);
    ppu.write_byte(0xFF44, 5, &mut interrupt_flag);
    assert_eq!(ppu.read_byte(0xFF41) & 0x04, 0x04);
    assert_eq!(interrupt_flag, 0x02);
}

#[test]
fn background_line_is_drawn_and_published() {
    let mut interrupt_flag: u8 = 0;
    let mut ppu = PPU::new();
    // tile 1 row 0: every pixel color 3
    ppu.write_byte(0x8010, 0xFF, &mut interrupt_flag);
    ppu.write_byte(0x8011, 0xFF, &mut interrupt_flag);
    // map entry (0, 0) names tile 1
    ppu.write_byte(0x9800, 0x01, &mut interrupt_flag);
    ppu.write_byte(0xFF47, 0b11100100, &mut interrupt_flag);
    ppu.write_byte(0xFF40, 0x91, &mut interrupt_flag);
    for _ in 0..(144 * 456 / 4) {
        ppu.tick(4, &mut interrupt_flag);
    }
    let data = ppu.pixel_data();
    assert_eq!(data.len(), 160 * 144 * 4);
    assert_eq!(&data[0..4], &[0x00, 0x00, 0x00, 0xFF]);
    assert_eq!(&data[8 * 4..8 * 4 + 4], &[0xFF, 0xFF, 0xFF, 0xFF]);
    assert_eq!(&data[160 * 4..160 * 4 + 4], &[0xFF, 0xFF, 0xFF, 0xFF]);
}

fn run_first_line(ppu: &mut PPU, interrupt_flag: &mut u8) {
    while ppu.read_byte(0xFF44) == 0 {
        ppu.tick(4, interrupt_flag);
    }
}

#[test]
fn sprite_is_drawn_and_flipped() {
    let mut interrupt_flag: u8 = 0;
    let mut ppu = PPU::new();
    ppu.write_byte(0x8010, 0xF0, &mut interrupt_flag);
    ppu.write_byte(0x8011, 0x00, &mut interrupt_flag);
    ppu.write_byte(0xFE00, 16, &mut interrupt_flag);
    ppu.write_byte(0xFE01, 8, &mut interrupt_flag);
    ppu.write_byte(0xFE02, 1, &mut interrupt_flag);
    ppu.write_byte(0xFE03, 0x00, &mut interrupt_flag);
    ppu.write_byte(0xFF48, 0b11100100, &mut interrupt_flag);
    ppu.write_byte(0xFF40, 0x82, &mut interrupt_flag);
    run_first_line(&mut ppu, &mut interrupt_flag);
    assert_eq!(ppu.frame_pixel(0), shade_color(1));
    assert_eq!(ppu.frame_pixel(3), shade_color(1));
    assert_eq!(ppu.frame_pixel(4), shade_color(0));

    let mut ppu2 = PPU::new();
    ppu2.write_byte(0x8010, 0xF0, &mut interrupt_flag);
    ppu2.write_byte(0xFE00, 16, &mut interrupt_flag);
    ppu2.write_byte(0xFE01, 8, &mut interrupt_flag);
    ppu2.write_byte(0xFE02, 1, &mut interrupt_flag);
    ppu2.write_byte(0xFE03, 0x20, &mut interrupt_flag);
    ppu2.write_byte(0xFF48, 0b11100100, &mut interrupt_flag);
    ppu2.write_byte(0xFF40, 0x82, &mut interrupt_flag);
    run_first_line(&mut ppu2, &mut interrupt_flag);
    assert_eq!(ppu2.frame_pixel(0), shade_color(0));
    assert_eq!(ppu2.frame_pixel(4), shade_color(1));
    assert_eq!(ppu2.frame_pixel(7), shade_color(1));
}

#[test]
fn at_most_ten_sprites_per_line() {
    let mut interrupt_flag: u8 = 0;
    let mut ppu = PPU::new();
    ppu.write_byte(0x8010, 0xFF, &mut interrupt_flag);
    for s in 0..12u16 {
        ppu.write_byte(0xFE00 + 4 * s, 16, &mut interrupt_flag);
        ppu.write_byte(0xFE01 + 4 * s, (8 + 8 * s) as u8, &mut interrupt_flag);
        ppu.write_byte(0xFE02 + 4 * s, 1, &mut interrupt_flag);
    }
    ppu.write_byte(0xFF48, 0b11100100, &mut interrupt_flag);
    ppu.write_byte(0xFF40, 0x82, &mut interrupt_flag);
    run_first_line(&mut ppu, &mut interrupt_flag);
    assert_eq!(ppu.frame_pixel(9 * 8), shade_color(1));
    assert_eq!(ppu.frame_pixel(10 * 8), shade_color(0));
}

#[test]
fn window_covers_from_wx_minus_seven() {
    let mut interrupt_flag: u8 = 0;
    let mut ppu = PPU::new();
    ppu.write_byte(0x8010, 0xFF, &mut interrupt_flag);
    ppu.write_byte(0x8011, 0xFF, &mut interrupt_flag);
    ppu.write_byte(0x9C00, 0x01, &mut interrupt_flag);
    ppu.write_byte(0xFF47, 0b11100100, &mut interrupt_flag);
    ppu.write_byte(0xFF4A, 0, &mut interrupt_flag);
    ppu.write_byte(0xFF4B, 87, &mut interrupt_flag);
    ppu.write_byte(0xFF40, 0xF1, &mut interrupt_flag);
    run_first_line(&mut ppu, &mut interrupt_flag);
    assert_eq!(ppu.frame_pixel(79), shade_color(0));
    assert_eq!(ppu.frame_pixel(80), shade_color(3));
    assert_eq!(ppu.frame_pixel(87), shade_color(3));
    assert_eq!(ppu.frame_pixel(88), shade_color(0));
}

#[test]
fn stat_mode_bits_read_zero_with_lcd_off() {
    let mut interrupt_flag: u8 = 0;
    let mut ppu = PPU::new();
    ppu.write_byte(0xFF41, 0x03, &mut interrupt_flag);
    assert_eq!(ppu.read_byte(0xFF41), 0x00);
    ppu.write_byte(0xFF40, 0x80, &mut interrupt_flag);
    assert_eq!(ppu.read_byte(0xFF41), 0x03);
}

#[test]
fn priority_sprite_hidden_by_nonzero_background_index_even_if_white() {
    let mut interrupt_flag: u8 = 0;
    let mut ppu = PPU::new();
    // background tile 0 row 0: color index 1 everywhere; BGP maps every index to white
    ppu.write_byte(0x8000, 0xFF, &mut interrupt_flag);
    ppu.write_byte(0xFF47, 0x00, &mut interrupt_flag);
    // sprite tile 1 row 0: color index 3 everywhere
    ppu.write_byte(0x8010, 0xFF, &mut interrupt_flag);
    ppu.write_byte(0x8011, 0xFF, &mut interrupt_flag);
    ppu.write_byte(0xFE00, 16, &mut interrupt_flag);
    ppu.write_byte(0xFE01, 8, &mut interrupt_flag);
    ppu.write_byte(0xFE02, 1, &mut interrupt_flag);
    ppu.write_byte(0xFE03, 0x80, &mut interrupt_flag);
    ppu.write_byte(0xFE04, 16, &mut interrupt_flag);
    ppu.write_byte(0xFE05, 16, &mut interrupt_flag);
    ppu.write_byte(0xFE06, 1, &mut interrupt_flag);
    ppu.write_byte(0xFE07, 0x00, &mut interrupt_flag);
    ppu.write_byte(0xFF48, 0b11100100, &mut interrupt_flag);
    ppu.write_byte(0xFF40, 0x93, &mut interrupt_flag);
    run_first_line(&mut ppu, &mut interrupt_flag);
    assert_eq!(ppu.frame_pixel(0), shade_color(0));
    assert_eq!(ppu.frame_pixel(8), shade_color(3));
}

#[test]
fn off_screen_sprites_count_toward_the_ten() {
    let mut interrupt_flag: u8 = 0;
    let mut ppu = PPU::new();
    ppu.write_byte(0x8010, 0xFF, &mut interrupt_flag);
    // ten entries on the line but at x = 0 (off screen), then one visible
    for s in 0..10u16 {
        ppu.write_byte(0xFE00 + 4 * s, 16, &mut interrupt_flag);
        ppu.write_byte(0xFE01 + 4 * s, 0, &mut interrupt_flag);
        ppu.write_byte(0xFE02 + 4 * s, 1, &mut interrupt_flag);
    }
    ppu.write_byte(0xFE28, 16, &mut interrupt_flag);
    ppu.write_byte(0xFE29, 8, &mut interrupt_flag);
    ppu.write_byte(0xFE2A, 1, &mut interrupt_flag);
    ppu.write_byte(0xFF48, 0b11100100, &mut interrupt_flag);
    ppu.write_byte(0xFF40, 0x82, &mut interrupt_flag);
    run_first_line(&mut ppu, &mut interrupt_flag);
    assert_eq!(ppu.frame_pixel(0), shade_color(0));
}
