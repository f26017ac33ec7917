use ht32_panel::framebuffer::{parse_hex_color, rgb565_to_rgb888, rgb888_to_rgb565, Framebuffer};
use ht32_panel::led::{LedDevice, LedTheme};
use ht32_panel::orientation::Orientation;
use ht32_panel::protocol::{
    build_heartbeat_packet, build_orientation_packet, build_redraw_chunk, build_refresh_packet,
    Command, RedrawPhase, SubCommand, BUFFER_SIZE, CHUNK_COUNT, LCD_SIGNATURE,
};

#[test]
fn test_rgb565_conversion() {
    // Pure red
    let red = rgb888_to_rgb565(255, 0, 0);
    assert_eq!(red, 0xF800);

    // Pure green
    let green = rgb888_to_rgb565(0, 255, 0);
    assert_eq!(green, 0x07E0);

    // Pure blue
    let blue = rgb888_to_rgb565(0, 0, 255);
    assert_eq!(blue, 0x001F);

    // White
    let white = rgb888_to_rgb565(255, 255, 255);
    assert_eq!(white, 0xFFFF);

    // Black
    let black = rgb888_to_rgb565(0, 0, 0);
    assert_eq!(black, 0x0000);
}

#[test]
fn test_parse_hex_color() {
    assert_eq!(parse_hex_color("#FF0000"), Some(0xF800));
    assert_eq!(parse_hex_color("00FF00"), Some(0x07E0));
    assert_eq!(parse_hex_color("#000000"), Some(0x0000));
    assert_eq!(parse_hex_color("#FFFFFF"), Some(0xFFFF));
    assert_eq!(parse_hex_color("invalid"), None);
}

#[test]
fn test_framebuffer_ops() {
    let mut fb = Framebuffer::new();
    assert_eq!(fb.width(), 320);
    assert_eq!(fb.height(), 170);

    fb.set_pixel(10, 20, 0xF800);
    assert_eq!(fb.get_pixel(10, 20), Some(0xF800));

    fb.clear(0xFFFF);
    assert_eq!(fb.get_pixel(0, 0), Some(0xFFFF));
}

#[test]
fn test_orientation_packet() {
    let packet = build_orientation_packet(false);
    assert_eq!(packet[1], LCD_SIGNATURE);
    assert_eq!(packet[2], Command::Config.byte());
    assert_eq!(packet[3], SubCommand::Orientation.byte());
    assert_eq!(packet[4], 0x01); // Landscape

    let packet = build_orientation_packet(true);
    assert_eq!(packet[4], 0x02); // Portrait
}

#[test]
fn test_heartbeat_packet() {
    let packet = build_heartbeat_packet(14, 30, 45);
    assert_eq!(packet[1], LCD_SIGNATURE);
    assert_eq!(packet[2], Command::Config.byte());
    assert_eq!(packet[3], SubCommand::SetTime.byte());
    assert_eq!(packet[4], 14);
    assert_eq!(packet[5], 30);
    assert_eq!(packet[6], 45);
}

#[test]
fn test_fix_value() {
    assert_eq!(LedDevice::fix_value(1).unwrap(), 5);
    assert_eq!(LedDevice::fix_value(3).unwrap(), 3);
    assert_eq!(LedDevice::fix_value(5).unwrap(), 1);
    assert!(LedDevice::fix_value(0).is_err());
    assert!(LedDevice::fix_value(6).is_err());
}

#[test]
fn test_checksum() {
    let packet = [0xFA, 0x01, 0x03, 0x03];
    let sum = LedDevice::checksum(&packet);
    // 0xFA + 0x01 + 0x03 + 0x03 = 0x101, wraps to 0x01
    assert_eq!(sum, 0x01);
}

#[test]
fn test_build_packet() {
    let packet = LedDevice::build_packet(LedTheme::Rainbow, 3, 3).unwrap();
    assert_eq!(packet[0], 0xFA);
    assert_eq!(packet[1], 0x01); // Rainbow
    assert_eq!(packet[2], 0x03); // 6 - 3 = 3
    assert_eq!(packet[3], 0x03); // 6 - 3 = 3
}

#[test]
fn test_theme_from_str() {
    assert_eq!("rainbow".parse::<LedTheme>().unwrap(), LedTheme::Rainbow);
    assert_eq!(
        "breathing".parse::<LedTheme>().unwrap(),
        LedTheme::Breathing
    );
    assert_eq!("off".parse::<LedTheme>().unwrap(), LedTheme::Off);
}

#[test]
fn test_hardware_byte() {
    assert_eq!(Orientation::Landscape.hardware_byte(), 0x01);
    assert_eq!(Orientation::Portrait.hardware_byte(), 0x02);
    assert_eq!(Orientation::LandscapeUpsideDown.hardware_byte(), 0x01);
    assert_eq!(Orientation::PortraitUpsideDown.hardware_byte(), 0x02);
}

#[test]
fn test_needs_rotation() {
    assert!(!Orientation::Landscape.needs_rotation());
    assert!(!Orientation::Portrait.needs_rotation());
    assert!(Orientation::LandscapeUpsideDown.needs_rotation());
    assert!(Orientation::PortraitUpsideDown.needs_rotation());
}

#[test]
fn test_dimensions() {
    assert_eq!(Orientation::Landscape.dimensions(), (320, 170));
    assert_eq!(Orientation::Portrait.dimensions(), (170, 320));
}

#[test]
fn test_from_str() {
    assert_eq!(
        "landscape".parse::<Orientation>().unwrap(),
        Orientation::Landscape
    );
    assert_eq!(
        "portrait".parse::<Orientation>().unwrap(),
        Orientation::Portrait
    );
    assert_eq!(
        "landscape-upside-down".parse::<Orientation>().unwrap(),
        Orientation::LandscapeUpsideDown
    );
}

// Further cases of the hardware layer.

#[test]
fn rgb565_round_trips_through_rgb888() {
    for p in [0x0000u16, 0xF800, 0x07E0, 0x001F, 0xFFFF, 0x1234, 0xABCD] {
        let (r, g, b) = rgb565_to_rgb888(p);
        assert_eq!(rgb888_to_rgb565(r, g, b), p);
    }
    assert_eq!(rgb565_to_rgb888(0xF800), (255, 0, 0));
    assert_eq!(rgb565_to_rgb888(0x0000), (0, 0, 0));
}

#[test]
fn parse_hex_color_edge_cases() {
    assert_eq!(parse_hex_color("##FF0000"), Some(0xF800));
    assert_eq!(parse_hex_color("#ff0000"), Some(0xF800));
    assert_eq!(parse_hex_color("#FF00"), None);
    assert_eq!(parse_hex_color("#FF0000AA"), None);
    assert_eq!(parse_hex_color(""), None);
    assert_eq!(parse_hex_color("+F+F+F"), None);
    assert_eq!(parse_hex_color("#+FFFFF"), None);
    assert_eq!(parse_hex_color("#-10000"), None);
    assert_eq!(parse_hex_color("zza\u{20ac}"), None);
    assert_eq!(parse_hex_color("a\u{20ac}bc"), None);
}

#[test]
fn set_pixel_outside_is_ignored_and_others_kept() {
    let mut fb = Framebuffer::with_dimensions(4, 3);
    fb.set_pixel(4, 0, 0x1111);
    fb.set_pixel(0, 3, 0x1111);
    assert_eq!(fb.data(), &[0u16; 12][..]);
    fb.set_pixel(1, 2, 0x2222);
    assert_eq!(fb.get_pixel(1, 2), Some(0x2222));
    assert_eq!(fb.get_pixel(2, 1), Some(0));
    assert_eq!(fb.get_pixel(4, 2), None);
}

#[test]
fn fill_rect_clips_to_the_image() {
    let mut fb = Framebuffer::with_dimensions(4, 3);
    fb.fill_rect(2, 1, 10, 10, 7);
    assert_eq!(fb.data(), &[0, 0, 0, 0, 0, 0, 7, 7, 0, 0, 7, 7][..]);
}

#[test]
fn copy_from_rgb565_checks_the_size() {
    let mut fb = Framebuffer::with_dimensions(2, 2);
    assert!(fb.copy_from_rgb565(&[1, 2, 3]).is_err());
    assert_eq!(fb.data(), &[0, 0, 0, 0][..]);
    fb.copy_from_rgb565(&[1, 2, 3, 4]).unwrap();
    assert_eq!(fb.data(), &[1, 2, 3, 4][..]);
}

#[test]
fn rgba_export_reads_back() {
    let mut fb = Framebuffer::with_dimensions(2, 1);
    fb.copy_from_rgb565(&[0xF800, 0x07E0]).unwrap();
    let rgba = fb.to_rgba8();
    assert_eq!(rgba, vec![255, 0, 0, 255, 0, 255, 0, 255]);
    let mut other = Framebuffer::with_dimensions(2, 1);
    other.copy_from_rgba8(&rgba).unwrap();
    assert_eq!(other.data(), fb.data());
}

#[test]
fn rotate_180_twice_restores() {
    let mut fb = Framebuffer::with_dimensions(3, 1);
    fb.copy_from_rgb565(&[1, 2, 3]).unwrap();
    fb.rotate_180();
    assert_eq!(fb.data(), &[3, 2, 1][..]);
    fb.rotate_180();
    assert_eq!(fb.data(), &[1, 2, 3][..]);
}

#[test]
fn extract_region_pads_outside() {
    let mut fb = Framebuffer::with_dimensions(2, 2);
    fb.copy_from_rgb565(&[1, 2, 3, 4]).unwrap();
    assert_eq!(fb.extract_region(1, 0, 2, 2), vec![2, 0, 4, 0]);
}

#[test]
fn resize_resets_only_on_change() {
    let mut fb = Framebuffer::with_dimensions(2, 1);
    fb.copy_from_rgb565(&[5, 6]).unwrap();
    fb.resize(2, 1);
    assert_eq!(fb.data(), &[5, 6][..]);
    fb.resize(1, 1);
    assert_eq!(fb.data(), &[0][..]);
}

#[test]
fn led_theme_bytes_and_errors() {
    assert_eq!(LedTheme::from_byte(1).unwrap(), LedTheme::Rainbow);
    assert_eq!(LedTheme::from_byte(5).unwrap(), LedTheme::Auto);
    assert!(LedTheme::from_byte(0).is_err());
    assert!(LedTheme::from_byte(6).is_err());
    assert_eq!("RAINBOW".parse::<LedTheme>().unwrap(), LedTheme::Rainbow);
    assert!("disco".parse::<LedTheme>().is_err());
    assert!(LedDevice::build_packet(LedTheme::Colors, 0, 3).is_err());
    let off = LedDevice::off_packet();
    assert_eq!(off[0], 0xFA);
    assert_eq!(off[1], 0x04);
}

#[test]
fn led_packet_checksum_and_inverted_values() {
    let packet = LedDevice::build_packet(LedTheme::Breathing, 1, 5).unwrap();
    assert_eq!(packet, [0xFA, 0x02, 0x05, 0x01, 0x02]);
}

#[test]
fn orientation_names_round_trip() {
    for o in [
        Orientation::Landscape,
        Orientation::Portrait,
        Orientation::LandscapeUpsideDown,
        Orientation::PortraitUpsideDown,
    ] {
        assert_eq!(o.as_str().parse::<Orientation>().unwrap(), o);
        assert_eq!(o.as_str().to_uppercase().parse::<Orientation>().unwrap(), o);
    }
    assert_eq!(
        "Portrait_Upside_Down".parse::<Orientation>().unwrap(),
        Orientation::PortraitUpsideDown
    );
    assert!("sideways".parse::<Orientation>().is_err());
}

#[test]
fn orientation_rotate_180_reverses_the_image() {
    let mut buf = [1u16, 2, 3, 4, 5, 6, 7];
    Orientation::rotate_180(&mut buf, 3, 2);
    assert_eq!(buf, [6, 5, 4, 3, 2, 1, 7]);
}

#[test]
fn refresh_packet_layout() {
    let packet = build_refresh_packet(0x0102, 0x0304, 2, 1, &[0xABCD, 0x1234]);
    assert_eq!(packet.len(), BUFFER_SIZE);
    assert_eq!(&packet[1..13], &[LCD_SIGNATURE, 0xA2, 0x02, 0x01, 0x04, 0x03, 2, 1, 0xAB, 0xCD, 0x12, 0x34]);
    assert_eq!(packet[13], 0);
}

#[test]
fn redraw_chunks_carry_the_image() {
    let pixels: Vec<u16> = (0..54400u32).map(|i| (i % 65536) as u16).collect();
    let first = build_redraw_chunk(0, &pixels, 0);
    assert_eq!(first[3], RedrawPhase::Start.byte());
    assert_eq!(first[4], 1);
    assert_eq!(first[8], 0x10);
    assert_eq!(&first[9..13], &[0, 0, 0, 1]);
    let last = build_redraw_chunk(CHUNK_COUNT - 1, &pixels, 26 * 2048);
    assert_eq!(last[3], RedrawPhase::End.byte());
    assert_eq!(last[4], 27);
    assert_eq!(last[8], 0x09);
    let p = 26 * 2048;
    assert_eq!(last[9], (pixels[p] >> 8) as u8);
    assert_eq!(last[10], (pixels[p] & 0xFF) as u8);
    assert_eq!(last[9 + 2 * 1152], 0);
}
