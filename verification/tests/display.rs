use lib::framebuffer::{Color as Rgba, Framebuffer, FramebufferInfo};
use lib::gpu::{classify, probe, DisplayMode, GpuDevice, GpuError, GpuFramebuffer, GpuVendor};
use lib::mmio::MmioOp;
use lib::vga::{
    crt_display_end_for_80x50, seq_clock_mode_for_80x50, Color, VgaChar, VgaTextMode, VGA_COLS,
    VGA_ROWS, VGA_TEXT_BASE,
};

fn plain(ch: u8) -> u16 {
    0x0700 | ch as u16
}

#[test]
fn vga_word_layout() {
    assert_eq!(VgaChar::new(b'A', Color::White, Color::Blue).to_word(), 0x1F41);
    assert_eq!(VgaChar::space().to_word(), 0x0720);
    let blinking = VgaChar { ch: b'z', fg: Color::Red, bg: Color::Black, blink: true };
    assert_eq!(blinking.to_word(), 0x847A);
}

#[test]
fn vga_color_indices() {
    assert_eq!(Color::White.value(), 15);
    assert_eq!(Color::Brown.value(), 6);
    assert_eq!(Color::from_u8(15), Some(Color::White));
    assert_eq!(Color::from_u8(0), Some(Color::Black));
    assert_eq!(Color::from_u8(16), None);
    for i in 0u8..16 {
        // law: every palette index names a colour with that index
        assert_eq!(Color::from_u8(i).unwrap().value(), i);
    }
}

#[test]
fn vga_read_after_write() {
    let mut vga = VgaTextMode::new_80x25(vec![0u16; 2000]);
    assert_eq!(vga.base(), VGA_TEXT_BASE);
    assert_eq!(vga.rows(), VGA_ROWS);
    assert_eq!(vga.cols(), VGA_COLS);
    let ch = VgaChar::new(b'A', Color::White, Color::Blue);
    vga.write_char(3, 7, ch);
    assert_eq!(vga.read_char(3, 7), Some(ch));
    assert_eq!(vga.word_at(3 * 80 + 7), 0x1F41);
    // a bright background reads back with its low bits and the blink bit
    vga.write_char(0, 0, VgaChar::new(b'x', Color::Black, Color::Yellow));
    assert_eq!(
        vga.read_char(0, 0),
        Some(VgaChar { ch: b'x', fg: Color::Black, bg: Color::Brown, blink: true })
    );
    assert_eq!(vga.read_char(25, 0), None);
    assert_eq!(vga.read_char(0, 80), None);
    // writes off the screen change nothing
    vga.write_char(30, 0, ch);
    assert_eq!(vga.read_char(24, 0), Some(VgaChar { ch: 0, fg: Color::Black, bg: Color::Black, blink: false }));
}

#[test]
fn vga_print_and_control_characters() {
    let mut vga = VgaTextMode::new_80x25(vec![0u16; 2000]);
    vga.print("Hi\n");
    assert_eq!(vga.word_at(0), plain(b'H'));
    assert_eq!(vga.word_at(1), plain(b'i'));
    assert_eq!(vga.cursor_pos(), (1, 0));
    vga.print("\tx");
    assert_eq!(vga.cursor_pos(), (1, 9));
    assert_eq!(vga.word_at(80 + 8), plain(b'x'));
    vga.print("ab\rc");
    assert_eq!(vga.word_at(80), plain(b'c'));
    assert_eq!(vga.cursor_pos(), (1, 1));
}

#[test]
fn vga_print_wraps_and_scrolls() {
    let mut vga = VgaTextMode::new(0, 2, 3, vec![0u16; 6]);
    vga.print("abcdefg");
    let words: Vec<u16> = (0..6).map(|i| vga.word_at(i)).collect();
    assert_eq!(words, vec![plain(b'd'), plain(b'e'), plain(b'f'), plain(b'g'), 0x0720, 0x0720]);
    assert_eq!(vga.cursor_pos(), (1, 1));
}

#[test]
fn vga_scroll_and_clear() {
    let mut vga = VgaTextMode::new(0, 3, 2, vec![0u16; 6]);
    vga.write_char(1, 0, VgaChar::new(b'A', Color::Green, Color::Black));
    vga.write_char(2, 1, VgaChar::new(b'B', Color::Green, Color::Black));
    vga.scroll();
    assert_eq!(vga.word_at(0), 0x0241);
    assert_eq!(vga.word_at(3), 0x0242);
    assert_eq!(vga.word_at(4), 0x0720);
    assert_eq!(vga.word_at(5), 0x0720);
    vga.clear(Color::Blue);
    for i in 0..6 {
        assert_eq!(vga.word_at(i), 0x1720);
    }
}

#[test]
fn vga_cursor_and_mode_registers() {
    let vga = VgaTextMode::new_80x25(vec![0u16; 2000]);
    assert_eq!(vga.cursor_registers(24, 79), (0x07, 0x07CF));
    assert_eq!(vga.cursor_registers(0, 0), (0, 0));
    assert_eq!(seq_clock_mode_for_80x50(0x21), 0x01);
    assert_eq!(crt_display_end_for_80x50(0x9F), 0x1F);
}

fn info32(width: usize, height: usize) -> FramebufferInfo {
    FramebufferInfo { base_addr: 0xFD00_0000, width, height, pitch: width * 4, bpp: 32 }
}

fn blank(info: FramebufferInfo) -> Framebuffer {
    Framebuffer::new(info, vec![0u8; info.pitch * info.height])
}

#[test]
fn framebuffer_pixel_roundtrip() {
    let mut fb = blank(info32(4, 3));
    assert_eq!(fb.width(), 4);
    assert_eq!(fb.height(), 3);
    assert_eq!(fb.pixel(1, 1), Some(Rgba::new(0, 0, 0, 0)));
    fb.set_pixel(1, 2, Rgba::new(10, 20, 30, 40));
    assert_eq!(fb.pixel(1, 2), Some(Rgba::new(10, 20, 30, 40)));
    // law: other pixels keep their colour
    assert_eq!(fb.pixel(2, 2), Some(Rgba::new(0, 0, 0, 0)));
    assert_eq!(fb.pixel(4, 0), None);
    fb.set_pixel(9, 9, Rgba::white());
    assert_eq!(fb.pixel(3, 2), Some(Rgba::new(0, 0, 0, 0)));
    // blue, green, red, alpha at 4 * (2 * 4 + 1)
    assert_eq!(&fb.front()[36..40], &[30, 20, 10, 40]);
    assert_eq!(fb.front().len(), 4 * 4 * 3);
    fb.flush();
}

#[test]
fn framebuffer_24_bit_reads_full_alpha() {
    let info = FramebufferInfo { base_addr: 0, width: 2, height: 2, pitch: 6, bpp: 24 };
    let mut fb = blank(info);
    fb.set_pixel(1, 1, Rgba::new(1, 2, 3, 4));
    assert_eq!(fb.pixel(1, 1), Some(Rgba::new(1, 2, 3, 255)));
    let info16 = FramebufferInfo { base_addr: 0, width: 2, height: 2, pitch: 4, bpp: 16 };
    let fb16 = blank(info16);
    assert_eq!(fb16.pixel(0, 0), None);
}

#[test]
fn framebuffer_fill_rect_reads_back_and_clips() {
    let mut fb = blank(info32(5, 4));
    fb.fill_rect(3, 2, 10, 10, Rgba::red());
    for y in 0..4 {
        for x in 0..5 {
            let expect = if x >= 3 && y >= 2 { Rgba::red() } else { Rgba::new(0, 0, 0, 0) };
            assert_eq!(fb.pixel(x, y), Some(expect));
        }
    }
    fb.clear(Rgba::blue());
    for y in 0..4 {
        for x in 0..5 {
            assert_eq!(fb.pixel(x, y), Some(Rgba::blue()));
        }
    }
}

#[test]
fn framebuffer_blit_copies_rgb_source() {
    let mut fb = blank(info32(3, 3));
    let data = [1u8, 2, 3, 4, 5, 6, 7, 8, 9, 10, 11, 12, 13, 14, 15, 16];
    fb.blit(&data, 1, 1, 2, 2);
    assert_eq!(fb.pixel(1, 1), Some(Rgba::new(1, 2, 3, 4)));
    assert_eq!(fb.pixel(2, 1), Some(Rgba::new(5, 6, 7, 8)));
    assert_eq!(fb.pixel(1, 2), Some(Rgba::new(9, 10, 11, 12)));
    assert_eq!(fb.pixel(2, 2), Some(Rgba::new(13, 14, 15, 16)));
    assert_eq!(fb.pixel(0, 0), Some(Rgba::new(0, 0, 0, 0)));
}

#[test]
fn framebuffer_double_buffer() {
    let mut fb = blank(info32(2, 2));
    fb.set_pixel(0, 0, Rgba::green());
    fb.enable_double_buffer(None, Vec::new());
    assert_eq!(fb.pixel(0, 0), Some(Rgba::green()));
    fb.enable_double_buffer(Some(0x1000), vec![0u8; 16]);
    // drawing now goes to the back buffer, which held zeros
    assert_eq!(fb.pixel(0, 0), Some(Rgba::new(0, 0, 0, 0)));
    fb.set_pixel(1, 1, Rgba::white());
    // the front buffer still holds the green pixel and nothing else
    assert_eq!(&fb.front()[0..4], &[0, 255, 0, 255]);
    assert_eq!(&fb.front()[12..16], &[0, 0, 0, 0]);
    fb.swap_buffers();
    assert_eq!(fb.pixel(1, 1), Some(Rgba::white()));
    assert_eq!(&fb.front()[12..16], &[255, 255, 255, 255]);
    assert_eq!(&fb.front()[0..4], &[0, 0, 0, 0]);
}

#[test]
fn framebuffer_draw_char_uses_font_bits() {
    let mut font = [0u8; 4096];
    font[b'A' as usize * 16] = 0x80;
    font[b'A' as usize * 16 + 15] = 0x01;
    let mut fb = blank(info32(16, 16));
    fb.draw_string(0, 0, "AA", Rgba::white(), Rgba::black(), &font);
    assert_eq!(fb.pixel(0, 0), Some(Rgba::white()));
    assert_eq!(fb.pixel(1, 0), Some(Rgba::black()));
    assert_eq!(fb.pixel(7, 15), Some(Rgba::white()));
    assert_eq!(fb.pixel(8, 0), Some(Rgba::white()));
    assert_eq!(fb.pixel(15, 15), Some(Rgba::white()));
    // a glyph that does not fit is not drawn
    fb.draw_char(12, 0, b'A', Rgba::red(), Rgba::red(), &font);
    assert_eq!(fb.pixel(12, 0), Some(Rgba::black()));
}

#[test]
fn gpu_classify_and_probe() {
    assert_eq!(classify(0x1234, 0x1111), GpuVendor::Bochs);
    assert_eq!(classify(0x1AF4, 0x1050), GpuVendor::Virtio);
    assert_eq!(classify(0x8086, 0x0000), GpuVendor::Intel);
    assert_eq!(classify(0x1002, 0x1234), GpuVendor::Amd);
    assert_eq!(classify(0x10DE, 0x1), GpuVendor::Nvidia);
    assert_eq!(classify(0x1234, 0x2222), GpuVendor::Generic);
    assert!(probe(0x1234, 0x1111, 0xFD00_0000, 0x100_0000, 0xFFFF).is_none());
    assert!(probe(0x1234, 0x1111, 0xFD00_0000, 0x100_0000, 0).is_none());
    let dev = probe(0x1234, 0x1111, 0xFD00_0000, 0x100_0000, 0x1111).unwrap();
    assert!(dev.is_initialized());
    assert_eq!(dev.vendor(), GpuVendor::Bochs);
    assert_eq!(dev.current_mode(), None);
}

#[test]
fn gpu_set_mode_programs_registers() {
    let mut dev = GpuDevice::new(GpuVendor::Bochs, 0xFD00_0000, 0x100_0000);
    let mode = DisplayMode { width: 640, height: 480, bpp: 32, pitch: 0, refresh_hz: 60 };
    assert_eq!(dev.set_mode(&mode), Err(GpuError::InitFailed));
    assert_eq!(dev.present(), Err(GpuError::InvalidMode));
    assert_eq!(dev.init(0x1111), Ok(()));
    let ops = dev.set_mode(&mode).unwrap();
    assert_eq!(
        ops,
        vec![
            MmioOp::Write32(0x08, 640),
            MmioOp::Write32(0x0C, 480),
            MmioOp::Write32(0x10, 32),
            MmioOp::Write32(0x14, 2560),
            MmioOp::Write32(0x18, 0xFD00_0000),
            MmioOp::Write32(0x1C, 0x01),
        ]
    );
    assert_eq!(dev.current_mode(), Some(DisplayMode { pitch: 2560, ..mode }));
    assert_eq!(dev.vram_in_use(), Some(2560 * 480));
    assert_eq!(dev.present(), Ok(MmioOp::Write32(0x20, 0x01)));
    let too_big = DisplayMode { width: 4096, height: 4096, bpp: 32, pitch: 0, refresh_hz: 60 };
    assert_eq!(dev.set_mode(&too_big), Err(GpuError::NoMemory));
    assert_eq!(dev.current_mode(), Some(DisplayMode { pitch: 2560, ..mode }));
}

#[test]
fn gpu_vblank_and_edid() {
    assert!(GpuDevice::vblank_seen(0x3));
    assert!(!GpuDevice::vblank_seen(0x2));
    assert_eq!(GpuDevice::vblank_ack(), MmioOp::Write32(0x24, 0x01));
    assert_eq!(GpuDevice::wait_vblank(true), Ok(()));
    assert_eq!(GpuDevice::wait_vblank(false), Err(GpuError::Timeout));
    assert_eq!(GpuDevice::edid_register(0), 0x100);
    assert_eq!(GpuDevice::edid_register(7), 0x104);
    let dev = GpuDevice::new(GpuVendor::Generic, 0, 0);
    let mut words = vec![0u32; 128];
    words[1] = 0x1FF;
    words[2] = 0xAB;
    assert_eq!(dev.edid(0, &words), None);
    let e = dev.edid(1, &words).unwrap();
    assert_eq!(e[0], 0x00);
    assert_eq!(e[1], 0xFF);
    assert_eq!(e[2], 0xAB);
    words[1] = 0xFE;
    assert_eq!(dev.edid(1, &words), None);
}

#[test]
fn gpu_framebuffer_pixel_writes() {
    let mut dev = GpuDevice::new(GpuVendor::Bochs, 0, 0x1_0000);
    dev.init(1).unwrap();
    assert!(GpuFramebuffer::new(&dev).is_none());
    let mode = DisplayMode { width: 4, height: 2, bpp: 32, pitch: 0, refresh_hz: 60 };
    dev.set_mode(&mode).unwrap();
    let mut fb = GpuFramebuffer::new(&dev).unwrap();
    assert_eq!(fb.width(), 4);
    assert_eq!(fb.height(), 2);
    let ops = fb.set_pixel(1, 1, 0x11, 0x22, 0x33, 0x44);
    assert_eq!(
        ops,
        vec![
            MmioOp::Write8(20, 0x33),
            MmioOp::Write8(21, 0x22),
            MmioOp::Write8(22, 0x11),
            MmioOp::Write8(23, 0x44),
        ]
    );
    assert!(fb.set_pixel(4, 0, 1, 2, 3, 4).is_empty());
    let clear = fb.clear(1, 2, 3);
    assert_eq!(clear.len(), 4 * 2 * 3);
    assert_eq!(clear[0], MmioOp::Write8(0, 3));
    assert_eq!(clear[3 * 5], MmioOp::Write8(20, 3));
    assert_eq!(clear[3 * 7 + 2], MmioOp::Write8(30, 1));
}

#[test]
fn vga_starts_from_screen_contents() {
    let mut contents = vec![0u16; 2000];
    contents[81] = 0x1E41;
    let vga = VgaTextMode::new_80x25(contents);
    assert_eq!(vga.read_char(1, 1), Some(VgaChar { ch: b'A', fg: Color::Yellow, bg: Color::Blue, blink: false }));
    assert_eq!(vga.read_char(0, 0), Some(VgaChar { ch: 0, fg: Color::Black, bg: Color::Black, blink: false }));
    assert_eq!(vga.cursor_pos(), (0, 0));
}

#[test]
fn framebuffer_starts_from_screen_contents() {
    let info = info32(2, 1);
    let fb = Framebuffer::new(info, vec![1, 2, 3, 4, 5, 6, 7, 8]);
    assert_eq!(fb.pixel(0, 0), Some(Rgba::new(3, 2, 1, 4)));
    assert_eq!(fb.pixel(1, 0), Some(Rgba::new(7, 6, 5, 8)));
    let mut fb2 = Framebuffer::new(info, vec![0u8; 8]);
    fb2.enable_double_buffer(Some(0x2000), vec![9, 9, 9, 9, 0, 0, 0, 0]);
    assert_eq!(fb2.pixel(0, 0), Some(Rgba::new(9, 9, 9, 9)));
    assert_eq!(&fb2.front()[0..4], &[0, 0, 0, 0]);
}

#[test]
fn vga_print_on_standard_screen() {
    let mut vga = VgaTextMode::new_80x25(vec![0u16; 2000]);
    vga.print("ab\n\tc");
    assert_eq!(vga.cursor_pos(), (1, 9));
    assert_eq!(vga.read_char(0, 0).unwrap().ch, b'a');
    assert_eq!(vga.read_char(0, 1).unwrap().ch, b'b');
    assert_eq!(vga.read_char(1, 8), Some(VgaChar { ch: b'c', fg: Color::LightGray, bg: Color::Black, blink: false }));
    assert_eq!(vga.cursor_registers(1, 9), (0, 89));
}

#[test]
fn vga_print_on_degenerate_screens() {
    let mut flat = VgaTextMode::new(0, 0, 3, Vec::new());
    assert!(flat.can_put(b'a'));
    flat.print("ab\r");
    assert_eq!(flat.cursor_pos(), (0, 0));
    flat.print("abc");
    assert_eq!(flat.cursor_pos(), (0, 3));
    assert!(!flat.can_put(b'd'));
    assert!(!flat.can_put(b'\n'));
    assert!(flat.can_put(b'\t'));
    let mut narrow = VgaTextMode::new(0, 2, 0, Vec::new());
    narrow.print("ab");
    assert_eq!(narrow.cursor_pos(), (1, 1));
    assert!(!narrow.can_put(b'\t'));
    assert!(narrow.can_put(b'\n'));
    let mut vga = VgaTextMode::new(0, 1, 4, vec![0u16; 4]);
    vga.put_byte(b'x');
    assert_eq!(vga.read_char(0, 0).unwrap().ch, b'x');
    assert_eq!(vga.cursor_pos(), (0, 1));
}

#[test]
fn gpu_vblank_polls() {
    assert_eq!(GpuDevice::vblank_poll(0, 0), None);
    assert_eq!(GpuDevice::vblank_poll(0, 1), Some(Ok(MmioOp::Write32(0x24, 0x01))));
    assert_eq!(GpuDevice::vblank_poll(99_999, 0), Some(Err(GpuError::Timeout)));
}
